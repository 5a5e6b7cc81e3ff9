use qmem::amplitude::Amplitude;
use qmem::gate::{ApplyError, DGate, GateError, SGate};
use qmem::memory::{Memory, MemoryError};

fn amp(re: f64, im: f64) -> Amplitude {
    Amplitude { re_bits: re.to_bits(), im_bits: im.to_bits() }
}

fn amps(values: &[(f64, f64)]) -> Vec<Amplitude> {
    values.iter().map(|&(re, im)| amp(re, im)).collect()
}

#[test]
fn zeroed_register_measures_false_everywhere() {
    let mut m = Memory::zeroed(3);
    let before = m.qubits_matrix().clone();
    for i in 0..3 {
        assert!(!m.predict_measure(i));
    }
    assert_eq!(*m.qubits_matrix(), before);
    for i in 0..3 {
        assert!(!m.measure(i));
    }
    // The collapse writes back the basis state each qubit already holds.
    assert_eq!(*m.qubits_matrix(), before);
    for i in 0..3 {
        assert!(!m.predict_measure(i));
    }
}

#[test]
fn zeroed_register_holds_basis_states() {
    let m = Memory::zeroed(2);
    let expected = amps(&[(1.0, 0.0), (0.0, 0.0), (1.0, 0.0), (0.0, 0.0)]);
    assert_eq!(*m.qubits_matrix(), expected);
}

#[test]
fn new_is_a_raw_all_zero_buffer() {
    let mut m = Memory::new(2);
    let expected = amps(&[(0.0, 0.0); 4]);
    assert_eq!(*m.qubits_matrix(), expected);
    assert!(!m.predict_measure(0));
    assert!(!m.measure(1));
}

#[test]
fn from_matrix_accepts_a_normalized_qubit() {
    // |0.6|^2 + |0.8|^2 == 1.0 exactly.
    let m = Memory::from_matrix(amps(&[(0.6, 0.0), (0.8, 0.0)])).unwrap();
    assert_eq!(*m.qubits_matrix(), amps(&[(0.6, 0.0), (0.8, 0.0)]));
}

#[test]
fn from_matrix_accepts_imaginary_amplitudes() {
    let m = Memory::from_matrix(amps(&[(0.0, 0.6), (0.8, 0.0)])).unwrap();
    assert_eq!(*m.qubits_matrix(), amps(&[(0.0, 0.6), (0.8, 0.0)]));
}

#[test]
fn from_matrix_rejects_a_norm_violation() {
    // |0.6|^2 + |0.6|^2 == 0.72, far from 1.
    let res = Memory::from_matrix(amps(&[(0.6, 0.0), (0.6, 0.0)]));
    assert_eq!(res.unwrap_err(), MemoryError::NormViolation { qubit: 0 });
}

#[test]
fn from_matrix_reports_the_first_bad_qubit() {
    let res = Memory::from_matrix(amps(&[(0.6, 0.0), (0.8, 0.0), (1.0, 0.0), (1.0, 0.0)]));
    assert_eq!(res.unwrap_err(), MemoryError::NormViolation { qubit: 1 });
}

#[test]
fn from_matrix_rejects_an_odd_length_vector() {
    let res = Memory::from_matrix(amps(&[(1.0, 0.0)]));
    assert_eq!(res.unwrap_err(), MemoryError::WrongShape { len: 1 });
}

#[test]
fn from_matrix_accepts_an_empty_vector() {
    let m = Memory::from_matrix(Vec::new()).unwrap();
    assert!(m.qubits_matrix().is_empty());
}

#[test]
fn dynamic_gate_from_odd_square_matrix_fails() {
    // A 3x3 matrix is square, but its dimension is odd.
    let res = DGate::from_matrix(3, 3, amps(&[(0.0, 0.0); 9]));
    assert_eq!(res.unwrap_err(), GateError::OddDimension { dim: 3 });
}

#[test]
fn dynamic_gate_from_non_square_matrix_fails_distinctly() {
    let res = DGate::from_matrix(2, 3, amps(&[(0.0, 0.0); 6]));
    let err = res.unwrap_err();
    assert_eq!(err, GateError::NotSquare { rows: 2, cols: 3 });
    // The shape mismatch is a different error from the odd dimension.
    assert_ne!(err, GateError::OddDimension { dim: 2 });
}

#[test]
fn dynamic_gate_new_validates_like_from_matrix() {
    assert_eq!(
        DGate::new(2, 3, amps(&[(0.0, 0.0); 6])).unwrap_err(),
        GateError::NotSquare { rows: 2, cols: 3 },
    );
    assert_eq!(
        DGate::new(1, 1, amps(&[(1.0, 0.0)])).unwrap_err(),
        GateError::OddDimension { dim: 1 },
    );
    assert!(DGate::new(2, 2, amps(&[(0.0, 0.0); 4])).is_ok());
}

#[test]
fn static_gate_with_odd_dimension_fails() {
    let res = SGate::<3>::from_matrix(amps(&[(0.0, 0.0); 9]));
    assert_eq!(res.unwrap_err(), GateError::OddDimension { dim: 3 });
    let id = SGate::<3>::identity();
    assert_eq!(id.unwrap_err(), GateError::OddDimension { dim: 3 });
}

#[test]
fn static_gate_new_validates_like_from_matrix() {
    assert!(SGate::<2>::new(amps(&[(0.0, 0.0); 4])).is_ok());
    assert_eq!(
        SGate::<1>::new(amps(&[(1.0, 0.0)])).unwrap_err(),
        GateError::OddDimension { dim: 1 },
    );
}

#[test]
fn dynamic_identity_gate_leaves_memory_unchanged() {
    let mut m = Memory::from_matrix(amps(&[(0.6, 0.0), (0.0, 0.8), (0.0, 1.0), (0.0, 0.0)]))
        .unwrap();
    let before = m.qubits_matrix().clone();
    let g = DGate::identity(1);
    m.apply_gate(0, &g).unwrap();
    m.apply_gate(2, &g).unwrap();
    assert_eq!(*m.qubits_matrix(), before);
    let g2 = DGate::identity(2);
    m.apply_gate(0, &g2).unwrap();
    assert_eq!(*m.qubits_matrix(), before);
}

#[test]
fn static_identity_gate_leaves_memory_unchanged() {
    let mut m = Memory::from_matrix(amps(&[(0.8, 0.0), (-0.6, 0.0)])).unwrap();
    let before = m.qubits_matrix().clone();
    let g = SGate::<2>::identity().unwrap();
    m.apply_gate(0, &g).unwrap();
    assert_eq!(*m.qubits_matrix(), before);
}

#[test]
fn out_of_bounds_apply_fails_and_leaves_memory_unchanged() {
    let mut m = Memory::zeroed(1);
    let before = m.qubits_matrix().clone();
    let wide = DGate::identity(2);
    assert_eq!(
        m.apply_gate(0, &wide).unwrap_err(),
        ApplyError::OutOfBounds { start: 0, dim: 4, len: 2 },
    );
    let g = DGate::identity(1);
    assert_eq!(
        m.apply_gate(1, &g).unwrap_err(),
        ApplyError::OutOfBounds { start: 1, dim: 2, len: 2 },
    );
    assert_eq!(*m.qubits_matrix(), before);
}

#[test]
fn measure_is_true_exactly_at_the_half_boundary() {
    // beta = 1/sqrt(2): the computed |beta|^2 lands one last-place digit
    // above one half, on the true side of the >= rule's boundary.
    let h = std::f64::consts::FRAC_1_SQRT_2;
    let mut m = Memory::zeroed(1);
    {
        let v = m.qubits_matrix_mut();
        v[0] = amp(h, 0.0);
        v[1] = amp(h, 0.0);
    }
    assert!(m.predict_measure(0));
    assert!(m.measure(0));
    assert_eq!(*m.qubits_matrix(), amps(&[(0.0, 0.0), (1.0, 0.0)]));
}

#[test]
fn predict_measure_below_threshold_is_false() {
    let mut m = Memory::zeroed(1);
    {
        let v = m.qubits_matrix_mut();
        v[0] = amp(0.8, 0.0);
        v[1] = amp(0.0, 0.6);
    }
    // |0.6i|^2 == 0.36 < 0.5.
    assert!(!m.predict_measure(0));
}

#[test]
fn measure_collapses_and_is_idempotent() {
    let mut m = Memory::from_matrix(amps(&[(0.6, 0.0), (0.0, 0.8)])).unwrap();
    // |0.8i|^2 == 0.64 >= 0.5.
    assert!(m.measure(0));
    assert_eq!(*m.qubits_matrix(), amps(&[(0.0, 0.0), (1.0, 0.0)]));
    assert!(m.predict_measure(0));
    assert!(m.measure(0));
    assert_eq!(*m.qubits_matrix(), amps(&[(0.0, 0.0), (1.0, 0.0)]));
}

#[test]
fn exchange_gate_swaps_the_basis_amplitudes() {
    // The 2x2 exchange matrix [[0, 1], [1, 0]] maps (1, 0) to (0, 1).
    let x = DGate::from_matrix(2, 2, amps(&[(0.0, 0.0), (1.0, 0.0), (1.0, 0.0), (0.0, 0.0)]))
        .unwrap();
    let mut m = Memory::zeroed(1);
    m.apply_gate(0, &x).unwrap();
    assert_eq!(*m.qubits_matrix(), amps(&[(0.0, 0.0), (1.0, 0.0)]));
    assert!(m.predict_measure(0));
    // Applying it again swaps back.
    m.apply_gate(0, &x).unwrap();
    assert_eq!(*m.qubits_matrix(), amps(&[(1.0, 0.0), (0.0, 0.0)]));
    assert!(!m.predict_measure(0));
}

#[test]
fn superposition_gate_reaches_the_threshold_boundary() {
    // The Hadamard matrix sends (1, 0) to (1/sqrt(2), 1/sqrt(2)); the
    // squared modulus of beta rounds to just above one half, so the
    // threshold rule observes a one.
    let h = std::f64::consts::FRAC_1_SQRT_2;
    let had = DGate::from_matrix(2, 2, amps(&[(h, 0.0), (h, 0.0), (h, 0.0), (-h, 0.0)])).unwrap();
    let mut m = Memory::zeroed(1);
    m.apply_gate(0, &had).unwrap();
    assert_eq!(*m.qubits_matrix(), amps(&[(h, 0.0), (h, 0.0)]));
    assert!(m.predict_measure(0));
}

#[test]
fn strict_tolerance_rejects_the_rounded_superposition() {
    // In binary64 arithmetic |1/sqrt(2)|^2 + |1/sqrt(2)|^2 lands a last
    // digit above 1.0, and the tolerance admits only an exact 1.0.
    let h = std::f64::consts::FRAC_1_SQRT_2;
    let res = Memory::from_matrix(amps(&[(h, 0.0), (h, 0.0)]));
    assert_eq!(res.unwrap_err(), MemoryError::NormViolation { qubit: 0 });
}

#[test]
fn zero_qubit_gate_on_empty_register_succeeds() {
    let mut m = Memory::zeroed(0);
    let g = DGate::identity(0);
    assert!(m.apply_gate(0, &g).is_ok());
    assert!(m.qubits_matrix().is_empty());
}

#[test]
fn gate_at_offset_touches_only_its_slice() {
    let x = DGate::from_matrix(2, 2, amps(&[(0.0, 0.0), (1.0, 0.0), (1.0, 0.0), (0.0, 0.0)]))
        .unwrap();
    let mut m = Memory::zeroed(2);
    m.apply_gate(2, &x).unwrap();
    assert_eq!(
        *m.qubits_matrix(),
        amps(&[(1.0, 0.0), (0.0, 0.0), (0.0, 0.0), (1.0, 0.0)]),
    );
    assert!(!m.predict_measure(0));
    assert!(m.predict_measure(1));
}

#[test]
fn views_expose_the_full_amplitude_vector() {
    let mut m = Memory::zeroed(2);
    assert_eq!(m.qubits_matrix().len(), 4);
    assert_eq!(m.qubits_matrix_mut().len(), 4);
}
