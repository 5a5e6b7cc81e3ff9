//! The quantum memory: one flat column of amplitudes, two per qubit, with
//! the probability-axiom check at construction, gate application at an
//! offset, and deterministic threshold measurement with collapse.
//!
//! The chosen semantics, stated once: `zeroed` initializes every qubit to
//! the |0> basis state; `new` is the low-level allocator that returns a raw
//! all-zero, not yet normalized buffer; `measure` uses the deterministic
//! threshold rule (observed as one exactly when the squared modulus of beta
//! is at least one half) and collapses the measured qubit to the basis
//! state of the outcome, while `predict_measure` applies the same rule
//! without mutating anything.

use vstd::prelude::*;

use crate::amplitude::{
    abs_sq_bits, abs_sq_outcome, amp_add, amp_add_spec, amp_canon, amp_clean, amp_one, amp_zero,
    f64_at_least_half, f64_canon, lemma_basis_amps_clean, Amplitude, F64_EXP_MASK, F64_HALF_BITS,
    F64_MANTISSA_MASK, F64_ONE_BITS, F64_SIGN_BIT,
};
use crate::gate::{
    amps_clean, apply_rel, identity_mat, lemma_identity_apply_is_noop, multiply_block, ApplyError,
    Gate,
};

verus! {

/// Why a memory could not be constructed from an amplitude vector.
#[derive(Clone, Copy, Debug, PartialEq, Eq, Structural)]
pub enum MemoryError {
    /// The vector must hold exactly two amplitudes per qubit; a vector of
    /// odd length `len` is not a column of qubit amplitude pairs.
    WrongShape { len: usize },
    /// Qubit `qubit` does not respect the probability axiom: the sum of the
    /// squared moduli of its two amplitudes is not 1 within tolerance.
    NormViolation { qubit: usize },
}

/// The amplitude vector for `size` qubits: amplitudes 2i and 2i+1 are the
/// qubit i amplitudes for the classical outcomes 0 and 1.
#[derive(Debug)]
pub struct Memory {
    qubits: Vec<Amplitude>,
}

impl View for Memory {
    type V = Seq<Amplitude>;

    closed spec fn view(&self) -> Seq<Amplitude> {
        self.qubits@
    }
}

/// A real value as an amplitude: squared-modulus bits with a zero
/// imaginary part, the form in which the validation sums them.
pub open spec fn real_amp(t: u64) -> Amplitude {
    Amplitude { re_bits: t, im_bits: 0 }
}

/// What one run of the per-qubit validation concludes: there are
/// squared-modulus outcomes for the qubit's two amplitudes whose binary64
/// sum has exactly the bits of 1.0 (`accepted`) or does not.  The accepted
/// tolerance lies far below the spacing of binary64 values near 1.0, so a
/// sum within tolerance is a sum that is exactly 1.0.
pub open spec fn norm_check_outcome(alpha: Amplitude, beta: Amplitude, accepted: bool) -> bool {
    exists|ta: u64, tb: u64|
        #![trigger abs_sq_outcome(alpha, ta), abs_sq_outcome(beta, tb)]
        {
            &&& abs_sq_outcome(alpha, ta)
            &&& abs_sq_outcome(beta, tb)
            &&& accepted == (amp_add_spec(amp_canon(real_amp(ta)), amp_canon(real_amp(tb))).re_bits
                == F64_ONE_BITS)
        }
}

/// Qubit `q` passed the probability-axiom validation.
pub open spec fn qubit_norm_ok(v: Seq<Amplitude>, q: int) -> bool {
    norm_check_outcome(v[2 * q], v[2 * q + 1], true)
}

/// Every qubit of the vector passed the probability-axiom validation.
pub open spec fn all_normalized(v: Seq<Amplitude>) -> bool {
    forall|q: int| 0 <= q && 2 * q + 1 < v.len() ==> #[trigger] qubit_norm_ok(v, q)
}

/// The vector after qubit `index` collapses to the classical outcome `r`:
/// its amplitude pair is overwritten with the corresponding basis state.
pub open spec fn collapsed(v: Seq<Amplitude>, index: int, r: bool) -> Seq<Amplitude> {
    v.update(2 * index, if r { amp_zero() } else { amp_one() }).update(
        2 * index + 1,
        if r { amp_one() } else { amp_zero() },
    )
}

/// Everything `predict_measure` guarantees of its outcome: it is the
/// threshold rule's decision on a squared-modulus outcome of beta, and on
/// the two basis states (where that outcome is exact) its value is pinned.
pub open spec fn predict_rel(v: Seq<Amplitude>, index: int, r: bool) -> bool {
    &&& exists|t: u64| #[trigger] abs_sq_outcome(v[2 * index + 1], t) && r == f64_at_least_half(t)
    &&& v[2 * index + 1] == amp_zero() ==> !r
    &&& v[2 * index + 1] == amp_one() ==> r
}

/// Everything `measure` guarantees: the outcome obeys `predict_rel` on the
/// state before the call, and the measured qubit is collapsed to the basis
/// state of the outcome.
pub open spec fn measure_rel(pre: Seq<Amplitude>, post: Seq<Amplitude>, index: int, r: bool) -> bool {
    &&& predict_rel(pre, index, r)
    &&& post == collapsed(pre, index, r)
}

/// A cleared register: every qubit in the |0> basis state.
pub open spec fn is_cleared(v: Seq<Amplitude>) -> bool {
    &&& v.len() % 2 == 0
    &&& forall|i: int|
        0 <= i < v.len() ==> #[trigger] v[i] == (if i % 2 == 0 { amp_one() } else { amp_zero() })
}

impl Memory {
    /// The low-level allocator: an amplitude vector for `size` qubits with
    /// every amplitude zero.  The result is a raw buffer, not a normalized
    /// register; `zeroed` is the constructor of a cleared register.
    pub fn new(size: usize) -> (m: Memory)
        requires
            size <= usize::MAX / 2,
        ensures
            m@.len() == 2 * size,
            forall|i: int| 0 <= i < m@.len() ==> #[trigger] m@[i] == amp_zero(),
    {
        let n = size * 2;
        let mut qubits: Vec<Amplitude> = Vec::new();
        let mut i: usize = 0;
        while i < n
            invariant
                i <= n,
                qubits@.len() == i,
                forall|j: int| 0 <= j < qubits@.len() ==> #[trigger] qubits@[j] == amp_zero(),
            decreases n - i,
        {
            qubits.push(Amplitude::zero());
            i = i + 1;
        }
        Memory { qubits }
    }

    /// A cleared register of `size` qubits: every qubit in the |0> basis
    /// state, alpha one and beta zero.
    pub fn zeroed(size: usize) -> (m: Memory)
        requires
            size <= usize::MAX / 2,
        ensures
            m@.len() == 2 * size,
            is_cleared(m@),
    {
        let n = size * 2;
        let mut qubits: Vec<Amplitude> = Vec::new();
        let mut i: usize = 0;
        while i < n
            invariant
                i <= n,
                n % 2 == 0,
                qubits@.len() == i,
                forall|j: int|
                    0 <= j < qubits@.len() ==> #[trigger] qubits@[j] == (if j % 2 == 0 {
                        amp_one()
                    } else {
                        amp_zero()
                    }),
            decreases n - i,
        {
            if i % 2 == 0 {
                qubits.push(Amplitude::one());
            } else {
                qubits.push(Amplitude::zero());
            }
            i = i + 1;
        }
        Memory { qubits }
    }

    /// Build a memory from an externally supplied amplitude vector.  The
    /// vector must be a column of amplitude pairs (even length), and every
    /// qubit must respect the probability axiom; the first qubit that does
    /// not is reported.
    pub fn from_matrix(qubits: Vec<Amplitude>) -> (res: Result<Memory, MemoryError>)
        ensures
            match res {
                Ok(m) => {
                    &&& m@ == qubits@
                    &&& qubits@.len() % 2 == 0
                    &&& all_normalized(qubits@)
                },
                Err(MemoryError::WrongShape { len }) => {
                    &&& len == qubits@.len()
                    &&& qubits@.len() % 2 != 0
                },
                Err(MemoryError::NormViolation { qubit }) => {
                    &&& qubits@.len() % 2 == 0
                    &&& 2 * qubit + 1 < qubits@.len()
                    &&& norm_check_outcome(
                        qubits@[2 * qubit as int],
                        qubits@[2 * qubit + 1],
                        false,
                    )
                    &&& forall|q: int| 0 <= q < qubit ==> #[trigger] qubit_norm_ok(qubits@, q)
                },
            },
    {
        let n = qubits.len();
        if n % 2 != 0 {
            return Err(MemoryError::WrongShape { len: n });
        }
        let mut q: usize = 0;
        while q < n / 2
            invariant
                n == qubits@.len(),
                n % 2 == 0,
                q <= n / 2,
                forall|qq: int| 0 <= qq < q ==> #[trigger] qubit_norm_ok(qubits@, qq),
            decreases n / 2 - q,
        {
            let ta = abs_sq_bits(&qubits[2 * q]);
            let tb = abs_sq_bits(&qubits[2 * q + 1]);
            let sum = amp_add(
                Amplitude { re_bits: ta, im_bits: 0 },
                Amplitude { re_bits: tb, im_bits: 0 },
            );
            let accepted = sum.re_bits == F64_ONE_BITS;
            proof {
                lemma_basis_amps_clean();
                let alpha = qubits@[2 * q as int];
                let beta = qubits@[2 * q + 1];
                assert(abs_sq_outcome(alpha, ta));
                assert(abs_sq_outcome(beta, tb));
                // The bits-of-1.0 pattern is no NaN, so the raw comparison
                // agrees with the comparison after canonicalization.
                assert(accepted == (f64_canon(sum.re_bits) == F64_ONE_BITS));
                assert(norm_check_outcome(alpha, beta, accepted));
            }
            if !accepted {
                return Err(MemoryError::NormViolation { qubit: q });
            }
            q = q + 1;
        }
        Ok(Memory { qubits })
    }

    /// The amplitude vector, readable over its full extent.
    pub fn qubits_matrix(&self) -> (r: &Vec<Amplitude>)
        ensures
            r@ == self@,
    {
        &self.qubits
    }

    /// The amplitude vector, exclusively writable over its full extent.
    pub fn qubits_matrix_mut(&mut self) -> (r: &mut Vec<Amplitude>)
        ensures
            (*r)@ == old(self)@,
            final(self)@ == (*final(r))@,
    {
        &mut self.qubits
    }

    /// The threshold rule, without collapse: qubit `index` would be
    /// observed as one exactly when the squared modulus of its beta
    /// amplitude is at least one half.  Mutates nothing.
    pub fn predict_measure(&self, index: usize) -> (r: bool)
        requires
            2 * index + 1 < self@.len(),
        ensures
            predict_rel(self@, index as int, r),
    {
        let _vec_len = self.qubits.len();
        let beta = self.qubits[2 * index + 1];
        let t = abs_sq_bits(&beta);
        let r = measure_threshold(t);
        proof {
            lemma_basis_amps_clean();
            assert(abs_sq_outcome(self@[2 * index + 1], t));
        }
        r
    }

    /// Measure qubit `index`: return the outcome of the threshold rule and
    /// collapse the qubit to the basis state of that outcome.  Measuring
    /// the same qubit again returns the same outcome and changes nothing
    /// further (`lemma_measure_idempotent`).
    pub fn measure(&mut self, index: usize) -> (r: bool)
        requires
            2 * index + 1 < old(self)@.len(),
        ensures
            measure_rel(old(self)@, final(self)@, index as int, r),
    {
        let _vec_len = self.qubits.len();
        let r = self.predict_measure(index);
        if r {
            self.qubits[2 * index] = Amplitude::zero();
            self.qubits[2 * index + 1] = Amplitude::one();
        } else {
            self.qubits[2 * index] = Amplitude::one();
            self.qubits[2 * index + 1] = Amplitude::zero();
        }
        r
    }

    /// Apply `gate` at amplitude offset `start`: delegates to `gate`'s
    /// own `apply`, with its contract.
    pub fn apply_gate<G: Gate>(&mut self, start: usize, gate: &G) -> (res: Result<(), ApplyError>)
        requires
            gate.wf(),
        ensures
            apply_rel(gate.mat(), gate.dim(), old(self)@, final(self)@, start as int, res),
    {
        gate.apply(self, start)
    }

    /// The bounds check and in-place multiply shared by both gate
    /// variants.
    pub(crate) fn apply_block(&mut self, mat: &Vec<Amplitude>, dim: usize, start: usize) -> (res:
        Result<(), ApplyError>)
        requires
            mat@.len() == dim * dim,
        ensures
            apply_rel(mat@, dim as int, old(self)@, final(self)@, start as int, res),
    {
        let n = self.qubits.len();
        if start > n || dim > n - start {
            return Err(ApplyError::OutOfBounds { start, dim, len: n });
        }
        multiply_block(mat, dim, &mut self.qubits, start);
        Ok(())
    }
}

/// The deterministic threshold rule on a squared-modulus bit pattern:
/// observed as one exactly when the encoded value is at least one half.
/// Verified for every pattern the modulus computation can hand back: the
/// unsigned order of sign-clear patterns agrees with the numeric order of
/// the encoded values, a NaN compares below everything, and a sign-set
/// pattern encodes a value no greater than zero.
pub fn measure_threshold(t: u64) -> (r: bool)
    ensures
        r == f64_at_least_half(t),
{
    let nan = (t & F64_EXP_MASK) == F64_EXP_MASK && (t & F64_MANTISSA_MASK) != 0;
    !nan && t < F64_SIGN_BIT && t >= F64_HALF_BITS
}

/// LAW: a cleared register predicts the outcome zero for every qubit.
pub proof fn lemma_cleared_predicts_zero(v: Seq<Amplitude>, index: int, r: bool)
    requires
        is_cleared(v),
        0 <= index,
        2 * index + 1 < v.len(),
        predict_rel(v, index, r),
    ensures
        !r,
{
    assert(v[2 * index + 1] == amp_zero());
}

/// LAW: measuring a cleared register returns zero and, the collapse writing
/// back the very basis state the qubit already holds, changes nothing.
pub proof fn lemma_cleared_measures_zero(
    v: Seq<Amplitude>,
    post: Seq<Amplitude>,
    index: int,
    r: bool,
)
    requires
        is_cleared(v),
        0 <= index,
        2 * index + 1 < v.len(),
        measure_rel(v, post, index, r),
    ensures
        !r,
        post == v,
{
    assert(v[2 * index + 1] == amp_zero());
    assert(v[2 * index] == amp_one());
    assert(post =~= v);
}

/// Every amplitude of a cleared register is clean: it is one of the two
/// basis amplitudes.
pub proof fn lemma_cleared_is_clean(v: Seq<Amplitude>)
    requires
        is_cleared(v),
    ensures
        amps_clean(v),
{
    lemma_basis_amps_clean();
    assert forall|i: int| 0 <= i < v.len() implies amp_clean(v[i]) by {
        assert(v[i] == (if i % 2 == 0 { amp_one() } else { amp_zero() }));
    }
}

/// LAW: applying an identity gate to a cleared register succeeds whenever
/// the slice fits and returns the register exactly as it was.
pub proof fn lemma_identity_preserves_cleared(
    mat: Seq<Amplitude>,
    dim: int,
    pre: Seq<Amplitude>,
    post: Seq<Amplitude>,
    start: int,
    res: Result<(), ApplyError>,
)
    requires
        mat == identity_mat(dim),
        0 <= start,
        0 <= dim,
        start + dim <= pre.len(),
        is_cleared(pre),
        apply_rel(mat, dim, pre, post, start, res),
    ensures
        res is Ok,
        post == pre,
{
    lemma_cleared_is_clean(pre);
    let slice = pre.subrange(start, start + dim);
    assert forall|i: int| 0 <= i < slice.len() implies amp_clean(slice[i]) by {
        assert(slice[i] == pre[start + i]);
    }
    lemma_identity_apply_is_noop(mat, dim, pre, post, start, res);
}

/// LAW: measurement is idempotent after collapse.  A second measurement of
/// the same qubit returns the same outcome and leaves the memory exactly as
/// the first left it.
pub proof fn lemma_measure_idempotent(
    v0: Seq<Amplitude>,
    v1: Seq<Amplitude>,
    v2: Seq<Amplitude>,
    index: int,
    r1: bool,
    r2: bool,
)
    requires
        0 <= index,
        2 * index + 1 < v0.len(),
        measure_rel(v0, v1, index, r1),
        measure_rel(v1, v2, index, r2),
    ensures
        r2 == r1,
        v2 == v1,
{
    assert(v1[2 * index + 1] == (if r1 { amp_one() } else { amp_zero() }));
    assert(v1[2 * index] == (if r1 { amp_zero() } else { amp_one() }));
    assert(v2 =~= v1);
}

} // verus!
