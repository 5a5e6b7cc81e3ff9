//! A toy quantum-register simulator: a memory of complex amplitudes for a
//! fixed collection of qubits, unitary gates applied in place at an offset,
//! and deterministic threshold measurement with collapse.

pub mod amplitude;
pub mod gate;
pub mod memory;

pub use amplitude::Amplitude;
pub use gate::DGate;
pub use gate::Gate;
pub use gate::SGate;
pub use memory::Memory;
