//! A two-level quantum state over the computational basis, with complex
//! amplitudes held as IEEE 754 binary64 encodings and exact comparison
//! proved against the values those encodings denote.

pub mod amplitude;
pub mod binary64;
pub mod ket;

pub use crate::amplitude::{complex_one, complex_zero, Amplitude};
pub use crate::ket::{ket_one, ket_zero, Ket};
