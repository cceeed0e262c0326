//! A zero-knowledge proof of the Hamming distance between two private
//! 8-element boolean vectors.
//!
//! The library owns the arithmetization: the cell layout, the constraint
//! polynomials ("is boolean", XOR, running sum), the copy-constraint
//! wiring, the witness assignment, and a direct constraint evaluator.
//! The polynomial-commitment proving engine (setup, key generation,
//! proof generation, verification) is an external collaborator reached
//! through a small trusted boundary.

pub mod circuit;
pub mod mock;
pub mod distance;
pub mod engine;

pub use distance::calculate_hamming_distance;
