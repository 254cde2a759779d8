//! Dimension-checked numeric values: scalar and matrix quantities that carry a
//! vector of physical-dimension exponents (length, mass, time, temperature),
//! so that arithmetic derives the correct resulting dimension and rejects
//! dimensionally inconsistent operands.
//!
//! Magnitudes are IEEE 754 binary64 values carried as their raw bit patterns
//! (`u64`); the binary64 arithmetic itself is delegated to a software
//! floating-point implementation behind a small trusted layer in `magnitude`.

pub mod dim;
pub mod magnitude;
pub mod matrix;
pub mod render;
pub mod value;

pub use dim::Axis;
pub use dim::Dim;
pub use dim::UnitError;
pub use matrix::Matrix;
pub use value::UnitValue;
