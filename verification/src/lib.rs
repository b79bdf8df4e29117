//! Boolean masks over the lanes of a SIMD vector.
pub mod element;
pub mod mask;
pub mod ops;
pub mod convert;
pub mod lex;
pub mod order;
pub mod debug;

pub use element::{MaskElement, Sealed};
pub use mask::Mask;
