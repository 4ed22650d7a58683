//! A minimal n-dimensional array (tensor) core with verified elementwise
//! arithmetic and a compile-time-selected gradient-tracking capability.
//!
//! A [`base::BaseTensor`] is a shared flat storage buffer together with view
//! metadata (shape, strides, offset).  A [`tensor::Tensor`] composes a
//! `BaseTensor` with an [`autograd::AutoGrad`] capability that decides, at
//! compile time, whether arithmetic records a backward function for later
//! differentiation.

pub mod autograd;
pub mod base;
pub mod shape;
pub mod tensor;
