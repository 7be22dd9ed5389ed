//! A bump arena for building byte buffers in place and freezing each one into
//! a slice of fixed length.

pub mod arena;
pub mod bump;
pub mod laws;
pub mod model;

pub use crate::arena::{BumpAllocRef, LiquidVecRef};
pub use crate::bump::BumpAlloc;
