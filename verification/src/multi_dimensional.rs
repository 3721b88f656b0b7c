//! Provides functionality for treating a one-dimensional buffer or slice as
//! if it were two-dimensional.

pub mod slice2d;
pub mod vec2d;

pub use slice2d::Window2D;
pub use vec2d::Vec2D;
