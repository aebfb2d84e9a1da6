//! Crate prelude

pub use crate::displayrotation::DisplayRotation;
pub use crate::interface::DisplayInterface;
pub use crate::mode::GraphicsMode;
