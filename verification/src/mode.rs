//! Ways of driving the display.

pub mod graphics;

pub use self::graphics::GraphicsMode;
