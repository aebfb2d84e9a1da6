//! SSD1331 OLED display driver
//!
//! The SSD1331 drives a colour OLED panel of 96x64 pixels in RGB565 and is fed over a
//! write-only serial bus with one extra line that tells commands from data. This crate is
//! the driver's core: the wire format of the controller's commands, a frame buffer that
//! knows where a pixel goes in each of four orientations, and the command sequences that
//! bring the controller up and refresh the panel.
//!
//! The driver reaches the hardware through [`DisplayInterface`], three operations that the
//! user supplies. It keeps a record of every call it makes on them, and the contracts of
//! its functions say exactly which calls are made, in which order, and what is left undone
//! when one of them fails.
//!
//! Note that the driver requires at least 12288 bytes (96 x 64 pixels, 16 bits per pixel) of
//! memory to store the display's framebuffer.
//!
//! The modules, from the ground up:
//!
//! * [`interface`]: the connection to the controller and its history;
//! * [`command`]: the commands and their encoding;
//! * [`displayrotation`]: the four orientations;
//! * [`framebuffer`]: the pixel memory;
//! * [`sequencer`]: reset and initialisation;
//! * [`display`]: the driver, [`Ssd1331`];
//! * [`properties`] and [`mode`]: the same driver in two layers, settings below and the
//!   buffer on top;
//! * [`builder`]: construction step by step.

use vstd::prelude::*;

pub mod builder;
pub mod command;
pub mod display;
pub mod displayrotation;
pub mod error;
pub mod framebuffer;
pub mod interface;
pub mod mode;
pub mod prelude;
pub mod properties;
pub mod sequencer;

verus! {

/// Width of the panel in pixels, as it is built.
pub const DISPLAY_WIDTH: u8 = 96;

/// Height of the panel in pixels, as it is built.
pub const DISPLAY_HEIGHT: u8 = 64;

} // verus!

pub use crate::builder::Builder;
pub use crate::command::Command;
pub use crate::display::Ssd1331;
pub use crate::displayrotation::DisplayRotation;
pub use crate::error::Error;
pub use crate::interface::DisplayInterface;
