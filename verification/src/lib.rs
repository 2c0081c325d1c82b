//! Control engine for a parallel 4-bit grayscale e-paper panel.
//!
//! The engine keeps the packed frame buffer and a model of the panel's
//! configuration register and pulse channel. It performs no input or output:
//! it decides which commands the board has to carry out, the caller carries
//! them out in order and reports each outcome back through `acknowledge`.

pub mod command;
pub mod config;
pub mod demo;
pub mod display;
pub mod error;
pub mod framebuffer;
pub mod geometry;
pub mod panel;
pub mod pins;
pub mod power;
pub mod pulse;
pub mod refresh;
pub mod waveform;

pub use demo::generate_demo_response;
pub use display::Epd47Display;
pub use error::Epd47Error;
pub use pins::{init_epd47_pins, Epd47PinConfig};
pub use waveform::DrawMode;
