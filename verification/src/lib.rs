//! Verified core of a Mandelbrot-set renderer.
//!
//! The renderer walks a pixel grid; for every pixel it maps the pixel to a
//! point of the complex plane, iterates `z <- z*z + c` until the orbit leaves
//! the disc of radius two or an iteration ceiling is reached, and turns the
//! outcome into an HSV color that an image encoder converts to RGB.
//!
//! The arithmetic on complex numbers is floating point, which this library
//! cannot hold; the unverified rim around it performs those operations and
//! reports their observable outcomes (the escape checks, the hue cast) as
//! plain values. Everything that can be decided over plain values is decided
//! here, with a proved contract:
//!
//! - [`config::RenderConfig`] carries a validated render configuration;
//! - [`escape::EscapeCounter`] drives the escape-time loop: the caller hands
//!   it each radius check and the counter decides whether to keep iterating,
//!   with the iteration count pinned down as a function of the checks it saw;
//! - [`color::to_hsv`] selects the HSV color for a pixel;
//! - [`grid::PixelGrid`] is a write-once pixel buffer that makes "every pixel
//!   is written exactly once" a checked property rather than a convention.

pub mod color;
pub mod config;
pub mod escape;
pub mod grid;


