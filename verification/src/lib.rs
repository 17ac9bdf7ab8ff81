//! Capturing a region of a screen on a desktop with several displays.
//!
//! A request names a region in logical units and the display it belongs to.
//! The library finds the display among those that are attached, transforms
//! the region to the display's device pixels, and decides what becomes of the
//! captured pixels: they are pinned in a store and served through a resource
//! protocol, or an external encoder records the region to a file.
//!
//! The library computes and decides; it does not touch the platform. The
//! caller enumerates the displays, captures the pixels, starts and signals
//! the encoder, and hands the outcome of each of these steps to the library.

pub mod model;
pub mod protocol;
pub mod record;
pub mod screenshot;
pub mod screenshots;
pub mod text;
pub mod transform;
pub mod util;
