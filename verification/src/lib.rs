//! Drawing plans for native 2D engines.
//!
//! A render context of this crate decides, for each drawing verb, the exact
//! sequence of engine primitives that realises it: which colour is set, which
//! path is built, what is bracketed by a save and a restore. The primitives
//! are returned as plain values; issuing them to the engine is the caller's
//! part.

pub mod bitmap;
pub mod color;
pub mod core_graphics;
pub mod error;
pub mod geometry;
pub mod gradient;
pub mod image;
pub mod path;
pub mod skia;
pub mod stroke;
pub mod text;

pub use color::byte_to_byte;
