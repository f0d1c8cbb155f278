//! The backend for an engine that draws paths with paint objects.

pub mod context;
pub mod engine;
pub mod image;
pub mod ops;
pub mod paint;
pub mod text;
