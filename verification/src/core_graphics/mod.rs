//! The backend for an engine that keeps a current path and a stack of
//! graphics states.

pub mod brush;
pub mod context;
pub mod engine;
pub mod guarantees;
pub mod image;
pub mod ops;
pub mod text;
