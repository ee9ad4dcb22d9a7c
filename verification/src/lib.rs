//! A small simulation backend: a world of entities with position and
//! velocity components, driven by a line-delimited JSON command protocol.
//! Commands are validated, applied to the world, and answered with exactly
//! one response line each, in the order they arrived.

pub mod hello_world;
pub mod json;
pub mod laws;
pub mod num;
pub mod output;
pub mod protocol;
pub mod queue;
pub mod sim;
pub mod world;
