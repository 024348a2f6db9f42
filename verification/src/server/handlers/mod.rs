//! Compositor protocol handlers that carry logic of their own.

pub mod input;
