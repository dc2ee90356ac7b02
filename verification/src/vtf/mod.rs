//! The Valve texture container.

pub mod types;
