//! Backends that are part of every build.

pub mod dummy;
