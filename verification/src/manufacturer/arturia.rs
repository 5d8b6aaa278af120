//! Arturia devices.

pub mod minilab_mk2;
