//! Device integrations, by manufacturer and device.

pub mod akai;
pub mod arturia;
pub mod korg;
pub mod nektar;
