//! Nektar devices.

pub mod impact_lx_plus;
