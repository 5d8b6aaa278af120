//! Korg devices.

use vstd::prelude::*;

pub mod r3;

verus! {

/// The manufacturer id that opens every Korg system-exclusive message.
pub const SYSEX_MANUFACTURER_ID: u8 = 0x42;

} // verus!
