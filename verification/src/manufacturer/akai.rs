//! Akai devices.

use vstd::prelude::*;

pub mod mpd226;

verus! {

/// The manufacturer id that opens every Akai system-exclusive message.
pub const SYSEX_MANUFACTURER_ID: u8 = 0x47;

} // verus!
