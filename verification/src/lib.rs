//! Editing and serialization of MIDI controller system-exclusive messages.

pub mod error;
pub mod manufacturer;
pub mod midi;
pub mod music;
pub mod scale;
pub mod sim;
pub mod sysex;

use vstd::prelude::*;

verus! {

/// Types whose variants can be listed in declaration order.
pub trait IntoEnumIterator: Sized {
    /// The variants in declaration order.
    fn iter() -> std::vec::IntoIter<Self>;
}

} // verus!
