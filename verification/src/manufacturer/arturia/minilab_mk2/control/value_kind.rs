//! Values of the MiniLab mkII's parameters.

use vstd::prelude::*;

use crate::IntoEnumIterator;

verus! {

/// One of the eight memories of the device.
#[derive(Debug, Clone, Copy, PartialEq, Eq, Structural)]
pub enum MemorySlot {
    Slot1,
    Slot2,
    Slot3,
    Slot4,
    Slot5,
    Slot6,
    Slot7,
    Slot8,
}

impl MemorySlot {
    /// The byte that stands for the value.
    pub open spec fn code(self) -> u8 {
        match self {
            MemorySlot::Slot1 => 1,
            MemorySlot::Slot2 => 2,
            MemorySlot::Slot3 => 3,
            MemorySlot::Slot4 => 4,
            MemorySlot::Slot5 => 5,
            MemorySlot::Slot6 => 6,
            MemorySlot::Slot7 => 7,
            MemorySlot::Slot8 => 8,
        }
    }

    /// The value that byte `b` stands for, if any.
    pub open spec fn of_code(b: u8) -> Option<Self> {
        if b == 1 {
            Some(MemorySlot::Slot1)
        } else if b == 2 {
            Some(MemorySlot::Slot2)
        } else if b == 3 {
            Some(MemorySlot::Slot3)
        } else if b == 4 {
            Some(MemorySlot::Slot4)
        } else if b == 5 {
            Some(MemorySlot::Slot5)
        } else if b == 6 {
            Some(MemorySlot::Slot6)
        } else if b == 7 {
            Some(MemorySlot::Slot7)
        } else if b == 8 {
            Some(MemorySlot::Slot8)
        } else {
            None
        }
    }

    /// The byte that stands for the value.
    pub fn as_u8(self) -> (res: u8)
        ensures
            res == self.code(),
    {
        match self {
            MemorySlot::Slot1 => 1,
            MemorySlot::Slot2 => 2,
            MemorySlot::Slot3 => 3,
            MemorySlot::Slot4 => 4,
            MemorySlot::Slot5 => 5,
            MemorySlot::Slot6 => 6,
            MemorySlot::Slot7 => 7,
            MemorySlot::Slot8 => 8,
        }
    }

    /// The value that byte `b` stands for, if any.
    pub fn from_code(b: u8) -> (res: Option<Self>)
        ensures
            res == Self::of_code(b),
            res matches Some(v) ==> v.code() == b,
    {
        if b == 1 {
            Some(MemorySlot::Slot1)
        } else if b == 2 {
            Some(MemorySlot::Slot2)
        } else if b == 3 {
            Some(MemorySlot::Slot3)
        } else if b == 4 {
            Some(MemorySlot::Slot4)
        } else if b == 5 {
            Some(MemorySlot::Slot5)
        } else if b == 6 {
            Some(MemorySlot::Slot6)
        } else if b == 7 {
            Some(MemorySlot::Slot7)
        } else if b == 8 {
            Some(MemorySlot::Slot8)
        } else {
            None
        }
    }

    /// A byte that stands for a value is that value's byte, and a value's
    /// byte stands for it.
    pub proof fn lemma_code(b: u8, v: Self)
        ensures
            Self::of_code(b) matches Some(x) ==> x.code() == b,
            Self::of_code(v.code()) == Some(v),
    {
    }

    /// Every value, in order.
    pub fn all() -> (res: Vec<Self>)
        ensures
            res@ == seq![MemorySlot::Slot1, MemorySlot::Slot2, MemorySlot::Slot3, MemorySlot::Slot4, MemorySlot::Slot5, MemorySlot::Slot6, MemorySlot::Slot7, MemorySlot::Slot8],
    {
        let res = vec![MemorySlot::Slot1, MemorySlot::Slot2, MemorySlot::Slot3, MemorySlot::Slot4, MemorySlot::Slot5, MemorySlot::Slot6, MemorySlot::Slot7, MemorySlot::Slot8];
        res
    }

}

impl From<MemorySlot> for u8 {
    fn from(v: MemorySlot) -> (res: u8) {
        v.as_u8()
    }
}

impl vstd::std_specs::convert::FromSpecImpl<MemorySlot> for u8 {
    open spec fn obeys_from_spec() -> bool {
        true
    }

    open spec fn from_spec(v: MemorySlot) -> u8 {
        v.code()
    }
}

impl TryFrom<u8> for MemorySlot {
    type Error = u8;

    fn try_from(b: u8) -> (res: Result<Self, u8>) {
        match Self::from_code(b) {
            Some(v) => Ok(v),
            None => Err(b),
        }
    }
}

impl vstd::std_specs::convert::TryFromSpecImpl<u8> for MemorySlot {
    open spec fn obeys_try_from_spec() -> bool {
        true
    }

    open spec fn try_from_spec(b: u8) -> Result<Self, u8> {
        match Self::of_code(b) {
            Some(v) => Ok(v),
            None => Err(b),
        }
    }
}

impl IntoEnumIterator for MemorySlot {
    fn iter() -> std::vec::IntoIter<Self> {
        Self::all().into_iter()
    }
}


/// The byte of a [`MemorySlot`] is 1 plus its place in declaration order, and
/// exactly the bytes from 1 to 8 stand for a variant.
pub proof fn lemma_memory_slot_code_is_place(v: MemorySlot, b: u8)
    ensures
        v.code() == v as u8 + 1,
        (MemorySlot::of_code(b) is Some) == (1 <= b < 9),
        MemorySlot::of_code(b) matches Some(w) ==> w as u8 + 1 == b,
{
}

} // verus!
