//! Range-restricted numeric values: channels, notes and 7-bit data values.
use vstd::prelude::*;

verus! {

/// The largest value that fits in seven bits.
pub const U7_MAX: u8 = 127;

/// The largest MIDI channel number (channels are numbered from zero).
pub const CHANNEL_MAX: u8 = 15;

/// `v` saturated into the 7-bit range.
pub open spec fn clamp7(v: u8) -> u8 {
    if v > 127 {
        127
    } else {
        v
    }
}

/// A MIDI channel in `0..=15`.
#[derive(Clone, Copy, Debug, PartialEq, Eq, Structural)]
pub struct ChannelNumber {
    value: u8,
}

impl ChannelNumber {
    #[verifier::type_invariant]
    spec fn inv(self) -> bool {
        self.value <= 15
    }

    /// The channel number.
    pub closed spec fn view(self) -> u8 {
        self.value
    }

    /// The channel whose number is `v` (meaningful for `v <= 15`).
    pub closed spec fn from_view(v: u8) -> ChannelNumber {
        ChannelNumber { value: v }
    }

    pub broadcast proof fn lemma_from_view(v: u8)
        ensures
            #[trigger] ChannelNumber::from_view(v)@ == v,
    {
    }

    pub broadcast proof fn lemma_from_view_of_view(a: ChannelNumber)
        ensures
            #[trigger] ChannelNumber::from_view(a@) == a,
    {
    }

    /// Strict constructor: rejects numbers above 15.
    pub fn try_new(v: u8) -> (r: Option<ChannelNumber>)
        ensures
            v <= 15 ==> r == Some(ChannelNumber::from_view(v)),
            v > 15 ==> r is None,
    {
        if v <= CHANNEL_MAX {
            Some(ChannelNumber { value: v })
        } else {
            None
        }
    }

    /// The channel held in the low nibble of a status byte.
    pub fn from_low_nibble(status: u8) -> (r: ChannelNumber)
        ensures
            r == ChannelNumber::from_view(status & 0x0F),
    {
        let v = status & 0x0F;
        assert(v <= 15) by (bit_vector)
            requires
                v == status & 0x0F,
        ;
        ChannelNumber { value: v }
    }

    pub fn value(&self) -> (r: u8)
        ensures
            r == self@,
            r <= 15,
    {
        proof {
            use_type_invariant(self);
        }
        self.value
    }
}

/// A MIDI note number in `0..=127`.
#[derive(Clone, Copy, Debug, PartialEq, Eq, Structural)]
pub struct NoteNumber {
    value: u8,
}

impl NoteNumber {
    #[verifier::type_invariant]
    spec fn inv(self) -> bool {
        self.value <= 127
    }

    /// The note number.
    pub closed spec fn view(self) -> u8 {
        self.value
    }

    /// The note whose number is `v` (meaningful for `v <= 127`).
    pub closed spec fn from_view(v: u8) -> NoteNumber {
        NoteNumber { value: v }
    }

    pub broadcast proof fn lemma_from_view(v: u8)
        ensures
            #[trigger] NoteNumber::from_view(v)@ == v,
    {
    }

    pub broadcast proof fn lemma_from_view_of_view(a: NoteNumber)
        ensures
            #[trigger] NoteNumber::from_view(a@) == a,
    {
    }

    /// Strict constructor: rejects numbers above 127.
    pub fn try_new(v: u8) -> (r: Option<NoteNumber>)
        ensures
            v <= 127 ==> r == Some(NoteNumber::from_view(v)),
            v > 127 ==> r is None,
    {
        if v <= U7_MAX {
            Some(NoteNumber { value: v })
        } else {
            None
        }
    }

    pub fn value(&self) -> (r: u8)
        ensures
            r == self@,
            r <= 127,
    {
        proof {
            use_type_invariant(self);
        }
        self.value
    }

    /// The note number as a 7-bit data value.
    pub fn to_u7(&self) -> (r: U7)
        ensures
            r == U7::from_view(self@),
    {
        proof {
            use_type_invariant(self);
        }
        U7 { value: self.value }
    }
}

/// A 7-bit data value in `0..=127` (velocity, pressure, program, controller,
/// or one half of a pitch bend).
#[derive(Clone, Copy, Debug, PartialEq, Eq, Structural)]
pub struct U7 {
    value: u8,
}

impl U7 {
    #[verifier::type_invariant]
    spec fn inv(self) -> bool {
        self.value <= 127
    }

    /// The value.
    pub closed spec fn view(self) -> u8 {
        self.value
    }

    /// The 7-bit value `v` (meaningful for `v <= 127`).
    pub closed spec fn from_view(v: u8) -> U7 {
        U7 { value: v }
    }

    pub broadcast proof fn lemma_from_view(v: u8)
        ensures
            #[trigger] U7::from_view(v)@ == v,
    {
    }

    pub broadcast proof fn lemma_from_view_of_view(a: U7)
        ensures
            #[trigger] U7::from_view(a@) == a,
    {
    }

    /// Strict constructor: rejects values above 127.
    pub fn try_new(v: u8) -> (r: Option<U7>)
        ensures
            v <= 127 ==> r == Some(U7::from_view(v)),
            v > 127 ==> r is None,
    {
        if v <= U7_MAX {
            Some(U7 { value: v })
        } else {
            None
        }
    }

    /// Lossy constructor: values above 127 are saturated to 127.
    pub fn from_clamped(v: u8) -> (r: U7)
        ensures
            r == U7::from_view(clamp7(v)),
    {
        if v > U7_MAX {
            U7 { value: U7_MAX }
        } else {
            U7 { value: v }
        }
    }

    pub fn value(&self) -> (r: u8)
        ensures
            r == self@,
            r <= 127,
    {
        proof {
            use_type_invariant(self);
        }
        self.value
    }
}

pub broadcast group group_values {
    ChannelNumber::lemma_from_view,
    ChannelNumber::lemma_from_view_of_view,
    NoteNumber::lemma_from_view,
    NoteNumber::lemma_from_view_of_view,
    U7::lemma_from_view,
    U7::lemma_from_view_of_view,
}

} // verus!
