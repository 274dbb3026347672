//! The virtual cable a USB-MIDI packet travels on.
use vstd::prelude::*;

verus! {

/// A cable number outside `0..=15`, as it was given.
#[derive(Clone, Copy, Debug, PartialEq, Eq, Structural)]
pub struct InvalidCableNumber(pub u8);

/// One of the sixteen virtual MIDI cables of a USB-MIDI device.
#[derive(Clone, Copy, Debug, PartialEq, Eq, Structural)]
pub struct CableNumber {
    value: u8,
}

impl CableNumber {
    #[verifier::type_invariant]
    spec fn inv(self) -> bool {
        self.value <= 15
    }

    /// The cable's number.
    pub closed spec fn view(self) -> u8 {
        self.value
    }

    /// The cable whose number is `v` (meaningful for `v <= 15`).
    pub closed spec fn from_view(v: u8) -> CableNumber {
        CableNumber { value: v }
    }

    pub broadcast proof fn lemma_from_view(v: u8)
        ensures
            #[trigger] CableNumber::from_view(v)@ == v,
    {
    }

    pub broadcast proof fn lemma_from_view_of_view(a: CableNumber)
        ensures
            #[trigger] CableNumber::from_view(a@) == a,
    {
    }

    /// The cable numbered `value`.
    pub fn new(value: u8) -> (r: CableNumber)
        requires
            value <= 15,
        ensures
            r == CableNumber::from_view(value),
    {
        CableNumber { value }
    }

    /// Validating constructor: numbers above 15 are rejected.
    pub fn try_from(value: u8) -> (r: Result<CableNumber, InvalidCableNumber>)
        ensures
            value <= 15 ==> r == Ok::<CableNumber, InvalidCableNumber>(CableNumber::from_view(value)),
            value > 15 ==> r == Err::<CableNumber, InvalidCableNumber>(InvalidCableNumber(value)),
    {
        if value <= 15 {
            Ok(CableNumber { value })
        } else {
            Err(InvalidCableNumber(value))
        }
    }

    pub fn value(&self) -> (r: u8)
        ensures
            r == self@,
            r <= 15,
    {
        proof {
            use_type_invariant(self);
        }
        self.value
    }
}

pub broadcast group group_cable_number {
    CableNumber::lemma_from_view,
    CableNumber::lemma_from_view_of_view,
}

} // verus!
