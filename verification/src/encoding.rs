//! The primitive tag-length-value unit that carries typed values inside
//! service payloads, and the vocabulary of application tag kinds.
pub mod parse;

use vstd::prelude::*;

verus! {

/// A decoded tag: its number and class, how the low three bits of its first
/// octet were resolved, and the data bytes that followed the header. `data`
/// borrows from the input buffer and is empty for the `Value`, `Opening` and
/// `Closing` forms.
#[derive(Debug)]
pub struct Tag<'a> {
    pub tag_number: TagNumber,
    pub lvt: LengthValueType,
    pub data: &'a [u8],
}

/// A tag number, resolved by class: application tags carry the fixed global
/// type vocabulary, context tags a meaning local to the enclosing structure.
#[derive(Clone, Copy, Debug, PartialEq, Eq, Structural)]
pub enum TagNumber {
    Application(ApplicationTag),
    Context(ContextTag),
}

/// How the three length/value/type bits of a tag's first octet were
/// resolved: a data length, a packed boolean value, or one of the two
/// structural markers that bracket constructed data.
#[derive(Clone, Copy, Debug, PartialEq, Eq, Structural)]
pub enum LengthValueType {
    Length(u32),
    Value(u8),
    Opening,
    Closing,
}

/// The application tag vocabulary: thirteen assigned kinds, the codes
/// reserved by ASHRAE, and every other code.
#[derive(Clone, Copy, Debug, PartialEq, Eq, Structural)]
pub enum ApplicationTag {
    Null,
    Boolean,
    UnsignedInteger,
    SignedInteger,
    Real,
    Double,
    OctetString,
    CharacterString,
    BitString,
    Enumerated,
    Date,
    Time,
    BACnetObjectIdentifier,
    Reserved(u8),
    Other(u8),
}

impl ApplicationTag {
    /// The tag kind that a numeric code selects.
    pub open spec fn spec_from_u8(t: u8) -> ApplicationTag {
        if t == 0 {
            ApplicationTag::Null
        } else if t == 1 {
            ApplicationTag::Boolean
        } else if t == 2 {
            ApplicationTag::UnsignedInteger
        } else if t == 3 {
            ApplicationTag::SignedInteger
        } else if t == 4 {
            ApplicationTag::Real
        } else if t == 5 {
            ApplicationTag::Double
        } else if t == 6 {
            ApplicationTag::OctetString
        } else if t == 7 {
            ApplicationTag::CharacterString
        } else if t == 8 {
            ApplicationTag::BitString
        } else if t == 9 {
            ApplicationTag::Enumerated
        } else if t == 10 {
            ApplicationTag::Date
        } else if t == 11 {
            ApplicationTag::Time
        } else if t == 12 {
            ApplicationTag::BACnetObjectIdentifier
        } else if t <= 15 {
            ApplicationTag::Reserved(t)
        } else {
            ApplicationTag::Other(t)
        }
    }

    /// Resolves a numeric tag code to its application tag kind.
    pub fn from_u8(t: u8) -> (r: ApplicationTag)
        ensures
            r == ApplicationTag::spec_from_u8(t),
    {
        match t {
            0 => ApplicationTag::Null,
            1 => ApplicationTag::Boolean,
            2 => ApplicationTag::UnsignedInteger,
            3 => ApplicationTag::SignedInteger,
            4 => ApplicationTag::Real,
            5 => ApplicationTag::Double,
            6 => ApplicationTag::OctetString,
            7 => ApplicationTag::CharacterString,
            8 => ApplicationTag::BitString,
            9 => ApplicationTag::Enumerated,
            10 => ApplicationTag::Date,
            11 => ApplicationTag::Time,
            12 => ApplicationTag::BACnetObjectIdentifier,
            13..=15 => ApplicationTag::Reserved(t),
            _ => ApplicationTag::Other(t),
        }
    }

    /// The numeric code of a tag kind.
    pub open spec fn spec_as_u8(self) -> u8 {
        match self {
            ApplicationTag::Null => 0,
            ApplicationTag::Boolean => 1,
            ApplicationTag::UnsignedInteger => 2,
            ApplicationTag::SignedInteger => 3,
            ApplicationTag::Real => 4,
            ApplicationTag::Double => 5,
            ApplicationTag::OctetString => 6,
            ApplicationTag::CharacterString => 7,
            ApplicationTag::BitString => 8,
            ApplicationTag::Enumerated => 9,
            ApplicationTag::Date => 10,
            ApplicationTag::Time => 11,
            ApplicationTag::BACnetObjectIdentifier => 12,
            ApplicationTag::Reserved(t) => t,
            ApplicationTag::Other(t) => t,
        }
    }

    /// The numeric code of this tag kind.
    pub fn as_u8(self) -> (r: u8)
        ensures
            r == self.spec_as_u8(),
    {
        match self {
            ApplicationTag::Null => 0,
            ApplicationTag::Boolean => 1,
            ApplicationTag::UnsignedInteger => 2,
            ApplicationTag::SignedInteger => 3,
            ApplicationTag::Real => 4,
            ApplicationTag::Double => 5,
            ApplicationTag::OctetString => 6,
            ApplicationTag::CharacterString => 7,
            ApplicationTag::BitString => 8,
            ApplicationTag::Enumerated => 9,
            ApplicationTag::Date => 10,
            ApplicationTag::Time => 11,
            ApplicationTag::BACnetObjectIdentifier => 12,
            ApplicationTag::Reserved(t) => t,
            ApplicationTag::Other(t) => t,
        }
    }

    /// Resolving a kind's own code gives the kind back, for the codes on
    /// which the vocabulary is well formed (`Reserved` carries 13 to 15 and
    /// `Other` a code of 16 or more).
    pub proof fn lemma_code_round_trip(self)
        requires
            self matches ApplicationTag::Reserved(t) ==> 13 <= t <= 15,
            self matches ApplicationTag::Other(t) ==> t >= 16,
        ensures
            ApplicationTag::spec_from_u8(self.spec_as_u8()) == self,
    {
    }
}

/// A context-specific tag number; every code is locally defined.
#[derive(Clone, Copy, Debug, PartialEq, Eq, Structural)]
pub enum ContextTag {
    Other(u8),
}

impl ContextTag {
    /// Wraps a numeric code as a context tag.
    pub fn from_u8(t: u8) -> (r: ContextTag)
        ensures
            r == ContextTag::Other(t),
    {
        ContextTag::Other(t)
    }

    /// The numeric code of this context tag.
    pub fn as_u8(self) -> (r: u8)
        ensures
            self == ContextTag::Other(r),
    {
        match self {
            ContextTag::Other(t) => t,
        }
    }
}

} // verus!
