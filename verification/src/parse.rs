//! A raw view of the tag codec: the header fields as a plain tuple, with
//! the data left in place and addressed by its offset. It shares the header
//! layout — and its proofs — with the full codec in `encoding::parse`.
use vstd::prelude::*;

use crate::encoding::parse::{
    decode_tag_header, encode_tag_header, spec_decode_tag_header, spec_encode_tag_header,
};
use crate::Error;

verus! {

/// A tag reduced to what the raw header decoder can tell apart: an
/// application tag with its kind, length and data, or a context tag.
#[derive(Debug)]
pub enum Tag<'a> {
    Application(ApplicationTag, u32, &'a [u8]),
    Context,
}

/// The application tag vocabulary, with the reserved codes collapsed into
/// one kind.
#[derive(Clone, Copy, Debug, PartialEq, Eq, Structural)]
pub enum ApplicationTag {
    Null,
    Boolean,
    UnsignedInteger,
    SignedInteger,
    Real,
    Double,
    OctetString,
    CharacterString,
    BitString,
    Enumerated,
    Date,
    Time,
    BACnetObjectIdentifier,
    Reserved,
    Other(u8),
}

impl ApplicationTag {
    /// The tag kind that a numeric code selects.
    pub open spec fn spec_from_u8(t: u8) -> ApplicationTag {
        if t == 0 {
            ApplicationTag::Null
        } else if t == 1 {
            ApplicationTag::Boolean
        } else if t == 2 {
            ApplicationTag::UnsignedInteger
        } else if t == 3 {
            ApplicationTag::SignedInteger
        } else if t == 4 {
            ApplicationTag::Real
        } else if t == 5 {
            ApplicationTag::Double
        } else if t == 6 {
            ApplicationTag::OctetString
        } else if t == 7 {
            ApplicationTag::CharacterString
        } else if t == 8 {
            ApplicationTag::BitString
        } else if t == 9 {
            ApplicationTag::Enumerated
        } else if t == 10 {
            ApplicationTag::Date
        } else if t == 11 {
            ApplicationTag::Time
        } else if t == 12 {
            ApplicationTag::BACnetObjectIdentifier
        } else if t <= 15 {
            ApplicationTag::Reserved
        } else {
            ApplicationTag::Other(t)
        }
    }

    /// Resolves a numeric tag code to its application tag kind.
    pub fn from_u8(t: u8) -> (r: ApplicationTag)
        ensures
            r == ApplicationTag::spec_from_u8(t),
    {
        match t {
            0 => ApplicationTag::Null,
            1 => ApplicationTag::Boolean,
            2 => ApplicationTag::UnsignedInteger,
            3 => ApplicationTag::SignedInteger,
            4 => ApplicationTag::Real,
            5 => ApplicationTag::Double,
            6 => ApplicationTag::OctetString,
            7 => ApplicationTag::CharacterString,
            8 => ApplicationTag::BitString,
            9 => ApplicationTag::Enumerated,
            10 => ApplicationTag::Date,
            11 => ApplicationTag::Time,
            12 => ApplicationTag::BACnetObjectIdentifier,
            13..=15 => ApplicationTag::Reserved,
            _ => ApplicationTag::Other(t),
        }
    }
}

impl<'a> Tag<'a> {
    /// Decodes a raw tag header from the front of `buf`: the tag number,
    /// the class, the declared length, and the offset at which the data
    /// starts. The length is not checked against the remaining buffer.
    pub fn decode_buf(buf: &[u8]) -> (r: Result<(u8, bool, u32, u32), Error>)
        ensures
            match r {
                Ok((tag_number, class, length, offset)) => spec_decode_tag_header(buf@) == Ok::<
                    _,
                    Error,
                >((tag_number, class, length, offset as int)),
                Err(e) => spec_decode_tag_header(buf@) == Err::<(u8, bool, u32, int), _>(e),
            },
    {
        match decode_tag_header(buf) {
            Ok((tag_number, class, length, offset)) => {
                proof {
                    crate::encoding::parse::lemma_decode_tag_header_offset(buf@);
                }
                Ok((tag_number, class, length, offset as u32))
            },
            Err(e) => Err(e),
        }
    }

    /// Encodes a tag header, choosing the narrowest form for the tag
    /// number and for the length. Encoding cannot fail; the `Result` is
    /// kept so that callers treat the codec's two directions alike.
    pub fn encode_buf(tag_number: u8, class: bool, length: u32) -> (r: Result<Vec<u8>, Error>)
        ensures
            r is Ok,
            r matches Ok(v) ==> v@ == spec_encode_tag_header(tag_number, class, length),
    {
        Ok(encode_tag_header(tag_number, class, length))
    }
}

} // verus!
