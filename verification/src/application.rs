//! The application layer: the APDU (type nibble, service choice, content)
//! and the unconfirmed services carried inside it.
pub mod service;

use vstd::prelude::*;

use crate::{put_bytes, Encode, Error};

verus! {

/// The eight application PDU kinds of the protocol, in code order.
#[derive(Clone, Debug, Eq, PartialEq, Structural)]
pub enum BACnetPDU {
    ConfirmedRequest,
    UnconfirmedRequest,
    SimpleACK,
    ComplexACK,
    SegmentACK,
    Error,
    Reject,
    Abort,
}

impl BACnetPDU {
    /// The numeric code of a PDU kind.
    pub open spec fn spec_as_u8(self) -> u8 {
        match self {
            BACnetPDU::ConfirmedRequest => 0,
            BACnetPDU::UnconfirmedRequest => 1,
            BACnetPDU::SimpleACK => 2,
            BACnetPDU::ComplexACK => 3,
            BACnetPDU::SegmentACK => 4,
            BACnetPDU::Error => 5,
            BACnetPDU::Reject => 6,
            BACnetPDU::Abort => 7,
        }
    }

    /// The numeric code of this PDU kind.
    pub fn as_u8(&self) -> (r: u8)
        ensures
            r == self.spec_as_u8(),
    {
        match self {
            BACnetPDU::ConfirmedRequest => 0,
            BACnetPDU::UnconfirmedRequest => 1,
            BACnetPDU::SimpleACK => 2,
            BACnetPDU::ComplexACK => 3,
            BACnetPDU::SegmentACK => 4,
            BACnetPDU::Error => 5,
            BACnetPDU::Reject => 6,
            BACnetPDU::Abort => 7,
        }
    }
}

/// The unconfirmed-request PDU as a bare marker; its payload is carried by
/// [`APDU`].
#[derive(Clone, Debug, Eq, PartialEq, Structural)]
pub struct BACnetUnconfirmedRequestPDU {}

/// An application PDU: the PDU type (a nibble on the wire), the service
/// choice octet, and the service-specific content bytes.
#[derive(Clone, Debug, Eq, PartialEq)]
pub struct APDU {
    pub apdu_type: u8,
    pub service_choice: u8,
    pub user_data: Vec<u8>,
}

/// The mathematical value of an [`APDU`].
pub struct ApduModel {
    pub apdu_type: u8,
    pub service_choice: u8,
    pub user_data: Seq<u8>,
}

impl View for APDU {
    type V = ApduModel;

    open spec fn view(&self) -> ApduModel {
        ApduModel {
            apdu_type: self.apdu_type,
            service_choice: self.service_choice,
            user_data: self.user_data@,
        }
    }
}

/// Decodes an APDU: the high nibble of the first octet is the PDU type,
/// the second octet the service choice, and everything after them the
/// service content.
pub open spec fn spec_decode_apdu(b: Seq<u8>) -> Result<ApduModel, Error> {
    if b.len() < 2 {
        Err(Error::TruncatedInput)
    } else {
        Ok(ApduModel { apdu_type: b[0] / 16, service_choice: b[1], user_data: b.skip(2) })
    }
}

impl APDU {
    /// An APDU with the given type, service choice and content.
    pub fn new(apdu_type: u8, service_choice: u8, user_data: Vec<u8>) -> (r: APDU)
        ensures
            r@ == (ApduModel { apdu_type, service_choice, user_data: user_data@ }),
    {
        APDU { apdu_type, service_choice, user_data }
    }

    /// Decodes an APDU from the whole of `input`; the content takes every
    /// byte after the first two.
    pub fn decode(input: &[u8]) -> (r: Result<APDU, Error>)
        ensures
            match r {
                Ok(apdu) => spec_decode_apdu(input@) == Ok::<_, Error>(apdu@),
                Err(e) => spec_decode_apdu(input@) == Err::<ApduModel, _>(e),
            },
    {
        if input.len() < 2 {
            return Err(Error::TruncatedInput);
        }
        let apdu_type = input[0] / 16;
        let service_choice = input[1];
        let rest = vstd::slice::slice_subrange(input, 2, input.len());
        let user_data = vstd::slice::slice_to_vec(rest);
        proof {
            assert(rest@ =~= input@.skip(2));
        }
        Ok(APDU { apdu_type, service_choice, user_data })
    }
}

impl Encode for APDU {
    /// Every APDU whose total size fits the machine has an encoding; the
    /// type nibble is truncated to its low four bits on the wire.
    open spec fn encodable(&self) -> bool {
        self.user_data@.len() + 2 <= usize::MAX
    }

    /// `[type<<4][service_choice][content...]`; the low nibble of the
    /// first octet is zero.
    open spec fn spec_encode(&self) -> Seq<u8> {
        seq![((self.apdu_type % 16) * 16) as u8, self.service_choice] + self.user_data@
    }

    fn encode(&self, buf: &mut Vec<u8>) {
        buf.push((self.apdu_type % 16) * 16);
        buf.push(self.service_choice);
        put_bytes(buf, self.user_data.as_slice());
        proof {
            assert(buf@ =~= old(buf)@ + self.spec_encode());
        }
    }

    fn len(&self) -> usize {
        2 + self.user_data.len()
    }

    fn check_encodable(&self) -> bool {
        self.user_data.len() <= usize::MAX - 2
    }

    fn encode_vec(&self) -> Vec<u8> {
        let mut buf: Vec<u8> = Vec::new();
        self.encode(&mut buf);
        buf
    }
}

/// Round-trip of an APDU whose type fits its wire nibble: decoding an
/// encoded APDU gives back its type, service choice and content.
pub proof fn lemma_apdu_round_trip(apdu: APDU)
    requires
        apdu.apdu_type < 16,
        apdu.encodable(),
    ensures
        spec_decode_apdu(apdu.spec_encode()) == Ok::<_, Error>(apdu@),
{
    let b = apdu.spec_encode();
    assert(b[0] == (apdu.apdu_type * 16) as u8);
    assert(b[0] / 16 == apdu.apdu_type) by (nonlinear_arith)
        requires
            b[0] == (apdu.apdu_type * 16) as u8,
            apdu.apdu_type < 16,
    ;
    assert(b.skip(2) =~= apdu.user_data@);
}

} // verus!
