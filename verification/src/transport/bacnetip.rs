//! BACnet/IP virtual link control: frames an NPDU as
//! `[link type 0x81][function][total length, big endian][NPDU bytes]`,
//! where the total length counts the whole frame, header included.
//!
//! Two decoders exist side by side: an owning decode that parses the whole
//! frame, and a borrowing slice view that validates only the link type and
//! the total length, leaving the rest to on-demand accessors.
use vstd::prelude::*;

use crate::application::APDU;
use crate::network::{spec_decode_npdu, NpduModel, NPDUMessage, NPDU};
use crate::{put_u16_be, read_u16_be, spec_be16, spec_be16_bytes};
use crate::{Dummy, Encode, Error};

verus! {

/// The link-type marker of BACnet/IP framing.
pub const BACNETIP: u8 = 0x81;

/// A value with a one-octet wire code.
pub trait AsU8 {
    /// The wire code of this value.
    spec fn spec_as_u8(&self) -> u8;

    /// The wire code of this value.
    fn as_u8(&self) -> (r: u8)
        ensures
            r == self.spec_as_u8(),
    ;
}

/// A link-layer function around its NPDU: the broadcast and unicast forms
/// carry the same frame and differ only in intended dispatch.
#[derive(Clone, Debug, Eq, PartialEq)]
pub enum BVLCFunction {
    OriginalBroadcastNPDU(NPDU),
    OriginalUnicastNPDU(NPDU),
}

impl AsU8 for BVLCFunction {
    open spec fn spec_as_u8(&self) -> u8 {
        match self {
            BVLCFunction::OriginalBroadcastNPDU(_) => 0x0b,
            BVLCFunction::OriginalUnicastNPDU(_) => 0x0a,
        }
    }

    fn as_u8(&self) -> u8 {
        match self {
            BVLCFunction::OriginalBroadcastNPDU(_) => 0x0b,
            BVLCFunction::OriginalUnicastNPDU(_) => 0x0a,
        }
    }
}

impl AsU8 for Dummy {
    open spec fn spec_as_u8(&self) -> u8 {
        0
    }

    fn as_u8(&self) -> u8 {
        0
    }
}

impl Encode for BVLCFunction {
    open spec fn encodable(&self) -> bool {
        match self {
            BVLCFunction::OriginalBroadcastNPDU(n) => n.encodable(),
            BVLCFunction::OriginalUnicastNPDU(n) => n.encodable(),
        }
    }

    /// The embedded NPDU's bytes; the function code travels in the frame
    /// header.
    open spec fn spec_encode(&self) -> Seq<u8> {
        match self {
            BVLCFunction::OriginalBroadcastNPDU(n) => n.spec_encode(),
            BVLCFunction::OriginalUnicastNPDU(n) => n.spec_encode(),
        }
    }

    fn encode(&self, buf: &mut Vec<u8>) {
        match self {
            BVLCFunction::OriginalBroadcastNPDU(n) => n.encode(buf),
            BVLCFunction::OriginalUnicastNPDU(n) => n.encode(buf),
        }
    }

    fn len(&self) -> usize {
        match self {
            BVLCFunction::OriginalBroadcastNPDU(n) => n.len(),
            BVLCFunction::OriginalUnicastNPDU(n) => n.len(),
        }
    }

    fn check_encodable(&self) -> bool {
        match self {
            BVLCFunction::OriginalBroadcastNPDU(n) => n.check_encodable(),
            BVLCFunction::OriginalUnicastNPDU(n) => n.check_encodable(),
        }
    }

    fn encode_vec(&self) -> Vec<u8> {
        let mut buf: Vec<u8> = Vec::new();
        self.encode(&mut buf);
        buf
    }
}

/// A virtual link control frame: the link-type octet and the function
/// around the payload.
#[derive(Clone, Debug, Eq, PartialEq)]
pub struct BVLC<F = BVLCFunction> {
    pub bvlc_type: u8,
    pub function: F,
}

impl<F> BVLC<F> {
    /// A BACnet/IP frame around the given function.
    pub fn new(function: F) -> (r: BVLC<F>)
        ensures
            r.bvlc_type == BACNETIP,
            r.function == function,
    {
        BVLC { bvlc_type: BACNETIP, function }
    }

    /// Replaces the frame's function.
    pub fn set_function(&mut self, function: F)
        ensures
            final(self).bvlc_type == old(self).bvlc_type,
            final(self).function == function,
    {
        self.function = function;
    }
}

impl<F: Encode + AsU8> Encode for BVLC<F> {
    /// A frame has an encoding when its function has one and the whole
    /// frame fits the two-byte total-length field.
    open spec fn encodable(&self) -> bool {
        &&& self.function.encodable()
        &&& 4 + self.function.spec_encode().len() <= 65535
    }

    /// `[link type][function code][total length, big endian][payload]`,
    /// the total length counting the four header octets.
    open spec fn spec_encode(&self) -> Seq<u8> {
        seq![self.bvlc_type, self.function.spec_as_u8()] + spec_be16_bytes(
            (4 + self.function.spec_encode().len()) as u16,
        ) + self.function.spec_encode()
    }

    fn encode(&self, buf: &mut Vec<u8>) {
        buf.push(self.bvlc_type);
        buf.push(self.function.as_u8());
        let total = self.len();
        put_u16_be(buf, total as u16);
        self.function.encode(buf);
        proof {
            assert(buf@ =~= old(buf)@ + self.spec_encode());
        }
    }

    fn len(&self) -> usize {
        proof {
            assert(self.spec_encode().len() == 4 + self.function.spec_encode().len());
        }
        4 + self.function.len()
    }

    fn check_encodable(&self) -> bool {
        if !self.function.check_encodable() {
            return false;
        }
        let fits = self.function.len() <= 65531;
        proof {
            assert(self.spec_encode().len() == 4 + self.function.spec_encode().len());
        }
        fits
    }

    fn encode_vec(&self) -> Vec<u8> {
        let mut buf: Vec<u8> = Vec::new();
        self.encode(&mut buf);
        buf
    }
}

/// The mathematical value of a [`BVLCFunction`].
pub enum BvlcFunctionModel {
    OriginalBroadcastNPDU(NpduModel),
    OriginalUnicastNPDU(NpduModel),
}

/// The mathematical value of a [`BVLC`] frame.
pub struct BvlcModel {
    pub bvlc_type: u8,
    pub function: BvlcFunctionModel,
}

impl View for BVLCFunction {
    type V = BvlcFunctionModel;

    open spec fn view(&self) -> BvlcFunctionModel {
        match self {
            BVLCFunction::OriginalBroadcastNPDU(n) => BvlcFunctionModel::OriginalBroadcastNPDU(n@),
            BVLCFunction::OriginalUnicastNPDU(n) => BvlcFunctionModel::OriginalUnicastNPDU(n@),
        }
    }
}

impl View for BVLC<BVLCFunction> {
    type V = BvlcModel;

    open spec fn view(&self) -> BvlcModel {
        BvlcModel { bvlc_type: self.bvlc_type, function: self.function@ }
    }
}

/// Decodes a frame: the link type must be the BACnet/IP marker, the
/// function one of the two original-NPDU codes, and the total length must
/// cover the header and fit the buffer; it is the authoritative frame
/// boundary, so bytes past it are ignored. The NPDU is decoded from
/// exactly the bytes the total length declares.
pub open spec fn spec_decode_bvlc(b: Seq<u8>) -> Result<BvlcModel, Error> {
    if b.len() < 1 {
        Err(Error::TruncatedInput)
    } else if b[0] != BACNETIP {
        Err(Error::UnsupportedLinkType(b[0]))
    } else if b.len() < 4 {
        Err(Error::TruncatedInput)
    } else {
        let function = b[1];
        let total = spec_be16(b[2], b[3]) as int;
        if function == 0x0b || function == 0x0a {
            if total < 4 || total > b.len() {
                Err(Error::MalformedLength)
            } else {
                match spec_decode_npdu(b.subrange(4, total)) {
                    Err(e) => Err(e),
                    Ok(nm) => Ok(
                        BvlcModel {
                            bvlc_type: BACNETIP,
                            function: if function == 0x0b {
                                BvlcFunctionModel::OriginalBroadcastNPDU(nm)
                            } else {
                                BvlcFunctionModel::OriginalUnicastNPDU(nm)
                            },
                        },
                    ),
                }
            }
        } else {
            Err(Error::UnsupportedFunction(function))
        }
    }
}

impl BVLC<BVLCFunction> {
    /// Decodes a frame from the front of `input`; bytes beyond the
    /// declared total length are left alone.
    pub fn decode(input: &[u8]) -> (r: Result<BVLC<BVLCFunction>, Error>)
        ensures
            match r {
                Ok(bvlc) => spec_decode_bvlc(input@) == Ok::<_, Error>(bvlc@),
                Err(e) => spec_decode_bvlc(input@) == Err::<BvlcModel, _>(e),
            },
    {
        if input.len() < 1 {
            return Err(Error::TruncatedInput);
        }
        let bvlc_type = input[0];
        if bvlc_type != BACNETIP {
            return Err(Error::UnsupportedLinkType(bvlc_type));
        }
        if input.len() < 4 {
            return Err(Error::TruncatedInput);
        }
        let function = input[1];
        let total = read_u16_be(input[2], input[3]) as usize;
        if function == 0x0b || function == 0x0a {
            if total < 4 || total > input.len() {
                return Err(Error::MalformedLength);
            }
            let body = vstd::slice::slice_subrange(input, 4, total);
            let npdu = match NPDU::decode(body) {
                Ok(n) => n,
                Err(e) => {
                    return Err(e);
                },
            };
            if function == 0x0b {
                Ok(BVLC::new(BVLCFunction::OriginalBroadcastNPDU(npdu)))
            } else {
                Ok(BVLC::new(BVLCFunction::OriginalUnicastNPDU(npdu)))
            }
        } else {
            Err(Error::UnsupportedFunction(function))
        }
    }
}

/// A borrowed view of a frame for line-rate filtering: construction
/// validates only the link type and the total length against the buffer;
/// the accessors re-slice the same buffer without copying.
#[derive(Debug)]
pub struct BVLCSlice<'a> {
    pub slice: &'a [u8],
}

impl<'a> BVLCSlice<'a> {
    /// A validated slice view: four header octets present, the BACnet/IP
    /// link type, and a total length that covers the header and fits the
    /// buffer.
    pub open spec fn wf(&self) -> bool {
        &&& self.slice@.len() >= 4
        &&& self.slice@[0] == BACNETIP
        &&& 4 <= spec_be16(self.slice@[2], self.slice@[3]) <= self.slice@.len()
    }

    /// Validates the link type and the total length of `buf` and wraps it;
    /// the function octet and the NPDU are left for the accessors.
    pub fn new(buf: &'a [u8]) -> (r: Result<BVLCSlice<'a>, Error>)
        ensures
            match r {
                Ok(v) => v.wf() && v.slice@ == buf@,
                Err(e) => {
                    ||| (e == Error::TruncatedInput && buf@.len() < 4 && (buf@.len() < 1 || buf@[0]
                        == BACNETIP))
                    ||| (e matches Error::UnsupportedLinkType(t) && buf@.len() >= 1 && buf@[0] != BACNETIP
                        && t == buf@[0])
                    ||| (e == Error::MalformedLength && buf@.len() >= 4 && buf@[0] == BACNETIP && !(
                    4 <= spec_be16(buf@[2], buf@[3]) <= buf@.len()))
                },
            },
    {
        if buf.len() < 1 {
            return Err(Error::TruncatedInput);
        }
        if buf[0] != BACNETIP {
            return Err(Error::UnsupportedLinkType(buf[0]));
        }
        if buf.len() < 4 {
            return Err(Error::TruncatedInput);
        }
        let total = read_u16_be(buf[2], buf[3]) as usize;
        if total < 4 || total > buf.len() {
            return Err(Error::MalformedLength);
        }
        Ok(BVLCSlice { slice: buf })
    }

    /// The frame's function octet.
    pub fn function(&self) -> (r: u8)
        requires
            self.wf(),
        ensures
            r == self.slice@[1],
    {
        self.slice[1]
    }

    /// The frame's declared total length, header included.
    pub fn total_length(&self) -> (r: u16)
        requires
            self.wf(),
        ensures
            r == spec_be16(self.slice@[2], self.slice@[3]),
    {
        read_u16_be(self.slice[2], self.slice[3])
    }

    /// The NPDU bytes the total length declares, borrowed from the same
    /// buffer; bytes beyond the total length are left alone.
    pub fn npdu_bytes(&self) -> (r: &'a [u8])
        requires
            self.wf(),
        ensures
            r@ == self.slice@.subrange(4, spec_be16(self.slice@[2], self.slice@[3]) as int),
    {
        let total = read_u16_be(self.slice[2], self.slice[3]) as usize;
        vstd::slice::slice_subrange(self.slice, 4, total)
    }
}

/// Round-trip of a whole frame around an NPDU carrying an APDU whose type
/// fits its wire nibble: decoding an encoded frame gives back the function
/// and every field of the NPDU.
pub proof fn lemma_bvlc_round_trip(bvlc: BVLC<BVLCFunction>)
    requires
        bvlc.encodable(),
        bvlc.bvlc_type == BACNETIP,
        ({
            let n = match bvlc.function {
                BVLCFunction::OriginalBroadcastNPDU(n) => n,
                BVLCFunction::OriginalUnicastNPDU(n) => n,
            };
            n.content matches crate::network::NPDUContent::APDU(a) && a.apdu_type < 16
        }),
    ensures
        spec_decode_bvlc(bvlc.spec_encode()) == Ok::<_, Error>(bvlc@),
{
    let b = bvlc.spec_encode();
    let n = match bvlc.function {
        BVLCFunction::OriginalBroadcastNPDU(n) => n,
        BVLCFunction::OriginalUnicastNPDU(n) => n,
    };
    let cb = n.spec_encode();
    let total = (4 + cb.len()) as u16;
    crate::lemma_be16_round_trip(total);
    assert(b[0] == BACNETIP);
    assert(b[1] == bvlc.function.spec_as_u8());
    assert(b[2] == spec_be16_bytes(total)[0]);
    assert(b[3] == spec_be16_bytes(total)[1]);
    assert(spec_be16(b[2], b[3]) == total);
    assert(b.subrange(4, total as int) =~= cb);
    crate::network::lemma_npdu_round_trip(n);
}

/// The two decoders agree: where the owning decode succeeds, the slice
/// view is accepted, its function octet names the decoded function's
/// variant, and decoding its NPDU bytes gives the same NPDU.
pub proof fn lemma_slice_view_agrees(b: Seq<u8>)
    requires
        spec_decode_bvlc(b) is Ok,
    ensures
        b.len() >= 4,
        b[0] == BACNETIP,
        4 <= spec_be16(b[2], b[3]) <= b.len(),
        ({
            let function = spec_decode_bvlc(b)->Ok_0.function;
            let npdu = spec_decode_npdu(b.subrange(4, spec_be16(b[2], b[3]) as int));
            match function {
                BvlcFunctionModel::OriginalBroadcastNPDU(nm) => b[1] == 0x0b && npdu
                    == Ok::<_, Error>(nm),
                BvlcFunctionModel::OriginalUnicastNPDU(nm) => b[1] == 0x0a && npdu == Ok::<
                    _,
                    Error,
                >(nm),
            }
        }),
{
}

} // verus!
