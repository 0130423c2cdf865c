//! A layered encoder/decoder for the BACnet building-automation wire protocol:
//! the tag-length-value primitive codec, the application layer (APDU and the
//! unconfirmed services Who-Is and I-Am), the network layer (NPDU), and the
//! virtual link control framing for transport over IP (BVLC).
//!
//! Every decoder works on a caller-supplied byte slice and returns a
//! recoverable [`Error`] on malformed input; every encoder appends to a
//! caller-supplied buffer. The wire format of each layer is stated by a spec
//! function, and each encoder and decoder is proved against it.
use vstd::prelude::*;

pub mod application;
pub mod encoding;
pub mod network;
pub mod parse;
pub mod transport;

verus! {

/// The ways a decode can fail. Encoding never fails.
#[derive(Clone, Copy, Debug, PartialEq, Eq, Structural)]
pub enum Error {
    /// Fewer bytes remain than a fixed-width field requires.
    TruncatedInput,
    /// A declared length exceeds the remaining buffer.
    MalformedLength,
    /// The link-type octet of a frame is not the BACnet/IP marker, 0x81.
    UnsupportedLinkType(u8),
    /// An unrecognized link-layer function or network-layer message code.
    UnsupportedFunction(u8),
    /// An unrecognized application-layer service choice.
    UnsupportedService(u8),
}

/// The value of a two-byte big-endian field.
pub open spec fn spec_be16(b0: u8, b1: u8) -> u16 {
    (b0 * 256 + b1) as u16
}

/// The value of a four-byte big-endian field.
pub open spec fn spec_be32(b0: u8, b1: u8, b2: u8, b3: u8) -> u32 {
    (b0 * 0x1000000 + b1 * 0x10000 + b2 * 0x100 + b3) as u32
}

/// The two-byte big-endian encoding of a value.
pub open spec fn spec_be16_bytes(v: u16) -> Seq<u8> {
    seq![(v / 256) as u8, (v % 256) as u8]
}

/// The four-byte big-endian encoding of a value.
pub open spec fn spec_be32_bytes(v: u32) -> Seq<u8> {
    seq![
        (v / 0x1000000) as u8,
        ((v / 0x10000) % 256) as u8,
        ((v / 0x100) % 256) as u8,
        (v % 256) as u8,
    ]
}

/// Reading back a two-byte big-endian encoding gives the encoded value.
pub proof fn lemma_be16_round_trip(v: u16)
    ensures
        spec_be16(spec_be16_bytes(v)[0], spec_be16_bytes(v)[1]) == v,
{
    assert((v / 256) * 256 + v % 256 == v) by (nonlinear_arith);
}

/// Reading back a four-byte big-endian encoding gives the encoded value.
pub proof fn lemma_be32_round_trip(v: u32)
    ensures
        spec_be32(
            spec_be32_bytes(v)[0],
            spec_be32_bytes(v)[1],
            spec_be32_bytes(v)[2],
            spec_be32_bytes(v)[3],
        ) == v,
{
    assert((v / 0x1000000) * 0x1000000 + ((v / 0x10000) % 256) * 0x10000 + ((v / 0x100) % 256)
        * 0x100 + v % 256 == v) by (bit_vector);
}

/// Appends the two-byte big-endian encoding of `v`.
pub fn put_u16_be(buf: &mut Vec<u8>, v: u16)
    ensures
        final(buf)@ == old(buf)@ + spec_be16_bytes(v),
{
    buf.push((v / 256) as u8);
    buf.push((v % 256) as u8);
    proof {
        assert(buf@ =~= old(buf)@ + spec_be16_bytes(v));
    }
}

/// Appends the four-byte big-endian encoding of `v`.
pub fn put_u32_be(buf: &mut Vec<u8>, v: u32)
    ensures
        final(buf)@ == old(buf)@ + spec_be32_bytes(v),
{
    buf.push((v / 0x1000000) as u8);
    buf.push(((v / 0x10000) % 256) as u8);
    buf.push(((v / 0x100) % 256) as u8);
    buf.push((v % 256) as u8);
    proof {
        assert(buf@ =~= old(buf)@ + spec_be32_bytes(v));
    }
}

/// Appends all of `data` to `buf`.
pub fn put_bytes(buf: &mut Vec<u8>, data: &[u8])
    ensures
        final(buf)@ == old(buf)@ + data@,
{
    let mut k: usize = 0;
    while k < data.len()
        invariant
            k <= data@.len(),
            buf@ == old(buf)@ + data@.subrange(0, k as int),
        decreases data@.len() - k,
    {
        buf.push(data[k]);
        proof {
            assert(buf@ =~= old(buf)@ + data@.subrange(0, k + 1));
        }
        k = k + 1;
    }
    proof {
        assert(data@.subrange(0, data@.len() as int) =~= data@);
    }
}

/// The value of the two-byte big-endian field `[b0, b1]`.
pub fn read_u16_be(b0: u8, b1: u8) -> (v: u16)
    ensures
        v == spec_be16(b0, b1),
{
    b0 as u16 * 256 + b1 as u16
}

/// The value of the four-byte big-endian field `[b0, b1, b2, b3]`.
pub fn read_u32_be(b0: u8, b1: u8, b2: u8, b3: u8) -> (v: u32)
    ensures
        v == spec_be32(b0, b1, b2, b3),
{
    b0 as u32 * 0x1000000 + b1 as u32 * 0x10000 + b2 as u32 * 0x100 + b3 as u32
}

/// A value with a wire encoding. `spec_encode` is the encoding itself;
/// `encodable` says which values have one (an address longer than its
/// one-byte length field, or a value whose total size overflows the
/// machine, have none).
pub trait Encode {
    /// Whether this value has a wire encoding.
    spec fn encodable(&self) -> bool;

    /// The bytes that encoding this value produces.
    spec fn spec_encode(&self) -> Seq<u8>;

    /// Appends the wire encoding of `self` to `buf`.
    fn encode(&self, buf: &mut Vec<u8>)
        requires
            self.encodable(),
        ensures
            final(buf)@ == old(buf)@ + self.spec_encode(),
    ;

    /// The number of bytes that `encode` appends.
    fn len(&self) -> (n: usize)
        requires
            self.encodable(),
        ensures
            n == self.spec_encode().len(),
    ;

    /// Decides `encodable` at run time, so that unverified callers can
    /// test it before calling `encode`.
    fn check_encodable(&self) -> (b: bool)
        ensures
            b == self.encodable(),
    ;

    /// The wire encoding of `self` in a fresh buffer.
    fn encode_vec(&self) -> (r: Vec<u8>)
        requires
            self.encodable(),
        ensures
            r@ == self.spec_encode(),
    ;
}

/// A placeholder content type that encodes to nothing. It stands in for a
/// layer's payload where a frame is built or inspected without one.
#[derive(Clone, Debug, Eq, PartialEq, Default)]
pub struct Dummy {}

impl Encode for Dummy {
    open spec fn encodable(&self) -> bool {
        true
    }

    open spec fn spec_encode(&self) -> Seq<u8> {
        Seq::empty()
    }

    fn encode(&self, buf: &mut Vec<u8>) {
        proof {
            assert(buf@ =~= old(buf)@ + self.spec_encode());
        }
    }

    fn len(&self) -> usize {
        0
    }

    fn check_encodable(&self) -> bool {
        true
    }

    fn encode_vec(&self) -> Vec<u8> {
        Vec::new()
    }
}

} // verus!
