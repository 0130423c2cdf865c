//! The tag codec: the shared three-tier header encoding, the raw header
//! decoder, and the full tag decoder with the boolean and structural-marker
//! special cases.
//!
//! The wire layout of a tag header is `[tag<<4 | class<<3 | lvt]`, with the
//! tag number in a follow-on octet when it is 15 or more, and the length in
//! a follow-on one-, three- or five-octet group when it is 5 or more.
use vstd::prelude::*;

use crate::encoding::{ApplicationTag, ContextTag, LengthValueType, Tag, TagNumber};
use crate::Error;
use crate::{read_u16_be, read_u32_be, spec_be16, spec_be32, spec_be16_bytes, spec_be32_bytes};
use crate::{lemma_be16_round_trip, lemma_be32_round_trip};
use crate::{put_u16_be, put_u32_be};

verus! {

/// The value of the three length/value/type bits that encoding `length`
/// puts in the first octet: the length itself when it is inline, else the
/// extended-length escape, 5.
pub open spec fn spec_lvt_field(length: u32) -> u8 {
    if length <= 4 {
        length as u8
    } else {
        5
    }
}

/// The first octet of an encoded tag header: tag number in the top nibble
/// (15 escapes to a follow-on octet), class on bit 3, length/value/type
/// selector in the low three bits.
pub open spec fn spec_tag_first_octet(tag_number: u8, class: bool, length: u32) -> u8 {
    ((if tag_number <= 14 {
        tag_number as int
    } else {
        15
    }) * 16 + (if class {
        8int
    } else {
        0
    }) + spec_lvt_field(length) as int) as u8
}

/// The follow-on octets that encode `length` when it does not fit the
/// first octet: none below 5, one octet up to 253, a 254 marker and two
/// big-endian octets up to 65535, and a 255 marker and four big-endian
/// octets above that.
pub open spec fn spec_length_tail(length: u32) -> Seq<u8> {
    if length <= 4 {
        Seq::<u8>::empty()
    } else if length <= 253 {
        seq![length as u8]
    } else if length <= 65535 {
        seq![254u8] + spec_be16_bytes(length as u16)
    } else {
        seq![255u8] + spec_be32_bytes(length)
    }
}

/// The narrowest encoding of a tag header: the first octet, the extended
/// tag-number octet when the number is 15 or more, then the length tail.
pub open spec fn spec_encode_tag_header(tag_number: u8, class: bool, length: u32) -> Seq<u8> {
    (if tag_number <= 14 {
        seq![spec_tag_first_octet(tag_number, class, length)]
    } else {
        seq![spec_tag_first_octet(tag_number, class, length), tag_number]
    }) + spec_length_tail(length)
}

/// Decodes the length field at offset `i`, after the tag number has been
/// resolved. The low three bits of the first octet give the length when
/// below 5; any other value selects the extended form in the octets that
/// follow. Returns the tag number, class, length and the offset of the
/// data.
pub open spec fn spec_decode_length(b: Seq<u8>, i: int, tag_number: u8, class: bool) -> Result<
    (u8, bool, u32, int),
    Error,
>
    recommends
        1 <= i <= b.len(),
{
    let lvt = b[0] % 8;
    if lvt < 5 {
        Ok((tag_number, class, lvt as u32, i))
    } else if b.len() < i + 1 {
        Err(Error::TruncatedInput)
    } else {
        let ext = b[i];
        if ext <= 253 {
            Ok((tag_number, class, ext as u32, i + 1))
        } else if ext == 254 {
            if b.len() < i + 3 {
                Err(Error::TruncatedInput)
            } else {
                Ok((tag_number, class, spec_be16(b[i + 1], b[i + 2]) as u32, i + 3))
            }
        } else {
            if b.len() < i + 5 {
                Err(Error::TruncatedInput)
            } else {
                Ok((tag_number, class, spec_be32(b[i + 1], b[i + 2], b[i + 3], b[i + 4]), i + 5))
            }
        }
    }
}

/// Decodes a raw tag header from the front of `b`: tag number (with the
/// extended-octet escape), class bit, length (with the three-tier extended
/// form), and the offset at which the data starts.
pub open spec fn spec_decode_tag_header(b: Seq<u8>) -> Result<(u8, bool, u32, int), Error> {
    if b.len() < 1 {
        Err(Error::TruncatedInput)
    } else {
        let first = b[0];
        let class = (first / 8) % 2 == 1;
        if first / 16 < 15 {
            spec_decode_length(b, 1, first / 16, class)
        } else if b.len() < 2 {
            Err(Error::TruncatedInput)
        } else {
            spec_decode_length(b, 2, b[1], class)
        }
    }
}

/// A decoded raw header starts its data within the buffer, and is at most
/// seven bytes long (two tag-number octets and a five-octet length group).
pub proof fn lemma_decode_tag_header_offset(b: Seq<u8>)
    requires
        spec_decode_tag_header(b) is Ok,
    ensures
        1 <= spec_decode_tag_header(b)->Ok_0.3 <= b.len(),
        spec_decode_tag_header(b)->Ok_0.3 <= 7,
{
}

/// Decodes a raw tag header from the front of `buf`: the tag number, the
/// class, the declared length, and the offset at which the data starts.
/// The length is not checked against the remaining buffer here.
pub fn decode_tag_header(buf: &[u8]) -> (r: Result<(u8, bool, u32, usize), Error>)
    ensures
        match r {
            Ok((tag_number, class, length, offset)) => spec_decode_tag_header(buf@) == Ok::<
                _,
                Error,
            >((tag_number, class, length, offset as int)),
            Err(e) => spec_decode_tag_header(buf@) == Err::<(u8, bool, u32, int), _>(e),
        },
{
    if buf.len() < 1 {
        return Err(Error::TruncatedInput);
    }
    let first = buf[0];
    let class = (first / 8) % 2 == 1;
    let mut tag_number = first / 16;
    let mut i: usize = 1;
    if tag_number == 15 {
        if buf.len() < 2 {
            return Err(Error::TruncatedInput);
        }
        tag_number = buf[1];
        i = 2;
    }
    let lvt = first % 8;
    if lvt < 5 {
        return Ok((tag_number, class, lvt as u32, i));
    }
    if buf.len() < i + 1 {
        return Err(Error::TruncatedInput);
    }
    let ext = buf[i];
    if ext <= 253 {
        Ok((tag_number, class, ext as u32, i + 1))
    } else if ext == 254 {
        if buf.len() < i + 3 {
            return Err(Error::TruncatedInput);
        }
        Ok((tag_number, class, read_u16_be(buf[i + 1], buf[i + 2]) as u32, i + 3))
    } else {
        if buf.len() < i + 5 {
            return Err(Error::TruncatedInput);
        }
        Ok((tag_number, class, read_u32_be(buf[i + 1], buf[i + 2], buf[i + 3], buf[i + 4]), i + 5))
    }
}

/// Encodes a tag header, choosing the narrowest form for the tag number
/// and for the length.
pub fn encode_tag_header(tag_number: u8, class: bool, length: u32) -> (r: Vec<u8>)
    ensures
        r@ == spec_encode_tag_header(tag_number, class, length),
{
    let mut buf: Vec<u8> = Vec::new();
    let mut first: u8 = if tag_number <= 14 {
        tag_number * 16
    } else {
        240
    };
    if class {
        first = first + 8;
    }
    if length <= 4 {
        first = first + (length as u8);
    } else {
        first = first + 5;
    }
    buf.push(first);
    if tag_number > 14 {
        buf.push(tag_number);
    }
    if length <= 4 {
        // the length is inline in the first octet
    } else if length <= 253 {
        buf.push(length as u8);
    } else if length <= 65535 {
        buf.push(254);
        put_u16_be(&mut buf, length as u16);
    } else {
        buf.push(255);
        put_u32_be(&mut buf, length);
    }
    proof {
        assert(buf@ =~= spec_encode_tag_header(tag_number, class, length));
    }
    buf
}

/// Decodes a raw tag header and slices out its data: the declared length
/// must fit the remaining buffer.
pub open spec fn spec_decode_buf(b: Seq<u8>) -> Result<(u8, bool, u32, Seq<u8>), Error> {
    match spec_decode_tag_header(b) {
        Err(e) => Err(e),
        Ok((tag_number, class, length, offset)) => {
            if offset + length > b.len() {
                Err(Error::MalformedLength)
            } else {
                Ok((tag_number, class, length, b.subrange(offset, offset + length)))
            }
        },
    }
}

/// Decodes a raw tag header from the front of `buf` and returns the tag
/// number, the class, the length, and the `length` data bytes that follow
/// the header. Fails with `MalformedLength` when the declared length
/// exceeds the remaining buffer.
pub fn decode_buf<'a>(buf: &'a [u8]) -> (r: Result<(u8, bool, u32, &'a [u8]), Error>)
    ensures
        match r {
            Ok((tag_number, class, length, data)) => spec_decode_buf(buf@) == Ok::<_, Error>(
                (tag_number, class, length, data@),
            ),
            Err(e) => spec_decode_buf(buf@) == Err::<(u8, bool, u32, Seq<u8>), _>(e),
        },
{
    let (tag_number, class, length, offset) = match decode_tag_header(buf) {
        Ok(h) => h,
        Err(e) => {
            return Err(e);
        },
    };
    proof {
        lemma_decode_tag_header_offset(buf@);
    }
    if length as usize > buf.len() - offset {
        return Err(Error::MalformedLength);
    }
    let data = vstd::slice::slice_subrange(buf, offset, offset + length as usize);
    Ok((tag_number, class, length, data))
}

/// Encodes a tag header, choosing the narrowest form for the tag number
/// and for the length. Encoding cannot fail; the `Result` is kept so that
/// callers treat the codec's two directions alike.
pub fn encode_buf(tag_number: u8, class: bool, length: u32) -> (r: Result<Vec<u8>, Error>)
    ensures
        r is Ok,
        r matches Ok(v) ==> v@ == spec_encode_tag_header(tag_number, class, length),
{
    Ok(encode_tag_header(tag_number, class, length))
}

/// The tag number that a class bit and a numeric code resolve to.
pub open spec fn spec_tag_number(class: bool, t: u8) -> TagNumber {
    if class {
        TagNumber::Context(ContextTag::Other(t))
    } else {
        TagNumber::Application(ApplicationTag::spec_from_u8(t))
    }
}

/// Resolves the data of a tag whose length is known: the data must fit the
/// remaining buffer.
pub open spec fn spec_parse_tag_data(b: Seq<u8>, i: int, tag_number: TagNumber, length: u32) -> Result<
    (TagNumber, LengthValueType, Seq<u8>, int),
    Error,
>
    recommends
        1 <= i <= b.len(),
{
    if i + length > b.len() {
        Err(Error::MalformedLength)
    } else {
        Ok((tag_number, LengthValueType::Length(length), b.subrange(i, i + length), i + length))
    }
}

/// Resolves the length/value/type bits of a full tag whose number is
/// already known. For the Application/Boolean tag they are a packed value;
/// otherwise 0 to 4 are an inline length, 5 the extended length escape,
/// and 6 and 7 the opening and closing markers, which carry no data.
pub open spec fn spec_parse_tag_lvt(b: Seq<u8>, i: int, tag_number: TagNumber) -> Result<
    (TagNumber, LengthValueType, Seq<u8>, int),
    Error,
>
    recommends
        1 <= i <= b.len(),
{
    let lvt = b[0] % 8;
    if tag_number == TagNumber::Application(ApplicationTag::Boolean) {
        Ok((tag_number, LengthValueType::Value(lvt), Seq::empty(), i))
    } else if lvt < 5 {
        spec_parse_tag_data(b, i, tag_number, lvt as u32)
    } else if lvt == 5 {
        if b.len() < i + 1 {
            Err(Error::TruncatedInput)
        } else {
            let ext = b[i];
            if ext <= 253 {
                spec_parse_tag_data(b, i + 1, tag_number, ext as u32)
            } else if ext == 254 {
                if b.len() < i + 3 {
                    Err(Error::TruncatedInput)
                } else {
                    spec_parse_tag_data(b, i + 3, tag_number, spec_be16(b[i + 1], b[i + 2]) as u32)
                }
            } else {
                if b.len() < i + 5 {
                    Err(Error::TruncatedInput)
                } else {
                    spec_parse_tag_data(
                        b,
                        i + 5,
                        tag_number,
                        spec_be32(b[i + 1], b[i + 2], b[i + 3], b[i + 4]),
                    )
                }
            }
        }
    } else if lvt == 6 {
        Ok((tag_number, LengthValueType::Opening, Seq::empty(), i))
    } else {
        Ok((tag_number, LengthValueType::Closing, Seq::empty(), i))
    }
}

/// Decodes one full tag from the front of `b`: the resolved tag number,
/// the resolved length/value/type, the data bytes, and how many bytes the
/// tag consumed.
pub open spec fn spec_parse_tag(b: Seq<u8>) -> Result<
    (TagNumber, LengthValueType, Seq<u8>, int),
    Error,
> {
    if b.len() < 1 {
        Err(Error::TruncatedInput)
    } else {
        let first = b[0];
        let class = (first / 8) % 2 == 1;
        if first / 16 < 15 {
            spec_parse_tag_lvt(b, 1, spec_tag_number(class, first / 16))
        } else if b.len() < 2 {
            Err(Error::TruncatedInput)
        } else {
            spec_parse_tag_lvt(b, 2, spec_tag_number(class, b[1]))
        }
    }
}

/// Decodes one full tag from the front of `input` and returns the bytes
/// that follow it together with the tag, whose `data` borrows from
/// `input`.
pub fn parse_bacnet_tag<'a>(input: &'a [u8]) -> (r: Result<(&'a [u8], Tag<'a>), Error>)
    ensures
        match r {
            Ok((rest, tag)) => {
                &&& spec_parse_tag(input@) matches Ok((tag_number, lvt, data, consumed))
                &&& tag.tag_number == tag_number
                &&& tag.lvt == lvt
                &&& tag.data@ == data
                &&& rest@ == input@.skip(consumed)
            },
            Err(e) => spec_parse_tag(input@) == Err::<(TagNumber, LengthValueType, Seq<u8>, int), _>(
                e,
            ),
        },
{
    if input.len() < 1 {
        return Err(Error::TruncatedInput);
    }
    let first = input[0];
    let class = (first / 8) % 2 == 1;
    let mut code = first / 16;
    let mut i: usize = 1;
    if code == 15 {
        if input.len() < 2 {
            return Err(Error::TruncatedInput);
        }
        code = input[1];
        i = 2;
    }
    let tag_number = if class {
        TagNumber::Context(ContextTag::from_u8(code))
    } else {
        TagNumber::Application(ApplicationTag::from_u8(code))
    };

    let lvt_bits = first % 8;
    let is_boolean = match tag_number {
        TagNumber::Application(ApplicationTag::Boolean) => true,
        _ => false,
    };
    if is_boolean {
        let data = vstd::slice::slice_subrange(input, i, i);
        let rest = vstd::slice::slice_subrange(input, i, input.len());
        proof {
            assert(data@ =~= Seq::<u8>::empty());
            assert(rest@ =~= input@.skip(i as int));
        }
        return Ok((rest, Tag { tag_number, lvt: LengthValueType::Value(lvt_bits), data }));
    }
    if lvt_bits == 6 || lvt_bits == 7 {
        let lvt = if lvt_bits == 6 {
            LengthValueType::Opening
        } else {
            LengthValueType::Closing
        };
        let data = vstd::slice::slice_subrange(input, i, i);
        let rest = vstd::slice::slice_subrange(input, i, input.len());
        proof {
            assert(data@ =~= Seq::<u8>::empty());
            assert(rest@ =~= input@.skip(i as int));
        }
        return Ok((rest, Tag { tag_number, lvt, data }));
    }

    let length: u32 = if lvt_bits < 5 {
        lvt_bits as u32
    } else {
        if input.len() < i + 1 {
            return Err(Error::TruncatedInput);
        }
        let ext = input[i];
        if ext <= 253 {
            i = i + 1;
            ext as u32
        } else if ext == 254 {
            if input.len() < i + 3 {
                return Err(Error::TruncatedInput);
            }
            let v = read_u16_be(input[i + 1], input[i + 2]);
            i = i + 3;
            v as u32
        } else {
            if input.len() < i + 5 {
                return Err(Error::TruncatedInput);
            }
            let v = read_u32_be(input[i + 1], input[i + 2], input[i + 3], input[i + 4]);
            i = i + 5;
            v
        }
    };

    if length as usize > input.len() - i {
        return Err(Error::MalformedLength);
    }
    let data = vstd::slice::slice_subrange(input, i, i + length as usize);
    let rest = vstd::slice::slice_subrange(input, i + length as usize, input.len());
    proof {
        assert(rest@ =~= input@.skip(i + length as int));
    }
    Ok((rest, Tag { tag_number, lvt: LengthValueType::Length(length), data }))
}

/// The three fields packed into a tag's first octet come back out of the
/// divisions that the decoder uses.
proof fn lemma_first_octet_fields(tnf: u8, cb: u8, lvt: u8)
    requires
        tnf <= 15,
        cb <= 1,
        lvt <= 7,
    ensures
        (tnf * 16 + cb * 8 + lvt) <= 255,
        ((tnf * 16 + cb * 8 + lvt) as u8) / 16 == tnf,
        (((tnf * 16 + cb * 8 + lvt) as u8) / 8) % 2 == cb,
        ((tnf * 16 + cb * 8 + lvt) as u8) % 8 == lvt,
{
    assert((tnf * 16 + cb * 8 + lvt) <= 255 && ((tnf * 16 + cb * 8 + lvt) as u8) / 16 == tnf && (((
    tnf * 16 + cb * 8 + lvt) as u8) / 8) % 2 == cb && ((tnf * 16 + cb * 8 + lvt) as u8) % 8 == lvt)
        by (bit_vector)
        requires
            tnf <= 15,
            cb <= 1,
            lvt <= 7,
    ;
}

/// Round-trip of the raw tag header: decoding an encoded header, whatever
/// bytes follow it, gives back the tag number, class and length that were
/// encoded and consumes exactly the header.
pub proof fn lemma_tag_header_round_trip(tag_number: u8, class: bool, length: u32, extra: Seq<u8>)
    ensures
        ({
            let header = spec_encode_tag_header(tag_number, class, length);
            spec_decode_tag_header(header + extra) == Ok::<_, Error>(
                (tag_number, class, length, header.len() as int),
            )
        }),
{
    let header = spec_encode_tag_header(tag_number, class, length);
    let b = header + extra;
    let tnf: u8 = if tag_number <= 14 {
        tag_number
    } else {
        15
    };
    let cb: u8 = if class {
        1
    } else {
        0
    };
    let lvtf = spec_lvt_field(length);
    lemma_first_octet_fields(tnf, cb, lvtf);
    let first = spec_tag_first_octet(tag_number, class, length);
    assert(first == (tnf * 16 + cb * 8 + lvtf) as u8);
    let i: int = if tag_number <= 14 {
        1
    } else {
        2
    };
    let tail = spec_length_tail(length);
    assert(b[0] == first);
    if tag_number > 14 {
        assert(b[1] == tag_number);
    }
    if length <= 4 {
        assert(first % 8 == length);
    } else {
        assert(first % 8 == 5);
        assert(b[i] == tail[0]);
        if length <= 253 {
            assert(tail[0] == length as u8);
            assert(length as u8 as u32 == length);
        } else if length <= 65535 {
            assert(tail[0] == 254);
            assert(b[i + 1] == spec_be16_bytes(length as u16)[0]);
            assert(b[i + 2] == spec_be16_bytes(length as u16)[1]);
            lemma_be16_round_trip(length as u16);
            assert(length as u16 as u32 == length);
        } else {
            assert(tail[0] == 255);
            assert(b[i + 1] == spec_be32_bytes(length)[0]);
            assert(b[i + 2] == spec_be32_bytes(length)[1]);
            assert(b[i + 3] == spec_be32_bytes(length)[2]);
            assert(b[i + 4] == spec_be32_bytes(length)[3]);
            lemma_be32_round_trip(length);
        }
    }
}

/// Round-trip of a whole tag: decoding an encoded header followed by its
/// `length` data bytes, whatever bytes follow them, gives back the tag
/// that was encoded. The Application/Boolean tag (class clear, number 1)
/// is left out: its low bits decode to a packed value, never a length.
pub proof fn lemma_tag_round_trip(tag_number: u8, class: bool, data: Seq<u8>, extra: Seq<u8>)
    requires
        data.len() <= u32::MAX,
        class || tag_number != 1,
    ensures
        ({
            let header = spec_encode_tag_header(tag_number, class, data.len() as u32);
            spec_parse_tag(header + data + extra) == Ok::<_, Error>(
                (
                    spec_tag_number(class, tag_number),
                    LengthValueType::Length(data.len() as u32),
                    data,
                    header.len() + data.len() as int,
                ),
            )
        }),
{
    let length = data.len() as u32;
    let header = spec_encode_tag_header(tag_number, class, length);
    let b = header + data + extra;
    let tnf: u8 = if tag_number <= 14 {
        tag_number
    } else {
        15
    };
    let cb: u8 = if class {
        1
    } else {
        0
    };
    let lvtf = spec_lvt_field(length);
    lemma_first_octet_fields(tnf, cb, lvtf);
    let first = spec_tag_first_octet(tag_number, class, length);
    assert(first == (tnf * 16 + cb * 8 + lvtf) as u8);
    let i: int = if tag_number <= 14 {
        1
    } else {
        2
    };
    let tail = spec_length_tail(length);
    assert(b[0] == first);
    if tag_number > 14 {
        assert(b[1] == tag_number);
    }
    let tn = spec_tag_number(class, tag_number);
    assert(tn != TagNumber::Application(ApplicationTag::Boolean));
    let data_at: int = i + tail.len();
    assert(header.len() == data_at);
    assert(b.subrange(data_at, data_at + length) =~= data);
    if length <= 4 {
        assert(first % 8 == length);
    } else {
        assert(first % 8 == 5);
        assert(b[i] == tail[0]);
        if length <= 253 {
            assert(tail[0] == length as u8);
            assert(length as u8 as u32 == length);
        } else if length <= 65535 {
            assert(tail[0] == 254);
            assert(b[i + 1] == spec_be16_bytes(length as u16)[0]);
            assert(b[i + 2] == spec_be16_bytes(length as u16)[1]);
            lemma_be16_round_trip(length as u16);
            assert(length as u16 as u32 == length);
        } else {
            assert(tail[0] == 255);
            assert(b[i + 1] == spec_be32_bytes(length)[0]);
            assert(b[i + 2] == spec_be32_bytes(length)[1]);
            assert(b[i + 3] == spec_be32_bytes(length)[2]);
            assert(b[i + 4] == spec_be32_bytes(length)[3]);
            lemma_be32_round_trip(length);
        }
    }
}

/// Class selection: a decoded tag is context-specific exactly when bit 3
/// of the first octet is set, and an application tag exactly when it is
/// clear, whatever the tag number.
pub proof fn lemma_tag_class_selection(b: Seq<u8>)
    requires
        spec_parse_tag(b) is Ok,
    ensures
        spec_parse_tag(b)->Ok_0.0 is Context <==> b[0] & 8 != 0,
        spec_parse_tag(b)->Ok_0.0 is Application <==> b[0] & 8 == 0,
{
    let first = b[0];
    assert((first / 8) % 2 == 1 <==> first & 8 != 0) by (bit_vector);
}

/// The boolean special case: when a tag resolves to Application/Boolean,
/// its low three bits are a packed value, never a length, and it carries
/// no data.
pub proof fn lemma_boolean_tag_value(b: Seq<u8>)
    requires
        spec_parse_tag(b) is Ok,
        spec_parse_tag(b)->Ok_0.0 == TagNumber::Application(ApplicationTag::Boolean),
    ensures
        spec_parse_tag(b)->Ok_0.1 == LengthValueType::Value(b[0] % 8),
        spec_parse_tag(b)->Ok_0.2 == Seq::<u8>::empty(),
{
}

} // verus!
