use bacnet::parse::Tag;

#[test]
fn test_encode_application_tag_number_0() {
    let buf = Tag::encode_buf(0, false, 0).unwrap();
    assert_eq!(buf, &[0b0000_0_000])
}

#[test]
fn test_encode_context_tag_number_0() {
    let buf = Tag::encode_buf(0, true, 0).unwrap();
    assert_eq!(buf, &[0b0000_1_000])
}

#[test]
fn parse_test_decode_application_tag_number_0() {
    let tag = Tag::decode_buf(&[0b0000_0_000]).unwrap();
    assert_eq!(tag, (0, false, 0, 1))
}

#[test]
fn parse_test_decode_context_tag_number_0() {
    let tag = Tag::decode_buf(&[0b0000_1_000]).unwrap();
    assert_eq!(tag, (0, true, 0, 1))
}

#[test]
fn test_encode_application_tag_number_14() {
    let buf = Tag::encode_buf(14, false, 0).unwrap();
    assert_eq!(buf, &[0b1110_0_000])
}

#[test]
fn parse_test_decode_application_tag_number_14() {
    let tag = Tag::decode_buf(&[0b1110_0_000]).unwrap();
    assert_eq!(tag, (14, false, 0, 1))
}

#[test]
fn test_encode_application_tag_number_15() {
    let buf = Tag::encode_buf(15, false, 0).unwrap();
    assert_eq!(buf, &[0b1111_0_000, 15])
}

#[test]
fn parse_test_decode_application_tag_number_15() {
    let tag = Tag::decode_buf(&[0b1111_0_000, 15]).unwrap();
    assert_eq!(tag, (15, false, 0, 2))
}

#[test]
fn test_encode_application_tag_number_254() {
    let buf = Tag::encode_buf(254, false, 0).unwrap();
    assert_eq!(buf, &[0b1111_0_000, 254])
}

#[test]
fn parse_test_decode_application_tag_number_254() {
    let tag = Tag::decode_buf(&[0b1111_0_000, 254]).unwrap();
    assert_eq!(tag, (254, false, 0, 2))
}

#[test]
fn test_encode_application_reserved_tag_number_255() {
    let buf = Tag::encode_buf(255, false, 0).unwrap();
    assert_eq!(buf, &[0b1111_0_000, 255])
}

#[test]
fn parse_test_decode_application_reserved_tag_number_255() {
    let tag = Tag::decode_buf(&[0b1111_0_000, 255]).unwrap();
    assert_eq!(tag, (255, false, 0, 2))
}

#[test]
fn test_encode_length_0() {
    let buf = Tag::encode_buf(0, false, 0).unwrap();
    assert_eq!(buf, &[0b0000_0_000])
}

#[test]
fn parse_test_decode_length_0() {
    let tag = Tag::decode_buf(&[0b0000_0_000]).unwrap();
    assert_eq!(tag, (0, false, 0, 1))
}

#[test]
fn test_encode_length_4() {
    let buf = Tag::encode_buf(0, false, 4).unwrap();
    assert_eq!(buf, &[0b0000_0_100])
}

#[test]
fn parse_test_decode_length_4() {
    let tag = Tag::decode_buf(&[0b0000_0_100]).unwrap();
    assert_eq!(tag, (0, false, 4, 1))
}

#[test]
fn test_length_5() {
    let buf = Tag::encode_buf(0, false, 5).unwrap();
    assert_eq!(buf, &[0b0000_0_101, 5])
}

#[test]
fn test_length_253() {
    let buf = Tag::encode_buf(0, false, 253).unwrap();
    assert_eq!(buf, &[0b0000_0_101, 253])
}

#[test]
fn test_length_254() {
    let buf = Tag::encode_buf(0, false, 254).unwrap();
    assert_eq!(buf, &[0b0000_0_101, 254, 0, 254])
}

#[test]
fn test_length_65535() {
    let buf = Tag::encode_buf(0, false, 65535).unwrap();
    assert_eq!(buf, &[0b0000_0_101, 254, 255, 255])
}

#[test]
fn parse_test_length_65536() {
    let buf = Tag::encode_buf(0, false, 65536).unwrap();
    assert_eq!(buf, &[0b0000_0_101, 255, 0, 1, 0, 0])
}

#[test]
fn test_length_u32max_minus_1() {
    let buf = Tag::encode_buf(0, false, u32::MAX - 1).unwrap();
    assert_eq!(buf, &[0b0000_0_101, 255, 255, 255, 255, 254])
}

#[test]
fn test_reserved_length_u32max() {
    let buf = Tag::encode_buf(0, false, u32::MAX).unwrap();
    assert_eq!(buf, &[0b0000_0_101, 255, 255, 255, 255, 255])
}

#[test]
fn test_tag_header_round_trip_boundaries() {
    // the header decoder reads only the header, so the round trip can be
    // checked without materializing the data bytes
    let lengths: &[u32] = &[0, 4, 5, 253, 254, 65535, 65536, u32::MAX - 1, u32::MAX];
    let numbers: &[u8] = &[0, 1, 14, 15, 254, 255];
    for &length in lengths {
        for &number in numbers {
            for &class in &[false, true] {
                let buf = Tag::encode_buf(number, class, length).unwrap();
                let (n, c, l, offset) = Tag::decode_buf(&buf).unwrap();
                assert_eq!((n, c, l), (number, class, length));
                assert_eq!(offset as usize, buf.len());
            }
        }
    }
}
