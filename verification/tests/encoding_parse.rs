use bacnet::encoding::parse::{decode_buf, parse_bacnet_tag};
use bacnet::encoding::{ApplicationTag, ContextTag, LengthValueType, TagNumber};
use bacnet::Error;

#[test]
fn test_parse_application_tag_null() {
    let input: &[u8] = &[0b0000_0_000];
    let (_, tag) = parse_bacnet_tag(input).unwrap();
    assert!(matches!(
        tag.tag_number,
        TagNumber::Application(ApplicationTag::Null)
    ));
    assert!(matches!(tag.lvt, LengthValueType::Length(0)));
    assert!(tag.data.is_empty());
}

#[test]
fn test_parse_application_tag_boolean_false() {
    let input: &[u8] = &[0b0001_0_000];
    let (_, tag) = parse_bacnet_tag(input).unwrap();
    assert!(matches!(
        tag.tag_number,
        TagNumber::Application(ApplicationTag::Boolean)
    ));
    assert!(matches!(tag.lvt, LengthValueType::Value(0)));
    assert!(tag.data.is_empty());
}

#[test]
fn test_parse_application_tag_boolean_true() {
    let input: &[u8] = &[0b0001_0_001];
    let (_, tag) = parse_bacnet_tag(input).unwrap();
    assert!(matches!(
        tag.tag_number,
        TagNumber::Application(ApplicationTag::Boolean)
    ));
    assert!(matches!(tag.lvt, LengthValueType::Value(1)));
    assert!(tag.data.is_empty());
}

#[test]
fn test_parse_context_tag_boolean_false() {
    let input: &[u8] = &[0b0001_1_001, 0b0000_0000];
    let (_, tag) = parse_bacnet_tag(input).unwrap();
    assert!(matches!(
        tag.tag_number,
        TagNumber::Context(ContextTag::Other(1))
    ));
    assert!(matches!(tag.lvt, LengthValueType::Length(1)));
    assert_eq!(tag.data, &[0b0000_0000]);
}

#[test]
fn test_parse_context_tag_boolean_true() {
    let input: &[u8] = &[0b0001_1_001, 0b0000_0001];
    let (_, tag) = parse_bacnet_tag(input).unwrap();
    assert!(matches!(
        tag.tag_number,
        TagNumber::Context(ContextTag::Other(1))
    ));
    assert!(matches!(tag.lvt, LengthValueType::Length(1)));
    assert_eq!(tag.data, &[0b0000_0001]);
}

#[test]
fn test_parse_application_tag_unsigned_integer_72() {
    let input: &[u8] = &[0x21, 0x48];
    let (_, tag) = parse_bacnet_tag(input).unwrap();
    assert!(matches!(
        tag.tag_number,
        TagNumber::Application(ApplicationTag::UnsignedInteger)
    ));
    assert!(matches!(tag.lvt, LengthValueType::Length(1)));
    assert_eq!(tag.data, &[72]);
}

#[test]
fn test_parse_application_tag_signed_integer_72() {
    let input: &[u8] = &[0x31, 0x48];
    let (_, tag) = parse_bacnet_tag(input).unwrap();
    assert!(matches!(
        tag.tag_number,
        TagNumber::Application(ApplicationTag::SignedInteger)
    ));
    assert!(matches!(tag.lvt, LengthValueType::Length(1)));
    assert_eq!(tag.data, &[72]);
}

#[test]
fn test_parse_application_tag_real_72_0() {
    let input: &[u8] = &[0x44, 0x42, 0x90, 0x00, 0x00];
    let (_, tag) = parse_bacnet_tag(input).unwrap();
    assert!(matches!(
        tag.tag_number,
        TagNumber::Application(ApplicationTag::Real)
    ));
    assert!(matches!(tag.lvt, LengthValueType::Length(4)));
    assert_eq!(tag.data, &[0x42, 0x90, 0x00, 0x00]);
}

#[test]
fn test_parse_application_tag_double_72_0() {
    let input: &[u8] = &[0x55, 0x08, 0x40, 0x52, 0x00, 0x00, 0x00, 0x00, 0x00, 0x00];
    let (_, tag) = parse_bacnet_tag(input).unwrap();
    assert!(matches!(
        tag.tag_number,
        TagNumber::Application(ApplicationTag::Double)
    ));
    assert!(matches!(tag.lvt, LengthValueType::Length(8)));
    assert_eq!(tag.data, &[0x40, 0x52, 0x00, 0x00, 0x00, 0x00, 0x00, 0x00]);
}

#[test]
fn test_parse_application_tag_octet_string_example() {
    let input: &[u8] = &[0x63, 0x12, 0x34, 0xFF];
    let (_, tag) = parse_bacnet_tag(input).unwrap();
    assert!(matches!(
        tag.tag_number,
        TagNumber::Application(ApplicationTag::OctetString)
    ));
    assert!(matches!(tag.lvt, LengthValueType::Length(3)));
    assert_eq!(tag.data, &[0x12, 0x34, 0xFF]);
}

#[test]
fn test_parse_application_tag_character_string_utf8() {
    let mut input = vec![0x75, 0x19, 0x00];
    input.extend_from_slice(
        &hex::decode("546869732069732061204241436E657420737472696E6721").unwrap(),
    );
    let (_, tag) = parse_bacnet_tag(&input).unwrap();
    assert!(matches!(
        tag.tag_number,
        TagNumber::Application(ApplicationTag::CharacterString)
    ));
    assert!(matches!(tag.lvt, LengthValueType::Length(25)));
    let mut ref_data = vec![0x00];
    ref_data.extend_from_slice("This is a BACnet string!".as_bytes());
    assert_eq!(tag.data, ref_data.as_slice());
}

#[test]
fn test_parse_application_tag_character_string_utf8_non_ascii() {
    let mut input = vec![0x75, 0x0A, 0x00];
    input.extend_from_slice(&hex::decode("4672616EC3A7616973").unwrap());
    let (_, tag) = parse_bacnet_tag(&input).unwrap();
    assert!(matches!(
        tag.tag_number,
        TagNumber::Application(ApplicationTag::CharacterString)
    ));
    assert!(matches!(tag.lvt, LengthValueType::Length(10)));
    let mut ref_data = vec![0x00];
    ref_data.extend_from_slice("Français".as_bytes());
    assert_eq!(tag.data, ref_data.as_slice());
}

#[test]
fn test_parse_application_tag_character_string_dbcs() {
    let mut input = vec![0x75, 0x1B];
    input.extend_from_slice(
        &hex::decode("010352546869732069732061204241436E657420737472696E6721").unwrap(),
    );
    let (_, tag) = parse_bacnet_tag(&input).unwrap();
    assert!(matches!(
        tag.tag_number,
        TagNumber::Application(ApplicationTag::CharacterString)
    ));
    assert!(matches!(tag.lvt, LengthValueType::Length(27)));
    let ref_data =
        hex::decode("010352546869732069732061204241436E657420737472696E6721").unwrap();
    assert_eq!(tag.data, ref_data.as_slice());
}

#[test]
fn test_parse_application_tag_character_string_ucs2() {
    let mut input = vec![0x75, 0x31];
    input.extend_from_slice(&hex::decode("040054006800690073002000690073002000610020004200410043006E0065007400200073007400720069006E00670021").unwrap());
    let (_, tag) = parse_bacnet_tag(&input).unwrap();
    assert!(matches!(
        tag.tag_number,
        TagNumber::Application(ApplicationTag::CharacterString)
    ));
    assert!(matches!(tag.lvt, LengthValueType::Length(49)));
    let ref_data = hex::decode("040054006800690073002000690073002000610020004200410043006E0065007400200073007400720069006E00670021").unwrap();
    assert_eq!(tag.data, ref_data.as_slice());
}

#[test]
fn test_parse_application_tag_bit_string() {
    let input: &[u8] = &[0x82, 0x03, 0xA8];
    let (_, tag) = parse_bacnet_tag(input).unwrap();
    assert!(matches!(
        tag.tag_number,
        TagNumber::Application(ApplicationTag::BitString)
    ));
    assert!(matches!(tag.lvt, LengthValueType::Length(2)));
    assert_eq!(tag.data, &[0x03, 0xA8]);
}

#[test]
fn test_parse_application_tag_enumerated_analog_input() {
    let input: &[u8] = &[0x91, 0x00];
    let (_, tag) = parse_bacnet_tag(input).unwrap();
    assert!(matches!(
        tag.tag_number,
        TagNumber::Application(ApplicationTag::Enumerated)
    ));
    assert!(matches!(tag.lvt, LengthValueType::Length(1)));
    assert_eq!(tag.data, &[0x00]);
}

#[test]
fn test_parse_application_tag_date_specific_value() {
    let input: &[u8] = &[0xA4, 0x5B, 0x01, 0x18, 0x04];
    let (_, tag) = parse_bacnet_tag(input).unwrap();
    assert!(matches!(
        tag.tag_number,
        TagNumber::Application(ApplicationTag::Date)
    ));
    assert!(matches!(tag.lvt, LengthValueType::Length(4)));
    assert_eq!(tag.data, &[0x5B, 0x01, 0x18, 0x04]);
}

#[test]
fn test_parse_application_tag_date_pattern() {
    let input: &[u8] = &[0xA4, 0x5B, 0xFF, 0x18, 0xFF];
    let (_, tag) = parse_bacnet_tag(input).unwrap();
    assert!(matches!(
        tag.tag_number,
        TagNumber::Application(ApplicationTag::Date)
    ));
    assert!(matches!(tag.lvt, LengthValueType::Length(4)));
    assert_eq!(tag.data, &[0x5B, 0xFF, 0x18, 0xFF]);
}

#[test]
fn test_parse_application_tag_time_specific_value() {
    let input: &[u8] = &[0xB4, 0x11, 0x23, 0x2D, 0x11];
    let (_, tag) = parse_bacnet_tag(input).unwrap();
    assert!(matches!(
        tag.tag_number,
        TagNumber::Application(ApplicationTag::Time)
    ));
    assert!(matches!(tag.lvt, LengthValueType::Length(4)));
    assert_eq!(tag.data, &[0x11, 0x23, 0x2D, 0x11]);
}

#[test]
fn test_parse_application_bacnet_object_identifier() {
    let input: &[u8] = &[0xC4, 0x00, 0xC0, 0x00, 0x0F];
    let (_, tag) = parse_bacnet_tag(input).unwrap();
    assert!(matches!(
        tag.tag_number,
        TagNumber::Application(ApplicationTag::BACnetObjectIdentifier)
    ));
    assert!(matches!(tag.lvt, LengthValueType::Length(4)));
    assert_eq!(tag.data, &[0x00, 0xC0, 0x00, 0x0F]);
}

#[test]
fn test_decode_application_tag_number_0() {
    let (_, tag) = parse_bacnet_tag(&[0b0000_0_000]).unwrap();
    assert!(matches!(
        tag.tag_number,
        TagNumber::Application(ApplicationTag::Null)
    ));
}

#[test]
fn test_decode_context_tag_number_0() {
    let (_, tag) = parse_bacnet_tag(&[0b0000_1_000]).unwrap();
    assert!(matches!(
        tag.tag_number,
        TagNumber::Context(ContextTag::Other(0))
    ));
}

#[test]
fn test_decode_application_tag_number_14() {
    let (_, tag) = parse_bacnet_tag(&[0b1110_0_000]).unwrap();
    assert!(matches!(
        tag.tag_number,
        TagNumber::Application(ApplicationTag::Reserved(14))
    ));
}

#[test]
fn test_decode_application_tag_number_15() {
    let (_, tag) = parse_bacnet_tag(&[0b1111_0_000, 15]).unwrap();
    assert!(matches!(
        tag.tag_number,
        TagNumber::Application(ApplicationTag::Reserved(15))
    ));
}

#[test]
fn test_decode_application_tag_number_254() {
    let (_, tag) = parse_bacnet_tag(&[0b1111_0_000, 254]).unwrap();
    assert!(matches!(
        tag.tag_number,
        TagNumber::Application(ApplicationTag::Other(254))
    ));
}

#[test]
fn test_decode_application_reserved_tag_number_255() {
    let (_, tag) = parse_bacnet_tag(&[0b1111_0_000, 255]).unwrap();
    assert!(matches!(
        tag.tag_number,
        TagNumber::Application(ApplicationTag::Other(255))
    ));
}

#[test]
fn test_decode_length_0() {
    let (_, tag) = parse_bacnet_tag(&[0b0000_0_000]).unwrap();
    assert!(matches!(tag.lvt, LengthValueType::Length(0)));
}

#[test]
fn test_decode_length_4() {
    let (_, tag) = parse_bacnet_tag(&[0b0000_0_100, 0, 0, 0, 0]).unwrap();
    assert!(matches!(tag.lvt, LengthValueType::Length(4)));
}

#[test]
fn test_decode_length_5() {
    let mut input = vec![0b0000_0_101, 5];
    input.extend_from_slice(&[0u8; 5][..]);
    let (_, tag) = parse_bacnet_tag(&input).unwrap();
    assert!(matches!(tag.lvt, LengthValueType::Length(5)));
}

#[test]
fn test_decode_length_253() {
    let mut input = vec![0b0000_0_101, 253];
    input.extend_from_slice(&[0u8; 253][..]);
    let (_, tag) = parse_bacnet_tag(&input).unwrap();
    assert!(matches!(tag.lvt, LengthValueType::Length(253)));
}

#[test]
fn test_decode_length_254() {
    let mut input = vec![0b0000_0_101, 254, 0, 254];
    input.extend_from_slice(&[0u8; 254][..]);
    let (_, tag) = parse_bacnet_tag(&input).unwrap();
    assert!(matches!(tag.lvt, LengthValueType::Length(254)));
}

#[test]
fn test_decode_length_65535() {
    let mut input = vec![0b0000_0_101, 254, 255, 255];
    input.extend_from_slice(&[0u8; 65535][..]);
    let (_, tag) = parse_bacnet_tag(&input).unwrap();
    assert!(matches!(tag.lvt, LengthValueType::Length(65535)));
}

#[test]
fn test_length_65536() {
    let mut input = vec![0b0000_0_101, 255, 0, 1, 0, 0];
    input.extend_from_slice(&[0u8; 65536][..]);
    let (_, tag) = parse_bacnet_tag(&input).unwrap();
    assert!(matches!(tag.lvt, LengthValueType::Length(65536)));
}

#[test]
fn test_parse_tag_empty_input_is_truncated() {
    assert_eq!(parse_bacnet_tag(&[]).unwrap_err(), Error::TruncatedInput);
}

#[test]
fn test_parse_tag_missing_extended_number_is_truncated() {
    assert_eq!(
        parse_bacnet_tag(&[0b1111_0_000]).unwrap_err(),
        Error::TruncatedInput
    );
}

#[test]
fn test_parse_tag_length_past_buffer_is_malformed() {
    // declares four data bytes, supplies one
    assert_eq!(
        parse_bacnet_tag(&[0b0000_0_100, 0]).unwrap_err(),
        Error::MalformedLength
    );
}

#[test]
fn test_parse_tag_missing_extended_length_is_truncated() {
    assert_eq!(
        parse_bacnet_tag(&[0b0000_0_101]).unwrap_err(),
        Error::TruncatedInput
    );
}

#[test]
fn test_parse_tag_opening_and_closing() {
    let (_, tag) = parse_bacnet_tag(&[0b0011_1_110]).unwrap();
    assert!(matches!(tag.lvt, LengthValueType::Opening));
    assert!(tag.data.is_empty());
    let (_, tag) = parse_bacnet_tag(&[0b0011_1_111]).unwrap();
    assert!(matches!(tag.lvt, LengthValueType::Closing));
    assert!(tag.data.is_empty());
}

#[test]
fn test_parse_tag_returns_remainder() {
    let input: &[u8] = &[0x21, 0x48, 0xAA, 0xBB];
    let (rest, tag) = parse_bacnet_tag(input).unwrap();
    assert_eq!(tag.data, &[0x48]);
    assert_eq!(rest, &[0xAA, 0xBB]);
}

#[test]
fn test_decode_buf_slices_data() {
    let (tag_number, class, length, data) = decode_buf(&[0x21, 0x48, 0xAA]).unwrap();
    assert_eq!(tag_number, 2);
    assert!(!class);
    assert_eq!(length, 1);
    assert_eq!(data, &[0x48]);
}

#[test]
fn test_decode_buf_length_past_buffer_is_malformed() {
    assert_eq!(
        decode_buf(&[0b0000_0_101, 5, 0, 0]).unwrap_err(),
        Error::MalformedLength
    );
}
