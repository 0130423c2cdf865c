use bacnet::application::service::{IAm, UnconfirmedService};
use bacnet::application::APDU;
use bacnet::{Encode, Error};

#[test]
fn test_encode_apdu() {
    let content = vec![0, 0, 0];
    let apdu = APDU::new(1, 8, content);

    assert_eq!(apdu.encode_vec(), vec![16, 8, 0, 0, 0]);
}

#[test]
fn test_who_is() {
    let data = hex::decode("1008").unwrap();

    let apdu = APDU::decode(&data).expect("Decode APDU");

    assert_eq!(apdu.apdu_type, 0x01);
    assert_eq!(apdu.service_choice, 0x08);

    assert_eq!(apdu.encode_vec(), data);
}

#[test]
fn test_i_am() {
    let data = hex::decode("1000c4020002572204009100210f").unwrap();

    let apdu = APDU::decode(&data).expect("Decode APDU");

    assert_eq!(apdu.apdu_type, 0x01);
    assert_eq!(apdu.service_choice, 0x00);
    assert_eq!(
        apdu.user_data,
        vec![196, 2, 0, 2, 87, 34, 4, 0, 145, 0, 33, 15]
    );

    assert_eq!(apdu.encode_vec(), data);
}

#[test]
fn test_apdu_len_matches_encoding() {
    let apdu = APDU::new(1, 8, vec![7, 7]);
    assert_eq!(apdu.len(), apdu.encode_vec().len());
}

#[test]
fn test_apdu_decode_one_byte_is_truncated() {
    assert_eq!(APDU::decode(&[0x10]).unwrap_err(), Error::TruncatedInput);
}

#[test]
fn test_service_decode_i_am() {
    let service = UnconfirmedService::decode(&[0x00]).unwrap();
    assert_eq!(service, UnconfirmedService::IAm(IAm {}));
}

#[test]
fn test_service_decode_who_is() {
    let service = UnconfirmedService::decode(&[0x08]).unwrap();
    assert_eq!(service, UnconfirmedService::WhoIs());
}

#[test]
fn test_service_decode_unknown_code() {
    assert_eq!(
        UnconfirmedService::decode(&[0x05]).unwrap_err(),
        Error::UnsupportedService(0x05)
    );
}

#[test]
fn test_service_decode_empty_is_truncated() {
    assert_eq!(
        UnconfirmedService::decode(&[]).unwrap_err(),
        Error::TruncatedInput
    );
}

#[test]
fn test_i_am_payload() {
    let i_am = IAm {};
    assert_eq!(
        i_am.encode_vec(),
        vec![196, 2, 0, 2, 87, 34, 4, 0, 145, 0, 33, 15]
    );
    assert_eq!(i_am.len(), 12);
}

#[test]
fn test_who_is_contributes_no_bytes() {
    let service = UnconfirmedService::WhoIs();
    assert_eq!(service.encode_vec(), Vec::<u8>::new());
    assert_eq!(service.len(), 0);
}
