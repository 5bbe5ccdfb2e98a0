use colabie::messages::{RegisterReq, RegisterRes};
use colabie::schemou::{Serde, SerdeError};

#[test]
fn integers_are_little_endian() {
    assert_eq!(0x0102_0304u32.serialize_buffered(), vec![4, 3, 2, 1]);
    assert_eq!(0x0102u16.serialize_buffered(), vec![2, 1]);
    assert_eq!(
        0x0102_0304_0506_0708u64.serialize_buffered(),
        vec![8, 7, 6, 5, 4, 3, 2, 1]
    );
    assert_eq!(200u8.serialize_buffered(), vec![200]);
}

#[test]
fn signed_integers_are_twos_complement() {
    assert_eq!((-1i8).serialize_buffered(), vec![0xff]);
    assert_eq!((-2i16).serialize_buffered(), vec![0xfe, 0xff]);
    assert_eq!(i32::MIN.serialize_buffered(), vec![0, 0, 0, 0x80]);
    assert_eq!((-1i64).serialize_buffered(), vec![0xff; 8]);
    assert_eq!(i32::deserialize(&[0, 0, 0, 0x80]).unwrap(), (i32::MIN, 4));
    assert_eq!(i16::deserialize(&[0xfe, 0xff]).unwrap(), (-2, 2));
    assert_eq!(i8::deserialize(&[0x80]).unwrap(), (-128, 1));
    assert_eq!(i64::deserialize(&[0xff; 8]).unwrap(), (-1, 8));
}

#[test]
fn integers_read_from_the_front() {
    assert_eq!(u32::deserialize(&[1, 0, 0, 0, 9, 9]).unwrap(), (1, 4));
    assert_eq!(u16::deserialize(&[0xff, 0xff, 7]).unwrap(), (u16::MAX, 2));
    assert_eq!(u64::deserialize(&[1, 0, 0, 0, 0, 0, 0, 0]).unwrap(), (1, 8));
}

#[test]
fn short_input_is_not_enough_data() {
    assert!(matches!(u8::deserialize(&[]), Err(SerdeError::NotEnoughData)));
    assert!(matches!(u32::deserialize(&[1, 2, 3]), Err(SerdeError::NotEnoughData)));
    assert!(matches!(i64::deserialize(&[1; 7]), Err(SerdeError::NotEnoughData)));
    // A length of three with only two bytes after it.
    let short = [3, 0, 0, 0, 0, 0, 0, 0, 1, 2];
    assert!(matches!(Vec::<u8>::deserialize(&short), Err(SerdeError::NotEnoughData)));
    assert!(matches!(String::deserialize(&short), Err(SerdeError::NotEnoughData)));
    assert!(matches!(Vec::<u8>::deserialize(&[1, 0]), Err(SerdeError::NotEnoughData)));
}

#[test]
fn byte_strings_carry_their_length() {
    let bytes = vec![10u8, 20, 30];
    let encoded = bytes.serialize_buffered();
    assert_eq!(encoded, vec![3, 0, 0, 0, 0, 0, 0, 0, 10, 20, 30]);
    let mut with_tail = encoded.clone();
    with_tail.extend_from_slice(&[99, 98]);
    assert_eq!(Vec::<u8>::deserialize(&with_tail).unwrap(), (bytes, 11));
    assert_eq!(Vec::<u8>::new().serialize_buffered(), vec![0; 8]);
}

#[test]
fn text_is_utf8_with_its_byte_length() {
    let text = "héllo".to_string();
    let encoded = text.serialize_buffered();
    assert_eq!(encoded[..8], [6, 0, 0, 0, 0, 0, 0, 0]);
    assert_eq!(&encoded[8..], "héllo".as_bytes());
    assert_eq!(String::deserialize(&encoded).unwrap(), (text, 14));
}

#[test]
fn invalid_utf8_is_a_parsing_error() {
    let data = [2, 0, 0, 0, 0, 0, 0, 0, 0xff, 0xfe];
    match String::deserialize(&data) {
        Err(SerdeError::ParsingError { ty_name, error }) => {
            assert_eq!(ty_name, "String");
            assert!(!error.is_empty());
        }
        other => panic!("unexpected {other:?}"),
    }
}

#[test]
fn serialize_appends_and_counts() {
    let mut out = vec![7u8];
    let written = 5u32.serialize(&mut out);
    assert_eq!(written, 4);
    assert_eq!(out, vec![7, 5, 0, 0, 0]);
    let written = "ab".to_string().serialize(&mut out);
    assert_eq!(written, 10);
    assert_eq!(out.len(), 15);
}

#[test]
fn pairs_are_laid_out_in_order() {
    let pair = (1u8, 2u16);
    assert_eq!(pair.serialize_buffered(), vec![1, 2, 0]);
    assert_eq!(<(u8, u16)>::deserialize(&[1, 2, 0, 5]).unwrap(), ((1, 2), 3));
    assert!(matches!(<(u8, u16)>::deserialize(&[1, 2]), Err(SerdeError::NotEnoughData)));
}

#[test]
fn register_request_roundtrip() {
    let req = RegisterReq::new("DuskyElf".to_string(), vec![1, 2, 3]);
    let encoded = req.serialize_buffered();
    let mut expected = "DuskyElf".to_string().serialize_buffered();
    expected.extend(vec![1u8, 2, 3].serialize_buffered());
    assert_eq!(encoded, expected);
    let (back, used) = RegisterReq::deserialize(&encoded).unwrap();
    assert_eq!(used, encoded.len());
    assert_eq!(back.username, "DuskyElf");
    assert_eq!(back.pubkey, vec![1, 2, 3]);
}

#[test]
fn register_request_with_bad_username() {
    let mut data = vec![1, 0, 0, 0, 0, 0, 0, 0, 0xc0];
    data.extend(vec![0u8; 8]);
    assert!(matches!(
        RegisterReq::deserialize(&data),
        Err(SerdeError::ParsingError { ty_name: "String", .. })
    ));
}

#[test]
fn register_response_is_its_commit_id() {
    let res = RegisterRes::new(vec![0xab; 20]);
    let encoded = res.serialize_buffered();
    assert_eq!(encoded.len(), 28);
    assert_eq!(encoded, vec![0xab; 20].serialize_buffered());
    let (back, used) = RegisterRes::deserialize(&encoded).unwrap();
    assert_eq!(back.commit_id, vec![0xab; 20]);
    assert_eq!(used, 28);
}
