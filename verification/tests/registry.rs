use colabie::extract::{BitCode, Schemou};
use colabie::messages::{RegisterReq, RegisterRes};
use colabie::registry::{
    entry_name, register_response, Record, Rejection, AUTHOR, DEFAULT_BRANCH,
    INITIAL_COMMIT_MESSAGE, RECORD_FILE_MODE,
};
use colabie::schemou::Serde;

#[test]
fn record_of_a_request_holds_base64_key() {
    let req = RegisterReq::new("DuskyElf".to_string(), b"hello".to_vec());
    let record = Record::from_request(&req);
    assert_eq!(record.username, "DuskyElf");
    assert_eq!(record.pubkey, "aGVsbG8=");
}

#[test]
fn base64_padding_and_groups() {
    let cases: [(&[u8], &str); 5] = [
        (b"", ""),
        (b"f", "Zg=="),
        (b"fo", "Zm8="),
        (b"foo", "Zm9v"),
        (&[0xfb, 0xff, 0xbf], "+/+/"),
    ];
    for (bytes, text) in cases {
        let record = Record::from_request(&RegisterReq::new("u".to_string(), bytes.to_vec()));
        assert_eq!(record.pubkey, text);
    }
    let long = Record::from_request(&RegisterReq::new("u".to_string(), vec![0; 10]));
    assert_eq!(long.pubkey.len(), 16);
}

#[test]
fn record_commit_layout() {
    let record = Record::new("DuskyElf".to_string(), "key".to_string());
    let commit = record.commit();
    assert_eq!(commit.entry_name, "DuskyElf");
    assert_eq!(commit.file_mode, 0o100644);
    assert_eq!(commit.file_mode, RECORD_FILE_MODE);
    assert_eq!(commit.message, "Register: DuskyElf");
    assert_eq!(AUTHOR, "registrie");
    assert_eq!(DEFAULT_BRANCH, "main");
}

#[test]
fn response_carries_commit_id() {
    let res = register_response(&[1, 2, 3, 4]);
    assert_eq!(res.commit_id, vec![1, 2, 3, 4]);
}

#[test]
fn schemou_body_roundtrip() {
    let res = RegisterRes::new(vec![9, 8, 7]);
    let body = Schemou(res).into_body();
    let mut with_tail = body.clone();
    with_tail.push(0);
    let back = Schemou::<RegisterRes>::from_body(&with_tail).unwrap();
    assert_eq!(back.0.commit_id, vec![9, 8, 7]);
}

#[test]
fn schemou_refuses_malformed_body() {
    let refused = Schemou::<RegisterReq>::from_body(&[1, 2, 3]);
    assert!(matches!(refused, Err(Rejection::BadRequest)));
    assert_eq!(Rejection::BadRequest.status_code(), 400);
    let req = RegisterReq::new("a".to_string(), vec![5]);
    let body = req.serialize_buffered();
    let accepted = Schemou::<RegisterReq>::from_body(&body).unwrap();
    assert_eq!(accepted.0.username, "a");
    assert_eq!(accepted.0.pubkey, vec![5]);
}

#[test]
fn bitcode_decoding_outcomes() {
    let ok: Result<u32, ()> = Ok(5);
    assert_eq!(BitCode::from_decoded(ok).unwrap().0, 5);
    let bad: Result<u32, &str> = Err("eof");
    assert!(matches!(BitCode::from_decoded(bad), Err(Rejection::BadRequest)));
}

#[test]
fn record_commit_entry_is_lookup_entry() {
    let record = Record::new("DuskyElf".to_string(), "this is a test public key".to_string());
    assert_eq!(record.commit().entry_name, entry_name("DuskyElf"));
    assert_eq!(entry_name("DuskyElf"), "DuskyElf");
    assert_eq!(INITIAL_COMMIT_MESSAGE, "Initial Commit");
}
