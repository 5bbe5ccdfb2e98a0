//! Byte strings and text: a `u64` length in little-endian order, then that
//! many bytes. Text is carried as its UTF-8 bytes.
use crate::schemou::{Decoding, Serde, SerdeError};
use std::str::Utf8Error;
use vstd::bytes::*;
use vstd::prelude::*;
use vstd::slice::slice_to_vec;
use vstd::utf8::*;

verus! {

/// `body` preceded by its length.
pub open spec fn spec_len_prefixed(body: Seq<u8>) -> Seq<u8> {
    spec_u64_to_le_bytes(body.len() as u64) + body
}

/// Reading a length-prefixed run of bytes from the front of `data`: the run
/// and the number of bytes used, or `None` when `data` ends too soon.
pub open spec fn spec_read_len_prefixed(data: Seq<u8>) -> Option<(Seq<u8>, nat)> {
    if data.len() < 8 {
        None
    } else {
        let n = spec_u64_from_le_bytes(data.take(8)) as nat;
        if data.len() - 8 < n {
            None
        } else {
            Some((data.subrange(8, 8 + n as int), 8 + n))
        }
    }
}

/// The length field takes eight bytes.
pub proof fn lemma_len_prefixed_len(body: Seq<u8>)
    ensures
        spec_len_prefixed(body).len() == 8 + body.len(),
{
    lemma_auto_spec_u64_to_from_le_bytes();
}

/// A length-prefixed run reads back as itself, whatever follows it.
pub proof fn lemma_len_prefixed_roundtrip(body: Seq<u8>, rest: Seq<u8>)
    requires
        body.len() <= u64::MAX,
    ensures
        spec_read_len_prefixed(spec_len_prefixed(body) + rest) == Some(
            (body, spec_len_prefixed(body).len()),
        ),
        spec_len_prefixed(body).len() == 8 + body.len(),
{
    lemma_auto_spec_u64_to_from_le_bytes();
    let data = spec_len_prefixed(body) + rest;
    let header = spec_u64_to_le_bytes(body.len() as u64);
    assert(data.take(8) =~= header);
    assert(data.subrange(8, 8 + body.len() as int) =~= body);
}

/// What was read is the prefix of `data` that it used.
pub proof fn lemma_read_len_prefixed_exact(data: Seq<u8>)
    ensures
        spec_read_len_prefixed(data) matches Some((body, used)) ==> {
            &&& used <= data.len()
            &&& body.len() <= u64::MAX
            &&& used == 8 + body.len()
            &&& spec_len_prefixed(body) == data.take(used as int)
        },
{
    lemma_auto_spec_u64_to_from_le_bytes();
    if let Some((body, used)) = spec_read_len_prefixed(data) {
        let header = data.take(8);
        let n = spec_u64_from_le_bytes(header);
        assert(body.len() as u64 == n);
        assert(spec_u64_to_le_bytes(n) == header);
        assert(spec_len_prefixed(body) =~= data.take(used as int));
    }
}

/// Appends `body` to `output`, preceded by its length.
pub fn write_len_prefixed(output: &mut Vec<u8>, body: &[u8]) -> (written: usize)
    requires
        old(output)@.len() + 8 + body@.len() <= usize::MAX,
    ensures
        final(output)@ == old(output)@ + spec_len_prefixed(body@),
        written == spec_len_prefixed(body@).len(),
{
    let n = body.len() as u64;
    let mut header = u64_to_le_bytes(n);
    output.append(&mut header);
    let mut copy = slice_to_vec(body);
    output.append(&mut copy);
    assert(final(output)@ =~= old(output)@ + spec_len_prefixed(body@));
    8 + body.len()
}

/// Reads a length-prefixed run of bytes from the front of `data`.
pub fn read_len_prefixed(data: &[u8]) -> (res: Option<(&[u8], usize)>)
    ensures
        match res {
            Some((body, used)) => spec_read_len_prefixed(data@) == Some((body@, used as nat)),
            None => spec_read_len_prefixed(data@) is None,
        },
{
    if data.len() < 8 {
        return None;
    }
    let n = u64_from_le_bytes(&data[0..8]);
    assert(data@.subrange(0, 8) =~= data@.take(8));
    let available = data.len() - 8;
    if (available as u64) < n {
        return None;
    }
    let end = 8 + n as usize;
    Some((&data[8..end], end))
}

impl Serde for Vec<u8> {
    open spec fn spec_serialize(v: Seq<u8>) -> Seq<u8> {
        spec_len_prefixed(v)
    }

    open spec fn spec_deserialize(data: Seq<u8>) -> Decoding<Seq<u8>> {
        match spec_read_len_prefixed(data) {
            Some((body, used)) => Decoding::Complete { value: body, consumed: used },
            None => Decoding::NotEnoughData,
        }
    }

    open spec fn spec_encodable(v: Seq<u8>) -> bool {
        v.len() <= u64::MAX
    }

    fn serialize(&self, output: &mut Vec<u8>) -> (written: usize) {
        proof {
            lemma_auto_spec_u64_to_from_le_bytes();
        }
        write_len_prefixed(output, self.as_slice())
    }

    fn deserialize(data: &[u8]) -> (res: Result<(Vec<u8>, usize), SerdeError>) {
        match read_len_prefixed(data) {
            Some((body, used)) => Ok((slice_to_vec(body), used)),
            None => Err(SerdeError::NotEnoughData),
        }
    }

    proof fn lemma_encodable_when_fits(v: Seq<u8>) {
        lemma_len_prefixed_len(v);
    }

    proof fn lemma_serialize_deserialize(v: Seq<u8>, rest: Seq<u8>) {
        lemma_len_prefixed_roundtrip(v, rest);
    }

    proof fn lemma_deserialize_serialize(data: Seq<u8>) {
        lemma_read_len_prefixed_exact(data);
    }
}

/// The error of `std::str::from_utf8`, carried through opaquely.
#[verifier::external_type_specification]
#[verifier::external_body]
pub struct ExUtf8Error(std::str::Utf8Error);

/// `std::str::from_utf8`: succeeds exactly on valid UTF-8, and then the text
/// is the bytes' decoding. Nothing is stated of the error it gives.
#[verifier::external_body]
fn str_from_utf8(bytes: &[u8]) -> (res: Result<&str, Utf8Error>)
    ensures
        res is Ok <==> valid_utf8(bytes@),
        res matches Ok(text) ==> text@ == decode_utf8(bytes@),
{
    std::str::from_utf8(bytes)
}

/// The name under which text reports bytes that are not UTF-8.
pub const STRING_TY_NAME: &'static str = "String";

impl Serde for String {
    open spec fn spec_serialize(v: Seq<char>) -> Seq<u8> {
        spec_len_prefixed(encode_utf8(v))
    }

    open spec fn spec_deserialize(data: Seq<u8>) -> Decoding<Seq<char>> {
        match spec_read_len_prefixed(data) {
            Some((body, used)) => if valid_utf8(body) {
                Decoding::Complete { value: decode_utf8(body), consumed: used }
            } else {
                Decoding::Invalid { ty_name: STRING_TY_NAME@ }
            },
            None => Decoding::NotEnoughData,
        }
    }

    open spec fn spec_encodable(v: Seq<char>) -> bool {
        encode_utf8(v).len() <= u64::MAX
    }

    fn serialize(&self, output: &mut Vec<u8>) -> (written: usize) {
        let bytes = self.as_str().as_bytes();
        proof {
            lemma_auto_spec_u64_to_from_le_bytes();
        }
        write_len_prefixed(output, bytes)
    }

    fn deserialize(data: &[u8]) -> (res: Result<(String, usize), SerdeError>) {
        match read_len_prefixed(data) {
            Some((body, used)) => match str_from_utf8(body) {
                Ok(text) => Ok((text.to_owned(), used)),
                Err(error) => Err(
                    SerdeError::ParsingError { ty_name: STRING_TY_NAME, error: error.to_string() },
                ),
            },
            None => Err(SerdeError::NotEnoughData),
        }
    }

    proof fn lemma_encodable_when_fits(v: Seq<char>) {
        lemma_len_prefixed_len(encode_utf8(v));
    }

    proof fn lemma_serialize_deserialize(v: Seq<char>, rest: Seq<u8>) {
        lemma_len_prefixed_roundtrip(encode_utf8(v), rest);
        encode_utf8_valid_utf8(v);
        encode_utf8_decode_utf8(v);
    }

    proof fn lemma_deserialize_serialize(data: Seq<u8>) {
        lemma_read_len_prefixed_exact(data);
        if let Some((body, used)) = spec_read_len_prefixed(data) {
            if valid_utf8(body) {
                decode_utf8_encode_utf8(body);
            }
        }
    }
}

} // verus!
