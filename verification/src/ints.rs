//! Fixed-width integers: little-endian, as many bytes as the type is wide.
//! Signed integers are written as their two's complement bit pattern.
use crate::schemou::{Decoding, Serde, SerdeError};
use vstd::bytes::*;
use vstd::prelude::*;

verus! {

/// Appends all of `bytes` to `output`.
fn append_bytes(output: &mut Vec<u8>, bytes: Vec<u8>)
    ensures
        final(output)@ == old(output)@ + bytes@,
{
    let mut bytes = bytes;
    output.append(&mut bytes);
}

/// Decoding a fixed-width value of `width` bytes read by `from`.
pub open spec fn fixed_decoding<V>(data: Seq<u8>, width: nat, from: spec_fn(Seq<u8>) -> V) -> Decoding<V> {
    if data.len() >= width {
        Decoding::Complete { value: from(data.take(width as int)), consumed: width }
    } else {
        Decoding::NotEnoughData
    }
}

impl Serde for i8 {
    open spec fn spec_serialize(v: i8) -> Seq<u8> {
        seq![v as u8]
    }

    open spec fn spec_deserialize(data: Seq<u8>) -> Decoding<i8> {
        fixed_decoding(data, 1, |s: Seq<u8>| s[0] as i8)
    }

    open spec fn spec_encodable(v: i8) -> bool {
        true
    }

    fn serialize(&self, output: &mut Vec<u8>) -> (written: usize) {
        output.push(*self as u8);
        1
    }

    fn deserialize(data: &[u8]) -> (res: Result<(i8, usize), SerdeError>) {
        if data.len() >= 1 {
            Ok((data[0] as i8, 1))
        } else {
            Err(SerdeError::NotEnoughData)
        }
    }

    proof fn lemma_encodable_when_fits(v: i8) {
    }

    proof fn lemma_serialize_deserialize(v: i8, rest: Seq<u8>) {
        assert((v as u8) as i8 == v) by (bit_vector);
        assert((seq![v as u8] + rest).take(1)[0] == v as u8);
    }

    proof fn lemma_deserialize_serialize(data: Seq<u8>) {
        if data.len() >= 1 {
            let b = data[0];
            assert((b as i8) as u8 == b) by (bit_vector);
            assert(data.take(1) =~= seq![b]);
        }
    }
}

impl Serde for u16 {
    open spec fn spec_serialize(v: u16) -> Seq<u8> {
        spec_u16_to_le_bytes(v)
    }

    open spec fn spec_deserialize(data: Seq<u8>) -> Decoding<u16> {
        fixed_decoding(data, 2, |s: Seq<u8>| spec_u16_from_le_bytes(s))
    }

    open spec fn spec_encodable(v: u16) -> bool {
        true
    }

    fn serialize(&self, output: &mut Vec<u8>) -> (written: usize) {
        append_bytes(output, u16_to_le_bytes(*self));
        2
    }

    fn deserialize(data: &[u8]) -> (res: Result<(u16, usize), SerdeError>) {
        if data.len() >= 2 {
            let v = u16_from_le_bytes(&data[0..2]);
            assert(data@.subrange(0, 2) =~= data@.take(2));
            Ok((v, 2))
        } else {
            Err(SerdeError::NotEnoughData)
        }
    }

    proof fn lemma_encodable_when_fits(v: u16) {
    }

    proof fn lemma_serialize_deserialize(v: u16, rest: Seq<u8>) {
        lemma_auto_spec_u16_to_from_le_bytes();
        assert((spec_u16_to_le_bytes(v) + rest).take(2) =~= spec_u16_to_le_bytes(v));
    }

    proof fn lemma_deserialize_serialize(data: Seq<u8>) {
        lemma_auto_spec_u16_to_from_le_bytes();
    }
}

impl Serde for i16 {
    open spec fn spec_serialize(v: i16) -> Seq<u8> {
        spec_u16_to_le_bytes(v as u16)
    }

    open spec fn spec_deserialize(data: Seq<u8>) -> Decoding<i16> {
        fixed_decoding(data, 2, |s: Seq<u8>| spec_u16_from_le_bytes(s) as i16)
    }

    open spec fn spec_encodable(v: i16) -> bool {
        true
    }

    fn serialize(&self, output: &mut Vec<u8>) -> (written: usize) {
        append_bytes(output, u16_to_le_bytes(*self as u16));
        2
    }

    fn deserialize(data: &[u8]) -> (res: Result<(i16, usize), SerdeError>) {
        if data.len() >= 2 {
            let v = u16_from_le_bytes(&data[0..2]);
            assert(data@.subrange(0, 2) =~= data@.take(2));
            Ok((v as i16, 2))
        } else {
            Err(SerdeError::NotEnoughData)
        }
    }

    proof fn lemma_encodable_when_fits(v: i16) {
    }

    proof fn lemma_serialize_deserialize(v: i16, rest: Seq<u8>) {
        lemma_auto_spec_u16_to_from_le_bytes();
        assert((v as u16) as i16 == v) by (bit_vector);
        assert((spec_u16_to_le_bytes(v as u16) + rest).take(2) =~= spec_u16_to_le_bytes(v as u16));
    }

    proof fn lemma_deserialize_serialize(data: Seq<u8>) {
        lemma_auto_spec_u16_to_from_le_bytes();
        if data.len() >= 2 {
            let x = spec_u16_from_le_bytes(data.take(2));
            assert((x as i16) as u16 == x) by (bit_vector);
        }
    }
}

impl Serde for u32 {
    open spec fn spec_serialize(v: u32) -> Seq<u8> {
        spec_u32_to_le_bytes(v)
    }

    open spec fn spec_deserialize(data: Seq<u8>) -> Decoding<u32> {
        fixed_decoding(data, 4, |s: Seq<u8>| spec_u32_from_le_bytes(s))
    }

    open spec fn spec_encodable(v: u32) -> bool {
        true
    }

    fn serialize(&self, output: &mut Vec<u8>) -> (written: usize) {
        append_bytes(output, u32_to_le_bytes(*self));
        4
    }

    fn deserialize(data: &[u8]) -> (res: Result<(u32, usize), SerdeError>) {
        if data.len() >= 4 {
            let v = u32_from_le_bytes(&data[0..4]);
            assert(data@.subrange(0, 4) =~= data@.take(4));
            Ok((v, 4))
        } else {
            Err(SerdeError::NotEnoughData)
        }
    }

    proof fn lemma_encodable_when_fits(v: u32) {
    }

    proof fn lemma_serialize_deserialize(v: u32, rest: Seq<u8>) {
        lemma_auto_spec_u32_to_from_le_bytes();
        assert((spec_u32_to_le_bytes(v) + rest).take(4) =~= spec_u32_to_le_bytes(v));
    }

    proof fn lemma_deserialize_serialize(data: Seq<u8>) {
        lemma_auto_spec_u32_to_from_le_bytes();
    }
}

impl Serde for i32 {
    open spec fn spec_serialize(v: i32) -> Seq<u8> {
        spec_u32_to_le_bytes(v as u32)
    }

    open spec fn spec_deserialize(data: Seq<u8>) -> Decoding<i32> {
        fixed_decoding(data, 4, |s: Seq<u8>| spec_u32_from_le_bytes(s) as i32)
    }

    open spec fn spec_encodable(v: i32) -> bool {
        true
    }

    fn serialize(&self, output: &mut Vec<u8>) -> (written: usize) {
        append_bytes(output, u32_to_le_bytes(*self as u32));
        4
    }

    fn deserialize(data: &[u8]) -> (res: Result<(i32, usize), SerdeError>) {
        if data.len() >= 4 {
            let v = u32_from_le_bytes(&data[0..4]);
            assert(data@.subrange(0, 4) =~= data@.take(4));
            Ok((v as i32, 4))
        } else {
            Err(SerdeError::NotEnoughData)
        }
    }

    proof fn lemma_encodable_when_fits(v: i32) {
    }

    proof fn lemma_serialize_deserialize(v: i32, rest: Seq<u8>) {
        lemma_auto_spec_u32_to_from_le_bytes();
        assert((v as u32) as i32 == v) by (bit_vector);
        assert((spec_u32_to_le_bytes(v as u32) + rest).take(4) =~= spec_u32_to_le_bytes(v as u32));
    }

    proof fn lemma_deserialize_serialize(data: Seq<u8>) {
        lemma_auto_spec_u32_to_from_le_bytes();
        if data.len() >= 4 {
            let x = spec_u32_from_le_bytes(data.take(4));
            assert((x as i32) as u32 == x) by (bit_vector);
        }
    }
}

impl Serde for u64 {
    open spec fn spec_serialize(v: u64) -> Seq<u8> {
        spec_u64_to_le_bytes(v)
    }

    open spec fn spec_deserialize(data: Seq<u8>) -> Decoding<u64> {
        fixed_decoding(data, 8, |s: Seq<u8>| spec_u64_from_le_bytes(s))
    }

    open spec fn spec_encodable(v: u64) -> bool {
        true
    }

    fn serialize(&self, output: &mut Vec<u8>) -> (written: usize) {
        append_bytes(output, u64_to_le_bytes(*self));
        8
    }

    fn deserialize(data: &[u8]) -> (res: Result<(u64, usize), SerdeError>) {
        if data.len() >= 8 {
            let v = u64_from_le_bytes(&data[0..8]);
            assert(data@.subrange(0, 8) =~= data@.take(8));
            Ok((v, 8))
        } else {
            Err(SerdeError::NotEnoughData)
        }
    }

    proof fn lemma_encodable_when_fits(v: u64) {
    }

    proof fn lemma_serialize_deserialize(v: u64, rest: Seq<u8>) {
        lemma_auto_spec_u64_to_from_le_bytes();
        assert((spec_u64_to_le_bytes(v) + rest).take(8) =~= spec_u64_to_le_bytes(v));
    }

    proof fn lemma_deserialize_serialize(data: Seq<u8>) {
        lemma_auto_spec_u64_to_from_le_bytes();
        if data.len() >= 8 {
            assert(spec_u64_to_le_bytes(spec_u64_from_le_bytes(data.take(8))) == data.take(8));
        }
    }
}

impl Serde for i64 {
    open spec fn spec_serialize(v: i64) -> Seq<u8> {
        spec_u64_to_le_bytes(v as u64)
    }

    open spec fn spec_deserialize(data: Seq<u8>) -> Decoding<i64> {
        fixed_decoding(data, 8, |s: Seq<u8>| spec_u64_from_le_bytes(s) as i64)
    }

    open spec fn spec_encodable(v: i64) -> bool {
        true
    }

    fn serialize(&self, output: &mut Vec<u8>) -> (written: usize) {
        append_bytes(output, u64_to_le_bytes(*self as u64));
        8
    }

    fn deserialize(data: &[u8]) -> (res: Result<(i64, usize), SerdeError>) {
        if data.len() >= 8 {
            let v = u64_from_le_bytes(&data[0..8]);
            assert(data@.subrange(0, 8) =~= data@.take(8));
            Ok((v as i64, 8))
        } else {
            Err(SerdeError::NotEnoughData)
        }
    }

    proof fn lemma_encodable_when_fits(v: i64) {
    }

    proof fn lemma_serialize_deserialize(v: i64, rest: Seq<u8>) {
        lemma_auto_spec_u64_to_from_le_bytes();
        assert((v as u64) as i64 == v) by (bit_vector);
        assert((spec_u64_to_le_bytes(v as u64) + rest).take(8) =~= spec_u64_to_le_bytes(v as u64));
    }

    proof fn lemma_deserialize_serialize(data: Seq<u8>) {
        lemma_auto_spec_u64_to_from_le_bytes();
        if data.len() >= 8 {
            let x = spec_u64_from_le_bytes(data.take(8));
            assert((x as i64) as u64 == x) by (bit_vector);
            assert(spec_u64_to_le_bytes(x) == data.take(8));
        }
    }
}

} // verus!
