//! The `Serde` binary format: a value is written as a run of bytes and read
//! back from the front of a buffer, reporting how many bytes it used.
use vstd::prelude::*;

verus! {

/// Why reading a value from a buffer failed.
#[derive(Debug)]
pub enum SerdeError {
    /// The buffer ended before the value was complete.
    NotEnoughData,
    /// The bytes are complete but do not form a value of the named type.
    ParsingError { ty_name: &'static str, error: String },
}

/// What reading a value from the front of a byte sequence gives, in the model.
pub enum Decoding<V> {
    /// A value was read, using the first `consumed` bytes.
    Complete { value: V, consumed: nat },
    /// The bytes ran out first.
    NotEnoughData,
    /// The bytes do not form a value of the type named.
    Invalid { ty_name: Seq<char> },
}

/// The executable result `res` agrees with the model's decoding `d`.
pub open spec fn agrees<T: View>(res: Result<(T, usize), SerdeError>, d: Decoding<T::V>) -> bool {
    match res {
        Ok((v, n)) => d == Decoding::Complete { value: v@, consumed: n as nat },
        Err(SerdeError::NotEnoughData) => d is NotEnoughData,
        Err(SerdeError::ParsingError { ty_name, error: _ }) => d == Decoding::<T::V>::Invalid {
            ty_name: ty_name@,
        },
    }
}

/// A type with a byte encoding.
pub trait Serde: View + Sized {
    /// The bytes that encode `v`.
    spec fn spec_serialize(v: Self::V) -> Seq<u8>;

    /// Reading a value from the front of `data`.
    spec fn spec_deserialize(data: Seq<u8>) -> Decoding<Self::V>;

    /// `v` has an encoding (its length fields fit).
    spec fn spec_encodable(v: Self::V) -> bool;

    /// Appends the encoding of `self` to `output` and returns its length.
    fn serialize(&self, output: &mut Vec<u8>) -> (written: usize)
        requires
            old(output)@.len() + Self::spec_serialize(self@).len() <= usize::MAX,
        ensures
            final(output)@ == old(output)@ + Self::spec_serialize(self@),
            written == Self::spec_serialize(self@).len(),
    ;

    /// The encoding of `self` in a fresh buffer.
    fn serialize_buffered(&self) -> (bytes: Vec<u8>)
        requires
            Self::spec_serialize(self@).len() <= usize::MAX,
        ensures
            bytes@ == Self::spec_serialize(self@),
    {
        let mut bytes: Vec<u8> = Vec::new();
        self.serialize(&mut bytes);
        assert(bytes@ =~= Self::spec_serialize(self@));
        bytes
    }

    /// Reads a value from the front of `data`, with the number of bytes used.
    fn deserialize(data: &[u8]) -> (res: Result<(Self, usize), SerdeError>)
        ensures
            agrees(res, Self::spec_deserialize(data@)),
    ;

    /// Reading back what was written gives the value and its length,
    /// whatever follows it.
    proof fn lemma_serialize_deserialize(v: Self::V, rest: Seq<u8>)
        requires
            Self::spec_encodable(v),
        ensures
            Self::spec_deserialize(Self::spec_serialize(v) + rest) == (Decoding::Complete {
                value: v,
                consumed: Self::spec_serialize(v).len(),
            }),
    ;

    /// A value whose encoding fits in memory has an encoding: its length
    /// fields fit.
    proof fn lemma_encodable_when_fits(v: Self::V)
        requires
            Self::spec_serialize(v).len() <= usize::MAX,
        ensures
            Self::spec_encodable(v),
    ;

    /// What was read is exactly the encoding of the value read.
    proof fn lemma_deserialize_serialize(data: Seq<u8>)
        ensures
            Self::spec_deserialize(data) matches Decoding::Complete { value, consumed } ==> {
                &&& consumed <= data.len()
                &&& Self::spec_encodable(value)
                &&& Self::spec_serialize(value) == data.take(consumed as int)
            },
    ;
}

/// Reading back what was written gives the value and its length, whatever
/// follows, for every value whose encoding fits in memory.
pub proof fn lemma_roundtrip_when_fits<T: Serde>(v: T::V, rest: Seq<u8>)
    requires
        T::spec_serialize(v).len() <= usize::MAX,
    ensures
        T::spec_deserialize(T::spec_serialize(v) + rest) == (Decoding::Complete {
            value: v,
            consumed: T::spec_serialize(v).len(),
        }),
{
    T::lemma_encodable_when_fits(v);
    T::lemma_serialize_deserialize(v, rest);
}

/// Reading does not look past the value: once a value is read from the
/// front of `data`, the same value is read, with the same length, whatever
/// follows those bytes.
pub proof fn lemma_no_lookahead<T: Serde>(data: Seq<u8>, other: Seq<u8>)
    ensures
        T::spec_deserialize(data) matches Decoding::Complete { value, consumed } ==> T::spec_deserialize(
            data.take(consumed as int) + other,
        ) == (Decoding::Complete { value, consumed }),
{
    T::lemma_deserialize_serialize(data);
    if let Decoding::Complete { value, consumed } = T::spec_deserialize(data) {
        T::lemma_serialize_deserialize(value, other);
    }
}

/// Each value has one encoding: two reads that give the same value used
/// the same bytes.
pub proof fn lemma_one_encoding<T: Serde>(data1: Seq<u8>, data2: Seq<u8>)
    ensures
        T::spec_deserialize(data1) matches Decoding::Complete { value: v1, consumed: n1 }
            ==> T::spec_deserialize(data2) matches Decoding::Complete { value: v2, consumed: n2 }
            ==> v1 == v2 ==> data1.take(n1 as int) == data2.take(n2 as int),
{
    T::lemma_deserialize_serialize(data1);
    T::lemma_deserialize_serialize(data2);
}

impl Serde for u8 {
    open spec fn spec_serialize(v: u8) -> Seq<u8> {
        seq![v]
    }

    open spec fn spec_deserialize(data: Seq<u8>) -> Decoding<u8> {
        if data.len() >= 1 {
            Decoding::Complete { value: data[0], consumed: 1 }
        } else {
            Decoding::NotEnoughData
        }
    }

    open spec fn spec_encodable(v: u8) -> bool {
        true
    }

    fn serialize(&self, output: &mut Vec<u8>) -> (written: usize) {
        output.push(*self);
        1
    }

    fn deserialize(data: &[u8]) -> (res: Result<(u8, usize), SerdeError>) {
        if data.len() >= 1 {
            Ok((data[0], 1))
        } else {
            Err(SerdeError::NotEnoughData)
        }
    }

    proof fn lemma_serialize_deserialize(v: u8, rest: Seq<u8>) {
    }

    proof fn lemma_encodable_when_fits(v: u8) {
    }

    proof fn lemma_deserialize_serialize(data: Seq<u8>) {
        if data.len() >= 1 {
            assert(data.take(1) =~= seq![data[0]]);
        }
    }
}

} // verus!
