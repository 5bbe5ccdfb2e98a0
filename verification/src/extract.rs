//! Request and response bodies of the registry's HTTP handlers.
use crate::registry::Rejection;
use crate::schemou::{Decoding, Serde};
use vstd::prelude::*;

verus! {

/// A body in the `Serde` format.
pub struct Schemou<T: Serde>(pub T);

/// A body in the bitcode format, read by that crate.
pub struct BitCode<T>(pub T);

impl<T: Serde> Schemou<T> {
    /// Reads a request body: the value at its front, whatever follows it.
    /// A body that does not start with a value is refused as a bad request.
    pub fn from_body(body: &[u8]) -> (res: Result<Schemou<T>, Rejection>)
        ensures
            match T::spec_deserialize(body@) {
                Decoding::Complete { value, consumed: _ } => res matches Ok(s) && s.0@ == value,
                _ => res == Err::<Schemou<T>, Rejection>(Rejection::BadRequest),
            },
    {
        match T::deserialize(body) {
            Ok((value, _)) => Ok(Schemou(value)),
            Err(_) => Err(Rejection::BadRequest),
        }
    }

    /// Writes the response body: the encoding of the value.
    pub fn into_body(&self) -> (body: Vec<u8>)
        requires
            T::spec_serialize(self.0@).len() <= usize::MAX,
        ensures
            body@ == T::spec_serialize(self.0@),
    {
        let mut body: Vec<u8> = Vec::new();
        self.0.serialize(&mut body);
        assert(body@ =~= T::spec_serialize(self.0@));
        body
    }
}

/// A body written by `into_body` is read back by `from_body` as the same
/// value, also when more bytes follow it. `into_body` asks only that the
/// body fit in memory, and so does this.
pub proof fn lemma_schemou_body_roundtrip<T: Serde>(v: T::V, trailing: Seq<u8>)
    requires
        T::spec_serialize(v).len() <= usize::MAX,
    ensures
        T::spec_deserialize(T::spec_serialize(v) + trailing) matches Decoding::Complete {
            value,
            consumed: _,
        } && value == v,
{
    T::lemma_encodable_when_fits(v);
    T::lemma_serialize_deserialize(v, trailing);
}

impl<T> BitCode<T> {
    /// Accepts what the bitcode decoder made of a request body: a value is
    /// taken as it is, a decoding error refuses the request as a bad one.
    pub fn from_decoded<E>(decoded: Result<T, E>) -> (res: Result<BitCode<T>, Rejection>)
        ensures
            match decoded {
                Ok(v) => res matches Ok(b) && b.0 == v,
                Err(_) => res == Err::<BitCode<T>, Rejection>(Rejection::BadRequest),
            },
    {
        match decoded {
            Ok(v) => Ok(BitCode(v)),
            Err(_) => Err(Rejection::BadRequest),
        }
    }
}

} // verus!
