//! Two values written one after the other; this is how the fields of a
//! record are laid out.
use crate::schemou::{Decoding, Serde, SerdeError};
use vstd::prelude::*;

verus! {

/// Reading `A` then `B` from the front of `data`.
pub open spec fn spec_pair_deserialize<A: Serde, B: Serde>(data: Seq<u8>) -> Decoding<(A::V, B::V)> {
    match A::spec_deserialize(data) {
        Decoding::Complete { value: a, consumed: na } => match B::spec_deserialize(
            data.skip(na as int),
        ) {
            Decoding::Complete { value: b, consumed: nb } => Decoding::Complete {
                value: (a, b),
                consumed: na + nb,
            },
            Decoding::NotEnoughData => Decoding::NotEnoughData,
            Decoding::Invalid { ty_name } => Decoding::Invalid { ty_name },
        },
        Decoding::NotEnoughData => Decoding::NotEnoughData,
        Decoding::Invalid { ty_name } => Decoding::Invalid { ty_name },
    }
}

impl<A: Serde, B: Serde> Serde for (A, B) {
    open spec fn spec_serialize(v: (A::V, B::V)) -> Seq<u8> {
        A::spec_serialize(v.0) + B::spec_serialize(v.1)
    }

    open spec fn spec_deserialize(data: Seq<u8>) -> Decoding<(A::V, B::V)> {
        spec_pair_deserialize::<A, B>(data)
    }

    open spec fn spec_encodable(v: (A::V, B::V)) -> bool {
        A::spec_encodable(v.0) && B::spec_encodable(v.1)
    }

    fn serialize(&self, output: &mut Vec<u8>) -> (written: usize) {
        let ghost start = output@;
        let na = self.0.serialize(output);
        let nb = self.1.serialize(output);
        assert(output@ =~= start + Self::spec_serialize(self@));
        na + nb
    }

    fn deserialize(data: &[u8]) -> (res: Result<((A, B), usize), SerdeError>) {
        let total = data.len();
        let (a, na) = match A::deserialize(data) {
            Ok(r) => r,
            Err(e) => return Err(e),
        };
        proof {
            A::lemma_deserialize_serialize(data@);
        }
        let rest = data.split_at(na).1;
        assert(rest@ =~= data@.skip(na as int));
        let (b, nb) = match B::deserialize(rest) {
            Ok(r) => r,
            Err(e) => return Err(e),
        };
        proof {
            B::lemma_deserialize_serialize(rest@);
            assert(nb <= rest@.len() == total - na);
        }
        Ok(((a, b), na + nb))
    }

    proof fn lemma_encodable_when_fits(v: (A::V, B::V)) {
        A::lemma_encodable_when_fits(v.0);
        B::lemma_encodable_when_fits(v.1);
    }

    proof fn lemma_serialize_deserialize(v: (A::V, B::V), rest: Seq<u8>) {
        let ea = A::spec_serialize(v.0);
        let eb = B::spec_serialize(v.1);
        let data = ea + eb + rest;
        assert(data =~= ea + (eb + rest));
        A::lemma_serialize_deserialize(v.0, eb + rest);
        assert(data.skip(ea.len() as int) =~= eb + rest);
        B::lemma_serialize_deserialize(v.1, rest);
    }

    proof fn lemma_deserialize_serialize(data: Seq<u8>) {
        A::lemma_deserialize_serialize(data);
        if let Decoding::Complete { value: a, consumed: na } = A::spec_deserialize(data) {
            let rest = data.skip(na as int);
            B::lemma_deserialize_serialize(rest);
            if let Decoding::Complete { value: b, consumed: nb } = B::spec_deserialize(rest) {
                assert(data.take((na + nb) as int) =~= data.take(na as int) + rest.take(
                    nb as int,
                ));
            }
        }
    }
}

} // verus!
