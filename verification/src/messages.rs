//! The messages of the registration exchange between client and registry.
use crate::schemou::{Decoding, Serde, SerdeError};
use vstd::prelude::*;

verus! {

/// A client's request to register `username` under the public key `pubkey`.
pub struct RegisterReq {
    pub username: String,
    pub pubkey: Vec<u8>,
}

/// The registry's answer: the id of the commit that recorded the user.
pub struct RegisterRes {
    pub commit_id: Vec<u8>,
}

impl View for RegisterReq {
    type V = (Seq<char>, Seq<u8>);

    open spec fn view(&self) -> (Seq<char>, Seq<u8>) {
        (self.username@, self.pubkey@)
    }
}

impl View for RegisterRes {
    type V = Seq<u8>;

    open spec fn view(&self) -> Seq<u8> {
        self.commit_id@
    }
}

impl RegisterReq {
    pub fn new(username: String, pubkey: Vec<u8>) -> (req: Self)
        ensures
            req.username@ == username@,
            req.pubkey@ == pubkey@,
    {
        RegisterReq { username, pubkey }
    }
}

impl RegisterRes {
    pub fn new(commit_id: Vec<u8>) -> (res: Self)
        ensures
            res.commit_id@ == commit_id@,
    {
        RegisterRes { commit_id }
    }
}

/// The fields of a request are laid out in order: the username, then the key.
impl Serde for RegisterReq {
    open spec fn spec_serialize(v: (Seq<char>, Seq<u8>)) -> Seq<u8> {
        <(String, Vec<u8>) as Serde>::spec_serialize(v)
    }

    open spec fn spec_deserialize(data: Seq<u8>) -> Decoding<(Seq<char>, Seq<u8>)> {
        <(String, Vec<u8>) as Serde>::spec_deserialize(data)
    }

    open spec fn spec_encodable(v: (Seq<char>, Seq<u8>)) -> bool {
        <(String, Vec<u8>) as Serde>::spec_encodable(v)
    }

    fn serialize(&self, output: &mut Vec<u8>) -> (written: usize) {
        let ghost start = output@;
        let nu = self.username.serialize(output);
        let np = self.pubkey.serialize(output);
        assert(output@ =~= start + Self::spec_serialize(self@));
        nu + np
    }

    fn deserialize(data: &[u8]) -> (res: Result<(RegisterReq, usize), SerdeError>) {
        match <(String, Vec<u8>) as Serde>::deserialize(data) {
            Ok(((username, pubkey), used)) => Ok((RegisterReq { username, pubkey }, used)),
            Err(e) => Err(e),
        }
    }

    proof fn lemma_encodable_when_fits(v: (Seq<char>, Seq<u8>)) {
        <(String, Vec<u8>) as Serde>::lemma_encodable_when_fits(v);
    }

    proof fn lemma_serialize_deserialize(v: (Seq<char>, Seq<u8>), rest: Seq<u8>) {
        <(String, Vec<u8>) as Serde>::lemma_serialize_deserialize(v, rest);
    }

    proof fn lemma_deserialize_serialize(data: Seq<u8>) {
        <(String, Vec<u8>) as Serde>::lemma_deserialize_serialize(data);
    }
}

/// A response is laid out as its commit id.
impl Serde for RegisterRes {
    open spec fn spec_serialize(v: Seq<u8>) -> Seq<u8> {
        <Vec<u8> as Serde>::spec_serialize(v)
    }

    open spec fn spec_deserialize(data: Seq<u8>) -> Decoding<Seq<u8>> {
        <Vec<u8> as Serde>::spec_deserialize(data)
    }

    open spec fn spec_encodable(v: Seq<u8>) -> bool {
        <Vec<u8> as Serde>::spec_encodable(v)
    }

    fn serialize(&self, output: &mut Vec<u8>) -> (written: usize) {
        self.commit_id.serialize(output)
    }

    fn deserialize(data: &[u8]) -> (res: Result<(RegisterRes, usize), SerdeError>) {
        match <Vec<u8> as Serde>::deserialize(data) {
            Ok((commit_id, used)) => Ok((RegisterRes { commit_id }, used)),
            Err(e) => Err(e),
        }
    }

    proof fn lemma_encodable_when_fits(v: Seq<u8>) {
        <Vec<u8> as Serde>::lemma_encodable_when_fits(v);
    }

    proof fn lemma_serialize_deserialize(v: Seq<u8>, rest: Seq<u8>) {
        <Vec<u8> as Serde>::lemma_serialize_deserialize(v, rest);
    }

    proof fn lemma_deserialize_serialize(data: Seq<u8>) {
        <Vec<u8> as Serde>::lemma_deserialize_serialize(data);
    }
}

} // verus!
