//! The registry's handling of registrations: which record a request
//! becomes, how that record is committed, what is answered, and how
//! request and response bodies are read and written.
use crate::base64::{base64_standard_encode, spec_base64_standard};
use crate::messages::{RegisterReq, RegisterRes};
use crate::schemou::{Decoding, Serde};
use vstd::prelude::*;
use vstd::string::StringExecFns;

verus! {

/// Name and email of the author and committer of the registry's commits.
pub const AUTHOR: &'static str = "registrie";

/// The branch that holds the registry's records.
pub const DEFAULT_BRANCH: &'static str = "main";

/// Message of the commit that starts a new registry.
pub const INITIAL_COMMIT_MESSAGE: &'static str = "Initial Commit";

/// Git file mode of a record: a regular, non-executable file.
pub const RECORD_FILE_MODE: i32 = 0o100644;

/// Prefix of the message of the commit that registers a user.
pub const REGISTER_MESSAGE_PREFIX: &'static str = "Register: ";

/// What the registry stores for a user.
pub struct Record {
    pub username: String,
    pub pubkey: String,
}

/// How a record enters the repository: the tree entry that holds it, with
/// its file mode, and the message of the commit that adds it.
pub struct RecordCommit {
    pub entry_name: String,
    pub file_mode: i32,
    pub message: String,
}

/// Why a request body was refused.
#[derive(Debug, PartialEq, Eq, Structural)]
pub enum Rejection {
    /// The body does not hold a value of the expected type.
    BadRequest,
}

impl Rejection {
    /// The HTTP status code that answers the refusal.
    pub fn status_code(&self) -> (code: u16)
        ensures
            code == 400,
    {
        match self {
            Rejection::BadRequest => 400,
        }
    }
}

/// The tree entry that holds a user's record: the username itself, at the
/// top of the tree.
pub open spec fn spec_entry_name(username: Seq<char>) -> Seq<char> {
    username
}

/// The tree entry that holds the record of `username`; both storing and
/// looking up a record go through it.
pub fn entry_name(username: &str) -> (name: String)
    ensures
        name@ == spec_entry_name(username@),
        name@ == username@,
{
    username.to_owned()
}

/// The repository's fixed names: commits by "registrie" on branch "main",
/// records as regular files, registrations as "Register: <username>".
pub proof fn lemma_repository_names()
    ensures
        AUTHOR@ == "registrie"@,
        DEFAULT_BRANCH@ == "main"@,
        INITIAL_COMMIT_MESSAGE@ == "Initial Commit"@,
        REGISTER_MESSAGE_PREFIX@ == "Register: "@,
        RECORD_FILE_MODE == 0o100644,
{
}

/// A record is stored under its whole username, so two users share an
/// entry only when they share a username.
pub proof fn lemma_entry_name_is_username(u: Seq<char>, w: Seq<char>)
    ensures
        spec_entry_name(u) == u,
        spec_entry_name(u) == spec_entry_name(w) <==> u == w,
{
}

impl Record {
    pub fn new(username: String, pubkey: String) -> (record: Self)
        ensures
            record.username@ == username@,
            record.pubkey@ == pubkey@,
    {
        Record { username, pubkey }
    }

    /// The record a registration request becomes: its username, and its
    /// public key as standard base64 text.
    pub fn from_request(req: &RegisterReq) -> (record: Self)
        requires
            4 * ((req.pubkey@.len() + 2) / 3) <= usize::MAX,
        ensures
            record.username@ == req.username@,
            record.pubkey@ == spec_base64_standard(req.pubkey@),
    {
        let pubkey = base64_standard_encode(req.pubkey.as_slice());
        Record { username: req.username.clone(), pubkey }
    }

    /// How the record is committed: under its username at the top of the
    /// tree, as a regular file, with the message "Register: <username>".
    pub fn commit(&self) -> (commit: RecordCommit)
        ensures
            commit.entry_name@ == spec_entry_name(self.username@),
            commit.entry_name@ == self.username@,
            commit.file_mode == RECORD_FILE_MODE,
            commit.message@ == REGISTER_MESSAGE_PREFIX@ + self.username@,
    {
        let mut message = REGISTER_MESSAGE_PREFIX.to_owned();
        message.append(self.username.as_str());
        RecordCommit {
            entry_name: entry_name(self.username.as_str()),
            file_mode: RECORD_FILE_MODE,
            message,
        }
    }
}

/// The answer to a registration: the id of the commit that recorded it.
pub fn register_response(commit_id: &[u8]) -> (res: RegisterRes)
    ensures
        res.commit_id@ == commit_id@,
{
    RegisterRes::new(vstd::slice::slice_to_vec(commit_id))
}

} // verus!
