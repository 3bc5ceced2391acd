//! The hand-off between launches: where the running instance listens, what
//! a launch sends it, and what the running instance does with a request.

use crate::document::{
    commit_result, load_result, DocumentModel, DocumentState, LoadError, ReadOutcome, Refresh,
};
use crate::paths::{classify_path, kind_of_path, text_of, window_title_of, FileKind};
use vstd::prelude::*;
use vstd::string::StrSliceExecFns;
use vstd::utf8::{decode_utf8, encode_utf8, encode_utf8_decode_utf8, encode_utf8_valid_utf8, valid_utf8};

verus! {

/// The most bytes that are read of one request.
pub const MESSAGE_LIMIT: usize = 4096;

/// The text that `String::from_utf8_lossy` makes of bytes.
pub uninterp spec fn lossy_text(bytes: Seq<u8>) -> Seq<char>;

/// The path that a request carries: the text that its bytes encode, or,
/// where they are no valid encoding, what a lossy conversion makes of them.
pub open spec fn request_path(message: Seq<u8>) -> Seq<char> {
    if valid_utf8(message) {
        decode_utf8(message)
    } else {
        lossy_text(message)
    }
}

/// `String::from_utf8_lossy`. Bytes that are valid UTF-8 come back as the
/// text they encode; of other bytes the contract only gives the result its
/// name.
#[verifier::external_body]
fn text_from_bytes(bytes: &[u8]) -> (r: String)
    ensures
        r@ == lossy_text(bytes@),
        valid_utf8(bytes@) ==> r@ == decode_utf8(bytes@),
{
    String::from_utf8_lossy(bytes).into_owned()
}

/// The message that asks the running instance to open `path`: the bytes of
/// the path, and nothing else.
pub fn encode_request(path: &str) -> (message: Vec<u8>)
    ensures
        message@ == encode_utf8(path@),
{
    path.as_bytes_vec()
}

/// The path that the received bytes ask for.
pub fn decode_request(received: &[u8]) -> (path: String)
    ensures
        path@ == request_path(received@),
{
    text_from_bytes(received)
}

/// What is sent for a path is received as that path.
pub proof fn lemma_request_round_trip(path: Seq<char>)
    ensures
        request_path(encode_utf8(path)) == path,
{
    encode_utf8_valid_utf8(path);
    encode_utf8_decode_utf8(path);
}

/// What is decided of a request before its file is read: a file that does
/// not exist is `NotFound`, and one that is of none of the kinds that the
/// viewer opens is `UnsupportedType`.
pub open spec fn request_verdict(kind: Option<FileKind>, exists: bool) -> Result<
    FileKind,
    LoadError,
> {
    if !exists {
        Err(LoadError::NotFound)
    } else {
        match kind {
            Some(k) => Ok(k),
            None => Err(LoadError::UnsupportedType),
        }
    }
}

/// Decides of a request for a file of the given kind, before the file is
/// read.
pub fn judge_request(kind: Option<FileKind>, exists: bool) -> (r: Result<FileKind, LoadError>)
    ensures
        r == request_verdict(kind, exists),
{
    if !exists {
        Err(LoadError::NotFound)
    } else {
        match kind {
            Some(k) => Ok(k),
            None => Err(LoadError::UnsupportedType),
        }
    }
}

/// Decides of a request for the file at `requested`, before the file is
/// read.
pub fn check_request(requested: &str, exists: bool) -> (r: Result<FileKind, LoadError>)
    ensures
        r == request_verdict(kind_of_path(requested@), exists),
{
    judge_request(classify_path(requested), exists)
}

/// What a request to open `requested` returns, and leaves in the record.
///
/// A request that the verdict turns down fails with the verdict's error; one
/// whose path could not be made canonical fails as `ReadFailure`. Any other
/// is a commit, at the canonical path, of what loading the file gave.
pub open spec fn request_result(
    before: DocumentModel,
    requested: Seq<char>,
    exists: bool,
    canonical_path: Option<Seq<char>>,
    outcome: ReadOutcome,
) -> Result<DocumentModel, LoadError> {
    match request_verdict(kind_of_path(requested), exists) {
        Err(error) => Err(error),
        Ok(_) => match canonical_path {
            None => Err(LoadError::ReadFailure),
            Some(path) => commit_result(
                before,
                path,
                load_result(path, outcome, before.no_truncate),
            ),
        },
    }
}

/// Serves a request to open `requested`, given what the file system said of
/// it: whether it exists, its canonical path if it has one, and what reading
/// it gave. The record is replaced as a whole, or left as it is where the
/// request fails.
pub fn accept_request(
    state: &mut DocumentState,
    requested: &str,
    exists: bool,
    canonical_path: Option<String>,
    outcome: ReadOutcome,
) -> (r: Result<Refresh, LoadError>)
    requires
        old(state).wf(),
    ensures
        final(state).wf(),
        match request_result(old(state)@, requested@, exists, text_of(canonical_path), outcome) {
            Ok(after) => {
                &&& final(state)@ == after
                &&& r matches Ok(refresh)
                &&& Some(refresh.watch_target@) == text_of(canonical_path)
                &&& refresh.display_name@ == after.display_name
                &&& refresh.window_title@ == window_title_of(after.display_name)
            },
            Err(error) => r == Err::<Refresh, LoadError>(error) && final(state)@ == old(state)@,
        },
{
    match check_request(requested, exists) {
        Err(error) => Err(error),
        Ok(_) => match canonical_path {
            None => Err(LoadError::ReadFailure),
            Some(path) => state.replace(path, outcome),
        },
    }
}

} // verus!
