//! The bridge command's computation.
//!
//! The front end invokes `read_file_bytes` with a path; the filesystem read
//! itself happens at the application's edge and hands this module its raw
//! outcome: either the file's bytes or the platform's description of the
//! failure. This module turns that outcome into what the front end receives:
//! the bytes unchanged, or an error message of the shape
//! `"Failed to read file: {cause}"`.

use vstd::prelude::*;

verus! {

/// The fixed prefix of every error message the bridge command returns.
pub open spec fn read_error_prefix() -> Seq<char> {
    "Failed to read file: "@
}

/// The full error message for a raw filesystem failure described by `cause`.
pub open spec fn read_error_message_of(cause: Seq<char>) -> Seq<char> {
    read_error_prefix() + cause
}

/// What the bridge command returns for a given raw filesystem outcome:
/// bytes pass through unchanged, a failure becomes the formatted message.
pub open spec fn bridge_result_of(raw: Result<Seq<u8>, Seq<char>>) -> Result<Seq<u8>, Seq<char>> {
    match raw {
        Ok(bytes) => Ok(bytes),
        Err(cause) => Err(read_error_message_of(cause)),
    }
}

/// The mathematical value of a raw outcome or of a bridge result.
pub open spec fn outcome_view(outcome: &Result<Vec<u8>, String>) -> Result<Seq<u8>, Seq<char>> {
    match outcome {
        Ok(bytes) => Ok(bytes@),
        Err(text) => Err(text@),
    }
}

/// Formats the platform-provided failure description into the error message
/// the front end sees.
pub fn format_read_error(cause: &str) -> (msg: String)
    ensures
        msg@ == read_error_message_of(cause@),
{
    let mut msg = String::from_str("Failed to read file: ");
    msg.append(cause);
    msg
}

/// The bridge command's whole computation: turns the raw outcome of the
/// filesystem read into what the front end receives.
pub fn read_file_bytes_result(raw: Result<Vec<u8>, String>) -> (result: Result<Vec<u8>, String>)
    ensures
        outcome_view(&result) == bridge_result_of(outcome_view(&raw)),
{
    match raw {
        Ok(bytes) => Ok(bytes),
        Err(cause) => Err(format_read_error(cause.as_str())),
    }
}

/// A successful read passes the file's bytes through exactly, byte for byte.
pub proof fn lemma_success_passes_bytes_through(bytes: Seq<u8>)
    ensures
        bridge_result_of(Ok(bytes)) == Ok::<Seq<u8>, Seq<char>>(bytes),
{
}

/// A failed read never yields bytes: a raw failure maps to an error result.
pub proof fn lemma_failure_gives_no_bytes(raw: Result<Seq<u8>, Seq<char>>)
    ensures
        raw is Err ==> bridge_result_of(raw) is Err,
{
}

/// Every error message the bridge command returns begins with the fixed
/// prefix `"Failed to read file: "`, whatever the underlying cause says.
pub proof fn lemma_error_message_has_prefix(cause: Seq<char>)
    ensures
        read_error_message_of(cause).len() == read_error_prefix().len() + cause.len(),
        read_error_message_of(cause).subrange(0, read_error_prefix().len() as int)
            == read_error_prefix(),
{
    assert(read_error_message_of(cause).subrange(0, read_error_prefix().len() as int)
        =~= read_error_prefix());
}

/// Reading an unchanged file is idempotent at the command's level: two calls
/// whose raw outcomes agree produce identical results.
pub proof fn lemma_bridge_result_idempotent(
    first: Result<Seq<u8>, Seq<char>>,
    second: Result<Seq<u8>, Seq<char>>,
)
    requires
        first == second,
    ensures
        bridge_result_of(first) == bridge_result_of(second),
{
}

} // verus!
