//! The error taxonomy, and the translation of raw OS error codes into it.
//!
//! Every OS-level failure this library reports is translated at the boundary
//! into exactly one of the taxonomy's kinds, never an unmapped raw code: the
//! codes with a kind of their own get it, and every other code is carried
//! through as `Other` together with a human-readable message.

use vstd::prelude::*;

verus! {

/// OS error code for "permission denied" (`EACCES` on Linux).
pub const CODE_PERMISSION_DENIED: i32 = 13;

/// OS error code for "file already exists" (`EEXIST` on Linux).
pub const CODE_ALREADY_EXISTS: i32 = 17;

/// OS error code for "no such file or directory" (`ENOENT` on Linux).
pub const CODE_NOT_FOUND: i32 = 2;

/// OS error code for "operation would block" (`EAGAIN` on Linux).
pub const CODE_WOULD_BLOCK: i32 = 11;

/// Structured classification of an OS-level failure.
///
/// `WouldBlock` is a normal, expected condition for non-blocking pipes and is
/// kept apart from true failures so that callers can poll or back off rather
/// than treat it as fatal. `Other` carries the raw OS error code and a
/// human-readable message.
#[derive(Debug, PartialEq, Eq)]
pub enum ErrorOutcome {
    PermissionDenied,
    AlreadyExists,
    NotFound,
    WouldBlock,
    Other(i32, String),
}

/// Whether an OS error code has a kind of its own in the taxonomy.
pub open spec fn code_is_named(code: i32) -> bool {
    ||| code == CODE_PERMISSION_DENIED
    ||| code == CODE_ALREADY_EXISTS
    ||| code == CODE_NOT_FOUND
    ||| code == CODE_WOULD_BLOCK
}

/// The outcome every OS error code is translated to.
pub open spec fn outcome_of(code: i32, message: String) -> ErrorOutcome {
    if code == CODE_PERMISSION_DENIED {
        ErrorOutcome::PermissionDenied
    } else if code == CODE_ALREADY_EXISTS {
        ErrorOutcome::AlreadyExists
    } else if code == CODE_NOT_FOUND {
        ErrorOutcome::NotFound
    } else if code == CODE_WOULD_BLOCK {
        ErrorOutcome::WouldBlock
    } else {
        ErrorOutcome::Other(code, message)
    }
}

/// Relies on libc::EACCES, the "permission denied" error number: 13 on Linux.
#[verifier::external_body]
fn permission_denied_code() -> (r: i32)
    ensures
        r == CODE_PERMISSION_DENIED,
{
    libc::EACCES
}

/// Relies on libc::EEXIST, the "file already exists" error number: 17 on Linux.
#[verifier::external_body]
fn already_exists_code() -> (r: i32)
    ensures
        r == CODE_ALREADY_EXISTS,
{
    libc::EEXIST
}

/// Relies on libc::ENOENT, the "no such file or directory" error number: 2 on Linux.
#[verifier::external_body]
fn not_found_code() -> (r: i32)
    ensures
        r == CODE_NOT_FOUND,
{
    libc::ENOENT
}

/// Relies on libc::EAGAIN, the "operation would block" error number: 11 on Linux.
#[verifier::external_body]
fn would_block_code() -> (r: i32)
    ensures
        r == CODE_WOULD_BLOCK,
{
    libc::EAGAIN
}

/// Translates one raw OS error code into the taxonomy, attaching the given
/// message to a code that has no kind of its own.
pub fn classify_errno(code: i32, message: String) -> (r: ErrorOutcome)
    ensures
        r == outcome_of(code, message),
{
    if code == permission_denied_code() {
        ErrorOutcome::PermissionDenied
    } else if code == already_exists_code() {
        ErrorOutcome::AlreadyExists
    } else if code == not_found_code() {
        ErrorOutcome::NotFound
    } else if code == would_block_code() {
        ErrorOutcome::WouldBlock
    } else {
        ErrorOutcome::Other(code, message)
    }
}

/// The translation is exhaustive and unambiguous: each named code yields its
/// kind and no other, every unnamed code yields `Other`, and `Other` carries
/// exactly the code and message it was given.
pub proof fn lemma_classification_exhaustive(code: i32, message: String)
    ensures
        (outcome_of(code, message) is PermissionDenied) <==> code == CODE_PERMISSION_DENIED,
        (outcome_of(code, message) is AlreadyExists) <==> code == CODE_ALREADY_EXISTS,
        (outcome_of(code, message) is NotFound) <==> code == CODE_NOT_FOUND,
        (outcome_of(code, message) is WouldBlock) <==> code == CODE_WOULD_BLOCK,
        (outcome_of(code, message) is Other) <==> !code_is_named(code),
        outcome_of(code, message) matches ErrorOutcome::Other(c, m) ==> c == code && m == message,
{
}

} // verus!
