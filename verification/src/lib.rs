//! Utilities for working with Unix named pipes (FIFOs): the permission-mode
//! rules a pipe is created with, the translation of raw OS error codes into a
//! structured error taxonomy, and classification of a file's type tag.
//!
//! Each operation on a pipe is a single OS primitive plus error translation;
//! this crate holds the translation, the mode arithmetic and the type
//! classification, all stated over the raw integer results that the
//! primitives produce.

pub mod errors;
pub mod ext;

use vstd::prelude::*;
use crate::errors::{classify_errno, outcome_of, ErrorOutcome};

verus! {

/// Permission mode used by `create` when the caller supplies none.
pub const DEFAULT_MODE: u32 = 0o644;

/// Mask selecting the permission bits of a raw mode word.
pub const PERMISSION_MASK: u32 = 0o7777;

/// The mode a pipe is created with: the caller's choice, or the default.
pub fn effective_mode(mode: Option<u32>) -> (r: u32)
    ensures
        mode matches Some(m) ==> r == m,
        mode is None ==> r == DEFAULT_MODE,
{
    match mode {
        Some(m) => m,
        None => DEFAULT_MODE,
    }
}

/// The permission bits of a raw mode word, with the file-type tag stripped,
/// as a metadata query reports them.
pub fn permission_bits(mode: u32) -> (r: u32)
    ensures
        r == mode & PERMISSION_MASK,
{
    mode & PERMISSION_MASK
}

/// The permission bits a newly created file actually receives: the requested
/// mode with the process umask's bits cleared, as the OS applies it.
pub fn expected_permissions(requested: u32, umask: u32) -> (r: u32)
    ensures
        r == requested & !umask & PERMISSION_MASK,
{
    requested & !umask & PERMISSION_MASK
}

/// Outcome of a create call, from the creation primitive's status and, on
/// failure, the error code it left behind: success is reported exactly when
/// the primitive succeeded, and every failure surfaces as the code's place
/// in the taxonomy.
pub fn create_outcome(status: i32, code: i32, message: String) -> (r: Result<(), ErrorOutcome>)
    ensures
        status == 0 ==> r == Ok::<(), ErrorOutcome>(()),
        status != 0 ==> r == Err::<(), ErrorOutcome>(outcome_of(code, message)),
{
    if status == 0 {
        Ok(())
    } else {
        Err(classify_errno(code, message))
    }
}

/// Outcome of a failed open call, from the raw OS error code the host
/// reported, if any: a code is translated into the taxonomy (so an open of a
/// missing path surfaces as `NotFound`, propagated from the primitive, not
/// separately mapped), and a failure that carries no code surfaces as
/// `Other` with code zero.
pub fn open_failure_outcome(code: Option<i32>, message: String) -> (r: ErrorOutcome)
    ensures
        code matches Some(c) ==> r == outcome_of(c, message),
        code is None ==> r == ErrorOutcome::Other(0, message),
{
    match code {
        Some(c) => classify_errno(c, message),
        None => ErrorOutcome::Other(0, message),
    }
}

} // verus!
