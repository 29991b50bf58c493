//! Classification of a file's type tag: whether an open handle's underlying
//! file is a FIFO special file.

use vstd::prelude::*;
use crate::errors::ErrorOutcome;

verus! {

/// Bit mask selecting the file-type tag out of a raw mode word (`S_IFMT`).
pub const FILE_TYPE_MASK: u32 = 0o170000;

/// File-type tag of a FIFO special file (`S_IFIFO`).
pub const FIFO_TYPE: u32 = 0o010000;

/// Whether a raw mode word's file-type tag marks a FIFO.
pub open spec fn fifo_mode(mode: u32) -> bool {
    mode & FILE_TYPE_MASK == FIFO_TYPE
}

/// Relies on libc::S_IFMT, the mask of the file-type bits of a mode word:
/// 0o170000 on Linux.
#[verifier::external_body]
fn file_type_mask() -> (r: u32)
    ensures
        r == FILE_TYPE_MASK,
{
    libc::S_IFMT
}

/// Relies on libc::S_IFIFO, the file-type tag of a FIFO special file:
/// 0o010000 on Linux.
#[verifier::external_body]
fn fifo_type_tag() -> (r: u32)
    ensures
        r == FIFO_TYPE,
{
    libc::S_IFIFO
}

/// Whether the raw mode word's file-type tag marks a FIFO. A regular file,
/// directory or any other non-FIFO type yields `false`, never an error.
pub fn mode_is_fifo(mode: u32) -> (r: bool)
    ensures
        r == fifo_mode(mode),
{
    (mode & file_type_mask()) == fifo_type_tag()
}

/// A file's metadata as this library reads it: the raw mode word that a
/// metadata query reports for the open handle, type tag and permission bits
/// together.
pub struct FileStat {
    pub mode: u32,
}

/// Capability query over an open file's metadata: does the underlying file
/// carry the FIFO type tag?
pub trait FileFIFOExt {
    /// The raw mode word the query inspects.
    spec fn stat_mode(&self) -> u32;

    /// Reports whether the file's type tag is FIFO. Once the metadata is in
    /// hand the classification is pure and cannot fail.
    fn is_fifo(&self) -> (r: Result<bool, ErrorOutcome>)
        ensures
            r == Ok::<bool, ErrorOutcome>(fifo_mode(self.stat_mode())),
    ;
}

impl FileFIFOExt for FileStat {
    open spec fn stat_mode(&self) -> u32 {
        self.mode
    }

    fn is_fifo(&self) -> (r: Result<bool, ErrorOutcome>) {
        Ok(mode_is_fifo(self.mode))
    }
}

} // verus!
