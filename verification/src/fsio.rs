//! The loader's two touches of the file system, each behind a trusted
//! wrapper around an `fs_err` call.  What the disk answers is outside the
//! loader's control, so neither wrapper promises anything about its result;
//! every caller states what holds whatever came back.

use vstd::prelude::*;

verus! {

/// Relies on fs_err::metadata: it returns `Ok` exactly when the path can be
/// stat'ed, so the result reports whether `path` currently exists on disk.
#[verifier::external_body]
pub(crate) fn path_exists(path: &str) -> bool {
    fs_err::metadata(path).is_ok()
}

/// Relies on fs_err::copy: it copies the file at `from` to `to` and returns
/// `Ok` on success, so the result reports whether the copy happened.
#[verifier::external_body]
pub(crate) fn copy_file(from: &str, to: &str) -> bool {
    fs_err::copy(from, to).is_ok()
}

} // verus!
