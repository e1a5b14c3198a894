//! What the library takes on trust from the standard library and from the
//! `dirs` crate: two opaque types and the few calls made on them. Nothing in
//! this file is proved; each contract says what is believed of the call
//! beneath it.

use vstd::prelude::*;

verus! {

/// `std::path::PathBuf`, carried through as an opaque value.
#[verifier::external_type_specification]
#[verifier::external_body]
pub struct ExPathBuf(std::path::PathBuf);

/// `std::io::Error`, carried through as an opaque value.
#[verifier::external_type_specification]
#[verifier::external_body]
pub struct ExIoError(std::io::Error);

/// Whether `==` holds between two paths, as `PathBuf` defines it. It goes by
/// the components of a path, so `a//b` and `a/b` are the same path.
pub uninterp spec fn same_path(a: std::path::PathBuf, b: std::path::PathBuf) -> bool;

/// The path that `Path::join` makes of `base` and `part`: `part` adjoined
/// to `base`, or `part` alone where `part` is absolute.
pub uninterp spec fn joined_path(base: std::path::PathBuf, part: Seq<char>) -> std::path::PathBuf;

/// `==` on `PathBuf`. The result depends on the two paths alone; the
/// contract gives it its name and claims nothing else.
#[verifier::external_body]
pub(crate) fn paths_equal(a: &std::path::PathBuf, b: &std::path::PathBuf) -> (same: bool)
    ensures
        same == same_path(*a, *b),
{
    a == b
}

/// `Path::join`. The result depends on `base` and `part` alone; the contract
/// gives it its name and claims nothing else.
#[verifier::external_body]
pub(crate) fn join_path(base: &std::path::PathBuf, part: &str) -> (joined: std::path::PathBuf)
    ensures
        joined == joined_path(*base, part@),
{
    base.join(part)
}

/// `dirs::config_dir`: the user's configuration directory, or `None` where
/// the platform names none. It depends on the user's session and on no
/// argument, so nothing is claimed of the result.
#[verifier::external_body]
pub(crate) fn user_config_dir() -> Option<std::path::PathBuf> {
    dirs::config_dir()
}

} // verus!
