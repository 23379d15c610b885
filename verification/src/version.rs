//! Protocol versions: a runtime may only be paired with scaffolding of the
//! very same version.

use crate::text::same_text;
use vstd::prelude::*;
use vstd::string::*;
use vstd::utf8::*;

verus! {

/// The protocol version of this runtime.
pub const PACKAGE_VERSION: &'static str = "0.24.0";

/// A version token is accepted only when it is shorter than this many bytes.
pub const TOKEN_LIMIT: usize = 10;

/// Two tokens are compatible when they are the same text and short enough
/// to be accepted.
pub open spec fn compatible(package_version: Seq<char>, bindgen_version: Seq<char>) -> bool {
    package_version == bindgen_version && encode_utf8(package_version).len() < TOKEN_LIMIT
}

/// Whether a runtime with token `package_version` may be paired with a
/// generator with token `bindgen_version`.
pub fn versions_compatible(package_version: &str, bindgen_version: &str) -> (r: bool)
    ensures
        r == compatible(package_version@, bindgen_version@),
{
    package_version.as_bytes().len() < TOKEN_LIMIT && same_text(package_version, bindgen_version)
}

/// The version of this runtime is short enough to be accepted, so that it
/// is compatible with itself.
pub proof fn runtime_version_is_accepted()
    ensures
        compatible(PACKAGE_VERSION@, PACKAGE_VERSION@),
{
    reveal_strlit("0.24.0");
    is_ascii_chars_encode_utf8(PACKAGE_VERSION@);
}

/// Whether scaffolding generated at version `bindgen_version` may be built
/// against this runtime: only when the two versions are the same.
pub fn check_compatible_version(bindgen_version: &str) -> (r: bool)
    ensures
        r == (bindgen_version@ == PACKAGE_VERSION@),
{
    proof {
        reveal_strlit("0.24.0");
        is_ascii_chars_encode_utf8(PACKAGE_VERSION@);
    }
    versions_compatible(PACKAGE_VERSION, bindgen_version)
}

} // verus!
