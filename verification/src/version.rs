//! The daemon version check: the daemon reports its semantic version in a
//! response header, and tunnel creation is refused unless that version is at
//! least the minimum this client supports.

use vstd::prelude::*;

verus! {

/// Major component of the lowest daemon version this client supports.
pub const SERVER_MIN_MAJOR: u64 = 0;

/// Minor component of the lowest daemon version this client supports.
pub const SERVER_MIN_MINOR: u64 = 6;

/// Patch component of the lowest daemon version this client supports.
pub const SERVER_MIN_PATCH: u64 = 0;

/// A parsed semantic version, reduced to what the comparison reads: the
/// three numeric components and whether a pre-release segment is present.
/// Ordered before the bare `major.minor.patch` when a pre-release is present.
pub open spec fn meets_minimum(v: (u64, u64, u64, bool)) -> bool {
    ||| v.0 > SERVER_MIN_MAJOR
    ||| (v.0 == SERVER_MIN_MAJOR && v.1 > SERVER_MIN_MINOR)
    ||| (v.0 == SERVER_MIN_MAJOR && v.1 == SERVER_MIN_MINOR && v.2 > SERVER_MIN_PATCH)
    ||| (v.0 == SERVER_MIN_MAJOR && v.1 == SERVER_MIN_MINOR && v.2 == SERVER_MIN_PATCH && !v.3)
}

/// Whether the version string `s` parses and meets the minimum.
pub open spec fn version_supported(s: Seq<char>) -> bool {
    match parsed_version(s) {
        Some(v) => meets_minimum(v),
        None => false,
    }
}

/// The daemon's version header is acceptable: it is present, parses as a
/// semantic version, and meets the minimum.
pub open spec fn header_supported(h: Option<String>) -> bool {
    match h {
        Some(s) => version_supported(s@),
        None => false,
    }
}

pub uninterp spec fn parsed_version(s: Seq<char>) -> Option<(u64, u64, u64, bool)>;

/// Relies on `semver::Version::parse` for the semantic-version grammar and on
/// `semver::Prerelease::is_empty` for the presence of a pre-release segment:
/// both are functions of the input text alone. Returns `None` where the text
/// is not a valid semantic version.
#[verifier::external_body]
pub(crate) fn parse_version(s: &str) -> (r: Option<(u64, u64, u64, bool)>)
    ensures
        r == parsed_version(s@),
{
    match semver::Version::parse(s) {
        Ok(v) => Some((v.major, v.minor, v.patch, !v.pre.is_empty())),
        Err(_) => None,
    }
}

/// Whether the daemon's version header is acceptable: present, a valid
/// semantic version, and at least the minimum supported version.
pub fn check_server_version(header: &Option<String>) -> (r: bool)
    ensures
        r == header_supported(*header),
{
    match header {
        Some(s) => match parse_version(s.as_str()) {
            Some(v) => version_meets_minimum(v),
            None => false,
        },
        None => false,
    }
}

/// Whether `v` is at least the minimum supported daemon version. A version
/// whose numeric components equal the minimum but which carries a
/// pre-release segment precedes the minimum and is rejected.
pub fn version_meets_minimum(v: (u64, u64, u64, bool)) -> (r: bool)
    ensures
        r == meets_minimum(v),
{
    let (major, minor, patch, has_pre) = v;
    if major != SERVER_MIN_MAJOR {
        major > SERVER_MIN_MAJOR
    } else if minor != SERVER_MIN_MINOR {
        minor > SERVER_MIN_MINOR
    } else if patch != SERVER_MIN_PATCH {
        patch > SERVER_MIN_PATCH
    } else {
        !has_pre
    }
}

} // verus!
