//! Version compatibility: the host's declared version is compared against
//! the version this transformer was built against, with tilde-range
//! semantics; a mismatch is advisory only, an unparseable version fatal.

use vstd::prelude::*;

verus! {

/// The parts of a semantic version that the compatibility rule reads:
/// the numeric triple and the pre-release component (empty when none).
pub struct VersionCore {
    pub major: u64,
    pub minor: u64,
    pub patch: u64,
    pub pre: String,
}

/// The model of a parsed version.
#[verifier::ext_equal]
pub struct VersionCoreV {
    pub major: u64,
    pub minor: u64,
    pub patch: u64,
    pub pre: Seq<char>,
}

impl View for VersionCore {
    type V = VersionCoreV;

    open spec fn view(&self) -> VersionCoreV {
        VersionCoreV {
            major: self.major,
            minor: self.minor,
            patch: self.patch,
            pre: self.pre@,
        }
    }
}

/// What parsing a version string yields: `None` exactly when the string is
/// not a well-formed semantic version.
pub uninterp spec fn sem_version_of(text: Seq<char>) -> Option<VersionCoreV>;

/// Why the version comparison could not be made at all.
#[derive(Debug, Clone, Copy, PartialEq, Eq, Structural)]
pub enum VersionError {
    /// The host's declared version string does not parse.
    HostUnparseable,
    /// The version this transformer was built against does not parse.
    BuiltUnparseable,
}

/// Relies on semver::Version::parse: whether a string is a well-formed
/// semantic version, and its parts, depend on the string alone; the numeric
/// triple and pre-release component are carried over field for field.
#[verifier::external_body]
fn parse_version(text: &str) -> (r: Option<VersionCore>)
    ensures
        match r {
            Some(v) => sem_version_of(text@) == Some(v@),
            None => sem_version_of(text@) is None,
        },
{
    match semver::Version::parse(text) {
        Ok(v) => Some(
            VersionCore {
                major: v.major,
                minor: v.minor,
                patch: v.patch,
                pre: v.pre.as_str().to_owned(),
            },
        ),
        Err(_) => None,
    }
}

/// Tilde-range matching of a host version against `~built`, as semver
/// evaluates such a requirement: the same major and minor numbers, at
/// least the built patch number, and no pre-release part on the host (a
/// version without one compares above any that has one). Stated
/// assumption: when host and built both carry a pre-release part on the
/// same triple, semver would order the two pre-release parts; this rule
/// leaves that ordering out and treats such a host as not matching, so
/// the check may warn where semver would not. Equal version strings never
/// reach this rule and never warn.
pub open spec fn tilde_matches(built: VersionCoreV, host: VersionCoreV) -> bool {
    &&& host.pre.len() == 0
    &&& host.major == built.major
    &&& host.minor == built.minor
    &&& host.patch >= built.patch
}

/// Decide whether a compatibility warning is owed: never when the two
/// strings are equal, never when the host version tilde-matches the built
/// one; an unparseable string on either side is fatal, and says which side.
pub fn version_warning(host: &str, built: &str) -> (r: Result<bool, VersionError>)
    ensures
        r matches Ok(warn) ==> {
            &&& sem_version_of(host@) matches Some(h)
            &&& sem_version_of(built@) matches Some(b)
            &&& warn == !(host@ == built@ || tilde_matches(b, h))
        },
        r is Err <==> (sem_version_of(host@) is None || sem_version_of(built@) is None),
        r matches Err(e) ==> e == (if sem_version_of(host@) is None {
            VersionError::HostUnparseable
        } else {
            VersionError::BuiltUnparseable
        }),
{
    let host_version = match parse_version(host) {
        Some(v) => v,
        None => {
            return Err(VersionError::HostUnparseable);
        },
    };
    let built_version = match parse_version(built) {
        Some(v) => v,
        None => {
            return Err(VersionError::BuiltUnparseable);
        },
    };
    let same: bool = host.to_owned() == built.to_owned();
    let matches_range = host_version.pre.as_str().is_empty()
        && host_version.major == built_version.major && host_version.minor
        == built_version.minor && host_version.patch >= built_version.patch;
    Ok(!(same || matches_range))
}

} // verus!
