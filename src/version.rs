use vstd::prelude::*;

verus! {

/// A semantic version as the upgrade logic reads it: the numeric triple and
/// whether a pre-release tag is present.
#[derive(Clone, Copy, Debug, PartialEq, Eq, Structural)]
pub struct SemanticVersion {
    pub major: u64,
    pub minor: u64,
    pub patch: u64,
    pub prerelease: bool,
}

impl SemanticVersion {
    /// The version as a plain tuple.
    pub open spec fn model(self) -> (u64, u64, u64, bool) {
        (self.major, self.minor, self.patch, self.prerelease)
    }

    /// Builds a version from its parts.
    pub fn new(major: u64, minor: u64, patch: u64, prerelease: bool) -> (r: SemanticVersion)
        ensures
            r.model() == (major, minor, patch, prerelease),
    {
        SemanticVersion { major, minor, patch, prerelease }
    }

    /// Precedence: `self` comes strictly before `other`.
    pub fn lt(&self, other: &SemanticVersion) -> (r: bool)
        ensures
            r == version_lt(*self, *other),
    {
        if self.major != other.major {
            self.major < other.major
        } else if self.minor != other.minor {
            self.minor < other.minor
        } else if self.patch != other.patch {
            self.patch < other.patch
        } else {
            self.prerelease && !other.prerelease
        }
    }
}

/// Lexicographic order on (major, minor, patch).
pub open spec fn triple_lt(a: SemanticVersion, b: SemanticVersion) -> bool {
    ||| a.major < b.major
    ||| a.major == b.major && a.minor < b.minor
    ||| a.major == b.major && a.minor == b.minor && a.patch < b.patch
}

/// Precedence of versions: the numeric triple decides, and a pre-release comes
/// before the release with the same triple.
pub open spec fn version_lt(a: SemanticVersion, b: SemanticVersion) -> bool {
    ||| triple_lt(a, b)
    ||| a.major == b.major && a.minor == b.minor && a.patch == b.patch && a.prerelease
        && !b.prerelease
}

/// Precedence is a strict total order that extends the order of the numeric
/// triples: no version precedes itself, precedence is transitive, of two
/// distinct versions one precedes the other, and a smaller triple always
/// precedes a larger one.
pub proof fn lemma_version_order(a: SemanticVersion, b: SemanticVersion, c: SemanticVersion)
    ensures
        !version_lt(a, a),
        version_lt(a, b) ==> !version_lt(b, a),
        version_lt(a, b) && version_lt(b, c) ==> version_lt(a, c),
        a != b ==> version_lt(a, b) || version_lt(b, a),
        triple_lt(a, b) ==> version_lt(a, b),
{
}

/// A pre-release comes strictly before the release of the same triple.
pub proof fn lemma_prerelease_before_release(a: SemanticVersion, b: SemanticVersion)
    requires
        a.major == b.major && a.minor == b.minor && a.patch == b.patch,
        a.prerelease,
        !b.prerelease,
    ensures
        version_lt(a, b),
        !version_lt(b, a),
{
}

/// What `semver::Version::parse` makes of a text: its numeric triple and
/// whether it carries a pre-release tag, or `None` where the text is no
/// semantic version.
pub uninterp spec fn semver_of(text: Seq<char>) -> Option<(u64, u64, u64, bool)>;

/// Relies on `semver::Version::parse`: the numeric components it reads, and
/// whether its pre-release part is non-empty; an error where the text is not a
/// semantic version.
#[verifier::external_body]
pub(crate) fn parse_semver(text: &str) -> (r: Option<SemanticVersion>)
    ensures
        r is None <==> semver_of(text@) is None,
        r matches Some(v) ==> semver_of(text@) == Some(v.model()),
{
    match semver::Version::parse(text) {
        Ok(v) => Some(
            SemanticVersion {
                major: v.major,
                minor: v.minor,
                patch: v.patch,
                prerelease: !v.pre.is_empty(),
            },
        ),
        Err(_) => None,
    }
}

} // verus!
