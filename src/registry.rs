use vstd::prelude::*;
use crate::version::{parse_semver, semver_of, SemanticVersion};

verus! {

/// The registry's endpoint for a package's metadata, without the package name.
pub const REGISTRY_CRATES_URL: &'static str = "https://crates.io/api/v1/crates/";

/// Why the registry gave no latest version.
#[derive(Clone, Copy, Debug, PartialEq, Eq, Structural)]
pub enum FetchError {
    /// The registry has no package of that name.
    NoCrate,
    /// The request failed, timed out, or the answer could not be read.
    BadResponse,
    /// The package has no version that is neither a pre-release nor yanked.
    NoVersions,
}

impl FetchError {
    /// The message shown to users for this error.
    pub fn message(&self) -> (r: &'static str)
        ensures
            r@ == fetch_error_message(*self),
    {
        match self {
            FetchError::NoCrate => "No crate found",
            FetchError::BadResponse => "Bad response",
            FetchError::NoVersions => "Crate has no release versions",
        }
    }
}

pub open spec fn fetch_error_message(e: FetchError) -> Seq<char> {
    match e {
        FetchError::NoCrate => "No crate found"@,
        FetchError::BadResponse => "Bad response"@,
        FetchError::NoVersions => "Crate has no release versions"@,
    }
}

/// One published version of a package, as the registry lists it.
#[derive(Clone, Debug)]
pub struct VersionRecord {
    /// The version's text, such as `1.2.0` or `2.0.0-beta.1`.
    pub num: String,
    pub yanked: bool,
}

/// How a request for a package's metadata ended.
#[derive(Clone, Debug)]
pub enum RegistryReply {
    /// No HTTP answer came: the connection failed or timed out.
    Unreachable,
    /// An HTTP answer with its status; `versions` holds the version records
    /// where the body read as package metadata, and `None` where it did not.
    Response { status: u16, versions: Option<Vec<VersionRecord>> },
}

/// Every record's text is a semantic version.
pub open spec fn all_parse(recs: Seq<VersionRecord>) -> bool {
    forall|i: int| 0 <= i < recs.len() ==> (#[trigger] semver_of(recs[i].num@)) is Some
}

/// A record that may be chosen as the latest: a release that is not yanked.
pub open spec fn eligible(rec: VersionRecord) -> bool {
    &&& semver_of(rec.num@) is Some
    &&& !semver_of(rec.num@).unwrap().3
    &&& !rec.yanked
}

/// Record `i` is the first eligible one.
pub open spec fn first_eligible_at(recs: Seq<VersionRecord>, i: int) -> bool {
    &&& 0 <= i < recs.len()
    &&& eligible(recs[i])
    &&& forall|j: int| 0 <= j < i ==> !eligible(#[trigger] recs[j])
}

/// Picks the latest version from the records in the order the registry
/// listed them: the first that is neither a pre-release nor yanked. A record
/// whose text is no semantic version makes the whole list unreadable.
pub fn latest_release(recs: &[VersionRecord]) -> (r: Result<SemanticVersion, FetchError>)
    ensures
        latest_release_result(recs@, r),
{
    let mut parsed: Vec<SemanticVersion> = Vec::new();
    let mut i: usize = 0;
    while i < recs.len()
        invariant
            i <= recs@.len(),
            parsed@.len() == i,
            forall|j: int| 0 <= j < i ==> semver_of(#[trigger] recs@[j].num@) == Some(parsed@[j].model()),
        decreases recs@.len() - i,
    {
        match parse_semver(recs[i].num.as_str()) {
            Some(v) => parsed.push(v),
            None => {
                return Err(FetchError::BadResponse);
            },
        }
        i = i + 1;
    }
    assert(all_parse(recs@));
    let mut k: usize = 0;
    while k < recs.len()
        invariant
            k <= recs@.len(),
            parsed@.len() == recs@.len(),
            all_parse(recs@),
            forall|j: int| 0 <= j < recs@.len() ==> semver_of(#[trigger] recs@[j].num@) == Some(parsed@[j].model()),
            forall|j: int| 0 <= j < k ==> !eligible(#[trigger] recs@[j]),
        decreases recs@.len() - k,
    {
        if !parsed[k].prerelease && !recs[k].yanked {
            assert(first_eligible_at(recs@, k as int));
            return Ok(parsed[k]);
        }
        k = k + 1;
    }
    Err(FetchError::NoVersions)
}

/// The latest version of a package, from how its metadata request ended: a
/// 404 means no such package, any other status outside 2xx, no answer, or an
/// unreadable body is a bad response, and otherwise the records decide.
pub fn get_latest_version(reply: &RegistryReply) -> (r: Result<SemanticVersion, FetchError>)
    ensures
        match reply {
            RegistryReply::Unreachable => r == Err::<SemanticVersion, FetchError>(FetchError::BadResponse),
            RegistryReply::Response { status, versions } =>
                if *status == 404 {
                    r == Err::<SemanticVersion, FetchError>(FetchError::NoCrate)
                } else if *status < 200 || *status > 299 {
                    r == Err::<SemanticVersion, FetchError>(FetchError::BadResponse)
                } else {
                    match versions {
                        None => r == Err::<SemanticVersion, FetchError>(FetchError::BadResponse),
                        Some(recs) => latest_release_result(recs@, r),
                    }
                },
        },
{
    match reply {
        RegistryReply::Unreachable => Err(FetchError::BadResponse),
        RegistryReply::Response { status, versions } => {
            if *status == 404 {
                Err(FetchError::NoCrate)
            } else if *status < 200 || *status > 299 {
                Err(FetchError::BadResponse)
            } else {
                match versions {
                    None => Err(FetchError::BadResponse),
                    Some(recs) => latest_release(recs.as_slice()),
                }
            }
        },
    }
}

/// What `latest_release` promises of its result on `recs`.
pub open spec fn latest_release_result(recs: Seq<VersionRecord>, r: Result<SemanticVersion, FetchError>) -> bool {
    &&& r == Err::<SemanticVersion, FetchError>(FetchError::BadResponse) <==> !all_parse(recs)
    &&& r == Err::<SemanticVersion, FetchError>(FetchError::NoVersions) <==> all_parse(recs)
        && forall|i: int| 0 <= i < recs.len() ==> !eligible(#[trigger] recs[i])
    &&& r matches Ok(v) ==> !v.prerelease && exists|i: int|
        first_eligible_at(recs, i) && semver_of(#[trigger] recs[i].num@) == Some(v.model())
    &&& r is Err ==> r != Err::<SemanticVersion, FetchError>(FetchError::NoCrate)
}

/// The address of a package's metadata on the registry.
pub fn registry_url(crate_name: &str) -> (r: String)
    ensures
        r@ == REGISTRY_CRATES_URL@ + crate_name@,
{
    let mut url = String::from_str(REGISTRY_CRATES_URL);
    url.append(crate_name);
    url
}

} // verus!
