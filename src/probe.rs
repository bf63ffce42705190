use vstd::prelude::*;
use vstd::utf8::{decode_utf8, valid_utf8};
use crate::version::{parse_semver, semver_of, SemanticVersion};

verus! {

/// The shape of a version number in a tool's `--version` output.
pub const VERSION_PATTERN: &'static str = "\\d+\\.\\d+\\.\\d+";

/// Whether `regex::Regex::new` accepts a pattern.
pub uninterp spec fn pattern_compiles(pattern: Seq<char>) -> bool;

/// The text of the leftmost-first match of a pattern in a haystack, as
/// `regex::Regex::find` reports it.
pub uninterp spec fn leftmost_match(pattern: Seq<char>, haystack: Seq<char>) -> Option<Seq<char>>;

/// Relies on `regex::Regex::new`, which compiles the pattern or reports it
/// invalid, and on `Regex::find`, which gives the leftmost-first match.
#[verifier::external_body]
fn find_pattern(pattern: &str, haystack: &str) -> (r: Option<Option<String>>)
    ensures
        r is Some <==> pattern_compiles(pattern@),
        r matches Some(m) ==> m.deep_view() == leftmost_match(pattern@, haystack@),
{
    match regex::Regex::new(pattern) {
        Ok(re) => Some(re.find(haystack).map(|m| m.as_str().to_string())),
        Err(_) => None,
    }
}

/// Relies on `String::from_utf8`: it succeeds exactly on valid UTF-8 and then
/// holds the decoded characters.
#[verifier::external_body]
fn decode(bytes: Vec<u8>) -> (r: Option<String>)
    ensures
        r is Some <==> valid_utf8(bytes@),
        r matches Some(s) ==> s@ == decode_utf8(bytes@),
{
    String::from_utf8(bytes).ok()
}

/// `k` is the position of the first line feed in `s`.
pub open spec fn first_newline_at(s: Seq<char>, k: int) -> bool {
    &&& 0 <= k < s.len()
    &&& s[k] == '\n'
    &&& forall|j: int| 0 <= j < k ==> s[j] != '\n'
}

/// The first line of a text as `str::lines` gives it: the characters before
/// the first line feed, without a carriage return just before it, or the
/// whole text where it holds no line feed; an empty text has no line.
pub open spec fn first_line(s: Seq<char>) -> Option<Seq<char>> {
    if s.len() == 0 {
        None
    } else if exists|k: int| first_newline_at(s, k) {
        let k = choose|k: int| first_newline_at(s, k);
        let line = s.subrange(0, k);
        if line.len() > 0 && line.last() == '\r' {
            Some(line.drop_last())
        } else {
            Some(line)
        }
    } else {
        Some(s)
    }
}

/// The first line of a tool's output; `None` where the output is empty.
pub fn first_line_of(s: &str) -> (r: Option<String>)
    ensures
        r.deep_view() == first_line(s@),
{
    let n = s.unicode_len();
    if n == 0 {
        return None;
    }
    let mut k: usize = 0;
    let mut at_newline = false;
    while k < n && !at_newline
        invariant
            n == s@.len(),
            k <= n,
            at_newline ==> k < n && s@[k as int] == '\n',
            forall|j: int| 0 <= j < k ==> s@[j] != '\n',
        decreases n - k + if at_newline { 0int } else { 1int },
    {
        if s.get_char(k) == '\n' {
            at_newline = true;
        } else {
            k = k + 1;
        }
    }
    if k < n {
        assert(first_newline_at(s@, k as int));
        proof {
            let c = choose|c: int| first_newline_at(s@, c);
            assert(c == k) by {
                if c < k {
                    assert(s@[c] != '\n');
                } else if c > k {
                    assert(s@[k as int] != '\n');
                }
            }
        }
    } else {
        assert(!exists|c: int| first_newline_at(s@, c));
    }
    let mut end = k;
    if k < n && k > 0 && s.get_char(k - 1) == '\r' {
        end = k - 1;
    }
    let line = s.substring_char(0, end);
    assert(k < n && k > 0 && s@[k - 1] == '\r' ==> line@ =~= s@.subrange(0, k as int).drop_last());
    assert(k == n ==> line@ =~= s@);
    Some(String::from_str(line))
}

/// The text in which the version number is searched: the first line of the
/// output, where the output is UTF-8 and has a line.
pub open spec fn version_line(output: Seq<u8>) -> Option<Seq<char>> {
    if valid_utf8(output) {
        first_line(decode_utf8(output))
    } else {
        None
    }
}

/// The version-shaped text in a line, if the pattern finds one.
pub open spec fn version_text(line: Seq<char>) -> Option<Seq<char>> {
    if pattern_compiles(VERSION_PATTERN@) {
        leftmost_match(VERSION_PATTERN@, line)
    } else {
        None
    }
}

/// Why no installed version could be read from a tool.
#[derive(Clone, Debug)]
pub enum ProbeError {
    /// The tool could not be run.
    NotFound,
    /// The tool ran but its output held no readable version; the text that
    /// failed is kept where there was one.
    VersionBroken(Option<String>),
}

/// The bytes of an output, where there is one.
pub open spec fn bytes_view(output: Option<Vec<u8>>) -> Option<Seq<u8>> {
    match output {
        None => None,
        Some(b) => Some(b@),
    }
}

/// What `installed_version` returns for a tool's output.
pub open spec fn installed_version_result(
    output: Option<Seq<u8>>,
    r: Result<SemanticVersion, ProbeError>,
) -> bool {
    match output {
        None => r == Err::<SemanticVersion, ProbeError>(ProbeError::NotFound),
        Some(bytes) => match version_line(bytes) {
            None => r == Err::<SemanticVersion, ProbeError>(ProbeError::VersionBroken(None)),
            Some(line) => match version_text(line) {
                None => r matches Err(ProbeError::VersionBroken(Some(raw))) && raw@ == line,
                Some(text) => match semver_of(text) {
                    None => r matches Err(ProbeError::VersionBroken(Some(raw))) && raw@ == text,
                    Some(v) => r matches Ok(x) && x.model() == v,
                },
            },
        },
    }
}

/// The installed version of a tool, from the standard output of
/// `<cli> --version`, or `None` where the tool could not be run: the first
/// dotted triple of numbers on the first line of output.
pub fn installed_version(output: Option<Vec<u8>>) -> (r: Result<SemanticVersion, ProbeError>)
    ensures
        installed_version_result(bytes_view(output), r),
{
    let bytes = match output {
        None => {
            return Err(ProbeError::NotFound);
        },
        Some(b) => b,
    };
    let text = match decode(bytes) {
        None => {
            return Err(ProbeError::VersionBroken(None));
        },
        Some(t) => t,
    };
    let line = match first_line_of(text.as_str()) {
        None => {
            return Err(ProbeError::VersionBroken(None));
        },
        Some(l) => l,
    };
    let found = match find_pattern(VERSION_PATTERN, line.as_str()) {
        Some(Some(m)) => m,
        _ => {
            return Err(ProbeError::VersionBroken(Some(line)));
        },
    };
    match parse_semver(found.as_str()) {
        Some(v) => Ok(v),
        None => Err(ProbeError::VersionBroken(Some(found))),
    }
}

} // verus!
