//! Reading the Go compiler's version report and deciding whether it is
//! recent enough.
use vstd::prelude::*;

verus! {

/// The major version that the build needs.
pub const REQUIRED_MAJOR: u32 = 1;
/// The lowest minor version that the build accepts.
pub const MINIMUM_MINOR: u32 = 25;
/// A `go<major>.<minor>.<patch>` token.
pub const GO_VERSION_PATTERN: &'static str = "go(\\d+)\\.(\\d+)\\.(\\d+)";

#[verifier::external_type_specification]
#[verifier::external_body]
pub struct ExRegexError(regex::Error);

/// What the regex crate finds for `pattern` in `text`: the groups of the
/// leftmost-first match, group 1 onwards (`None` for a group that took no
/// part), or `None` where nothing matches.
pub uninterp spec fn regex_groups(pattern: Seq<char>, text: Seq<char>) -> Option<Seq<Option<Seq<char>>>>;

pub open spec fn group_views(g: Seq<Option<String>>) -> Seq<Option<Seq<char>>> {
    g.map_values(|o: Option<String>| match o {
        Some(s) => Some(s@),
        None => None,
    })
}

/// Relies on `regex::Regex::new` to compile `pattern` (its error is handed
/// back; the version pattern compiles) and on `regex::Regex::captures` for
/// the groups of the first match.
#[verifier::external_body]
fn first_match_groups(pattern: &str, text: &str) -> (r: Result<Option<Vec<Option<String>>>, regex::Error>)
    ensures
        r matches Ok(found) ==> match found {
            Some(g) => regex_groups(pattern@, text@) == Some(group_views(g@)),
            None => regex_groups(pattern@, text@) is None,
        },
        pattern@ == GO_VERSION_PATTERN@ ==> r is Ok,
{
    let re = regex::Regex::new(pattern)?;
    Ok(re.captures(text).map(|c| c.iter().skip(1).map(|m| m.map(|m| m.as_str().to_string())).collect()))
}

/// A compiler version.
#[derive(Clone, Copy, PartialEq, Eq, Debug, Structural)]
pub struct GoVersion {
    pub major: u32,
    pub minor: u32,
    pub patch: u32,
}

/// Why the compiler's version was not accepted.
#[derive(Debug)]
pub enum VersionError {
    /// The version probe exited with failure; its error output.
    ProbeFailed(String),
    /// The report holds no readable version token; the report.
    Unparsable(String),
    /// The version token names a version that is too old or too new.
    Unsupported(GoVersion),
}

pub open spec fn is_supported(v: GoVersion) -> bool {
    v.major == REQUIRED_MAJOR && v.minor >= MINIMUM_MINOR
}

pub open spec fn is_ascii_digit(c: char) -> bool {
    '0' <= c && c <= '9'
}

pub open spec fn all_digits(s: Seq<char>) -> bool {
    forall|k: int| 0 <= k < s.len() ==> is_ascii_digit(#[trigger] s[k])
}

/// The number that a string of decimal digits writes.
pub open spec fn decimal_value(s: Seq<char>) -> int
    decreases s.len(),
{
    if s.len() == 0 {
        0
    } else {
        decimal_value(s.drop_last()) * 10 + (s.last() as int - '0' as int)
    }
}

/// The `u32` that `s` writes in decimal, when it is one.
pub open spec fn decimal_u32(s: Seq<char>) -> Option<u32> {
    if s.len() > 0 && all_digits(s) && decimal_value(s) <= u32::MAX {
        Some(decimal_value(s) as u32)
    } else {
        None
    }
}

/// The version that three groups write, when each is a decimal `u32`.
pub open spec fn version_of_groups(g: Seq<Option<Seq<char>>>) -> Option<GoVersion> {
    if g.len() == 3 && g[0] is Some && g[1] is Some && g[2] is Some
        && decimal_u32(g[0]->0) is Some && decimal_u32(g[1]->0) is Some
        && decimal_u32(g[2]->0) is Some {
        Some(GoVersion {
            major: decimal_u32(g[0]->0)->0,
            minor: decimal_u32(g[1]->0)->0,
            patch: decimal_u32(g[2]->0)->0,
        })
    } else {
        None
    }
}

proof fn lemma_decimal_value_nonneg(s: Seq<char>)
    requires
        all_digits(s),
    ensures
        decimal_value(s) >= 0,
    decreases s.len(),
{
    if s.len() > 0 {
        lemma_decimal_value_nonneg(s.drop_last());
    }
}

/// Reads `s` as a decimal `u32`.
pub fn parse_decimal_u32(s: &str) -> (r: Option<u32>)
    ensures
        r == decimal_u32(s@),
{
    let n = s.unicode_len();
    if n == 0 {
        return None;
    }
    let mut acc: u64 = 0;
    let mut too_big = false;
    let mut i: usize = 0;
    while i < n
        invariant
            n == s@.len(),
            i <= n,
            all_digits(s@.take(i as int)),
            !too_big ==> acc == decimal_value(s@.take(i as int)) && acc <= u32::MAX,
            too_big ==> decimal_value(s@.take(i as int)) > u32::MAX,
        decreases n - i,
    {
        let c = s.get_char(i);
        assert(s@.take(i + 1).drop_last() =~= s@.take(i as int));
        assert(s@.take(i + 1).last() == c);
        if c < '0' || c > '9' {
            assert(!all_digits(s@)) by {
                assert(s@[i as int] == c);
            }
            return None;
        }
        assert(all_digits(s@.take(i + 1))) by {
            assert forall|k: int| 0 <= k < i + 1 implies is_ascii_digit(#[trigger] s@.take(i + 1)[k]) by {
                if k < i {
                    assert(s@.take(i + 1)[k] == s@.take(i as int)[k]);
                }
            }
        }
        let d = (c as u32 - '0' as u32) as u64;
        if !too_big {
            let next = acc * 10 + d;
            if next > u32::MAX as u64 {
                too_big = true;
            } else {
                acc = next;
            }
        } else {
            proof {
                lemma_decimal_value_nonneg(s@.take(i as int));
            }
        }
        i = i + 1;
    }
    assert(s@.take(n as int) =~= s@);
    if too_big {
        None
    } else {
        Some(acc as u32)
    }
}

/// Accepts a version whose major number is the required one and whose minor
/// number is at least the minimum.
pub fn check_version(v: GoVersion) -> (r: Result<GoVersion, VersionError>)
    ensures
        is_supported(v) ==> r == Ok::<GoVersion, VersionError>(v),
        !is_supported(v) ==> (r matches Err(VersionError::Unsupported(w)) && w == v),
{
    if v.major == REQUIRED_MAJOR && v.minor >= MINIMUM_MINOR {
        Ok(v)
    } else {
        Err(VersionError::Unsupported(v))
    }
}

fn group_number(groups: &Vec<Option<String>>, k: usize) -> (r: Option<u32>)
    requires
        k < groups@.len(),
    ensures
        r == (match groups@[k as int] {
            Some(s) => decimal_u32(s@),
            None => None,
        }),
{
    match &groups[k] {
        Some(s) => parse_decimal_u32(s.as_str()),
        None => None,
    }
}

/// Reads a version from the groups of a version token, when one was found,
/// and checks it; `report` is the text that was searched.
pub fn version_from_groups(found: Option<Vec<Option<String>>>, report: &str) -> (r: Result<GoVersion, VersionError>)
    ensures
        match found {
            Some(g) => match version_of_groups(group_views(g@)) {
                Some(v) => if is_supported(v) {
                    r == Ok::<GoVersion, VersionError>(v)
                } else {
                    r matches Err(VersionError::Unsupported(w)) && w == v
                },
                None => r matches Err(VersionError::Unparsable(t)) && t@ == report@,
            },
            None => r matches Err(VersionError::Unparsable(t)) && t@ == report@,
        },
{
    let unparsable = VersionError::Unparsable(report.to_owned());
    match found {
        Some(groups) => {
            let ghost gv = group_views(groups@);
            if groups.len() != 3 {
                return Err(unparsable);
            }
            let major = group_number(&groups, 0);
            let minor = group_number(&groups, 1);
            let patch = group_number(&groups, 2);
            assert(gv[0] == (match groups@[0] { Some(s) => Some(s@), None => None }));
            assert(gv[1] == (match groups@[1] { Some(s) => Some(s@), None => None }));
            assert(gv[2] == (match groups@[2] { Some(s) => Some(s@), None => None }));
            match (major, minor, patch) {
                (Some(major), Some(minor), Some(patch)) => {
                    check_version(GoVersion { major, minor, patch })
                },
                _ => Err(unparsable),
            }
        },
        None => Err(unparsable),
    }
}

/// Decides on the output of the compiler's version probe: the probe must
/// have succeeded, its report must hold a version token, and that version
/// must be supported.
pub fn check_go_version(probe_succeeded: bool, report: &str, error_output: &str) -> (r: Result<GoVersion, VersionError>)
    ensures
        !probe_succeeded ==> (r matches Err(VersionError::ProbeFailed(t)) && t@ == error_output@),
        probe_succeeded ==> match regex_groups(GO_VERSION_PATTERN@, report@) {
            Some(g) => match version_of_groups(g) {
                Some(v) => if is_supported(v) {
                    r == Ok::<GoVersion, VersionError>(v)
                } else {
                    r matches Err(VersionError::Unsupported(w)) && w == v
                },
                None => r matches Err(VersionError::Unparsable(t)) && t@ == report@,
            },
            None => r matches Err(VersionError::Unparsable(t)) && t@ == report@,
        },
{
    if !probe_succeeded {
        return Err(VersionError::ProbeFailed(error_output.to_owned()));
    }
    match first_match_groups(GO_VERSION_PATTERN, report) {
        Ok(found) => version_from_groups(found, report),
        Err(_) => Err(VersionError::Unparsable(report.to_owned())),
    }
}

} // verus!
