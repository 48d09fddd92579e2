//! The local-path heuristic: does a string have the shape of a filesystem
//! reference?
//!
//! Two questions are put to the platform's path handling: whether the string
//! is an absolute path, and what its final segment is. Both answers differ
//! between platforms, so the rules take them as inputs and are stated for
//! every answer. What the platforms agree on is stated too, and fixes the
//! verdict for most strings.

use crate::text::{
    contains_char, contains_seq, has_first_char, has_infix, has_prefix, starts_with,
    starts_with_char, to_chars,
};
use vstd::prelude::*;

verus! {

/// `s` begins with a slash or a backslash, or has a colon in second place.
pub open spec fn anchored(s: Seq<char>) -> bool {
    starts_with_char(s, '/') || starts_with_char(s, '\\') || has_drive_prefix(s)
}

/// `s` is a single name: it holds no slash, no backslash and no colon.
pub open spec fn bare_name(s: Seq<char>) -> bool {
    !has_separator(s) && !s.contains(':')
}

/// `s` is the one-character string `.`.
pub open spec fn is_current_dir(s: Seq<char>) -> bool {
    s.len() == 1 && s[0] == '.'
}

/// `s` is the two-character string `..`.
pub open spec fn is_parent_dir(s: Seq<char>) -> bool {
    s.len() == 2 && s[0] == '.' && s[1] == '.'
}

/// `s` is empty, `.` or `..`: a path, but the name of no file.
pub open spec fn names_no_file(s: Seq<char>) -> bool {
    s.len() == 0 || is_current_dir(s) || is_parent_dir(s)
}

/// Calls `std::path::Path::is_absolute` on `s` taken as a path.
///
/// std documents an absolute path as one that starts with the root on Unix,
/// and as one that has a prefix and then the root on Windows. On either, such
/// a string begins with a separator or has a drive's colon in second place.
/// The contract claims that and no more: which of those strings are
/// absolute is left to the platform.
#[verifier::external_body]
fn path_is_absolute(s: &str) -> (r: bool)
    ensures
        r ==> anchored(s@),
{
    std::path::Path::new(s).is_absolute()
}

/// Calls `std::path::Path::file_name` on `s` taken as a path and hands the
/// name back as text.
///
/// std documents the result as the final component of the path, if there is
/// one, and as none for a path that ends in `..`. The contract speaks only
/// of a string without separator and colon, which is one component at most:
/// a name that comes back is the whole string, none comes back for the
/// empty string and for `..`, and one does come back unless the string is
/// empty, `.` or `..`. For `.` it leaves open which of the two happens.
#[verifier::external_body]
fn path_file_name(s: &str) -> (r: Option<String>)
    ensures
        bare_name(s@) ==> match r {
            Some(name) => name@ == s@ && s@.len() > 0 && !is_parent_dir(s@),
            None => names_no_file(s@),
        },
{
    std::path::Path::new(s).file_name().and_then(|name| name.to_str()).map(|name| name.to_string())
}

/// The rule of the local-path heuristic that decided, in order of precedence.
#[derive(Debug, Clone, Copy, PartialEq, Eq, Structural)]
pub enum PathRule {
    /// The platform takes the string for an absolute path.
    Absolute,
    /// The string holds a separator and a colon in second place, as in `C:\`.
    DrivePrefix,
    /// The string holds a separator and no `://`.
    DirectoryStructure,
    /// The string is a bare file name with an extension.
    FileName,
    /// No rule applied.
    NoMatch,
}

impl PathRule {
    /// The rules that classify a string as a local path: all but `NoMatch`.
    pub open spec fn accepts(self) -> bool {
        !(self is NoMatch)
    }

    /// Whether this rule classifies a string as a local path.
    pub fn verdict(&self) -> (r: bool)
        ensures
            r == self.accepts(),
    {
        match self {
            PathRule::NoMatch => false,
            _ => true,
        }
    }
}

/// `s` holds a slash or a backslash.
pub open spec fn has_separator(s: Seq<char>) -> bool {
    s.contains('/') || s.contains('\\')
}

/// The second character of `s` is a colon.
pub open spec fn has_drive_prefix(s: Seq<char>) -> bool {
    s.len() >= 2 && s[1] == ':'
}

/// `s` may be a bare file name: it has a dot, no `://`, and does not begin
/// with `www.`.
pub open spec fn name_candidate(s: Seq<char>) -> bool {
    s.contains('.') && !has_infix(s, "://"@) && !starts_with(s, "www."@)
}

/// A final segment that reads as a name with an extension: it has a dot and
/// does not begin with one.
pub open spec fn extension_shaped(segment: Seq<char>) -> bool {
    segment.contains('.') && !starts_with_char(segment, '.')
}

/// One of the two separator rules applies to `s`. Where it does, the
/// heuristic accepts `s` whatever the platform answers.
pub open spec fn separator_rule_applies(s: Seq<char>) -> bool {
    has_separator(s) && (has_drive_prefix(s) || !has_infix(s, "://"@))
}

/// The rule that decides for `s`, given the platform's two answers: whether
/// `s` is absolute, and its final segment (empty where it has none).
pub open spec fn path_rule(s: Seq<char>, absolute: bool, segment: Seq<char>) -> PathRule {
    if absolute {
        PathRule::Absolute
    } else if has_separator(s) && has_drive_prefix(s) {
        PathRule::DrivePrefix
    } else if has_separator(s) && !has_infix(s, "://"@) {
        PathRule::DirectoryStructure
    } else if name_candidate(s) && extension_shaped(segment) {
        PathRule::FileName
    } else {
        PathRule::NoMatch
    }
}

/// The answers that a platform may give for `s`: it takes only an anchored
/// string for absolute, and for a single name it reports the whole string as
/// the final segment, or none where the string names no file.
pub open spec fn platform_may_answer(s: Seq<char>, absolute: bool, segment: Seq<char>) -> bool {
    &&& absolute ==> anchored(s)
    &&& bare_name(s) ==> ((segment == s && s.len() > 0 && !is_parent_dir(s)) || (segment.len()
        == 0 && names_no_file(s)))
}

/// The verdict of the heuristic on `s` where no answer of the platform can
/// change it:
/// - accepted, where a separator rule applies;
/// - for a single name, accepted exactly if it may be a file name and reads
///   as a name with an extension;
/// - refused, where `s` holds a separator and `://` and is not anchored.
///
/// For the strings that are left the platform decides: those with a colon
/// and no separator, and the anchored ones that hold `://`.
pub open spec fn portable_verdict(s: Seq<char>) -> Option<bool> {
    if separator_rule_applies(s) {
        Some(true)
    } else if bare_name(s) {
        Some(name_candidate(s) && extension_shaped(s))
    } else if has_separator(s) && !anchored(s) {
        Some(false)
    } else {
        None
    }
}

/// Under every answer that a platform may give, the rules reach the
/// portable verdict wherever there is one.
pub proof fn lemma_portable_verdict(s: Seq<char>, absolute: bool, segment: Seq<char>)
    requires
        platform_may_answer(s, absolute, segment),
    ensures
        portable_verdict(s) matches Some(verdict) ==> path_rule(s, absolute, segment).accepts()
            == verdict,
        bare_name(s) ==> path_rule(s, absolute, segment) == path_rule(s, false, s),
        has_separator(s) && !anchored(s) ==> path_rule(s, absolute, segment) == path_rule(
            s,
            false,
            s,
        ),
{
    if bare_name(s) {
        assert(!anchored(s)) by {
            if has_drive_prefix(s) {
                assert(s.contains(s[1]));
            }
            if starts_with_char(s, '/') || starts_with_char(s, '\\') {
                assert(s.contains(s[0]));
            }
        }
        if segment.len() == 0 && names_no_file(s) {
            assert(!extension_shaped(segment));
            assert(!extension_shaped(s)) by {
                if s.len() == 0 {
                    assert(!s.contains('.'));
                }
            }
        }
    }
}

/// Whether `s` holds a slash or a backslash.
pub fn contains_separator(s: &[char]) -> (r: bool)
    ensures
        r == has_separator(s@),
{
    contains_char(s, '/') || contains_char(s, '\\')
}

/// Whether the second character of `s` is a colon.
pub fn starts_with_drive(s: &[char]) -> (r: bool)
    ensures
        r == has_drive_prefix(s@),
{
    s.len() >= 2 && s[1] == ':'
}

/// Whether `segment` reads as a name with an extension.
pub fn is_extension_shaped(segment: &str) -> (r: bool)
    ensures
        r == extension_shaped(segment@),
{
    let chars = to_chars(segment);
    contains_char(chars.as_slice(), '.') && !has_first_char(chars.as_slice(), '.')
}

/// Finds the rule that decides for `s`, given the platform's two answers.
pub fn classify_path(s: &str, absolute: bool, segment: &str) -> (rule: PathRule)
    ensures
        rule == path_rule(s@, absolute, segment@),
{
    if absolute {
        return PathRule::Absolute;
    }
    let chars = to_chars(s);
    let scheme_separator = to_chars("://");
    let www = to_chars("www.");
    let separated = contains_separator(chars.as_slice());
    let schemed = contains_seq(chars.as_slice(), scheme_separator.as_slice());
    if separated && starts_with_drive(chars.as_slice()) {
        PathRule::DrivePrefix
    } else if separated && !schemed {
        PathRule::DirectoryStructure
    } else if contains_char(chars.as_slice(), '.') && !schemed && !has_prefix(
        chars.as_slice(),
        www.as_slice(),
    ) && is_extension_shaped(segment) {
        PathRule::FileName
    } else {
        PathRule::NoMatch
    }
}

/// Finds the rule of the local-path heuristic that decides for `s` on this
/// platform.
///
/// For a single name, and for a string with a separator that is not
/// anchored, the rule is the one found with no absolute path and the string
/// itself as its final segment.
pub fn path_rule_of(s: &str) -> (rule: PathRule)
    ensures
        exists|absolute: bool, segment: Seq<char>|
            platform_may_answer(s@, absolute, segment) && rule == path_rule(
                s@,
                absolute,
                segment,
            ),
        portable_verdict(s@) matches Some(verdict) ==> rule.accepts() == verdict,
        bare_name(s@) ==> rule == path_rule(s@, false, s@),
        has_separator(s@) && !anchored(s@) ==> rule == path_rule(s@, false, s@),
        has_separator(s@) && !anchored(s@) ==> rule.accepts() == separator_rule_applies(s@),
        separator_rule_applies(s@) ==> rule.accepts(),
{
    let absolute = path_is_absolute(s);
    let segment = match path_file_name(s) {
        Some(name) => name,
        None => String::new(),
    };
    let rule = classify_path(s, absolute, segment.as_str());
    proof {
        assert(platform_may_answer(s@, absolute, segment@));
        lemma_portable_verdict(s@, absolute, segment@);
    }
    rule
}

/// Whether `s` looks like a filesystem reference.
///
/// The verdict is fixed on every platform for a string to which a separator
/// rule applies (accepted), for a single name without a colon (accepted if
/// it has a dot, does not begin with one nor with `www.`), and for a string
/// with a separator and `://` that is not anchored (refused). For the other
/// strings the platform's notion of an absolute path and of a final segment
/// enter, and the answer is the one the rules give for them.
pub fn looks_like_local_path(s: &str) -> (r: bool)
    ensures
        exists|absolute: bool, segment: Seq<char>|
            platform_may_answer(s@, absolute, segment) && r == path_rule(
                s@,
                absolute,
                segment,
            ).accepts(),
        portable_verdict(s@) matches Some(verdict) ==> r == verdict,
        separator_rule_applies(s@) ==> r,
        bare_name(s@) ==> r == (name_candidate(s@) && extension_shaped(s@)),
        has_separator(s@) && !anchored(s@) ==> r == separator_rule_applies(s@),
{
    path_rule_of(s).verdict()
}

} // verus!
