//! The URL heuristic: does a string have the shape of a network locator?
//!
//! The rules are tried in a fixed order and the first that applies decides.
//! Three of them look only at how the string begins; the last asks a URL
//! parser for the host and judges its shape.

use crate::text::{
    contains_char, contains_seq, has_first_char, has_infix, has_last_char, has_prefix,
    ends_with_char, starts_with, starts_with_char, to_chars,
};
use vstd::prelude::*;
use vstd::string::StringExecFns;

verus! {

/// What the URL parser made of an input, as far as the heuristic reads it.
#[derive(Debug, Clone, PartialEq, Eq)]
pub enum UrlParse {
    /// The input is not an absolute URL.
    Rejected,
    /// The input is a URL without a host.
    Hostless,
    /// The input is a URL with this host, as the parser writes it.
    Hosted(String),
}

/// The mathematical value of a [`UrlParse`].
pub enum ParseOutcome {
    Rejected,
    Hostless,
    Hosted(Seq<char>),
}

impl View for UrlParse {
    type V = ParseOutcome;

    open spec fn view(&self) -> ParseOutcome {
        match self {
            UrlParse::Rejected => ParseOutcome::Rejected,
            UrlParse::Hostless => ParseOutcome::Hostless,
            UrlParse::Hosted(host) => ParseOutcome::Hosted(host@),
        }
    }
}

/// What `url::Url::parse` makes of `input`: rejected, or accepted with the
/// host that `Url::host_str` reports for the parsed value.
pub uninterp spec fn url_parse_outcome(input: Seq<char>) -> ParseOutcome;

/// Calls `url::Url::parse` on `input` and reads the host of the result with
/// `Url::host_str`. The parser is a function of its input alone; the
/// contract names its answer and claims nothing about what it is.
#[verifier::external_body]
fn parse_url(input: &str) -> (r: UrlParse)
    ensures
        r@ == url_parse_outcome(input@),
{
    match url::Url::parse(input) {
        Ok(parsed) => match parsed.host_str() {
            Some(host) => UrlParse::Hosted(host.to_string()),
            None => UrlParse::Hostless,
        },
        Err(_) => UrlParse::Rejected,
    }
}

/// The rule of the URL heuristic that decided, in order of precedence.
#[derive(Debug, Clone, Copy, PartialEq, Eq, Structural)]
pub enum UrlRule {
    /// The string begins with `http://` or `https://`.
    ExplicitScheme,
    /// The string begins with `www.`.
    WwwPrefix,
    /// The string begins with a dot, as hidden files do.
    LeadingDot,
    /// The string parses as a URL whose host is shaped like a domain.
    DomainHost,
    /// No rule applied.
    NoMatch,
}

impl UrlRule {
    /// The rules that classify a string as a URL.
    pub open spec fn accepts(self) -> bool {
        self is ExplicitScheme || self is WwwPrefix || self is DomainHost
    }

    /// Whether this rule classifies a string as a URL.
    pub fn verdict(&self) -> (r: bool)
        ensures
            r == self.accepts(),
    {
        match self {
            UrlRule::ExplicitScheme => true,
            UrlRule::WwwPrefix => true,
            UrlRule::LeadingDot => false,
            UrlRule::DomainHost => true,
            UrlRule::NoMatch => false,
        }
    }
}

/// A host is shaped like a domain when it has a dot, does not end in one,
/// and holds no backslash.
pub open spec fn domain_shaped(host: Seq<char>) -> bool {
    host.contains('.') && !ends_with_char(host, '.') && !host.contains('\\')
}

/// The parser accepted the input and found a host shaped like a domain.
pub open spec fn host_rule_applies(outcome: ParseOutcome) -> bool {
    outcome matches ParseOutcome::Hosted(host) && domain_shaped(host)
}

/// The text handed to the parser and to the transport: `s` itself when it
/// holds `://`, else `s` behind `https://`.
pub open spec fn normalized(s: Seq<char>) -> Seq<char> {
    if has_infix(s, "://"@) {
        s
    } else {
        "https://"@ + s
    }
}

/// The rule that decides for `s`, among those that read only its beginning.
pub open spec fn prefix_rule(s: Seq<char>) -> Option<UrlRule> {
    if starts_with(s, "http://"@) || starts_with(s, "https://"@) {
        Some(UrlRule::ExplicitScheme)
    } else if starts_with(s, "www."@) {
        Some(UrlRule::WwwPrefix)
    } else if starts_with_char(s, '.') {
        Some(UrlRule::LeadingDot)
    } else {
        None
    }
}

/// The rule that decides for `s`, given what the parser made of its
/// normalized form.
pub open spec fn url_rule(s: Seq<char>, outcome: ParseOutcome) -> UrlRule {
    match prefix_rule(s) {
        Some(rule) => rule,
        None => if host_rule_applies(outcome) {
            UrlRule::DomainHost
        } else {
            UrlRule::NoMatch
        },
    }
}

/// The URL heuristic as a function of the string alone.
pub open spec fn url_verdict(s: Seq<char>) -> bool {
    url_rule(s, url_parse_outcome(normalized(s))).accepts()
}

/// Whether `host` is shaped like a domain.
pub fn is_domain_shaped(host: &str) -> (r: bool)
    ensures
        r == domain_shaped(host@),
{
    let chars = to_chars(host);
    contains_char(chars.as_slice(), '.') && !has_last_char(chars.as_slice(), '.') && !contains_char(
        chars.as_slice(),
        '\\',
    )
}

/// Prepends `https://` to `s` unless it already holds `://`.
pub fn normalize_url(s: &str) -> (r: String)
    ensures
        r@ == normalized(s@),
{
    let chars = to_chars(s);
    let separator = to_chars("://");
    if contains_seq(chars.as_slice(), separator.as_slice()) {
        String::from_str(s)
    } else {
        String::from_str("https://").concat(s)
    }
}

/// Tries the rules that read only the beginning of `s`.
pub fn match_prefix_rule(s: &str) -> (r: Option<UrlRule>)
    ensures
        r == prefix_rule(s@),
{
    let chars = to_chars(s);
    let http = to_chars("http://");
    let https = to_chars("https://");
    let www = to_chars("www.");
    if has_prefix(chars.as_slice(), http.as_slice()) || has_prefix(
        chars.as_slice(),
        https.as_slice(),
    ) {
        Some(UrlRule::ExplicitScheme)
    } else if has_prefix(chars.as_slice(), www.as_slice()) {
        Some(UrlRule::WwwPrefix)
    } else if has_first_char(chars.as_slice(), '.') {
        Some(UrlRule::LeadingDot)
    } else {
        None
    }
}

/// Whether the parser's answer makes the host rule apply.
pub fn host_rule_matches(outcome: &UrlParse) -> (r: bool)
    ensures
        r == host_rule_applies(outcome@),
{
    match outcome {
        UrlParse::Hosted(host) => is_domain_shaped(host.as_str()),
        _ => false,
    }
}

/// Finds the rule that decides for `s`, given what the parser made of its
/// normalized form.
pub fn classify_url(s: &str, outcome: &UrlParse) -> (rule: UrlRule)
    ensures
        rule == url_rule(s@, outcome@),
{
    match match_prefix_rule(s) {
        Some(rule) => rule,
        None => if host_rule_matches(outcome) {
            UrlRule::DomainHost
        } else {
            UrlRule::NoMatch
        },
    }
}

/// Finds the rule of the URL heuristic that decides for `s`. The parser is
/// consulted only when no rule on the beginning of `s` applies.
pub fn url_rule_of(s: &str) -> (rule: UrlRule)
    ensures
        rule == url_rule(s@, url_parse_outcome(normalized(s@))),
{
    match match_prefix_rule(s) {
        Some(rule) => rule,
        None => {
            let candidate = normalize_url(s);
            let outcome = parse_url(candidate.as_str());
            classify_url(s, &outcome)
        },
    }
}

/// Whether `s` looks like a network locator.
///
/// True for every string that begins with `http://` or `https://`, whatever
/// follows; for the other strings the rules decide in their order.
pub fn looks_like_url(s: &str) -> (r: bool)
    ensures
        r == url_verdict(s@),
        starts_with(s@, "http://"@) || starts_with(s@, "https://"@) ==> r,
        starts_with_char(s@, '.') ==> !r,
{
    proof {
        if starts_with_char(s@, '.') {
            lemma_leading_dot_is_no_url(s@);
        }
    }
    url_rule_of(s).verdict()
}

/// Every string that begins with `http://` or `https://` is classified as
/// a URL, whatever follows the prefix and whatever the parser makes of it.
pub proof fn lemma_explicit_scheme_is_url(s: Seq<char>, outcome: ParseOutcome)
    requires
        starts_with(s, "http://"@) || starts_with(s, "https://"@),
    ensures
        url_rule(s, outcome) == UrlRule::ExplicitScheme,
        url_rule(s, outcome).accepts(),
        url_verdict(s),
{
}

/// A string that begins with a dot begins with none of `http://`,
/// `https://` and `www.`, so the leading-dot rule decides for it and it is
/// no URL.
pub proof fn lemma_leading_dot_is_no_url(s: Seq<char>)
    requires
        starts_with_char(s, '.'),
    ensures
        prefix_rule(s) == Some(UrlRule::LeadingDot),
        !url_verdict(s),
{
    reveal_strlit("http://");
    reveal_strlit("https://");
    reveal_strlit("www.");
    if starts_with(s, "http://"@) {
        assert(s.subrange(0, 7)[0] == 'h');
    }
    if starts_with(s, "https://"@) {
        assert(s.subrange(0, 8)[0] == 'h');
    }
    if starts_with(s, "www."@) {
        assert(s.subrange(0, 4)[0] == 'w');
    }
}

} // verus!
