//! The source dispatcher: from the two heuristics to one way of retrieving
//! the image, and the check of what a remote host answered.

use crate::error::HashError;
use crate::local_path::{
    looks_like_local_path, path_rule, platform_may_answer, portable_verdict,
    separator_rule_applies,
};
use crate::locator::{looks_like_url, normalize_url, normalized, url_verdict};
use vstd::prelude::*;
use vstd::string::StringExecFns;

verus! {

/// How the image bytes are obtained.
#[derive(Debug, Clone, Copy, PartialEq, Eq, Structural)]
pub enum RetrievalMode {
    /// Fetched over the network.
    Remote,
    /// Opened on the filesystem.
    Local,
}

/// Remote only for a string that looks like a URL and not like a local
/// path; evidence for a local path always wins.
pub open spec fn mode_for(looks_url: bool, looks_local: bool) -> RetrievalMode {
    if looks_url && !looks_local {
        RetrievalMode::Remote
    } else {
        RetrievalMode::Local
    }
}

/// What is fetched or opened under a mode: the normalized URL, or the string
/// as it was given.
pub open spec fn target_for(s: Seq<char>, mode: RetrievalMode) -> Seq<char> {
    match mode {
        RetrievalMode::Remote => normalized(s),
        RetrievalMode::Local => s,
    }
}

/// Reduces the two heuristic answers to a retrieval mode.
///
/// A string that looks like a URL and not like a local path is never opened
/// on the filesystem; a string that looks like a local path is never
/// fetched, whatever the URL heuristic says.
pub fn retrieval_mode(looks_url: bool, looks_local: bool) -> (mode: RetrievalMode)
    ensures
        mode == mode_for(looks_url, looks_local),
        looks_url && !looks_local ==> mode is Remote,
        looks_local ==> mode is Local,
        !looks_url ==> mode is Local,
{
    if looks_url && !looks_local {
        RetrievalMode::Remote
    } else {
        RetrievalMode::Local
    }
}

/// The mode follows the classification: a string classified as a URL and
/// not as a local path is never opened on the filesystem, and a string
/// classified as a local path is never fetched over the network, whatever
/// the URL heuristic says of it.
pub proof fn lemma_mode_follows_classification(looks_url: bool, looks_local: bool)
    ensures
        looks_url && !looks_local ==> mode_for(looks_url, looks_local) is Remote,
        looks_local ==> mode_for(looks_url, looks_local) is Local,
        mode_for(looks_url, looks_local) is Remote <==> looks_url && !looks_local,
{
}

/// A retrieval decided on: the mode together with what to fetch or open.
#[derive(Debug, Clone, PartialEq, Eq)]
pub enum Retrieval {
    /// Fetch this URL.
    Remote(String),
    /// Open this path.
    Local(String),
}

impl Retrieval {
    /// The mode of this retrieval.
    pub open spec fn mode(self) -> RetrievalMode {
        match self {
            Retrieval::Remote(_) => RetrievalMode::Remote,
            Retrieval::Local(_) => RetrievalMode::Local,
        }
    }

    /// The URL to fetch or the path to open.
    pub open spec fn target(self) -> Seq<char> {
        match self {
            Retrieval::Remote(url) => url@,
            Retrieval::Local(path) => path@,
        }
    }

    /// The mode of this retrieval.
    pub fn get_mode(&self) -> (mode: RetrievalMode)
        ensures
            mode == self.mode(),
    {
        match self {
            Retrieval::Remote(_) => RetrievalMode::Remote,
            Retrieval::Local(_) => RetrievalMode::Local,
        }
    }

    /// The URL to fetch or the path to open.
    pub fn get_target(&self) -> (target: &str)
        ensures
            target@ == self.target(),
    {
        match self {
            Retrieval::Remote(url) => url.as_str(),
            Retrieval::Local(path) => path.as_str(),
        }
    }
}

/// Decides how `s` is retrieved, given the answers of the two heuristics.
///
/// In remote mode the target is `s` with `https://` in front unless `s`
/// holds `://`; in local mode it is `s` unchanged.
pub fn dispatch(s: &str, looks_url: bool, looks_local: bool) -> (r: Retrieval)
    ensures
        r.mode() == mode_for(looks_url, looks_local),
        r.target() == target_for(s@, r.mode()),
        looks_url && !looks_local ==> r is Remote,
        looks_local ==> r is Local,
{
    match retrieval_mode(looks_url, looks_local) {
        RetrievalMode::Remote => Retrieval::Remote(normalize_url(s)),
        RetrievalMode::Local => Retrieval::Local(String::from_str(s)),
    }
}

/// `r` is the retrieval that the two heuristics give for `s`:
/// - its mode follows from the URL heuristic and from the local-path rules
///   under an answer that a platform may give;
/// - where the local-path verdict is the same on every platform, the mode
///   is the one that follows from it;
/// - its target fits the mode.
pub open spec fn planned_for(s: Seq<char>, r: Retrieval) -> bool {
    &&& exists|absolute: bool, segment: Seq<char>|
        platform_may_answer(s, absolute, segment) && r.mode() == mode_for(
            url_verdict(s),
            path_rule(s, absolute, segment).accepts(),
        )
    &&& portable_verdict(s) matches Some(local) ==> r.mode() == mode_for(url_verdict(s), local)
    &&& r.target() == target_for(s, r.mode())
}

/// Classifies `s` with both heuristics and decides how it is retrieved.
///
/// The retrieval is remote for a string that the URL heuristic accepts and
/// that no platform takes for a local path: one with a separator and `://`
/// that is not anchored, such as `https://host/img.png`, or a single name
/// that does not read as a file name, such as `www.example.com`. It is local
/// for a string that the URL heuristic rejects, and wherever the local-path
/// verdict is to accept on every platform.
pub fn plan_retrieval(s: &str) -> (r: Retrieval)
    ensures
        planned_for(s@, r),
        portable_verdict(s@) matches Some(local) ==> r.mode() == mode_for(url_verdict(s@), local),
        portable_verdict(s@) == Some(false) ==> (r is Remote <==> url_verdict(s@)),
        portable_verdict(s@) == Some(true) ==> r is Local,
        !url_verdict(s@) ==> r is Local,
        separator_rule_applies(s@) ==> r is Local,
        r.target() == target_for(s@, r.mode()),
{
    let looks_url = looks_like_url(s);
    let looks_local = looks_like_local_path(s);
    dispatch(s, looks_url, looks_local)
}

/// The status codes that count as success: `200..=299`.
pub open spec fn is_success_status(status: u16) -> bool {
    200 <= status <= 299
}

/// The cause reported for a response whose status is no success.
pub open spec fn status_failure(status_text: Seq<char>) -> Seq<char> {
    "Failed to fetch image. Status: "@ + status_text
}

/// Judges the status of a response before its body is read.
///
/// `status_text` is the status as it is shown to the user, such as
/// `404 Not Found`.
pub fn check_response(status: u16, status_text: &str) -> (r: Result<(), HashError>)
    ensures
        r is Ok <==> is_success_status(status),
        r matches Err(e) ==> (e matches HashError::LoadError(cause) && cause@ == status_failure(
            status_text@,
        )),
{
    if 200 <= status && status <= 299 {
        Ok(())
    } else {
        Err(
            HashError::LoadError(
                String::from_str("Failed to fetch image. Status: ").concat(status_text),
            ),
        )
    }
}

} // verus!
