//! The run as a whole: validate the counts, decide on the retrieval, then
//! decode and hash what was retrieved.

use crate::components::{component_verdict, validate_components, ComponentCounts};
use crate::dispatch::{mode_for, plan_retrieval, planned_for, Retrieval};
use crate::encoder::{encode_image, hash_length};
use crate::error::HashError;
use crate::local_path::portable_verdict;
use crate::locator::url_verdict;
use crate::pixels::decode_image;
use vstd::prelude::*;

verus! {

/// What a run is to do once its arguments are accepted.
#[derive(Debug, Clone, PartialEq, Eq)]
pub struct Job {
    /// Where the image bytes come from.
    pub retrieval: Retrieval,
    /// The component counts to encode with.
    pub counts: ComponentCounts,
}

/// Turns the command-line arguments into a job.
///
/// The counts are validated first, so that a bad pair is refused before
/// anything is fetched or opened; the source is classified only for a pair
/// that passed, and the retrieval is then the one that the heuristics give
/// for it.
pub fn plan_job(source: &str, x: Option<u32>, y: Option<u32>) -> (r: Result<Job, HashError>)
    ensures
        match component_verdict(x, y) {
            Ok(pair) => r matches Ok(job) && job.counts@ == pair && planned_for(
                source@,
                job.retrieval,
            ),
            Err(e) => r == Err::<Job, HashError>(e),
        },
        r matches Ok(job) ==> (portable_verdict(source@) matches Some(local) ==> job.retrieval.mode()
            == mode_for(url_verdict(source@), local)),
        r matches Ok(job) ==> (!url_verdict(source@) ==> job.retrieval is Local),
{
    match validate_components(x, y) {
        Ok(counts) => Ok(Job { retrieval: plan_retrieval(source), counts }),
        Err(e) => Err(e),
    }
}

/// Decodes fetched bytes and hashes the image they hold.
///
/// A hash that comes out has `4 + 2 * x * y` characters. Bytes that do not
/// decode are a load error; an image too large for the encoder is an encode
/// failure.
pub fn hash_bytes(bytes: &[u8], counts: ComponentCounts) -> (r: Result<String, HashError>)
    ensures
        r matches Ok(hash) ==> hash@.len() == hash_length(counts@.0, counts@.1),
        r matches Err(e) ==> (e is LoadError || e is EncodeFailure),
{
    match decode_image(bytes) {
        Ok(image) => encode_image(&image, counts),
        Err(e) => Err(e),
    }
}

} // verus!
