use vstd::prelude::*;

use crate::arn::{
    kind_of, parse_arn, parse_outcome, region_of, segments, well_formed_arn, ParseError,
};
use crate::fetch::{classify_fetch, download_result, is_success_status, FetchError, FetchOutcome};
use crate::resolve::{
    call_for, classify_lookup, plan_lookup, resolution, LookupOutcome, LookupRequest, ResolveError,
};

verus! {

/// Any failure of a download session, by the stage that raised it.
#[derive(Debug)]
pub enum CoreError {
    Parse(ParseError),
    Resolve(ResolveError),
    Fetch(FetchError),
}

/// Where a download session stands: the next outside action to perform, or its end.
#[derive(Debug)]
pub enum Step {
    /// Perform this lookup and report its outcome to `after_lookup`.
    Lookup(LookupRequest),
    /// GET this location and report the outcome to `after_download`.
    Download(String),
    /// The artifact's bytes, ready to be written out.
    Finished(Vec<u8>),
    /// The session failed; nothing more is attempted.
    Failed(CoreError),
}

/// The step that a session on `raw` begins with.
pub open spec fn start_step(raw: Seq<char>, s: Step) -> bool {
    if well_formed_arn(raw) && kind_of(segments(raw)[5]) is Some {
        &&& s is Lookup
        &&& s->Lookup_0.call == call_for(kind_of(segments(raw)[5])->0)
        &&& s->Lookup_0.target@ == raw
        &&& s->Lookup_0.region@ == region_of(raw)
    } else {
        &&& s is Failed
        &&& s->Failed_0 is Parse
        &&& parse_outcome(raw, Err(s->Failed_0->Parse_0))
    }
}

/// The step that follows a lookup with outcome `o`.
pub open spec fn lookup_step(o: LookupOutcome) -> Step {
    match resolution(o) {
        Ok(url) => Step::Download(url),
        Err(e) => Step::Failed(CoreError::Resolve(e)),
    }
}

/// The step that follows a download with outcome `o`.
pub open spec fn download_step(o: FetchOutcome) -> Step {
    match download_result(o) {
        Ok(bytes) => Step::Finished(bytes),
        Err(e) => Step::Failed(CoreError::Fetch(e)),
    }
}

/// Parses `raw` and, if it names a function or a layer, asks for its lookup.
pub fn start(raw: &str) -> (s: Step)
    ensures
        start_step(raw@, s),
{
    match parse_arn(raw) {
        Ok(id) => Step::Lookup(plan_lookup(&id)),
        Err(e) => Step::Failed(CoreError::Parse(e)),
    }
}

/// Downloads the resolved location, or ends with the resolver's error.
pub fn after_lookup(o: LookupOutcome) -> (s: Step)
    ensures
        s == lookup_step(o),
{
    match classify_lookup(o) {
        Ok(url) => Step::Download(url),
        Err(e) => Step::Failed(CoreError::Resolve(e)),
    }
}

/// Ends with the downloaded bytes, or with the fetcher's error.
pub fn after_download(o: FetchOutcome) -> (s: Step)
    ensures
        s == download_step(o),
{
    match classify_fetch(o) {
        Ok(bytes) => Step::Finished(bytes),
        Err(e) => Step::Failed(CoreError::Fetch(e)),
    }
}

/// A session on a valid function or layer ARN asks for the lookup of its kind
/// on its full text; when that lookup answers with a location and the GET of
/// that location succeeds, the session finishes with exactly the body received.
pub proof fn end_to_end(raw: Seq<char>, first: Step, url: String, status: u16, body: Vec<u8>)
    requires
        well_formed_arn(raw),
        kind_of(segments(raw)[5]) is Some,
        start_step(raw, first),
        url@.len() > 0,
        is_success_status(status),
    ensures
        first is Lookup,
        first->Lookup_0.call == call_for(kind_of(segments(raw)[5])->0),
        first->Lookup_0.target@ == raw,
        lookup_step(LookupOutcome::Answered(Some(Some(url)))) == Step::Download(url),
        download_step(FetchOutcome::Response { status, body }) == Step::Finished(body),
{
}

} // verus!
