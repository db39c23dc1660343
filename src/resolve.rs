use vstd::prelude::*;

use crate::arn::{get_region, region_of, Arn, ArnType};

verus! {

/// The service call that looks up where a resource's package can be downloaded.
#[derive(Clone, Copy, Debug, PartialEq, Eq, Structural)]
pub enum LookupCall {
    /// Fetch a function's deployment package metadata, by name or ARN.
    GetFunction,
    /// Fetch a layer version's metadata, by ARN.
    GetLayerVersionByArn,
}

/// One lookup to make: which call, on what, against which regional endpoint.
#[derive(Debug)]
pub struct LookupRequest {
    pub call: LookupCall,
    pub target: String,
    pub region: String,
}

/// What came back from a lookup call.
#[derive(Debug)]
pub enum LookupOutcome {
    /// The service answered. `None`: the response held no code or content
    /// object; `Some(None)`: that object held no location.
    Answered(Option<Option<String>>),
    /// The request could not be dispatched (no credentials, no network); the
    /// connector's diagnostic.
    DispatchFailure(String),
    /// The service processed the request and returned an error; its detail.
    ServiceError(String),
    /// Any other transport or protocol error; its message.
    OtherError(String),
}

/// Why no download location was obtained.
#[derive(Debug)]
pub enum ResolveError {
    Unreachable(String),
    ServiceRejected(String),
    IncompleteResponse,
    Other(String),
}

/// The call that serves each resource kind.
pub open spec fn call_for(kind: ArnType) -> LookupCall {
    match kind {
        ArnType::Function => LookupCall::GetFunction,
        ArnType::Layer => LookupCall::GetLayerVersionByArn,
    }
}

/// The location that a lookup outcome yields, or the error it maps to. A
/// location must be present and non-empty.
pub open spec fn resolution(o: LookupOutcome) -> Result<String, ResolveError> {
    match o {
        LookupOutcome::Answered(Some(Some(url))) => {
            if url@.len() > 0 {
                Ok(url)
            } else {
                Err(ResolveError::IncompleteResponse)
            }
        },
        LookupOutcome::Answered(_) => Err(ResolveError::IncompleteResponse),
        LookupOutcome::DispatchFailure(d) => Err(ResolveError::Unreachable(d)),
        LookupOutcome::ServiceError(d) => Err(ResolveError::ServiceRejected(d)),
        LookupOutcome::OtherError(m) => Err(ResolveError::Other(m)),
    }
}

/// The lookup that resolves `id`: the call for its kind, on its full text, in its region.
pub fn plan_lookup(id: &Arn) -> (r: LookupRequest)
    requires
        id.wf(),
    ensures
        r.call == call_for(id.arn_type),
        r.target@ == id.arn@,
        r.region@ == region_of(id.arn@),
{
    let call = match id.arn_type {
        ArnType::Function => LookupCall::GetFunction,
        ArnType::Layer => LookupCall::GetLayerVersionByArn,
    };
    LookupRequest { call, target: id.arn.clone(), region: get_region(id.arn.as_str()) }
}

/// Maps what a lookup returned to a location or an error, the same way for
/// either call.
pub fn classify_lookup(o: LookupOutcome) -> (r: Result<String, ResolveError>)
    ensures
        r == resolution(o),
{
    match o {
        LookupOutcome::Answered(Some(Some(url))) => {
            if url.as_str().is_empty() {
                Err(ResolveError::IncompleteResponse)
            } else {
                Ok(url)
            }
        },
        LookupOutcome::Answered(_) => Err(ResolveError::IncompleteResponse),
        LookupOutcome::DispatchFailure(d) => Err(ResolveError::Unreachable(d)),
        LookupOutcome::ServiceError(d) => Err(ResolveError::ServiceRejected(d)),
        LookupOutcome::OtherError(m) => Err(ResolveError::Other(m)),
    }
}

} // verus!
