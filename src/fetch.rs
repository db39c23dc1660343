use vstd::prelude::*;

verus! {

/// What came back from the GET on a resolved location.
#[derive(Debug)]
pub enum FetchOutcome {
    /// The server answered with this status and the whole body.
    Response { status: u16, body: Vec<u8> },
    /// The request or the reading of the body failed; the diagnostic.
    TransportFailure(String),
}

/// What went wrong with a download.
#[derive(Debug)]
pub enum DownloadFailure {
    /// The server answered with a status outside 200..=299.
    Status(u16),
    /// The transport failed; its diagnostic.
    Transport(String),
}

#[derive(Debug)]
pub enum FetchError {
    DownloadFailed(DownloadFailure),
}

pub open spec fn is_success_status(status: u16) -> bool {
    200 <= status <= 299
}

/// The bytes that a GET outcome yields, or the error it maps to.
pub open spec fn download_result(o: FetchOutcome) -> Result<Vec<u8>, FetchError> {
    match o {
        FetchOutcome::Response { status, body } => {
            if is_success_status(status) {
                Ok(body)
            } else {
                Err(FetchError::DownloadFailed(DownloadFailure::Status(status)))
            }
        },
        FetchOutcome::TransportFailure(d) => Err(
            FetchError::DownloadFailed(DownloadFailure::Transport(d)),
        ),
    }
}

/// Accepts a successful body verbatim; any other status or a transport failure
/// is `DownloadFailed`.
pub fn classify_fetch(o: FetchOutcome) -> (r: Result<Vec<u8>, FetchError>)
    ensures
        r == download_result(o),
{
    match o {
        FetchOutcome::Response { status, body } => {
            if 200 <= status && status <= 299 {
                Ok(body)
            } else {
                Err(FetchError::DownloadFailed(DownloadFailure::Status(status)))
            }
        },
        FetchOutcome::TransportFailure(d) => Err(
            FetchError::DownloadFailed(DownloadFailure::Transport(d)),
        ),
    }
}

} // verus!
