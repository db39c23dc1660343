//! Resolves the ARN of a Lambda function or layer to the location of its code
//! package, and decides each step of downloading it.
//!
//! - `arn`: parsing and classifying ARNs, over a model of their colon-separated
//!   segments.
//! - `resolve`: which lookup call serves an ARN, and how its outcome maps to a
//!   location or an error.
//! - `fetch`: how the outcome of the GET on that location maps to bytes or an
//!   error.
//! - `session`: the steps of one download, from the raw ARN to the bytes; the
//!   caller performs each lookup and GET and reports the outcome back.
use vstd::prelude::*;

pub mod arn;
pub mod fetch;
pub mod resolve;
pub mod session;

verus! {

} // verus!
