use lambda_fetch::arn::ParseError;
use lambda_fetch::fetch::FetchOutcome;
use lambda_fetch::resolve::{LookupCall, LookupOutcome, ResolveError};
use lambda_fetch::session::{after_download, after_lookup, start, CoreError, Step};

#[test]
fn function_arn_end_to_end() {
    let raw = "arn:aws:lambda:us-east-1:123456789012:function:my-fn";
    let url = "https://bucket.example/code.zip".to_string();
    let bytes = vec![1u8, 2, 3, 4, 5];
    let req = match start(raw) {
        Step::Lookup(req) => req,
        other => panic!("unexpected {:?}", other),
    };
    assert_eq!(req.call, LookupCall::GetFunction);
    assert_eq!(req.target, raw);
    assert_eq!(req.region, "us-east-1");
    let got = match after_lookup(LookupOutcome::Answered(Some(Some(url.clone())))) {
        Step::Download(u) => u,
        other => panic!("unexpected {:?}", other),
    };
    assert_eq!(got, url);
    match after_download(FetchOutcome::Response { status: 200, body: bytes.clone() }) {
        Step::Finished(b) => assert_eq!(b, bytes),
        other => panic!("unexpected {:?}", other),
    }
}

#[test]
fn layer_arn_starts_layer_lookup() {
    match start("arn:aws:lambda:eu-west-1:123456789012:layer:my-layer:3") {
        Step::Lookup(req) => {
            assert_eq!(req.call, LookupCall::GetLayerVersionByArn);
            assert_eq!(req.region, "eu-west-1");
        }
        other => panic!("unexpected {:?}", other),
    }
}

#[test]
fn bad_arn_fails_at_start() {
    assert!(matches!(
        start("not-an-arn"),
        Step::Failed(CoreError::Parse(ParseError::MalformedArn))
    ));
    assert!(matches!(
        start("arn:aws:lambda:us-east-1:1:alias:x"),
        Step::Failed(CoreError::Parse(ParseError::UnsupportedResourceType(_)))
    ));
}

#[test]
fn lookup_and_download_failures_end_session() {
    assert!(matches!(
        after_lookup(LookupOutcome::ServiceError("AccessDenied".to_string())),
        Step::Failed(CoreError::Resolve(ResolveError::ServiceRejected(_)))
    ));
    assert!(matches!(
        after_download(FetchOutcome::Response { status: 403, body: Vec::new() }),
        Step::Failed(CoreError::Fetch(_))
    ));
}
