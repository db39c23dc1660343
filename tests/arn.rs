use lambda_fetch::arn::{function_or_layer_arn, get_region, parse_arn, ArnType, ParseError};

fn is_malformed(s: &str) -> bool {
    matches!(parse_arn(s), Err(ParseError::MalformedArn))
}

#[test]
fn missing_prefix_is_malformed() {
    assert!(is_malformed(""));
    assert!(is_malformed("aws:lambda:us-east-1:123456789012:function:my-fn"));
    assert!(is_malformed("ARN:aws:lambda:us-east-1:123456789012:function:my-fn"));
    assert!(is_malformed("xarn:aws:lambda:us-east-1:123456789012:function:my-fn"));
    assert!(is_malformed("arn"));
    assert!(is_malformed("arn;aws:lambda:us-east-1:123456789012:function:my-fn"));
}

#[test]
fn too_few_segments_is_malformed() {
    assert!(is_malformed("arn:"));
    assert!(is_malformed("arn:aws"));
    assert!(is_malformed("arn:aws:lambda:us-east-1:123456789012:function"));
    assert!(is_malformed("arn:aws:lambda:us-east-1:123456789012"));
    assert!(is_malformed("arn:::::"));
}

#[test]
fn seven_empty_segments_reach_classification() {
    match parse_arn("arn::::::") {
        Err(ParseError::UnsupportedResourceType(seg)) => assert_eq!(seg, ""),
        _ => panic!("expected UnsupportedResourceType"),
    }
}

#[test]
fn function_arn_parses() {
    let s = "arn:aws:lambda:us-east-1:123456789012:function:my-fn";
    let a = parse_arn(s).unwrap();
    assert_eq!(a.arn_type, ArnType::Function);
    assert_eq!(a.arn, s);
    assert_eq!(get_region(&a.arn), "us-east-1");
}

#[test]
fn layer_arn_parses() {
    let s = "arn:aws:lambda:eu-west-1:123456789012:layer:my-layer:3";
    let a = parse_arn(s).unwrap();
    assert_eq!(a.arn_type, ArnType::Layer);
    assert_eq!(a.arn, s);
    assert_eq!(get_region(&a.arn), "eu-west-1");
}

#[test]
fn other_resource_type_is_unsupported() {
    let s = "arn:aws:lambda:us-east-1:123456789012:eventsourcemapping:abc";
    match parse_arn(s) {
        Err(ParseError::UnsupportedResourceType(seg)) => assert_eq!(seg, "eventsourcemapping"),
        _ => panic!("expected UnsupportedResourceType"),
    }
}

#[test]
fn resource_type_match_is_exact() {
    assert!(matches!(
        parse_arn("arn:aws:lambda:us-east-1:1:Function:f"),
        Err(ParseError::UnsupportedResourceType(_))
    ));
    assert!(matches!(
        parse_arn("arn:aws:lambda:us-east-1:1:functions:f"),
        Err(ParseError::UnsupportedResourceType(_))
    ));
    assert!(matches!(
        parse_arn("arn:aws:lambda:us-east-1:1:laye:f"),
        Err(ParseError::UnsupportedResourceType(_))
    ));
}

#[test]
fn parsing_twice_gives_equal_values() {
    let s = "arn:aws:lambda:eu-west-1:123456789012:layer:my-layer:3";
    let a = parse_arn(s).unwrap();
    let b = parse_arn(s).unwrap();
    assert_eq!(a.arn, b.arn);
    assert_eq!(a.arn_type, b.arn_type);
}

#[test]
fn non_ascii_text_is_split_by_characters() {
    let s = "arn:aws:lambda:é-région:1:function:ƒ";
    let a = parse_arn(s).unwrap();
    assert_eq!(a.arn_type, ArnType::Function);
    assert_eq!(get_region(s), "é-région");
}

#[test]
fn classification_reads_sixth_segment() {
    assert_eq!(function_or_layer_arn("a:b:c:d:e:function").unwrap(), ArnType::Function);
    assert_eq!(function_or_layer_arn("a:b:c:d:e:layer:1:2").unwrap(), ArnType::Layer);
    match function_or_layer_arn("a:b:c:d:e:alias") {
        Err(ParseError::UnsupportedResourceType(seg)) => assert_eq!(seg, "alias"),
        _ => panic!("expected UnsupportedResourceType"),
    }
}

#[test]
fn region_is_fourth_segment() {
    assert_eq!(get_region("arn:aws:lambda:ap-south-2"), "ap-south-2");
    assert_eq!(get_region("arn:aws:lambda::x:function:f"), "");
}
