use datahub_client::{
    process_response, DataWrapper, GraphDataWrapper, GraphParsedBody, ParsedBody, ResourceUpdate,
    ResponseError,
};

/// A 204 response yields an envelope with zero items and status 204; the
/// body and any parse outcome are irrelevant.
#[test]
fn no_content_yields_empty_envelope() {
    let parsed: ParsedBody<String> = ParsedBody::Unparsed("never parsed".to_string());
    let r = DataWrapper::<String>::deserialize_and_set_status("", 204, parsed).unwrap();
    assert_eq!(r.get_items().len(), 0);
    assert_eq!(r.get_http_status_code(), Some(204));
    assert!(r.error_body.is_none());
}

/// A 201 with an empty body yields zero items and status 201.
#[test]
fn created_with_empty_body_yields_empty_envelope() {
    let parsed: ParsedBody<String> = ParsedBody::Unparsed("never parsed".to_string());
    let r = DataWrapper::<String>::deserialize_and_set_status("", 201, parsed).unwrap();
    assert_eq!(r.get_items().len(), 0);
    assert_eq!(r.get_http_status_code(), Some(201));
}

/// A 200 whose body parsed carries the parsed items and the status.
#[test]
fn ok_with_body_carries_items() {
    let mut parsed: DataWrapper<String> = DataWrapper::new();
    parsed.add_item("a".to_string());
    parsed.add_item("b".to_string());
    let r = process_response(200, "{\"items\":[\"a\",\"b\"]}", ParsedBody::Parsed(parsed));
    let w = r.unwrap();
    assert_eq!(w.get_items().len(), 2);
    assert_eq!(w.get_http_status_code(), Some(200));
}

/// A 400 surfaces as an error carrying status 400 and the raw body.
#[test]
fn bad_request_surfaces_as_error() {
    let parsed: ParsedBody<String> = ParsedBody::Unparsed("bad json".to_string());
    let r: Result<DataWrapper<String>, ResponseError> =
        process_response(400, "negative limit", parsed);
    let e = r.err().unwrap();
    assert_eq!(e.get_status(), 400);
    assert_eq!(e.get_message(), "negative limit");
}

/// A 2xx body that fails to parse is an error carrying the parser's
/// message.
#[test]
fn unparsable_success_body_is_an_error() {
    let parsed: ParsedBody<String> = ParsedBody::Unparsed("expected value".to_string());
    let r: Result<DataWrapper<String>, ResponseError> = process_response(200, "{garbage", parsed);
    let e = r.err().unwrap();
    assert_eq!(e.get_status(), 200);
    assert_eq!(e.get_message(), "expected value");
}

/// The executor's non-2xx envelope path: a structured error body that
/// parsed is kept; one that did not is captured out of band.
#[test]
fn error_body_kept_out_of_band() {
    let parsed: ParsedBody<String> = ParsedBody::Unparsed("not json".to_string());
    let w = DataWrapper::<String>::deserialize_and_set_status("plain text error", 500, parsed)
        .unwrap();
    assert_eq!(w.get_items().len(), 0);
    assert_eq!(w.error_body.as_deref(), Some("plain text error"));
    assert_eq!(w.get_http_status_code(), Some(500));

    let mut structured: DataWrapper<String> = DataWrapper::new();
    structured.add_item("detail".to_string());
    let w2 = DataWrapper::<String>::deserialize_and_set_status(
        "{\"items\":[\"detail\"]}",
        409,
        ParsedBody::Parsed(structured),
    )
    .unwrap();
    assert_eq!(w2.get_items().len(), 1);
    assert_eq!(w2.get_http_status_code(), Some(409));
}

/// Transport errors keep their status when they carry one and fall back
/// to 400 otherwise.
#[test]
fn transport_error_mapping() {
    let e = ResponseError::from_parts(Some(503), "connection reset".to_string());
    assert_eq!(e.get_status(), 503);
    let e = ResponseError::from_parts(None, "timed out".to_string());
    assert_eq!(e.get_status(), 400);
    let e = ResponseError::from("early failure".to_string());
    assert_eq!(e.get_status(), 0);
    assert_eq!(e.get_message(), "early failure");
}

/// The graph envelope follows the same status rules: empty on 204, parse
/// results kept on other statuses, raw error bodies captured out of
/// band.
#[test]
fn graph_envelope_follows_the_same_rules() {
    let parsed: GraphParsedBody<ResourceUpdate> = GraphParsedBody::Unparsed("nope".to_string());
    let w = GraphDataWrapper::deserialize_and_set_status("anything", 204, parsed).unwrap();
    assert!(w.nodes().is_none());
    assert_eq!(w.http_status_code, Some(204));

    let mut body: GraphDataWrapper<ResourceUpdate> = GraphDataWrapper::new();
    body.set_nodes(vec![ResourceUpdate { update: None, relation_update: None }]);
    let w = GraphDataWrapper::deserialize_and_set_status(
        "{\"nodes\":[{}]}",
        200,
        GraphParsedBody::Parsed(body),
    )
    .unwrap();
    assert_eq!(w.nodes().unwrap().len(), 1);
    assert_eq!(w.http_status_code, Some(200));

    let parsed: GraphParsedBody<ResourceUpdate> = GraphParsedBody::Unparsed("nope".to_string());
    let w = GraphDataWrapper::deserialize_and_set_status("oops", 502, parsed).unwrap();
    assert!(w.nodes().is_none());
    assert_eq!(w.error_body.as_deref(), Some("oops"));
    assert_eq!(w.http_status_code, Some(502));

    let parsed: GraphParsedBody<ResourceUpdate> =
        GraphParsedBody::Unparsed("expected value".to_string());
    let e = GraphDataWrapper::deserialize_and_set_status("{bad", 200, parsed).err().unwrap();
    assert_eq!(e, "expected value");
}
