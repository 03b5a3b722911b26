use axum_msgpack::{
    acquire_body, take_body, BodyAlreadyExtracted, Error, HeaderSet, HeadersAlreadyExtracted,
    InvalidMsgPackBody, MissingMsgPackContentType, MsgPackRejection, RequestParts, Response,
};

fn missing_content_type() -> MissingMsgPackContentType {
    let mut req = RequestParts::new(HeaderSet::new(None), vec![]);
    match acquire_body(&mut req) {
        Err(MsgPackRejection::MissingMsgPackContentType(inner)) => inner,
        other => panic!("unexpected {:?}", other),
    }
}

fn body_already_extracted() -> BodyAlreadyExtracted {
    let mut req = RequestParts::new(HeaderSet::new(None), vec![]);
    take_body(&mut req).unwrap();
    take_body(&mut req).unwrap_err()
}

fn text(response: &Response) -> String {
    String::from_utf8(response.body.clone()).unwrap()
}

#[test]
fn invalid_body_renders_cause() {
    let rejection = MsgPackRejection::from(InvalidMsgPackBody::from_err(
        "wrong msgpack marker".to_string(),
    ));
    assert_eq!(rejection.to_string(), "Failed to parse the request body as MsgPack");
    let response = rejection.into_response();
    assert_eq!(response.status, 400);
    assert_eq!(response.content_type, None);
    assert_eq!(
        text(&response),
        "Failed to parse the request body as MsgPack: wrong msgpack marker"
    );
}

#[test]
fn missing_content_type_renders_400() {
    let rejection = MsgPackRejection::from(missing_content_type());
    assert_eq!(
        rejection.to_string(),
        "Expected request with `Content-Type: application/msgpack`"
    );
    let response = rejection.into_response();
    assert_eq!(response.status, 400);
    assert_eq!(
        text(&response),
        "Expected request with `Content-Type: application/msgpack`"
    );
}

#[test]
fn body_already_extracted_renders_500() {
    let rejection = MsgPackRejection::from(body_already_extracted());
    assert_eq!(
        rejection.to_string(),
        "Cannot have two request body extractors for a single handler"
    );
    let response = rejection.into_response();
    assert_eq!(response.status, 500);
    assert_eq!(
        text(&response),
        "Cannot have two request body extractors for a single handler"
    );
}

#[test]
fn headers_already_extracted_renders_500() {
    let rejection = MsgPackRejection::from(HeadersAlreadyExtracted::default());
    assert_eq!(rejection.to_string(), "Headers taken by other extractor");
    let response = rejection.into_response();
    assert_eq!(response.status, 500);
    assert_eq!(text(&response), "Headers taken by other extractor");
}

#[test]
fn inner_rejections_render_alone() {
    assert_eq!(missing_content_type().into_response().status, 400);
    assert_eq!(body_already_extracted().into_response().status, 500);
    assert_eq!(HeadersAlreadyExtracted::default().into_response().status, 500);
    let invalid = InvalidMsgPackBody::from_err("x".to_string()).into_response();
    assert_eq!(invalid.status, 400);
    assert_eq!(text(&invalid), "Failed to parse the request body as MsgPack: x");
}

#[test]
fn error_keeps_message() {
    let error = Error::new("array had incorrect length, expected 2".to_string());
    assert_eq!(error.to_string(), "array had incorrect length, expected 2");
}

#[test]
fn rejection_text_is_utf8_of_message() {
    let response = Response::from_text(418, "t\u{e9}a");
    assert_eq!(response.status, 418);
    assert_eq!(response.body, vec![b't', 0xc3, 0xa9, b'a']);
}
