use std::collections::BTreeMap;

use meilisearch_transport::{
    decode_meilisearch_error, meilisearch_error_from_members, parse_response, ClientError, MeilisearchCommunicationError,
};

fn decode_ids(body: &str) -> Result<BTreeMap<String, i64>, serde_json::Error> {
    serde_json::from_str(body)
}

const URL: &str = "http://localhost:7700/indexes/movies";

const INDEX_NOT_FOUND: &str = r#"{"message":"not found","code":"index_not_found","type":"invalid_request","link":"https://docs.meilisearch.com/errors#index_not_found"}"#;

#[test]
fn expected_status_decodes_output() {
    let r = parse_response(200, 200, r#"{"id":1}"#, URL.to_string(), decode_ids);
    let out = r.expect("expected a decoded value");
    assert_eq!(out.len(), 1);
    assert_eq!(out.get("id"), Some(&1));
}

#[test]
fn expected_status_with_wrong_shape_is_parse_error() {
    let r = parse_response(200, 200, r#"{"id":"one"}"#, URL.to_string(), decode_ids);
    assert!(matches!(r, Err(ClientError::ParseError(_))));
}

#[test]
fn expected_status_with_server_error_body_is_still_parse_error() {
    let r = parse_response(200, 200, INDEX_NOT_FOUND, URL.to_string(), decode_ids);
    assert!(matches!(r, Err(ClientError::ParseError(_))));
}

#[test]
fn other_status_with_server_error_body_gives_that_error() {
    let r = parse_response(404, 200, INDEX_NOT_FOUND, URL.to_string(), decode_ids);
    match r {
        Err(ClientError::Meilisearch(e)) => {
            assert_eq!(e.error_code, "index_not_found");
            assert_eq!(e.error_message, "not found");
            assert_eq!(e.error_type, "invalid_request");
            assert_eq!(e.error_link, "https://docs.meilisearch.com/errors#index_not_found");
        }
        other => panic!("unexpected result: {:?}", other),
    }
}

#[test]
fn server_error_body_wins_below_400_too() {
    let r = parse_response(201, 200, INDEX_NOT_FOUND, URL.to_string(), decode_ids);
    match r {
        Err(ClientError::Meilisearch(e)) => assert_eq!(e.error_code, "index_not_found"),
        other => panic!("unexpected result: {:?}", other),
    }
}

#[test]
fn failing_status_with_html_body_is_communication_error() {
    let r = parse_response(
        500,
        200,
        "<html>Internal Server Error</html>",
        URL.to_string(),
        decode_ids,
    );
    match r {
        Err(ClientError::MeilisearchCommunication(MeilisearchCommunicationError {
            status_code,
            message,
            url,
        })) => {
            assert_eq!(status_code, 500);
            assert_eq!(message, None);
            assert_eq!(url, URL);
        }
        other => panic!("unexpected result: {:?}", other),
    }
}

#[test]
fn failing_status_exactly_400_is_communication_error() {
    let r = parse_response(400, 200, "", URL.to_string(), decode_ids);
    assert!(matches!(
        r,
        Err(ClientError::MeilisearchCommunication(MeilisearchCommunicationError {
            status_code: 400,
            message: None,
            ..
        }))
    ));
}

#[test]
fn unexpected_success_status_with_non_json_is_parse_error() {
    let r = parse_response(200, 201, "not json", URL.to_string(), decode_ids);
    assert!(matches!(r, Err(ClientError::ParseError(_))));
}

#[test]
fn unexpected_status_399_with_unrelated_json_is_parse_error() {
    let r = parse_response(399, 200, r#"{"id":1}"#, URL.to_string(), decode_ids);
    assert!(matches!(r, Err(ClientError::ParseError(_))));
}

#[test]
fn server_error_with_extra_members_is_read() {
    let body = r#"{"link":"l","type":"t","extra":[1,2],"code":"c","message":"m"}"#;
    let e = decode_meilisearch_error(body).expect("a server error");
    assert_eq!(e.error_message, "m");
    assert_eq!(e.error_code, "c");
    assert_eq!(e.error_type, "t");
    assert_eq!(e.error_link, "l");
}

#[test]
fn server_error_missing_a_field_is_refused() {
    let body = r#"{"message":"m","code":"c","type":"t"}"#;
    assert!(decode_meilisearch_error(body).is_err());
}

#[test]
fn server_error_with_non_string_field_is_refused() {
    let body = r#"{"message":"m","code":7,"type":"t","link":"l"}"#;
    assert!(decode_meilisearch_error(body).is_err());
}

#[test]
fn server_error_from_non_object_is_refused() {
    assert!(decode_meilisearch_error("[]").is_err());
    assert!(decode_meilisearch_error("not json").is_err());
    assert!(decode_meilisearch_error("").is_err());
}

fn member(name: &str, value: Option<&str>) -> (String, Option<String>) {
    (name.to_string(), value.map(|v| v.to_string()))
}

#[test]
fn members_with_all_four_strings_make_an_error() {
    let members = vec![
        member("code", Some("index_not_found")),
        member("link", Some("l")),
        member("message", Some("not found")),
        member("other", None),
        member("type", Some("invalid_request")),
    ];
    let e = meilisearch_error_from_members(&members).expect("a server error");
    assert_eq!(e.error_message, "not found");
    assert_eq!(e.error_code, "index_not_found");
    assert_eq!(e.error_type, "invalid_request");
    assert_eq!(e.error_link, "l");
}

#[test]
fn members_missing_or_not_strings_make_no_error() {
    let missing = vec![member("code", Some("c")), member("message", Some("m")), member("type", Some("t"))];
    assert!(meilisearch_error_from_members(&missing).is_none());
    let not_string = vec![
        member("code", None),
        member("link", Some("l")),
        member("message", Some("m")),
        member("type", Some("t")),
    ];
    assert!(meilisearch_error_from_members(&not_string).is_none());
    assert!(meilisearch_error_from_members(&Vec::new()).is_none());
}

#[test]
fn repeated_member_takes_the_last() {
    let members = vec![
        member("code", Some("first")),
        member("link", Some("l")),
        member("message", Some("m")),
        member("type", Some("t")),
        member("code", Some("second")),
    ];
    let e = meilisearch_error_from_members(&members).expect("a server error");
    assert_eq!(e.error_code, "second");
}
