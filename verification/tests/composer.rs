//! Tests for the request composer: paths, the canonical string, headers,
//! and the configuration factory.

use remitano_api::client::{canonical_string, request_path};
use remitano_api::{ApiError, RemitanoApi, SignableValue};
use serde_json::Value;

const DATE: &str = "Tue, 15 Nov 1994 08:12:31 GMT";
const USER_AGENT: &str =
    "Mozilla/5.0 (Macintosh; Intel Mac OS X 10.15; rv:85.0) Gecko/20100101 Firefox/85.0";

fn api() -> RemitanoApi {
    RemitanoApi::build(
        Some("key".to_string()),
        Some("secret".to_string()),
        None,
        None,
    )
    .unwrap()
}

#[test]
fn build_rejects_missing_key() {
    assert_eq!(
        RemitanoApi::build(None, Some("secret".to_string()), None, None).unwrap_err(),
        ApiError::MissingKey
    );
}

#[test]
fn build_rejects_missing_secret() {
    assert_eq!(
        RemitanoApi::build(Some("key".to_string()), None, None, None).unwrap_err(),
        ApiError::MissingSecret
    );
}

#[test]
fn build_fills_in_defaults() {
    let a = api();
    assert_eq!(a.key, "key");
    assert_eq!(a.secret, "secret");
    assert_eq!(a.api_url, "https://api.remitano.com");
    assert_eq!(a.timeout_ms, 3000);

    let b = RemitanoApi::build(
        Some("key".to_string()),
        Some("secret".to_string()),
        Some("https://example.test".to_string()),
        Some(500),
    )
    .unwrap();
    assert_eq!(b.api_url, "https://example.test");
    assert_eq!(b.timeout_ms, 500);
}

#[test]
fn canonical_string_joins_fields_with_commas() {
    assert_eq!(
        canonical_string("GET", "D", "api/v1/users/1", "T"),
        "GET,application/json,D,api/v1/users/1,T"
    );
}

#[test]
fn request_path_appends_query_after_question_mark() {
    assert_eq!(request_path("users/1", None), "api/v1/users/1");
    assert_eq!(request_path("users", Some("a=1&b=x")), "api/v1/users?a=1&b=x");
}

#[test]
fn prepared_request_headers_are_consistent() {
    let a = api();
    let sr = a.prepare_signed("GET", "users/1", None, &None, DATE);

    assert_eq!(sr.method, "GET");
    assert_eq!(sr.path, "api/v1/users/1");
    assert_eq!(sr.url, "https://api.remitano.com/api/v1/users/1");
    assert_eq!(sr.user_agent, USER_AGENT);
    assert_eq!(sr.accept, "application/json");
    assert_eq!(sr.content_type, "application/json");
    assert_eq!(sr.content_md5, a.content_digest(&None));
    assert_eq!(sr.date, DATE);

    let canonical = canonical_string("GET", &sr.content_md5, &sr.path, &sr.date);
    let expected_auth = format!(
        "APIAuth key:{}",
        a.sign(&Some(SignableValue::Text(canonical)))
    );
    assert_eq!(sr.authorization, expected_auth);
}

#[test]
fn query_string_appears_verbatim_in_path_and_canonical_string() {
    let a = api();
    let mut m = serde_json::Map::new();
    m.insert("a".to_string(), Value::Number(serde_json::Number::from(1)));
    m.insert("b".to_string(), Value::String("x".to_string()));
    let qs = serde_qs::to_string(&m).unwrap();
    assert_eq!(qs, "a=1&b=x");

    let sr = a.prepare_signed("GET", "users", Some(&qs), &None, DATE);
    assert_eq!(sr.path, format!("api/v1/users?{}", qs));
    assert_eq!(sr.url, format!("https://api.remitano.com/{}", sr.path));

    let canonical = canonical_string("GET", &sr.content_md5, &sr.path, &sr.date);
    assert!(canonical.contains(&format!("api/v1/users?{}", qs)));
    let expected_auth = format!(
        "APIAuth key:{}",
        a.sign(&Some(SignableValue::Text(canonical)))
    );
    assert_eq!(sr.authorization, expected_auth);
}

#[test]
fn request_parts_without_params_or_body_succeeds() {
    let a = api();
    let sr = a.request_parts("GET", "users/1", None, None).unwrap();
    assert_eq!(sr.method, "GET");
    assert_eq!(sr.path, "api/v1/users/1");
    assert_eq!(sr.url, "https://api.remitano.com/api/v1/users/1");
    assert_eq!(sr.content_md5, a.content_digest(&None));
    assert_eq!(sr.date.len(), 29);
    assert!(sr.date.ends_with(" GMT"));
    assert_eq!(&sr.date[3..5], ", ");
    let canonical = canonical_string("GET", &sr.content_md5, &sr.path, &sr.date);
    let expected_auth = format!(
        "APIAuth key:{}",
        a.sign(&Some(SignableValue::Text(canonical)))
    );
    assert_eq!(sr.authorization, expected_auth);
}

#[test]
fn request_parts_digests_a_string_body_unquoted() {
    let a = api();
    let body = Value::String("hash me".to_string());
    let sr = a.request_parts("POST", "users", None, Some(&body)).unwrap();
    assert_eq!(sr.content_md5, "F7Mdzpa51sbQprqV9HeW+w==");
}

#[test]
fn request_parts_digests_a_structured_body_as_json() {
    let a = api();
    let mut m = serde_json::Map::new();
    m.insert("a".to_string(), Value::Number(serde_json::Number::from(1)));
    let body = Value::Object(m);
    let bytes = serde_json::to_vec(&body).unwrap();
    let expected = base64::encode(<md5::Md5 as md5::Digest>::digest(bytes.as_slice()));
    let sr = a.request_parts("POST", "users", None, Some(&body)).unwrap();
    assert_eq!(sr.content_md5, expected);
}

#[test]
fn request_parts_serializes_params_into_the_path() {
    let a = api();
    let mut m = serde_json::Map::new();
    m.insert("a".to_string(), Value::Number(serde_json::Number::from(1)));
    m.insert("b".to_string(), Value::String("x".to_string()));
    let qs = serde_qs::to_string(&m).unwrap();
    let sr = a.request_parts("GET", "users", Some(&m), None).unwrap();
    assert_eq!(sr.path, format!("api/v1/users?{}", qs));
}
