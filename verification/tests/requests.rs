use api_client::{AsyncClient, ClientError, Method};
use reqwest::header::{AUTHORIZATION, CONTENT_TYPE};
use std::cell::Cell;
use std::collections::BTreeMap;

#[derive(Debug, PartialEq)]
struct ApiFailure {
    code: String,
    message: String,
}

fn client() -> AsyncClient {
    match AsyncClient::new::<ApiFailure>("secret", "https://api.test/v1/") {
        Ok(client) => client,
        Err(e) => panic!("client: {:?}", e),
    }
}

fn resolve(client: &AsyncClient, endpoint: &str) -> Result<String, ClientError<ApiFailure>> {
    client.resolve::<ApiFailure>(endpoint).map(String::from)
}

fn assert_default_headers(client: &AsyncClient) {
    let headers = client.headers();
    assert_eq!(headers.len(), 2);
    assert_eq!(headers.get_all(AUTHORIZATION).iter().count(), 1);
    assert_eq!(headers.get_all(CONTENT_TYPE).iter().count(), 1);
    assert_eq!(headers.get(AUTHORIZATION).unwrap().as_bytes(), b"Bearer secret");
    assert!(headers.get(AUTHORIZATION).unwrap().is_sensitive());
    assert_eq!(headers.get(CONTENT_TYPE).unwrap().as_bytes(), b"application/json");
}

#[test]
fn leading_slash_replaces_the_path_of_the_base() {
    assert_eq!(resolve(&client(), "/widgets/1").unwrap(), "https://api.test/widgets/1");
}

#[test]
fn relative_endpoint_is_appended_to_the_base() {
    assert_eq!(resolve(&client(), "widgets/1").unwrap(), "https://api.test/v1/widgets/1");
}

#[test]
fn relative_endpoint_drops_the_last_segment_of_the_base() {
    let client = AsyncClient::new::<ApiFailure>("secret", "https://api.test/v1/index").unwrap();
    assert_eq!(resolve(&client, "widgets/1").unwrap(), "https://api.test/v1/widgets/1");
}

#[test]
fn absolute_endpoint_replaces_the_whole_url() {
    assert_eq!(
        resolve(&client(), "http://other.test/a?b=c").unwrap(),
        "http://other.test/a?b=c"
    );
}

#[test]
fn empty_endpoint_resolves_to_the_base() {
    assert_eq!(resolve(&client(), "").unwrap(), "https://api.test/v1/");
}

#[test]
fn resolving_twice_gives_the_same_url() {
    let client = client();
    let first = resolve(&client, "widgets/1").unwrap();
    let second = resolve(&client, "widgets/1").unwrap();
    assert_eq!(first, second);
    assert_eq!(client.base_url().as_str(), "https://api.test/v1/");
    let third = resolve(&client, "/widgets/1").unwrap();
    let fourth = resolve(&client, "/widgets/1").unwrap();
    assert_eq!(third, fourth);
}

#[test]
fn endpoint_that_is_no_reference_is_a_join_error() {
    assert!(matches!(resolve(&client(), "http://[::1"), Err(ClientError::UrlJoin(_))));
    assert!(matches!(resolve(&client(), "https://"), Err(ClientError::UrlJoin(_))));
}

#[test]
fn get_prepares_a_request_without_a_body() {
    let client = client();
    let request = client.get::<ApiFailure>("/widgets/1").unwrap();
    assert_eq!(request.method, Method::Get);
    assert_eq!(request.url.as_str(), "https://api.test/widgets/1");
    assert_eq!(request.body, None);
    assert_default_headers(&client);
}

#[test]
fn get_reports_a_join_error() {
    assert!(matches!(client().get::<ApiFailure>("http://[::1"), Err(ClientError::UrlJoin(_))));
}

#[test]
fn client_stays_usable_after_a_failed_call() {
    let client = client();
    assert!(client.get::<ApiFailure>("http://[::1").is_err());
    let request = client.get::<ApiFailure>("widgets").unwrap();
    assert_eq!(request.url.as_str(), "https://api.test/v1/widgets");
}

#[test]
fn post_prepares_a_request_with_the_encoded_body() {
    let mut body: BTreeMap<String, i64> = BTreeMap::new();
    body.insert("id".to_string(), 7);
    let client = client();
    let request =
        client.post::<_, ApiFailure, _>("widgets", body, |b| serde_json::to_string(b)).unwrap();
    assert_eq!(request.method, Method::Post);
    assert_eq!(request.url.as_str(), "https://api.test/v1/widgets");
    assert_eq!(request.body, Some("{\"id\":7}".to_string()));
    assert_default_headers(&client);
}

#[test]
fn post_fails_before_any_request_when_the_body_has_no_encoding() {
    let mut body: BTreeMap<(i32, i32), i64> = BTreeMap::new();
    body.insert((1, 2), 7);
    let prepared = client().post::<_, ApiFailure, _>("widgets", body, |b| serde_json::to_string(b));
    assert!(matches!(prepared, Err(ClientError::Serialization(_))));
}

#[test]
fn post_resolves_the_endpoint_before_it_encodes() {
    let calls = Cell::new(0);
    let prepared = client().post::<_, ApiFailure, _>("http://[::1", 5, |b: &i32| {
        calls.set(calls.get() + 1);
        serde_json::to_string(b)
    });
    assert!(matches!(prepared, Err(ClientError::UrlJoin(_))));
    assert_eq!(calls.get(), 0);
}

#[test]
fn post_encodes_exactly_once() {
    let calls = Cell::new(0);
    let prepared = client().post::<_, ApiFailure, _>("widgets", 5, |b: &i32| {
        calls.set(calls.get() + 1);
        serde_json::to_string(b)
    });
    assert_eq!(prepared.unwrap().body, Some("5".to_string()));
    assert_eq!(calls.get(), 1);
}
