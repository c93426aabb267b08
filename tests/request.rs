use worker_core::error::Error;
use worker_core::host::{Cf, EdgeRequest, Headers, Method};
use worker_core::request::{BodyFormat, Request};

fn inbound(url: &str, has_body: bool) -> Request {
    let mut headers = Headers::new();
    headers.append("content-type", "text/plain");
    let cf = Cf::new(vec![("colo".to_string(), "AMS".to_string())]);
    Request::from_edge(EdgeRequest::new(Method::Post, url.to_string(), headers, cf, has_body))
}

fn created(url: &str, method: Method, has_body: bool) -> Result<EdgeRequest, Option<String>> {
    Ok(EdgeRequest::new(method, url.to_string(), Headers::new(), Cf::new(vec![]), has_body))
}

#[test]
fn new_request_has_method_and_path() {
    let req = Request::new(created("https://example.com/a/b?x=1", Method::Put, false)).unwrap();
    assert_eq!(req.method(), Method::Put);
    assert_eq!(req.path(), "/a/b");
    assert!(req.headers().entries().is_empty());
    assert_eq!(req.inner().url(), "https://example.com/a/b?x=1");
    assert!(!req.inner().has_body());
}

#[test]
fn new_request_refused_by_host() {
    match Request::new(Err(None)) {
        Err(Error::ConstructionError(m)) => assert_eq!(m, "invalid URL or method for Request"),
        other => panic!("unexpected: {:?}", other.map(|r| r.path())),
    }
    match Request::new(Err(Some("Invalid URL: /relative".to_string()))) {
        Err(Error::ConstructionError(m)) => assert_eq!(m, "Invalid URL: /relative"),
        other => panic!("unexpected: {:?}", other.map(|r| r.path())),
    }
}

#[test]
fn new_with_init_from_host_outcome() {
    match Request::new_with_init(Err(None)) {
        Err(Error::ConstructionError(m)) => assert_eq!(m, "invalid URL or options for Request"),
        other => panic!("unexpected: {:?}", other.map(|r| r.path())),
    }
    let mut headers = Headers::new();
    headers.append("x-a", "1");
    let edge = EdgeRequest::new(Method::Post, "https://example.com/up".to_string(), headers, Cf::new(vec![]), true);
    let req = Request::new_with_init(Ok(edge)).unwrap();
    assert_eq!(req.method(), Method::Post);
    assert_eq!(req.path(), "/up");
    assert_eq!(req.headers().entries(), &vec![("x-a".to_string(), "1".to_string())]);
    assert!(req.inner().has_body());
}

#[test]
fn url_of_request() {
    let req = inbound("http://host/a/b?x=1", false);
    assert_eq!(req.url().unwrap(), "http://host/a/b?x=1");
    match inbound("host/a", false).url() {
        Err(Error::InvalidUrl(u)) => assert_eq!(u, "host/a"),
        other => panic!("unexpected: {:?}", other),
    }
}

#[test]
fn inbound_path_is_parsed() {
    let req = inbound("http://host/a/b?x=1", false);
    assert_eq!(req.path(), "/a/b");
    assert_eq!(req.method(), Method::Post);
    assert_eq!(req.cf().properties(), &vec![("colo".to_string(), "AMS".to_string())]);
}

#[test]
fn inbound_malformed_url_path_starts_with_slash() {
    let req = inbound("host/a", false);
    assert_eq!(req.path(), "/host/a");
    let req = inbound("/already", false);
    assert_eq!(req.path(), "/already");
}

#[test]
fn second_read_is_refused() {
    let mut req = inbound("http://host/", true);
    let pending = req.text().unwrap();
    assert_eq!(pending.format(), BodyFormat::Text);
    assert!(matches!(req.text(), Err(Error::BodyUsed)));
    assert!(matches!(req.json(), Err(Error::BodyUsed)));
    assert!(matches!(req.bytes(), Err(Error::BodyUsed)));
    assert!(matches!(req.form_data(), Err(Error::BodyUsed)));
    assert!(matches!(req.stream(), Err(Error::BodyUsed)));
}

#[test]
fn failed_read_still_consumes_body() {
    let mut req = inbound("http://host/", true);
    let pending = req.bytes().unwrap();
    let outcome: Result<Vec<u8>, Error> = pending.finish(Err(None));
    match outcome {
        Err(Error::JsError(m)) => assert_eq!(m, "failed to read array buffer from request"),
        other => panic!("unexpected: {:?}", other),
    }
    assert!(matches!(req.bytes(), Err(Error::BodyUsed)));
}

#[test]
fn stream_without_body_consumes_it() {
    let mut req = inbound("http://host/", false);
    assert!(matches!(req.stream(), Err(Error::NoBody)));
    assert!(matches!(req.text(), Err(Error::BodyUsed)));
}

#[test]
fn stream_with_body() {
    let mut req = inbound("http://host/", true);
    assert_eq!(req.stream().unwrap().format(), BodyFormat::Stream);
    assert!(matches!(req.stream(), Err(Error::BodyUsed)));
}

#[test]
fn finish_maps_host_outcomes() {
    let mut req = inbound("http://host/", true);
    let pending = req.text().unwrap();
    assert_eq!(pending.finish(Ok::<String, Option<String>>("hi".to_string())).unwrap(), "hi");
    let mut req = inbound("http://host/", true);
    let pending = req.form_data().unwrap();
    match pending.finish::<u8>(Err(Some("boom".to_string()))) {
        Err(Error::JsError(m)) => assert_eq!(m, "boom"),
        other => panic!("unexpected: {:?}", other),
    }
}

#[test]
fn finish_json_maps_shape_errors() {
    let mut req = inbound("http://host/", true);
    let pending = req.json().unwrap();
    assert_eq!(pending.format(), BodyFormat::Json);
    match pending.finish_json::<u32>(Ok(Err("expected a number".to_string()))) {
        Err(Error::Deserialization(m)) => assert_eq!(m, "expected a number"),
        other => panic!("unexpected: {:?}", other),
    }
    let mut req = inbound("http://host/", true);
    assert_eq!(req.json().unwrap().finish_json::<u32>(Ok(Ok(7))).unwrap(), 7);
    let mut req = inbound("http://host/", true);
    match req.json().unwrap().finish_json::<u32>(Err(None)) {
        Err(Error::JsError(m)) => assert_eq!(m, "failed to get JSON for body value"),
        other => panic!("unexpected: {:?}", other),
    }
}

#[test]
fn clone_is_independently_readable() {
    let mut req = inbound("http://host/p", true);
    let mut copy = req.clone().unwrap();
    assert!(req.text().is_ok());
    assert!(copy.text().is_ok());
    assert_eq!(copy.path(), "/p");

    let mut req = inbound("http://host/p", true);
    let mut copy = req.clone().unwrap();
    assert!(copy.bytes().is_ok());
    assert!(req.bytes().is_ok());
}

#[test]
fn clone_after_read_is_refused() {
    let mut req = inbound("http://host/p", true);
    let _pending = req.text().unwrap();
    match req.clone() {
        Err(Error::JsError(m)) => assert_eq!(m, "request body is already used"),
        other => panic!("unexpected: {:?}", other.map(|r| r.path())),
    }
}

#[test]
fn clone_is_immutable() {
    let req = Request::new(created("https://example.com/x", Method::Get, false)).unwrap();
    let mut copy = req.clone().unwrap();
    assert_eq!(copy.method(), Method::Get);
    assert!(matches!(copy.path_mut(), Err(Error::ImmutableMutationDenied)));
}

#[test]
fn mutation_on_fresh_request() {
    let mut req = Request::new(created("https://example.com/x", Method::Get, false)).unwrap();
    req.headers_mut().unwrap().append("x-b", "2");
    assert_eq!(req.headers().entries(), &vec![("x-b".to_string(), "2".to_string())]);
    *req.path_mut().unwrap() = "/y".to_string();
    assert_eq!(req.path(), "/y");
}

#[test]
fn mutation_on_inbound_request_is_denied() {
    let mut req = inbound("http://host/a", false);
    assert!(matches!(req.headers_mut(), Err(Error::ImmutableMutationDenied)));
    assert!(matches!(req.path_mut(), Err(Error::ImmutableMutationDenied)));
    assert_eq!(req.path(), "/a");
}
