use rpc_envelope::http_request::HttpRequest;
use rpc_envelope::request::Envelope;

#[derive(Clone, Debug, PartialEq)]
struct DeadlineMarker {
    ms: u64,
}

fn example_uri() -> http::Uri {
    "https://svc.example/Pkg.Method".parse::<http::Uri>().unwrap()
}

#[test]
fn fresh_construction_is_empty() {
    let env = Envelope::new(42u64);
    assert_eq!(env.headers().len(), 0);
    assert!(env.extensions().is_empty());
    assert_eq!(*env.get_ref(), 42u64);
}

#[test]
fn outbound_framing_is_fixed() {
    let env = Envelope::new(String::from("payload"));
    let req = env.into_http(example_uri());
    assert_eq!(req.method, http::Method::POST);
    assert_eq!(req.version, http::Version::HTTP_2);
    assert_eq!(req.uri, example_uri());
    assert_eq!(req.body, "payload");
}

#[test]
fn round_trip_keeps_headers_extensions_and_payload() {
    let mut env = Envelope::new(42u64);
    env.headers_mut()
        .insert("x-trace-id", http::HeaderValue::from_static("abc"));
    env.extensions_mut().insert(DeadlineMarker { ms: 500 });

    let raw = env.into_http(example_uri()).into_raw();
    assert_eq!(raw.method(), http::Method::POST);
    assert_eq!(raw.version(), http::Version::HTTP_2);
    assert_eq!(raw.uri(), &example_uri());
    assert_eq!(raw.headers().get("x-trace-id").unwrap(), "abc");

    let back = Envelope::from_http(HttpRequest::from_raw(raw));
    assert_eq!(back.headers().len(), 1);
    assert_eq!(back.headers().get("x-trace-id").unwrap(), "abc");
    assert_eq!(
        back.extensions().get::<DeadlineMarker>(),
        Some(&DeadlineMarker { ms: 500 })
    );
    assert_eq!(back.into_inner(), 42u64);
}

#[test]
fn from_http_discards_framing() {
    let mut headers = http::HeaderMap::new();
    headers.insert("x-kind", http::HeaderValue::from_static("inbound"));
    let req = HttpRequest {
        method: http::Method::GET,
        uri: "http://other.example/".parse::<http::Uri>().unwrap(),
        version: http::Version::HTTP_11,
        headers,
        extensions: http::Extensions::new(),
        body: 5i32,
    };
    let env = Envelope::from_http(req);
    assert_eq!(env.headers().get("x-kind").unwrap(), "inbound");
    assert_eq!(*env.get_ref(), 5i32);
}

#[test]
fn map_preserves_metadata_and_transforms_payload() {
    let mut env = Envelope::new(10u64);
    env.headers_mut()
        .insert("x-trace-id", http::HeaderValue::from_static("abc"));
    env.extensions_mut().insert(DeadlineMarker { ms: 7 });

    let mapped = env.map(|x| x * 3);

    assert_eq!(mapped.headers().get("x-trace-id").unwrap(), "abc");
    assert_eq!(
        mapped.extensions().get::<DeadlineMarker>(),
        Some(&DeadlineMarker { ms: 7 })
    );
    assert_eq!(*mapped.get_ref(), 30u64);
}

#[test]
fn map_applies_the_function_exactly_once() {
    let mut calls = 0u32;
    let env = Envelope::new(vec![1u8, 2, 3]);
    let mapped = env.map(|bytes| {
        calls += 1;
        bytes.len()
    });
    assert_eq!(calls, 1);
    assert_eq!(*mapped.get_ref(), 3usize);
}

#[test]
fn get_mut_changes_only_the_payload() {
    let mut env = Envelope::new(7u64);
    env.headers_mut()
        .insert("x-keep", http::HeaderValue::from_static("yes"));
    *env.get_mut() = 9;
    assert_eq!(*env.get_ref(), 9u64);
    assert_eq!(env.headers().get("x-keep").unwrap(), "yes");
    assert!(env.extensions().is_empty());
}

#[test]
fn header_insertions_are_visible_and_ordered() {
    let mut env = Envelope::new(());
    env.headers_mut()
        .append("x-many", http::HeaderValue::from_static("one"));
    env.headers_mut()
        .append("x-many", http::HeaderValue::from_static("two"));
    let values: Vec<&http::HeaderValue> = env.headers().get_all("x-many").iter().collect();
    assert_eq!(values, vec!["one", "two"]);
}

#[test]
fn extension_store_holds_one_value_per_type() {
    let mut env = Envelope::new(0u8);
    env.extensions_mut().insert(DeadlineMarker { ms: 1 });
    env.extensions_mut().insert(DeadlineMarker { ms: 2 });
    assert_eq!(env.extensions().len(), 1);
    assert_eq!(
        env.extensions().get::<DeadlineMarker>(),
        Some(&DeadlineMarker { ms: 2 })
    );
}

#[test]
fn into_inner_returns_the_payload() {
    let mut env = Envelope::new(String::from("message"));
    env.headers_mut()
        .insert("x-drop", http::HeaderValue::from_static("gone"));
    assert_eq!(env.into_inner(), "message");
}
