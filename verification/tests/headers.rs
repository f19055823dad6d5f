use ingestor::internal::normalize::headers::allowed_header_attributes;
use ingestor::internal::specs::capture::HarHeader;
use ingestor::internal::specs::network::{is_allowed_header, is_sensitive, non_negative_i64, HeaderMap};

fn header(name: &str, value: &str) -> HarHeader {
    HarHeader { name: name.to_string(), value: value.to_string() }
}

fn keys(map: &HeaderMap) -> Vec<String> {
    (0..map.len()).map(|i| map.entry(i).0.clone()).collect()
}

#[test]
fn insert_then_get_gives_values_in_order() {
    let mut map = HeaderMap::new();
    map.insert("content-type".to_string(), "a".to_string());
    map.insert("accept".to_string(), "b".to_string());
    map.insert("content-type".to_string(), "c".to_string());
    assert_eq!(map.get("content-type"), Some(&vec!["a".to_string(), "c".to_string()]));
    assert_eq!(map.get("accept"), Some(&vec!["b".to_string()]));
    assert_eq!(map.get("cookie"), None);
    assert_eq!(keys(&map), vec!["accept".to_string(), "content-type".to_string()]);
}

#[test]
fn from_headers_lowercases_and_drops_sensitive_and_empty_names() {
    let map = HeaderMap::from_headers(&[
        header("Authorization", "Bearer x"),
        header("Content-Type", "text/html"),
        header("", "y"),
        header("Set-Cookie", "s=1"),
        header("Accept", "*/*"),
        header("X-Custom", "1"),
        header("accept", "text/css"),
    ]);
    assert_eq!(keys(&map), vec!["accept".to_string(), "content-type".to_string(), "x-custom".to_string()]);
    assert_eq!(map.get("accept"), Some(&vec!["*/*".to_string(), "text/css".to_string()]));
    assert_eq!(map.get("authorization"), None);
    assert_eq!(map.get("set-cookie"), None);
}

#[test]
fn only_allowed_headers_are_exported() {
    let map = HeaderMap::from_headers(&[
        header("User-Agent", "ua"),
        header("Traceparent", "00-a-b-01"),
        header("Accept", "*/*"),
        header("Content-Type", "application/json"),
    ]);
    let attrs = allowed_header_attributes("http.request.header", &map);
    assert_eq!(
        attrs,
        vec![
            ("http.request.header.accept".to_string(), vec!["*/*".to_string()]),
            ("http.request.header.content-type".to_string(), vec!["application/json".to_string()]),
            ("http.request.header.traceparent".to_string(), vec!["00-a-b-01".to_string()]),
        ]
    );
}

#[test]
fn header_name_policies() {
    assert!(is_sensitive("cookie"));
    assert!(is_sensitive("proxy-authorization"));
    assert!(!is_sensitive("Cookie"));
    assert!(is_allowed_header("traceparent"));
    assert!(!is_allowed_header("user-agent"));
}

#[test]
fn negative_sizes_are_dropped() {
    assert_eq!(non_negative_i64(Some(-1)), None);
    assert_eq!(non_negative_i64(Some(0)), Some(0));
    assert_eq!(non_negative_i64(Some(412)), Some(412));
    assert_eq!(non_negative_i64(None), None);
}
