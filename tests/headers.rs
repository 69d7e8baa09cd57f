use http::HeaderMap;
use tower_opentelemetry::headers::{header_text, inject_header, is_header_name, is_header_text, InjectError};

fn map_with(pairs: &[(&'static str, &'static str)]) -> HeaderMap {
    let mut m = HeaderMap::new();
    for (k, v) in pairs {
        m.insert(*k, http::HeaderValue::from_static(v));
    }
    m
}

#[test]
fn inject_adds_value_and_keeps_other_headers() {
    let mut m = map_with(&[("content-type", "text/plain"), ("x-request-id", "abc")]);
    assert_eq!(inject_header(&mut m, "traceparent", "00-0af7651916cd43dd8448eb211c80319c-b7ad6b7169203331-01"), Ok(()));
    assert_eq!(m.len(), 3);
    assert_eq!(m.get("content-type").unwrap(), "text/plain");
    assert_eq!(m.get("x-request-id").unwrap(), "abc");
    assert_eq!(m.get("traceparent").unwrap(), "00-0af7651916cd43dd8448eb211c80319c-b7ad6b7169203331-01");
}

#[test]
fn inject_replaces_every_value_of_the_name() {
    let mut m = HeaderMap::new();
    m.append("tracestate", http::HeaderValue::from_static("a=1"));
    m.append("tracestate", http::HeaderValue::from_static("b=2"));
    m.insert("accept", http::HeaderValue::from_static("*/*"));
    assert_eq!(inject_header(&mut m, "tracestate", "c=3"), Ok(()));
    let values: Vec<_> = m.get_all("tracestate").iter().collect();
    assert_eq!(values.len(), 1);
    assert_eq!(values[0], "c=3");
    assert_eq!(m.get("accept").unwrap(), "*/*");
}

#[test]
fn inject_folds_name_to_lower_case() {
    let mut m = HeaderMap::new();
    assert_eq!(inject_header(&mut m, "TraceParent", "v"), Ok(()));
    assert_eq!(m.keys().next().unwrap().as_str(), "traceparent");
}

#[test]
fn inject_refuses_invalid_name() {
    let mut m = map_with(&[("accept", "*/*")]);
    assert_eq!(inject_header(&mut m, "bad name", "v"), Err(InjectError::InvalidName));
    assert_eq!(inject_header(&mut m, "", "v"), Err(InjectError::InvalidName));
    assert_eq!(m.len(), 1);
}

#[test]
fn inject_refuses_invalid_value() {
    let mut m = HeaderMap::new();
    assert_eq!(inject_header(&mut m, "traceparent", "line\nbreak"), Err(InjectError::InvalidValue));
    assert_eq!(inject_header(&mut m, "bad name", "line\nbreak"), Err(InjectError::InvalidName));
    assert!(m.is_empty());
}

#[test]
fn header_text_reads_first_visible_value() {
    let mut m = HeaderMap::new();
    m.append("user-agent", http::HeaderValue::from_static("curl/8.0"));
    m.append("user-agent", http::HeaderValue::from_static("other"));
    assert_eq!(header_text(&m, "user-agent"), Some("curl/8.0"));
    assert_eq!(header_text(&m, "User-Agent"), Some("curl/8.0"));
    assert_eq!(header_text(&m, "accept"), None);
    assert_eq!(header_text(&m, "bad name"), None);
}

#[test]
fn header_text_skips_non_ascii_value() {
    let mut m = HeaderMap::new();
    m.insert("user-agent", http::HeaderValue::from_bytes(b"caf\xc3\xa9").unwrap());
    assert_eq!(header_text(&m, "user-agent"), None);
}

#[test]
fn name_and_text_checks() {
    assert!(is_header_name("traceparent"));
    assert!(is_header_name("X-Custom_1"));
    assert!(!is_header_name("a:b"));
    assert!(!is_header_name(""));
    assert!(is_header_text("a b\tc~"));
    assert!(is_header_text(""));
    assert!(!is_header_text("a\u{7f}"));
    assert!(!is_header_text("caf\u{e9}"));
}

#[test]
fn inject_name_length_limit() {
    let mut m = HeaderMap::new();
    let longest = "a".repeat(65535);
    assert_eq!(inject_header(&mut m, &longest, "v"), Ok(()));
    assert_eq!(header_text(&m, &longest), Some("v"));
    let too_long = "a".repeat(65536);
    assert_eq!(inject_header(&mut m, &too_long, "v"), Err(InjectError::InvalidName));
    assert!(!is_header_name(&too_long));
    assert_eq!(m.len(), 1);
}

#[test]
fn inject_reports_full_map_and_leaves_it_unchanged() {
    let mut m = HeaderMap::new();
    let mut full = None;
    for i in 0..40000u32 {
        let before = m.keys_len();
        match inject_header(&mut m, &format!("x-h{}", i), "v") {
            Ok(()) => assert_eq!(m.keys_len(), before + 1),
            Err(e) => {
                assert_eq!(e, InjectError::MapFull);
                assert_eq!(m.keys_len(), before);
                assert_eq!(header_text(&m, "x-h0"), Some("v"));
                full = Some(i);
                break;
            }
        }
    }
    assert!(full.is_some());
}
