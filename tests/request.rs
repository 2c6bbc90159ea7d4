use oxhttp::model::{Body, HeaderName, HeaderValue, Method, Request, Url};

fn url(s: &str) -> Url {
    Url::new(s.to_string())
}

fn name(s: &str) -> HeaderName {
    HeaderName::from_bytes(s.as_bytes()).unwrap()
}

fn value(s: &str) -> HeaderValue {
    HeaderValue::from_bytes(s.as_bytes()).unwrap()
}

#[test]
fn new_request_keeps_method_and_url() {
    let request = Request::new(Method::GET, url("http://example.com/"));
    assert_eq!(*request.method(), Method::GET);
    assert_eq!(request.url().as_str(), "http://example.com/");
    assert!(request.headers().is_empty());
    assert!(request.body().is_none());
}

#[test]
fn new_request_has_no_body_to_hand_over() {
    let request = Request::new(Method::DELETE, url("http://example.com/item/1"));
    assert!(request.into_body().is_none());
}

#[test]
fn round_trip_post_with_json_body() {
    let mut request = Request::new(Method::POST, url("http://example.com/foo"));
    request
        .headers_mut()
        .append(name("Content-Type"), value("application/json"));
    let request = request.with_body(Body::from_text("{\"foo\": \"bar\"}"));
    assert_eq!(*request.method(), Method::POST);
    assert_eq!(request.url().as_str(), "http://example.com/foo");
    assert_eq!(
        request.headers().get(&name("content-type")).unwrap().as_bytes(),
        b"application/json"
    );
    assert_eq!(
        request.into_body().unwrap().to_vec(),
        b"{\"foo\": \"bar\"}".to_vec()
    );
}

#[test]
fn appended_headers_are_observable_in_order() {
    let mut request = Request::new(Method::GET, url("http://example.com/"));
    request.headers_mut().append(name("Accept"), value("text/html"));
    request.headers_mut().append(name("X-Trace"), value("abc"));
    request.headers_mut().append(name("accept"), value("application/json"));
    let headers = request.headers();
    assert_eq!(headers.len(), 3);
    let accepted: Vec<&[u8]> = headers
        .get_all(&name("ACCEPT"))
        .into_iter()
        .map(|v| v.as_bytes())
        .collect();
    assert_eq!(accepted, vec![&b"text/html"[..], &b"application/json"[..]]);
    assert_eq!(headers.get(&name("x-trace")).unwrap().as_bytes(), b"abc");
    assert!(headers.get(&name("Host")).is_none());
    assert!(headers.contains(&name("Accept")));
    assert!(!headers.contains(&name("Host")));
}

#[test]
fn headers_mut_leaves_method_url_and_body() {
    let mut request =
        Request::new(Method::PUT, url("http://example.com/x")).with_body(Body::from(vec![1u8, 2]));
    request.headers_mut().append(name("Content-Length"), value("2"));
    assert_eq!(*request.method(), Method::PUT);
    assert_eq!(request.url().as_str(), "http://example.com/x");
    assert_eq!(request.body().unwrap().to_vec(), vec![1u8, 2]);
}

#[test]
fn second_body_replaces_first() {
    let first: &[u8] = b"first";
    let request = Request::new(Method::POST, url("http://example.com/"))
        .with_body(Body::from(first))
        .with_body(Body::from_string("second".to_string()));
    assert_eq!(*request.method(), Method::POST);
    assert_eq!(request.into_body().unwrap().to_vec(), b"second".to_vec());
}

#[test]
fn body_bytes_survive_attachment() {
    let bytes = vec![0u8, 255, 10, 13];
    let request =
        Request::new(Method::PATCH, url("http://example.com/")).with_body(Body::from(bytes.clone()));
    let body = request.into_body().unwrap();
    assert!(!body.is_borrowed());
    assert_eq!(body.to_vec(), bytes);
    assert_eq!(body.len(), 4);
}

#[test]
fn borrowed_body_stays_borrowed() {
    let buffer = vec![7u8; 16];
    let request =
        Request::new(Method::POST, url("http://example.com/")).with_body(Body::from(&buffer[..]));
    let body = request.into_body().unwrap();
    assert!(body.is_borrowed());
    assert_eq!(body.as_bytes().as_ptr(), buffer.as_ptr());
    assert_eq!(body.to_vec(), buffer);
}

#[test]
fn empty_body_is_present_but_empty() {
    let request = Request::new(Method::POST, url("http://example.com/"))
        .with_body(Body::from(Vec::new()));
    let body = request.into_body().unwrap();
    assert!(body.is_empty());
    assert_eq!(body.to_vec(), Vec::<u8>::new());
}

#[test]
fn read_accessors_repeat_the_same_values() {
    let mut request = Request::new(Method::HEAD, url("http://example.com/a"));
    request.headers_mut().append(name("Accept"), value("*/*"));
    let request = request.with_body(Body::from_text("x"));
    for _ in 0..3 {
        assert_eq!(*request.method(), Method::HEAD);
        assert_eq!(*request.url(), url("http://example.com/a"));
        assert_eq!(request.headers().len(), 1);
        assert_eq!(request.body().unwrap().to_vec(), b"x".to_vec());
    }
    assert_eq!(request.method(), request.method());
    assert_eq!(request.url(), request.url());
}

#[test]
fn text_bodies_hold_utf8_bytes() {
    let owned = Body::from_string("héllo".to_string());
    assert_eq!(owned.to_vec(), "héllo".as_bytes().to_vec());
    assert_eq!(owned.len(), 6);
    assert!(!owned.is_borrowed());
    let borrowed = Body::from_text("héllo");
    assert!(borrowed.is_borrowed());
    assert_eq!(borrowed.as_bytes(), "héllo".as_bytes());
}

#[test]
fn header_names_are_lower_cased_tokens() {
    assert_eq!(name("Content-Type").as_bytes(), b"content-type");
    assert_eq!(name("X_A.b~1").as_bytes(), b"x_a.b~1");
    assert!(HeaderName::from_bytes(b"").is_none());
    assert!(HeaderName::from_bytes(b"Content Type").is_none());
    assert!(HeaderName::from_bytes(b"Host:").is_none());
    assert!(HeaderName::from_bytes("n\u{e9}".as_bytes()).is_none());
}

#[test]
fn header_values_reject_line_breaks() {
    assert_eq!(value("").as_bytes(), b"");
    assert_eq!(value("a b\tc").as_bytes(), b"a b\tc");
    assert!(HeaderValue::from_bytes(b"a\r\nb").is_none());
    assert!(HeaderValue::from_bytes(b"a\nb").is_none());
    assert!(HeaderValue::from_bytes(b"a\0").is_none());
}

#[test]
fn urls_compare_by_text() {
    assert_eq!(url("http://example.com/"), url("http://example.com/"));
    assert_ne!(url("http://example.com/"), url("http://example.org/"));
}

#[test]
fn remove_drops_every_entry_of_a_name() {
    let mut request = Request::new(Method::GET, url("http://example.com/"));
    let headers = request.headers_mut();
    headers.append(name("Accept"), value("a"));
    headers.append(name("Host"), value("example.com"));
    headers.append(name("ACCEPT"), value("b"));
    headers.append(name("User-Agent"), value("t"));
    headers.remove(&name("accept"));
    assert_eq!(headers.len(), 2);
    assert!(headers.get(&name("Accept")).is_none());
    assert_eq!(headers.get(&name("host")).unwrap().as_bytes(), b"example.com");
    assert_eq!(headers.get(&name("user-agent")).unwrap().as_bytes(), b"t");
    headers.remove(&name("X-Missing"));
    assert_eq!(headers.len(), 2);
}

#[test]
fn set_replaces_all_values_of_a_name() {
    let mut request = Request::new(Method::GET, url("http://example.com/"));
    request.headers_mut().append(name("Accept"), value("a"));
    request.headers_mut().append(name("Accept"), value("b"));
    request.headers_mut().append(name("Host"), value("h"));
    request.headers_mut().set(name("accept"), value("c"));
    let headers = request.headers();
    assert_eq!(headers.len(), 2);
    let accepted: Vec<&[u8]> = headers
        .get_all(&name("Accept"))
        .into_iter()
        .map(|v| v.as_bytes())
        .collect();
    assert_eq!(accepted, vec![&b"c"[..]]);
    assert_eq!(headers.get(&name("Host")).unwrap().as_bytes(), b"h");
}
