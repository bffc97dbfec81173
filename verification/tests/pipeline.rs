use webfetch::stringfy_headers;
use webfetch::transcode_response;
use webfetch::validate_request;
use webfetch::ErrorKind;

fn pairs(input: &[(&str, &str)]) -> Vec<(String, String)> {
    input.iter().map(|(n, v)| (n.to_string(), v.to_string())).collect()
}

fn byte_pairs(input: &[(&str, &[u8])]) -> Vec<(String, Vec<u8>)> {
    input.iter().map(|(n, v)| (n.to_string(), v.to_vec())).collect()
}

#[test]
fn both_valid() {
    let headers = pairs(&[("User-Agent", "tester")]);
    let (uri, validated) = validate_request("http://example.org", &headers).unwrap();
    assert_eq!(uri.text().as_str(), "http://example.org/");
    assert_eq!(validated.pairs()[0].0.as_str(), "user-agent");
}

#[test]
fn corrupt_uri_gives_uri_stage_error() {
    let headers = pairs(&[("User-Agent", "tester")]);
    let e = validate_request("example.org", &headers).unwrap_err();
    assert_eq!(e.kind, ErrorKind::EmptyScheme);

    let e = validate_request("http://exa mple.org", &headers).unwrap_err();
    assert!(e.kind == ErrorKind::MalformedUri || e.kind == ErrorKind::EmptyScheme);
    assert_ne!(e.kind, ErrorKind::InvalidHeaderName);
    assert_ne!(e.kind, ErrorKind::InvalidHeaderValue);
}

#[test]
fn corrupt_headers_give_header_stage_error() {
    let headers = pairs(&[("Whaaaaa?", "value")]);
    let e = validate_request("http://example.org", &headers).unwrap_err();
    assert_eq!(e.kind, ErrorKind::InvalidHeaderName);

    let headers = pairs(&[("X-Test", "bad\u{0}")]);
    let e = validate_request("http://example.org", &headers).unwrap_err();
    assert_eq!(e.kind, ErrorKind::InvalidHeaderValue);
}

#[test]
fn status_passthrough() {
    let headers = byte_pairs(&[("content-type", b"text/plain")]);
    let body = b"hello".to_vec();
    let resp = transcode_response(200, &headers, &body).unwrap();
    assert_eq!(resp.status, 200);
    assert_eq!(resp.headers.len(), 1);
    assert_eq!(resp.headers[0].0.as_str(), "content-type");
    assert_eq!(resp.headers[0].1.as_str(), "text/plain");
    assert_eq!(resp.body.as_str(), "aGVsbG8=");
}

#[test]
fn empty_body_encodes_empty() {
    let resp = transcode_response(204, &Vec::new(), &Vec::new()).unwrap();
    assert_eq!(resp.status, 204);
    assert!(resp.headers.is_empty());
    assert_eq!(resp.body.as_str(), "");
}

#[test]
fn body_encoding_is_padded_base64() {
    let resp = transcode_response(200, &Vec::new(), &b"hi".to_vec()).unwrap();
    assert_eq!(resp.body.as_str(), "aGk=");
    let resp = transcode_response(200, &Vec::new(), &b"h".to_vec()).unwrap();
    assert_eq!(resp.body.as_str(), "aA==");
    let resp = transcode_response(200, &Vec::new(), &vec![0u8, 255u8, 16u8]).unwrap();
    assert_eq!(resp.body.as_str(), "AP8Q");
}

#[test]
fn non_text_response_header_fails() {
    let headers = byte_pairs(&[("x-odd", &[0xffu8, 0x20u8])]);
    let e = transcode_response(200, &headers, &b"hello".to_vec()).unwrap_err();
    assert_eq!(e.kind, ErrorKind::HeaderEncodingError);
}

#[test]
fn control_byte_in_response_header_fails() {
    let headers = byte_pairs(&[("x-odd", &[b'a', 0x01u8])]);
    let e = stringfy_headers(&headers).unwrap_err();
    assert_eq!(e.kind, ErrorKind::HeaderEncodingError);
}

#[test]
fn response_headers_converted_in_order() {
    let headers = byte_pairs(&[("server", b"unit"), ("x-two", b"2")]);
    let got = stringfy_headers(&headers).unwrap();
    assert_eq!(got.len(), 2);
    assert_eq!(got[0], ("server".to_string(), "unit".to_string()));
    assert_eq!(got[1], ("x-two".to_string(), "2".to_string()));
}

#[test]
fn tab_in_response_header_is_text() {
    let headers = byte_pairs(&[("x-tab", b"a\tb")]);
    let got = stringfy_headers(&headers).unwrap();
    assert_eq!(got[0].1.as_str(), "a\tb");
}

#[test]
fn no_partial_result_on_failure() {
    let headers = byte_pairs(&[("good", b"fine"), ("bad", &[0u8])]);
    let r = transcode_response(200, &headers, &b"hello".to_vec());
    assert!(r.is_err());
}
