use webfetch::parse_uri;
use webfetch::ErrorKind;

#[test]
fn http() {
    let uri = "http://example.org";
    let actual = parse_uri(uri).unwrap();
    assert_eq!(actual.text().as_str(), "http://example.org/");
    assert_eq!(actual.scheme().as_str(), "http");
    assert_eq!(actual.authority().as_str(), "example.org");
}

#[test]
fn https() {
    let uri = "https://example.org";
    let actual = parse_uri(uri).unwrap();
    assert_eq!(actual.text().as_str(), "https://example.org/");
    assert_eq!(actual.scheme().as_str(), "https");
}

#[test]
fn no_scheme() {
    let uri = "example.org";
    assert!(parse_uri(uri).is_err());
}

#[test]
fn invalid_scheme() {
    let uri = "file:///etc/passwd";
    assert!(parse_uri(uri).is_err());
}

#[test]
fn mail_to() {
    let uri = "mailto:address@example.org";
    assert!(parse_uri(uri).is_err());
}

#[test]
fn no_scheme_kind() {
    let e = parse_uri("example.org").unwrap_err();
    assert_eq!(e.kind, ErrorKind::EmptyScheme);
}

#[test]
fn empty_authority_kind() {
    let e = parse_uri("file:///etc/passwd").unwrap_err();
    assert_eq!(e.kind, ErrorKind::MalformedUri);
}

#[test]
fn opaque_form_kind() {
    // The transport's parser reads the opaque form as a scheme-less
    // authority (userinfo before the host), so the scheme check rejects it.
    let e = parse_uri("mailto:address@example.org").unwrap_err();
    assert_eq!(e.kind, ErrorKind::EmptyScheme);
}

#[test]
fn illegal_character() {
    let e = parse_uri("http://exa mple.org").unwrap_err();
    assert_eq!(e.kind, ErrorKind::MalformedUri);
}

#[test]
fn uri_with_path_and_query() {
    let actual = parse_uri("https://example.org/a/b?q=1").unwrap();
    assert_eq!(actual.text().as_str(), "https://example.org/a/b?q=1");
    assert_eq!(actual.authority().as_str(), "example.org");
}

#[test]
fn uri_with_port() {
    let actual = parse_uri("http://example.org:8080/x").unwrap();
    assert_eq!(actual.authority().as_str(), "example.org:8080");
}

#[test]
fn empty_string_rejected() {
    assert!(parse_uri("").is_err());
}
