use roudoudou::{base_url, Error};

fn normal(s: &str) -> String {
    url::Url::parse(s).unwrap().to_string()
}

#[test]
fn default_address() {
    assert_eq!(base_url(None, None, None).unwrap(), normal("http://localhost:8069"));
}

#[test]
fn url_takes_precedence() {
    assert_eq!(
        base_url(Some("http://example.com"), Some("localhost"), Some("8069")).unwrap(),
        normal("http://example.com")
    );
}

#[test]
fn host_and_port() {
    assert_eq!(
        base_url(None, Some("example.com"), Some("8068")).unwrap(),
        normal("http://example.com:8068")
    );
    assert_eq!(base_url(None, Some("example.com"), Some("8068")).unwrap(), "http://example.com:8068/");
}

#[test]
fn standard_http_port_is_left_out() {
    assert_eq!(
        base_url(None, Some("example.com"), Some("80")).unwrap(),
        normal("http://example.com")
    );
}

#[test]
fn port_443_is_secure() {
    assert_eq!(
        base_url(None, Some("example.com"), Some("443")).unwrap(),
        normal("https://example.com")
    );
}

#[test]
fn invalid_url_is_error() {
    assert!(matches!(base_url(Some("http://foooobar:zorgl"), None, None), Err(Error::InvalidUrl(_))));
}

#[test]
fn invalid_port_is_error() {
    assert!(matches!(base_url(None, Some("foobar"), Some("foobar")), Err(Error::InvalidUrl(_))));
}

#[test]
fn signed_port_is_read_as_number() {
    assert_eq!(base_url(None, Some("example.com"), Some("+8068")).unwrap(), "http://example.com:8068/");
}

#[test]
fn negative_and_large_ports_are_written_in_decimal() {
    assert!(matches!(base_url(None, Some("example.com"), Some("-5")), Err(Error::InvalidUrl(_))));
    assert_eq!(base_url(None, Some("example.com"), Some("65535")).unwrap(), "http://example.com:65535/");
    assert!(matches!(base_url(None, Some("example.com"), Some("+")), Err(Error::InvalidUrl(_))));
    assert!(matches!(base_url(None, Some("example.com"), Some("99999999999")), Err(Error::InvalidUrl(_))));
}
