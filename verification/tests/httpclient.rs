use khronos_runtime::httpclient::{content_length_field, effective_timeout, header_text, headers_list, set_body, BodyValue, Response, ResponseExhausted};
use khronos_runtime::httpclient::{
    check_url, extract_domain_parts, is_not_allowed, resolution_allowed, BodyError, ChunkedBody, IpAddress,
    ResponseExt, UrlError, UrlParts, UrlPolicy,
};

#[test]
fn domain_parts_follow_the_documented_examples() {
    assert_eq!(extract_domain_parts("discord.com"), vec!["discord.com".to_string()]);
    assert_eq!(extract_domain_parts("www.discord.com"), vec!["www.discord.com".to_string(), "discord.com".to_string()]);
    assert_eq!(
        extract_domain_parts("cdn.blah.discord.com"),
        vec!["cdn.blah.discord.com".to_string(), "blah.discord.com".to_string(), "discord.com".to_string()]
    );
    assert_eq!(extract_domain_parts("localhost"), vec!["localhost".to_string()]);
}

fn url(scheme: &str, host: &str, port: Option<u16>, domain: bool) -> UrlParts {
    UrlParts {
        scheme: scheme.to_string(),
        host: Some(host.to_string()),
        port,
        domain: if domain { Some(host.to_string()) } else { None },
    }
}

fn policy(local: bool, white: &[&str], black: &[&str]) -> UrlPolicy {
    UrlPolicy {
        allow_localhost: local,
        domain_whitelist: white.iter().map(|s| s.to_string()).collect(),
        domain_blacklist: black.iter().map(|s| s.to_string()).collect(),
    }
}

#[test]
fn url_rules() {
    let p = policy(false, &[], &["evil.com"]);
    assert!(check_url(&url("https", "discord.com", None, true), &p).is_ok());
    assert!(matches!(check_url(&url("https", "localhost", None, true), &p), Err(UrlError::LocalhostNotAllowed)));
    assert!(matches!(check_url(&url("ftp", "discord.com", None, true), &p), Err(UrlError::SchemeNotAllowed)));
    assert!(matches!(check_url(&url("https", "discord.com", Some(8080), true), &p), Err(UrlError::PortNotAllowed)));
    assert!(matches!(check_url(&url("https", "1.2.3.4", None, false), &p), Err(UrlError::NoDomain)));
    let e = check_url(&url("https", "cdn.evil.com", None, true), &p).unwrap_err();
    assert_eq!(e.message(), "Domain evil.com is blacklisted");
    let local = policy(true, &[], &[]);
    assert!(check_url(&url("http", "127.0.0.1", Some(3000), false), &local).is_ok());
    assert!(matches!(check_url(&url("ws", "localhost", None, true), &local), Err(UrlError::LocalhostScheme)));
    let white = policy(false, &["discord.com"], &[]);
    let e = check_url(&url("https", "example.com", None, true), &white).unwrap_err();
    assert_eq!(e.message(), "Domain example.com is not whitelisted");
    let no_host = UrlParts { scheme: "https".to_string(), host: None, port: None, domain: None };
    assert!(matches!(check_url(&no_host, &p), Err(UrlError::NoHost)));
}

#[test]
fn local_addresses_are_refused() {
    assert!(is_not_allowed(&IpAddress::V4(127, 0, 0, 1)));
    assert!(is_not_allowed(&IpAddress::V4(10, 1, 2, 3)));
    assert!(is_not_allowed(&IpAddress::V4(172, 20, 0, 1)));
    assert!(is_not_allowed(&IpAddress::V4(192, 168, 1, 1)));
    assert!(is_not_allowed(&IpAddress::V4(169, 254, 0, 1)));
    assert!(is_not_allowed(&IpAddress::V4(192, 0, 0, 1)));
    assert!(!is_not_allowed(&IpAddress::V4(192, 0, 0, 9)));
    assert!(is_not_allowed(&IpAddress::V4(255, 255, 255, 255)));
    assert!(!is_not_allowed(&IpAddress::V4(8, 8, 8, 8)));
    assert!(is_not_allowed(&IpAddress::V6(0, 0, 0, 0, 0, 0, 0, 1)));
    assert!(is_not_allowed(&IpAddress::V6(0xfe80, 0, 0, 0, 0, 0, 0, 1)));
    assert!(is_not_allowed(&IpAddress::V6(0xfd00, 0, 0, 0, 0, 0, 0, 1)));
    assert!(!is_not_allowed(&IpAddress::V6(0x2606, 0x4700, 0, 0, 0, 0, 0, 0x1111)));
    assert!(!resolution_allowed(&vec![IpAddress::V4(8, 8, 8, 8), IpAddress::V4(127, 0, 0, 1)], false));
    assert!(resolution_allowed(&vec![IpAddress::V4(127, 0, 0, 1)], true));
    assert!(resolution_allowed(&vec![IpAddress::V4(1, 1, 1, 1)], false));
}

#[test]
fn body_limit() {
    let body = ChunkedBody { chunks: vec![b"hello ".to_vec(), b"world".to_vec()] };
    assert_eq!(body.clone().bytes_limited(11).unwrap(), b"hello world".to_vec());
    assert_eq!(body.bytes_limited(10), Err(BodyError::TooLarge));
    assert_eq!(BodyError::TooLarge.message(), "Response body size exceeds the limit");
}

#[test]
fn headers_and_request_fields() {
    assert_eq!(header_text(&b"text/html".to_vec()), "text/html");
    assert_eq!(header_text(&vec![b'a', 0x80]), "");
    assert_eq!(header_text(&vec![b'a', b'\t', b'b']), "a\tb");
    let list = headers_list(&vec![("x".to_string(), vec![0xff]), ("y".to_string(), b"1".to_vec())]);
    assert_eq!(list, vec![("x".to_string(), String::new(), vec![0xff]), ("y".to_string(), "1".to_string(), b"1".to_vec())]);
    assert_eq!(effective_timeout(None), 5_000_000_000);
    assert_eq!(effective_timeout(Some(7)), 7);
    let mut body = Some(b"old".to_vec());
    assert!(set_body(&mut body, BodyValue::Other).is_err());
    assert_eq!(body, Some(b"old".to_vec()));
    set_body(&mut body, BodyValue::Bytes(b"new".to_vec())).unwrap();
    assert_eq!(body, Some(b"new".to_vec()));
    set_body(&mut body, BodyValue::Nil).unwrap();
    assert_eq!(body, None);
    assert_eq!(content_length_field(None), -1);
    assert_eq!(content_length_field(Some(42)), 42);
    assert_eq!(content_length_field(Some(u64::MAX)), -1);
    let mut resp = Response::new(3u8);
    assert_eq!(resp.get(), Ok(&3));
    assert_eq!(resp.take(), Ok(3));
    assert_eq!(resp.take(), Err(ResponseExhausted::ResponseExhausted));
    assert_eq!(ResponseExhausted::ResponseExhausted.message(), "Response has been exhausted");
}
