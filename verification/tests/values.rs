use mcp_call_proof::digest::{digest_text, sha256};
use mcp_call_proof::json::{put_member, Json};
use mcp_call_proof::text::{
    byte_len, contains_lowered, contains_text, decimal_text, is_blank, joined, same_text,
};
use mcp_call_proof::urls::{
    check_endpoint, check_transport_url, resolve_endpoint, validate_transport_url, UrlParts,
};

fn bytes_of(json: &Json) -> String {
    String::from_utf8(json.to_bytes()).unwrap()
}

fn parts(scheme: &str, host: &str, port: u16) -> UrlParts {
    UrlParts {
        text: format!("{scheme}://{host}:{port}/"),
        scheme: scheme.to_owned(),
        username: String::new(),
        password: None,
        host: Some(host.to_owned()),
        port: Some(port),
    }
}

#[test]
fn digests_have_exact_values() {
    assert_eq!(
        sha256(b""),
        "sha256:e3b0c44298fc1c149afbf4c8996fb92427ae41e4649b934ca495991b7852b855"
    );
    assert_eq!(
        sha256(b"abc"),
        "sha256:ba7816bf8f01cfea414140de5dae2223b00361a396177a9cb410ff61f20015ad"
    );
    assert_eq!(digest_text(&[]), "sha256:");
    assert_eq!(digest_text(&[0, 9, 10, 15, 16, 0x9a, 0xff]), "sha256:00090a0f109aff");
}

#[test]
fn json_is_written_as_usual() {
    assert_eq!(bytes_of(&Json::Null), "null");
    assert_eq!(bytes_of(&Json::Bool(true)), "true");
    assert_eq!(bytes_of(&Json::Bool(false)), "false");
    assert_eq!(bytes_of(&Json::Unsigned(u64::MAX)), "18446744073709551615");
    assert_eq!(bytes_of(&Json::Signed(i64::MIN)), "-9223372036854775808");
    assert_eq!(bytes_of(&Json::Signed(5)), bytes_of(&Json::Unsigned(5)));
    assert_eq!(bytes_of(&Json::Text("a\"\n\u{e9}".to_owned())), "\"a\\\"\\n\u{e9}\"");
    assert_eq!(
        bytes_of(&Json::Array(vec![Json::Null, Json::Array(vec![]), Json::Object(vec![])])),
        "[null,[],{}]"
    );
    let real = serde_json::Number::from_f64(1.5).unwrap();
    assert_eq!(bytes_of(&Json::Number(real)), "1.5");
    assert_eq!(bytes_of(&Json::Number(serde_json::Number::from(5u64))), "5");
}

#[test]
fn members_are_sorted_and_the_last_of_a_name_counts() {
    let mut entries = Vec::new();
    put_member(&mut entries, "b", Json::Unsigned(1));
    put_member(&mut entries, "a", Json::Unsigned(2));
    put_member(&mut entries, "b", Json::Unsigned(3));
    let object = Json::Object(entries);
    assert_eq!(bytes_of(&object), r#"{"a":2,"b":3}"#);
    assert!(matches!(object.get("b"), Some(Json::Unsigned(3))));
    assert!(object.get("c").is_none());
    assert!(Json::Null.get("a").is_none());
    assert_eq!(object.to_value().to_string(), r#"{"a":2,"b":3}"#);
    assert_eq!(object.to_value()["b"], serde_json::Value::from(3u64));
    let copy = object.clone();
    assert_eq!(copy.to_bytes(), object.to_bytes());
}

#[test]
fn json_values_tell_what_they_are() {
    let text = Json::Text("x".to_owned());
    assert_eq!(text.as_str(), Some("x"));
    assert_eq!(Json::Null.as_str(), None);
    assert_eq!(Json::Bool(true).as_bool(), Some(true));
    assert_eq!(text.as_bool(), None);
    assert_eq!(Json::Array(vec![Json::Null]).as_array().map(Vec::len), Some(1));
    assert!(text.as_array().is_none());
    assert!(Json::Object(vec![]).is_object());
    assert!(!Json::Array(vec![]).is_object());
}

#[test]
fn white_space_is_that_of_unicode() {
    let expected: Vec<char> = vec![
        '\u{9}', '\u{a}', '\u{b}', '\u{c}', '\u{d}', '\u{20}', '\u{85}', '\u{a0}', '\u{1680}',
        '\u{2000}', '\u{2001}', '\u{2002}', '\u{2003}', '\u{2004}', '\u{2005}', '\u{2006}',
        '\u{2007}', '\u{2008}', '\u{2009}', '\u{200a}', '\u{2028}', '\u{2029}', '\u{202f}',
        '\u{205f}', '\u{3000}',
    ];
    let found: Vec<char> =
        ('\u{0}'..=char::MAX).filter(|c| is_blank(c.encode_utf8(&mut [0; 4]))).collect();
    assert_eq!(found, expected);
    assert!(is_blank(""));
    assert!(is_blank(" \t\u{3000}"));
    assert!(!is_blank(" x "));
}

#[test]
fn texts_are_compared_and_searched() {
    assert_eq!(byte_len("a\u{e9}\u{20ac}\u{1f600}"), 10);
    assert!(same_text("\u{e9}", "\u{e9}"));
    assert!(!same_text("e", "\u{e9}"));
    assert!(!same_text("a", "ab"));
    assert!(contains_text("a/b", "/"));
    assert!(contains_text("abc", ""));
    assert!(contains_text("abc", "bc"));
    assert!(!contains_text("abc", "cb"));
    assert!(!contains_text("", "a"));
    assert!(contains_lowered("xNOT Foundx", "not found"));
    assert!(!contains_lowered("not found", "NOT"));
    assert!(!contains_lowered("\u{c9}", "\u{e9}"));
    assert_eq!(joined("a", "b"), "ab");
}

#[test]
fn numbers_are_written_in_decimal() {
    for n in [0, 9, 10, 11, 99, 100, 1234567890, u64::MAX] {
        assert_eq!(decimal_text(n), format!("{n}"));
    }
}

#[test]
fn urls_are_taken_apart() {
    let url = validate_transport_url("HTTPS://Host.Example/a?b#c", "http").unwrap();
    assert_eq!(url.text, "https://host.example/a?b#c");
    assert_eq!(url.scheme, "https");
    assert_eq!(url.username, "");
    assert_eq!(url.password, None);
    assert_eq!(url.host, Some("host.example".to_owned()));
    assert_eq!(url.port, Some(443));
    assert_eq!(validate_transport_url("http://h:8080", "http").unwrap().port, Some(8080));
    assert!(validate_transport_url("http://", "http").is_err());
    assert!(validate_transport_url("file:///x", "http").is_err());
}

#[test]
fn parts_of_a_url_decide() {
    assert!(check_transport_url(Some(parts("http", "h", 80)), "http").is_ok());
    assert!(check_transport_url(Some(parts("https", "h", 443)), "http").is_ok());
    assert!(check_transport_url(Some(parts("ws", "h", 80)), "http").is_err());
    assert!(check_transport_url(None, "http").is_err());
    let named = UrlParts { username: "u".to_owned(), ..parts("http", "h", 80) };
    assert!(check_transport_url(Some(named), "http").is_err());
    let secret = UrlParts { password: Some(String::new()), ..parts("http", "h", 80) };
    assert!(check_transport_url(Some(secret), "http").is_err());

    let base = parts("http", "h", 80);
    assert_eq!(check_endpoint(&base, Some(parts("http", "h", 80))).unwrap(), "http://h:80/");
    assert!(check_endpoint(&base, Some(parts("https", "h", 80))).is_err());
    assert!(check_endpoint(&base, Some(parts("http", "i", 80))).is_err());
    assert!(check_endpoint(&base, Some(parts("http", "h", 81))).is_err());
    let hostless = UrlParts { host: None, ..parts("http", "h", 80) };
    assert!(check_endpoint(&base, Some(hostless)).is_err());
    assert!(check_endpoint(&base, None).is_err());
}

#[test]
fn endpoints_are_read_relative_to_their_stream() {
    let url = "http://h.example/a/sse";
    let base = validate_transport_url(url, "sse").unwrap();
    assert_eq!(resolve_endpoint(url, &base, "m").unwrap(), "http://h.example/a/m");
    assert_eq!(resolve_endpoint(url, &base, "/m").unwrap(), "http://h.example/m");
    assert_eq!(
        resolve_endpoint(url, &base, "http://h.example:80/m").unwrap(),
        "http://h.example/m"
    );
    assert!(resolve_endpoint(url, &base, "//i.example/m").is_err());
}
