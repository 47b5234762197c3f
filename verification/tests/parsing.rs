use sunweb::request::HTTPRequest;
use sunweb::route::HTTPMethod;

#[test]
fn parse_reads_request_line() {
    let req = HTTPRequest::parse(b"GET /search?q=rust HTTP/1.1\r\nHost: example.com\r\n\r\n")
        .unwrap();
    assert!(matches!(req.method, HTTPMethod::GET));
    assert_eq!(req.path(), "/search?q=rust");
    assert_eq!(req.message.http_version, "HTTP/1.1");
}

#[test]
fn parse_rejects_empty_input() {
    let err = HTTPRequest::parse(b"").unwrap_err();
    assert_eq!(err, "Empty request");
}

#[test]
fn parse_rejects_malformed_request_line() {
    let err = HTTPRequest::parse(b"GET /\r\n\r\n").unwrap_err();
    assert_eq!(err, "Invalid request line format");
}

#[test]
fn parse_rejects_unknown_method() {
    let err = HTTPRequest::parse(b"BREW /pot HTTP/1.1\r\n\r\n").unwrap_err();
    assert_eq!(err, "Unknown HTTP method: BREW");
}

#[test]
fn parse_rejects_invalid_encoding() {
    let err = HTTPRequest::parse(b"GET /\xff\xfe HTTP/1.1\r\n\r\n").unwrap_err();
    assert_eq!(err, "Invalid UTF-8 in request");
}

#[test]
fn parse_accepts_lower_case_method() {
    let req = HTTPRequest::parse(b"get / HTTP/1.1\r\nHost: h\r\n\r\n").unwrap();
    assert!(matches!(req.method, HTTPMethod::GET));
}

#[test]
fn headers_are_case_insensitive() {
    let req = HTTPRequest::parse(b"GET / HTTP/1.1\r\nHost: example.com\r\nX-Tag: v\r\n\r\n")
        .unwrap();
    assert_eq!(req.get_header("host").unwrap(), "example.com");
    assert_eq!(req.get_header("X-TAG").unwrap(), "v");
    assert!(req.has_header("x-tag"));
    assert!(!req.has_header("missing"));
    assert_eq!(req.host().unwrap(), "example.com");
}

#[test]
fn body_is_cut_to_content_length() {
    let req = HTTPRequest::parse(
        b"POST /in HTTP/1.1\r\nHost: h\r\nContent-Length: 5\r\n\r\nhello world",
    )
    .unwrap();
    assert_eq!(req.body().unwrap().as_slice(), b"hello");
    assert_eq!(req.body_string().unwrap(), "hello");
    assert_eq!(req.body_bytes().unwrap(), b"hello".to_vec());
    assert!(req.has_body());
    assert_eq!(req.content_length().unwrap(), 5);
}

#[test]
fn short_body_is_dropped() {
    let req = HTTPRequest::parse(b"POST / HTTP/1.1\r\nContent-Length: 50\r\n\r\nshort").unwrap();
    assert!(req.body().is_none());
    assert!(!req.has_body());
}

#[test]
fn query_params_are_percent_decoded() {
    let req = HTTPRequest::parse(b"GET /s?q=a%20b&lang=rust&flag HTTP/1.1\r\nHost: h\r\n\r\n")
        .unwrap();
    assert_eq!(req.query_param("q").unwrap(), "a b");
    assert_eq!(req.query_param("lang").unwrap(), "rust");
    assert_eq!(req.query_param("flag").unwrap(), "");
    assert!(req.query_param("none").is_none());
    assert_eq!(req.all_query_params().len(), 3);
}

#[test]
fn plus_decodes_to_space() {
    let req = HTTPRequest::parse(b"GET /s?q=a+b HTTP/1.1\r\nHost: h\r\n\r\n").unwrap();
    assert_eq!(req.query_param("q").unwrap(), "a b");
}

#[test]
fn query_param_conversions() {
    let req = HTTPRequest::parse(
        b"GET /s?n=42&neg=-7&yes=YES&no=0&bad=maybe HTTP/1.1\r\nHost: h\r\n\r\n",
    )
    .unwrap();
    assert_eq!(req.query_param_int("n").unwrap(), 42);
    assert_eq!(req.query_param_int("neg").unwrap(), -7);
    assert!(req.query_param_int("yes").is_none());
    assert_eq!(req.query_param_bool("yes"), Some(true));
    assert_eq!(req.query_param_bool("no"), Some(false));
    assert_eq!(req.query_param_bool("bad"), None);
    assert_eq!(req.query_param_or("n", "0"), "42");
    assert_eq!(req.query_param_or("none", "fallback"), "fallback");
}

#[test]
fn cookies_use_request_host_as_domain() {
    let req = HTTPRequest::parse(
        b"GET / HTTP/1.1\r\nHost: example.com\r\nCookie: sid=abc; theme = dark \r\n\r\n",
    )
    .unwrap();
    assert_eq!(req.all_cookies().len(), 2);
    let sid = req.cookie("sid").unwrap();
    assert_eq!(sid.value, "abc");
    assert_eq!(sid.domain.name, "example.com");
    let theme = req.cookie("theme").unwrap();
    assert_eq!(theme.value, "dark");
    assert!(req.has_cookie("sid"));
    assert!(!req.has_cookie("other"));
}

#[test]
fn url_encoded_form_params_are_parsed() {
    let req = HTTPRequest::parse(
        b"POST /f HTTP/1.1\r\nHost: h\r\nContent-Type: application/x-www-form-urlencoded\r\nContent-Length: 17\r\n\r\nname=a%20b&age=30",
    )
    .unwrap();
    assert_eq!(req.form_param("name").unwrap(), "a b");
    assert_eq!(req.form_param_int("age").unwrap(), 30);
    assert_eq!(req.all_form_params().len(), 2);
}

#[test]
fn json_form_params_are_parsed() {
    let body = b"{\"name\":\"ada\",\"age\":36,\"ok\":true,\"gone\":null}";
    let raw = format!(
        "POST /f HTTP/1.1\r\nHost: h\r\nContent-Type: application/json\r\nContent-Length: {}\r\n\r\n",
        body.len()
    );
    let mut bytes = raw.into_bytes();
    bytes.extend_from_slice(body);
    let req = HTTPRequest::parse(&bytes).unwrap();
    assert_eq!(req.form_param("name").unwrap(), "ada");
    assert_eq!(req.form_param("age").unwrap(), "36");
    assert_eq!(req.form_param("ok").unwrap(), "true");
    assert_eq!(req.form_param("gone").unwrap(), "");
}

#[test]
fn path_params_are_injected_by_hand() {
    let mut req = HTTPRequest::parse(b"GET /u/7 HTTP/1.1\r\nHost: h\r\n\r\n").unwrap();
    req.set_path_param(String::from("id"), String::from("7"));
    assert_eq!(req.path_param("id").unwrap(), "7");
    assert_eq!(req.path_param_int("id").unwrap(), 7);
    assert_eq!(req.all_path_params().len(), 1);
}

#[test]
fn connection_directive_is_derived_from_header() {
    let close = HTTPRequest::parse(b"GET / HTTP/1.1\r\nConnection: close\r\n\r\n").unwrap();
    assert!(!sunweb::worker::should_keep_alive(&close));
    let keep = HTTPRequest::parse(b"GET / HTTP/1.1\r\nConnection: keep-alive\r\n\r\n").unwrap();
    assert!(sunweb::worker::should_keep_alive(&keep));
    let none = HTTPRequest::parse(b"GET / HTTP/1.1\r\nHost: h\r\n\r\n").unwrap();
    assert!(sunweb::worker::should_keep_alive(&none));
}

#[test]
fn content_type_accessor_parses_header() {
    let req = HTTPRequest::parse(b"GET / HTTP/1.1\r\nContent-Type: application/json\r\n\r\n")
        .unwrap();
    assert_eq!(req.content_type().unwrap().as_str(), "application/json");
    assert_eq!(req.get_content_type().as_str(), "application/json");
    let bare = HTTPRequest::parse(b"GET / HTTP/1.1\r\nHost: h\r\n\r\n").unwrap();
    assert!(bare.content_type().is_none());
    assert_eq!(bare.get_content_type().as_str(), "application/octetstream");
}

#[test]
fn method_names_round_trip() {
    let names = [
        "GET", "HEAD", "OPTIONS", "TRACE", "PUT", "DELETE", "POST", "PATCH", "CONNECT",
    ];
    for name in names.iter() {
        let m = HTTPMethod::from_str(name).unwrap();
        assert_eq!(&m.as_str(), name);
    }
    assert!(HTTPMethod::from_str("SPLICE").is_err());
}

#[test]
fn request_complete_tracks_declared_length() {
    assert!(!sunweb::worker::request_complete(b"GET / HTTP/1.1\r\n"));
    assert!(sunweb::worker::request_complete(b"GET / HTTP/1.1\r\nHost: h\r\n\r\n"));
    assert!(!sunweb::worker::request_complete(
        b"POST / HTTP/1.1\r\nContent-Length: 5\r\n\r\nhel"
    ));
    assert!(sunweb::worker::request_complete(
        b"POST / HTTP/1.1\r\nContent-Length: 5\r\n\r\nhello"
    ));
}

#[test]
fn duplicate_query_keys_keep_the_last_value() {
    let req = HTTPRequest::parse(b"GET /s?k=one&k=two HTTP/1.1\r\nHost: h\r\n\r\n").unwrap();
    assert_eq!(req.query_param("k").unwrap(), "two");
    assert_eq!(req.all_query_params().len(), 1);
}

#[test]
fn percent_escapes_decode_to_bytes() {
    let req = HTTPRequest::parse(b"GET /s?q=%41%42%2F HTTP/1.1\r\nHost: h\r\n\r\n").unwrap();
    assert_eq!(req.query_param("q").unwrap(), "AB/");
    let req = HTTPRequest::parse(b"GET /s?q=%zz HTTP/1.1\r\nHost: h\r\n\r\n").unwrap();
    assert_eq!(req.query_param("q").unwrap(), "");
}

#[test]
fn multibyte_body_decodes_as_utf8() {
    let body = "caf\u{e9}".as_bytes();
    let raw = format!(
        "POST / HTTP/1.1\r\nHost: h\r\nContent-Length: {}\r\n\r\n",
        body.len()
    );
    let mut bytes = raw.into_bytes();
    bytes.extend_from_slice(body);
    let req = HTTPRequest::parse(&bytes).unwrap();
    assert_eq!(req.body_string().unwrap(), "caf\u{e9}");
}

#[test]
fn cookie_without_host_gets_empty_domain() {
    let req = HTTPRequest::parse(b"GET / HTTP/1.1\r\nCookie: a=1\r\n\r\n").unwrap();
    assert_eq!(req.cookie("a").unwrap().domain.name, "");
}

#[test]
fn oversized_content_length_is_rejected() {
    let req = HTTPRequest::parse(
        b"POST / HTTP/1.1\r\nContent-Length: 99999999999999999999\r\n\r\nhi",
    )
    .unwrap();
    assert!(req.body().is_none());
    assert!(req.content_length().is_none());
}
