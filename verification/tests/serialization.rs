use sunweb::bytes::{decode_chunked_body, find_header_end};
use sunweb::content_types::{ContentType, TextSubType};
use sunweb::cookie::{Cookie, SameSite};
use sunweb::domain::Domain;
use sunweb::header_types::{CacheControl, ConnectionType, ContentEncoding, CspBuilder,
    CspDirective, FrameOption, HttpMethod, ReferrerPolicy, TransferEncoding};
use sunweb::proxy::Proxy;
use sunweb::response::HTTPResponse;
use sunweb::server::ServerConfig;
use sunweb::status::{ResponseCodes, StatusCode};
use sunweb::text::utf8_to_string;
use sunweb::worker::scan_content_length;

#[test]
fn response_serializes_byte_exactly() {
    let mut resp = HTTPResponse::ok();
    resp.set_body_string(String::from("Hello"));
    let bytes = resp.to_bytes();
    let expected = b"HTTP/1.1 200 OK\r\nContent-Type: text/html\r\nContent-Length: 5\r\nConnection: keep-alive\r\n\r\nHello";
    assert_eq!(bytes.as_slice(), &expected[..]);
}

#[test]
fn serialized_header_block_reparses_to_body_length() {
    let mut resp = HTTPResponse::ok();
    resp.set_body_string(String::from("Wikipedia grows"));
    resp.add_header("X-Extra", "yes");
    let bytes = resp.to_bytes();
    let end = find_header_end(bytes.as_slice()).unwrap();
    let head = utf8_to_string(&bytes.as_slice()[..end]).unwrap();
    assert_eq!(scan_content_length(head.as_str()).unwrap(), 15);
}

#[test]
fn status_codes_expose_value_and_reason() {
    assert_eq!(StatusCode::Okay.as_u16(), 200);
    assert_eq!(StatusCode::Okay.as_str(), "OK");
    assert_eq!(StatusCode::NotFound.as_u16(), 404);
    assert_eq!(StatusCode::NotFound.as_str(), "Not Found");
    assert_eq!(StatusCode::InternalServerError.as_u16(), 500);
    assert_eq!(StatusCode::BadGateway.as_u16(), 502);
    assert!(StatusCode::Okay.equals(StatusCode::Okay));
    assert!(!StatusCode::Okay.equals(StatusCode::NotFound));
    assert_eq!(ResponseCodes::ImATeapot.as_u16(), 418);
    assert_eq!(ResponseCodes::ImATeapot.as_str(), "I'm a teapot");
    assert!(ResponseCodes::Created.equals(ResponseCodes::Created));
}

#[test]
fn redirect_carries_location() {
    let resp = HTTPResponse::redirect("/login", false);
    assert_eq!(resp.status_code.as_u16(), 307);
    assert_eq!(resp.get_header("Location").unwrap(), "/login");
    let moved = HTTPResponse::redirect("/new", true);
    assert_eq!(moved.status_code.as_u16(), 308);
}

#[test]
fn header_setters_bind_values() {
    let mut resp = HTTPResponse::ok();
    resp.set_server("sunweb/1");
    resp.set_cache_control("public");
    resp.set_max_age(3600);
    resp.set_etag("abc");
    resp.set_hsts(31536000, true);
    resp.set_xss_protection(true);
    assert_eq!(resp.get_header("Server").unwrap(), "sunweb/1");
    assert_eq!(resp.get_header("cache-control").unwrap(), "max-age=3600");
    assert_eq!(resp.get_header("ETag").unwrap(), "\"abc\"");
    assert_eq!(
        resp.get_header("Strict-Transport-Security").unwrap(),
        "max-age=31536000; includeSubDomains"
    );
    assert_eq!(resp.get_header("X-XSS-Protection").unwrap(), "1; mode=block");
}

#[test]
fn security_and_cors_sets_apply() {
    let mut resp = HTTPResponse::ok();
    resp.apply_security_headers();
    resp.apply_cors_permissive();
    assert_eq!(resp.get_header("X-Content-Type-Options").unwrap(), "nosniff");
    assert_eq!(resp.get_header("X-Frame-Options").unwrap(), "DENY");
    assert_eq!(
        resp.get_header("Content-Security-Policy").unwrap(),
        "default-src 'self'"
    );
    assert_eq!(resp.get_header("Access-Control-Allow-Origin").unwrap(), "*");
    assert_eq!(
        resp.get_header("Access-Control-Allow-Methods").unwrap(),
        "GET, POST, PUT, DELETE, OPTIONS, PATCH"
    );
    assert_eq!(resp.get_header("Access-Control-Max-Age").unwrap(), "86400");
}

#[test]
fn date_header_is_set() {
    let mut resp = HTTPResponse::ok();
    resp.set_date_now();
    let date = resp.get_header("Date").unwrap();
    assert!(!date.is_empty());
    assert!(!date.contains('\r') && !date.contains('\n'));
}

#[test]
fn content_type_shorthands() {
    let mut resp = HTTPResponse::ok();
    resp.set_json();
    assert_eq!(resp.content_type().as_str(), "application/json");
    resp.set_text();
    assert_eq!(resp.content_type().as_str(), "text/plain");
    resp.set_html();
    assert_eq!(resp.content_type().as_str(), "text/html");
}

#[test]
fn content_type_parsing_canonicalizes() {
    assert_eq!(ContentType::from_str("text/css").as_str(), "text/css");
    assert_eq!(ContentType::from_str("text/js").as_str(), "text/javascript");
    assert_eq!(ContentType::from_str("image/jpg").as_str(), "image/jpeg");
    assert_eq!(ContentType::from_str("audio/mp3").as_str(), "audio/mpeg");
    assert_eq!(
        ContentType::from_str("application/vnd.api+json").as_str(),
        "application/vnd.api+json"
    );
    assert_eq!(ContentType::from_str("mystery").as_str(), "unknown/unknown");
    assert_eq!(ContentType::from_str("model/gltf").as_str(), "model/gltf");
    let direct = ContentType::Text(TextSubType::Markdown);
    assert_eq!(direct.as_str(), "text/markdown");
}

#[test]
fn cookie_line_matches_attribute_order() {
    let domain = Domain::new("example.com");
    let cookie = Cookie::new("sid", "abc123", &domain)
        .secure()
        .http_only()
        .path("/admin")
        .same_site(SameSite::Strict);
    assert_eq!(
        cookie.as_string_at(""),
        "sid=abc123; Path=/admin; Domain=example.com; SameSite=Strict; Secure; HttpOnly;"
    );
}

#[test]
fn cookie_with_age_renders_expiry() {
    let domain = Domain::new("example.com");
    let cookie = Cookie::new("sid", "x", &domain).expires(Some(3600));
    let line = cookie.as_string_at("Thu, 01 Jan 2026 00:00:00 GMT");
    assert_eq!(
        line,
        "sid=x; Max-Age=3600; Expires=Thu, 01 Jan 2026 00:00:00 GMT; Path=/; Domain=example.com; SameSite=Lax;"
    );
    let live = cookie.as_string();
    assert!(live.starts_with("sid=x; Max-Age=3600; Expires="));
}

#[test]
fn set_cookie_lines_appear_in_serialized_response() {
    let mut resp = HTTPResponse::ok();
    let domain = Domain::new("example.com");
    resp.message.headers.set_cookie(Cookie::new("a", "1", &domain));
    let bytes = resp.to_bytes();
    let text = String::from_utf8(bytes).unwrap();
    assert!(text.contains("Set-Cookie: a=1; Path=/; Domain=example.com; SameSite=Lax;\r\n"));
}

#[test]
fn expired_cookie_has_zero_age() {
    let mut resp = HTTPResponse::ok();
    let domain = Domain::new("example.com");
    resp.message.headers.expire_cookie(Cookie::new("a", "1", &domain));
    let bytes = resp.to_bytes();
    let text = String::from_utf8(bytes).unwrap();
    assert!(text.contains("Set-Cookie: a=1; Max-Age=0; Expires="));
}

#[test]
fn header_value_types_serialize() {
    assert_eq!(ConnectionType::KeepAlive.as_str(), "keep-alive");
    assert_eq!(ConnectionType::Close.as_str(), "close");
    assert_eq!(CacheControl::NoCache.as_str(), "no-cache");
    assert_eq!(CacheControl::MaxAge(60).as_str(), "max-age=60");
    assert_eq!(
        CacheControl::Multiple(vec![CacheControl::NoCache, CacheControl::NoStore]).as_str(),
        "no-cache, no-store"
    );
    assert_eq!(ContentEncoding::Brotli.as_str(), "br");
    assert_eq!(
        ContentEncoding::Multiple(vec![ContentEncoding::Gzip, ContentEncoding::Identity])
            .as_str(),
        "gzip, identity"
    );
    assert_eq!(TransferEncoding::Chunked.as_str(), "chunked");
    assert_eq!(FrameOption::Deny.as_str(), "DENY");
    assert_eq!(FrameOption::SameOrigin.as_str(), "SAMEORIGIN");
    assert_eq!(HttpMethod::Patch.as_str(), "PATCH");
    assert_eq!(ReferrerPolicy::StrictOriginWhenCrossOrigin.as_str(),
        "strict-origin-when-cross-origin");
}

#[test]
fn csp_builder_joins_directives() {
    let policy = CspBuilder::new()
        .directive(CspDirective::DefaultSrc(vec![String::from("'self'")]))
        .directive(CspDirective::ScriptSrc(vec![
            String::from("'self'"),
            String::from("cdn.example"),
        ]))
        .build();
    assert_eq!(policy, "default-src 'self'; script-src 'self' cdn.example");
}

#[test]
fn chunked_body_decodes() {
    let decoded = decode_chunked_body(b"4\r\nWiki\r\n5\r\npedia\r\n0\r\n\r\n");
    assert_eq!(decoded.as_slice(), b"Wikipedia");
}

#[test]
fn chunked_decode_stops_on_bad_size() {
    let decoded = decode_chunked_body(b"4\r\nWiki\r\nzz\r\npedia\r\n");
    assert_eq!(decoded.as_slice(), b"Wiki");
}

#[test]
fn upstream_response_parses_content_length_and_type() {
    let raw = b"HTTP/1.1 200 OK\r\nContent-Type: text/plain\r\nContent-Length: 5\r\n\r\nhelloEXTRA";
    let (body, ct) = Proxy::parse_http_response_bytes(raw);
    assert_eq!(body.as_slice(), b"hello");
    assert_eq!(ct, "text/plain");
}

#[test]
fn upstream_response_decodes_chunked_body() {
    let raw = b"HTTP/1.1 200 OK\r\nTransfer-Encoding: chunked\r\n\r\n4\r\nWiki\r\n5\r\npedia\r\n0\r\n\r\n";
    let (body, ct) = Proxy::parse_http_response_bytes(raw);
    assert_eq!(body.as_slice(), b"Wikipedia");
    assert_eq!(ct, "text/html");
}

#[test]
fn proxy_relays_upstream_status() {
    let raw = b"HTTP/1.1 404 Not Found\r\nContent-Length: 4\r\n\r\ngone";
    let resp = sunweb::worker::proxy_relay_response(raw);
    assert_eq!(resp.status_code.as_u16(), 404);
    assert_eq!(resp.body().unwrap().as_slice(), b"gone");
    let garbage = sunweb::worker::proxy_relay_response(b"not an http reply");
    assert_eq!(garbage.status_code.as_u16(), 502);
    let unknown = sunweb::worker::proxy_relay_response(b"HTTP/1.1 299 Odd\r\n\r\nx");
    assert_eq!(unknown.status_code.as_u16(), 502);
}

#[test]
fn proxy_request_bytes_frame_the_minimal_get() {
    let bytes = sunweb::proxy::proxy_request_bytes("/page", "example.test");
    let expected = b"GET /page HTTP/1.1\r\nHost: example.test\r\nConnection: close\r\nAccept-Encoding: identity\r\n\r\n";
    assert_eq!(bytes.as_slice(), &expected[..]);
}

#[test]
fn proxy_relay_builds_cors_response() {
    let raw = b"HTTP/1.1 200 OK\r\nContent-Type: application/json\r\nContent-Length: 2\r\n\r\n{}";
    let resp = sunweb::worker::proxy_relay_response(raw);
    assert_eq!(resp.status_code.as_u16(), 200);
    assert_eq!(resp.body().unwrap().as_slice(), b"{}");
    assert_eq!(resp.content_type().as_str(), "application/json");
    assert_eq!(resp.get_header("Access-Control-Allow-Origin").unwrap(), "*");
}

#[test]
fn proxy_url_parsing_handles_schemes_and_ports() {
    let mut p = Proxy::new(String::from("http://example.test/api?x=1"));
    assert!(p.parse_url().is_some());
    assert_eq!(p.host, "example.test");
    assert_eq!(p.port, 80);
    assert_eq!(p.path, "/api?x=1");
    let mut p = Proxy::new(String::from("HTTPS://secure.test"));
    assert!(p.parse_url().is_some());
    assert_eq!(p.port, 443);
    assert_eq!(p.path, "/");
    let mut p = Proxy::new(String::from("http://h.test:8081/x"));
    assert!(p.parse_url().is_some());
    assert_eq!(p.port, 8081);
    let mut p = Proxy::new(String::from("ftp://files.test/x"));
    assert!(p.parse_url().is_none());
    let mut p = Proxy::new(String::from("no-scheme-here"));
    assert!(p.parse_url().is_none());
    let mut p = Proxy::new(String::from("http://h.test:notaport/x"));
    assert!(p.parse_url().is_none());
}

#[test]
fn bad_proxy_url_collapses_to_bad_gateway() {
    let err = sunweb::worker::get_proxy_route(String::from("gopher://old.test")).unwrap_err();
    assert_eq!(err.status_code.as_u16(), 502);
}

#[test]
fn missing_static_content_is_not_found() {
    let resp = sunweb::worker::get_static_file_response(
        String::new(),
        ContentType::Text(TextSubType::Css),
    );
    assert_eq!(resp.status_code.as_u16(), 404);
    let resp = sunweb::worker::get_static_file_response(
        String::from("body { }"),
        ContentType::Text(TextSubType::Css),
    );
    assert_eq!(resp.status_code.as_u16(), 200);
    assert_eq!(resp.content_type().as_str(), "text/css");
    assert_eq!(resp.body().unwrap().as_slice(), b"body { }");
}

#[test]
fn config_renders_bind_address() {
    let config = ServerConfig::new([127, 0, 0, 1], 8080);
    assert_eq!(config.ip_as_string(), "127.0.0.1:8080");
    assert!(!config.using_https);
    let named = config.set_base_domain(String::from("example.com"));
    assert_eq!(named.base_domain, "example.com");
}

#[test]
fn chunk_size_extensions_and_trailers_are_ignored() {
    let decoded = decode_chunked_body(b"4;name=x\r\nWiki\r\n0\r\nTrailer: t\r\n\r\n");
    assert_eq!(decoded.as_slice(), b"Wiki");
}

#[test]
fn upstream_without_terminator_passes_bytes_through() {
    let (body, ct) = Proxy::parse_http_response_bytes(b"garbage without header end");
    assert_eq!(body.as_slice(), b"garbage without header end");
    assert_eq!(ct, "text/html");
}

#[test]
fn upstream_without_framing_takes_whole_tail() {
    let raw = b"HTTP/1.1 200 OK\r\nServer: x\r\n\r\neverything here";
    let (body, ct) = Proxy::parse_http_response_bytes(raw);
    assert_eq!(body.as_slice(), b"everything here");
    assert_eq!(ct, "text/html");
}

#[test]
fn set_body_updates_content_length_header_line() {
    let mut resp = HTTPResponse::ok();
    resp.set_body(vec![1u8, 2, 3]);
    let bytes = resp.to_bytes();
    let text_end = find_header_end(bytes.as_slice()).unwrap();
    let head = utf8_to_string(&bytes.as_slice()[..text_end]).unwrap();
    assert_eq!(scan_content_length(head.as_str()).unwrap(), 3);
    assert_eq!(&bytes[bytes.len() - 3..], &[1u8, 2, 3]);
}
