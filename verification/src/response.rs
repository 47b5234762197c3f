//! HTTP responses: construction, header conveniences, and byte-exact
//! serialization.
use vstd::prelude::*;
use crate::content_types::{ApplicationSubType, AudioSubType, ContentType, ImageSubType,
    TextSubType, VideoSubType};
use crate::cookie::Cookie;
use crate::header_types::{ConnectionType, FrameOption};
use crate::headers::{HTTPHeader, cookie_line_ok, spec_cookie_lines, spec_get_ci, spec_insert,
    spec_value_lines};
use crate::message::{HTTPMessage, body_view};
use crate::status::StatusCode;
use crate::text::{dec_digits, join_with, no_crlf, u64_to_string};
use vstd::utf8::encode_utf8;

verus! {

/// An HTTP response: a status code over an [`HTTPMessage`], mutated until
/// it is ready to be serialized.
#[derive(Debug)]
pub struct HTTPResponse {
    /// The status code of the first response line.
    pub status_code: StatusCode,
    /// The message carrying version, headers and body.
    pub message: HTTPMessage,
}

/// The first lines of the serialized response: the status line, the
/// content-type line, the content-length line when a length is set, and
/// the connection line.
pub open spec fn spec_response_head(r: HTTPResponse) -> Seq<char> {
    r.message.http_version@ + " "@ + dec_digits(r.status_code.spec_code() as nat) + " "@
        + r.status_code.spec_reason() + "\r\n"@ + "Content-Type: "@
        + r.message.headers.content_type.spec_str() + "\r\n"@ + (match r
        .message
        .headers
        .content_length {
        Some(n) => "Content-Length: "@ + dec_digits(n as nat) + "\r\n"@,
        None => Seq::<char>::empty(),
    }) + "Connection: "@ + r.message.headers.connection.spec_str() + "\r\n"@
}

/// The whole serialized header block of the response, given the rendered
/// cookie lines: head, plain header lines, cookie lines, blank line.
pub open spec fn spec_response_text(r: HTTPResponse, cookie_lines: Seq<Seq<char>>) -> Seq<char> {
    spec_response_head(r) + spec_value_lines(r.message.headers.pairs()) + spec_cookie_lines(
        cookie_lines,
    ) + "\r\n"@
}

/// The response keeps everything but its plain header list.
pub open spec fn keeps_rest(new: HTTPResponse, old: HTTPResponse) -> bool {
    &&& new.status_code == old.status_code
    &&& new.message.http_version@ == old.message.http_version@
    &&& body_view(new.message.body) == body_view(old.message.body)
    &&& new.message.headers.content_type == old.message.headers.content_type
    &&& new.message.headers.content_length == old.message.headers.content_length
    &&& new.message.headers.connection == old.message.headers.connection
    &&& new.message.headers.cookies@ == old.message.headers.cookies@
}

impl HTTPResponse {
    /// The view of the plain header list.
    pub open spec fn hdr(self) -> Seq<(Seq<char>, Seq<char>)> {
        self.message.headers.pairs()
    }

    /// A blank `HTTP/1.1` response with the given status code: content type
    /// `text/html`, no content length, `keep-alive`, no body.
    pub fn new(status_code: StatusCode) -> (r: Self)
        ensures
            r.status_code == status_code,
            r.message.http_version@ == "HTTP/1.1"@,
            r.hdr() == Seq::<(Seq<char>, Seq<char>)>::empty(),
            r.message.headers.content_type == ContentType::Text(TextSubType::Html),
            r.message.headers.content_length is None,
            r.message.headers.connection is KeepAlive,
            r.message.headers.cookies@ == Seq::<Cookie>::empty(),
            r.message.body is None,
    {
        let headers = HTTPHeader::new(Vec::new());
        let message = HTTPMessage::new(String::from_str("HTTP/1.1"), headers);
        proof {
            assert(crate::headers::pairs_view(Seq::<(String, String)>::empty()) =~= Seq::<
                (Seq<char>, Seq<char>),
            >::empty());
        }
        HTTPResponse { status_code, message }
    }

    /// A blank `200 OK` response.
    pub fn ok() -> (r: Self)
        ensures
            r.status_code == StatusCode::Okay,
            r.message.http_version@ == "HTTP/1.1"@,
            r.hdr() == Seq::<(Seq<char>, Seq<char>)>::empty(),
            r.message.headers.content_type == ContentType::Text(TextSubType::Html),
            r.message.headers.content_length is None,
            r.message.headers.connection is KeepAlive,
            r.message.headers.cookies@ == Seq::<Cookie>::empty(),
            r.message.body is None,
    {
        Self::new(StatusCode::Okay)
    }

    /// A blank `404 Not Found` response.
    pub fn not_found() -> (r: Self)
        ensures
            r.status_code == StatusCode::NotFound,
            r.message.http_version@ == "HTTP/1.1"@,
            r.hdr() == Seq::<(Seq<char>, Seq<char>)>::empty(),
            r.message.headers.content_type == ContentType::Text(TextSubType::Html),
            r.message.headers.content_length is None,
            r.message.headers.connection is KeepAlive,
            r.message.headers.cookies@ == Seq::<Cookie>::empty(),
            r.message.body is None,
    {
        Self::new(StatusCode::NotFound)
    }

    /// A blank `500 Internal Server Error` response.
    pub fn internal_error() -> (r: Self)
        ensures
            r.status_code == StatusCode::InternalServerError,
            r.message.http_version@ == "HTTP/1.1"@,
            r.hdr() == Seq::<(Seq<char>, Seq<char>)>::empty(),
            r.message.headers.content_type == ContentType::Text(TextSubType::Html),
            r.message.headers.content_length is None,
            r.message.headers.connection is KeepAlive,
            r.message.headers.cookies@ == Seq::<Cookie>::empty(),
            r.message.body is None,
    {
        Self::new(StatusCode::InternalServerError)
    }

    /// A blank `405 Method Not Allowed` response.
    pub fn method_not_allowed() -> (r: Self)
        ensures
            r.status_code == StatusCode::MethodNotAllowed,
            r.message.http_version@ == "HTTP/1.1"@,
            r.hdr() == Seq::<(Seq<char>, Seq<char>)>::empty(),
            r.message.headers.content_type == ContentType::Text(TextSubType::Html),
            r.message.headers.content_length is None,
            r.message.headers.connection is KeepAlive,
            r.message.headers.cookies@ == Seq::<Cookie>::empty(),
            r.message.body is None,
    {
        Self::new(StatusCode::MethodNotAllowed)
    }

    /// A blank `502 Bad Gateway` response.
    pub fn bad_gateway() -> (r: Self)
        ensures
            r.status_code == StatusCode::BadGateway,
            r.message.http_version@ == "HTTP/1.1"@,
            r.hdr() == Seq::<(Seq<char>, Seq<char>)>::empty(),
            r.message.headers.content_type == ContentType::Text(TextSubType::Html),
            r.message.headers.content_length is None,
            r.message.headers.connection is KeepAlive,
            r.message.headers.cookies@ == Seq::<Cookie>::empty(),
            r.message.body is None,
    {
        Self::new(StatusCode::BadGateway)
    }

    /// A redirect carrying a `Location` header: `308 Permanent Redirect`
    /// when permanent, `307 Temporary Redirect` otherwise.
    pub fn redirect(location: &str, permanent: bool) -> (r: Self)
        ensures
            r.status_code == (if permanent {
                StatusCode::PermanentRedirect
            } else {
                StatusCode::TemporaryRedirect
            }),
            r.hdr() == seq![("Location"@, location@)],
            r.message.http_version@ == "HTTP/1.1"@,
            r.message.body is None,
            r.message.headers.content_length is None,
    {
        let status = if permanent {
            StatusCode::PermanentRedirect
        } else {
            StatusCode::TemporaryRedirect
        };
        let mut response = Self::new(status);
        response.set_location(location);
        proof {
            assert(spec_insert(Seq::<(Seq<char>, Seq<char>)>::empty(), "Location"@, location@)
                =~= seq![("Location"@, location@)]);
        }
        response
    }

    /// Binds an arbitrary header on the response.
    pub fn add_header(&mut self, key: &str, value: &str)
        ensures
            final(self).hdr() == spec_insert(old(self).hdr(), key@, value@),
            keeps_rest(*final(self), *old(self)),
    {
        self.message.headers.add_header(key, value);
    }

    /// Looks a header up by name, case-insensitively.
    pub fn get_header(&self, name: &str) -> (r: Option<String>)
        ensures
            r matches Some(v) ==> spec_get_ci(self.hdr(), name@) == Some(v@),
            r is None ==> spec_get_ci(self.hdr(), name@) is None,
    {
        self.message.headers.get_header(name)
    }

    /// The header block of the response.
    pub fn headers(&self) -> (r: &HTTPHeader)
        ensures
            r == self.message.headers,
    {
        &self.message.headers
    }

    /// Replaces the body and sets `Content-Length` to its byte length.
    pub fn set_body(&mut self, body: Vec<u8>)
        ensures
            final(self).message.body == Some(body),
            final(self).message.headers.content_length == Some(body@.len() as u64),
            final(self).hdr() == old(self).hdr(),
            final(self).status_code == old(self).status_code,
            final(self).message.http_version@ == old(self).message.http_version@,
            final(self).message.headers.content_type == old(self).message.headers.content_type,
            final(self).message.headers.connection == old(self).message.headers.connection,
            final(self).message.headers.cookies@ == old(self).message.headers.cookies@,
    {
        self.message.headers.content_length = Some(body.len() as u64);
        self.message.body = Some(body);
    }

    /// Replaces the body with the UTF-8 bytes of the given text.
    pub fn set_body_string(&mut self, body: String)
        ensures
            body_view(final(self).message.body) == Some(encode_utf8(body@)),
            final(self).message.headers.content_length == Some(encode_utf8(body@).len() as u64),
            final(self).hdr() == old(self).hdr(),
            final(self).status_code == old(self).status_code,
            final(self).message.http_version@ == old(self).message.http_version@,
            final(self).message.headers.content_type == old(self).message.headers.content_type,
            final(self).message.headers.connection == old(self).message.headers.connection,
            final(self).message.headers.cookies@ == old(self).message.headers.cookies@,
    {
        let bytes = body.as_str().as_bytes_vec();
        self.set_body(bytes);
    }

    /// The body bytes, when a body is set.
    pub fn body(&self) -> (r: Option<&Vec<u8>>)
        ensures
            r matches Some(b) ==> self.message.body == Some(*b),
            r is None ==> self.message.body is None,
    {
        match &self.message.body {
            Some(b) => Some(b),
            None => None,
        }
    }

    /// Sets the `Date` header to the current time.
    pub fn set_date_now(&mut self)
        ensures
            exists|d: Seq<char>|
                no_crlf(d) && final(self).hdr() == spec_insert(old(self).hdr(), "Date"@, d),
            keeps_rest(*final(self), *old(self)),
    {
        self.message.headers.set_date_now();
    }

    /// Sets the `Server` header.
    pub fn set_server(&mut self, server_name: &str)
        ensures
            final(self).hdr() == spec_insert(old(self).hdr(), "Server"@, server_name@),
            keeps_rest(*final(self), *old(self)),
    {
        self.message.headers.set_server(server_name);
    }

    /// Sets the `Location` header.
    pub fn set_location(&mut self, url: &str)
        ensures
            final(self).hdr() == spec_insert(old(self).hdr(), "Location"@, url@),
            keeps_rest(*final(self), *old(self)),
    {
        self.message.headers.set_location(url);
    }

    /// Sets the `Cache-Control` header.
    pub fn set_cache_control(&mut self, directive: &str)
        ensures
            final(self).hdr() == spec_insert(old(self).hdr(), "Cache-Control"@, directive@),
            keeps_rest(*final(self), *old(self)),
    {
        self.message.headers.set_cache_control(directive);
    }

    /// Disables caching through `Cache-Control`, `Pragma` and `Expires`.
    pub fn set_no_cache(&mut self)
        ensures
            final(self).hdr() == spec_insert(
                spec_insert(
                    spec_insert(
                        old(self).hdr(),
                        "Cache-Control"@,
                        "no-cache, no-store, must-revalidate"@,
                    ),
                    "Pragma"@,
                    "no-cache"@,
                ),
                "Expires"@,
                "0"@,
            ),
            keeps_rest(*final(self), *old(self)),
    {
        self.message.headers.set_no_cache();
    }

    /// Sets `Cache-Control: max-age=N`.
    pub fn set_max_age(&mut self, seconds: u64)
        ensures
            final(self).hdr() == spec_insert(
                old(self).hdr(),
                "Cache-Control"@,
                "max-age="@ + dec_digits(seconds as nat),
            ),
            keeps_rest(*final(self), *old(self)),
    {
        self.message.headers.set_max_age(seconds);
    }

    /// Sets the `ETag` header, quoting the tag.
    pub fn set_etag(&mut self, etag: &str)
        ensures
            final(self).hdr() == spec_insert(old(self).hdr(), "ETag"@, "\""@ + etag@ + "\""@),
            keeps_rest(*final(self), *old(self)),
    {
        self.message.headers.set_etag(etag);
    }

    /// Sets the `Content-Encoding` header.
    pub fn set_content_encoding(&mut self, encoding: &str)
        ensures
            final(self).hdr() == spec_insert(old(self).hdr(), "Content-Encoding"@, encoding@),
            keeps_rest(*final(self), *old(self)),
    {
        self.message.headers.set_content_encoding(encoding);
    }

    /// Sets the `Transfer-Encoding` header.
    pub fn set_transfer_encoding(&mut self, encoding: &str)
        ensures
            final(self).hdr() == spec_insert(old(self).hdr(), "Transfer-Encoding"@, encoding@),
            keeps_rest(*final(self), *old(self)),
    {
        self.message.headers.set_transfer_encoding(encoding);
    }

    /// Sets `X-Content-Type-Options: nosniff`.
    pub fn set_nosniff(&mut self)
        ensures
            final(self).hdr() == spec_insert(
                old(self).hdr(),
                "X-Content-Type-Options"@,
                "nosniff"@,
            ),
            keeps_rest(*final(self), *old(self)),
    {
        self.message.headers.set_nosniff();
    }

    /// Sets the `X-Frame-Options` header.
    pub fn set_frame_options(&mut self, option: FrameOption)
        ensures
            final(self).hdr() == spec_insert(
                old(self).hdr(),
                "X-Frame-Options"@,
                option.spec_str(),
            ),
            keeps_rest(*final(self), *old(self)),
    {
        self.message.headers.set_frame_options(option);
    }

    /// Sets the `Strict-Transport-Security` header.
    pub fn set_hsts(&mut self, max_age_seconds: u64, include_subdomains: bool)
        ensures
            final(self).hdr() == spec_insert(
                old(self).hdr(),
                "Strict-Transport-Security"@,
                "max-age="@ + dec_digits(max_age_seconds as nat) + (if include_subdomains {
                    "; includeSubDomains"@
                } else {
                    Seq::<char>::empty()
                }),
            ),
            keeps_rest(*final(self), *old(self)),
    {
        self.message.headers.set_hsts(max_age_seconds, include_subdomains);
    }

    /// Sets the `Content-Security-Policy` header.
    pub fn set_csp(&mut self, policy: &str)
        ensures
            final(self).hdr() == spec_insert(old(self).hdr(), "Content-Security-Policy"@, policy@),
            keeps_rest(*final(self), *old(self)),
    {
        self.message.headers.set_csp(policy);
    }

    /// Sets `X-XSS-Protection`: blocking mode when enabled, `0` otherwise.
    pub fn set_xss_protection(&mut self, enabled: bool)
        ensures
            final(self).hdr() == spec_insert(
                old(self).hdr(),
                "X-XSS-Protection"@,
                if enabled {
                    "1; mode=block"@
                } else {
                    "0"@
                },
            ),
            keeps_rest(*final(self), *old(self)),
    {
        self.message.headers.set_xss_protection(enabled);
    }

    /// Applies the conservative security header set.
    pub fn apply_security_headers(&mut self)
        ensures
            final(self).hdr() == spec_insert(
                spec_insert(
                    spec_insert(
                        spec_insert(old(self).hdr(), "X-Content-Type-Options"@, "nosniff"@),
                        "X-Frame-Options"@,
                        "DENY"@,
                    ),
                    "X-XSS-Protection"@,
                    "1; mode=block"@,
                ),
                "Content-Security-Policy"@,
                "default-src 'self'"@,
            ),
            keeps_rest(*final(self), *old(self)),
    {
        self.message.headers.apply_security_headers();
    }

    /// Sets `Access-Control-Allow-Origin`.
    pub fn set_cors_origin(&mut self, origin: &str)
        ensures
            final(self).hdr() == spec_insert(
                old(self).hdr(),
                "Access-Control-Allow-Origin"@,
                origin@,
            ),
            keeps_rest(*final(self), *old(self)),
    {
        self.message.headers.set_cors_origin(origin);
    }

    /// Sets `Access-Control-Allow-Methods` to the comma-joined methods.
    pub fn set_cors_methods(&mut self, methods: &Vec<String>)
        ensures
            final(self).hdr() == spec_insert(
                old(self).hdr(),
                "Access-Control-Allow-Methods"@,
                join_with(methods@.map_values(|m: String| m@), ", "@),
            ),
            keeps_rest(*final(self), *old(self)),
    {
        self.message.headers.set_cors_methods(methods);
    }

    /// Sets `Access-Control-Allow-Headers` to the comma-joined names.
    pub fn set_cors_headers(&mut self, headers: &Vec<String>)
        ensures
            final(self).hdr() == spec_insert(
                old(self).hdr(),
                "Access-Control-Allow-Headers"@,
                join_with(headers@.map_values(|h: String| h@), ", "@),
            ),
            keeps_rest(*final(self), *old(self)),
    {
        self.message.headers.set_cors_headers(headers);
    }

    /// Sets `Access-Control-Max-Age`.
    pub fn set_cors_max_age(&mut self, seconds: u64)
        ensures
            final(self).hdr() == spec_insert(
                old(self).hdr(),
                "Access-Control-Max-Age"@,
                dec_digits(seconds as nat),
            ),
            keeps_rest(*final(self), *old(self)),
    {
        self.message.headers.set_cors_max_age(seconds);
    }

    /// Sets `Access-Control-Allow-Credentials: true` when allowed.
    pub fn set_cors_credentials(&mut self, allow: bool)
        ensures
            allow ==> final(self).hdr() == spec_insert(
                old(self).hdr(),
                "Access-Control-Allow-Credentials"@,
                "true"@,
            ),
            !allow ==> final(self).hdr() == old(self).hdr(),
            keeps_rest(*final(self), *old(self)),
    {
        self.message.headers.set_cors_credentials(allow);
    }

    /// Applies the permissive CORS set.
    pub fn apply_cors_permissive(&mut self)
        ensures
            final(self).hdr() == spec_insert(
                spec_insert(
                    spec_insert(
                        spec_insert(old(self).hdr(), "Access-Control-Allow-Origin"@, "*"@),
                        "Access-Control-Allow-Methods"@,
                        "GET, POST, PUT, DELETE, OPTIONS, PATCH"@,
                    ),
                    "Access-Control-Allow-Headers"@,
                    "*"@,
                ),
                "Access-Control-Max-Age"@,
                "86400"@,
            ),
            keeps_rest(*final(self), *old(self)),
    {
        self.message.headers.apply_cors_permissive();
    }

    /// Overwrites the typed `Content-Type` of the response.
    pub fn set_content_type(&mut self, content_type: ContentType)
        ensures
            final(self).message.headers.content_type == content_type,
            final(self).hdr() == old(self).hdr(),
            final(self).status_code == old(self).status_code,
            final(self).message.http_version@ == old(self).message.http_version@,
            body_view(final(self).message.body) == body_view(old(self).message.body),
            final(self).message.headers.content_length == old(self).message.headers.content_length,
            final(self).message.headers.connection == old(self).message.headers.connection,
            final(self).message.headers.cookies@ == old(self).message.headers.cookies@,
    {
        self.message.headers.content_type = content_type;
    }

    /// The typed `Content-Type` of the response.
    pub fn content_type(&self) -> (r: &ContentType)
        ensures
            r == self.message.headers.content_type,
    {
        &self.message.headers.content_type
    }

    /// Sets `Content-Type: application/json`.
    pub fn set_json(&mut self)
        ensures
            final(self).message.headers.content_type == ContentType::Application(
                ApplicationSubType::Json,
            ),
            final(self).hdr() == old(self).hdr(),
            final(self).status_code == old(self).status_code,
            body_view(final(self).message.body) == body_view(old(self).message.body),
            final(self).message.headers.content_length == old(self).message.headers.content_length,
    {
        self.set_content_type(ContentType::Application(ApplicationSubType::Json));
    }

    /// Sets `Content-Type: text/html`.
    pub fn set_html(&mut self)
        ensures
            final(self).message.headers.content_type == ContentType::Text(TextSubType::Html),
            final(self).hdr() == old(self).hdr(),
            final(self).status_code == old(self).status_code,
            body_view(final(self).message.body) == body_view(old(self).message.body),
            final(self).message.headers.content_length == old(self).message.headers.content_length,
    {
        self.set_content_type(ContentType::Text(TextSubType::Html));
    }

    /// Sets `Content-Type: text/plain`.
    pub fn set_text(&mut self)
        ensures
            final(self).message.headers.content_type == ContentType::Text(TextSubType::Plain),
            final(self).hdr() == old(self).hdr(),
            final(self).status_code == old(self).status_code,
            body_view(final(self).message.body) == body_view(old(self).message.body),
            final(self).message.headers.content_length == old(self).message.headers.content_length,
    {
        self.set_content_type(ContentType::Text(TextSubType::Plain));
    }

    /// Sets a `video/*` content type.
    pub fn set_video(&mut self, subtype: VideoSubType)
        ensures
            final(self).message.headers.content_type == ContentType::Video(subtype),
            final(self).hdr() == old(self).hdr(),
            final(self).status_code == old(self).status_code,
            body_view(final(self).message.body) == body_view(old(self).message.body),
            final(self).message.headers.content_length == old(self).message.headers.content_length,
    {
        self.set_content_type(ContentType::Video(subtype));
    }

    /// Sets an `audio/*` content type.
    pub fn set_audio(&mut self, subtype: AudioSubType)
        ensures
            final(self).message.headers.content_type == ContentType::Audio(subtype),
            final(self).hdr() == old(self).hdr(),
            final(self).status_code == old(self).status_code,
            body_view(final(self).message.body) == body_view(old(self).message.body),
            final(self).message.headers.content_length == old(self).message.headers.content_length,
    {
        self.set_content_type(ContentType::Audio(subtype));
    }

    /// Sets an `image/*` content type.
    pub fn set_image(&mut self, subtype: ImageSubType)
        ensures
            final(self).message.headers.content_type == ContentType::Image(subtype),
            final(self).hdr() == old(self).hdr(),
            final(self).status_code == old(self).status_code,
            body_view(final(self).message.body) == body_view(old(self).message.body),
            final(self).message.headers.content_length == old(self).message.headers.content_length,
    {
        self.set_content_type(ContentType::Image(subtype));
    }

    /// Serializes the response: status line, `Content-Type`, the
    /// `Content-Length` when set, `Connection`, the remaining headers and
    /// `Set-Cookie` lines, a blank line, then the body bytes verbatim.
    pub fn to_bytes(&self) -> (r: Vec<u8>)
        ensures
            exists|lines: Seq<Seq<char>>|
                {
                    &&& lines.len() == self.message.headers.cookies@.len()
                    &&& (forall|i: int|
                        0 <= i < lines.len() ==> cookie_line_ok(
                            self.message.headers.cookies@[i],
                            #[trigger] lines[i],
                        ))
                    &&& r@ == encode_utf8(spec_response_text(*self, lines)) + (match self
                        .message
                        .body {
                        Some(b) => b@,
                        None => Seq::<u8>::empty(),
                    })
                },
    {
        let mut s = self.message.http_version.clone();
        s.append(" ");
        let code = u64_to_string(self.status_code.as_u16() as u64);
        s.append(code.as_str());
        s.append(" ");
        s.append(self.status_code.as_str());
        s.append("\r\n");
        s.append("Content-Type: ");
        let ct = self.message.headers.content_type.as_str();
        s.append(ct.as_str());
        s.append("\r\n");
        if let Some(len) = self.message.headers.content_length {
            s.append("Content-Length: ");
            let n = u64_to_string(len);
            s.append(n.as_str());
            s.append("\r\n");
        }
        s.append("Connection: ");
        let conn = self.message.headers.connection.as_str();
        s.append(conn.as_str());
        s.append("\r\n");
        let rest = self.message.headers.as_str();
        s.append(rest.as_str());
        s.append("\r\n");
        let ghost lines = choose|lines: Seq<Seq<char>>|
            {
                &&& lines.len() == self.message.headers.cookies@.len()
                &&& (forall|i: int|
                    0 <= i < lines.len() ==> cookie_line_ok(
                        self.message.headers.cookies@[i],
                        #[trigger] lines[i],
                    ))
                &&& rest@ == spec_value_lines(self.message.headers.pairs()) + spec_cookie_lines(
                    lines,
                )
            };
        proof {
            assert(s@ =~= spec_response_text(*self, lines));
        }
        let mut bytes = s.as_str().as_bytes_vec();
        if let Some(body) = &self.message.body {
            bytes.extend_from_slice(body.as_slice());
        }
        proof {
            if self.message.body is None {
                assert(bytes@ =~= encode_utf8(spec_response_text(*self, lines)) + Seq::<
                    u8,
                >::empty());
            }
        }
        bytes
    }
}

} // verus!
