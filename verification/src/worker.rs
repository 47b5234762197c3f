//! Per-connection decisions for the embedding runtime's worker loop:
//! when an accumulated request is complete, how long its body is, whether
//! to keep the connection alive, and how runtime actions (file loads,
//! upstream fetches) complete into responses.
use vstd::prelude::*;
use crate::bytes::{find_header_end, spec_header_end};
use crate::content_types::{ContentType, content_type_canon};
use crate::headers::spec_insert;
use crate::message::body_view;
use crate::proxy::{Proxy, cl_of, is_cl_line, spec_parse_url, upstream_body, upstream_content_type,
    upstream_status};
use crate::request::{HTTPRequest, lines_of, lines_vec};
use crate::response::HTTPResponse;
use crate::router::blank_response;
use crate::status::StatusCode;
use crate::text::{starts_with, to_lowercase, utf8_to_string};
use vstd::utf8::{decode_utf8, encode_utf8, valid_utf8};

verus! {

/// The length the first content-length line of a header block declares:
/// the first line beginning `content-length:` (ignoring case), its value
/// read as a number.
pub open spec fn first_cl(ls: Seq<Seq<char>>) -> Option<nat>
    decreases ls.len(),
{
    if ls.len() == 0 {
        None
    } else if is_cl_line(ls[0]) {
        cl_of(ls[0])
    } else {
        first_cl(ls.drop_first())
    }
}

/// Scans a header block's text for the first declared content length.
pub fn scan_content_length(head: &str) -> (r: Option<usize>)
    ensures
        r matches Some(n) ==> first_cl(lines_of(head@)) == Some(n as nat),
        r is None ==> first_cl(lines_of(head@)) is None,
{
    let lines = lines_vec(head);
    let ghost ls = lines@.map_values(|l: String| l@);
    let mut i: usize = 0;
    proof {
        assert(ls.skip(0) =~= ls);
    }
    while i < lines.len()
        invariant
            0 <= i <= lines@.len(),
            ls == lines@.map_values(|l: String| l@),
            first_cl(lines_of(head@)) == first_cl(ls.skip(i as int)),
        decreases lines@.len() - i,
    {
        proof {
            reveal_strlit("content-length:");
        }
        let ghost rem = ls.skip(i as int);
        let lower = to_lowercase(lines[i].as_str());
        if starts_with(lower.as_str(), "content-length:") {
            return crate::proxy::cl_piece(lines[i].as_str());
        }
        proof {
            assert(rem.drop_first() =~= ls.skip(i + 1));
        }
        i += 1;
    }
    proof {
        assert(ls.skip(lines@.len() as int) =~= Seq::<Seq<char>>::empty());
    }
    None
}

/// Whether an accumulated buffer holds one complete request: the header
/// terminator, and past it the declared body length's worth of bytes
/// (nothing more is owed without a parsable declared length).
pub open spec fn spec_request_complete(b: Seq<u8>) -> bool {
    match spec_header_end(b) {
        None => false,
        Some(p) => {
            let need = if valid_utf8(b.take(p)) {
                match first_cl(lines_of(decode_utf8(b.take(p)))) {
                    Some(n) => n,
                    None => 0,
                }
            } else {
                0
            };
            b.len() >= p + 4 + need
        },
    }
}

/// Decides whether the buffer holds a complete request, so the runtime's
/// read loop can stop.
pub fn request_complete(buffer: &[u8]) -> (r: bool)
    ensures
        r == spec_request_complete(buffer@),
{
    let len = buffer.len();
    let p = match find_header_end(buffer) {
        Some(p) => p,
        None => {
            return false;
        },
    };
    let head = crate::bytes::copy_range(buffer, 0, p);
    proof {
        assert(head@ =~= buffer@.take(p as int));
    }
    let need: usize = match utf8_to_string(head.as_slice()) {
        Some(text) => match scan_content_length(text.as_str()) {
            Some(n) => n,
            None => 0,
        },
        None => 0,
    };
    len - (p + 4) >= need
}

/// True when the request's connection directive keeps the connection open
/// for another exchange.
pub fn should_keep_alive(request: &HTTPRequest) -> (r: bool)
    ensures
        r == (request.message.headers.connection is KeepAlive),
{
    request.message.headers.connection.is_keep_alive()
}

/// Completes a static-route dispatch once the runtime has loaded the
/// file: empty content stands for a missing file and yields 404, anything
/// else is served with status 200 and the inferred content type.
pub fn get_static_file_response(content: String, content_type: ContentType) -> (r: HTTPResponse)
    ensures
        content@.len() == 0 ==> blank_response(r, StatusCode::NotFound),
        content@.len() > 0 ==> {
            &&& r.status_code == StatusCode::Okay
            &&& body_view(r.message.body) == Some(encode_utf8(content@))
            &&& r.message.headers.content_length == Some(encode_utf8(content@).len() as u64)
            &&& r.message.headers.content_type == content_type
            &&& r.hdr() == Seq::<(Seq<char>, Seq<char>)>::empty()
            &&& r.message.headers.connection is KeepAlive
        },
{
    if content.as_str().unicode_len() == 0 {
        return HTTPResponse::not_found();
    }
    let mut response = HTTPResponse::ok();
    response.set_body_string(content);
    response.set_content_type(content_type);
    response
}

/// Prepares the upstream client for a proxied request: parses the URL the
/// dispatcher produced; a malformed URL or unsupported scheme collapses
/// to a blank 502.
pub fn get_proxy_route(url: String) -> (r: Result<Proxy, HTTPResponse>)
    ensures
        r matches Ok(p) ==> spec_parse_url(url@) matches Some(parts) && {
            &&& p.url@ == url@
            &&& (p.scheme is HTTPS <==> parts.0)
            &&& p.host@ == parts.1
            &&& p.port == parts.2
            &&& p.path@ == parts.3
        },
        r matches Err(resp) ==> spec_parse_url(url@) is None && blank_response(
            resp,
            StatusCode::BadGateway,
        ),
{
    let mut proxy = Proxy::new(url);
    match proxy.parse_url() {
        Some(_) => Ok(proxy),
        None => Err(HTTPResponse::bad_gateway()),
    }
}

/// Relays a raw upstream response: the declared status (a malformed or
/// non-standard status line collapses to 502), the upstream body
/// (chunk-decoded or cut to its declared length), the declared content
/// type, and the permissive CORS header set.
pub fn proxy_relay_response(raw: &[u8]) -> (r: HTTPResponse)
    ensures
        r.status_code == upstream_status(raw@),
        body_view(r.message.body) == Some(upstream_body(raw@)),
        r.message.headers.content_length == Some(upstream_body(raw@).len() as u64),
        r.message.headers.content_type.spec_str() == content_type_canon(
            upstream_content_type(raw@),
        ),
        r.hdr() == spec_insert(
            spec_insert(
                spec_insert(
                    spec_insert(
                        Seq::<(Seq<char>, Seq<char>)>::empty(),
                        "Access-Control-Allow-Origin"@,
                        "*"@,
                    ),
                    "Access-Control-Allow-Methods"@,
                    "GET, POST, PUT, DELETE, OPTIONS, PATCH"@,
                ),
                "Access-Control-Allow-Headers"@,
                "*"@,
            ),
            "Access-Control-Max-Age"@,
            "86400"@,
        ),
{
    let status = crate::proxy::upstream_status_code(raw);
    let (body, content_type) = Proxy::parse_http_response_bytes(raw);
    let mut response = HTTPResponse::new(status);
    response.set_body(body);
    let ct = ContentType::from_str(content_type.as_str());
    response.set_content_type(ct);
    response.apply_cors_permissive();
    response
}

} // verus!
