//! The forward-proxy client's logic: URL parsing and minimal upstream
//! response parsing (content type, chunked or length-framed body).
//!
//! The outbound connection and the byte exchange live in the embedding
//! runtime; it hands the raw upstream bytes back to [`Proxy::parse_http_response_bytes`].
use vstd::prelude::*;
use crate::bytes::{decode_chunked, spec_header_end};
use crate::request::{lines_of, lines_vec, tokens, tokens_vec};
use crate::response::HTTPResponse;
use crate::text::{all_digits, dec_value, find_sub, has_sub, lower_seq, parse_u64, split_first,
    split_once, starts_with, to_lowercase, trim, trim_spec, utf8_to_string};
use vstd::utf8::{decode_utf8, encode_utf8, valid_utf8};

verus! {

/// The transport scheme of an upstream URL.
#[derive(Clone, Copy, Debug, PartialEq, Eq, Structural)]
pub enum ProxySchema {
    /// Plain-text HTTP, port 80 by default.
    HTTP,
    /// TLS-wrapped HTTPS, port 443 by default.
    HTTPS,
}

/// The parts of a well-formed upstream URL: whether it is HTTPS, the
/// host, the port, and the path.
pub open spec fn spec_parse_url(u: Seq<char>) -> Option<(bool, Seq<char>, u16, Seq<char>)> {
    match find_sub(u, "://"@) {
        None => None,
        Some(i) => {
            let scheme = lower_seq(u.take(i));
            let rest = u.skip(i + 3);
            let hp_path = match split_first(rest, '/') {
                Some((hp, p)) => (hp, seq!['/'] + p),
                None => (rest, "/"@),
            };
            let host_port = hp_path.0;
            let path = hp_path.1;
            match split_first(host_port, ':') {
                Some((h, ps)) => if ps.len() > 0 && all_digits(ps) && dec_value(ps) <= u16::MAX {
                    if scheme == "https"@ {
                        Some((true, h, dec_value(ps) as u16, path))
                    } else if scheme == "http"@ {
                        Some((false, h, dec_value(ps) as u16, path))
                    } else {
                        None
                    }
                } else {
                    None
                },
                None => if scheme == "https"@ {
                    Some((true, host_port, 443u16, path))
                } else if scheme == "http"@ {
                    Some((false, host_port, 80u16, path))
                } else {
                    None
                },
            }
        },
    }
}

/// A small upstream client: the original URL and, once parsed, its host,
/// port, path and scheme.  The runtime opens the connection and performs
/// the exchange.
#[derive(Debug)]
pub struct Proxy {
    /// The URL as supplied by the route configuration.
    pub url: String,
    /// The host name, set by [`Self::parse_url`].
    pub host: String,
    /// The port, set by [`Self::parse_url`].
    pub port: u16,
    /// The path (with query), set by [`Self::parse_url`].
    pub path: String,
    /// The transport scheme, set by [`Self::parse_url`].
    pub scheme: ProxySchema,
}

impl Proxy {
    /// A client over the given URL; [`Self::parse_url`] must succeed
    /// before the other fields mean anything.
    pub fn new(url: String) -> (r: Proxy)
        ensures
            r.url@ == url@,
            r.host@ == Seq::<char>::empty(),
            r.port == 0,
            r.path@ == Seq::<char>::empty(),
            r.scheme == ProxySchema::HTTPS,
    {
        Proxy {
            url,
            host: String::new(),
            port: 0,
            path: String::new(),
            scheme: ProxySchema::HTTPS,
        }
    }

    /// Splits the stored URL into scheme, host, port and path; `None` for
    /// a malformed URL or a scheme other than `http` and `https`, leaving
    /// the fields untouched.
    #[verifier::rlimit(60)]
    pub fn parse_url(&mut self) -> (r: Option<()>)
        ensures
            r is Some <==> spec_parse_url(old(self).url@) is Some,
            r matches Some(_) ==> ({
                let parts = spec_parse_url(old(self).url@)->Some_0;
                &&& final(self).url@ == old(self).url@
                &&& (final(self).scheme == ProxySchema::HTTPS <==> parts.0)
                &&& final(self).host@ == parts.1
                &&& final(self).port == parts.2
                &&& final(self).path@ == parts.3
            }),
            r is None ==> *final(self) == *old(self),
    {
        proof {
            reveal_strlit("https");
            reveal_strlit("http");
            reveal_strlit("://");
            reveal_strlit("/");
            assert(("https"@).len() == 5);
            assert(("http"@).len() == 4);
            assert(("://"@).len() == 3);
            assert(("/"@) =~= seq!['/']);
        }
        let ulen = self.url.as_str().unicode_len();
        let sep = match crate::text::find_sub_at(self.url.as_str(), "://") {
            Some(i) => i,
            None => {
                return None;
            },
        };
        let scheme = to_lowercase(self.url.as_str().substring_char(0, sep));
        let rest = String::from_str(self.url.as_str().substring_char(sep + 3, ulen));
        proof {
            assert(scheme@ =~= lower_seq(self.url@.take(sep as int)));
            assert(rest@ =~= self.url@.skip(sep + 3));
        }
        let (host_port, path) = match split_once(rest.as_str(), '/') {
            Some((hp, p)) => {
                let mut slash = String::from_str("/");
                slash.append(p.as_str());
                (hp, slash)
            },
            None => (rest, String::from_str("/")),
        };
        let (host, port) = match split_once(host_port.as_str(), ':') {
            Some((h, ps)) => {
                let n = match parse_u64(ps.as_str()) {
                    Some(n) => n,
                    None => {
                        return None;
                    },
                };
                if n > 65535 {
                    return None;
                }
                (h, n as u16)
            },
            None => {
                let d: u16 = if crate::text::str_eq(scheme.as_str(), "https") {
                    443
                } else if crate::text::str_eq(scheme.as_str(), "http") {
                    80
                } else {
                    return None;
                };
                (host_port, d)
            },
        };
        let is_https = if crate::text::str_eq(scheme.as_str(), "https") {
            true
        } else if crate::text::str_eq(scheme.as_str(), "http") {
            false
        } else {
            return None;
        };
        self.host = host;
        self.port = port;
        self.path = path;
        self.scheme = if is_https {
            ProxySchema::HTTPS
        } else {
            ProxySchema::HTTP
        };
        Some(())
    }

    /// Parses a raw upstream response: the body (chunked-decoded or cut to
    /// the declared length) and the declared content type.
    pub fn parse_http_response_bytes(response: &[u8]) -> (r: (Vec<u8>, String))
        ensures
            r.0@ == upstream_body(response@),
            r.1@ == upstream_content_type(response@),
    {
        proof {
            reveal_strlit("text/html");
        }
        let rlen = response.len();
        let p = match crate::bytes::find_header_end(response) {
            Some(p) => p,
            None => {
                let body = crate::bytes::copy_range(response, 0, rlen);
                proof {
                    assert(body@ =~= response@);
                }
                return (body, String::from_str("text/html"));
            },
        };
        let head = crate::bytes::copy_range(response, 0, p);
        proof {
            assert(head@ =~= response@.take(p as int));
        }
        let rest = crate::bytes::copy_range(response, p + 4, rlen);
        proof {
            assert(rest@ =~= response@.skip(p + 4));
        }
        let text = match utf8_to_string(head.as_slice()) {
            Some(t) => t,
            None => {
                return (rest, String::from_str("text/html"));
            },
        };
        let lines = lines_vec(text.as_str());
        let ghost ls = lines@.map_values(|l: String| l@);
        let mut content_type = String::from_str("text/html");
        let mut is_chunked = false;
        let mut content_length: Option<usize> = None;
        let mut i: usize = 0;
        while i < lines.len()
            invariant
                0 <= i <= lines@.len(),
                ls == lines@.map_values(|l: String| l@),
                content_type@ == ct_upto(ls, i as int),
                is_chunked == chunked_upto(ls, i as int),
                (match content_length {
                    Some(n) => cl_upto(ls, i as int) == Some(n as nat),
                    None => cl_upto(ls, i as int) is None,
                }),
            decreases lines@.len() - i,
        {
            proof {
                reveal_strlit("content-type:");
                reveal_strlit("transfer-encoding:");
                reveal_strlit("content-length:");
                reveal_strlit("chunked");
            }
            let lower = to_lowercase(lines[i].as_str());
            if starts_with(lower.as_str(), "content-type:") {
                content_type = header_piece(lines[i].as_str());
            }
            if starts_with(lower.as_str(), "transfer-encoding:") && crate::text::contains_sub(
                lower.as_str(),
                "chunked",
            ) {
                is_chunked = true;
            }
            if starts_with(lower.as_str(), "content-length:") {
                content_length = match cl_piece(lines[i].as_str()) {
                    Some(n) => Some(n),
                    None => None,
                };
            }
            i += 1;
        }
        let body: Vec<u8> = if is_chunked {
            crate::bytes::decode_chunked_body(rest.as_slice())
        } else {
            match content_length {
                Some(n) => {
                    let take = if n < rest.len() {
                        n
                    } else {
                        rest.len()
                    };
                    let b = crate::bytes::copy_range(rest.as_slice(), 0, take);
                    proof {
                        assert(b@ =~= rest@.take(take as int));
                    }
                    b
                },
                None => rest,
            }
        };
        (body, content_type)
    }
}

/// The outbound request of a proxied fetch: a minimal GET for the path,
/// closing the connection and asking for the identity coding.
pub open spec fn spec_proxy_request(path: Seq<char>, host: Seq<char>) -> Seq<char> {
    "GET "@ + path + " HTTP/1.1\r\nHost: "@ + host
        + "\r\nConnection: close\r\nAccept-Encoding: identity\r\n\r\n"@
}

/// Builds the bytes of the minimal GET the runtime sends upstream.
pub fn proxy_request_bytes(path: &str, host: &str) -> (r: Vec<u8>)
    ensures
        r@ == encode_utf8(spec_proxy_request(path@, host@)),
{
    let mut s = String::from_str("GET ");
    s.append(path);
    s.append(" HTTP/1.1\r\nHost: ");
    s.append(host);
    s.append("\r\nConnection: close\r\nAccept-Encoding: identity\r\n\r\n");
    proof {
        assert(s@ =~= spec_proxy_request(path@, host@));
    }
    s.as_str().as_bytes_vec()
}

/// The value piece of a header line: the text between the first and the
/// second colon (or everything after the first), trimmed.
pub open spec fn piece_of(l: Seq<char>) -> Seq<char> {
    match split_first(l, ':') {
        None => "text/html"@,
        Some((_, rest)) => trim_spec(
            match split_first(rest, ':') {
                None => rest,
                Some((a, _)) => a,
            },
        ),
    }
}

fn header_piece(line: &str) -> (r: String)
    ensures
        r@ == piece_of(line@),
{
    proof {
        reveal_strlit("text/html");
    }
    match split_once(line, ':') {
        None => String::from_str("text/html"),
        Some((_, rest)) => match split_once(rest.as_str(), ':') {
            None => trim(rest.as_str()),
            Some((a, _)) => trim(a.as_str()),
        },
    }
}

/// The declared content length of a header line, when its piece is a
/// decimal number that fits `usize`.
pub open spec fn cl_of(l: Seq<char>) -> Option<nat> {
    let t = piece_of(l);
    if t.len() > 0 && all_digits(t) && dec_value(t) <= usize::MAX {
        Some(dec_value(t))
    } else {
        None
    }
}

pub(crate) fn cl_piece(line: &str) -> (r: Option<usize>)
    ensures
        r matches Some(n) ==> cl_of(line@) == Some(n as nat),
        r is None ==> cl_of(line@) is None,
{
    let piece = header_piece(line);
    match parse_u64(piece.as_str()) {
        Some(n) => {
            if n <= usize::MAX as u64 {
                Some(n as usize)
            } else {
                None
            }
        },
        None => None,
    }
}

/// True for a line that declares the content type.
pub open spec fn is_ct_line(l: Seq<char>) -> bool {
    "content-type:"@.is_prefix_of(lower_seq(l))
}

/// True for a line that declares the chunked transfer coding.
pub open spec fn is_te_chunked_line(l: Seq<char>) -> bool {
    "transfer-encoding:"@.is_prefix_of(lower_seq(l)) && has_sub(lower_seq(l), "chunked"@)
}

/// True for a line that declares the content length.
pub open spec fn is_cl_line(l: Seq<char>) -> bool {
    "content-length:"@.is_prefix_of(lower_seq(l))
}

/// The declared content type after the first `n` lines; later lines win,
/// `text/html` stands without one.
pub open spec fn ct_upto(ls: Seq<Seq<char>>, n: int) -> Seq<char>
    decreases n,
{
    if n <= 0 {
        "text/html"@
    } else if is_ct_line(ls[n - 1]) {
        piece_of(ls[n - 1])
    } else {
        ct_upto(ls, n - 1)
    }
}

/// Whether any of the first `n` lines declares the chunked coding.
pub open spec fn chunked_upto(ls: Seq<Seq<char>>, n: int) -> bool
    decreases n,
{
    if n <= 0 {
        false
    } else {
        chunked_upto(ls, n - 1) || is_te_chunked_line(ls[n - 1])
    }
}

/// The declared content length after the first `n` lines; later lines win.
pub open spec fn cl_upto(ls: Seq<Seq<char>>, n: int) -> Option<nat>
    decreases n,
{
    if n <= 0 {
        None
    } else if is_cl_line(ls[n - 1]) {
        cl_of(ls[n - 1])
    } else {
        cl_upto(ls, n - 1)
    }
}

/// The header lines of a raw upstream response, when its head decodes as
/// UTF-8; otherwise none.
pub open spec fn upstream_lines(raw: Seq<u8>) -> Option<Seq<Seq<char>>> {
    match spec_header_end(raw) {
        None => None,
        Some(p) => if valid_utf8(raw.take(p)) {
            Some(lines_of(decode_utf8(raw.take(p))))
        } else {
            None
        },
    }
}

/// The content type an upstream response declares; `text/html` without
/// one or without a parsable header block.
pub open spec fn upstream_content_type(raw: Seq<u8>) -> Seq<char> {
    match upstream_lines(raw) {
        None => "text/html"@,
        Some(ls) => ct_upto(ls, ls.len() as int),
    }
}

/// The status an upstream response declares on its first line: the
/// second whitespace token read as a standard code.  A reply without a
/// parsable header block, status token or standard code collapses to
/// `502 Bad Gateway`.
pub open spec fn upstream_status(raw: Seq<u8>) -> crate::status::StatusCode {
    match upstream_lines(raw) {
        None => crate::status::StatusCode::BadGateway,
        Some(ls) => {
            let toks = tokens(ls[0]);
            if toks.len() >= 2 && toks[1].len() > 0 && all_digits(toks[1]) && dec_value(toks[1])
                <= u16::MAX {
                match crate::status::status_of_code(dec_value(toks[1])) {
                    Some(s) => s,
                    None => crate::status::StatusCode::BadGateway,
                }
            } else {
                crate::status::StatusCode::BadGateway
            }
        },
    }
}

/// Reads the status code an upstream response declares.
pub fn upstream_status_code(raw: &[u8]) -> (r: crate::status::StatusCode)
    ensures
        r == upstream_status(raw@),
{
    let rlen = raw.len();
    let p = match crate::bytes::find_header_end(raw) {
        Some(p) => p,
        None => {
            return crate::status::StatusCode::BadGateway;
        },
    };
    let head = crate::bytes::copy_range(raw, 0, p);
    proof {
        assert(head@ =~= raw@.take(p as int));
    }
    let text = match utf8_to_string(head.as_slice()) {
        Some(t) => t,
        None => {
            return crate::status::StatusCode::BadGateway;
        },
    };
    let lines = lines_vec(text.as_str());
    let toks = tokens_vec(lines[0].as_str());
    if toks.len() < 2 {
        return crate::status::StatusCode::BadGateway;
    }
    let n = match parse_u64(toks[1].as_str()) {
        Some(n) => n,
        None => {
            return crate::status::StatusCode::BadGateway;
        },
    };
    if n > 65535 {
        return crate::status::StatusCode::BadGateway;
    }
    match crate::status::StatusCode::from_u16(n as u16) {
        Some(s) => s,
        None => crate::status::StatusCode::BadGateway,
    }
}

/// The body of an upstream response: the whole input without a header
/// terminator; otherwise the bytes after it, chunk-decoded under the
/// chunked coding, or cut to the declared content length.
pub open spec fn upstream_body(raw: Seq<u8>) -> Seq<u8> {
    match spec_header_end(raw) {
        None => raw,
        Some(p) => {
            let rest = raw.skip(p + 4);
            match upstream_lines(raw) {
                None => rest,
                Some(ls) => if chunked_upto(ls, ls.len() as int) {
                    decode_chunked(rest)
                } else {
                    match cl_upto(ls, ls.len() as int) {
                        Some(n) => if n < rest.len() {
                            rest.take(n as int)
                        } else {
                            rest
                        },
                        None => rest,
                    }
                },
            }
        },
    }
}

} // verus!
