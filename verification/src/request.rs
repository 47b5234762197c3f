//! HTTP request parsing and parameter accessors: the request line, the
//! header block, the body, and the derived query, form and cookie data.
use vstd::prelude::*;
use crate::bytes::{copy_range, find_header_end, spec_header_end};
use crate::content_types::{ApplicationSubType, ContentType, content_type_canon};
use crate::cookie::Cookie;
use crate::domain::Domain;
use crate::header_types::ConnectionType;
use crate::headers::{HTTPHeader, pairs_view, spec_get_ci, spec_insert};
use crate::message::{HTTPMessage, body_view};
use crate::route::{HTTPMethod, method_of};
use crate::text::{all_digits, dec_value, has_sub, hex_char_digit, hex_char_val, int_rep,
    is_hex_char, lower_seq, parse_i64, parse_u64, split_char, split_first, split_once, split_seq,
    trim, trim_spec, upper_seq, utf8_to_string};
use vstd::utf8::{decode_utf8, valid_utf8};

verus! {

/// A line with any trailing carriage return removed.
pub open spec fn strip_cr(l: Seq<char>) -> Seq<char> {
    if l.len() > 0 && l.last() == '\r' {
        l.drop_last()
    } else {
        l
    }
}

/// The lines of a header block: split at line feeds, each line stripped of
/// a trailing carriage return.
pub open spec fn lines_of(text: Seq<char>) -> Seq<Seq<char>> {
    split_seq(text, '\n').map_values(|l: Seq<char>| strip_cr(l))
}

/// The whitespace-separated tokens of a line.
pub open spec fn tokens(line: Seq<char>) -> Seq<Seq<char>> {
    split_seq(line, ' ').filter(|p: Seq<char>| p.len() > 0)
}

/// The header pairs gathered from the given lines, up to the first empty
/// line; a line without a colon is skipped, names and values are trimmed.
pub open spec fn header_pairs(
    acc: Seq<(Seq<char>, Seq<char>)>,
    ls: Seq<Seq<char>>,
) -> Seq<(Seq<char>, Seq<char>)>
    decreases ls.len(),
{
    if ls.len() == 0 {
        acc
    } else if ls[0].len() == 0 {
        acc
    } else {
        match split_first(ls[0], ':') {
            None => header_pairs(acc, ls.drop_first()),
            Some((a, b)) => header_pairs(
                spec_insert(acc, trim_spec(a), trim_spec(b)),
                ls.drop_first(),
            ),
        }
    }
}

/// Percent-decoding: `%XY` becomes the byte the two hexadecimal digits
/// denote (or nothing when they are not digits), `+` becomes a space, and
/// every other character stands for itself.
pub open spec fn url_decode_spec(s: Seq<char>) -> Seq<char>
    decreases s.len(),
{
    if s.len() == 0 {
        Seq::<char>::empty()
    } else if s[0] == '%' {
        if s.len() >= 3 {
            (if is_hex_char(s[1]) && is_hex_char(s[2]) {
                seq![(((hex_char_val(s[1]) * 16 + hex_char_val(s[2])) as u8) as char)]
            } else {
                Seq::<char>::empty()
            }) + url_decode_spec(s.skip(3))
        } else {
            Seq::<char>::empty()
        }
    } else if s[0] == '+' {
        seq![' '] + url_decode_spec(s.drop_first())
    } else {
        seq![s[0]] + url_decode_spec(s.drop_first())
    }
}

/// Folds `key=value` pieces into a parameter list, percent-decoding both
/// sides; a piece without `=` becomes a key with an empty value.
pub open spec fn qp_fold(
    acc: Seq<(Seq<char>, Seq<char>)>,
    pieces: Seq<Seq<char>>,
) -> Seq<(Seq<char>, Seq<char>)>
    decreases pieces.len(),
{
    if pieces.len() == 0 {
        acc
    } else {
        match split_first(pieces[0], '=') {
            Some((k, v)) => qp_fold(
                spec_insert(acc, url_decode_spec(k), url_decode_spec(v)),
                pieces.drop_first(),
            ),
            None => qp_fold(
                spec_insert(acc, url_decode_spec(pieces[0]), Seq::<char>::empty()),
                pieces.drop_first(),
            ),
        }
    }
}

/// The query parameters of a request target: the `&`-separated pairs after
/// the first `?`, or none without one.
pub open spec fn query_map(path: Seq<char>) -> Seq<(Seq<char>, Seq<char>)> {
    match split_first(path, '?') {
        None => Seq::<(Seq<char>, Seq<char>)>::empty(),
        Some((p, q)) => qp_fold(Seq::<(Seq<char>, Seq<char>)>::empty(), split_seq(q, '&')),
    }
}

/// Folds the `;`-separated pieces of a `Cookie` header into (name, value)
/// pairs, trimming both sides; a piece without `=` is skipped.
pub open spec fn ck_fold(
    acc: Seq<(Seq<char>, Seq<char>)>,
    pieces: Seq<Seq<char>>,
) -> Seq<(Seq<char>, Seq<char>)>
    decreases pieces.len(),
{
    if pieces.len() == 0 {
        acc
    } else {
        match split_first(pieces[0], '=') {
            Some((a, b)) => ck_fold(acc.push((trim_spec(a), trim_spec(b))), pieces.drop_first()),
            None => ck_fold(acc, pieces.drop_first()),
        }
    }
}

/// The (name, value) pairs of a `Cookie` header line.
pub open spec fn cookie_pairs(h: Seq<char>) -> Seq<(Seq<char>, Seq<char>)> {
    ck_fold(Seq::<(Seq<char>, Seq<char>)>::empty(), split_seq(h, ';'))
}

/// What the top-level members of a JSON object body parse to, rendered as
/// strings in the object map's key order.  Relied on through `serde_json`,
/// whose result depends on the body text alone.
pub uninterp spec fn json_form_pairs(s: Seq<char>) -> Option<Seq<(Seq<char>, Seq<char>)>>;

/// Reads the body as a JSON object and renders each top-level member as a
/// string: strings keep their text, null becomes empty, anything else its
/// JSON rendering.
///
/// Relies on `serde_json::from_str`, `Value::as_object` and the `Value`
/// renderings via `to_string`: all are functions of the body text alone,
/// and the object map iterates its members in key order.
#[verifier::external_body]
fn json_object_strings(body: &str) -> (r: Option<Vec<(String, String)>>)
    ensures
        r matches Some(v) ==> json_form_pairs(body@) == Some(pairs_view(v@)),
        r is None ==> json_form_pairs(body@) is None,
{
    let value: serde_json::Value = serde_json::from_str(body).ok()?;
    let obj = value.as_object()?;
    let mut out = Vec::new();
    for (key, val) in obj {
        out.push((key.clone(), match val {
            serde_json::Value::String(s) => s.clone(),
            serde_json::Value::Null => String::new(),
            other => other.to_string(),
        }));
    }
    Some(out)
}

/// Folds ready (key, value) pairs into a parameter list.
pub open spec fn pair_fold(
    acc: Seq<(Seq<char>, Seq<char>)>,
    ps: Seq<(Seq<char>, Seq<char>)>,
) -> Seq<(Seq<char>, Seq<char>)>
    decreases ps.len(),
{
    if ps.len() == 0 {
        acc
    } else {
        pair_fold(spec_insert(acc, ps[0].0, ps[0].1), ps.drop_first())
    }
}

/// The form parameters a body contributes under the given `Content-Type`
/// value: url-encoded pairs, the members of a JSON object, or nothing.
pub open spec fn form_map(
    acc: Seq<(Seq<char>, Seq<char>)>,
    body: Option<Seq<u8>>,
    ct: Seq<char>,
) -> Seq<(Seq<char>, Seq<char>)> {
    match body {
        None => acc,
        Some(bs) => if !valid_utf8(bs) {
            acc
        } else {
            let s = decode_utf8(bs);
            if has_sub(ct, "application/x-www-form-urlencoded"@) {
                qp_fold(acc, split_seq(s, '&'))
            } else if has_sub(ct, "application/json"@) {
                match json_form_pairs(s) {
                    Some(ps) => pair_fold(acc, ps),
                    None => acc,
                }
            } else {
                acc
            }
        },
    }
}

/// The value of a header in a pair list, or empty text when it is absent.
pub open spec fn header_or_empty(
    ps: Seq<(Seq<char>, Seq<char>)>,
    name: Seq<char>,
) -> Seq<char> {
    match spec_get_ci(ps, name) {
        Some(v) => v,
        None => Seq::<char>::empty(),
    }
}

/// The connection directive a request header value denotes.
pub open spec fn conn_matches(c: ConnectionType, v: Option<Seq<char>>) -> bool {
    match v {
        None => c is KeepAlive,
        Some(s) => {
            &&& (c is KeepAlive <==> lower_seq(s) == "keep-alive"@)
            &&& (c is Close <==> lower_seq(s) == "close"@)
            &&& (c is Upgrade <==> lower_seq(s) == "upgrade"@)
            &&& (c matches ConnectionType::Other(t) ==> t@ == s)
        },
    }
}

/// The body a raw request carries: the bytes after the header terminator,
/// cut to the declared `Content-Length`; none without a full declared
/// length's worth of bytes, a parsable length, or a terminator.
pub open spec fn req_body(raw: Seq<u8>, ps: Seq<(Seq<char>, Seq<char>)>) -> Option<Seq<u8>> {
    match spec_header_end(raw) {
        None => None,
        Some(p) => match spec_get_ci(ps, "Content-Length"@) {
            None => None,
            Some(cl) => if cl.len() > 0 && all_digits(cl) && dec_value(cl) <= usize::MAX {
                let n = dec_value(cl);
                let rest = raw.skip(p + 4);
                if rest.len() >= n {
                    Some(rest.take(n as int))
                } else {
                    None
                }
            } else {
                None
            },
        },
    }
}

/// The header block text of a raw request: the bytes before the header
/// terminator, or all of the input without one.
pub open spec fn head_bytes(raw: Seq<u8>) -> Seq<u8> {
    match spec_header_end(raw) {
        None => raw,
        Some(p) => raw.take(p),
    }
}

/// Why parsing the raw request fails, if it must.
pub open spec fn parse_failure(raw: Seq<u8>) -> Option<Seq<char>> {
    if !valid_utf8(head_bytes(raw)) {
        Some("Invalid UTF-8 in request"@)
    } else {
        let text = decode_utf8(head_bytes(raw));
        if text.len() == 0 {
            Some("Empty request"@)
        } else {
            let toks = tokens(lines_of(text)[0]);
            if toks.len() != 3 {
                Some("Invalid request line format"@)
            } else if method_of(upper_seq(toks[0])) is None {
                Some("Unknown HTTP method: "@ + toks[0])
            } else {
                None
            }
        }
    }
}

/// The parsed request agrees with the raw bytes: request line, headers,
/// connection directive, body, and the derived query, cookie and form data.
pub open spec fn parses_to(raw: Seq<u8>, req: HTTPRequest) -> bool {
    let text = decode_utf8(head_bytes(raw));
    let ls = lines_of(text);
    let toks = tokens(ls[0]);
    let ps = header_pairs(Seq::<(Seq<char>, Seq<char>)>::empty(), ls.drop_first());
    &&& valid_utf8(head_bytes(raw))
    &&& toks.len() == 3
    &&& method_of(upper_seq(toks[0])) == Some(req.method)
    &&& req.path@ == toks[1]
    &&& req.message.http_version@ == toks[2]
    &&& req.message.headers.pairs() == ps
    &&& conn_matches(req.message.headers.connection, spec_get_ci(ps, "Connection"@))
    &&& req.message.headers.content_length is None
    &&& req.message.headers.cookies@ == Seq::<Cookie>::empty()
    &&& body_view(req.message.body) == req_body(raw, ps)
    &&& pairs_view(req.query_params@) == query_map(req.path@)
    &&& req.path_params@ == Seq::<(String, String)>::empty()
    &&& cookies_ok(req.cookie_jar@, ps)
    &&& pairs_view(req.form_params@) == form_map(
        Seq::<(Seq<char>, Seq<char>)>::empty(),
        body_view(req.message.body),
        header_or_empty(ps, "Content-Type"@),
    )
}

/// The cookie jar lists exactly the pairs of the `Cookie` header, each with
/// the request's host as its domain and default attributes.
pub open spec fn cookies_ok(jar: Seq<Cookie>, ps: Seq<(Seq<char>, Seq<char>)>) -> bool {
    match spec_get_ci(ps, "Cookie"@) {
        None => jar.len() == 0,
        Some(h) => {
            let cps = cookie_pairs(h);
            let host = header_or_empty(ps, "Host"@);
            &&& jar.len() == cps.len()
            &&& (forall|i: int|
                0 <= i < jar.len() ==> {
                    &&& (#[trigger] jar[i]).key@ == cps[i].0
                    &&& jar[i].value@ == cps[i].1
                    &&& jar[i].domain.name@ == host
                    &&& jar[i].max_age is None
                    &&& jar[i].path@ == "/"@
                    &&& jar[i].same_site is Lax
                    &&& !jar[i].secure
                    &&& !jar[i].is_http_only
                })
        },
    }
}

/// A parsed HTTP/1.1 request: the request line, the header block, the body
/// when one was declared, and the derived query, path, form and cookie
/// parameters.
#[derive(Debug)]
pub struct HTTPRequest {
    /// The HTTP verb of the request.
    pub method: HTTPMethod,
    /// The request target as written on the wire, query string included.
    pub path: String,
    /// The underlying message: version, headers, body.
    pub message: HTTPMessage,
    /// The parsed query parameters, in first-appearance order.
    pub query_params: Vec<(String, String)>,
    /// Path parameters injected by a router.
    pub path_params: Vec<(String, String)>,
    /// Form parameters from a url-encoded or JSON body.
    pub form_params: Vec<(String, String)>,
    /// The cookies sent in the `Cookie` header.
    pub cookie_jar: Vec<Cookie>,
}

/// The lines of a header block as owned strings.
pub(crate) fn lines_vec(text: &str) -> (r: Vec<String>)
    ensures
        r@.map_values(|l: String| l@) == lines_of(text@),
        r@.len() >= 1,
{
    let pieces = split_char(text, '\n');
    let ghost views = pieces@.map_values(|p: String| p@);
    let mut out: Vec<String> = Vec::new();
    let mut i: usize = 0;
    proof {
        assert(out@.map_values(|l: String| l@) =~= views.take(0).map_values(
            |l: Seq<char>| strip_cr(l),
        ));
    }
    while i < pieces.len()
        invariant
            0 <= i <= pieces@.len(),
            views == pieces@.map_values(|p: String| p@),
            out@.len() == i,
            out@.map_values(|l: String| l@) == views.take(i as int).map_values(
                |l: Seq<char>| strip_cr(l),
            ),
        decreases pieces@.len() - i,
    {
        let plen = pieces[i].as_str().unicode_len();
        let stripped: String = if plen > 0 && pieces[i].as_str().get_char(plen - 1) == '\r' {
            String::from_str(pieces[i].as_str().substring_char(0, plen - 1))
        } else {
            pieces[i].clone()
        };
        proof {
            assert(views[i as int].subrange(0, views[i as int].len() - 1) =~= views[
                i as int].drop_last());
            assert(stripped@ == strip_cr(views[i as int]));
        }
        out.push(stripped);
        proof {
            assert(views.take(i + 1) =~= views.take(i as int).push(views[i as int]));
            assert(out@.map_values(|l: String| l@) =~= views.take(i as int).map_values(
                |l: Seq<char>| strip_cr(l),
            ).push(strip_cr(views[i as int])));
            assert(views.take(i as int).push(views[i as int]).map_values(
                |l: Seq<char>| strip_cr(l),
            ) =~= views.take(i as int).map_values(|l: Seq<char>| strip_cr(l)).push(
                strip_cr(views[i as int]),
            ));
        }
        i += 1;
    }
    proof {
        assert(views.take(pieces@.len() as int) =~= views);
    }
    out
}

/// The whitespace-separated tokens of a line, as owned strings.
pub(crate) fn tokens_vec(line: &str) -> (r: Vec<String>)
    ensures
        r@.map_values(|t: String| t@) == tokens(line@),
{
    let pieces = split_char(line, ' ');
    let ghost views = pieces@.map_values(|p: String| p@);
    let mut out: Vec<String> = Vec::new();
    let mut i: usize = 0;
    proof {
        reveal(Seq::filter);
        assert(views.take(0) =~= Seq::<Seq<char>>::empty());
        assert(out@.map_values(|t: String| t@) =~= views.take(0).filter(
            |p: Seq<char>| p.len() > 0,
        ));
    }
    while i < pieces.len()
        invariant
            0 <= i <= pieces@.len(),
            views == pieces@.map_values(|p: String| p@),
            out@.map_values(|t: String| t@) == views.take(i as int).filter(
                |p: Seq<char>| p.len() > 0,
            ),
        decreases pieces@.len() - i,
    {
        proof {
            reveal(Seq::filter);
            assert(views.take(i + 1).drop_last() =~= views.take(i as int));
            assert(views.take(i + 1).last() == views[i as int]);
        }
        if pieces[i].as_str().unicode_len() > 0 {
            out.push(pieces[i].clone());
            proof {
                reveal(Seq::filter);
                assert(out@.map_values(|t: String| t@) =~= out@.drop_last().map_values(
                    |t: String| t@,
                ).push(views[i as int]));
                assert(views.take(i + 1).filter(|p: Seq<char>| p.len() > 0) == views.take(
                    i as int,
                ).filter(|p: Seq<char>| p.len() > 0).push(views[i as int]));
            }
        } else {
            proof {
                reveal(Seq::filter);
                assert(views[i as int].len() == 0);
                assert(views.take(i + 1).filter(|p: Seq<char>| p.len() > 0) == views.take(
                    i as int,
                ).filter(|p: Seq<char>| p.len() > 0));
            }
        }
        i += 1;
    }
    proof {
        assert(views.take(pieces@.len() as int) =~= views);
    }
    out
}

/// Binds `k` to `v` in a parameter list: replaces the value under an
/// existing key, or appends the pair.
pub fn insert_param(map: &mut Vec<(String, String)>, k: String, v: String)
    ensures
        pairs_view(final(map)@) == spec_insert(pairs_view(old(map)@), k@, v@),
{
    let ghost ps = pairs_view(map@);
    let mut i: usize = 0;
    let n = map.len();
    while i < n
        invariant
            0 <= i <= n,
            n == map@.len(),
            ps == pairs_view(map@),
            ps == pairs_view(old(map)@),
            forall|j: int| 0 <= j < i ==> (#[trigger] ps[j]).0 != k@,
        decreases n - i,
    {
        if crate::text::str_eq(map[i].0.as_str(), k.as_str()) {
            proof {
                crate::headers::lemma_spec_insert_at(ps, k@, v@, i as int);
            }
            map.remove(i);
            map.insert(i, (k, v));
            proof {
                assert(pairs_view(map@) =~= ps.take(i as int) + seq![(k@, v@)] + ps.skip(
                    i as int + 1,
                ));
            }
            return ;
        }
        i += 1;
    }
    proof {
        crate::headers::lemma_spec_insert_at(ps, k@, v@, ps.len() as int);
    }
    map.push((k, v));
    proof {
        assert(pairs_view(map@) =~= ps.push((k@, v@)));
    }
}

/// Looks a key up in a parameter list (exact match, first occurrence).
pub fn param_get(map: &Vec<(String, String)>, key: &str) -> (r: Option<String>)
    ensures
        r matches Some(v) ==> crate::headers::spec_get(pairs_view(map@), key@) == Some(v@),
        r is None ==> crate::headers::spec_get(pairs_view(map@), key@) is None,
{
    let ghost ps = pairs_view(map@);
    let n = map.len();
    let mut i: usize = 0;
    while i < n
        invariant
            0 <= i <= n,
            n == map@.len(),
            ps == pairs_view(map@),
            forall|j: int| 0 <= j < i ==> (#[trigger] ps[j]).0 != key@,
        decreases n - i,
    {
        if crate::text::str_eq(map[i].0.as_str(), key) {
            proof {
                crate::headers::lemma_spec_get_at(ps, key@, i as int);
            }
            return Some(map[i].1.clone());
        }
        i += 1;
    }
    proof {
        crate::headers::lemma_spec_get_at(ps, key@, ps.len() as int);
    }
    None
}

impl HTTPRequest {
    /// The view of the query parameter list.
    pub open spec fn qp(self) -> Seq<(Seq<char>, Seq<char>)> {
        pairs_view(self.query_params@)
    }

    /// The view of the path parameter list.
    pub open spec fn pp(self) -> Seq<(Seq<char>, Seq<char>)> {
        pairs_view(self.path_params@)
    }

    /// The view of the form parameter list.
    pub open spec fn fp(self) -> Seq<(Seq<char>, Seq<char>)> {
        pairs_view(self.form_params@)
    }

    /// The request target (path plus optional query).
    pub fn path(&self) -> (r: &str)
        ensures
            r@ == self.path@,
    {
        self.path.as_str()
    }

    /// Case-insensitive header lookup.
    pub fn get_header(&self, name: &str) -> (r: Option<String>)
        ensures
            r matches Some(v) ==> spec_get_ci(self.message.headers.pairs(), name@) == Some(v@),
            r is None ==> spec_get_ci(self.message.headers.pairs(), name@) is None,
    {
        self.message.headers.get_header(name)
    }

    /// The header block of the request.
    pub fn headers(&self) -> (r: &HTTPHeader)
        ensures
            r == self.message.headers,
    {
        &self.message.headers
    }

    /// True when the header is present.
    pub fn has_header(&self, name: &str) -> (r: bool)
        ensures
            r == (spec_get_ci(self.message.headers.pairs(), name@) is Some),
    {
        match self.get_header(name) {
            Some(_) => true,
            None => false,
        }
    }

    /// The parsed `Content-Type` of the request, when the header is set.
    pub fn content_type(&self) -> (r: Option<ContentType>)
        ensures
            r matches Some(ct) ==> spec_get_ci(self.message.headers.pairs(), "Content-Type"@)
                matches Some(v) && ct.spec_str() == content_type_canon(v),
            r is None ==> spec_get_ci(self.message.headers.pairs(), "Content-Type"@) is None,
    {
        match self.get_header("Content-Type") {
            Some(v) => Some(ContentType::from_str(v.as_str())),
            None => None,
        }
    }

    /// The parsed `Content-Type`, falling back to `application/octetstream`
    /// when the header is missing.
    pub fn get_content_type(&self) -> (r: ContentType)
        ensures
            spec_get_ci(self.message.headers.pairs(), "Content-Type"@) matches Some(v) ==> r
                .spec_str() == content_type_canon(v),
            spec_get_ci(self.message.headers.pairs(), "Content-Type"@) is None ==> r.spec_str()
                == "application/"@ + "octetstream"@,
    {
        match self.content_type() {
            Some(ct) => ct,
            None => ContentType::Application(ApplicationSubType::OctetStream),
        }
    }

    /// The parsed `Content-Length`, when present and a valid number.
    pub fn content_length(&self) -> (r: Option<u64>)
        ensures
            r matches Some(n) ==> spec_get_ci(self.message.headers.pairs(), "Content-Length"@)
                matches Some(v) && v.len() > 0 && all_digits(v) && n == dec_value(v),
            r is None ==> (spec_get_ci(self.message.headers.pairs(), "Content-Length"@) is None
                || (spec_get_ci(self.message.headers.pairs(), "Content-Length"@) matches Some(v)
                && (v.len() == 0 || !all_digits(v) || dec_value(v) > u64::MAX))),
    {
        match self.get_header("Content-Length") {
            Some(v) => parse_u64(v.as_str()),
            None => None,
        }
    }

    /// The `User-Agent` header.
    pub fn user_agent(&self) -> (r: Option<String>)
        ensures
            r matches Some(v) ==> spec_get_ci(self.message.headers.pairs(), "User-Agent"@)
                == Some(v@),
            r is None ==> spec_get_ci(self.message.headers.pairs(), "User-Agent"@) is None,
    {
        self.get_header("User-Agent")
    }

    /// The `Host` header.
    pub fn host(&self) -> (r: Option<String>)
        ensures
            r matches Some(v) ==> spec_get_ci(self.message.headers.pairs(), "Host"@) == Some(v@),
            r is None ==> spec_get_ci(self.message.headers.pairs(), "Host"@) is None,
    {
        self.get_header("Host")
    }

    /// The `Authorization` header.
    pub fn authorization(&self) -> (r: Option<String>)
        ensures
            r matches Some(v) ==> spec_get_ci(self.message.headers.pairs(), "Authorization"@)
                == Some(v@),
            r is None ==> spec_get_ci(self.message.headers.pairs(), "Authorization"@) is None,
    {
        self.get_header("Authorization")
    }

    /// The raw body, when one was read.
    pub fn body(&self) -> (r: Option<&Vec<u8>>)
        ensures
            r matches Some(b) ==> self.message.body == Some(*b),
            r is None ==> self.message.body is None,
    {
        match &self.message.body {
            Some(b) => Some(b),
            None => None,
        }
    }

    /// The body decoded as UTF-8, when possible.
    pub fn body_string(&self) -> (r: Option<String>)
        ensures
            r matches Some(s) ==> body_view(self.message.body) matches Some(b) && valid_utf8(b)
                && s@ == decode_utf8(b),
            r is None ==> self.message.body is None || !valid_utf8(
                body_view(self.message.body)->Some_0,
            ),
    {
        match &self.message.body {
            Some(b) => utf8_to_string(b.as_slice()),
            None => None,
        }
    }

    /// An owned copy of the body bytes.
    pub fn body_bytes(&self) -> (r: Option<Vec<u8>>)
        ensures
            r matches Some(b) ==> body_view(self.message.body) == Some(b@),
            r is None ==> self.message.body is None,
    {
        match &self.message.body {
            Some(b) => Some(copy_range(b.as_slice(), 0, b.len())),
            None => None,
        }
    }

    /// True when the request carries a non-empty body.
    pub fn has_body(&self) -> (r: bool)
        ensures
            r == (body_view(self.message.body) matches Some(b) && b.len() > 0),
    {
        match &self.message.body {
            Some(b) => b.len() > 0,
            None => false,
        }
    }

    /// The query value under the key, percent-decoded at parse time.
    pub fn query_param(&self, key: &str) -> (r: Option<String>)
        ensures
            r matches Some(v) ==> crate::headers::spec_get(self.qp(), key@) == Some(v@),
            r is None ==> crate::headers::spec_get(self.qp(), key@) is None,
    {
        param_get(&self.query_params, key)
    }

    /// The query value parsed as a signed number.
    pub fn query_param_int(&self, key: &str) -> (r: Option<i64>)
        ensures
            r matches Some(n) ==> crate::headers::spec_get(self.qp(), key@) matches Some(v)
                && int_rep(v) == Some(n as int),
            crate::headers::spec_get(self.qp(), key@) is None ==> r is None,
    {
        match self.query_param(key) {
            Some(v) => parse_i64(v.as_str()),
            None => None,
        }
    }

    /// The query value read as a truth value: `true`, `1` and `yes` hold,
    /// `false`, `0` and `no` do not, anything else is no answer; ASCII case
    /// is ignored.
    pub fn query_param_bool(&self, key: &str) -> (r: Option<bool>)
        ensures
            ({
                match crate::headers::spec_get(self.qp(), key@) {
                    None => r is None,
                    Some(v) => {
                        if lower_seq(v) == "true"@ || lower_seq(v) == "1"@ || lower_seq(v)
                            == "yes"@ {
                            r == Some(true)
                        } else if lower_seq(v) == "false"@ || lower_seq(v) == "0"@ || lower_seq(v)
                            == "no"@ {
                            r == Some(false)
                        } else {
                            r is None
                        }
                    },
                }
            }),
    {
        let v = match self.query_param(key) {
            Some(v) => v,
            None => {
                return None;
            },
        };
        let lower = crate::text::to_lowercase(v.as_str());
        if crate::text::str_eq(lower.as_str(), "true") || crate::text::str_eq(lower.as_str(), "1")
            || crate::text::str_eq(lower.as_str(), "yes") {
            Some(true)
        } else if crate::text::str_eq(lower.as_str(), "false") || crate::text::str_eq(
            lower.as_str(),
            "0",
        ) || crate::text::str_eq(lower.as_str(), "no") {
            Some(false)
        } else {
            None
        }
    }

    /// The query value, or the given default when the key is absent.
    pub fn query_param_or(&self, key: &str, default: &str) -> (r: String)
        ensures
            crate::headers::spec_get(self.qp(), key@) matches Some(v) ==> r@ == v,
            crate::headers::spec_get(self.qp(), key@) is None ==> r@ == default@,
    {
        match self.query_param(key) {
            Some(v) => v,
            None => String::from_str(default),
        }
    }

    /// All query pairs, in first-appearance order.
    pub fn all_query_params(&self) -> (r: &Vec<(String, String)>)
        ensures
            r == self.query_params,
    {
        &self.query_params
    }

    /// The captured path segment under the name.
    pub fn path_param(&self, key: &str) -> (r: Option<String>)
        ensures
            r matches Some(v) ==> crate::headers::spec_get(self.pp(), key@) == Some(v@),
            r is None ==> crate::headers::spec_get(self.pp(), key@) is None,
    {
        param_get(&self.path_params, key)
    }

    /// The captured path segment parsed as a signed number.
    pub fn path_param_int(&self, key: &str) -> (r: Option<i64>)
        ensures
            r matches Some(n) ==> crate::headers::spec_get(self.pp(), key@) matches Some(v)
                && int_rep(v) == Some(n as int),
            crate::headers::spec_get(self.pp(), key@) is None ==> r is None,
    {
        match self.path_param(key) {
            Some(v) => parse_i64(v.as_str()),
            None => None,
        }
    }

    /// Injects a captured path segment; a router calls this.
    pub fn set_path_param(&mut self, key: String, value: String)
        ensures
            final(self).pp() == spec_insert(old(self).pp(), key@, value@),
            final(self).path == old(self).path,
            final(self).method == old(self).method,
            final(self).message == old(self).message,
            final(self).query_params == old(self).query_params,
            final(self).form_params == old(self).form_params,
            final(self).cookie_jar == old(self).cookie_jar,
    {
        insert_param(&mut self.path_params, key, value);
    }

    /// All captured path segments.
    pub fn all_path_params(&self) -> (r: &Vec<(String, String)>)
        ensures
            r == self.path_params,
    {
        &self.path_params
    }

    /// The form value under the key.
    pub fn form_param(&self, key: &str) -> (r: Option<String>)
        ensures
            r matches Some(v) ==> crate::headers::spec_get(self.fp(), key@) == Some(v@),
            r is None ==> crate::headers::spec_get(self.fp(), key@) is None,
    {
        param_get(&self.form_params, key)
    }

    /// The form value parsed as a signed number.
    pub fn form_param_int(&self, key: &str) -> (r: Option<i64>)
        ensures
            r matches Some(n) ==> crate::headers::spec_get(self.fp(), key@) matches Some(v)
                && int_rep(v) == Some(n as int),
            crate::headers::spec_get(self.fp(), key@) is None ==> r is None,
    {
        match self.form_param(key) {
            Some(v) => parse_i64(v.as_str()),
            None => None,
        }
    }

    /// All form fields, in first-appearance order.
    pub fn all_form_params(&self) -> (r: &Vec<(String, String)>)
        ensures
            r == self.form_params,
    {
        &self.form_params
    }

    /// The first cookie with the given name.
    pub fn cookie(&self, name: &str) -> (r: Option<Cookie>)
        ensures
            r matches Some(c) ==> exists|i: int|
                {
                    &&& 0 <= i < self.cookie_jar@.len()
                    &&& crate::cookie::cookie_like(c, #[trigger] self.cookie_jar@[i])
                    &&& self.cookie_jar@[i].key@ == name@
                    &&& forall|j: int| 0 <= j < i ==> (#[trigger] self.cookie_jar@[j]).key@ != name@
                },
            r is None ==> forall|i: int|
                0 <= i < self.cookie_jar@.len() ==> (#[trigger] self.cookie_jar@[i]).key@ != name@,
    {
        let n = self.cookie_jar.len();
        let mut i: usize = 0;
        while i < n
            invariant
                0 <= i <= n,
                n == self.cookie_jar@.len(),
                forall|j: int| 0 <= j < i ==> (#[trigger] self.cookie_jar@[j]).key@ != name@,
            decreases n - i,
        {
            if crate::text::str_eq(self.cookie_jar[i].key.as_str(), name) {
                return Some(self.cookie_jar[i].clone());
            }
            i += 1;
        }
        None
    }

    /// All cookies the client sent.
    pub fn all_cookies(&self) -> (r: &Vec<Cookie>)
        ensures
            r == self.cookie_jar,
    {
        &self.cookie_jar
    }

    /// True when a cookie with the given name exists.
    pub fn has_cookie(&self, name: &str) -> (r: bool)
        ensures
            r == exists|i: int|
                0 <= i < self.cookie_jar@.len() && (#[trigger] self.cookie_jar@[i]).key@ == name@,
    {
        match self.cookie(name) {
            Some(_) => true,
            None => false,
        }
    }

    /// Percent-decodes a query or form piece.
    pub fn url_decode(&self, encoded: &str) -> (r: String)
        ensures
            r@ == url_decode_spec(encoded@),
    {
        let len = encoded.unicode_len();
        let mut out = String::new();
        let mut i: usize = 0;
        proof {
            assert(encoded@.skip(0) =~= encoded@);
        }
        while i < len
            invariant
                0 <= i <= len,
                len == encoded@.len(),
                url_decode_spec(encoded@) == out@ + url_decode_spec(encoded@.skip(i as int)),
            decreases len - i,
        {
            let ghost rem = encoded@.skip(i as int);
            let c = encoded.get_char(i);
            if c == '%' {
                if len - i > 2 {
                    let h1 = encoded.get_char(i + 1);
                    let h2 = encoded.get_char(i + 2);
                    match (hex_char_digit(h1), hex_char_digit(h2)) {
                        (Some(v1), Some(v2)) => {
                            let b: u8 = v1 * 16 + v2;
                            crate::text::push_char(&mut out, b as char);
                        },
                        _ => {},
                    }
                    proof {
                        assert(rem.skip(3) =~= encoded@.skip(i + 3));
                    }
                    i += 3;
                } else {
                    proof {
                        assert(url_decode_spec(rem) == Seq::<char>::empty());
                        assert(out@ + url_decode_spec(rem) =~= out@);
                    }
                    return out;
                }
            } else if c == '+' {
                crate::text::push_char(&mut out, ' ');
                proof {
                    assert(rem.drop_first() =~= encoded@.skip(i + 1));
                }
                i += 1;
            } else {
                crate::text::push_char(&mut out, c);
                proof {
                    assert(rem.drop_first() =~= encoded@.skip(i + 1));
                }
                i += 1;
            }
        }
        proof {
            assert(encoded@.skip(len as int) =~= Seq::<char>::empty());
            assert(out@ + url_decode_spec(encoded@.skip(len as int)) =~= out@);
        }
        out
    }

    /// Derives the query parameters from the request target.
    fn parse_query_params(&mut self)
        requires
            old(self).query_params@.len() == 0,
        ensures
            pairs_view(final(self).query_params@) == query_map(old(self).path@),
            final(self).path == old(self).path,
            final(self).method == old(self).method,
            final(self).message == old(self).message,
            final(self).path_params == old(self).path_params,
            final(self).form_params == old(self).form_params,
            final(self).cookie_jar == old(self).cookie_jar,
    {
        let path = self.path.clone();
        match split_once(path.as_str(), '?') {
            None => {
                proof {
                    assert(pairs_view(self.query_params@) =~= Seq::<
                        (Seq<char>, Seq<char>),
                    >::empty());
                }
            },
            Some((_, q)) => {
                let pieces = split_char(q.as_str(), '&');
                let ghost views = pieces@.map_values(|p: String| p@);
                let mut i: usize = 0;
                proof {
                    assert(pairs_view(self.query_params@) =~= Seq::<
                        (Seq<char>, Seq<char>),
                    >::empty());
                    assert(views.skip(0) =~= views);
                }
                while i < pieces.len()
                    invariant
                        0 <= i <= pieces@.len(),
                        views == pieces@.map_values(|p: String| p@),
                        query_map(old(self).path@) == qp_fold(
                            pairs_view(self.query_params@),
                            views.skip(i as int),
                        ),
                        self.path == old(self).path,
                        self.method == old(self).method,
                        self.message == old(self).message,
                        self.path_params == old(self).path_params,
                        self.form_params == old(self).form_params,
                        self.cookie_jar == old(self).cookie_jar,
                    decreases pieces@.len() - i,
                {
                    let ghost rem = views.skip(i as int);
                    match split_once(pieces[i].as_str(), '=') {
                        Some((k, v)) => {
                            let dk = self.url_decode(k.as_str());
                            let dv = self.url_decode(v.as_str());
                            insert_param(&mut self.query_params, dk, dv);
                        },
                        None => {
                            let dk = self.url_decode(pieces[i].as_str());
                            insert_param(&mut self.query_params, dk, String::new());
                        },
                    }
                    proof {
                        assert(rem.drop_first() =~= views.skip(i + 1));
                    }
                    i += 1;
                }
                proof {
                    assert(views.skip(pieces@.len() as int) =~= Seq::<Seq<char>>::empty());
                }
            },
        }
    }

    /// Derives the cookie jar from the `Cookie` header, using the request's
    /// host as each cookie's domain.
    fn parse_cookies(&mut self)
        requires
            old(self).cookie_jar@.len() == 0,
        ensures
            cookies_ok(final(self).cookie_jar@, final(self).message.headers.pairs()),
            final(self).path == old(self).path,
            final(self).method == old(self).method,
            final(self).message == old(self).message,
            final(self).path_params == old(self).path_params,
            final(self).form_params == old(self).form_params,
            final(self).query_params == old(self).query_params,
    {
        let header = match self.message.headers.get_header("Cookie") {
            Some(h) => h,
            None => {
                return ;
            },
        };
        let host = match self.message.headers.get_header("Host") {
            Some(h) => h,
            None => String::new(),
        };
        let domain = Domain::new(host.as_str());
        let pieces = split_char(header.as_str(), ';');
        let ghost views = pieces@.map_values(|p: String| p@);
        let ghost cps = cookie_pairs(header@);
        let mut i: usize = 0;
        proof {
            assert(views.skip(0) =~= views);
            assert(self.cookie_jar@.map_values(|c: Cookie| (c.key@, c.value@)) =~= Seq::<
                (Seq<char>, Seq<char>),
            >::empty());
        }
        while i < pieces.len()
            invariant
                0 <= i <= pieces@.len(),
                views == pieces@.map_values(|p: String| p@),
                cps == ck_fold(
                    self.cookie_jar@.map_values(|c: Cookie| (c.key@, c.value@)),
                    views.skip(i as int),
                ),
                domain.name@ == host@,
                forall|j: int|
                    0 <= j < self.cookie_jar@.len() ==> {
                        &&& (#[trigger] self.cookie_jar@[j]).domain.name@ == host@
                        &&& self.cookie_jar@[j].max_age is None
                        &&& self.cookie_jar@[j].path@ == "/"@
                        &&& self.cookie_jar@[j].same_site is Lax
                        &&& !self.cookie_jar@[j].secure
                        &&& !self.cookie_jar@[j].is_http_only
                    },
                self.path == old(self).path,
                self.method == old(self).method,
                self.message == old(self).message,
                self.path_params == old(self).path_params,
                self.form_params == old(self).form_params,
                self.query_params == old(self).query_params,
            decreases pieces@.len() - i,
        {
            let ghost rem = views.skip(i as int);
            match split_once(pieces[i].as_str(), '=') {
                Some((a, b)) => {
                    let ghost jp = self.cookie_jar@.map_values(|c: Cookie| (c.key@, c.value@));
                    let key = trim(a.as_str());
                    let value = trim(b.as_str());
                    let cookie = Cookie::new(key.as_str(), value.as_str(), &domain);
                    self.cookie_jar.push(cookie);
                    proof {
                        assert(self.cookie_jar@.map_values(|c: Cookie| (c.key@, c.value@)) =~= jp
                            .push((trim_spec(a@), trim_spec(b@))));
                    }
                },
                None => {},
            }
            proof {
                assert(rem.drop_first() =~= views.skip(i + 1));
            }
            i += 1;
        }
        proof {
            assert(views.skip(pieces@.len() as int) =~= Seq::<Seq<char>>::empty());
            let jps = self.cookie_jar@.map_values(|c: Cookie| (c.key@, c.value@));
            assert(cps == jps);
            assert forall|k: int| 0 <= k < self.cookie_jar@.len() implies {
                &&& (#[trigger] self.cookie_jar@[k]).key@ == cps[k].0
                &&& self.cookie_jar@[k].value@ == cps[k].1
            } by {
                assert(jps[k] == (self.cookie_jar@[k].key@, self.cookie_jar@[k].value@));
            }
        }
    }

    /// Derives the form parameters from a url-encoded or JSON body.
    fn parse_form_params(&mut self)
        ensures
            pairs_view(final(self).form_params@) == form_map(
                pairs_view(old(self).form_params@),
                body_view(final(self).message.body),
                header_or_empty(final(self).message.headers.pairs(), "Content-Type"@),
            ),
            final(self).path == old(self).path,
            final(self).method == old(self).method,
            final(self).message == old(self).message,
            final(self).path_params == old(self).path_params,
            final(self).query_params == old(self).query_params,
            final(self).cookie_jar == old(self).cookie_jar,
    {
        let body = match &self.message.body {
            Some(b) => copy_range(b.as_slice(), 0, b.len()),
            None => {
                return ;
            },
        };
        proof {
            assert(body@ =~= body_view(self.message.body)->Some_0);
        }
        let body_str = match utf8_to_string(body.as_slice()) {
            Some(s) => s,
            None => {
                return ;
            },
        };
        let ct = match self.message.headers.get_header("Content-Type") {
            Some(v) => v,
            None => String::new(),
        };
        if crate::text::contains_sub(ct.as_str(), "application/x-www-form-urlencoded") {
            self.parse_url_encoded_form(body_str.as_str());
        } else if crate::text::contains_sub(ct.as_str(), "application/json") {
            self.parse_json_form(body_str.as_str());
        }
    }

    /// Folds a url-encoded body into the form parameters.
    fn parse_url_encoded_form(&mut self, body: &str)
        ensures
            pairs_view(final(self).form_params@) == qp_fold(
                pairs_view(old(self).form_params@),
                split_seq(body@, '&'),
            ),
            final(self).path == old(self).path,
            final(self).method == old(self).method,
            final(self).message == old(self).message,
            final(self).path_params == old(self).path_params,
            final(self).query_params == old(self).query_params,
            final(self).cookie_jar == old(self).cookie_jar,
    {
        let pieces = split_char(body, '&');
        let ghost views = pieces@.map_values(|p: String| p@);
        let ghost target = qp_fold(pairs_view(self.form_params@), views);
        let mut i: usize = 0;
        proof {
            assert(views.skip(0) =~= views);
        }
        while i < pieces.len()
            invariant
                0 <= i <= pieces@.len(),
                views == pieces@.map_values(|p: String| p@),
                target == qp_fold(pairs_view(self.form_params@), views.skip(i as int)),
                self.path == old(self).path,
                self.method == old(self).method,
                self.message == old(self).message,
                self.path_params == old(self).path_params,
                self.query_params == old(self).query_params,
                self.cookie_jar == old(self).cookie_jar,
            decreases pieces@.len() - i,
        {
            let ghost rem = views.skip(i as int);
            match split_once(pieces[i].as_str(), '=') {
                Some((k, v)) => {
                    let dk = self.url_decode(k.as_str());
                    let dv = self.url_decode(v.as_str());
                    insert_param(&mut self.form_params, dk, dv);
                },
                None => {
                    let dk = self.url_decode(pieces[i].as_str());
                    insert_param(&mut self.form_params, dk, String::new());
                },
            }
            proof {
                assert(rem.drop_first() =~= views.skip(i + 1));
            }
            i += 1;
        }
        proof {
            assert(views.skip(pieces@.len() as int) =~= Seq::<Seq<char>>::empty());
        }
    }

    /// Parses a complete HTTP/1.1 request from raw bytes: the request line,
    /// the header block, the declared body, and the derived query, cookie
    /// and form parameters.  A malformed head is rejected with a message
    /// naming the first violation found.
    #[verifier::rlimit(100)]
    pub fn parse(raw_request: &[u8]) -> (r: Result<HTTPRequest, String>)
        ensures
            r matches Ok(req) ==> parses_to(raw_request@, req) && parse_failure(raw_request@)
                is None,
            r matches Err(e) ==> parse_failure(raw_request@) == Some(e@),
    {
        let raw_len = raw_request.len();
        let head_end = find_header_end(raw_request);
        let head = match head_end {
            Some(p) => copy_range(raw_request, 0, p),
            None => copy_range(raw_request, 0, raw_len),
        };
        proof {
            assert(head@ =~= head_bytes(raw_request@));
        }
        let text = match utf8_to_string(head.as_slice()) {
            Some(t) => t,
            None => {
                return Err(String::from_str("Invalid UTF-8 in request"));
            },
        };
        if text.as_str().unicode_len() == 0 {
            return Err(String::from_str("Empty request"));
        }
        let lines = lines_vec(text.as_str());
        let ghost ls = lines@.map_values(|l: String| l@);
        let toks = tokens_vec(lines[0].as_str());
        if toks.len() != 3 {
            return Err(String::from_str("Invalid request line format"));
        }
        let method = match HTTPMethod::from_str(toks[0].as_str()) {
            Ok(m) => m,
            Err(_) => {
                let mut e = String::from_str("Unknown HTTP method: ");
                e.append(toks[0].as_str());
                return Err(e);
            },
        };
        let path = toks[1].clone();
        let version = toks[2].clone();
        let mut headers = HTTPHeader::new(Vec::new());
        proof {
            assert(pairs_view(Seq::<(String, String)>::empty()) =~= Seq::<
                (Seq<char>, Seq<char>),
            >::empty());
        }
        let n = lines.len();
        let mut li: usize = 1;
        while li < n && lines[li].as_str().unicode_len() > 0
            invariant
                1 <= li <= n,
                n == lines@.len(),
                ls == lines@.map_values(|l: String| l@),
                header_pairs(Seq::<(Seq<char>, Seq<char>)>::empty(), ls.skip(1)) == header_pairs(
                    headers.pairs(),
                    ls.skip(li as int),
                ),
                headers.content_type == ContentType::Text(crate::content_types::TextSubType::Html),
                headers.content_length is None,
                headers.connection is KeepAlive,
                headers.cookies@ == Seq::<Cookie>::empty(),
            decreases n - li,
        {
            let ghost rem = ls.skip(li as int);
            match split_once(lines[li].as_str(), ':') {
                Some((a, b)) => {
                    let name = trim(a.as_str());
                    let value = trim(b.as_str());
                    headers.add_header(name.as_str(), value.as_str());
                },
                None => {},
            }
            proof {
                assert(rem.drop_first() =~= ls.skip(li + 1));
            }
            li += 1;
        }
        proof {
            if li < n {
                assert(ls.skip(li as int)[0].len() == 0);
            } else {
                assert(ls.skip(li as int) =~= Seq::<Seq<char>>::empty());
            }
            assert(header_pairs(headers.pairs(), ls.skip(li as int)) == headers.pairs());
        }
        match headers.get_header("Connection") {
            Some(v) => {
                headers.connection = ConnectionType::from_str(v.as_str());
            },
            None => {},
        }
        let ghost ps = headers.pairs();
        let body: Option<Vec<u8>> = match head_end {
            Some(p) => match headers.get_header("Content-Length") {
                Some(cl) => match parse_u64(cl.as_str()) {
                    Some(cl_n) => {
                        if cl_n <= usize::MAX as u64 {
                            let want = cl_n as usize;
                            if raw_len - (p + 4) >= want {
                                let b = copy_range(raw_request, p + 4, p + 4 + want);
                                proof {
                                    assert(b@ =~= raw_request@.skip(p + 4).take(want as int));
                                }
                                Some(b)
                            } else {
                                None
                            }
                        } else {
                            None
                        }
                    },
                    None => None,
                },
                None => None,
            },
            None => None,
        };
        let message = HTTPMessage { http_version: version, headers, body };
        let mut request = HTTPRequest {
            method,
            path,
            message,
            query_params: Vec::new(),
            path_params: Vec::new(),
            form_params: Vec::new(),
            cookie_jar: Vec::new(),
        };
        proof {
            assert(ls.skip(1) =~= ls.drop_first());
            assert(body_view(request.message.body) == req_body(raw_request@, ps));
            assert(pairs_view(Seq::<(String, String)>::empty()) =~= Seq::<
                (Seq<char>, Seq<char>),
            >::empty());
        }
        request.parse_query_params();
        request.parse_cookies();
        request.parse_form_params();
        Ok(request)
    }

    /// Folds the members of a JSON object body into the form parameters.
    fn parse_json_form(&mut self, body: &str)
        ensures
            pairs_view(final(self).form_params@) == (match json_form_pairs(body@) {
                Some(ps) => pair_fold(pairs_view(old(self).form_params@), ps),
                None => pairs_view(old(self).form_params@),
            }),
            final(self).path == old(self).path,
            final(self).method == old(self).method,
            final(self).message == old(self).message,
            final(self).path_params == old(self).path_params,
            final(self).query_params == old(self).query_params,
            final(self).cookie_jar == old(self).cookie_jar,
    {
        let pairs = match json_object_strings(body) {
            Some(p) => p,
            None => {
                return ;
            },
        };
        let ghost views = pairs_view(pairs@);
        let ghost target = pair_fold(pairs_view(self.form_params@), views);
        let mut i: usize = 0;
        proof {
            assert(views.skip(0) =~= views);
        }
        while i < pairs.len()
            invariant
                0 <= i <= pairs@.len(),
                views == pairs_view(pairs@),
                target == pair_fold(pairs_view(self.form_params@), views.skip(i as int)),
                self.path == old(self).path,
                self.method == old(self).method,
                self.message == old(self).message,
                self.path_params == old(self).path_params,
                self.query_params == old(self).query_params,
                self.cookie_jar == old(self).cookie_jar,
            decreases pairs@.len() - i,
        {
            let ghost rem = views.skip(i as int);
            let k = pairs[i].0.clone();
            let v = pairs[i].1.clone();
            insert_param(&mut self.form_params, k, v);
            proof {
                assert(rem.drop_first() =~= views.skip(i + 1));
            }
            i += 1;
        }
        proof {
            assert(views.skip(pairs@.len() as int) =~= Seq::<(Seq<char>, Seq<char>)>::empty());
        }
    }
}

} // verus!
