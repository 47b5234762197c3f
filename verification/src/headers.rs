//! The header block of an HTTP message: a key-value list with typed
//! content-type, content-length and connection fields, plus response
//! cookies, and its exact serialized form.
use vstd::prelude::*;
use crate::content_types::ContentType;
use crate::cookie::{Cookie, spec_cookie_line};
use crate::header_types::{ConnectionType, FrameOption};
use crate::text::{dec_digits, join_with, lemma_dec_digits_all_digits, lemma_digits_no_crlf,
    lemma_join_push, lower_seq, no_crlf, str_eq, to_lowercase, u64_to_string};

verus! {

/// The views of a key-value pair list.
pub open spec fn pairs_view(ps: Seq<(String, String)>) -> Seq<(Seq<char>, Seq<char>)> {
    ps.map_values(|p: (String, String)| (p.0@, p.1@))
}

/// The value under the first exactly matching key.
pub open spec fn spec_get(ps: Seq<(Seq<char>, Seq<char>)>, name: Seq<char>) -> Option<Seq<char>>
    decreases ps.len(),
{
    if ps.len() == 0 {
        None
    } else if ps[0].0 == name {
        Some(ps[0].1)
    } else {
        spec_get(ps.drop_first(), name)
    }
}

/// The value under the first key equal to `lname` after ASCII lower-casing.
pub open spec fn spec_get_lower(ps: Seq<(Seq<char>, Seq<char>)>, lname: Seq<char>) -> Option<
    Seq<char>,
>
    decreases ps.len(),
{
    if ps.len() == 0 {
        None
    } else if lower_seq(ps[0].0) == lname {
        Some(ps[0].1)
    } else {
        spec_get_lower(ps.drop_first(), lname)
    }
}

/// Case-insensitive lookup: an exact match is preferred, then the first
/// match ignoring ASCII case.
pub open spec fn spec_get_ci(ps: Seq<(Seq<char>, Seq<char>)>, name: Seq<char>) -> Option<
    Seq<char>,
> {
    match spec_get(ps, name) {
        Some(v) => Some(v),
        None => spec_get_lower(ps, lower_seq(name)),
    }
}

/// The list with `k` bound to `v`: the first pair with key `k` is replaced,
/// or the pair is appended when the key is new.
pub open spec fn spec_insert(
    ps: Seq<(Seq<char>, Seq<char>)>,
    k: Seq<char>,
    v: Seq<char>,
) -> Seq<(Seq<char>, Seq<char>)>
    decreases ps.len(),
{
    if ps.len() == 0 {
        seq![(k, v)]
    } else if ps[0].0 == k {
        seq![(k, v)] + ps.drop_first()
    } else {
        seq![ps[0]] + spec_insert(ps.drop_first(), k, v)
    }
}

pub proof fn lemma_spec_get_at(ps: Seq<(Seq<char>, Seq<char>)>, k: Seq<char>, i: int)
    requires
        0 <= i <= ps.len(),
        forall|j: int| 0 <= j < i ==> (#[trigger] ps[j]).0 != k,
        i < ps.len() ==> ps[i].0 == k,
    ensures
        i == ps.len() ==> spec_get(ps, k) is None,
        i < ps.len() ==> spec_get(ps, k) == Some(ps[i].1),
    decreases i + 1,
{
    if i == ps.len() {
        if ps.len() > 0 {
            lemma_spec_get_at(ps.drop_first(), k, i - 1);
        }
    } else if i > 0 {
        lemma_spec_get_at(ps.drop_first(), k, i - 1);
    }
}

pub proof fn lemma_spec_get_lower_at(ps: Seq<(Seq<char>, Seq<char>)>, lk: Seq<char>, i: int)
    requires
        0 <= i <= ps.len(),
        forall|j: int| 0 <= j < i ==> lower_seq((#[trigger] ps[j]).0) != lk,
        i < ps.len() ==> lower_seq(ps[i].0) == lk,
    ensures
        i == ps.len() ==> spec_get_lower(ps, lk) is None,
        i < ps.len() ==> spec_get_lower(ps, lk) == Some(ps[i].1),
    decreases i + 1,
{
    if i == ps.len() {
        if ps.len() > 0 {
            lemma_spec_get_lower_at(ps.drop_first(), lk, i - 1);
        }
    } else if i > 0 {
        lemma_spec_get_lower_at(ps.drop_first(), lk, i - 1);
    }
}

pub proof fn lemma_spec_insert_at(ps: Seq<(Seq<char>, Seq<char>)>, k: Seq<char>, v: Seq<char>, i: int)
    requires
        0 <= i <= ps.len(),
        forall|j: int| 0 <= j < i ==> (#[trigger] ps[j]).0 != k,
        i < ps.len() ==> ps[i].0 == k,
    ensures
        i == ps.len() ==> spec_insert(ps, k, v) == ps.push((k, v)),
        i < ps.len() ==> spec_insert(ps, k, v) == ps.take(i) + seq![(k, v)] + ps.skip(i + 1),
    decreases i + 1,
{
    if i == ps.len() {
        if ps.len() == 0 {
            assert(spec_insert(ps, k, v) =~= ps.push((k, v)));
        } else {
            lemma_spec_insert_at(ps.drop_first(), k, v, i - 1);
            assert(seq![ps[0]] + ps.drop_first().push((k, v)) =~= ps.push((k, v)));
        }
    } else if i == 0 {
        assert(seq![(k, v)] + ps.drop_first() =~= ps.take(0) + seq![(k, v)] + ps.skip(1));
    } else {
        lemma_spec_insert_at(ps.drop_first(), k, v, i - 1);
        assert(seq![ps[0]] + (ps.drop_first().take(i - 1) + seq![(k, v)] + ps.drop_first().skip(
            i,
        )) =~= ps.take(i) + seq![(k, v)] + ps.skip(i + 1));
    }
}

/// The serialized `K: V` lines of the key-value list, in order.
pub open spec fn spec_value_lines(ps: Seq<(Seq<char>, Seq<char>)>) -> Seq<char>
    decreases ps.len(),
{
    if ps.len() == 0 {
        Seq::<char>::empty()
    } else {
        ps[0].0 + ": "@ + ps[0].1 + "\r\n"@ + spec_value_lines(ps.drop_first())
    }
}

pub proof fn lemma_value_lines_push(ps: Seq<(Seq<char>, Seq<char>)>, p: (Seq<char>, Seq<char>))
    ensures
        spec_value_lines(ps.push(p)) == spec_value_lines(ps) + (p.0 + ": "@ + p.1 + "\r\n"@),
    decreases ps.len(),
{
    if ps.len() == 0 {
        assert(ps.push(p).drop_first() =~= Seq::<(Seq<char>, Seq<char>)>::empty());
        assert(ps.push(p)[0] == p);
        assert(spec_value_lines(ps.push(p).drop_first()) == Seq::<char>::empty());
        assert(spec_value_lines(ps.push(p)) =~= spec_value_lines(ps) + (p.0 + ": "@ + p.1
            + "\r\n"@));
    } else {
        lemma_value_lines_push(ps.drop_first(), p);
        assert(ps.push(p).drop_first() =~= ps.drop_first().push(p));
        assert(ps.push(p)[0] == ps[0]);
        let line = p.0 + ": "@ + p.1 + "\r\n"@;
        let head = ps[0].0 + ": "@ + ps[0].1 + "\r\n"@;
        assert(spec_value_lines(ps.push(p)) == head + spec_value_lines(ps.drop_first().push(p)));
        assert(spec_value_lines(ps.drop_first().push(p)) == spec_value_lines(ps.drop_first())
            + line);
        assert(head + (spec_value_lines(ps.drop_first()) + line) =~= (head + spec_value_lines(
            ps.drop_first(),
        )) + line);
    }
}

/// The serialized `Set-Cookie` lines, one per rendered cookie line.
pub open spec fn spec_cookie_lines(lines: Seq<Seq<char>>) -> Seq<char>
    decreases lines.len(),
{
    if lines.len() == 0 {
        Seq::<char>::empty()
    } else {
        "Set-Cookie: "@ + lines[0] + "\r\n"@ + spec_cookie_lines(lines.drop_first())
    }
}

pub proof fn lemma_cookie_lines_push(lines: Seq<Seq<char>>, l: Seq<char>)
    ensures
        spec_cookie_lines(lines.push(l)) == spec_cookie_lines(lines) + ("Set-Cookie: "@ + l
            + "\r\n"@),
    decreases lines.len(),
{
    if lines.len() == 0 {
        assert(lines.push(l).drop_first() =~= Seq::<Seq<char>>::empty());
        assert(lines.push(l)[0] == l);
        assert(spec_cookie_lines(lines.push(l).drop_first()) == Seq::<char>::empty());
        assert(spec_cookie_lines(lines.push(l)) =~= spec_cookie_lines(lines) + ("Set-Cookie: "@
            + l + "\r\n"@));
    } else {
        lemma_cookie_lines_push(lines.drop_first(), l);
        assert(lines.push(l).drop_first() =~= lines.drop_first().push(l));
        assert(lines.push(l)[0] == lines[0]);
        let line = "Set-Cookie: "@ + l + "\r\n"@;
        let head = "Set-Cookie: "@ + lines[0] + "\r\n"@;
        assert(spec_cookie_lines(lines.push(l)) == head + spec_cookie_lines(
            lines.drop_first().push(l),
        ));
        assert(spec_cookie_lines(lines.drop_first().push(l)) == spec_cookie_lines(
            lines.drop_first(),
        ) + line);
        assert(head + (spec_cookie_lines(lines.drop_first()) + line) =~= (head
            + spec_cookie_lines(lines.drop_first())) + line);
    }
}

/// A rendered cookie line is the cookie's `Set-Cookie` text for some expiry
/// date, and is header-safe when the cookie is.
pub open spec fn cookie_line_ok(c: Cookie, l: Seq<char>) -> bool {
    &&& exists|d: Seq<char>| l == spec_cookie_line(c, d)
    &&& (c.max_age is None ==> l == spec_cookie_line(c, Seq::<char>::empty()))
    &&& (c.wf() ==> no_crlf(l))
}

/// The header block of an HTTP message.
///
/// Content type, content length and the connection directive are kept as
/// typed fields; every other header lives in the ordered `values` list.
#[derive(Debug)]
pub struct HTTPHeader {
    /// The plain headers, in insertion order, each key held once.
    pub values: Vec<(String, String)>,
    /// The typed `Content-Type` of the message.
    pub content_type: ContentType,
    /// The `Content-Length`, when one is set.
    pub content_length: Option<u64>,
    /// The `Connection` directive of the message.
    pub connection: ConnectionType,
    /// Cookies to be serialized as `Set-Cookie` lines.
    pub cookies: Vec<Cookie>,
}

impl HTTPHeader {
    /// The view of the plain header list.
    pub open spec fn pairs(self) -> Seq<(Seq<char>, Seq<char>)> {
        pairs_view(self.values@)
    }

    /// Creates a header block holding the given plain headers, with content
    /// type `text/html`, no content length, and `keep-alive`.
    pub fn new(values: Vec<(String, String)>) -> (r: Self)
        ensures
            r.pairs() == pairs_view(values@),
            r.content_type == ContentType::Text(crate::content_types::TextSubType::Html),
            r.content_length is None,
            r.connection is KeepAlive,
            r.cookies@ == Seq::<Cookie>::empty(),
    {
        HTTPHeader {
            values,
            content_type: ContentType::Text(crate::content_types::TextSubType::Html),
            content_length: None,
            connection: ConnectionType::KeepAlive,
            cookies: Vec::new(),
        }
    }

    /// Binds a header: replaces the value under an existing key, or appends
    /// the pair.  The typed fields are untouched.
    pub fn add_header(&mut self, key: &str, value: &str)
        ensures
            final(self).pairs() == spec_insert(old(self).pairs(), key@, value@),
            final(self).content_type == old(self).content_type,
            final(self).content_length == old(self).content_length,
            final(self).connection == old(self).connection,
            final(self).cookies == old(self).cookies,
    {
        let ghost ps = self.pairs();
        let mut i: usize = 0;
        let n = self.values.len();
        while i < n
            invariant
                0 <= i <= n,
                n == self.values@.len(),
                ps == pairs_view(self.values@),
                ps == old(self).pairs(),
                self.content_type == old(self).content_type,
                self.content_length == old(self).content_length,
                self.connection == old(self).connection,
                self.cookies == old(self).cookies,
                forall|j: int| 0 <= j < i ==> (#[trigger] ps[j]).0 != key@,
            decreases n - i,
        {
            if str_eq(self.values[i].0.as_str(), key) {
                proof {
                    lemma_spec_insert_at(ps, key@, value@, i as int);
                }
                self.values.remove(i);
                self.values.insert(i, (String::from_str(key), String::from_str(value)));
                proof {
                    assert(pairs_view(self.values@) =~= ps.take(i as int) + seq![(key@, value@)]
                        + ps.skip(i as int + 1));
                }
                return ;
            }
            i += 1;
        }
        proof {
            lemma_spec_insert_at(ps, key@, value@, n as int);
        }
        self.values.push((String::from_str(key), String::from_str(value)));
        proof {
            assert(pairs_view(self.values@) =~= ps.push((key@, value@)));
        }
    }

    /// Looks a header up by name: an exact key match first, then the first
    /// key that matches ignoring ASCII case.
    pub fn get_header(&self, header: &str) -> (r: Option<String>)
        ensures
            r matches Some(v) ==> spec_get_ci(self.pairs(), header@) == Some(v@),
            r is None ==> spec_get_ci(self.pairs(), header@) is None,
    {
        let ghost ps = self.pairs();
        let n = self.values.len();
        let mut i: usize = 0;
        while i < n
            invariant
                0 <= i <= n,
                n == self.values@.len(),
                ps == pairs_view(self.values@),
                forall|j: int| 0 <= j < i ==> (#[trigger] ps[j]).0 != header@,
            decreases n - i,
        {
            if str_eq(self.values[i].0.as_str(), header) {
                proof {
                    lemma_spec_get_at(ps, header@, i as int);
                }
                return Some(self.values[i].1.clone());
            }
            i += 1;
        }
        proof {
            lemma_spec_get_at(ps, header@, n as int);
        }
        let lname = to_lowercase(header);
        let mut i: usize = 0;
        while i < n
            invariant
                0 <= i <= n,
                n == self.values@.len(),
                ps == pairs_view(self.values@),
                ps == self.pairs(),
                spec_get(ps, header@) is None,
                lname@ == lower_seq(header@),
                forall|j: int| 0 <= j < i ==> lower_seq((#[trigger] ps[j]).0) != lname@,
            decreases n - i,
        {
            let lk = to_lowercase(self.values[i].0.as_str());
            if str_eq(lk.as_str(), lname.as_str()) {
                proof {
                    lemma_spec_get_lower_at(ps, lname@, i as int);
                }
                return Some(self.values[i].1.clone());
            }
            i += 1;
        }
        proof {
            lemma_spec_get_lower_at(ps, lname@, n as int);
        }
        None
    }

    /// Appends a cookie, to leave as a `Set-Cookie` line.
    pub fn set_cookie(&mut self, cookie: Cookie)
        ensures
            final(self).cookies@ == old(self).cookies@.push(cookie),
            final(self).values == old(self).values,
            final(self).content_type == old(self).content_type,
            final(self).content_length == old(self).content_length,
            final(self).connection == old(self).connection,
    {
        self.cookies.push(cookie);
    }

    /// Appends the cookie with its age forced to zero, telling the client
    /// to drop it.
    pub fn expire_cookie(&mut self, cookie: Cookie)
        ensures
            final(self).cookies@ == old(self).cookies@.push(
                Cookie { max_age: Some(0u64), ..cookie },
            ),
            final(self).values == old(self).values,
            final(self).content_type == old(self).content_type,
            final(self).content_length == old(self).content_length,
            final(self).connection == old(self).connection,
    {
        let expired = cookie.expires(Some(0));
        self.cookies.push(expired);
    }

    /// The serialized header block: one `K: V` line per plain header, then
    /// one `Set-Cookie` line per cookie, each line CRLF-terminated.
    pub fn as_str(&self) -> (r: String)
        ensures
            exists|lines: Seq<Seq<char>>|
                {
                    &&& lines.len() == self.cookies@.len()
                    &&& (forall|i: int|
                        0 <= i < lines.len() ==> cookie_line_ok(
                            self.cookies@[i],
                            #[trigger] lines[i],
                        ))
                    &&& r@ == spec_value_lines(self.pairs()) + spec_cookie_lines(lines)
                },
    {
        let ghost ps = self.pairs();
        let mut r = String::new();
        let mut i: usize = 0;
        let n = self.values.len();
        proof {
            assert(ps.take(0) =~= Seq::<(Seq<char>, Seq<char>)>::empty());
        }
        while i < n
            invariant
                0 <= i <= n,
                n == self.values@.len(),
                ps == pairs_view(self.values@),
                r@ == spec_value_lines(ps.take(i as int)),
            decreases n - i,
        {
            r.append(self.values[i].0.as_str());
            r.append(": ");
            r.append(self.values[i].1.as_str());
            r.append("\r\n");
            proof {
                assert(ps.take(i as int).push(ps[i as int]) =~= ps.take(i + 1));
                lemma_value_lines_push(ps.take(i as int), ps[i as int]);
            }
            i += 1;
        }
        proof {
            assert(ps.take(n as int) =~= ps);
        }
        let ghost mut lines: Seq<Seq<char>> = Seq::empty();
        let mut c: usize = 0;
        let m = self.cookies.len();
        while c < m
            invariant
                0 <= c <= m,
                m == self.cookies@.len(),
                ps == pairs_view(self.values@),
                lines.len() == c,
                forall|j: int| 0 <= j < c ==> cookie_line_ok(self.cookies@[j], #[trigger] lines[j]),
                r@ == spec_value_lines(ps) + spec_cookie_lines(lines),
            decreases m - c,
        {
            let line = self.cookies[c].as_string();
            r.append("Set-Cookie: ");
            r.append(line.as_str());
            r.append("\r\n");
            proof {
                lemma_cookie_lines_push(lines, line@);
                lines = lines.push(line@);
            }
            c += 1;
        }
        r
    }

    /// Sets the `Date` header to the current time; the rendered date is a
    /// single header-safe line.
    pub fn set_date_now(&mut self)
        ensures
            exists|d: Seq<char>|
                no_crlf(d) && final(self).pairs() == spec_insert(old(self).pairs(), "Date"@, d),
            final(self).content_type == old(self).content_type,
            final(self).content_length == old(self).content_length,
            final(self).connection == old(self).connection,
            final(self).cookies == old(self).cookies,
    {
        let date = crate::httpdate::http_date_now();
        self.add_header("Date", date.as_str());
    }

    /// Sets the `Server` header.
    pub fn set_server(&mut self, server_name: &str)
        ensures
            final(self).pairs() == spec_insert(old(self).pairs(), "Server"@, server_name@),
            final(self).content_type == old(self).content_type,
            final(self).content_length == old(self).content_length,
            final(self).connection == old(self).connection,
            final(self).cookies == old(self).cookies,
    {
        self.add_header("Server", server_name);
    }

    /// Sets the `Location` header used by redirects.
    pub fn set_location(&mut self, url: &str)
        ensures
            final(self).pairs() == spec_insert(old(self).pairs(), "Location"@, url@),
            final(self).content_type == old(self).content_type,
            final(self).content_length == old(self).content_length,
            final(self).connection == old(self).connection,
            final(self).cookies == old(self).cookies,
    {
        self.add_header("Location", url);
    }

    /// Sets the `Cache-Control` header to the given directive text.
    pub fn set_cache_control(&mut self, directive: &str)
        ensures
            final(self).pairs() == spec_insert(old(self).pairs(), "Cache-Control"@, directive@),
            final(self).content_type == old(self).content_type,
            final(self).content_length == old(self).content_length,
            final(self).connection == old(self).connection,
            final(self).cookies == old(self).cookies,
    {
        self.add_header("Cache-Control", directive);
    }

    /// Disables caching: `Cache-Control`, `Pragma` and `Expires` together.
    pub fn set_no_cache(&mut self)
        ensures
            final(self).pairs() == spec_insert(
                spec_insert(
                    spec_insert(
                        old(self).pairs(),
                        "Cache-Control"@,
                        "no-cache, no-store, must-revalidate"@,
                    ),
                    "Pragma"@,
                    "no-cache"@,
                ),
                "Expires"@,
                "0"@,
            ),
            final(self).content_type == old(self).content_type,
            final(self).content_length == old(self).content_length,
            final(self).connection == old(self).connection,
            final(self).cookies == old(self).cookies,
    {
        self.add_header("Cache-Control", "no-cache, no-store, must-revalidate");
        self.add_header("Pragma", "no-cache");
        self.add_header("Expires", "0");
    }

    /// Sets `Cache-Control: max-age=N`.
    pub fn set_max_age(&mut self, seconds: u64)
        ensures
            final(self).pairs() == spec_insert(
                old(self).pairs(),
                "Cache-Control"@,
                "max-age="@ + dec_digits(seconds as nat),
            ),
            final(self).content_type == old(self).content_type,
            final(self).content_length == old(self).content_length,
            final(self).connection == old(self).connection,
            final(self).cookies == old(self).cookies,
    {
        let mut v = String::from_str("max-age=");
        let n = u64_to_string(seconds);
        v.append(n.as_str());
        self.add_header("Cache-Control", v.as_str());
    }

    /// Sets the `ETag` header, quoting the tag.
    pub fn set_etag(&mut self, etag: &str)
        ensures
            final(self).pairs() == spec_insert(
                old(self).pairs(),
                "ETag"@,
                "\""@ + etag@ + "\""@,
            ),
            final(self).content_type == old(self).content_type,
            final(self).content_length == old(self).content_length,
            final(self).connection == old(self).connection,
            final(self).cookies == old(self).cookies,
    {
        let mut v = String::from_str("\"");
        v.append(etag);
        v.append("\"");
        self.add_header("ETag", v.as_str());
    }

    /// Sets the `Last-Modified` header to the given rendered date.
    pub fn set_last_modified(&mut self, date: &str)
        ensures
            final(self).pairs() == spec_insert(old(self).pairs(), "Last-Modified"@, date@),
            final(self).content_type == old(self).content_type,
            final(self).content_length == old(self).content_length,
            final(self).connection == old(self).connection,
            final(self).cookies == old(self).cookies,
    {
        self.add_header("Last-Modified", date);
    }

    /// Sets the `Content-Encoding` header.
    pub fn set_content_encoding(&mut self, encoding: &str)
        ensures
            final(self).pairs() == spec_insert(old(self).pairs(), "Content-Encoding"@, encoding@),
            final(self).content_type == old(self).content_type,
            final(self).content_length == old(self).content_length,
            final(self).connection == old(self).connection,
            final(self).cookies == old(self).cookies,
    {
        self.add_header("Content-Encoding", encoding);
    }

    /// Sets the `Transfer-Encoding` header.
    pub fn set_transfer_encoding(&mut self, encoding: &str)
        ensures
            final(self).pairs() == spec_insert(old(self).pairs(), "Transfer-Encoding"@, encoding@),
            final(self).content_type == old(self).content_type,
            final(self).content_length == old(self).content_length,
            final(self).connection == old(self).connection,
            final(self).cookies == old(self).cookies,
    {
        self.add_header("Transfer-Encoding", encoding);
    }

    /// Sets `X-Content-Type-Options: nosniff`.
    pub fn set_nosniff(&mut self)
        ensures
            final(self).pairs() == spec_insert(
                old(self).pairs(),
                "X-Content-Type-Options"@,
                "nosniff"@,
            ),
            final(self).content_type == old(self).content_type,
            final(self).content_length == old(self).content_length,
            final(self).connection == old(self).connection,
            final(self).cookies == old(self).cookies,
    {
        self.add_header("X-Content-Type-Options", "nosniff");
    }

    /// Sets the `X-Frame-Options` header.
    pub fn set_frame_options(&mut self, option: FrameOption)
        ensures
            final(self).pairs() == spec_insert(
                old(self).pairs(),
                "X-Frame-Options"@,
                option.spec_str(),
            ),
            final(self).content_type == old(self).content_type,
            final(self).content_length == old(self).content_length,
            final(self).connection == old(self).connection,
            final(self).cookies == old(self).cookies,
    {
        let v = option.as_str();
        self.add_header("X-Frame-Options", v);
    }

    /// Sets the `Strict-Transport-Security` header.
    pub fn set_hsts(&mut self, max_age_seconds: u64, include_subdomains: bool)
        ensures
            final(self).pairs() == spec_insert(
                old(self).pairs(),
                "Strict-Transport-Security"@,
                "max-age="@ + dec_digits(max_age_seconds as nat) + (if include_subdomains {
                    "; includeSubDomains"@
                } else {
                    Seq::<char>::empty()
                }),
            ),
            final(self).content_type == old(self).content_type,
            final(self).content_length == old(self).content_length,
            final(self).connection == old(self).connection,
            final(self).cookies == old(self).cookies,
    {
        let mut v = String::from_str("max-age=");
        let n = u64_to_string(max_age_seconds);
        v.append(n.as_str());
        if include_subdomains {
            v.append("; includeSubDomains");
        }
        self.add_header("Strict-Transport-Security", v.as_str());
    }

    /// Sets the `Content-Security-Policy` header.
    pub fn set_csp(&mut self, policy: &str)
        ensures
            final(self).pairs() == spec_insert(
                old(self).pairs(),
                "Content-Security-Policy"@,
                policy@,
            ),
            final(self).content_type == old(self).content_type,
            final(self).content_length == old(self).content_length,
            final(self).connection == old(self).connection,
            final(self).cookies == old(self).cookies,
    {
        self.add_header("Content-Security-Policy", policy);
    }

    /// Sets `X-XSS-Protection`: blocking mode when enabled, `0` otherwise.
    pub fn set_xss_protection(&mut self, enabled: bool)
        ensures
            final(self).pairs() == spec_insert(
                old(self).pairs(),
                "X-XSS-Protection"@,
                if enabled {
                    "1; mode=block"@
                } else {
                    "0"@
                },
            ),
            final(self).content_type == old(self).content_type,
            final(self).content_length == old(self).content_length,
            final(self).connection == old(self).connection,
            final(self).cookies == old(self).cookies,
    {
        if enabled {
            self.add_header("X-XSS-Protection", "1; mode=block");
        } else {
            self.add_header("X-XSS-Protection", "0");
        }
    }

    /// Applies the conservative security header set: `nosniff`, `DENY`
    /// framing, XSS blocking and a same-origin content-security policy.
    pub fn apply_security_headers(&mut self)
        ensures
            final(self).pairs() == spec_insert(
                spec_insert(
                    spec_insert(
                        spec_insert(
                            old(self).pairs(),
                            "X-Content-Type-Options"@,
                            "nosniff"@,
                        ),
                        "X-Frame-Options"@,
                        "DENY"@,
                    ),
                    "X-XSS-Protection"@,
                    "1; mode=block"@,
                ),
                "Content-Security-Policy"@,
                "default-src 'self'"@,
            ),
            final(self).content_type == old(self).content_type,
            final(self).content_length == old(self).content_length,
            final(self).connection == old(self).connection,
            final(self).cookies == old(self).cookies,
    {
        self.set_nosniff();
        self.set_frame_options(FrameOption::Deny);
        self.set_xss_protection(true);
        self.set_csp("default-src 'self'");
    }

    /// Sets `Access-Control-Allow-Origin`.
    pub fn set_cors_origin(&mut self, origin: &str)
        ensures
            final(self).pairs() == spec_insert(
                old(self).pairs(),
                "Access-Control-Allow-Origin"@,
                origin@,
            ),
            final(self).content_type == old(self).content_type,
            final(self).content_length == old(self).content_length,
            final(self).connection == old(self).connection,
            final(self).cookies == old(self).cookies,
    {
        self.add_header("Access-Control-Allow-Origin", origin);
    }

    /// Sets `Access-Control-Allow-Methods` to the comma-joined methods.
    pub fn set_cors_methods(&mut self, methods: &Vec<String>)
        ensures
            final(self).pairs() == spec_insert(
                old(self).pairs(),
                "Access-Control-Allow-Methods"@,
                join_with(methods@.map_values(|m: String| m@), ", "@),
            ),
            final(self).content_type == old(self).content_type,
            final(self).content_length == old(self).content_length,
            final(self).connection == old(self).connection,
            final(self).cookies == old(self).cookies,
    {
        let v = crate::text::join_strs(methods, ", ");
        self.add_header("Access-Control-Allow-Methods", v.as_str());
    }

    /// Sets `Access-Control-Allow-Headers` to the comma-joined names.
    pub fn set_cors_headers(&mut self, headers: &Vec<String>)
        ensures
            final(self).pairs() == spec_insert(
                old(self).pairs(),
                "Access-Control-Allow-Headers"@,
                join_with(headers@.map_values(|h: String| h@), ", "@),
            ),
            final(self).content_type == old(self).content_type,
            final(self).content_length == old(self).content_length,
            final(self).connection == old(self).connection,
            final(self).cookies == old(self).cookies,
    {
        let v = crate::text::join_strs(headers, ", ");
        self.add_header("Access-Control-Allow-Headers", v.as_str());
    }

    /// Sets `Access-Control-Max-Age`.
    pub fn set_cors_max_age(&mut self, seconds: u64)
        ensures
            final(self).pairs() == spec_insert(
                old(self).pairs(),
                "Access-Control-Max-Age"@,
                dec_digits(seconds as nat),
            ),
            final(self).content_type == old(self).content_type,
            final(self).content_length == old(self).content_length,
            final(self).connection == old(self).connection,
            final(self).cookies == old(self).cookies,
    {
        let n = u64_to_string(seconds);
        self.add_header("Access-Control-Max-Age", n.as_str());
    }

    /// Sets `Access-Control-Allow-Credentials: true` when allowed; no
    /// header is written otherwise.
    pub fn set_cors_credentials(&mut self, allow: bool)
        ensures
            allow ==> final(self).pairs() == spec_insert(
                old(self).pairs(),
                "Access-Control-Allow-Credentials"@,
                "true"@,
            ),
            !allow ==> *final(self) == *old(self),
            final(self).content_type == old(self).content_type,
            final(self).content_length == old(self).content_length,
            final(self).connection == old(self).connection,
            final(self).cookies == old(self).cookies,
    {
        if allow {
            self.add_header("Access-Control-Allow-Credentials", "true");
        }
    }

    /// Applies the permissive CORS set: every origin, the common methods,
    /// every header, and a day of preflight caching.
    pub fn apply_cors_permissive(&mut self)
        ensures
            final(self).pairs() == spec_insert(
                spec_insert(
                    spec_insert(
                        spec_insert(
                            old(self).pairs(),
                            "Access-Control-Allow-Origin"@,
                            "*"@,
                        ),
                        "Access-Control-Allow-Methods"@,
                        "GET, POST, PUT, DELETE, OPTIONS, PATCH"@,
                    ),
                    "Access-Control-Allow-Headers"@,
                    "*"@,
                ),
                "Access-Control-Max-Age"@,
                "86400"@,
            ),
            final(self).content_type == old(self).content_type,
            final(self).content_length == old(self).content_length,
            final(self).connection == old(self).connection,
            final(self).cookies == old(self).cookies,
    {
        self.add_header("Access-Control-Allow-Origin", "*");
        self.add_header("Access-Control-Allow-Methods", "GET, POST, PUT, DELETE, OPTIONS, PATCH");
        self.add_header("Access-Control-Allow-Headers", "*");
        self.add_header("Access-Control-Max-Age", "86400");
    }
}

} // verus!
