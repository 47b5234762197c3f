//! The dispatcher's laws: what routing guarantees for exact registrations,
//! static folders, and duplicated registrations, and what serialization
//! guarantees about the content length.
use vstd::prelude::*;
use crate::response::HTTPResponse;
use crate::route::{HTTPMethod, Route, RouteType, route_like};
use crate::router::{RouteAction, candidate, content_response, dispatch_ok, first_exact_any,
    first_exact_m, is_best, lemma_best_unique, no_selection, routing_ok, selected, static_path};
use crate::status::StatusCode;
use crate::message::body_view;

verus! {

/// A request that matches a registered exact (path, method) file route is
/// answered with that route's configured status and body: if `routes[i]`
/// is the first route binding exactly this path and method, and it serves
/// fixed content, every routing outcome is a response carrying its status
/// code and its content.
pub proof fn lemma_exact_file_route_served(
    routes: Seq<Route>,
    m: HTTPMethod,
    path: Seq<char>,
    i: int,
    action: RouteAction,
)
    requires
        routing_ok(routes, m, path, action),
        0 <= i < routes.len(),
        routes[i].route_type == RouteType::File,
        routes[i].route@ == path,
        routes[i].method == m,
        routes[i].content is Some,
        forall|j: int|
            0 <= j < i ==> !((#[trigger] routes[j]).route@ == path && routes[j].method == m),
    ensures
        action matches RouteAction::Respond(resp) && content_response(
            resp,
            routes[i].status_code,
            routes[i].content->Some_0@,
        ),
{
    assert(path.take(path.len() as int) =~= path);
    assert(candidate(routes[i], m, path));
    assert forall|j: int|
        0 <= j < routes.len() && candidate(#[trigger] routes[j], m, path) implies routes[
        j].route@.len() < routes[i].route@.len() || (routes[j].route@.len() == routes[
    i].route@.len() && j >= i) by {
        if routes[j].route@.len() == routes[i].route@.len() {
            assert(routes[j].route@ =~= path);
        }
    }
    assert(is_best(routes, m, path, i));
    assert(first_exact_m(routes, m, path, i));
    assert(!no_selection(routes, m, path));
    assert forall|b: int| is_best(routes, m, path, b) implies !(routes[b].route_type
        == RouteType::Static) by {
        lemma_best_unique(routes, m, path, i, b);
    }
    let s = choose|s: int| #[trigger] selected(routes, m, path, s) && dispatch_ok(
        routes[s],
        m,
        path,
        action,
    );
    assert(first_exact_m(routes, m, path, s));
    assert(s == i);
}

/// A static-folder route serves files under its mapped folder: whenever a
/// static route is the selected one for a method-matching request, the
/// dispatcher resolves a file location that begins with the route's
/// folder and a slash, followed by the path remainder under the prefix.
pub proof fn lemma_static_route_under_folder(
    routes: Seq<Route>,
    m: HTTPMethod,
    path: Seq<char>,
    s: int,
    action: RouteAction,
)
    requires
        routing_ok(routes, m, path, action),
        selected(routes, m, path, s),
        routes[s].route_type == RouteType::Static,
        routes[s].method == m,
        routes[s].folder is Some,
    ensures
        action matches RouteAction::ServeStatic(p, _) && p@ == static_path(
            routes[s].folder->Some_0@,
            routes[s].route@,
            path,
        ) && (routes[s].folder->Some_0@ + seq!['/']).is_prefix_of(p@),
{
    assert(!no_selection(routes, m, path));
    let s2 = choose|s2: int| #[trigger] selected(routes, m, path, s2) && dispatch_ok(
        routes[s2],
        m,
        path,
        action,
    );
    crate::router::lemma_selected_unique(routes, m, path, s, s2);
    let folder = routes[s].folder->Some_0@;
    let p = static_path(folder, routes[s].route@, path);
    assert((folder + seq!['/']).is_prefix_of(p)) by {
        assert(p.take((folder + seq!['/']).len() as int) =~= folder + seq!['/']);
    }
}

/// A request whose path lies under no registered pattern is answered 404:
/// with no prefix candidate and no exact-path route, the routing outcome
/// is a blank Not Found response.
pub proof fn lemma_unmatched_path_not_found(
    routes: Seq<Route>,
    m: HTTPMethod,
    path: Seq<char>,
    action: RouteAction,
)
    requires
        routing_ok(routes, m, path, action),
        forall|j: int| 0 <= j < routes.len() ==> !candidate(#[trigger] routes[j], m, path),
        forall|j: int| 0 <= j < routes.len() ==> (#[trigger] routes[j]).route@ != path,
    ensures
        action matches RouteAction::Respond(resp) && crate::router::blank_response(
            resp,
            StatusCode::NotFound,
        ),
{
    assert forall|b: int| !(#[trigger] is_best(routes, m, path, b)) by {
        if is_best(routes, m, path, b) {
            assert(candidate(routes[b], m, path));
        }
    }
    assert forall|e: int| !(#[trigger] first_exact_any(routes, path, e)) by {
        if first_exact_any(routes, path, e) {
            assert(routes[e].route@ == path);
        }
    }
    assert(no_selection(routes, m, path));
}

/// The selected route's pattern is never shorter than another candidate's:
/// with overlapping prefixes registered, a request under the longer one is
/// never dispatched to the shorter.
pub proof fn lemma_selected_is_longest_candidate(
    routes: Seq<Route>,
    m: HTTPMethod,
    path: Seq<char>,
    s: int,
    j: int,
)
    requires
        selected(routes, m, path, s),
        0 <= s < routes.len(),
        0 <= j < routes.len(),
        candidate(routes[j], m, path),
    ensures
        routes[j].route@.len() <= routes[s].route@.len(),
{
    if exists|b: int| is_best(routes, m, path, b) && routes[b].route_type == RouteType::Static {
    } else if exists|e: int| first_exact_m(routes, m, path, e) {
        assert(routes[s].route@ == path);
    } else if exists|e: int| first_exact_any(routes, path, e) {
        assert(routes[s].route@ == path);
    } else {
    }
}

/// Two routing outcomes that cannot be told apart: equal responses (by
/// status, headers and body), equal file locations and types, the same
/// handler, or the same upstream URL.
pub open spec fn same_outcome(a1: RouteAction, a2: RouteAction) -> bool {
    match (a1, a2) {
        (RouteAction::Respond(r1), RouteAction::Respond(r2)) => {
            &&& r1.status_code == r2.status_code
            &&& body_view(r1.message.body) == body_view(r2.message.body)
            &&& r1.hdr() == r2.hdr()
            &&& r1.message.headers.content_length == r2.message.headers.content_length
        },
        (RouteAction::ServeStatic(p1, c1), RouteAction::ServeStatic(p2, c2)) => p1@ == p2@
            && c1.spec_str() == c2.spec_str(),
        (RouteAction::CallCustom(h1, d1), RouteAction::CallCustom(h2, d2)) => h1 == h2
            && d1.name@ == d2.name@,
        (RouteAction::CallProxy(u1), RouteAction::CallProxy(u2)) => u1@ == u2@,
        _ => false,
    }
}

/// Registering a route again changes nothing observable: when a route
/// identical to an already registered one is appended, every request is
/// dispatched to the same outcome as before.
pub proof fn lemma_duplicate_registration_same_dispatch(
    routes: Seq<Route>,
    k: int,
    r: Route,
    m: HTTPMethod,
    path: Seq<char>,
    a1: RouteAction,
    a2: RouteAction,
)
    requires
        0 <= k < routes.len(),
        route_like(r, routes[k]),
        routing_ok(routes, m, path, a1),
        routing_ok(routes.push(r), m, path, a2),
    ensures
        same_outcome(a1, a2),
{
    let ext = routes.push(r);
    let n = routes.len() as int;
    assert(ext[n] == r);
    assert(forall|j: int| 0 <= j < n ==> ext[j] == routes[j]);
    // the appended copy never wins any of the selection criteria
    assert(candidate(r, m, path) == candidate(routes[k], m, path));
    assert(!is_best(ext, m, path, n)) by {
        if is_best(ext, m, path, n) {
            assert(candidate(ext[k], m, path));
            assert(ext[k].route@.len() == ext[n].route@.len());
        }
    }
    assert(!first_exact_m(ext, m, path, n)) by {
        if first_exact_m(ext, m, path, n) {
            assert(ext[k].route@ == path && ext[k].method == m);
        }
    }
    assert(!first_exact_any(ext, path, n)) by {
        if first_exact_any(ext, path, n) {
            assert(ext[k].route@ == path);
        }
    }
    // every selection criterion transfers between the two tables
    assert forall|b: int| is_best(routes, m, path, b) implies is_best(ext, m, path, b) by {
        assert(candidate(ext[b], m, path));
        assert forall|j: int|
            0 <= j < ext.len() && candidate(#[trigger] ext[j], m, path) implies ext[
            j].route@.len() < ext[b].route@.len() || (ext[j].route@.len() == ext[b].route@.len()
            && j >= b) by {
            if j == n {
                assert(candidate(routes[k], m, path));
                assert(ext[j].route@.len() == routes[k].route@.len());
            }
        }
    }
    assert forall|b: int| is_best(ext, m, path, b) implies b != n && is_best(routes, m, path, b) by {
        assert(candidate(routes[b], m, path) == candidate(ext[b], m, path));
    }
    assert forall|e: int| first_exact_m(routes, m, path, e) implies first_exact_m(
        ext,
        m,
        path,
        e,
    ) by {}
    assert forall|e: int| first_exact_m(ext, m, path, e) implies first_exact_m(
        routes,
        m,
        path,
        e,
    ) by {}
    assert forall|e: int| first_exact_any(routes, path, e) implies first_exact_any(
        ext,
        path,
        e,
    ) by {}
    assert forall|e: int| first_exact_any(ext, path, e) implies first_exact_any(
        routes,
        path,
        e,
    ) by {}
    if no_selection(routes, m, path) {
        assert(no_selection(ext, m, path)) by {
            if exists|b: int| is_best(ext, m, path, b) {
                let b = choose|b: int| is_best(ext, m, path, b);
                assert(is_best(routes, m, path, b));
            }
            if exists|e: int| first_exact_any(ext, path, e) {
                let e = choose|e: int| first_exact_any(ext, path, e);
                assert(first_exact_any(routes, path, e));
            }
        }
        assert(same_outcome(a1, a2));
    } else {
        let s1 = choose|s: int| #[trigger] selected(routes, m, path, s) && dispatch_ok(
            routes[s],
            m,
            path,
            a1,
        );
        assert(!no_selection(ext, m, path)) by {
            if exists|b: int| is_best(routes, m, path, b) {
                let b = choose|b: int| is_best(routes, m, path, b);
                assert(is_best(ext, m, path, b));
            }
            if exists|e: int| first_exact_any(routes, path, e) {
                let e = choose|e: int| first_exact_any(routes, path, e);
                assert(first_exact_any(ext, path, e));
            }
        }
        let s2 = choose|s: int| #[trigger] selected(ext, m, path, s) && dispatch_ok(
            ext[s],
            m,
            path,
            a2,
        );
        assert(selected(ext, m, path, s1)) by {
            if exists|b: int|
                is_best(routes, m, path, b) && routes[b].route_type == RouteType::Static {
                let b = choose|b: int|
                    is_best(routes, m, path, b) && routes[b].route_type == RouteType::Static;
                assert(is_best(ext, m, path, b) && ext[b].route_type == RouteType::Static);
            }
        }
        crate::router::lemma_selected_unique(ext, m, path, s1, s2);
        assert(s2 == s1);
        assert(dispatch_ok(routes[s1], m, path, a1));
        assert(dispatch_ok(routes[s1], m, path, a2));
        assert(same_outcome(a1, a2));
    }
}

/// Prepending one header-safe line and its terminator adds one line.
proof fn lemma_lines_of_prepend(a: Seq<char>, rest: Seq<char>)
    requires
        crate::text::no_crlf(a),
    ensures
        crate::request::lines_of(a + "\r\n"@ + rest) == seq![a] + crate::request::lines_of(rest),
{
    reveal_strlit("\r\n");
    assert(("\r\n"@).len() == 2);
    let t = a + "\r\n"@ + rest;
    let al = a.len() as int;
    assert(t[al] == '\r' && t[al + 1] == '\n');
    assert(forall|j: int| 0 <= j < al + 1 ==> t[j] != '\n');
    crate::text::lemma_split_at_first(t, '\n', al + 1);
    assert(t.take(al + 2 - 1) =~= a.push('\r'));
    assert(t.skip(al + 2) =~= rest);
    let sp = crate::text::split_seq(t, '\n');
    assert(sp == seq![a.push('\r')] + crate::text::split_seq(rest, '\n'));
    assert(crate::request::strip_cr(a.push('\r')) == a) by {
        assert(a.push('\r').drop_last() =~= a);
    }
    assert(sp.map_values(|l: Seq<char>| crate::request::strip_cr(l)) =~= seq![a]
        + crate::text::split_seq(rest, '\n').map_values(
        |l: Seq<char>| crate::request::strip_cr(l),
    ));
}

/// Skipping one line that declares no content length.
proof fn lemma_first_cl_skip(a: Seq<char>, ls: Seq<Seq<char>>)
    requires
        !crate::proxy::is_cl_line(a),
    ensures
        crate::worker::first_cl(seq![a] + ls) == crate::worker::first_cl(ls),
{
    assert((seq![a] + ls)[0] == a);
    assert((seq![a] + ls).drop_first() =~= ls);
}

/// Serializing a response and re-parsing its header block gives back the
/// content length it was serialized with: for a response whose plain
/// headers are well formed and whose cookie lines are single lines, the
/// first content-length line of the serialized text declares exactly the
/// stored length.
#[verifier::rlimit(100)]
pub proof fn lemma_serialize_reparse_content_length(
    resp: HTTPResponse,
    cookie_lines: Seq<Seq<char>>,
    n: u64,
)
    requires
        resp.message.http_version@ == "HTTP/1.1"@,
        resp.message.headers.content_length == Some(n),
        n <= usize::MAX,
        crate::text::no_crlf(resp.message.headers.content_type.spec_str()),
    ensures
        crate::worker::first_cl(
            crate::request::lines_of(crate::response::spec_response_text(resp, cookie_lines)),
        ) == Some(n as nat),
{
    reveal_strlit("HTTP/1.1");
    reveal_strlit(" ");
    reveal_strlit("\r\n");
    reveal_strlit("Content-Type: ");
    reveal_strlit("Content-Length: ");
    reveal_strlit("Connection: ");
    reveal_strlit("content-length:");
    reveal_strlit("content-length");
    assert(("HTTP/1.1"@).len() == 8);
    assert((" "@).len() == 1);
    assert(("Content-Type: "@).len() == 14);
    assert(("Content-Length: "@).len() == 16);
    assert(("Connection: "@).len() == 12);
    assert(("content-length:"@).len() == 15);
    let code = resp.status_code.spec_code() as nat;
    let reason = resp.status_code.spec_reason();
    let status_line = resp.message.http_version@ + " "@ + crate::text::dec_digits(code) + " "@
        + reason;
    let ct_line = "Content-Type: "@ + resp.message.headers.content_type.spec_str();
    let cl_line = "Content-Length: "@ + crate::text::dec_digits(n as nat);
    let conn_line = "Connection: "@ + resp.message.headers.connection.spec_str();
    let ps = resp.hdr();
    let after_cl = conn_line + "\r\n"@ + crate::headers::spec_value_lines(ps)
        + crate::headers::spec_cookie_lines(cookie_lines) + "\r\n"@;
    let text = crate::response::spec_response_text(resp, cookie_lines);
    assert(text =~= status_line + "\r\n"@ + (ct_line + "\r\n"@ + (cl_line + "\r\n"@
        + after_cl)));
    crate::text::lemma_dec_digits_all_digits(code);
    crate::text::lemma_dec_digits_all_digits(n as nat);
    crate::status::lemma_reason_no_crlf(resp.status_code);
    assert(crate::text::no_crlf(crate::text::dec_digits(code))) by {
        crate::text::lemma_digits_no_crlf(crate::text::dec_digits(code));
    }
    assert(crate::text::no_crlf(crate::text::dec_digits(n as nat))) by {
        crate::text::lemma_digits_no_crlf(crate::text::dec_digits(n as nat));
    }
    assert(crate::text::no_crlf(status_line));
    assert(crate::text::no_crlf(ct_line));
    assert(crate::text::no_crlf(cl_line));
    lemma_lines_of_prepend(status_line, ct_line + "\r\n"@ + (cl_line + "\r\n"@ + after_cl));
    lemma_lines_of_prepend(ct_line, cl_line + "\r\n"@ + after_cl);
    lemma_lines_of_prepend(cl_line, after_cl);
    // the status and content-type lines do not match the scan
    assert(!crate::proxy::is_cl_line(status_line)) by {
        let low = crate::text::lower_seq(status_line);
        if crate::proxy::is_cl_line(status_line) {
            assert("content-length:"@ =~= low.subrange(0, 15));
            assert(("content-length:"@)[0] == 'c');
            assert(low[0] == crate::text::lower_char(status_line[0]));
            assert(status_line[0] == 'H');
            assert(crate::text::lower_char('H') == 'h');
            assert(false);
        }
    }
    assert(!crate::proxy::is_cl_line(ct_line)) by {
        let low = crate::text::lower_seq(ct_line);
        if crate::proxy::is_cl_line(ct_line) {
            assert("content-length:"@ =~= low.subrange(0, 15));
            assert(("content-length:"@)[8] == 'l');
            assert(low[8] == crate::text::lower_char(ct_line[8]));
            assert(ct_line[8] == 'T');
            assert(crate::text::lower_char('T') == 't');
            assert(false);
        }
    }
    // the content-length line matches and carries exactly the stored length
    assert(crate::proxy::is_cl_line(cl_line)) by {
        let low = crate::text::lower_seq(cl_line);
        assert(forall|j: int|
            0 <= j < 15 ==> low[j] == crate::text::lower_char(#[trigger] cl_line[j]));
        assert(low.take(15) =~= "content-length:"@);
    }
    assert(crate::proxy::cl_of(cl_line) == Some(n as nat)) by {
        let digits = crate::text::dec_digits(n as nat);
        assert(forall|j: int| 0 <= j < 14 ==> cl_line[j] != ':');
        assert(cl_line[14] == ':');
        crate::text::lemma_split_first_at(cl_line, ':', 14);
        let after = cl_line.skip(15);
        assert(after =~= seq![' '] + digits);
        assert(forall|j: int| 0 <= j < after.len() ==> after[j] != ':') by {
            assert(forall|j: int|
                0 <= j < digits.len() ==> crate::text::is_digit(#[trigger] digits[j]));
        }
        crate::text::lemma_split_first_at(after, ':', after.len() as int);
        crate::text::lemma_trim_space_digits(digits);
        assert(crate::proxy::piece_of(cl_line) == digits);
        crate::text::lemma_dec_roundtrip(n as nat);
    }
    lemma_first_cl_skip(ct_line, crate::request::lines_of(cl_line + "\r\n"@ + after_cl));
    lemma_first_cl_skip(
        status_line,
        crate::request::lines_of(ct_line + "\r\n"@ + (cl_line + "\r\n"@ + after_cl)),
    );
    // once the content-length line is reached, the scan stops with its value
    let cl_lines = crate::request::lines_of(cl_line + "\r\n"@ + after_cl);
    assert(cl_lines[0] == cl_line);
    assert(crate::worker::first_cl(cl_lines) == Some(n as nat));
}

/// The serialized header block of a response carrying body `B` re-parses
/// to `Content-Length == B.len()`: a response whose content length was
/// set from its body round-trips through serialization and the header
/// scan.
pub proof fn lemma_body_roundtrip_content_length(
    resp: HTTPResponse,
    cookie_lines: Seq<Seq<char>>,
    b: Seq<u8>,
)
    requires
        resp.message.http_version@ == "HTTP/1.1"@,
        body_view(resp.message.body) == Some(b),
        b.len() <= usize::MAX,
        resp.message.headers.content_length == Some(b.len() as u64),
        crate::text::no_crlf(resp.message.headers.content_type.spec_str()),
    ensures
        crate::worker::first_cl(
            crate::request::lines_of(crate::response::spec_response_text(resp, cookie_lines)),
        ) == Some(b.len()),
{
    lemma_serialize_reparse_content_length(resp, cookie_lines, b.len() as u64);
}

} // verus!
