//! The route dispatcher: longest-prefix selection with exact-match
//! preference, and the action each route kind resolves to.
use vstd::prelude::*;
use crate::content_types::{ApplicationSubType, ContentType, ImageSubType, TextSubType};
use crate::domain::Domain;
use crate::response::HTTPResponse;
use crate::route::{HTTPMethod, Route, RouteType};
use crate::status::StatusCode;
use crate::text::{find_char, starts_with, str_eq};
use vstd::utf8::encode_utf8;

verus! {

/// A route is a candidate for a request when the method matches and its
/// pattern is a prefix of the request path.
pub open spec fn candidate(r: Route, m: HTTPMethod, path: Seq<char>) -> bool {
    r.method == m && r.route@.is_prefix_of(path)
}

/// `b` is the winning prefix candidate: among the candidates its pattern
/// is longest, and among equally long ones it was registered first.
pub open spec fn is_best(routes: Seq<Route>, m: HTTPMethod, path: Seq<char>, b: int) -> bool {
    &&& 0 <= b < routes.len()
    &&& candidate(routes[b], m, path)
    &&& forall|j: int|
        0 <= j < routes.len() && candidate(#[trigger] routes[j], m, path) ==> routes[j].route@.len()
            < routes[b].route@.len() || (routes[j].route@.len() == routes[b].route@.len() && j
            >= b)
}

/// `e` is the first route whose pattern equals the path with the matching
/// method.
pub open spec fn first_exact_m(routes: Seq<Route>, m: HTTPMethod, path: Seq<char>, e: int) -> bool {
    &&& 0 <= e < routes.len()
    &&& routes[e].route@ == path
    &&& routes[e].method == m
    &&& forall|j: int|
        0 <= j < e ==> !((#[trigger] routes[j]).route@ == path && routes[j].method == m)
}

/// `e` is the first route whose pattern equals the path, any method.
pub open spec fn first_exact_any(routes: Seq<Route>, path: Seq<char>, e: int) -> bool {
    &&& 0 <= e < routes.len()
    &&& routes[e].route@ == path
    &&& forall|j: int| 0 <= j < e ==> (#[trigger] routes[j]).route@ != path
}

/// The selection rule: the winning prefix candidate when it is a static
/// route (a prefix route legitimately serves many non-equal paths); else
/// the first exact-path route, preferring one with the matching method;
/// else the winning prefix candidate.
pub open spec fn selected(routes: Seq<Route>, m: HTTPMethod, path: Seq<char>, s: int) -> bool {
    if exists|b: int| is_best(routes, m, path, b) && routes[b].route_type == RouteType::Static {
        is_best(routes, m, path, s) && routes[s].route_type == RouteType::Static
    } else if exists|e: int| first_exact_m(routes, m, path, e) {
        first_exact_m(routes, m, path, s)
    } else if exists|e: int| first_exact_any(routes, path, e) {
        first_exact_any(routes, path, s)
    } else {
        is_best(routes, m, path, s)
    }
}

/// No route is selected: there is neither a prefix candidate nor an
/// exact-path route.
pub open spec fn no_selection(routes: Seq<Route>, m: HTTPMethod, path: Seq<char>) -> bool {
    &&& !(exists|b: int| is_best(routes, m, path, b))
    &&& !(exists|e: int| first_exact_any(routes, path, e))
}

/// The winning prefix candidate is unique.
pub proof fn lemma_best_unique(routes: Seq<Route>, m: HTTPMethod, path: Seq<char>, b1: int, b2: int)
    requires
        is_best(routes, m, path, b1),
        is_best(routes, m, path, b2),
    ensures
        b1 == b2,
{
    assert(candidate(routes[b1], m, path));
    assert(candidate(routes[b2], m, path));
}

/// The selected route is unique.
pub proof fn lemma_selected_unique(
    routes: Seq<Route>,
    m: HTTPMethod,
    path: Seq<char>,
    s1: int,
    s2: int,
)
    requires
        selected(routes, m, path, s1),
        selected(routes, m, path, s2),
    ensures
        s1 == s2,
{
    if exists|b: int| is_best(routes, m, path, b) && routes[b].route_type == RouteType::Static {
        lemma_best_unique(routes, m, path, s1, s2);
    } else if exists|e: int| first_exact_m(routes, m, path, e) {
        assert(routes[s1].route@ == path && routes[s1].method == m);
        assert(routes[s2].route@ == path && routes[s2].method == m);
    } else if exists|e: int| first_exact_any(routes, path, e) {
        assert(routes[s1].route@ == path);
        assert(routes[s2].route@ == path);
    } else {
        lemma_best_unique(routes, m, path, s1, s2);
    }
}

/// An exact-path route somewhere in the table means a first one exists.
proof fn lemma_first_exact_any_exists(routes: Seq<Route>, path: Seq<char>, w: int)
    requires
        0 <= w < routes.len(),
        routes[w].route@ == path,
    ensures
        exists|e: int| first_exact_any(routes, path, e),
    decreases w,
{
    if forall|j: int| 0 <= j < w ==> (#[trigger] routes[j]).route@ != path {
        assert(first_exact_any(routes, path, w));
    } else {
        let j = choose|j: int| 0 <= j < w && (#[trigger] routes[j]).route@ == path;
        lemma_first_exact_any_exists(routes, path, j);
    }
}

/// What the dispatcher decides for a matched request: a finished response,
/// or an action the runtime performs (load a file, call a handler, fetch
/// from an upstream).
#[derive(Debug)]
pub enum RouteAction {
    /// A complete response, ready for the response middleware.
    Respond(HTTPResponse),
    /// Serve the file at the resolved path with the inferred content type.
    ServeStatic(String, ContentType),
    /// Invoke the custom handler known to the runtime under this
    /// reference, with the matched route's domain.
    CallCustom(usize, Domain),
    /// Relay the request to this upstream URL.
    CallProxy(String),
}

/// A just-created response with the given status and no body.
pub open spec fn blank_response(r: HTTPResponse, status: StatusCode) -> bool {
    &&& r.status_code == status
    &&& r.message.http_version@ == "HTTP/1.1"@
    &&& r.hdr() == Seq::<(Seq<char>, Seq<char>)>::empty()
    &&& r.message.headers.content_type == ContentType::Text(TextSubType::Html)
    &&& r.message.headers.content_length is None
    &&& r.message.headers.connection is KeepAlive
    &&& r.message.body is None
}

/// A response carrying the given status and content as its body, with the
/// matching content length.
pub open spec fn content_response(r: HTTPResponse, status: StatusCode, content: Seq<char>) -> bool {
    &&& r.status_code == status
    &&& r.message.http_version@ == "HTTP/1.1"@
    &&& r.hdr() == Seq::<(Seq<char>, Seq<char>)>::empty()
    &&& crate::message::body_view(r.message.body) == Some(encode_utf8(content))
    &&& r.message.headers.content_length == Some(encode_utf8(content).len() as u64)
    &&& r.message.headers.connection is KeepAlive
}

/// The path remainder under a matched prefix, without a leading slash.
pub open spec fn static_rel(prefix: Seq<char>, path: Seq<char>) -> Seq<char> {
    let rel = path.skip(prefix.len() as int);
    if rel.len() > 0 && rel[0] == '/' {
        rel.drop_first()
    } else {
        rel
    }
}

/// The filesystem-relative location of a static file: the folder, a slash,
/// and the path remainder under the prefix.
pub open spec fn static_path(folder: Seq<char>, prefix: Seq<char>, path: Seq<char>) -> Seq<char> {
    folder + seq!['/'] + static_rel(prefix, path)
}

/// The position of the last occurrence of `c`, if any.
pub open spec fn last_index_of(s: Seq<char>, c: char) -> Option<int>
    decreases s.len(),
{
    if s.len() == 0 {
        None
    } else if s.last() == c {
        Some(s.len() - 1)
    } else {
        last_index_of(s.drop_last(), c)
    }
}

/// The extension of the final path segment: the text after the last dot,
/// unless a slash follows that dot.
pub open spec fn ext_of(p: Seq<char>) -> Option<Seq<char>> {
    match last_index_of(p, '.') {
        None => None,
        Some(d) => if exists|k: int| d < k < p.len() && p[k] == '/' {
            None
        } else {
            Some(p.skip(d + 1))
        },
    }
}

/// The content type inferred from a file path's extension.
pub open spec fn static_content_type(p: Seq<char>) -> ContentType {
    match ext_of(p) {
        None => ContentType::Text(TextSubType::Plain),
        Some(e) => if e == "css"@ {
            ContentType::Text(TextSubType::Css)
        } else if e == "js"@ {
            ContentType::Application(ApplicationSubType::Javascript)
        } else if e == "html"@ {
            ContentType::Text(TextSubType::Html)
        } else if e == "json"@ {
            ContentType::Application(ApplicationSubType::Json)
        } else if e == "png"@ {
            ContentType::Image(ImageSubType::Png)
        } else if e == "jpg"@ || e == "jpeg"@ {
            ContentType::Image(ImageSubType::Jpeg)
        } else if e == "svg"@ {
            ContentType::Image(ImageSubType::SvgXml)
        } else {
            ContentType::Text(TextSubType::Plain)
        },
    }
}

/// The given external base URL without trailing slashes.
pub open spec fn trim_end_slashes(s: Seq<char>) -> Seq<char>
    decreases s.len(),
{
    if s.len() > 0 && s.last() == '/' {
        trim_end_slashes(s.drop_last())
    } else {
        s
    }
}

/// The upstream URL of a proxied request: the external base URL plus the
/// path remainder beyond the matched prefix.
pub open spec fn proxy_url(prefix: Seq<char>, external: Seq<char>, path: Seq<char>) -> Seq<char> {
    trim_end_slashes(external) + path.skip(prefix.len() as int)
}

/// What dispatching the selected route must yield.
pub open spec fn dispatch_ok(r: Route, m: HTTPMethod, path: Seq<char>, action: RouteAction) -> bool {
    if r.method != m {
        action matches RouteAction::Respond(resp) && blank_response(
            resp,
            StatusCode::MethodNotAllowed,
        )
    } else {
        match r.route_type {
            RouteType::Static => match r.folder {
                Some(folder) => action matches RouteAction::ServeStatic(p, ct) && p@ == static_path(
                    folder@,
                    r.route@,
                    path,
                ) && ct.spec_str() == static_content_type(p@).spec_str(),
                None => action matches RouteAction::Respond(resp) && blank_response(
                    resp,
                    StatusCode::InternalServerError,
                ),
            },
            RouteType::File => match r.content {
                Some(c) => action matches RouteAction::Respond(resp) && content_response(
                    resp,
                    r.status_code,
                    c@,
                ),
                None => action matches RouteAction::Respond(resp) && blank_response(
                    resp,
                    StatusCode::InternalServerError,
                ),
            },
            RouteType::Custom => match r.f {
                Some(h) => action matches RouteAction::CallCustom(h2, d) && h2 == h && d.name@
                    == r.domain.name@,
                None => action matches RouteAction::Respond(resp) && blank_response(
                    resp,
                    StatusCode::InternalServerError,
                ),
            },
            RouteType::Proxy => match r.external {
                Some(e) => action matches RouteAction::CallProxy(u) && u@ == proxy_url(
                    r.route@,
                    e@,
                    path,
                ),
                None => action matches RouteAction::Respond(resp) && blank_response(
                    resp,
                    StatusCode::InternalServerError,
                ),
            },
            RouteType::Error => match r.content {
                Some(c) => action matches RouteAction::Respond(resp) && content_response(
                    resp,
                    r.status_code,
                    c@,
                ),
                None => action matches RouteAction::Respond(resp) && blank_response(
                    resp,
                    StatusCode::InternalServerError,
                ),
            },
        }
    }
}

/// The routing outcome: 404 when nothing is selected, otherwise the
/// selected route's dispatch result.
pub open spec fn routing_ok(
    routes: Seq<Route>,
    m: HTTPMethod,
    path: Seq<char>,
    action: RouteAction,
) -> bool {
    if no_selection(routes, m, path) {
        action matches RouteAction::Respond(resp) && blank_response(resp, StatusCode::NotFound)
    } else {
        exists|s: int|
            #[trigger] selected(routes, m, path, s) && dispatch_ok(routes[s], m, path, action)
    }
}

/// Finds the index of the selected route, if any.
fn select_route(routes: &Vec<Route>, method: HTTPMethod, path: &str) -> (r: Option<usize>)
    ensures
        r matches Some(s) ==> selected(routes@, method, path@, s as int),
        r is None ==> no_selection(routes@, method, path@),
{
    let n = routes.len();
    let mut best: Option<usize> = None;
    let mut i: usize = 0;
    while i < n
        invariant
            0 <= i <= n,
            n == routes@.len(),
            best is None ==> forall|j: int| 0 <= j < i ==> !candidate(#[trigger] routes@[j], method, path@),
            best matches Some(b) ==> b < i && candidate(routes@[b as int], method, path@) && forall|
                j: int,
            |
                0 <= j < i && candidate(#[trigger] routes@[j], method, path@) ==> routes@[j].route@.len()
                    < routes@[b as int].route@.len() || (routes@[j].route@.len() == routes@[
                    b as int].route@.len() && j >= b),
        decreases n - i,
    {
        if routes[i].method == method && starts_with(path, routes[i].route.as_str()) {
            match best {
                None => {
                    best = Some(i);
                },
                Some(b) => {
                    if routes[i].route.as_str().unicode_len()
                        > routes[b].route.as_str().unicode_len() {
                        best = Some(i);
                    }
                },
            }
        }
        i += 1;
    }
    let mut exact_m: Option<usize> = None;
    let mut exact_any: Option<usize> = None;
    let mut i: usize = 0;
    while i < n
        invariant
            0 <= i <= n,
            n == routes@.len(),
            exact_m matches Some(e) ==> first_exact_m(routes@, method, path@, e as int),
            exact_m is None ==> forall|j: int|
                0 <= j < i ==> !((#[trigger] routes@[j]).route@ == path@ && routes@[j].method
                    == method),
            exact_any matches Some(e) ==> first_exact_any(routes@, path@, e as int),
            exact_any is None ==> forall|j: int| 0 <= j < i ==> (#[trigger] routes@[j]).route@ != path@,
        decreases n - i,
    {
        if str_eq(routes[i].route.as_str(), path) {
            if exact_any.is_none() {
                exact_any = Some(i);
            }
            if exact_m.is_none() && routes[i].method == method {
                exact_m = Some(i);
            }
        }
        i += 1;
    }
    let best_is_static = match best {
        Some(b) => routes[b].route_type == RouteType::Static,
        None => false,
    };
    proof {
        match best {
            Some(b) => {
                assert(is_best(routes@, method, path@, b as int));
            },
            None => {},
        }
    }
    if best_is_static {
        proof {
            let b = best->Some_0 as int;
            assert(is_best(routes@, method, path@, b) && routes@[b].route_type
                == RouteType::Static);
        }
        return best;
    }
    proof {
        match best {
            Some(b) => {
                assert forall|b2: int|
                    is_best(routes@, method, path@, b2) implies !(routes@[b2].route_type
                    == RouteType::Static) by {
                    lemma_best_unique(routes@, method, path@, b as int, b2);
                }
            },
            None => {},
        }
    }
    match exact_m {
        Some(e) => {
            return Some(e);
        },
        None => {},
    }
    match exact_any {
        Some(e) => {
            return Some(e);
        },
        None => {},
    }
    match best {
        Some(b) => Some(b),
        None => None,
    }
}

/// Resolves a static file location under a folder: the folder, a slash,
/// and the request path's remainder beyond the matched prefix.
fn resolve_static(folder: &str, prefix: &str, path: &str) -> (r: String)
    requires
        prefix@.is_prefix_of(path@),
    ensures
        r@ == static_path(folder@, prefix@, path@),
{
    let mut out = String::from_str(folder);
    crate::text::push_char(&mut out, '/');
    let plen = prefix.unicode_len();
    let len = path.unicode_len();
    let rel = path.substring_char(plen, len);
    proof {
        assert(rel@ =~= path@.skip(prefix@.len() as int));
    }
    let rlen = rel.unicode_len();
    if rlen > 0 && rel.get_char(0) == '/' {
        let rel2 = rel.substring_char(1, rlen);
        proof {
            assert(rel2@ =~= rel@.drop_first());
        }
        out.append(rel2);
    } else {
        out.append(rel);
    }
    out
}

/// Infers the content type a static file is served with, by extension.
fn infer_content_type(p: &str) -> (r: ContentType)
    ensures
        r.spec_str() == static_content_type(p@).spec_str(),
{
    let len = p.unicode_len();
    let mut dot: Option<usize> = None;
    let mut i: usize = 0;
    while i < len
        invariant
            0 <= i <= len,
            len == p@.len(),
            dot matches Some(d) ==> d < i && p@[d as int] == '.' && forall|k: int|
                d < k < i ==> p@[k] != '.',
            dot is None ==> forall|k: int| 0 <= k < i ==> p@[k] != '.',
        decreases len - i,
    {
        if p.get_char(i) == '.' {
            dot = Some(i);
        }
        i += 1;
    }
    proof {
        lemma_last_index(p@, '.', match dot {
            Some(d) => Some(d as int),
            None => None,
        });
    }
    let d = match dot {
        Some(d) => d,
        None => {
            return ContentType::Text(TextSubType::Plain);
        },
    };
    match find_char(p, '/', d + 1) {
        Some(_) => {
            return ContentType::Text(TextSubType::Plain);
        },
        None => {},
    }
    let ext = p.substring_char(d + 1, len);
    proof {
        assert(ext@ =~= p@.skip(d + 1));
    }
    if str_eq(ext, "css") {
        ContentType::Text(TextSubType::Css)
    } else if str_eq(ext, "js") {
        ContentType::Application(ApplicationSubType::Javascript)
    } else if str_eq(ext, "html") {
        ContentType::Text(TextSubType::Html)
    } else if str_eq(ext, "json") {
        ContentType::Application(ApplicationSubType::Json)
    } else if str_eq(ext, "png") {
        ContentType::Image(ImageSubType::Png)
    } else if str_eq(ext, "jpg") || str_eq(ext, "jpeg") {
        ContentType::Image(ImageSubType::Jpeg)
    } else if str_eq(ext, "svg") {
        ContentType::Image(ImageSubType::SvgXml)
    } else {
        ContentType::Text(TextSubType::Plain)
    }
}

proof fn lemma_last_index(s: Seq<char>, c: char, d: Option<int>)
    requires
        d matches Some(i) ==> 0 <= i < s.len() && s[i] == c && forall|k: int|
            i < k < s.len() ==> s[k] != c,
        d is None ==> forall|k: int| 0 <= k < s.len() ==> s[k] != c,
    ensures
        last_index_of(s, c) == d,
    decreases s.len(),
{
    if s.len() == 0 {
    } else if s.last() == c {
        assert(d == Some(s.len() - 1));
    } else {
        match d {
            Some(i) => {
                lemma_last_index(s.drop_last(), c, Some(i));
            },
            None => {
                lemma_last_index(s.drop_last(), c, None);
            },
        }
    }
}

/// Joins an external base URL with the path remainder beyond the prefix.
pub fn proxy_target(prefix: &str, external: &str, path: &str) -> (r: String)
    requires
        prefix@.is_prefix_of(path@),
    ensures
        r@ == proxy_url(prefix@, external@, path@),
{
    let elen = external.unicode_len();
    proof {
        assert(external@.take(elen as int) =~= external@);
    }
    let mut hi = elen;
    while hi > 0 && external.get_char(hi - 1) == '/'
        invariant
            0 <= hi <= elen,
            elen == external@.len(),
            trim_end_slashes(external@) == trim_end_slashes(external@.take(hi as int)),
        decreases hi,
    {
        proof {
            assert(external@.take(hi as int).drop_last() =~= external@.take(hi as int - 1));
        }
        hi -= 1;
    }
    proof {
        let t = external@.take(hi as int);
        if t.len() > 0 {
            assert(t.last() != '/');
        }
        assert(trim_end_slashes(t) == t);
    }
    let mut out = String::from_str(external.substring_char(0, hi));
    let plen = prefix.unicode_len();
    let len = path.unicode_len();
    let rel = path.substring_char(plen, len);
    proof {
        assert(rel@ =~= path@.skip(prefix@.len() as int));
    }
    out.append(rel);
    out
}

/// Routes a request against one route table: selects a route by longest
/// prefix with exact-match preference, and resolves it to an action.
pub fn route_table_dispatch(routes: &Vec<Route>, method: HTTPMethod, path: &str) -> (r: RouteAction)
    ensures
        routing_ok(routes@, method, path@, r),
{
    let s = match select_route(routes, method, path) {
        Some(s) => s,
        None => {
            return RouteAction::Respond(HTTPResponse::not_found());
        },
    };
    let chosen: &Route = &routes[s];
    proof {
        assert(path@.take(path@.len() as int) =~= path@);
        assert(routes@[s as int].route@.is_prefix_of(path@));
        if routes@[s as int].route@ == path@ {
            lemma_first_exact_any_exists(routes@, path@, s as int);
        }
        assert(!no_selection(routes@, method, path@));
    }
    if chosen.method != method {
        return RouteAction::Respond(HTTPResponse::method_not_allowed());
    }
    let action: RouteAction = match chosen.route_type {
        RouteType::Static => match &chosen.folder {
            Some(folder) => {
                let file = resolve_static(folder.as_str(), chosen.route.as_str(), path);
                let ct = infer_content_type(file.as_str());
                RouteAction::ServeStatic(file, ct)
            },
            None => RouteAction::Respond(HTTPResponse::internal_error()),
        },
        RouteType::File => match &chosen.content {
            Some(c) => {
                let mut resp = HTTPResponse::new(chosen.status_code);
                resp.set_body_string(c.clone());
                RouteAction::Respond(resp)
            },
            None => RouteAction::Respond(HTTPResponse::internal_error()),
        },
        RouteType::Custom => match chosen.f {
            Some(h) => RouteAction::CallCustom(h, chosen.domain.clone()),
            None => RouteAction::Respond(HTTPResponse::internal_error()),
        },
        RouteType::Proxy => match &chosen.external {
            Some(e) => {
                let url = proxy_target(chosen.route.as_str(), e.as_str(), path);
                RouteAction::CallProxy(url)
            },
            None => RouteAction::Respond(HTTPResponse::internal_error()),
        },
        RouteType::Error => match &chosen.content {
            Some(c) => {
                let mut resp = HTTPResponse::new(chosen.status_code);
                resp.set_body_string(c.clone());
                RouteAction::Respond(resp)
            },
            None => RouteAction::Respond(HTTPResponse::internal_error()),
        },
    };
    proof {
        assert(dispatch_ok(routes@[s as int], method, path@, action));
    }
    action
}

} // verus!
