//! Middleware: request and response interceptors scoped by domain and
//! route pattern, applied in registration order.
//!
//! A middleware entry names its handler by a reference number under which
//! the embedding runtime knows the function; the library decides which
//! entries apply and in what order, and the runtime invokes them.
use vstd::prelude::*;
use crate::domain::Domain;
use crate::text::str_eq;

verus! {

/// The flavour of a middleware handler, each naming a runtime handler by
/// its reference number.
#[derive(Clone, Copy, Debug)]
pub enum MiddlewareFn {
    /// Mutates the incoming request.
    HTTPRequest(usize),
    /// Mutates the outgoing response.
    HTTPResponse(usize),
    /// Reads the request and replaces the response.
    BothHTTPResponse(usize),
    /// A pair of pure request and response transformers.
    Both(usize, usize),
    /// Like `BothHTTPResponse`, but also reads the current route table.
    HTTPResponseBothWithRoutes(usize),
}

impl MiddlewareFn {
    /// True for the flavours that run in the request phase.
    pub open spec fn is_request_phase(self) -> bool {
        match self {
            MiddlewareFn::HTTPRequest(_) => true,
            MiddlewareFn::Both(_, _) => true,
            _ => false,
        }
    }

    /// True for the flavours that run in the response phase.
    pub open spec fn is_response_phase(self) -> bool {
        match self {
            MiddlewareFn::HTTPRequest(_) => false,
            _ => true,
        }
    }
}

/// A middleware rule: a domain pattern, a route pattern, and the handler.
#[derive(Debug)]
pub struct Middleware {
    /// The domain that must match, or `*` for any.
    pub domain: Domain,
    /// The route that must match, or `*` for any.
    pub route: String,
    /// The handler to execute.
    pub f: MiddlewareFn,
}

/// The applicability rule: an entry applies when its route pattern is `*`
/// or equals the request path, and its domain pattern is `*` or equals the
/// request's host.
pub open spec fn spec_applies(m: Middleware, path: Seq<char>, host: Seq<char>) -> bool {
    (m.route@ == "*"@ || m.route@ == path) && (m.domain.name@ == "*"@ || m.domain.name@ == host)
}

impl Middleware {
    /// Creates a request-phase middleware; `None` patterns mean `*`.
    pub fn new_request(domain: Option<Domain>, route: Option<String>, f: usize) -> (r: Middleware)
        ensures
            r.domain.name@ == (match domain {
                Some(d) => d.name@,
                None => "*"@,
            }),
            r.route@ == (match route {
                Some(p) => p@,
                None => "*"@,
            }),
            r.f == MiddlewareFn::HTTPRequest(f),
    {
        Middleware {
            domain: match domain {
                Some(d) => d,
                None => Domain::new("*"),
            },
            route: match route {
                Some(p) => p,
                None => String::from_str("*"),
            },
            f: MiddlewareFn::HTTPRequest(f),
        }
    }

    /// Creates a response-phase middleware; `None` patterns mean `*`.
    pub fn new_response(domain: Option<Domain>, route: Option<String>, f: usize) -> (r: Middleware)
        ensures
            r.domain.name@ == (match domain {
                Some(d) => d.name@,
                None => "*"@,
            }),
            r.route@ == (match route {
                Some(p) => p@,
                None => "*"@,
            }),
            r.f == MiddlewareFn::HTTPResponse(f),
    {
        Middleware {
            domain: match domain {
                Some(d) => d,
                None => Domain::new("*"),
            },
            route: match route {
                Some(p) => p,
                None => String::from_str("*"),
            },
            f: MiddlewareFn::HTTPResponse(f),
        }
    }

    /// Creates a middleware of paired pure request and response
    /// transformers; `None` patterns mean `*`.
    pub fn new_both(domain: Option<Domain>, route: Option<String>, f_req: usize, f_res: usize) -> (r:
        Middleware)
        ensures
            r.domain.name@ == (match domain {
                Some(d) => d.name@,
                None => "*"@,
            }),
            r.route@ == (match route {
                Some(p) => p@,
                None => "*"@,
            }),
            r.f == MiddlewareFn::Both(f_req, f_res),
    {
        Middleware {
            domain: match domain {
                Some(d) => d,
                None => Domain::new("*"),
            },
            route: match route {
                Some(p) => p,
                None => String::from_str("*"),
            },
            f: MiddlewareFn::Both(f_req, f_res),
        }
    }

    /// Creates a middleware that reads the request and replaces the
    /// response; `None` patterns mean `*`.
    pub fn new_response_both(domain: Option<Domain>, route: Option<String>, f: usize) -> (r:
        Middleware)
        ensures
            r.domain.name@ == (match domain {
                Some(d) => d.name@,
                None => "*"@,
            }),
            r.route@ == (match route {
                Some(p) => p@,
                None => "*"@,
            }),
            r.f == MiddlewareFn::BothHTTPResponse(f),
    {
        Middleware {
            domain: match domain {
                Some(d) => d,
                None => Domain::new("*"),
            },
            route: match route {
                Some(p) => p,
                None => String::from_str("*"),
            },
            f: MiddlewareFn::BothHTTPResponse(f),
        }
    }

    /// Creates a response middleware that also receives the matched
    /// domain's route table; `None` patterns mean `*`.
    pub fn new_response_both_w_routes(domain: Option<Domain>, route: Option<String>, f: usize) -> (
        r: Middleware)
        ensures
            r.domain.name@ == (match domain {
                Some(d) => d.name@,
                None => "*"@,
            }),
            r.route@ == (match route {
                Some(p) => p@,
                None => "*"@,
            }),
            r.f == MiddlewareFn::HTTPResponseBothWithRoutes(f),
    {
        Middleware {
            domain: match domain {
                Some(d) => d,
                None => Domain::new("*"),
            },
            route: match route {
                Some(p) => p,
                None => String::from_str("*"),
            },
            f: MiddlewareFn::HTTPResponseBothWithRoutes(f),
        }
    }

    /// Whether this entry applies to a request with the given path and
    /// host: apply on match, never on mismatch.
    pub fn applies(&self, path: &str, host: &str) -> (r: bool)
        ensures
            r == spec_applies(*self, path@, host@),
    {
        (str_eq(self.route.as_str(), "*") || str_eq(self.route.as_str(), path)) && (str_eq(
            self.domain.name.as_str(),
            "*",
        ) || str_eq(self.domain.name.as_str(), host))
    }
}

/// The indices of the request-phase entries among the first `n` that apply
/// to the given path and host, in registration order.
pub open spec fn req_plan_upto(ms: Seq<Middleware>, path: Seq<char>, host: Seq<char>, n: int) -> Seq<
    int,
>
    decreases n,
{
    if n <= 0 {
        Seq::<int>::empty()
    } else {
        req_plan_upto(ms, path, host, n - 1) + (if spec_applies(ms[n - 1], path, host) && ms[n
            - 1].f.is_request_phase() {
            seq![n - 1]
        } else {
            Seq::<int>::empty()
        })
    }
}

/// The indices of the response-phase entries among the first `n` that
/// apply to the given path and host, in registration order.
pub open spec fn resp_plan_upto(ms: Seq<Middleware>, path: Seq<char>, host: Seq<char>, n: int) -> Seq<
    int,
>
    decreases n,
{
    if n <= 0 {
        Seq::<int>::empty()
    } else {
        resp_plan_upto(ms, path, host, n - 1) + (if spec_applies(ms[n - 1], path, host) && ms[n
            - 1].f.is_response_phase() {
            seq![n - 1]
        } else {
            Seq::<int>::empty()
        })
    }
}

/// The request-phase plan: which middleware entries the runtime runs
/// before routing, in order.
pub fn request_plan(ms: &Vec<Middleware>, path: &str, host: &str) -> (r: Vec<usize>)
    ensures
        r@.map_values(|i: usize| i as int) == req_plan_upto(ms@, path@, host@, ms@.len() as int),
{
    let mut out: Vec<usize> = Vec::new();
    let mut i: usize = 0;
    proof {
        assert(out@.map_values(|k: usize| k as int) =~= Seq::<int>::empty());
    }
    while i < ms.len()
        invariant
            0 <= i <= ms@.len(),
            out@.map_values(|k: usize| k as int) == req_plan_upto(ms@, path@, host@, i as int),
        decreases ms@.len() - i,
    {
        let phase = match ms[i].f {
            MiddlewareFn::HTTPRequest(_) => true,
            MiddlewareFn::Both(_, _) => true,
            _ => false,
        };
        if phase && ms[i].applies(path, host) {
            out.push(i);
            proof {
                assert(out@.map_values(|k: usize| k as int) =~= out@.drop_last().map_values(
                    |k: usize| k as int,
                ).push(i as int));
                assert(req_plan_upto(ms@, path@, host@, i + 1) =~= req_plan_upto(
                    ms@,
                    path@,
                    host@,
                    i as int,
                ).push(i as int));
            }
        } else {
            proof {
                assert(req_plan_upto(ms@, path@, host@, i + 1) =~= req_plan_upto(
                    ms@,
                    path@,
                    host@,
                    i as int,
                ));
            }
        }
        i += 1;
    }
    out
}

/// The response-phase plan: which middleware entries the runtime runs
/// after routing, in order.
pub fn response_plan(ms: &Vec<Middleware>, path: &str, host: &str) -> (r: Vec<usize>)
    ensures
        r@.map_values(|i: usize| i as int) == resp_plan_upto(ms@, path@, host@, ms@.len() as int),
{
    let mut out: Vec<usize> = Vec::new();
    let mut i: usize = 0;
    proof {
        assert(out@.map_values(|k: usize| k as int) =~= Seq::<int>::empty());
    }
    while i < ms.len()
        invariant
            0 <= i <= ms@.len(),
            out@.map_values(|k: usize| k as int) == resp_plan_upto(ms@, path@, host@, i as int),
        decreases ms@.len() - i,
    {
        let phase = match ms[i].f {
            MiddlewareFn::HTTPRequest(_) => false,
            _ => true,
        };
        if phase && ms[i].applies(path, host) {
            out.push(i);
            proof {
                assert(out@.map_values(|k: usize| k as int) =~= out@.drop_last().map_values(
                    |k: usize| k as int,
                ).push(i as int));
                assert(resp_plan_upto(ms@, path@, host@, i + 1) =~= resp_plan_upto(
                    ms@,
                    path@,
                    host@,
                    i as int,
                ).push(i as int));
            }
        } else {
            proof {
                assert(resp_plan_upto(ms@, path@, host@, i + 1) =~= resp_plan_upto(
                    ms@,
                    path@,
                    host@,
                    i as int,
                ));
            }
        }
        i += 1;
    }
    out
}

} // verus!
