//! The server core: configuration, the domain-to-routes table, route
//! registration, virtual-host routing, and the error-page substitution.
//!
//! The listener, the sockets, TLS sessions, disk reads and user handlers
//! live in the embedding runtime; it drives these decision functions and
//! owns the locks around this state.
use vstd::prelude::*;
use crate::domain::Domain;
use crate::middleware::{Middleware, MiddlewareFn};
use crate::request::{HTTPRequest, header_or_empty};
use crate::response::HTTPResponse;
use crate::route::{HTTPMethod, Route, RouteType, opt_view};
use crate::router::{RouteAction, blank_response, content_response, routing_ok};
use crate::status::StatusCode;
use crate::text::{dec_digits, lower_seq, str_eq, to_lowercase, u64_to_string};

verus! {

/// Server configuration: bind address, port, whether TLS is used, and the
/// base domain.  Certificate material lives with the embedding runtime.
#[derive(Debug)]
pub struct ServerConfig {
    /// The IPv4 address the server binds to.
    pub host: [u8; 4],
    /// The port the server listens on.
    pub port: u16,
    /// Whether the runtime serves TLS on this listener.
    pub using_https: bool,
    /// The base domain; the default route table is registered under it.
    pub base_domain: String,
}

impl ServerConfig {
    /// A plain-HTTP configuration with base domain `localhost`.
    pub fn new(host: [u8; 4], port: u16) -> (r: ServerConfig)
        ensures
            r.host@ == host@,
            r.port == port,
            !r.using_https,
            r.base_domain@ == "localhost"@,
    {
        ServerConfig { host, port, using_https: false, base_domain: String::from_str("localhost") }
    }

    /// Replaces the base domain.
    pub fn set_base_domain(self, base_domain: String) -> (r: ServerConfig)
        ensures
            r.host@ == self.host@,
            r.port == self.port,
            r.using_https == self.using_https,
            r.base_domain@ == base_domain@,
    {
        ServerConfig { base_domain, ..self }
    }

    /// The bind address as `a.b.c.d:port`.
    pub fn ip_as_string(&self) -> (r: String)
        ensures
            r@ == dec_digits(self.host@[0] as nat) + "."@ + dec_digits(self.host@[1] as nat)
                + "."@ + dec_digits(self.host@[2] as nat) + "."@ + dec_digits(
                self.host@[3] as nat,
            ) + ":"@ + dec_digits(self.port as nat),
    {
        let mut r = u64_to_string(self.host[0] as u64);
        r.append(".");
        let b = u64_to_string(self.host[1] as u64);
        r.append(b.as_str());
        r.append(".");
        let c = u64_to_string(self.host[2] as u64);
        r.append(c.as_str());
        r.append(".");
        let d = u64_to_string(self.host[3] as u64);
        r.append(d.as_str());
        r.append(":");
        let p = u64_to_string(self.port as u64);
        r.append(p.as_str());
        r
    }
}

/// One domain's ordered route table.
#[derive(Debug)]
pub struct DomainRoutes {
    /// The domain owning the table.
    pub domain: Domain,
    /// The routes registered for the domain, in registration order.
    pub routes: Vec<Route>,
}

/// `k` is the first table registered under the given name.
pub open spec fn first_named(ds: Seq<DomainRoutes>, name: Seq<char>, k: int) -> bool {
    &&& 0 <= k < ds.len()
    &&& ds[k].domain.name@ == name
    &&& forall|j: int| 0 <= j < k ==> (#[trigger] ds[j]).domain.name@ != name
}

/// No table is registered under the given name.
pub open spec fn no_named(ds: Seq<DomainRoutes>, name: Seq<char>) -> bool {
    forall|j: int| 0 <= j < ds.len() ==> (#[trigger] ds[j]).domain.name@ != name
}

/// A route was appended to the table of the named domain; the table was
/// created when the name was new, and every other table is untouched.
pub open spec fn route_pushed(
    olds: Seq<DomainRoutes>,
    news: Seq<DomainRoutes>,
    dname: Seq<char>,
    r: Route,
) -> bool {
    ||| (exists|k: int|
        {
            &&& #[trigger] first_named(olds, dname, k)
            &&& news.len() == olds.len()
            &&& (forall|j: int| 0 <= j < olds.len() && j != k ==> news[j] == olds[j])
            &&& news[k].domain == olds[k].domain
            &&& news[k].routes@ == olds[k].routes@.push(r)
        })
    ||| (no_named(olds, dname) && news.len() == olds.len() + 1 && (forall|j: int|
        0 <= j < olds.len() ==> news[j] == olds[j]) && news[olds.len() as int].domain.name@
        == dname && news[olds.len() as int].routes@ == seq![r])
}

/// The web server core: configuration, the domain route tables, the
/// default domain, and the registered middleware.
#[derive(Debug)]
pub struct WebServer {
    /// Server configuration: address, port, TLS flag, base domain.
    pub config: ServerConfig,
    /// One route table per registered domain, in registration order.
    pub domains: Vec<DomainRoutes>,
    /// The domain a request falls back to when its host has no table.
    pub default_domain: Domain,
    /// The middleware entries, built-in entries first.
    pub middleware: Vec<Middleware>,
}

/// The handler reference the runtime binds to its request logger.
pub const LOG_REQUEST_HANDLER: usize = 0;

/// The handler reference the runtime binds to its response logger.
pub const LOG_RESPONSE_HANDLER: usize = 1;

/// The handler reference the runtime binds to the error-page substitution,
/// backed by [`WebServer::error_page`].
pub const ERROR_PAGE_HANDLER: usize = 2;

impl WebServer {
    /// A server over the given configuration: one empty route table under
    /// the base domain, and the built-in middleware (request logging,
    /// response logging, error-page substitution) registered ahead of any
    /// user middleware.
    pub fn new(config: ServerConfig) -> (r: WebServer)
        ensures
            r.config.base_domain@ == config.base_domain@,
            r.config.host@ == config.host@,
            r.config.port == config.port,
            r.config.using_https == config.using_https,
            r.default_domain.name@ == config.base_domain@,
            r.domains@.len() == 1,
            r.domains@[0].domain.name@ == config.base_domain@,
            r.domains@[0].routes@ == Seq::<Route>::empty(),
            r.middleware@.len() == 3,
            r.middleware@[0].f == MiddlewareFn::HTTPRequest(LOG_REQUEST_HANDLER),
            r.middleware@[0].domain.name@ == "*"@ && r.middleware@[0].route@ == "*"@,
            r.middleware@[1].f == MiddlewareFn::HTTPResponse(LOG_RESPONSE_HANDLER),
            r.middleware@[1].domain.name@ == "*"@ && r.middleware@[1].route@ == "*"@,
            r.middleware@[2].f == MiddlewareFn::HTTPResponseBothWithRoutes(ERROR_PAGE_HANDLER),
            r.middleware@[2].domain.name@ == "*"@ && r.middleware@[2].route@ == "*"@,
    {
        let default_domain = Domain::new(config.base_domain.as_str());
        let mut domains: Vec<DomainRoutes> = Vec::new();
        domains.push(DomainRoutes { domain: default_domain.clone(), routes: Vec::new() });
        let mut middleware: Vec<Middleware> = Vec::new();
        middleware.push(Middleware::new_request(None, None, LOG_REQUEST_HANDLER));
        middleware.push(Middleware::new_response(None, None, LOG_RESPONSE_HANDLER));
        middleware.push(Middleware::new_response_both_w_routes(None, None, ERROR_PAGE_HANDLER));
        WebServer { config, domains, default_domain, middleware }
    }

    /// The registration target: the given domain's name, or the default
    /// domain's without one.
    pub open spec fn reg_domain(self, domain: Option<&Domain>) -> Seq<char> {
        match domain {
            Some(d) => d.name@,
            None => self.default_domain.name@,
        }
    }

    /// Everything but the domain tables is untouched.
    pub open spec fn keeps_server_rest(new: WebServer, old: WebServer) -> bool {
        &&& new.config.base_domain@ == old.config.base_domain@
        &&& new.config.host@ == old.config.host@
        &&& new.config.port == old.config.port
        &&& new.config.using_https == old.config.using_https
        &&& new.default_domain.name@ == old.default_domain.name@
        &&& new.middleware == old.middleware
    }

    /// Appends a route to the named domain's table, creating the table
    /// when the domain is new.
    fn push_route_for(&mut self, name: &str, route: Route)
        ensures
            route_pushed(old(self).domains@, final(self).domains@, name@, route),
            Self::keeps_server_rest(*final(self), *old(self)),
    {
        let n = self.domains.len();
        let mut k: usize = 0;
        while k < n
            invariant
                0 <= k <= n,
                n == self.domains@.len(),
                *self == *old(self),
                forall|j: int| 0 <= j < k ==> (#[trigger] self.domains@[j]).domain.name@ != name@,
            decreases n - k,
        {
            if str_eq(self.domains[k].domain.name.as_str(), name) {
                proof {
                    assert(first_named(self.domains@, name@, k as int));
                }
                let mut entry = self.domains.remove(k);
                entry.routes.push(route);
                self.domains.insert(k, entry);
                proof {
                    assert(forall|j: int|
                        0 <= j < old(self).domains@.len() && j != k ==> final(self).domains@[j]
                            == old(self).domains@[j]);
                }
                return ;
            }
            k += 1;
        }
        let mut routes: Vec<Route> = Vec::new();
        routes.push(route);
        self.domains.push(DomainRoutes { domain: Domain::new(name), routes });
        proof {
            assert(final(self).domains@[old(self).domains@.len() as int].routes@ =~= seq![route]);
        }
    }

    /// Registers a subdomain's route table: the lower-cased name joined to
    /// the default domain with a dot.  An existing table is kept.
    pub fn add_subdomain_router(&mut self, domain: &Domain)
        ensures
            ({
                let full = lower_seq(domain.name@) + "."@ + old(self).default_domain.name@;
                &&& (exists|k: int|
                    first_named(old(self).domains@, full, k)) ==> final(self).domains@ == old(
                    self,
                ).domains@
                &&& (no_named(old(self).domains@, full)) ==> {
                    &&& final(self).domains@.len() == old(self).domains@.len() + 1
                    &&& (forall|j: int|
                        0 <= j < old(self).domains@.len() ==> final(self).domains@[j] == old(
                            self,
                        ).domains@[j])
                    &&& final(self).domains@[old(self).domains@.len() as int].domain.name@ == full
                    &&& final(self).domains@[old(self).domains@.len() as int].routes@ == Seq::<
                        Route,
                    >::empty()
                }
            }),
            Self::keeps_server_rest(*final(self), *old(self)),
    {
        let mut full = to_lowercase(domain.name.as_str());
        full.append(".");
        full.append(self.default_domain.name.as_str());
        let n = self.domains.len();
        let mut k: usize = 0;
        while k < n
            invariant
                0 <= k <= n,
                n == self.domains@.len(),
                *self == *old(self),
                full@ == lower_seq(domain.name@) + "."@ + old(self).default_domain.name@,
                forall|j: int| 0 <= j < k ==> (#[trigger] self.domains@[j]).domain.name@ != full@,
            decreases n - k,
        {
            if str_eq(self.domains[k].domain.name.as_str(), full.as_str()) {
                return ;
            }
            k += 1;
        }
        self.domains.push(DomainRoutes { domain: Domain::new(full.as_str()), routes: Vec::new() });
        proof {
            assert(final(self).domains@[old(self).domains@.len() as int].routes@ =~= Seq::<
                Route,
            >::empty());
        }
    }

    /// Registers a route serving one piece of content (loaded by the
    /// runtime at registration time) under a path and method.
    pub fn add_route_file(
        &mut self,
        route: &str,
        method: HTTPMethod,
        content: String,
        response_codes: StatusCode,
        domain: Option<&Domain>,
    )
        ensures
            exists|r: Route|
                {
                    &&& #[trigger] route_pushed(
                        old(self).domains@,
                        final(self).domains@,
                        old(self).reg_domain(domain),
                        r,
                    )
                    &&& r.domain.name@ == old(self).reg_domain(domain)
                    &&& r.route@ == route@
                    &&& r.method == method
                    &&& r.route_type == RouteType::File
                    &&& r.status_code == response_codes
                    &&& opt_view(r.content) == Some(content@)
                    &&& r.folder is None
                    &&& r.external is None
                    &&& r.f is None
                },
            Self::keeps_server_rest(*final(self), *old(self)),
    {
        let name = match domain {
            Some(d) => d.as_str(),
            None => self.default_domain.as_str(),
        };
        let dom = Domain::new(name.as_str());
        let r = Route::new_file(
            String::from_str(route),
            method,
            response_codes,
            dom,
            content,
        );
        let ghost gr = r;
        self.push_route_for(name.as_str(), r);
        proof {
            assert(name@ == old(self).reg_domain(domain));
            assert(route_pushed(
                old(self).domains@,
                self.domains@,
                old(self).reg_domain(domain),
                gr,
            ));
        }
    }

    /// Registers a static folder route: requests under the path prefix are
    /// served from files under the folder.
    pub fn add_static_route(
        &mut self,
        route: &str,
        method: HTTPMethod,
        folder: &str,
        response_codes: StatusCode,
        domain: Option<&Domain>,
    )
        ensures
            exists|r: Route|
                {
                    &&& #[trigger] route_pushed(
                        old(self).domains@,
                        final(self).domains@,
                        old(self).reg_domain(domain),
                        r,
                    )
                    &&& r.domain.name@ == old(self).reg_domain(domain)
                    &&& r.route@ == route@
                    &&& r.method == method
                    &&& r.route_type == RouteType::Static
                    &&& r.status_code == response_codes
                    &&& opt_view(r.folder) == Some(folder@)
                    &&& r.content is None
                    &&& r.external is None
                    &&& r.f is None
                },
            Self::keeps_server_rest(*final(self), *old(self)),
    {
        let name = match domain {
            Some(d) => d.as_str(),
            None => self.default_domain.as_str(),
        };
        let dom = Domain::new(name.as_str());
        let r = Route::new_static(
            String::from_str(route),
            method,
            response_codes,
            dom,
            String::from_str(folder),
        );
        let ghost gr = r;
        self.push_route_for(name.as_str(), r);
        proof {
            assert(name@ == old(self).reg_domain(domain));
            assert(route_pushed(
                old(self).domains@,
                self.domains@,
                old(self).reg_domain(domain),
                gr,
            ));
        }
    }

    /// Registers a custom route: the runtime invokes the handler it knows
    /// under the given reference.
    pub fn add_custom_route(
        &mut self,
        route: &str,
        method: HTTPMethod,
        f: usize,
        response_codes: StatusCode,
        domain: Option<&Domain>,
    )
        ensures
            exists|r: Route|
                {
                    &&& #[trigger] route_pushed(
                        old(self).domains@,
                        final(self).domains@,
                        old(self).reg_domain(domain),
                        r,
                    )
                    &&& r.domain.name@ == old(self).reg_domain(domain)
                    &&& r.route@ == route@
                    &&& r.method == method
                    &&& r.route_type == RouteType::Custom
                    &&& r.status_code == response_codes
                    &&& r.f == Some(f)
                    &&& r.content is None
                    &&& r.folder is None
                    &&& r.external is None
                },
            Self::keeps_server_rest(*final(self), *old(self)),
    {
        let name = match domain {
            Some(d) => d.as_str(),
            None => self.default_domain.as_str(),
        };
        let dom = Domain::new(name.as_str());
        let r = Route::new_custom(String::from_str(route), method, response_codes, dom, f);
        let ghost gr = r;
        self.push_route_for(name.as_str(), r);
        proof {
            assert(name@ == old(self).reg_domain(domain));
            assert(route_pushed(
                old(self).domains@,
                self.domains@,
                old(self).reg_domain(domain),
                gr,
            ));
        }
    }

    /// Registers an error page: its content replaces responses that carry
    /// the given status code.
    pub fn add_error_route(
        &mut self,
        content: String,
        response_codes: StatusCode,
        domain: Option<&Domain>,
    )
        ensures
            exists|r: Route|
                {
                    &&& #[trigger] route_pushed(
                        old(self).domains@,
                        final(self).domains@,
                        old(self).reg_domain(domain),
                        r,
                    )
                    &&& r.domain.name@ == old(self).reg_domain(domain)
                    &&& r.route@ == Seq::<char>::empty()
                    &&& r.method == HTTPMethod::GET
                    &&& r.route_type == RouteType::Error
                    &&& r.status_code == response_codes
                    &&& opt_view(r.content) == Some(content@)
                    &&& r.folder is None
                    &&& r.external is None
                    &&& r.f is None
                },
            Self::keeps_server_rest(*final(self), *old(self)),
    {
        let name = match domain {
            Some(d) => d.as_str(),
            None => self.default_domain.as_str(),
        };
        let dom = Domain::new(name.as_str());
        let r = Route::new_error(HTTPMethod::GET, dom, response_codes, content);
        let ghost gr = r;
        self.push_route_for(name.as_str(), r);
        proof {
            assert(name@ == old(self).reg_domain(domain));
            assert(route_pushed(
                old(self).domains@,
                self.domains@,
                old(self).reg_domain(domain),
                gr,
            ));
        }
    }

    /// Registers a proxy route: matching requests are relayed to the
    /// external base URL plus the path remainder beyond the prefix.
    pub fn add_proxy_route(
        &mut self,
        route: &str,
        external: &str,
        response_codes: StatusCode,
        domain: Option<&Domain>,
    )
        ensures
            exists|r: Route|
                {
                    &&& #[trigger] route_pushed(
                        old(self).domains@,
                        final(self).domains@,
                        old(self).reg_domain(domain),
                        r,
                    )
                    &&& r.domain.name@ == old(self).reg_domain(domain)
                    &&& r.route@ == route@
                    &&& r.method == HTTPMethod::GET
                    &&& r.route_type == RouteType::Proxy
                    &&& r.status_code == response_codes
                    &&& opt_view(r.external) == Some(external@)
                    &&& r.content is None
                    &&& r.folder is None
                    &&& r.f is None
                },
            Self::keeps_server_rest(*final(self), *old(self)),
    {
        let name = match domain {
            Some(d) => d.as_str(),
            None => self.default_domain.as_str(),
        };
        let dom = Domain::new(name.as_str());
        let r = Route::new_proxy(
            String::from_str(route),
            HTTPMethod::GET,
            dom,
            response_codes,
            String::from_str(external),
        );
        let ghost gr = r;
        self.push_route_for(name.as_str(), r);
        proof {
            assert(name@ == old(self).reg_domain(domain));
            assert(route_pushed(
                old(self).domains@,
                self.domains@,
                old(self).reg_domain(domain),
                gr,
            ));
        }
    }

    /// Substitutes the body of a registered error page when the response's
    /// status code has one: the first error route with the matching status
    /// and content wins; otherwise the response passes unchanged.
    pub fn error_page(_request: &mut HTTPRequest, response: HTTPResponse, routes: &Vec<Route>) -> (r:
        HTTPResponse)
        ensures
            *final(_request) == *old(_request),
            ({
                ||| (exists|i: int|
                    {
                        &&& #[trigger] error_route_at(routes@, response.status_code, i)
                        &&& (routes@[i].content matches Some(c) && content_response(
                            r,
                            response.status_code,
                            c@,
                        ))
                    })
                ||| ((forall|i: int| !(#[trigger] error_route_at(routes@, response.status_code, i))
                    || (exists|i: int|
                    #[trigger] error_route_at(routes@, response.status_code, i) && routes@[
                    i].content is None)) && r == response)
            }),
    {
        let n = routes.len();
        let mut i: usize = 0;
        while i < n
            invariant
                0 <= i <= n,
                n == routes@.len(),
                forall|j: int|
                    0 <= j < i ==> !((#[trigger] routes@[j]).route_type == RouteType::Error
                        && routes@[j].status_code == response.status_code),
            decreases n - i,
        {
            if routes[i].route_type == RouteType::Error && routes[i].status_code
                == response.status_code {
                proof {
                    assert(routes@[i as int].status_code == response.status_code);
                    assert(error_route_at(routes@, response.status_code, i as int));
                }
                match &routes[i].content {
                    Some(content) => {
                        let mut replaced = HTTPResponse::new(response.status_code);
                        replaced.set_body_string(content.clone());
                        return replaced;
                    },
                    None => {
                        return response;
                    },
                }
            }
            i += 1;
        }
        response
    }

    /// Routes a request: the host's table, the default domain's table as
    /// the fallback, and 404 when neither exists; the matched table is
    /// dispatched by longest prefix with exact-match preference.
    pub fn handle_routing(&self, request: &HTTPRequest) -> (r: RouteAction)
        ensures
            server_routing_ok(
                self.domains@,
                self.default_domain.name@,
                header_or_empty(request.message.headers.pairs(), "Host"@),
                request.method,
                request.path@,
                r,
            ),
    {
        let host = match request.host() {
            Some(h) => h,
            None => String::new(),
        };
        let n = self.domains.len();
        let mut k: usize = 0;
        while k < n
            invariant
                0 <= k <= n,
                n == self.domains@.len(),
                host@ == header_or_empty(request.message.headers.pairs(), "Host"@),
                forall|j: int| 0 <= j < k ==> (#[trigger] self.domains@[j]).domain.name@ != host@,
            decreases n - k,
        {
            if str_eq(self.domains[k].domain.name.as_str(), host.as_str()) {
                proof {
                    assert(first_named(self.domains@, host@, k as int));
                }
                let action = crate::router::route_table_dispatch(
                    &self.domains[k].routes,
                    request.method,
                    request.path.as_str(),
                );
                proof {
                    assert(routing_ok(
                        self.domains@[k as int].routes@,
                        request.method,
                        request.path@,
                        action,
                    ));
                }
                return action;
            }
            k += 1;
        }
        let mut k: usize = 0;
        while k < n
            invariant
                0 <= k <= n,
                n == self.domains@.len(),
                host@ == header_or_empty(request.message.headers.pairs(), "Host"@),
                no_named(self.domains@, host@),
                forall|j: int|
                    0 <= j < k ==> (#[trigger] self.domains@[j]).domain.name@
                        != self.default_domain.name@,
            decreases n - k,
        {
            if str_eq(self.domains[k].domain.name.as_str(), self.default_domain.name.as_str()) {
                proof {
                    assert(first_named(self.domains@, self.default_domain.name@, k as int));
                }
                let action = crate::router::route_table_dispatch(
                    &self.domains[k].routes,
                    request.method,
                    request.path.as_str(),
                );
                proof {
                    assert(routing_ok(
                        self.domains@[k as int].routes@,
                        request.method,
                        request.path@,
                        action,
                    ));
                }
                return action;
            }
            k += 1;
        }
        RouteAction::Respond(HTTPResponse::not_found())
    }
}

/// `k` is the table a request with this host is served from: the host's
/// own when registered, else the default domain's.
pub open spec fn table_for(
    ds: Seq<DomainRoutes>,
    default_name: Seq<char>,
    host: Seq<char>,
    k: int,
) -> bool {
    ||| first_named(ds, host, k)
    ||| (no_named(ds, host) && first_named(ds, default_name, k))
}

impl WebServer {
    /// The route table a request with the given host is dispatched
    /// against, when one exists: the host's own, else the default
    /// domain's.  The response-phase error-page substitution reads it.
    pub fn routes_for_host(&self, host: &str) -> (r: Option<&Vec<Route>>)
        ensures
            r matches Some(v) ==> exists|k: int|
                #[trigger] table_for(self.domains@, self.default_domain.name@, host@, k) && *v
                    == self.domains@[k].routes,
            r is None ==> no_named(self.domains@, host@) && no_named(
                self.domains@,
                self.default_domain.name@,
            ),
    {
        let n = self.domains.len();
        let mut k: usize = 0;
        while k < n
            invariant
                0 <= k <= n,
                n == self.domains@.len(),
                forall|j: int| 0 <= j < k ==> (#[trigger] self.domains@[j]).domain.name@ != host@,
            decreases n - k,
        {
            if str_eq(self.domains[k].domain.name.as_str(), host) {
                proof {
                    assert(first_named(self.domains@, host@, k as int));
                    assert(table_for(
                        self.domains@,
                        self.default_domain.name@,
                        host@,
                        k as int,
                    ));
                }
                return Some(&self.domains[k].routes);
            }
            k += 1;
        }
        let mut k: usize = 0;
        while k < n
            invariant
                0 <= k <= n,
                n == self.domains@.len(),
                no_named(self.domains@, host@),
                forall|j: int|
                    0 <= j < k ==> (#[trigger] self.domains@[j]).domain.name@
                        != self.default_domain.name@,
            decreases n - k,
        {
            if str_eq(self.domains[k].domain.name.as_str(), self.default_domain.name.as_str()) {
                proof {
                    assert(first_named(self.domains@, self.default_domain.name@, k as int));
                    assert(table_for(
                        self.domains@,
                        self.default_domain.name@,
                        host@,
                        k as int,
                    ));
                }
                return Some(&self.domains[k].routes);
            }
            k += 1;
        }
        None
    }
}

/// `i` is an error route for this status: the first route of kind `Error`
/// carrying the status code.
pub open spec fn error_route_at(routes: Seq<Route>, status: StatusCode, i: int) -> bool {
    &&& 0 <= i < routes.len()
    &&& routes[i].route_type == RouteType::Error
    &&& routes[i].status_code == status
    &&& forall|j: int|
        0 <= j < i ==> !((#[trigger] routes[j]).route_type == RouteType::Error && routes[
        j].status_code == status)
}

/// The virtual-host routing outcome: the host's table when registered,
/// else the default domain's, else a blank 404.
pub open spec fn server_routing_ok(
    ds: Seq<DomainRoutes>,
    default_name: Seq<char>,
    host: Seq<char>,
    m: HTTPMethod,
    path: Seq<char>,
    action: RouteAction,
) -> bool {
    ||| (exists|k: int|
        #[trigger] first_named(ds, host, k) && routing_ok(ds[k].routes@, m, path, action))
    ||| (no_named(ds, host) && exists|k: int|
        #[trigger] first_named(ds, default_name, k) && routing_ok(ds[k].routes@, m, path, action))
    ||| (no_named(ds, host) && no_named(ds, default_name) && (action
        matches RouteAction::Respond(resp) && blank_response(resp, StatusCode::NotFound)))
}

} // verus!
