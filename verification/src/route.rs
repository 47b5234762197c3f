//! Routes: an HTTP method, a path pattern and one of five handler kinds,
//! bound to a domain.
use vstd::prelude::*;
use crate::domain::Domain;
use crate::status::StatusCode;
use crate::text::{str_eq, to_uppercase, upper_seq};

verus! {

/// A standard HTTP request method.
#[derive(Clone, Copy, Debug, PartialEq, Eq, Structural, Hash)]
pub enum HTTPMethod {
    /// GET method.
    GET,
    /// HEAD method.
    HEAD,
    /// OPTIONS method.
    OPTIONS,
    /// TRACE method.
    TRACE,
    /// PUT method.
    PUT,
    /// DELETE method.
    DELETE,
    /// POST method.
    POST,
    /// PATCH method.
    PATCH,
    /// CONNECT method.
    CONNECT,
}

/// The method a given upper-case name denotes, if any.
pub open spec fn method_of(up: Seq<char>) -> Option<HTTPMethod> {
    if up == "GET"@ {
        Some(HTTPMethod::GET)
    } else if up == "HEAD"@ {
        Some(HTTPMethod::HEAD)
    } else if up == "OPTIONS"@ {
        Some(HTTPMethod::OPTIONS)
    } else if up == "TRACE"@ {
        Some(HTTPMethod::TRACE)
    } else if up == "PUT"@ {
        Some(HTTPMethod::PUT)
    } else if up == "DELETE"@ {
        Some(HTTPMethod::DELETE)
    } else if up == "POST"@ {
        Some(HTTPMethod::POST)
    } else if up == "PATCH"@ {
        Some(HTTPMethod::PATCH)
    } else if up == "CONNECT"@ {
        Some(HTTPMethod::CONNECT)
    } else {
        None
    }
}

impl HTTPMethod {
    /// The upper-case name of the method.
    pub open spec fn spec_str(self) -> Seq<char> {
        match self {
            HTTPMethod::GET => "GET"@,
            HTTPMethod::HEAD => "HEAD"@,
            HTTPMethod::OPTIONS => "OPTIONS"@,
            HTTPMethod::TRACE => "TRACE"@,
            HTTPMethod::PUT => "PUT"@,
            HTTPMethod::DELETE => "DELETE"@,
            HTTPMethod::POST => "POST"@,
            HTTPMethod::PATCH => "PATCH"@,
            HTTPMethod::CONNECT => "CONNECT"@,
        }
    }

    /// Recognizes a method name, ignoring ASCII case; an unknown name is an
    /// error.
    pub fn from_str(method: &str) -> (r: Result<HTTPMethod, ()>)
        ensures
            r matches Ok(m) ==> method_of(upper_seq(method@)) == Some(m),
            r is Err ==> method_of(upper_seq(method@)) is None,
    {
        let up = to_uppercase(method);
        if str_eq(up.as_str(), "GET") {
            Ok(HTTPMethod::GET)
        } else if str_eq(up.as_str(), "HEAD") {
            Ok(HTTPMethod::HEAD)
        } else if str_eq(up.as_str(), "OPTIONS") {
            Ok(HTTPMethod::OPTIONS)
        } else if str_eq(up.as_str(), "TRACE") {
            Ok(HTTPMethod::TRACE)
        } else if str_eq(up.as_str(), "PUT") {
            Ok(HTTPMethod::PUT)
        } else if str_eq(up.as_str(), "DELETE") {
            Ok(HTTPMethod::DELETE)
        } else if str_eq(up.as_str(), "POST") {
            Ok(HTTPMethod::POST)
        } else if str_eq(up.as_str(), "PATCH") {
            Ok(HTTPMethod::PATCH)
        } else if str_eq(up.as_str(), "CONNECT") {
            Ok(HTTPMethod::CONNECT)
        } else {
            Err(())
        }
    }

    /// The method name as it appears on a request line.
    pub fn as_str(&self) -> (r: &'static str)
        ensures
            r@ == self.spec_str(),
    {
        match self {
            HTTPMethod::GET => "GET",
            HTTPMethod::HEAD => "HEAD",
            HTTPMethod::OPTIONS => "OPTIONS",
            HTTPMethod::TRACE => "TRACE",
            HTTPMethod::PUT => "PUT",
            HTTPMethod::DELETE => "DELETE",
            HTTPMethod::POST => "POST",
            HTTPMethod::PATCH => "PATCH",
            HTTPMethod::CONNECT => "CONNECT",
        }
    }
}

/// The handler kind of a route.
#[derive(Clone, Copy, Debug, PartialEq, Eq, Structural)]
pub enum RouteType {
    /// Serves files from a static folder.
    Static,
    /// Serves one piece of content loaded at registration time.
    File,
    /// Invokes a registered custom handler.
    Custom,
    /// An error page bound to one status code.
    Error,
    /// Forwards the request to an external URL.
    Proxy,
}

/// A route: a path pattern and method bound to one handler kind.
///
/// A custom route carries a handler reference (`f`): a number under which
/// the embedding runtime knows the handler function.
#[derive(Debug)]
pub struct Route {
    /// The path pattern the route matches.
    pub route: String,
    /// The domain this route belongs to.
    pub domain: Domain,
    /// The HTTP method for this route.
    pub method: HTTPMethod,
    /// The handler kind of this route.
    pub route_type: RouteType,
    /// The status code the route responds with.
    pub status_code: StatusCode,
    /// The external base URL of a proxy route.
    pub external: Option<String>,
    /// The body content of a file or error route.
    pub content: Option<String>,
    /// The folder of a static route.
    pub folder: Option<String>,
    /// The handler reference of a custom route.
    pub f: Option<usize>,
}

/// The view of an optional string.
pub open spec fn opt_view(o: Option<String>) -> Option<Seq<char>> {
    match o {
        Some(s) => Some(s@),
        None => None,
    }
}

/// Two routes carry the same pattern, method, kind and handler data, so
/// dispatching either gives the same outcome.
pub open spec fn route_like(a: Route, b: Route) -> bool {
    &&& a.route@ == b.route@
    &&& a.domain.name@ == b.domain.name@
    &&& a.method == b.method
    &&& a.route_type == b.route_type
    &&& a.status_code == b.status_code
    &&& opt_view(a.external) == opt_view(b.external)
    &&& opt_view(a.content) == opt_view(b.content)
    &&& opt_view(a.folder) == opt_view(b.folder)
    &&& a.f == b.f
}

impl Route {
    /// A route serving one piece of content with the given status.
    pub fn new_file(
        route: String,
        method: HTTPMethod,
        response_code: StatusCode,
        domain: Domain,
        content: String,
    ) -> (r: Route)
        ensures
            r.route@ == route@,
            r.domain.name@ == domain.name@,
            r.method == method,
            r.route_type == RouteType::File,
            r.status_code == response_code,
            r.external is None,
            opt_view(r.content) == Some(content@),
            r.folder is None,
            r.f is None,
    {
        Route {
            route,
            domain,
            method,
            route_type: RouteType::File,
            status_code: response_code,
            external: None,
            content: Some(content),
            folder: None,
            f: None,
        }
    }

    /// A route invoking the custom handler known to the runtime under `f`.
    pub fn new_custom(
        route: String,
        method: HTTPMethod,
        response_code: StatusCode,
        domain: Domain,
        f: usize,
    ) -> (r: Route)
        ensures
            r.route@ == route@,
            r.domain.name@ == domain.name@,
            r.method == method,
            r.route_type == RouteType::Custom,
            r.status_code == response_code,
            r.external is None,
            r.content is None,
            r.folder is None,
            r.f == Some(f),
    {
        Route {
            route,
            domain,
            method,
            route_type: RouteType::Custom,
            status_code: response_code,
            external: None,
            content: None,
            folder: None,
            f: Some(f),
        }
    }

    /// A route serving the files under a folder.
    pub fn new_static(
        route: String,
        method: HTTPMethod,
        response_code: StatusCode,
        domain: Domain,
        folder: String,
    ) -> (r: Route)
        ensures
            r.route@ == route@,
            r.domain.name@ == domain.name@,
            r.method == method,
            r.route_type == RouteType::Static,
            r.status_code == response_code,
            r.external is None,
            r.content is None,
            opt_view(r.folder) == Some(folder@),
            r.f is None,
    {
        Route {
            route,
            domain,
            method,
            route_type: RouteType::Static,
            status_code: response_code,
            external: None,
            content: None,
            folder: Some(folder),
            f: None,
        }
    }

    /// An error page route for one status code; its pattern is empty.
    pub fn new_error(
        method: HTTPMethod,
        domain: Domain,
        response_code: StatusCode,
        content: String,
    ) -> (r: Route)
        ensures
            r.route@ == Seq::<char>::empty(),
            r.domain.name@ == domain.name@,
            r.method == method,
            r.route_type == RouteType::Error,
            r.status_code == response_code,
            r.external is None,
            opt_view(r.content) == Some(content@),
            r.folder is None,
            r.f is None,
    {
        Route {
            route: String::new(),
            domain,
            method,
            route_type: RouteType::Error,
            status_code: response_code,
            external: None,
            content: Some(content),
            folder: None,
            f: None,
        }
    }

    /// A route forwarding matching requests to an external base URL.
    pub fn new_proxy(
        route: String,
        method: HTTPMethod,
        domain: Domain,
        response_code: StatusCode,
        external: String,
    ) -> (r: Route)
        ensures
            r.route@ == route@,
            r.domain.name@ == domain.name@,
            r.method == method,
            r.route_type == RouteType::Proxy,
            r.status_code == response_code,
            opt_view(r.external) == Some(external@),
            r.content is None,
            r.folder is None,
            r.f is None,
    {
        Route {
            route,
            domain,
            method,
            route_type: RouteType::Proxy,
            status_code: response_code,
            external: Some(external),
            content: None,
            folder: None,
            f: None,
        }
    }
}

impl Clone for Route {
    /// Cloning keeps every field's value.
    fn clone(&self) -> (r: Self)
        ensures
            route_like(r, *self),
    {
        Route {
            route: self.route.clone(),
            domain: self.domain.clone(),
            method: self.method,
            route_type: self.route_type,
            status_code: self.status_code,
            external: match &self.external {
                Some(s) => Some(s.clone()),
                None => None,
            },
            content: match &self.content {
                Some(s) => Some(s.clone()),
                None => None,
            },
            folder: match &self.folder {
                Some(s) => Some(s.clone()),
                None => None,
            },
            f: self.f,
        }
    }
}

} // verus!
