use sunweb::domain::Domain;
use sunweb::request::HTTPRequest;
use sunweb::route::HTTPMethod;
use sunweb::router::RouteAction;
use sunweb::server::{ServerConfig, WebServer};
use sunweb::status::StatusCode;

fn server() -> WebServer {
    let config = ServerConfig::new([127, 0, 0, 1], 8080);
    WebServer::new(config)
}

fn get(path: &str) -> HTTPRequest {
    let raw = format!("GET {} HTTP/1.1\r\nHost: localhost\r\n\r\n", path);
    HTTPRequest::parse(raw.as_bytes()).unwrap()
}

#[test]
fn file_route_serves_exact_body() {
    let mut s = server();
    s.add_route_file(
        "/",
        HTTPMethod::GET,
        String::from("<html>Hi</html>"),
        StatusCode::Okay,
        None,
    );
    match s.handle_routing(&get("/")) {
        RouteAction::Respond(resp) => {
            assert_eq!(resp.status_code.as_u16(), 200);
            assert_eq!(resp.body().unwrap().as_slice(), b"<html>Hi</html>");
        }
        _ => panic!("expected a finished response"),
    }
}

#[test]
fn unmatched_path_is_not_found() {
    let mut s = server();
    s.add_route_file(
        "/home",
        HTTPMethod::GET,
        String::from("home"),
        StatusCode::Okay,
        None,
    );
    match s.handle_routing(&get("/missing")) {
        RouteAction::Respond(resp) => {
            assert_eq!(resp.status_code.as_u16(), 404);
            assert!(resp.body().is_none());
        }
        _ => panic!("expected a finished response"),
    }
}

#[test]
fn method_mismatch_is_rejected() {
    let mut s = server();
    s.add_route_file(
        "/api",
        HTTPMethod::GET,
        String::from("api"),
        StatusCode::Okay,
        None,
    );
    let raw = b"POST /api HTTP/1.1\r\nHost: localhost\r\n\r\n";
    let req = HTTPRequest::parse(raw).unwrap();
    match s.handle_routing(&req) {
        RouteAction::Respond(resp) => assert_eq!(resp.status_code.as_u16(), 405),
        _ => panic!("expected a finished response"),
    }
}

#[test]
fn longest_prefix_wins_over_shorter() {
    let mut s = server();
    s.add_route_file(
        "/api",
        HTTPMethod::GET,
        String::from("short"),
        StatusCode::Okay,
        None,
    );
    s.add_route_file(
        "/api/v1",
        HTTPMethod::GET,
        String::from("long"),
        StatusCode::Okay,
        None,
    );
    match s.handle_routing(&get("/api/v1/x")) {
        RouteAction::Respond(resp) => {
            assert_eq!(resp.status_code.as_u16(), 200);
            assert_eq!(resp.body().unwrap().as_slice(), b"long");
        }
        _ => panic!("expected a finished response"),
    }
}

#[test]
fn longest_prefix_wins_regardless_of_order() {
    let mut s = server();
    s.add_route_file(
        "/api/v1",
        HTTPMethod::GET,
        String::from("long"),
        StatusCode::Okay,
        None,
    );
    s.add_route_file(
        "/api",
        HTTPMethod::GET,
        String::from("short"),
        StatusCode::Okay,
        None,
    );
    match s.handle_routing(&get("/api/v1/x")) {
        RouteAction::Respond(resp) => assert_eq!(resp.body().unwrap().as_slice(), b"long"),
        _ => panic!("expected a finished response"),
    }
}

#[test]
fn static_route_resolves_under_folder() {
    let mut s = server();
    s.add_static_route("/static", HTTPMethod::GET, "./assets", StatusCode::Okay, None);
    match s.handle_routing(&get("/static/css/site.css")) {
        RouteAction::ServeStatic(path, ct) => {
            assert_eq!(path, "./assets/css/site.css");
            assert_eq!(ct.as_str(), "text/css");
        }
        _ => panic!("expected a static file action"),
    }
}

#[test]
fn static_route_infers_content_types() {
    let mut s = server();
    s.add_static_route("/s", HTTPMethod::GET, "pub", StatusCode::Okay, None);
    let cases = [
        ("/s/a.html", "text/html"),
        ("/s/a.js", "application/javascript"),
        ("/s/a.json", "application/json"),
        ("/s/a.png", "image/png"),
        ("/s/a.jpg", "image/jpeg"),
        ("/s/a.svg", "image/svgxml"),
        ("/s/a.txt", "text/plain"),
        ("/s/noext", "text/plain"),
    ];
    for (path, want) in cases.iter() {
        match s.handle_routing(&get(path)) {
            RouteAction::ServeStatic(_, ct) => assert_eq!(&ct.as_str().as_str(), want),
            _ => panic!("expected a static file action"),
        }
    }
}

#[test]
fn duplicate_static_registration_keeps_dispatch() {
    let mut s = server();
    s.add_static_route("/static", HTTPMethod::GET, "./assets", StatusCode::Okay, None);
    let before = match s.handle_routing(&get("/static/x.css")) {
        RouteAction::ServeStatic(p, ct) => (p, ct.as_str()),
        _ => panic!("expected a static file action"),
    };
    s.add_static_route("/static", HTTPMethod::GET, "./assets", StatusCode::Okay, None);
    match s.handle_routing(&get("/static/x.css")) {
        RouteAction::ServeStatic(p, ct) => {
            assert_eq!(p, before.0);
            assert_eq!(ct.as_str(), before.1);
        }
        _ => panic!("expected a static file action"),
    }
}

#[test]
fn custom_route_yields_handler_reference() {
    let mut s = server();
    s.add_custom_route("/custom", HTTPMethod::GET, 7, StatusCode::Okay, None);
    match s.handle_routing(&get("/custom")) {
        RouteAction::CallCustom(h, d) => {
            assert_eq!(h, 7);
            assert_eq!(d.name, "localhost");
        }
        _ => panic!("expected a custom handler action"),
    }
}

#[test]
fn proxy_route_joins_remainder_to_external_base() {
    let mut s = server();
    s.add_proxy_route("/ext", "http://example.test/", StatusCode::Okay, None);
    match s.handle_routing(&get("/ext/page")) {
        RouteAction::CallProxy(url) => assert_eq!(url, "http://example.test/page"),
        _ => panic!("expected a proxy action"),
    }
}

#[test]
fn unknown_host_falls_back_to_default_domain() {
    let mut s = server();
    s.add_route_file(
        "/",
        HTTPMethod::GET,
        String::from("default"),
        StatusCode::Okay,
        None,
    );
    let raw = b"GET / HTTP/1.1\r\nHost: elsewhere.example\r\n\r\n";
    let req = HTTPRequest::parse(raw).unwrap();
    match s.handle_routing(&req) {
        RouteAction::Respond(resp) => assert_eq!(resp.body().unwrap().as_slice(), b"default"),
        _ => panic!("expected a finished response"),
    }
}

#[test]
fn subdomain_router_gets_its_own_table() {
    let mut s = server();
    let api = Domain::new("API");
    s.add_subdomain_router(&api);
    s.add_route_file(
        "/",
        HTTPMethod::GET,
        String::from("api home"),
        StatusCode::Okay,
        Some(&Domain::new("api.localhost")),
    );
    let raw = b"GET / HTTP/1.1\r\nHost: api.localhost\r\n\r\n";
    let req = HTTPRequest::parse(raw).unwrap();
    match s.handle_routing(&req) {
        RouteAction::Respond(resp) => assert_eq!(resp.body().unwrap().as_slice(), b"api home"),
        _ => panic!("expected a finished response"),
    }
}

#[test]
fn error_page_substitutes_registered_status() {
    let mut s = server();
    s.add_error_route(String::from("<h1>gone</h1>"), StatusCode::NotFound, None);
    let mut req = get("/nope");
    let action = s.handle_routing(&req);
    let resp = match action {
        RouteAction::Respond(resp) => resp,
        _ => panic!("expected a finished response"),
    };
    assert_eq!(resp.status_code.as_u16(), 404);
    let routes = &s.domains[0].routes;
    let replaced = WebServer::error_page(&mut req, resp, routes);
    assert_eq!(replaced.status_code.as_u16(), 404);
    assert_eq!(replaced.body().unwrap().as_slice(), b"<h1>gone</h1>");
}

#[test]
fn error_page_passes_other_statuses_through() {
    let mut s = server();
    s.add_error_route(String::from("gone"), StatusCode::NotFound, None);
    s.add_route_file(
        "/",
        HTTPMethod::GET,
        String::from("ok"),
        StatusCode::Okay,
        None,
    );
    let mut req = get("/");
    let resp = match s.handle_routing(&req) {
        RouteAction::Respond(resp) => resp,
        _ => panic!("expected a finished response"),
    };
    let routes = &s.domains[0].routes;
    let kept = WebServer::error_page(&mut req, resp, routes);
    assert_eq!(kept.status_code.as_u16(), 200);
    assert_eq!(kept.body().unwrap().as_slice(), b"ok");
}

#[test]
fn middleware_plans_follow_registration_order_and_patterns() {
    let s = server();
    let plan = sunweb::middleware::request_plan(&s.middleware, "/x", "localhost");
    assert_eq!(plan, vec![0]);
    let plan = sunweb::middleware::response_plan(&s.middleware, "/x", "localhost");
    assert_eq!(plan, vec![1, 2]);
}

#[test]
fn middleware_applies_on_match_only() {
    let m = sunweb::middleware::Middleware::new_request(
        Some(Domain::new("api.test")),
        Some(String::from("/only")),
        9,
    );
    assert!(m.applies("/only", "api.test"));
    assert!(!m.applies("/other", "api.test"));
    assert!(!m.applies("/only", "web.test"));
    let anywhere = sunweb::middleware::Middleware::new_request(None, None, 9);
    assert!(anywhere.applies("/anything", "any.host"));
}
