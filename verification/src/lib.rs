//! A small HTTP/1.1 server core: request parsing, virtual-host routing
//! with longest-prefix matching, a middleware pipeline, response
//! serialization, and a minimal forward-proxy client with
//! chunked-transfer decoding.
//!
//! The crate holds the request-lifecycle logic only.  Sockets, TLS
//! sessions, disk access and user handlers live in the embedding runtime,
//! which drives the decision functions offered here and invokes the
//! handlers the routes and middleware entries name by reference.
pub mod bytes;
pub mod content_types;
pub mod cookie;
pub mod domain;
pub mod header_types;
pub mod headers;
pub mod httpdate;
pub mod laws;
pub mod message;
pub mod middleware;
pub mod proxy;
pub mod request;
pub mod response;
pub mod route;
pub mod router;
pub mod server;
pub mod status;
pub mod text;
pub mod worker;
