//! Request descriptors and the immutable server configuration.

use vstd::prelude::*;

verus! {

/// The HTTP methods accepted by the server. The set is declared here once:
/// every one of these methods is routed identically under the API namespace,
/// and only `Get` is served from the static namespace.
#[derive(Clone, Copy, Debug, PartialEq, Eq, Structural)]
pub enum Method {
    Get,
    Post,
    Put,
    Patch,
    Delete,
    Head,
    Options,
}

/// What a request looks like to the dispatch logic: a method, the
/// slash-separated path split into segments, and the query string, which the
/// core ignores (it exists only for the serving layer's logging).
pub struct Request {
    pub method: Method,
    pub segments: Vec<String>,
    pub query: Option<String>,
}

/// The mathematical image of a [`Request`].
pub struct RequestView {
    pub method: Method,
    pub segments: Seq<Seq<char>>,
    pub query: Option<Seq<char>>,
}

impl View for Request {
    type V = RequestView;

    open spec fn view(&self) -> RequestView {
        RequestView {
            method: self.method,
            segments: self.segments.deep_view(),
            query: self.query.deep_view(),
        }
    }
}

/// The server configuration: constructed once at startup, immutable for the
/// process lifetime, and shared read-only across all request handling. The
/// fixture root is not part of it: fixtures always live under `api/` relative
/// to the working directory.
pub struct Config {
    pub address: String,
    pub port: u16,
    pub delay_ms: u64,
    pub static_root: String,
}

/// The mathematical image of a [`Config`].
pub struct ConfigView {
    pub address: Seq<char>,
    pub port: u16,
    pub delay_ms: u64,
    pub static_root: Seq<char>,
}

impl View for Config {
    type V = ConfigView;

    open spec fn view(&self) -> ConfigView {
        ConfigView {
            address: self.address@,
            port: self.port,
            delay_ms: self.delay_ms,
            static_root: self.static_root@,
        }
    }
}

/// The name of the method as it appears on the request line.
pub open spec fn method_for_name(s: Seq<char>) -> Option<Method> {
    if s == "GET"@ {
        Some(Method::Get)
    } else if s == "POST"@ {
        Some(Method::Post)
    } else if s == "PUT"@ {
        Some(Method::Put)
    } else if s == "PATCH"@ {
        Some(Method::Patch)
    } else if s == "DELETE"@ {
        Some(Method::Delete)
    } else if s == "HEAD"@ {
        Some(Method::Head)
    } else if s == "OPTIONS"@ {
        Some(Method::Options)
    } else {
        None
    }
}

/// Recognizes the supported methods by their request-line names; any other
/// name is unsupported and the request it came on is not routed.
pub fn method_from_name(s: &str) -> (m: Option<Method>)
    ensures
        m == method_for_name(s@),
{
    if crate::paths::str_eq(s, "GET") {
        Some(Method::Get)
    } else if crate::paths::str_eq(s, "POST") {
        Some(Method::Post)
    } else if crate::paths::str_eq(s, "PUT") {
        Some(Method::Put)
    } else if crate::paths::str_eq(s, "PATCH") {
        Some(Method::Patch)
    } else if crate::paths::str_eq(s, "DELETE") {
        Some(Method::Delete)
    } else if crate::paths::str_eq(s, "HEAD") {
        Some(Method::Head)
    } else if crate::paths::str_eq(s, "OPTIONS") {
        Some(Method::Options)
    } else {
        None
    }
}

} // verus!
