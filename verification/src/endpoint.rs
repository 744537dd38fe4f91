//! Endpoint definitions and their routing projection.
//!
//! An [`Endpoint`] is a value describing one logical operation: an HTTP
//! method and a path template.  It is constructed once at startup and
//! never mutated; the routing projection derives a `(method, path)`
//! binding from it, and the surrounding application mounts that binding
//! on its transport.

use vstd::prelude::*;

verus! {

/// An HTTP method, as a route binding and a documentation path item
/// name it.
#[derive(Clone, Copy, Debug, PartialEq, Eq, Structural)]
pub enum Method {
    Get,
    Post,
    Put,
    Delete,
    Options,
    Head,
    Patch,
    Trace,
    Connect,
}

/// Static configuration carried by the shared context.
#[derive(Debug)]
pub struct Config {}

/// The process-wide dependency bundle handed to every handler call.
/// Read-only from the handlers' point of view; resources that need
/// their own state (such as a connection pool) live in the surrounding
/// application's copy of this context and manage it themselves.
#[derive(Debug)]
pub struct Context {
    pub config: Config,
}

/// The shared context as every concurrent request sees it: one
/// reference-counted value created at process start.
pub type SharedContext = std::sync::Arc<Context>;

/// A documentation tag: a name and a human-readable description.
#[derive(Clone, Copy, Debug)]
pub struct Tag {
    pub name: &'static str,
    pub desc: &'static str,
}

/// The catch-all tag that every generated document carries besides the
/// endpoints' own tags.
pub fn default_tag() -> (t: Tag)
    ensures
        t.name@ == "api"@,
        t.desc@ == "This is the catch all tag."@,
{
    Tag { name: "api", desc: "This is the catch all tag." }
}

/// One logical operation: an HTTP method and a path template.  The
/// `(method, path)` pair identifies the endpoint within a mounted set.
pub struct Endpoint {
    pub method: Method,
    pub path: String,
}

/// A mountable route binding: the `(method, path)` pair under which the
/// transport is to reach the endpoint's handler.
pub struct RouteBinding {
    pub method: Method,
    pub path: String,
}

impl Endpoint {
    /// The routing projection: the binding carries the endpoint's
    /// method and path template unchanged.
    pub fn route(&self) -> (r: RouteBinding)
        ensures
            r.method == self.method,
            r.path@ == self.path@,
    {
        RouteBinding { method: self.method, path: self.path.clone() }
    }
}

/// An adapter that holds a user's endpoint value so that the
/// surrounding application can implement its framework's handler and
/// documentation interfaces for the wrapper instead of for the user's
/// own type.
#[derive(Clone)]
pub struct EndpointWrapper<T> {
    pub inner: T,
}

impl<T> EndpointWrapper<T> {
    /// Wraps an endpoint value.
    pub fn new(inner: T) -> (r: Self)
        ensures
            r.inner == inner,
    {
        EndpointWrapper { inner }
    }
}

} // verus!
