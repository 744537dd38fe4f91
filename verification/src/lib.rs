//! A thin typed-routing and API-documentation layer.
//!
//! An endpoint binds one HTTP method and path template to a request,
//! response and error type.  From that single definition the library
//! derives three artifacts: a route binding, the decisions of the
//! request-handling flow, and an OpenAPI-style documentation fragment.
//! The HTTP transport, JSON serialization and schema generation stay in
//! the surrounding application; everything here is plain data and pure
//! projection, stated in contracts and verified.

pub mod doc;
pub mod endpoint;
pub mod handler;
pub mod path;

pub use doc::ApiDoc;
pub use doc::DocumentedEndpoint;
pub use endpoint::Config;
pub use endpoint::Context;
pub use endpoint::Endpoint;
pub use endpoint::EndpointWrapper;
pub use endpoint::SharedContext;
pub use endpoint::Tag;
pub use path::axum_path_str_to_openapi;
