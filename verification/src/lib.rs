//! Server side of the Unpoly request/response header protocol.
//!
//! A [`Unpoly`] value is built once per request from the `X-Up-*` request
//! headers. A handler reads and overrides fields on it, and finally asks it
//! for the response headers, among them a `Vary` header that names every
//! request header the response was made to depend on.
pub mod error;
pub mod json;
pub mod laws;
pub mod layer;
pub mod model;
pub mod names;
pub mod request;
pub mod text;
pub mod unpoly;
pub mod vary;
pub mod wire;

pub use error::UnpolyError;
pub use layer::{LayerMode, MatchingLayer};
pub use request::{RequestHeaders, RequestState};
pub use unpoly::{HeaderLine, Unpoly};
