//! Record and replay of outbound HTTP exchanges for deterministic tests.
//!
//! On a first run the exchanges of a test are recorded to a cassette file.
//! Later runs answer each request from the cassette and make no call.
//!
//! This crate holds the rules of that, each with its proof: how a request
//! or response is recorded and rebuilt ([`message`], [`body`], [`headers`]),
//! how a cassette answers a request ([`cassette`], [`store`]), how the
//! cassette file is cut into documents ([`stream`]), which lock guards the
//! writes to a file ([`recorders`]), and what the middleware does with a
//! call it intercepts ([`middleware`]). Reading and writing files, waiting
//! for locks and talking to the HTTP client are left to the caller, who
//! hands in plain values and gets plain values back.

pub mod body;
pub mod cassette;
pub mod error;
pub mod headers;
pub mod message;
pub mod middleware;
pub mod recorders;
pub mod store;
pub mod stream;
pub mod table;
mod text;

pub use body::Body;
pub use cassette::{Cassette, Interaction, Tagged};
pub use error::VcrError;
pub use headers::Headers;
pub use message::{Method, Request, Response, VcrRequest, VcrResponse, Version};
pub use middleware::{Action, VcrMiddleware, VcrMode};
pub use recorders::{Append, RecorderRegistry};
pub use store::CassetteStore;
