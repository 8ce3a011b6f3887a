//! A client library for one chat-completion request to an OpenAI-compatible
//! endpoint: endpoint and credential resolution, the request payload and its
//! JSON text, the response model and the decisions taken on a response.

pub mod endpoint;
pub mod text;
pub mod error;
pub mod payload;
pub mod status;
pub mod response;
