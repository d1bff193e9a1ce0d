//! The request/response rules of a Japanese tokenizer front end.
//!
//! The morphological analysis itself is done elsewhere. This library says
//! what is asked of the analysis for a request, takes the tokens that the
//! analysis produced, builds the JSON document that is sent back for them,
//! decides the HTTP status of a response, and decides whether the service may
//! start serving.

pub mod json;
pub mod token;
pub mod request;
pub mod render;
pub mod response;
pub mod lifecycle;
pub mod laws;
