//! What is sent back for a tokenize request.

use vstd::prelude::*;
use crate::json::value_model;
use crate::render::{tokens_json, tokens_to_json};
use crate::token::{token_views, Token};

verus! {

/// The status of an answer that carries the tokens.
pub const STATUS_OK: u16 = 200;

/// The status of an answer to a request whose analysis failed.
pub const STATUS_INTERNAL_SERVER_ERROR: u16 = 500;

/// The analysis of a text failed. Why it failed is not kept: a client is told
/// only that it did.
#[derive(Clone, Copy, Debug)]
pub struct AnalysisFailure;

/// The body of a response.
pub enum Body {
    /// A JSON document, sent as `application/json`.
    Json(serde_json::Value),
    /// Plain text.
    Text(String),
}

/// A response: its HTTP status and its body.
pub struct Response {
    pub status: u16,
    pub body: Body,
}

/// The whole body of the answer to a request whose analysis failed.
pub open spec fn failure_text() -> Seq<char> {
    "tokenize err"@
}

/// Decides the response from the outcome of the analysis.
///
/// Tokens are answered with status 200 and their JSON array. A failure is
/// answered with status 500 and a fixed text that says nothing of its cause.
pub fn respond(outcome: &Result<Vec<Token>, AnalysisFailure>) -> (r: Response)
    ensures
        outcome matches Ok(tokens) ==> r.status == STATUS_OK && (r.body matches Body::Json(v)
            && value_model(v) == tokens_json(token_views(tokens@))),
        outcome is Err ==> r.status == STATUS_INTERNAL_SERVER_ERROR && (r.body matches Body::Text(
            text,
        ) && text@ == failure_text()),
{
    match outcome {
        Ok(tokens) => Response { status: STATUS_OK, body: Body::Json(tokens_to_json(tokens)) },
        Err(_) => Response {
            status: STATUS_INTERNAL_SERVER_ERROR,
            body: Body::Text("tokenize err".to_owned()),
        },
    }
}

} // verus!
