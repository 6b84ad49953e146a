//! The requests and responses between the command line, the daemon and its workers.

use crate::json::{Json, JsonV};
use crate::text::opt_view;
use vstd::prelude::*;

verus! {

/// A request to the daemon.
#[derive(Debug)]
pub struct Request {
    /// Unique request ID (for correlating responses)
    pub id: String,
    /// Operation name (maps to CLI subcommands)
    pub op: String,
    /// Operation parameters
    pub params: Json,
    /// Target selector (target ID, filename, or "active")
    pub target: Option<String>,
}

/// A response of the daemon.
#[derive(Debug)]
pub struct Response {
    /// Correlating request ID
    pub id: String,
    /// Whether the operation succeeded
    pub ok: bool,
    /// Result payload (on success)
    pub result: Option<Json>,
    /// Error message (on failure)
    pub error: Option<String>,
}

/// What a response is.
pub struct ResponseV {
    pub id: Seq<char>,
    pub ok: bool,
    pub result: Option<JsonV>,
    pub error: Option<Seq<char>>,
}

/// What an optional value is.
pub open spec fn opt_json(v: Option<Json>) -> Option<JsonV> {
    match v {
        Some(j) => Some(j@),
        None => None,
    }
}

impl View for Response {
    type V = ResponseV;

    open spec fn view(&self) -> ResponseV {
        ResponseV {
            id: self.id@,
            ok: self.ok,
            result: opt_json(self.result),
            error: opt_view(self.error),
        }
    }
}

/// The response to a request that failed or succeeded.
pub open spec fn answer(id: Seq<char>, outcome: Result<JsonV, Seq<char>>) -> ResponseV {
    match outcome {
        Ok(v) => ResponseV { id, ok: true, result: Some(v), error: None },
        Err(e) => ResponseV { id, ok: false, result: None, error: Some(e) },
    }
}

impl Response {
    /// The response to a request that succeeded.
    pub fn success(id: String, result: Json) -> (r: Response)
        ensures
            r@ == answer(id@, Ok(result@)),
    {
        Response { id, ok: true, result: Some(result), error: None }
    }

    /// The response to a request that failed.
    pub fn error(id: String, msg: String) -> (r: Response)
        ensures
            r@ == answer(id@, Err(msg@)),
    {
        Response { id, ok: false, result: None, error: Some(msg) }
    }

    /// The response to the request `id` with this outcome.
    pub fn of(id: String, outcome: Result<Json, String>) -> (r: Response)
        ensures
            r@ == answer(
                id@,
                match outcome {
                    Ok(v) => Ok(v@),
                    Err(e) => Err(e@),
                },
            ),
    {
        match outcome {
            Ok(v) => Response::success(id, v),
            Err(e) => Response::error(id, e),
        }
    }
}

/// A response has a result where it reports success and an error where it does not, never both.
pub proof fn lemma_answer_shape(id: Seq<char>, outcome: Result<JsonV, Seq<char>>)
    ensures
        answer(id, outcome).id == id,
        answer(id, outcome).ok <==> outcome is Ok,
        answer(id, outcome).ok <==> answer(id, outcome).result is Some,
        answer(id, outcome).ok <==> answer(id, outcome).error is None,
{
}

} // verus!
