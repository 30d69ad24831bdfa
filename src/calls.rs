use vstd::prelude::*;
use vstd::string::StringExecFns;
use crate::error::BrainAIError;

verus! {

/// Whether an error is an HTTP error with status 404.
pub open spec fn is_not_found(e: BrainAIError) -> bool {
    match e {
        BrainAIError::HttpError { status, .. } => status == 404,
        _ => false,
    }
}

/// The endpoint of the memory with identifier `id`.
pub fn memory_endpoint(id: &str) -> (r: String)
    ensures
        r@ == "/api/memory/"@ + id@,
{
    String::from_str("/api/memory/").concat(id)
}

/// The endpoint that adjusts the strength of the memory `id`.
pub fn memory_strength_endpoint(id: &str) -> (r: String)
    ensures
        r@ == "/api/memory/"@ + id@ + "/strength"@,
{
    String::from_str("/api/memory/").concat(id).concat("/strength")
}

/// The endpoint that lists the neighbours of the graph node `node_id`.
pub fn graph_neighbors_endpoint(node_id: &str) -> (r: String)
    ensures
        r@ == "/api/graph/neighbors/"@ + node_id@,
{
    String::from_str("/api/graph/neighbors/").concat(node_id)
}

/// Reads a lookup: a found value is kept, a 404 answer means that nothing is
/// stored under the key, and any other error is passed on.
pub fn found_or_none<T>(r: Result<T, BrainAIError>) -> (out: Result<Option<T>, BrainAIError>)
    ensures
        r is Ok ==> out == Ok::<Option<T>, BrainAIError>(Some(r->Ok_0)),
        r is Err && is_not_found(r->Err_0) ==> out == Ok::<Option<T>, BrainAIError>(None),
        r is Err && !is_not_found(r->Err_0) ==> out == Err::<Option<T>, BrainAIError>(r->Err_0),
{
    match r {
        Ok(v) => Ok(Some(v)),
        Err(e) => {
            let missing = match &e {
                BrainAIError::HttpError { status, .. } => *status == 404,
                _ => false,
            };
            if missing {
                Ok(None)
            } else {
                Err(e)
            }
        },
    }
}

/// The identifier that the service gave a new record: the `id` text of its
/// answer, which must be there.
pub fn created_id(id: Option<String>) -> (r: Result<String, BrainAIError>)
    ensures
        id is Some ==> r is Ok && r->Ok_0@ == id->Some_0@,
        id is None ==> r is Err && (match r->Err_0 {
            BrainAIError::Other(m) => m@ == "Invalid response: missing id"@,
            _ => false,
        }),
{
    match id {
        Some(s) => Ok(s),
        None => Err(BrainAIError::Other(String::from_str("Invalid response: missing id"))),
    }
}

/// Whether a status query shows a healthy service: it succeeded and its
/// `status` text is `healthy`.
pub fn is_healthy(status: Result<Option<String>, BrainAIError>) -> (r: bool)
    ensures
        r == (status is Ok && status->Ok_0 is Some && status->Ok_0->Some_0@ == "healthy"@),
{
    match status {
        Ok(Some(s)) => s == String::from_str("healthy"),
        _ => false,
    }
}

} // verus!
