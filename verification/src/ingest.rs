use vstd::prelude::*;

use crate::errors::ArchiveError;

verus! {

/// Whether a piece of text is one well-formed JSON document. A fetched body is
/// stored verbatim, so this is all the archiver asks of it.
pub uninterp spec fn json_wf(s: Seq<char>) -> bool;

/// Relies on serde_json::from_str::<serde_json::Value>: it returns Ok exactly
/// on well-formed JSON text, a fact of the text alone.
#[verifier::external_body]
fn body_parses(text: &str) -> (r: bool)
    ensures
        r == json_wf(text@),
{
    serde_json::from_str::<serde_json::Value>(text).is_ok()
}

/// Decide whether a fetched body may be inserted: exactly the well-formed JSON
/// documents pass; anything else is the protocol error that aborts the run.
pub fn check_body(text: &str) -> (r: Result<(), ArchiveError>)
    ensures
        r is Ok <==> json_wf(text@),
        r is Err ==> r->Err_0 == ArchiveError::Protocol,
{
    if body_parses(text) {
        Result::Ok(())
    } else {
        Result::Err(ArchiveError::Protocol)
    }
}

} // verus!
