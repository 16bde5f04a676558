//! The access rule of the export service.
use vstd::prelude::*;

verus! {

/// The text with which the export service refuses an evaluation.
pub open spec fn eval_disabled_text() -> Seq<char> {
    "eval operation is disabled"@
}

/// Decides whether the export service may evaluate code: only where the
/// server was started with evaluation enabled; otherwise the request is
/// refused (as permission denied) with the returned text.
pub fn check_eval_enabled(eval_enabled: bool) -> (r: Result<(), String>)
    ensures
        r is Ok == eval_enabled,
        r matches Err(text) ==> text@ == eval_disabled_text(),
{
    if !eval_enabled {
        return Err(String::from_str("eval operation is disabled"));
    }
    Ok(())
}

} // verus!
