//! The answers that the DCS gRPC services give where the library decides them:
//! the mission service's date-time strings and the export service's refusal
//! of `eval`, with failures as gRPC statuses.
use crate::export::{check_eval_enabled, eval_disabled_text};
use crate::mission::{failure_message, mission_time_outcome, to_datetime};
use vstd::prelude::*;

verus! {

/// The status that `tonic::Status::internal` makes of `message`.
pub uninterp spec fn internal_status(message: Seq<char>) -> tonic::Status;

/// The status that `tonic::Status::permission_denied` makes of `message`.
pub uninterp spec fn permission_denied_status(message: Seq<char>) -> tonic::Status;

/// Calls `tonic::Status::internal`. By tonic's source the status is the code
/// `Internal` with `message` and nothing else, so it is a function of the
/// message alone; it is named, not stated.
#[verifier::external_body]
fn status_internal(message: String) -> (status: tonic::Status)
    ensures
        status == internal_status(message@),
{
    tonic::Status::internal(message)
}

/// Calls `tonic::Status::permission_denied`. By tonic's source the status is
/// the code `PermissionDenied` with `message` and nothing else, so it is a
/// function of the message alone; it is named, not stated.
#[verifier::external_body]
fn status_permission_denied(message: String) -> (status: tonic::Status)
    ensures
        status == permission_denied_status(message@),
{
    tonic::Status::permission_denied(message)
}

/// The mission service's date-time string for a mission date and the whole
/// seconds since midnight, or the internal-error status that reports why the
/// time could not be written.
pub fn mission_datetime(year: i32, month: u32, day: u32, seconds: i64) -> (r: Result<String, tonic::Status>)
    ensures
        match mission_time_outcome(year, month, day, seconds as int) {
            Ok(text) => r matches Ok(t) && t@ == text,
            Err((step, detail)) => r matches Err(status) && status == internal_status(failure_message(step, detail)),
        },
{
    match to_datetime(year, month, day, seconds) {
        Ok(text) => Ok(text),
        Err(e) => Err(status_internal(e.message())),
    }
}

/// The export service's check before evaluating code: allowed where the
/// server enabled evaluation, otherwise refused with a permission-denied
/// status.
pub fn eval_permission(eval_enabled: bool) -> (r: Result<(), tonic::Status>)
    ensures
        r is Ok == eval_enabled,
        r matches Err(status) ==> status == permission_denied_status(eval_disabled_text()),
{
    match check_eval_enabled(eval_enabled) {
        Ok(()) => Ok(()),
        Err(text) => Err(status_permission_denied(text)),
    }
}

} // verus!
