//! The single classification law every command applies to an HTTP outcome:
//! route by status class, then demand a decoded body where one is owed.

use vstd::prelude::*;

verus! {

/// What to do with one HTTP outcome.
#[derive(Clone, Copy, Debug, PartialEq, Eq, Structural)]
pub enum Route {
    /// No response was received: fatal, nothing is decoded.
    Abort,
    /// A success status: decode the expected success payload.
    DecodeSuccessBody,
    /// A client-error status: decode the structured validation payload.
    DecodeErrorBody,
    /// Any other status: report the raw status and body text.
    ReadRawText,
}

/// The classification law: no response is fatal; 2xx decodes the success
/// payload; 4xx decodes the validation payload; everything else is reported
/// raw.
pub open spec fn route_of(outcome: Option<u16>) -> Route {
    match outcome {
        None => Route::Abort,
        Some(code) => if 200 <= code < 300 {
            Route::DecodeSuccessBody
        } else if 400 <= code < 500 {
            Route::DecodeErrorBody
        } else {
            Route::ReadRawText
        },
    }
}

/// Routes one HTTP outcome: `None` stands for a transport failure with no
/// response, `Some(code)` for a received response with that status code.
pub fn route_outcome(outcome: Option<u16>) -> (r: Route)
    ensures
        r == route_of(outcome),
{
    match outcome {
        None => Route::Abort,
        Some(code) => {
            if 200 <= code && code < 300 {
                Route::DecodeSuccessBody
            } else if 400 <= code && code < 500 {
                Route::DecodeErrorBody
            } else {
                Route::ReadRawText
            }
        },
    }
}

/// The error taxonomy of the client. Every failure surfaces directly; none
/// is retried.
#[derive(Clone, Copy, Debug, PartialEq, Eq, Structural)]
pub enum Failure {
    /// Blank or unparseable user input; reported before any request.
    InputValidation,
    /// The local configuration is missing or unreadable.
    ConfigUnavailable,
    /// No response was received.
    Transport,
    /// A 4xx with structured field errors.
    RemoteValidation,
    /// A 5xx or unexpected status.
    RemoteServer,
    /// A response body that does not match the expected shape.
    DecodeMismatch,
}

/// Demands the decoded body a route owes: a missing or mismatched body on a
/// routed response is a contract violation with the service.
pub fn require_decoded<T>(decoded: Option<T>) -> (r: Result<T, Failure>)
    ensures
        decoded matches Some(v) ==> r == Ok::<T, Failure>(v),
        decoded is None ==> r == Err::<T, Failure>(Failure::DecodeMismatch),
{
    match decoded {
        Some(v) => Ok(v),
        None => Err(Failure::DecodeMismatch),
    }
}

/// Whether a failure ends the process with a non-zero exit: every failure
/// does, except a remote validation error on a non-destructive operation,
/// which is reported and returned to the caller.
pub open spec fn failure_exits_nonzero(f: Failure, destructive: bool) -> bool {
    match f {
        Failure::RemoteValidation => destructive,
        _ => true,
    }
}

pub fn exits_nonzero(f: Failure, destructive: bool) -> (r: bool)
    ensures
        r == failure_exits_nonzero(f, destructive),
{
    match f {
        Failure::RemoteValidation => destructive,
        _ => true,
    }
}

} // verus!
