//! Mapping the submission outcome reported by the OS notification
//! subsystem to the command's result.

use vstd::prelude::*;

use crate::call::SourceSpan;

verus! {

/// The fixed label attached to every submission failure.
pub open spec fn spec_error_label() -> Seq<char> {
    "Notification Exception"@
}

/// The error a failed invocation returns: the subsystem's failure
/// message as the primary text, a fixed label, and the source span of
/// the invocation site.
pub struct NotifyError {
    pub message: String,
    pub label: String,
    pub span: SourceSpan,
}

/// Maps the outcome of submitting the request to the command's result.
/// On success the pipeline input is returned unchanged, whatever it is
/// and whichever flags were set; on failure the subsystem's message is
/// wrapped in an error labeled "Notification Exception" at the
/// invocation site. Submission is atomic: these are the only outcomes.
pub fn notify_result<T>(input: T, outcome: Result<(), String>, head: SourceSpan) -> (r: Result<
    T,
    NotifyError,
>)
    ensures
        outcome is Ok ==> (r matches Ok(v) && v == input),
        outcome matches Err(m) ==> (r matches Err(e) && e.message@ == m@ && e.label@
            == spec_error_label() && e.span == head),
{
    match outcome {
        Ok(_) => Ok(input),
        Err(message) => Err(
            NotifyError { message, label: "Notification Exception".to_owned(), span: head },
        ),
    }
}

} // verus!
