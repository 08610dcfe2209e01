//! The errors that the backend reports to the toolkit.

use vstd::prelude::*;

verus! {

/// Errors of the event loop, as the toolkit's event-loop proxy reports them.
#[derive(Copy, Clone, Debug, PartialEq, Eq, Structural)]
pub enum EventLoopError {
    /// The event loop is gone: it never ran, or it has ended.
    EventLoopTerminated,
}

/// Errors of the platform: each carries the message that the backend gives.
#[derive(Debug)]
pub enum PlatformError {
    /// An error described by its message.
    Other(String),
}

impl View for PlatformError {
    type V = Seq<char>;

    /// The message of the error.
    open spec fn view(&self) -> Seq<char> {
        match self {
            PlatformError::Other(message) => message@,
        }
    }
}

/// The error with the message `text`.
pub fn platform_error(text: &str) -> (e: PlatformError)
    ensures
        e@ == text@,
{
    PlatformError::Other(String::from_str(text))
}

/// The error whose message is `prefix` followed by `detail`.
pub fn prefixed_error(prefix: &str, detail: &String) -> (e: PlatformError)
    ensures
        e@ == prefix@ + detail@,
{
    let mut message = String::from_str(prefix);
    message.append(detail.as_str());
    PlatformError::Other(message)
}

/// A result of the platform with its error taken by its message.
pub open spec fn platform_result_view(r: Result<(), PlatformError>) -> Result<(), Seq<char>> {
    match r {
        Ok(()) => Ok(()),
        Err(e) => Err(e@),
    }
}

} // verus!
