//! The status every entry point and input handler returns to the host.
use vstd::prelude::*;

verus! {

/// Why a handler reported failure.
#[derive(Clone, Copy, Debug, PartialEq, Eq, Structural)]
pub enum FailureReason {
    /// The message held fewer bytes than the handler needs.
    MessageTooShort { required: usize, actual: usize },
}

/// Outcome of one handler invocation: success with an optional reply payload,
/// or failure with a reason.
#[derive(Clone, Debug, PartialEq, Eq)]
pub enum ResultMessage {
    Success(Option<Vec<u8>>),
    Failure(FailureReason),
}

impl ResultMessage {
    pub fn is_success(&self) -> (r: bool)
        ensures
            r <==> self is Success,
    {
        match self {
            ResultMessage::Success(_) => true,
            ResultMessage::Failure(_) => false,
        }
    }

    /// The reply payload, if the handler succeeded with one.
    pub fn payload(&self) -> (r: Option<&Vec<u8>>)
        ensures
            r == (match self {
                ResultMessage::Success(Some(p)) => Some(p),
                _ => None,
            }),
    {
        match self {
            ResultMessage::Success(Some(p)) => Some(p),
            _ => None,
        }
    }

    /// The failure reason, if the handler failed.
    pub fn failure_reason(&self) -> (r: Option<FailureReason>)
        ensures
            r == (match self {
                ResultMessage::Failure(e) => Some(*e),
                _ => None,
            }),
    {
        match self {
            ResultMessage::Failure(e) => Some(*e),
            _ => None,
        }
    }
}

/// A successful outcome carrying `payload`.
pub fn success(payload: Option<Vec<u8>>) -> (r: ResultMessage)
    ensures
        r == ResultMessage::Success(payload),
{
    ResultMessage::Success(payload)
}

/// A failed outcome carrying `reason`.
pub fn failure(reason: FailureReason) -> (r: ResultMessage)
    ensures
        r == ResultMessage::Failure(reason),
{
    ResultMessage::Failure(reason)
}

} // verus!
