use vstd::prelude::*;

verus! {

/// Everything that can go wrong with one control request.
#[derive(Debug, Clone, PartialEq, Eq)]
pub enum ControlError {
    /// The connection failed, or closed before a full exchange; the cause is kept.
    Transport(String),
    /// A line that is not a JSON object with a string `command` member.
    Malformed,
    /// The host reported a failure; the text is the host's own.
    Host(String),
    /// The host ended the request without a result (for instance, a picker was dismissed).
    Cancelled(Option<String>),
    /// The host answered but left out what the command needs.
    ProtocolViolation,
    /// The operation must not run in this role (mounting outside the guest).
    NotPermitted,
    /// The guest's bus rescan or mount failed; the cause is kept.
    Mount(String),
}

/// What an error holds, as mathematical values.
pub enum ControlFault {
    Transport(Seq<char>),
    Malformed,
    Host(Seq<char>),
    Cancelled(Option<Seq<char>>),
    ProtocolViolation,
    NotPermitted,
    Mount(Seq<char>),
}

impl View for ControlError {
    type V = ControlFault;

    open spec fn view(&self) -> ControlFault {
        match self {
            ControlError::Transport(s) => ControlFault::Transport(s@),
            ControlError::Malformed => ControlFault::Malformed,
            ControlError::Host(s) => ControlFault::Host(s@),
            ControlError::Cancelled(s) => ControlFault::Cancelled(opt_view(*s)),
            ControlError::ProtocolViolation => ControlFault::ProtocolViolation,
            ControlError::NotPermitted => ControlFault::NotPermitted,
            ControlError::Mount(s) => ControlFault::Mount(s@),
        }
    }
}

/// The view of a result whose error is a `ControlError`.
pub open spec fn result_view<T: View>(r: Result<T, ControlError>) -> Result<T::V, ControlFault> {
    match r {
        Ok(t) => Ok(t@),
        Err(e) => Err(e@),
    }
}

/// The view of an optional string.
pub open spec fn opt_view(o: Option<String>) -> Option<Seq<char>> {
    match o {
        Some(s) => Some(s@),
        None => None,
    }
}

/// Copies an optional string.
pub fn clone_opt(o: &Option<String>) -> (r: Option<String>)
    ensures
        opt_view(r) == opt_view(*o),
{
    match o {
        Some(s) => Some(s.clone()),
        None => None,
    }
}

} // verus!
