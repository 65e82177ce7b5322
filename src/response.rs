//! Classifies the host's answer: data, a host-reported failure, or a
//! cancellation, which share one message shape on the wire.
use vstd::prelude::*;

use crate::error::{clone_opt, opt_view, result_view, ControlError, ControlFault};
use crate::message::{ControlMessage, MessageModel};

verus! {

/// What an answer that is not a failure carries.
#[derive(Debug, Clone, PartialEq, Eq)]
pub enum Outcome {
    /// Ordinary data: the answer's value, if it has one.
    Data(Option<String>),
    /// The host ended the request without a result; the reason, if given.
    Cancelled(Option<String>),
}

/// What an outcome holds, as mathematical values.
pub enum OutcomeModel {
    Data(Option<Seq<char>>),
    Cancelled(Option<Seq<char>>),
}

impl View for Outcome {
    type V = OutcomeModel;

    open spec fn view(&self) -> OutcomeModel {
        match self {
            Outcome::Data(v) => OutcomeModel::Data(opt_view(*v)),
            Outcome::Cancelled(v) => OutcomeModel::Cancelled(opt_view(*v)),
        }
    }
}

/// The failure that an answer reports, if its key is `error`: the host's text,
/// or a protocol violation where the host gave none.
pub open spec fn host_failure(m: MessageModel) -> Option<ControlFault> {
    if m.key == Some("error"@) {
        match m.value {
            Some(text) => Some(ControlFault::Host(text)),
            None => Some(ControlFault::ProtocolViolation),
        }
    } else {
        None
    }
}

/// How an answer is classified: a reported failure first, then a status as a
/// cancellation, and anything else as data.
pub open spec fn interpreted(m: MessageModel) -> Result<OutcomeModel, ControlFault> {
    match host_failure(m) {
        Some(f) => Err(f),
        None => if m.key == Some("status"@) {
            Ok(OutcomeModel::Cancelled(m.value))
        } else {
            Ok(OutcomeModel::Data(m.value))
        },
    }
}

/// Whether the message's key is `name`.
pub fn has_key(m: &ControlMessage, name: &str) -> (r: bool)
    ensures
        r == (opt_view(m.key) == Some(name@)),
{
    match &m.key {
        Some(k) => {
            let wanted = String::from_str(name);
            *k == wanted
        },
        None => false,
    }
}

/// The failure that an answer reports, if any.
pub fn host_error(m: &ControlMessage) -> (r: Option<ControlError>)
    ensures
        match host_failure(m@) {
            Some(f) => r is Some && r->0@ == f,
            None => r is None,
        },
{
    if has_key(m, "error") {
        match &m.value {
            Some(text) => Some(ControlError::Host(text.clone())),
            None => Some(ControlError::ProtocolViolation),
        }
    } else {
        None
    }
}

/// Classifies an answer of the host.
pub fn interpret(response: &ControlMessage) -> (r: Result<Outcome, ControlError>)
    ensures
        result_view(r) == interpreted(response@),
{
    match host_error(response) {
        Some(e) => Err(e),
        None => if has_key(response, "status") {
            Ok(Outcome::Cancelled(clone_opt(&response.value)))
        } else {
            Ok(Outcome::Data(clone_opt(&response.value)))
        },
    }
}

/// The value that a command needs from an outcome.
pub open spec fn required_value(o: OutcomeModel) -> Result<Seq<char>, ControlFault> {
    match o {
        OutcomeModel::Data(Some(v)) => Ok(v),
        OutcomeModel::Data(None) => Err(ControlFault::ProtocolViolation),
        OutcomeModel::Cancelled(reason) => Err(ControlFault::Cancelled(reason)),
    }
}

/// The value of a data outcome; a cancellation, or data without a value, is an error.
pub fn require_value(o: Outcome) -> (r: Result<String, ControlError>)
    ensures
        result_view(r) == required_value(o@),
{
    match o {
        Outcome::Data(Some(v)) => Ok(v),
        Outcome::Data(None) => Err(ControlError::ProtocolViolation),
        Outcome::Cancelled(reason) => Err(ControlError::Cancelled(reason)),
    }
}

/// Accepts any data outcome; a cancellation is an error.
pub fn require_done(o: Outcome) -> (r: Result<(), ControlError>)
    ensures
        match o@ {
            OutcomeModel::Data(_) => r is Ok,
            OutcomeModel::Cancelled(reason) => r is Err && r->Err_0@ == ControlFault::Cancelled(reason),
        },
{
    match o {
        Outcome::Data(_) => Ok(()),
        Outcome::Cancelled(reason) => Err(ControlError::Cancelled(reason)),
    }
}

/// An answer whose key is `error` is the host's failure, with the host's text,
/// whatever the command it answers.
pub proof fn lemma_error_answer_is_host_failure(m: MessageModel, text: Seq<char>)
    requires
        m.key == Some("error"@),
        m.value == Some(text),
    ensures
        interpreted(m) == Err::<OutcomeModel, ControlFault>(ControlFault::Host(text)),
{
}

/// An answer whose key is `status` is a cancellation that carries the answer's
/// value as its reason, absent where the value is absent; it is never data.
pub proof fn lemma_status_answer_is_cancellation(m: MessageModel)
    requires
        m.key == Some("status"@),
    ensures
        interpreted(m) == Ok::<OutcomeModel, ControlFault>(OutcomeModel::Cancelled(m.value)),
{
    reveal_strlit("status");
    reveal_strlit("error");
    assert("status"@.len() != "error"@.len());
}

} // verus!
