//! The per-feature commands: each is a request to build, and a rule that turns
//! the exchange's result into the command's own result.
use vstd::prelude::*;

use crate::error::{opt_view, result_view, ControlError, ControlFault};
use crate::message::{ControlMessage, MessageModel};
use crate::response::{interpret, interpreted, require_done, require_value, required_value, OutcomeModel};

verus! {

/// A request with no key and no value.
pub open spec fn bare_request(command: Seq<char>) -> MessageModel {
    MessageModel { command, key: None, value: None }
}

/// The value that a command needs, from the exchange's result: a failure of
/// the exchange stays; a cancellation, or an answer without a value, is an error.
pub open spec fn reply_value(reply: Result<MessageModel, ControlFault>) -> Result<Seq<char>, ControlFault> {
    match reply {
        Err(e) => Err(e),
        Ok(m) => match interpreted(m) {
            Err(e) => Err(e),
            Ok(o) => required_value(o),
        },
    }
}

/// Whether a command that needs no value succeeded, from the exchange's result:
/// `Ok` for any data answer, else the failure or the cancellation.
pub open spec fn reply_done(reply: Result<MessageModel, ControlFault>) -> Result<(), ControlFault> {
    match reply {
        Err(e) => Err(e),
        Ok(m) => match interpreted(m) {
            Err(e) => Err(e),
            Ok(OutcomeModel::Cancelled(reason)) => Err(ControlFault::Cancelled(reason)),
            Ok(OutcomeModel::Data(_)) => Ok(()),
        },
    }
}

/// The value that a command needs, from the exchange's result.
pub fn value_of_reply(reply: Result<ControlMessage, ControlError>) -> (r: Result<String, ControlError>)
    ensures
        result_view(r) == reply_value(result_view(reply)),
{
    let response = reply?;
    let outcome = interpret(&response)?;
    require_value(outcome)
}

/// The request for a font property: `font`, keyed by the property, with the
/// new value when setting it and none when reading it.
pub fn font_request(property: String, value: Option<String>) -> (r: ControlMessage)
    ensures
        r@ == (MessageModel { command: "font"@, key: Some(property@), value: opt_view(value) }),
{
    ControlMessage::new(String::from_str("font"), Some(property), value)
}

/// A font property's value, from the result of its `font` request.
pub fn get_font_property(reply: Result<ControlMessage, ControlError>) -> (r: Result<String, ControlError>)
    ensures
        result_view(r) == reply_value(result_view(reply)),
{
    value_of_reply(reply)
}

/// Whether setting a font property succeeded, from the result of its `font` request.
pub fn set_font_property(reply: Result<ControlMessage, ControlError>) -> (r: Result<(), ControlError>)
    ensures
        match reply_done(result_view(reply)) {
            Ok(_) => r is Ok,
            Err(f) => r is Err && r->Err_0@ == f,
        },
{
    let response = reply?;
    let outcome = interpret(&response)?;
    require_done(outcome)
}

/// The request for the host's view of the working directory.
pub fn getcwd_request() -> (r: ControlMessage)
    ensures
        r@ == bare_request("getcwd"@),
{
    ControlMessage::new(String::from_str("getcwd"), None, None)
}

/// The host's view of the working directory, from the result of its request.
pub fn handle_getcwd(reply: Result<ControlMessage, ControlError>) -> (r: Result<String, ControlError>)
    ensures
        result_view(r) == reply_value(result_view(reply)),
{
    value_of_reply(reply)
}

/// The request for a folder picker on the host that answers with a path.
pub fn choose_folder_request() -> (r: ControlMessage)
    ensures
        r@ == bare_request("choose_folder"@),
{
    ControlMessage::new(String::from_str("choose_folder"), None, None)
}

/// The path of the folder chosen on the host, from the result of its request.
pub fn select_folder_as_path(reply: Result<ControlMessage, ControlError>) -> (r: Result<String, ControlError>)
    ensures
        result_view(r) == reply_value(result_view(reply)),
{
    value_of_reply(reply)
}

/// The request for a folder picker on the host that answers with a bookmark.
pub fn open_folder_request() -> (r: ControlMessage)
    ensures
        r@ == bare_request("open_folder"@),
{
    ControlMessage::new(String::from_str("open_folder"), None, None)
}

/// The bookmark of the folder chosen on the host, from the result of its request.
pub fn select_folder_as_bookmark(reply: Result<ControlMessage, ControlError>) -> (r: Result<String, ControlError>)
    ensures
        result_view(r) == reply_value(result_view(reply)),
{
    value_of_reply(reply)
}

} // verus!
