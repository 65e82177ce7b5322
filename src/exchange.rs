//! The decisions of one exchange with the host: one request line out, one
//! answer line back, on a connection used for nothing else. The connection
//! itself is opened, written and read by the caller.
use vstd::prelude::*;

use crate::error::{opt_view, result_view, ControlError, ControlFault};
use crate::message::{decoded, wire_text, ControlMessage, MessageModel};
use crate::response::{host_error, host_failure, lemma_error_answer_is_host_failure};

verus! {

/// Where this process runs, chosen once at startup: on the host itself, or
/// inside the sandboxed guest.
#[derive(Debug, Clone, Copy, PartialEq, Eq)]
pub enum Role {
    Host,
    Guest,
}

impl Role {
    /// The address of the configuration server: loopback on the host, the
    /// guest-visible gateway inside the guest.
    pub fn endpoint(&self) -> (r: &'static str)
        ensures
            *self == Role::Host ==> r@ == "localhost:10050"@,
            *self == Role::Guest ==> r@ == "192.168.100.2:10050"@,
    {
        match self {
            Role::Host => "localhost:10050",
            Role::Guest => "192.168.100.2:10050",
        }
    }

    /// Whether this role may mount filesystems: only the guest may.
    pub fn may_mount(&self) -> (r: bool)
        ensures
            r == (*self == Role::Guest),
    {
        match self {
            Role::Host => false,
            Role::Guest => true,
        }
    }
}

/// The request line for a command: the message built from the three parts, encoded.
pub fn run_command(command: String, key: Option<String>, value: Option<String>) -> (r: String)
    ensures
        r@ == wire_text(MessageModel { command: command@, key: opt_view(key), value: opt_view(value) }),
{
    let message = ControlMessage::new(command, key, value);
    message.encode()
}

/// The result of writing the request, from the count of bytes the write took.
pub fn check_sent(written: usize) -> (r: Result<(), ControlError>)
    ensures
        written == 0 ==> r is Err && r->Err_0@ == ControlFault::Transport(
            "connection closed without response"@,
        ),
        written > 0 ==> r is Ok,
{
    if written == 0 {
        Err(ControlError::Transport(String::from_str("connection closed without response")))
    } else {
        Ok(())
    }
}

/// Whether a read text is a whole line: it ends in a line terminator.
pub open spec fn ends_line(text: Seq<char>) -> bool {
    text.len() > 0 && text.last() == '\n'
}

/// What an exchange gives, from the count of bytes the read of the answer
/// took and the text it read: nothing read, or a text that the end of the
/// stream cut off before its line terminator, is a closed connection; a line
/// that does not decode is malformed; an answer that reports a failure is
/// that failure; any other answer is the result.
pub open spec fn reply_result(bytes_read: nat, text: Seq<char>) -> Result<MessageModel, ControlFault> {
    if bytes_read == 0 || !ends_line(text) {
        Err(ControlFault::Transport("connection closed without response"@))
    } else {
        match decoded(text) {
            None => Err(ControlFault::Malformed),
            Some(m) => match host_failure(m) {
                Some(f) => Err(f),
                None => Ok(m),
            },
        }
    }
}

/// Whether `text` ends in a line terminator.
fn is_whole_line(text: &str) -> (r: bool)
    ensures
        r == ends_line(text@),
{
    let n = text.unicode_len();
    n > 0 && text.get_char(n - 1) == '\n'
}

/// The host's answer, from what the read of its line gave.
pub fn accept_reply(bytes_read: usize, line: &str) -> (r: Result<ControlMessage, ControlError>)
    ensures
        result_view(r) == reply_result(bytes_read as nat, line@),
{
    if bytes_read == 0 || !is_whole_line(line) {
        return Err(ControlError::Transport(String::from_str("connection closed without response")));
    }
    let response = ControlMessage::decode(line)?;
    match host_error(&response) {
        Some(e) => Err(e),
        None => Ok(response),
    }
}

/// Whatever the command, an answer line that decodes to a message keyed
/// `error` reaches the exchange's caller as the host's failure, with the
/// host's text.
pub proof fn lemma_error_reply_is_host_failure(bytes_read: nat, line: Seq<char>, text: Seq<char>)
    requires
        bytes_read > 0,
        ends_line(line),
        decoded(line) is Some,
        decoded(line)->0.key == Some("error"@),
        decoded(line)->0.value == Some(text),
    ensures
        reply_result(bytes_read, line) == Err::<MessageModel, ControlFault>(ControlFault::Host(text)),
{
    lemma_error_answer_is_host_failure(decoded(line)->0, text);
}

} // verus!
