//! Guest-side control client: the request/response protocol spoken with the
//! host's configuration server, the interpretation of its answers, and the
//! steps that turn a host folder into a filesystem mounted in the guest.
pub mod error;
pub mod message;
pub mod response;
pub mod exchange;
pub mod commands;
pub mod mount;
