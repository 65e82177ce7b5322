//! Mounting a host folder in the guest: ask the host to prepare it, wait for
//! the new device channel to settle, rescan the guest's bus, then mount the
//! tag the host gave. The steps are decided here and performed by the caller,
//! which reports each one's result back as an event.
use vstd::prelude::*;

use crate::commands::{reply_value, value_of_reply};
use crate::error::{result_view, ControlError, ControlFault};
use crate::exchange::Role;
use crate::message::{ControlMessage, MessageModel};

verus! {

/// How long to wait, in milliseconds, for the host's new device channel to
/// appear after a successful prepare. A guess: nothing acknowledges it.
pub const SETTLE_MILLIS: u64 = 1000;

/// The filesystem type of a host folder mounted in the guest.
pub const MOUNT_FSTYPE: &'static str = "9p";

/// The options of that mount: the virtio transport, protocol version and debug level.
pub const MOUNT_OPTIONS: &'static str = "trans=virtio,version=9p2000.L,debug=0x40";

/// The folder on the host to prepare: a literal path, or a bookmark the host issued.
#[derive(Debug, Clone, PartialEq, Eq)]
pub enum MountSource {
    Path(String),
    Bookmark(String),
}

/// The request that prepares a host path for mounting.
pub fn prepare_mount_from_path(host_path: String) -> (r: ControlMessage)
    ensures
        r@ == (MessageModel { command: "prepare_mount"@, key: Some("path"@), value: Some(host_path@) }),
{
    ControlMessage::new(String::from_str("prepare_mount"), Some(String::from_str("path")), Some(host_path))
}

/// The request that prepares a bookmarked host folder for mounting.
pub fn prepare_mount_from_bookmark(bookmark: String) -> (r: ControlMessage)
    ensures
        r@ == (MessageModel { command: "prepare_mount"@, key: Some("bookmark"@), value: Some(bookmark@) }),
{
    ControlMessage::new(String::from_str("prepare_mount"), Some(String::from_str("bookmark")), Some(bookmark))
}

/// The mount system call to make.
#[derive(Debug, Clone, PartialEq, Eq)]
pub struct MountRequest {
    /// The tag the host gave, as the filesystem's source.
    pub source: String,
    /// Where in the guest to mount it.
    pub target: String,
    pub fstype: String,
    pub options: String,
}

/// Where a mount stands between two steps.
#[derive(Debug, Clone, PartialEq, Eq)]
pub enum MountState {
    /// The prepare request is out.
    Preparing { target: String },
    /// The host gave a tag; waiting for its device channel.
    Settling { tag: String, target: String },
    /// The bus rescan is under way.
    Rescanning { tag: String, target: String },
    /// The mount call is under way.
    Mounting,
    /// Done, mounted or failed; nothing more happens.
    Finished,
}

/// The next thing for the caller to do.
#[derive(Debug, PartialEq, Eq)]
pub enum MountAction {
    /// Exchange this request with the host.
    Exchange(ControlMessage),
    /// Wait `SETTLE_MILLIS` milliseconds.
    Settle,
    /// Ask the guest's kernel to rescan its bus.
    Rescan,
    /// Make this mount call.
    Mount(MountRequest),
    /// Stop, with this result.
    Done(Result<(), ControlError>),
}

/// What the caller reports after doing an action.
#[derive(Debug, PartialEq, Eq)]
pub enum MountEvent {
    /// The exchange's result.
    Replied(Result<ControlMessage, ControlError>),
    /// The wait is over.
    Settled,
    /// The rescan's result; the error is its cause.
    Rescanned(Result<(), String>),
    /// The mount call's result; the error is its cause.
    Mounted(Result<(), String>),
}

pub enum MountStateModel {
    Preparing { target: Seq<char> },
    Settling { tag: Seq<char>, target: Seq<char> },
    Rescanning { tag: Seq<char>, target: Seq<char> },
    Mounting,
    Finished,
}

pub enum MountActionModel {
    Exchange(MessageModel),
    Settle,
    Rescan,
    Mount { source: Seq<char>, target: Seq<char>, fstype: Seq<char>, options: Seq<char> },
    Done(Result<(), ControlFault>),
}

pub enum MountEventModel {
    Replied(Result<MessageModel, ControlFault>),
    Settled,
    Rescanned(Result<(), Seq<char>>),
    Mounted(Result<(), Seq<char>>),
}

impl View for MountState {
    type V = MountStateModel;

    open spec fn view(&self) -> MountStateModel {
        match self {
            MountState::Preparing { target } => MountStateModel::Preparing { target: target@ },
            MountState::Settling { tag, target } => MountStateModel::Settling { tag: tag@, target: target@ },
            MountState::Rescanning { tag, target } => MountStateModel::Rescanning { tag: tag@, target: target@ },
            MountState::Mounting => MountStateModel::Mounting,
            MountState::Finished => MountStateModel::Finished,
        }
    }
}

/// The view of a step's own result, whose error is a cause.
pub open spec fn cause_view(r: Result<(), String>) -> Result<(), Seq<char>> {
    match r {
        Ok(_) => Ok(()),
        Err(c) => Err(c@),
    }
}

/// The view of a result with no value.
pub open spec fn unit_view(r: Result<(), ControlError>) -> Result<(), ControlFault> {
    match r {
        Ok(_) => Ok(()),
        Err(e) => Err(e@),
    }
}

impl View for MountAction {
    type V = MountActionModel;

    open spec fn view(&self) -> MountActionModel {
        match self {
            MountAction::Exchange(m) => MountActionModel::Exchange(m@),
            MountAction::Settle => MountActionModel::Settle,
            MountAction::Rescan => MountActionModel::Rescan,
            MountAction::Mount(req) => MountActionModel::Mount {
                source: req.source@,
                target: req.target@,
                fstype: req.fstype@,
                options: req.options@,
            },
            MountAction::Done(r) => MountActionModel::Done(unit_view(*r)),
        }
    }
}

impl View for MountEvent {
    type V = MountEventModel;

    open spec fn view(&self) -> MountEventModel {
        match self {
            MountEvent::Replied(r) => MountEventModel::Replied(result_view(*r)),
            MountEvent::Settled => MountEventModel::Settled,
            MountEvent::Rescanned(r) => MountEventModel::Rescanned(cause_view(*r)),
            MountEvent::Mounted(r) => MountEventModel::Mounted(cause_view(*r)),
        }
    }
}

/// The request that prepares a source.
pub open spec fn prepare_request(source: MountSource) -> MessageModel {
    match source {
        MountSource::Path(p) => MessageModel { command: "prepare_mount"@, key: Some("path"@), value: Some(p@) },
        MountSource::Bookmark(b) => MessageModel {
            command: "prepare_mount"@,
            key: Some("bookmark"@),
            value: Some(b@),
        },
    }
}

/// The first step of a mount: outside the guest it stops at once, refused,
/// before any request; in the guest it sends the prepare request.
pub open spec fn start(role: Role, source: MountSource, target: Seq<char>) -> (MountStateModel, MountActionModel) {
    if role == Role::Guest {
        (MountStateModel::Preparing { target }, MountActionModel::Exchange(prepare_request(source)))
    } else {
        (MountStateModel::Finished, MountActionModel::Done(Err(ControlFault::NotPermitted)))
    }
}

/// The step after an event. The prepare answer's value is the tag; a failed,
/// cancelled or valueless answer ends the mount with that error. The rescan
/// comes only after the wait, and the mount call only after a rescan that
/// succeeded. A rescan or mount that fails ends it with its cause; an event
/// that does not fit the state ends it as a mount failure.
pub open spec fn step(s: MountStateModel, e: MountEventModel) -> (MountStateModel, MountActionModel) {
    match (s, e) {
        (MountStateModel::Preparing { target }, MountEventModel::Replied(reply)) => match reply_value(reply) {
            Ok(tag) => (MountStateModel::Settling { tag, target }, MountActionModel::Settle),
            Err(f) => (MountStateModel::Finished, MountActionModel::Done(Err(f))),
        },
        (MountStateModel::Settling { tag, target }, MountEventModel::Settled) => (
            MountStateModel::Rescanning { tag, target },
            MountActionModel::Rescan,
        ),
        (MountStateModel::Rescanning { tag, target }, MountEventModel::Rescanned(Ok(_))) => (
            MountStateModel::Mounting,
            MountActionModel::Mount { source: tag, target, fstype: "9p"@, options: MOUNT_OPTIONS@ },
        ),
        (MountStateModel::Rescanning { .. }, MountEventModel::Rescanned(Err(cause))) => (
            MountStateModel::Finished,
            MountActionModel::Done(Err(ControlFault::Mount(cause))),
        ),
        (MountStateModel::Mounting, MountEventModel::Mounted(Ok(_))) => (
            MountStateModel::Finished,
            MountActionModel::Done(Ok(())),
        ),
        (MountStateModel::Mounting, MountEventModel::Mounted(Err(cause))) => (
            MountStateModel::Finished,
            MountActionModel::Done(Err(ControlFault::Mount(cause))),
        ),
        _ => (
            MountStateModel::Finished,
            MountActionModel::Done(Err(ControlFault::Mount("mount step out of order"@))),
        ),
    }
}

/// Outside the guest a mount is refused at its first step, and that step
/// exchanges nothing with the host, rescans nothing and mounts nothing.
pub proof fn lemma_refused_outside_guest(source: MountSource, target: Seq<char>)
    ensures
        start(Role::Host, source, target) == (
            MountStateModel::Finished,
            MountActionModel::Done(Err(ControlFault::NotPermitted)),
        ),
{
}

/// A mount call is asked for only right after a rescan that succeeded, with
/// the host's tag as its source; after a failed rescan the mount ends with
/// the rescan's cause, and no mount call is asked for.
pub proof fn lemma_mount_only_after_rescan(s: MountStateModel, e: MountEventModel)
    ensures
        step(s, e).1 is Mount ==> (s is Rescanning && e is Rescanned && e->Rescanned_0 is Ok
            && step(s, e).1->source == s->Rescanning_tag),
        (s is Rescanning && e is Rescanned && e->Rescanned_0 is Err) ==> step(s, e) == (
            MountStateModel::Finished,
            MountActionModel::Done(Err(ControlFault::Mount(e->Rescanned_0->Err_0))),
        ),
{
}

/// Starts mounting `source` at `guest_path`.
pub fn mount_from_host(role: Role, source: MountSource, guest_path: String) -> (r: (MountState, MountAction))
    ensures
        (r.0@, r.1@) == start(role, source, guest_path@),
{
    if !role.may_mount() {
        return (MountState::Finished, MountAction::Done(Err(ControlError::NotPermitted)));
    }
    let request = match source {
        MountSource::Path(p) => prepare_mount_from_path(p),
        MountSource::Bookmark(b) => prepare_mount_from_bookmark(b),
    };
    (MountState::Preparing { target: guest_path }, MountAction::Exchange(request))
}

/// The next state and action, after the caller reports an event.
pub fn advance(state: MountState, event: MountEvent) -> (r: (MountState, MountAction))
    ensures
        (r.0@, r.1@) == step(state@, event@),
{
    match (state, event) {
        (MountState::Preparing { target }, MountEvent::Replied(reply)) => match value_of_reply(reply) {
            Ok(tag) => (MountState::Settling { tag, target }, MountAction::Settle),
            Err(e) => (MountState::Finished, MountAction::Done(Err(e))),
        },
        (MountState::Settling { tag, target }, MountEvent::Settled) => (
            MountState::Rescanning { tag, target },
            MountAction::Rescan,
        ),
        (MountState::Rescanning { tag, target }, MountEvent::Rescanned(Ok(_))) => {
            let request = MountRequest {
                source: tag,
                target,
                fstype: String::from_str(MOUNT_FSTYPE),
                options: String::from_str(MOUNT_OPTIONS),
            };
            (MountState::Mounting, MountAction::Mount(request))
        },
        (MountState::Rescanning { .. }, MountEvent::Rescanned(Err(cause))) => (
            MountState::Finished,
            MountAction::Done(Err(ControlError::Mount(cause))),
        ),
        (MountState::Mounting, MountEvent::Mounted(Ok(_))) => (
            MountState::Finished,
            MountAction::Done(Ok(())),
        ),
        (MountState::Mounting, MountEvent::Mounted(Err(cause))) => (
            MountState::Finished,
            MountAction::Done(Err(ControlError::Mount(cause))),
        ),
        _ => (
            MountState::Finished,
            MountAction::Done(Err(ControlError::Mount(String::from_str("mount step out of order")))),
        ),
    }
}

} // verus!
