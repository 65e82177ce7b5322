use tctictl::error::ControlError;
use tctictl::exchange::{accept_reply, Role};
use tctictl::message::ControlMessage;
use tctictl::mount::{
    advance, mount_from_host, prepare_mount_from_bookmark, prepare_mount_from_path, MountAction,
    MountEvent, MountRequest, MountSource, MountState, MOUNT_OPTIONS,
};

fn tag_reply(tag: &str) -> Result<ControlMessage, ControlError> {
    let line = ControlMessage::new("prepare_mount".to_string(), None, Some(tag.to_string())).encode();
    accept_reply(line.len(), &line)
}

#[test]
fn mount_refused_outside_guest() {
    let (state, action) = mount_from_host(
        Role::Host,
        MountSource::Path("/Users/me/Shared".to_string()),
        "/mnt/shared".to_string(),
    );
    assert_eq!(state, MountState::Finished);
    assert_eq!(action, MountAction::Done(Err(ControlError::NotPermitted)));
}

#[test]
fn prepare_requests_name_the_argument_kind() {
    let p = prepare_mount_from_path("/Users/me/Shared".to_string());
    assert_eq!(p.command, "prepare_mount");
    assert_eq!(p.key.as_deref(), Some("path"));
    assert_eq!(p.value.as_deref(), Some("/Users/me/Shared"));
    let b = prepare_mount_from_bookmark("Ym9v".to_string());
    assert_eq!(b.key.as_deref(), Some("bookmark"));
    assert_eq!(b.value.as_deref(), Some("Ym9v"));
}

#[test]
fn mount_from_path_runs_every_step_in_order() {
    let (state, action) = mount_from_host(
        Role::Guest,
        MountSource::Path("/Users/me/Shared".to_string()),
        "/mnt/shared".to_string(),
    );
    assert_eq!(action, MountAction::Exchange(prepare_mount_from_path("/Users/me/Shared".to_string())));
    let (state, action) = advance(state, MountEvent::Replied(tag_reply("mnt_tag_7")));
    assert_eq!(action, MountAction::Settle);
    let (state, action) = advance(state, MountEvent::Settled);
    assert_eq!(action, MountAction::Rescan);
    let (state, action) = advance(state, MountEvent::Rescanned(Ok(())));
    assert_eq!(
        action,
        MountAction::Mount(MountRequest {
            source: "mnt_tag_7".to_string(),
            target: "/mnt/shared".to_string(),
            fstype: "9p".to_string(),
            options: MOUNT_OPTIONS.to_string(),
        })
    );
    let (state, action) = advance(state, MountEvent::Mounted(Ok(())));
    assert_eq!(state, MountState::Finished);
    assert_eq!(action, MountAction::Done(Ok(())));
}

#[test]
fn failed_rescan_never_mounts() {
    let state = MountState::Settling { tag: "mnt_tag_7".to_string(), target: "/mnt".to_string() };
    let (state, action) = advance(state, MountEvent::Settled);
    assert_eq!(action, MountAction::Rescan);
    let (state, action) = advance(state, MountEvent::Rescanned(Err("permission denied".to_string())));
    assert_eq!(state, MountState::Finished);
    assert_eq!(action, MountAction::Done(Err(ControlError::Mount("permission denied".to_string()))));
    let (_, action) = advance(state, MountEvent::Rescanned(Ok(())));
    assert!(!matches!(action, MountAction::Mount(_)));
}

#[test]
fn cancelled_prepare_ends_mount() {
    let state = MountState::Preparing { target: "/mnt".to_string() };
    let line = "{\"command\":\"prepare_mount\",\"key\":\"status\",\"value\":\"user cancelled\"}\n";
    let (state, action) = advance(state, MountEvent::Replied(accept_reply(line.len(), line)));
    assert_eq!(state, MountState::Finished);
    assert_eq!(
        action,
        MountAction::Done(Err(ControlError::Cancelled(Some("user cancelled".to_string()))))
    );
}

#[test]
fn host_error_on_prepare_ends_mount() {
    let state = MountState::Preparing { target: "/mnt".to_string() };
    let line = "{\"command\":\"prepare_mount\",\"key\":\"error\",\"value\":\"disk full\"}\n";
    let (_, action) = advance(state, MountEvent::Replied(accept_reply(line.len(), line)));
    assert_eq!(action, MountAction::Done(Err(ControlError::Host("disk full".to_string()))));
}

#[test]
fn prepare_answer_without_tag_is_protocol_violation() {
    let state = MountState::Preparing { target: "/mnt".to_string() };
    let (_, action) = advance(state, MountEvent::Replied(tag_reply_none()));
    assert_eq!(action, MountAction::Done(Err(ControlError::ProtocolViolation)));
}

fn tag_reply_none() -> Result<ControlMessage, ControlError> {
    let line = ControlMessage::new("prepare_mount".to_string(), None, None).encode();
    accept_reply(line.len(), &line)
}

#[test]
fn failed_mount_call_keeps_cause() {
    let (_, action) = advance(MountState::Mounting, MountEvent::Mounted(Err("busy".to_string())));
    assert_eq!(action, MountAction::Done(Err(ControlError::Mount("busy".to_string()))));
}

#[test]
fn event_out_of_order_ends_mount() {
    let state = MountState::Preparing { target: "/mnt".to_string() };
    let (state, action) = advance(state, MountEvent::Settled);
    assert_eq!(state, MountState::Finished);
    assert!(matches!(action, MountAction::Done(Err(ControlError::Mount(_)))));
}
