use tctictl::commands::{
    choose_folder_request, font_request, get_font_property, getcwd_request, handle_getcwd,
    open_folder_request, select_folder_as_bookmark, select_folder_as_path, set_font_property,
};
use tctictl::error::ControlError;
use tctictl::exchange::{accept_reply, check_sent, run_command, Role};
use tctictl::message::ControlMessage;
use tctictl::response::{interpret, require_done, require_value, Outcome};

fn msg(command: &str, key: Option<&str>, value: Option<&str>) -> ControlMessage {
    ControlMessage::new(
        command.to_string(),
        key.map(|k| k.to_string()),
        value.map(|v| v.to_string()),
    )
}

#[test]
fn round_trip_keeps_absent_and_empty_apart() {
    let cases = vec![
        msg("font", Some("size"), Some("14")),
        msg("getcwd", None, None),
        msg("font", Some(""), None),
        msg("font", None, Some("")),
        msg("open_folder", Some("status"), Some("quote \" back\\slash\nnewline \u{e9}")),
    ];
    for m in cases {
        let line = m.encode();
        assert!(line.ends_with('\n'));
        assert_eq!(line.matches('\n').count(), 1);
        assert_eq!(ControlMessage::decode(&line), Ok(m));
    }
}

#[test]
fn encode_writes_compact_object_in_field_order() {
    let m = msg("font", Some("size"), Some("14"));
    assert_eq!(m.encode(), "{\"command\":\"font\",\"key\":\"size\",\"value\":\"14\"}\n");
    let m = msg("getcwd", None, None);
    assert_eq!(m.encode(), "{\"command\":\"getcwd\",\"key\":null,\"value\":null}\n");
}

#[test]
fn encode_escapes_quotes() {
    let m = msg("a\"b", None, Some("x\ny"));
    assert_eq!(m.encode(), "{\"command\":\"a\\\"b\",\"key\":null,\"value\":\"x\\ny\"}\n");
}

#[test]
fn run_command_encodes_the_request() {
    let line = run_command("getcwd".to_string(), None, None);
    assert_eq!(line, "{\"command\":\"getcwd\",\"key\":null,\"value\":null}\n");
}

#[test]
fn decode_reads_members_in_any_order_and_missing_as_absent() {
    let m = ControlMessage::decode("{ \"value\": \"v\", \"command\": \"c\" }\n").unwrap();
    assert_eq!(m, msg("c", None, Some("v")));
    let m = ControlMessage::decode("{\"command\":\"c\",\"key\":\"\",\"value\":null}").unwrap();
    assert_eq!(m, msg("c", Some(""), None));
}

#[test]
fn decode_rejects_malformed_lines() {
    assert_eq!(ControlMessage::decode("not json"), Err(ControlError::Malformed));
    assert_eq!(ControlMessage::decode("{\"key\":\"k\"}"), Err(ControlError::Malformed));
    assert_eq!(ControlMessage::decode("{\"command\":null}"), Err(ControlError::Malformed));
    assert_eq!(ControlMessage::decode("[\"font\"]"), Err(ControlError::Malformed));
    assert_eq!(ControlMessage::decode(""), Err(ControlError::Malformed));
}

#[test]
fn error_answer_is_host_error_whatever_the_command() {
    for command in ["font", "getcwd", "prepare_mount", "anything"] {
        let line = msg(command, Some("error"), Some("disk full")).encode();
        let reply = accept_reply(line.len(), &line);
        assert_eq!(reply, Err(ControlError::Host("disk full".to_string())));
    }
}

#[test]
fn error_answer_without_text_is_protocol_violation() {
    let line = msg("font", Some("error"), None).encode();
    assert_eq!(accept_reply(line.len(), &line), Err(ControlError::ProtocolViolation));
}

#[test]
fn status_without_value_is_cancelled_without_reason() {
    let answer = msg("choose_folder", Some("status"), None);
    assert_eq!(interpret(&answer), Ok(Outcome::Cancelled(None)));
    let reply = accept_reply(10, &answer.encode());
    assert_eq!(select_folder_as_path(reply), Err(ControlError::Cancelled(None)));
}

#[test]
fn closed_connection_is_transport_error() {
    assert_eq!(
        accept_reply(0, ""),
        Err(ControlError::Transport("connection closed without response".to_string()))
    );
}

#[test]
fn answer_cut_off_before_its_line_end_is_transport_error() {
    let partial = "{\"command\":\"x\"}";
    assert_eq!(
        accept_reply(partial.len(), partial),
        Err(ControlError::Transport("connection closed without response".to_string()))
    );
    let whole = "{\"command\":\"x\"}\n";
    assert_eq!(accept_reply(whole.len(), whole), Ok(msg("x", None, None)));
}

#[test]
fn encoded_request_is_one_line() {
    let line = msg("font", Some("a\nb"), Some("c\r\nd")).encode();
    assert_eq!(line.find('\n'), Some(line.len() - 1));
}

#[test]
fn decode_ignores_extra_members_of_any_kind() {
    let line = "{\"command\":\"c\",\"id\":5,\"ok\":true,\"list\":[1],\"obj\":{\"a\":null},\"value\":\"v\"}\n";
    assert_eq!(ControlMessage::decode(line), Ok(msg("c", None, Some("v"))));
}

#[test]
fn decode_rejects_parts_of_the_wrong_kind() {
    assert_eq!(ControlMessage::decode("{\"command\":\"c\",\"key\":5}"), Err(ControlError::Malformed));
    assert_eq!(ControlMessage::decode("{\"command\":\"c\",\"value\":[]}"), Err(ControlError::Malformed));
    assert_eq!(ControlMessage::decode("{\"command\":7}"), Err(ControlError::Malformed));
}

#[test]
fn zero_byte_write_is_transport_error() {
    assert_eq!(
        check_sent(0),
        Err(ControlError::Transport("connection closed without response".to_string()))
    );
    assert_eq!(check_sent(5), Ok(()));
}

#[test]
fn malformed_answer_is_reported() {
    assert_eq!(accept_reply(3, "{}\n"), Err(ControlError::Malformed));
}

#[test]
fn set_font_size_succeeds_without_data() {
    let request = font_request("size".to_string(), Some("14".to_string()));
    assert_eq!(request, msg("font", Some("size"), Some("14")));
    let line = "{\"command\":\"font\",\"key\":null,\"value\":null}\n";
    assert_eq!(set_font_property(accept_reply(line.len(), line)), Ok(()));
}

#[test]
fn get_font_property_returns_value() {
    let request = font_request("name".to_string(), None);
    assert_eq!(request, msg("font", Some("name"), None));
    let line = msg("font", None, Some("Menlo")).encode();
    assert_eq!(get_font_property(accept_reply(line.len(), &line)), Ok("Menlo".to_string()));
}

#[test]
fn getcwd_returns_host_path() {
    assert_eq!(getcwd_request(), msg("getcwd", None, None));
    let line = "{\"command\":\"getcwd\",\"key\":null,\"value\":\"/home/user\"}\n";
    assert_eq!(handle_getcwd(accept_reply(line.len(), line)), Ok("/home/user".to_string()));
}

#[test]
fn getcwd_without_value_is_protocol_violation() {
    let line = msg("getcwd", None, None).encode();
    assert_eq!(handle_getcwd(accept_reply(line.len(), &line)), Err(ControlError::ProtocolViolation));
}

#[test]
fn choose_folder_cancelled_by_user() {
    assert_eq!(choose_folder_request(), msg("choose_folder", None, None));
    let line = "{\"command\":\"choose_folder\",\"key\":\"status\",\"value\":\"user cancelled\"}\n";
    assert_eq!(
        select_folder_as_path(accept_reply(line.len(), line)),
        Err(ControlError::Cancelled(Some("user cancelled".to_string())))
    );
}

#[test]
fn open_folder_returns_bookmark() {
    assert_eq!(open_folder_request(), msg("open_folder", None, None));
    let line = msg("open_folder", None, Some("Ym9va21hcms=")).encode();
    assert_eq!(select_folder_as_bookmark(accept_reply(line.len(), &line)), Ok("Ym9va21hcms=".to_string()));
}

#[test]
fn transport_failure_passes_through_commands() {
    let failure = Err(ControlError::Transport("refused".to_string()));
    assert_eq!(handle_getcwd(failure), Err(ControlError::Transport("refused".to_string())));
}

#[test]
fn outcomes_require_what_commands_need() {
    assert_eq!(require_value(Outcome::Data(Some("x".to_string()))), Ok("x".to_string()));
    assert_eq!(require_value(Outcome::Data(None)), Err(ControlError::ProtocolViolation));
    assert_eq!(require_done(Outcome::Data(None)), Ok(()));
    assert_eq!(
        require_done(Outcome::Cancelled(Some("no".to_string()))),
        Err(ControlError::Cancelled(Some("no".to_string())))
    );
}

#[test]
fn roles_pick_endpoint_and_mount_permission() {
    assert_eq!(Role::Host.endpoint(), "localhost:10050");
    assert_eq!(Role::Guest.endpoint(), "192.168.100.2:10050");
    assert!(Role::Guest.may_mount());
    assert!(!Role::Host.may_mount());
}
