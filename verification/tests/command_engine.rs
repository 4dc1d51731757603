//! The command/response engine: framing, parsing, the error taxonomy, the
//! no-op special case, and the register-write status assertion.

use hackeeg::client::HackEEGClient;
use hackeeg::commands::{NoOp, Status};
use hackeeg::err::{ClientError, TransportError};
use hackeeg::modes::Mode;
use hackeeg::transport::MemTransport;

fn client_in(mode: Mode, replies: Vec<&str>) -> HackEEGClient<MemTransport> {
    let owned: Vec<String> = replies.into_iter().map(|s| s.to_string()).collect();
    HackEEGClient::with_mode(MemTransport::new(owned), mode)
}

fn sent(client: &HackEEGClient<MemTransport>) -> Vec<String> {
    client.transport().sent_lines().clone()
}

#[test]
fn text_command_framing() {
    let mut c = client_in(Mode::Text, vec![]);
    let n = c.send_text_cmd("jsonlines").unwrap();
    assert_eq!(sent(&c), vec!["jsonlines\n".to_string()]);
    assert_eq!(n, 10);
}

#[test]
fn json_command_framing() {
    let mut c = client_in(Mode::JsonLines, vec![]);
    let n = c.send_json_cmd("boardledon").unwrap();
    assert_eq!(
        sent(&c),
        vec!["{\"COMMAND\":\"boardledon\",\"PARAMETERS\":[]}\r\n".to_string()]
    );
    assert_eq!(n, 42);
}

#[test]
fn jsonlines_keyword_helper() {
    let mut c = client_in(Mode::JsonLines, vec![]);
    c.jsonlines().unwrap();
    assert_eq!(sent(&c), vec!["jsonlines\n".to_string()]);
}

#[test]
fn board_led_commands() {
    let mut c = client_in(Mode::JsonLines, vec![]);
    c.board_led_on().unwrap();
    c.board_led_off().unwrap();
    assert_eq!(
        sent(&c),
        vec![
            "{\"COMMAND\":\"boardledon\",\"PARAMETERS\":[]}\r\n".to_string(),
            "{\"COMMAND\":\"boardledoff\",\"PARAMETERS\":[]}\r\n".to_string(),
        ]
    );
}

#[test]
fn read_response_serves_one_line() {
    let mut c = client_in(Mode::JsonLines, vec!["first", "second"]);
    assert_eq!(c.read_response().unwrap(), "first");
    assert_eq!(c.read_response().unwrap(), "second");
    assert_eq!(c.read_response(), Err(TransportError::Timeout));
}

#[test]
fn execute_parses_status() {
    let mut c = client_in(
        Mode::JsonLines,
        vec!["{\"status_code\":0,\"status_text\":\"Ok\"}"],
    );
    let s: Status = c.execute_json_cmd("boardledon").unwrap();
    assert_eq!(s.status_code, 0);
    assert_eq!(s.status_text, "Ok");
}

#[test]
fn execute_tolerates_field_order_and_extras() {
    let mut c = client_in(
        Mode::JsonLines,
        vec!["{\"extra\":[1,2],\"status_text\":\"Ok\",\"status_code\":200}"],
    );
    let s: Status = c.execute_json_cmd("stop").unwrap();
    assert_eq!(s.status_code, 200);
    assert_eq!(s.status_text, "Ok");
}

#[test]
fn malformed_response_is_a_deserialize_error() {
    // A non-no-op command with a malformed reply: the error surfaces and the
    // recorded mode is untouched.
    let mut c = client_in(Mode::JsonLines, vec!["not json at all"]);
    let r: Result<Status, ClientError> = c.execute_json_cmd("stop");
    assert_eq!(r, Err(ClientError::Deserialize));
    assert_eq!(c.current_mode(), Mode::JsonLines);
}

#[test]
fn missing_field_is_a_deserialize_error() {
    let mut c = client_in(Mode::JsonLines, vec!["{\"status_code\":0}"]);
    let r: Result<Status, ClientError> = c.execute_json_cmd("stop");
    assert_eq!(r, Err(ClientError::Deserialize));
}

#[test]
fn wrong_field_type_is_a_deserialize_error() {
    let mut c = client_in(
        Mode::JsonLines,
        vec!["{\"status_code\":\"zero\",\"status_text\":\"Ok\"}"],
    );
    let r: Result<Status, ClientError> = c.execute_json_cmd("stop");
    assert_eq!(r, Err(ClientError::Deserialize));
}

#[test]
fn missing_response_is_a_transport_error() {
    let mut c = client_in(Mode::JsonLines, vec![]);
    let r: Result<Status, ClientError> = c.execute_json_cmd("stop");
    assert_eq!(r, Err(ClientError::Transport(TransportError::Timeout)));
}

#[test]
fn noop_true_on_well_shaped_reply() {
    let mut c = client_in(
        Mode::JsonLines,
        vec!["{\"status_code\":0,\"status_text\":\"Ok\"}"],
    );
    assert_eq!(c.noop(), Ok(true));
    assert_eq!(
        sent(&c),
        vec!["{\"COMMAND\":\"nop\",\"PARAMETERS\":[]}\r\n".to_string()]
    );
}

#[test]
fn noop_false_on_parse_failure() {
    // The no-op downgrades a deserialization failure to Ok(false).
    let mut c = client_in(Mode::JsonLines, vec!["@@@"]);
    assert_eq!(c.noop(), Ok(false));
}

#[test]
fn noop_still_surfaces_transport_failure() {
    let mut c = client_in(Mode::JsonLines, vec![]);
    assert_eq!(
        c.noop(),
        Err(ClientError::Transport(TransportError::Timeout))
    );
}

#[test]
fn noop_response_type_parses() {
    let mut c = client_in(
        Mode::JsonLines,
        vec!["{\"status_code\":3,\"status_text\":\"Hm\"}"],
    );
    let n: NoOp = c.execute_json_cmd("nop").unwrap();
    assert_eq!(n.status_code, 3);
    assert_eq!(n.status_text, "Hm");
}

#[test]
fn write_register_frames_address_and_value() {
    // Register write with address 0x01 and value 0x00 succeeds and its status
    // asserts without error.
    let mut c = client_in(
        Mode::JsonLines,
        vec!["{\"status_code\":0,\"status_text\":\"Ok\"}"],
    );
    let s: Status = c.write_register(0x01, 0x00).unwrap();
    assert_eq!(
        sent(&c),
        vec!["{\"COMMAND\":\"wreg\",\"PARAMETERS\":[1,0]}\r\n".to_string()]
    );
    assert_eq!(s, Status { status_code: 0, status_text: "Ok".to_string() });
    assert_eq!(s.clone().assert_ok(), Ok(s));
}

#[test]
fn write_register_failure_status_asserts_to_error() {
    // The failure status is returned unchanged; only the explicit assertion
    // turns it into an error.
    let mut c = client_in(
        Mode::JsonLines,
        vec!["{\"status_code\":1,\"status_text\":\"Error\"}"],
    );
    let s: Status = c.write_register(0x05, 0xFF).unwrap();
    assert_eq!(s.status_code, 1);
    assert_eq!(s.status_text, "Error");
    assert_eq!(
        s.clone().assert_ok(),
        Err(ClientError::CommandStatus(s))
    );
}

#[test]
fn assert_ok_passes_success_through() {
    let s = Status { status_code: 0, status_text: "Ok".to_string() };
    assert_eq!(s.clone().assert_ok(), Ok(s));
    let f = Status { status_code: -2, status_text: "Bad".to_string() };
    assert!(matches!(
        f.assert_ok(),
        Err(ClientError::CommandStatus(_))
    ));
}
