use cxl_fm::options::CxlFmOptions;
use cxl_fm::requester::RequestError;
use cxl_fm::requester::Requester;
use cxl_fm::requester::RequesterAction;
use cxl_fm::requester::RequesterEvent;
use cxl_fm::requester::RequesterState;
use cxl_fm::responder::handle_connection;
use cxl_fm::response::Response;
use cxl_fm::roles::responder_catalog;
use cxl_fm::vocabulary::Role;

fn options() -> CxlFmOptions {
    CxlFmOptions::new("127.0.0.1", "9000", false)
}

fn received(text: &str) -> RequesterEvent {
    RequesterEvent::Received(String::from(text))
}

#[test]
fn fresh_request_is_connecting() {
    let request = Requester::new(&options(), "GET_FM_INFO");
    assert_eq!(request.state(), RequesterState::Connecting);
    assert_eq!(request.endpoint(), "127.0.0.1:9000");
    assert_eq!(request.command(), "GET_FM_INFO");
    assert_eq!(request.request_line(), "GET_FM_INFO\n");
    assert_eq!(request.outcome(), None);
}

#[test]
fn request_brings_back_the_response_line() {
    let mut request = Requester::new(&options(), "GET_FM_INFO");
    assert_eq!(request.step(RequesterEvent::Connected), RequesterAction::Send);
    assert_eq!(request.state(), RequesterState::Sending);
    assert_eq!(request.outcome(), None);
    assert_eq!(request.step(RequesterEvent::Written), RequesterAction::Receive);
    assert_eq!(request.state(), RequesterState::AwaitingResponse);
    assert_eq!(request.outcome(), None);
    assert_eq!(request.step(received("NO_DATA\n")), RequesterAction::Close);
    assert_eq!(request.state(), RequesterState::Closed);
    assert_eq!(request.outcome(), Some(Ok(String::from("NO_DATA"))));
}

#[test]
fn refused_connection_is_reported() {
    let mut request = Requester::new(&options(), "GET_FM_INFO");
    assert_eq!(request.step(RequesterEvent::ConnectFailed), RequesterAction::Close);
    assert_eq!(request.state(), RequesterState::Closed);
    assert_eq!(request.outcome(), Some(Err(RequestError::ConnectFailed)));
}

#[test]
fn failed_write_is_reported() {
    let mut request = Requester::new(&options(), "GET_FM_INFO");
    request.step(RequesterEvent::Connected);
    assert_eq!(request.step(RequesterEvent::WriteFailed), RequesterAction::Close);
    assert_eq!(request.state(), RequesterState::Closed);
    assert_eq!(request.outcome(), Some(Err(RequestError::WriteFailed)));
}

#[test]
fn failed_read_is_reported() {
    let mut request = Requester::new(&options(), "GET_FM_INFO");
    request.step(RequesterEvent::Connected);
    request.step(RequesterEvent::Written);
    assert_eq!(request.step(RequesterEvent::ReadFailed), RequesterAction::Close);
    assert_eq!(request.outcome(), Some(Err(RequestError::ReadFailed)));
}

#[test]
fn peer_that_closes_without_a_line_is_an_error() {
    let mut request = Requester::new(&options(), "GET_FM_INFO");
    request.step(RequesterEvent::Connected);
    request.step(RequesterEvent::Written);
    assert_eq!(request.step(received("")), RequesterAction::Close);
    assert_eq!(request.state(), RequesterState::Closed);
    assert_eq!(request.outcome(), Some(Err(RequestError::NoResponse)));
}

#[test]
fn empty_response_line_is_a_response() {
    let mut request = Requester::new(&options(), "GET_FM_INFO");
    request.step(RequesterEvent::Connected);
    request.step(RequesterEvent::Written);
    request.step(received("\n"));
    assert_eq!(request.outcome(), Some(Ok(String::new())));
}

#[test]
fn response_line_is_read_as_a_line_reader_reads_it() {
    for (text, line) in [
        ("NO_DATA\r\n", "NO_DATA"),
        ("NO_DATA", "NO_DATA"),
        ("NO_DATA\nUNKNOWN_COMMAND\n", "NO_DATA"),
        ("anything at all\n", "anything at all"),
    ] {
        let mut request = Requester::new(&options(), "GET_FM_INFO");
        request.step(RequesterEvent::Connected);
        request.step(RequesterEvent::Written);
        request.step(received(text));
        assert_eq!(request.outcome(), Some(Ok(String::from(line))));
    }
}

#[test]
fn event_out_of_turn_fails_the_step_under_way() {
    let mut request = Requester::new(&options(), "GET_FM_INFO");
    assert_eq!(request.step(RequesterEvent::Written), RequesterAction::Close);
    assert_eq!(request.outcome(), Some(Err(RequestError::ConnectFailed)));

    let mut request = Requester::new(&options(), "GET_FM_INFO");
    assert_eq!(request.step(received("NO_DATA\n")), RequesterAction::Close);
    assert_eq!(request.outcome(), Some(Err(RequestError::ConnectFailed)));

    let mut request = Requester::new(&options(), "GET_FM_INFO");
    request.step(RequesterEvent::Connected);
    assert_eq!(request.step(RequesterEvent::Connected), RequesterAction::Close);
    assert_eq!(request.outcome(), Some(Err(RequestError::WriteFailed)));

    let mut request = Requester::new(&options(), "GET_FM_INFO");
    request.step(RequesterEvent::Connected);
    request.step(RequesterEvent::Written);
    assert_eq!(request.step(RequesterEvent::Written), RequesterAction::Close);
    assert_eq!(request.outcome(), Some(Err(RequestError::ReadFailed)));
}

#[test]
fn closed_request_keeps_its_outcome() {
    let mut request = Requester::new(&options(), "GET_FM_INFO");
    request.step(RequesterEvent::Connected);
    request.step(RequesterEvent::Written);
    request.step(received("NO_DATA\n"));
    for event in [
        RequesterEvent::Connected,
        RequesterEvent::ConnectFailed,
        RequesterEvent::WriteFailed,
        RequesterEvent::ReadFailed,
        RequesterEvent::Received(String::from("UNKNOWN_COMMAND\n")),
    ] {
        assert_eq!(request.step(event), RequesterAction::Close);
        assert_eq!(request.state(), RequesterState::Closed);
        assert_eq!(request.outcome(), Some(Ok(String::from("NO_DATA"))));
    }

    let mut request = Requester::new(&options(), "GET_FM_INFO");
    request.step(RequesterEvent::ConnectFailed);
    assert_eq!(request.step(RequesterEvent::Connected), RequesterAction::Close);
    assert_eq!(request.outcome(), Some(Err(RequestError::ConnectFailed)));
}

#[test]
fn command_outside_the_vocabulary_can_be_sent() {
    let request = Requester::new(&options(), "BOGUS_COMMAND");
    assert_eq!(request.request_line(), "BOGUS_COMMAND\n");
}

fn exchange(command: &str) -> Option<Result<String, RequestError>> {
    let catalog = responder_catalog(Role::FabricManager);
    let mut request = Requester::new(&options(), command);
    assert_eq!(request.step(RequesterEvent::Connected), RequesterAction::Send);
    let written = request.request_line();
    assert_eq!(request.step(RequesterEvent::Written), RequesterAction::Receive);
    let answer = handle_connection(&catalog, &written).unwrap_or_default();
    assert_eq!(request.step(RequesterEvent::Received(answer)), RequesterAction::Close);
    request.outcome()
}

#[test]
fn client_and_daemon_exchange_get_fm_info() {
    assert_eq!(exchange("GET_FM_INFO"), Some(Ok(String::from("NO_DATA"))));
}

#[test]
fn client_and_daemon_exchange_bogus_command() {
    assert_eq!(exchange("BOGUS_COMMAND"), Some(Ok(String::from("UNKNOWN_COMMAND"))));
}

#[test]
fn client_and_daemon_exchange_an_empty_command() {
    assert_eq!(exchange(""), Some(Ok(String::from("UNKNOWN_COMMAND"))));
}

#[test]
fn written_response_is_read_back() {
    for response in [Response::NoData, Response::UnknownCommand] {
        let mut request = Requester::new(&options(), "GET_FM_INFO");
        request.step(RequesterEvent::Connected);
        request.step(RequesterEvent::Written);
        request.step(RequesterEvent::Received(response.line()));
        let line = request.outcome().expect("closed").expect("a response line");
        assert_eq!(line, response.text());
        assert_eq!(Response::parse(&line), Some(response));
    }
}

#[test]
fn unregistered_text_that_arrives_as_a_registered_line_is_served() {
    assert_eq!(exchange("GET_FM_INFO\r"), Some(Ok(String::from("NO_DATA"))));
    assert_eq!(exchange("GET_FM_INFO\nBOGUS_COMMAND"), Some(Ok(String::from("NO_DATA"))));
    assert_eq!(exchange("BOGUS\rCOMMAND"), Some(Ok(String::from("UNKNOWN_COMMAND"))));
}
