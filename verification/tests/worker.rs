use rustrdp::clipboard::{ClipboardEvent, ClipboardFormatId};
use rustrdp::config::{CommandOutcome, Config, Server};
use rustrdp::connection::StaticChannel;
use rustrdp::input::{key_pressed, mouse_move};
use rustrdp::session::{DisconnectReason, SessionRequest, ToUi, ToWorker};
use rustrdp::worker::{
    Action, Event, ReadErrorKind, SequenceState, StageOutput, Worker, POLL_TIMEOUT, RESIZE_DEBOUNCE,
};

fn request(password: &str, clipboard: bool) -> SessionRequest {
    SessionRequest {
        server: Server {
            name: "dev".into(),
            host: "10.0.0.10".into(),
            port: 3390,
            credential_id: None,
            username: "ignored".into(),
            password: "ignored".into(),
            domain: "ignored".into(),
        },
        username: "me".into(),
        password: password.into(),
        domain: "CORP".into(),
        clipboard_passthrough: clipboard,
        width: 1280,
        height: 800,
    }
}

/// Takes a step that the worker expects.
fn step(worker: &mut Worker, event: Event) -> Action {
    assert!(worker.expects(&event), "{event:?}");
    worker.step(event)
}

/// A worker that has just asked for a message of the window, on a desktop of 1280 by 800.
fn running(clipboard: bool) -> Worker {
    let (mut worker, action) = Worker::start(request("pw", clipboard));
    assert!(matches!(action, Action::Connect { .. }));
    let action = step(&mut worker, Event::Connected { width: 1280, height: 800 });
    assert!(matches!(action, Action::SetReadTimeout(Some(POLL_TIMEOUT))));
    let action = step(&mut worker, Event::Done);
    assert!(matches!(action, Action::NewImage { width: 1280, height: 800 }));
    let action = step(&mut worker, Event::Done);
    assert!(matches!(action, Action::Notify(ToUi::Connected { width: 1280, height: 800 })));
    let action = step(&mut worker, Event::Done);
    assert!(matches!(action, Action::SendFrame));
    let action = step(&mut worker, Event::Done);
    assert!(matches!(action, Action::PollUi));
    worker
}

fn message(message: ToWorker, now: u64) -> Event {
    Event::Message { message, now }
}

fn resize(width: u16, height: u16, now: u64) -> Event {
    message(ToWorker::Resize { width, height }, now)
}

/// A running worker that has just been given what the protocol made of a message.
fn after_outputs(outputs: Vec<StageOutput>) -> (Worker, Action) {
    let mut worker = running(false);
    assert!(matches!(step(&mut worker, Event::Nothing), Action::ReadPdu));
    let pdu = Event::Pdu { fast_path: true, payload: vec![1, 2] };
    match step(&mut worker, pdu) {
        Action::ProcessPdu { fast_path, payload } => {
            assert!(fast_path);
            assert_eq!(payload, vec![1, 2]);
        }
        other => panic!("{other:?}"),
    }
    let action = step(&mut worker, Event::Outputs(outputs));
    (worker, action)
}

fn assert_fails(mut worker: Worker, action: Action, expected: &str) {
    match action {
        Action::Notify(ToUi::Error(text)) => assert_eq!(text, expected),
        other => panic!("{other:?}"),
    }
    assert!(matches!(step(&mut worker, Event::Done), Action::Stop));
    assert!(!worker.expects(&Event::Done));
}

#[test]
fn requests_take_the_login_from_the_config() {
    let mut config = Config::default();
    config.clipboard_passthrough = true;
    let mut server = Server::default();
    server.username = "me".into();
    server.password = "cmd:x".into();
    server.domain = "D".into();
    let request = SessionRequest::new(&config, &server, (640, 480));
    assert_eq!((request.username.as_str(), request.password.as_str()), ("me", "cmd:x"));
    assert_eq!(request.domain, "D");
    assert!(request.clipboard_passthrough);
    assert_eq!((request.width, request.height), (640, 480));
}

#[test]
fn disconnect_reasons_in_words() {
    assert_eq!(DisconnectReason::UserInitiated.description(), "user initiated disconnect");
    assert_eq!(DisconnectReason::ServerInitiated.description(), "server initiated disconnect");
    assert_eq!(DisconnectReason::Other("idle".into()).description(), "idle");
}

#[test]
fn connection_uses_the_request() {
    let (_, action) = Worker::start(request("pw", true));
    match action {
        Action::Connect { config, host, port, channels } => {
            assert_eq!((config.username.as_str(), config.password.as_str()), ("me", "pw"));
            assert_eq!(config.domain.as_deref(), Some("CORP"));
            assert_eq!((config.width, config.height), (1280, 800));
            assert_eq!((host.as_str(), port), ("10.0.0.10", 3390));
            assert_eq!(channels, vec![StaticChannel::DynamicChannels, StaticChannel::Clipboard]);
        }
        other => panic!("{other:?}"),
    }
}

#[test]
fn password_command_runs_first() {
    let (mut worker, action) = Worker::start(request("cmd:get-password", false));
    assert!(matches!(action, Action::RunCommand(command) if command == "get-password"));
    let output = Event::CommandFinished(CommandOutcome::Succeeded("s3cret\n".into()));
    match step(&mut worker, output) {
        Action::Connect { config, .. } => assert_eq!(config.password, "s3cret"),
        other => panic!("{other:?}"),
    }
}

#[test]
fn failed_password_command_aborts() {
    let (mut worker, _) = Worker::start(request("cmd:false", false));
    let outcome = Event::CommandFinished(CommandOutcome::Failed("exit status: 1".into()));
    let action = step(&mut worker, outcome);
    assert_fails(worker, action, "password command failed: exit status: 1");
}

#[test]
fn failed_connection_is_reported() {
    let (mut worker, _) = Worker::start(request("pw", false));
    let action = step(&mut worker, Event::Failed("TCP connect: refused".into()));
    assert_fails(worker, action, "TCP connect: refused");
}

#[test]
fn failed_timeout_is_named() {
    let (mut worker, _) = Worker::start(request("pw", false));
    step(&mut worker, Event::Connected { width: 200, height: 200 });
    let action = step(&mut worker, Event::Failed("bad socket".into()));
    assert_fails(worker, action, "set_read_timeout: bad socket");
}

#[test]
fn shutdown_stops_at_once() {
    let mut worker = running(false);
    assert!(matches!(step(&mut worker, message(ToWorker::Shutdown, 0)), Action::Stop));
    let mut worker = running(false);
    assert!(matches!(step(&mut worker, Event::Closed), Action::Stop));
    assert!(!worker.expects(&Event::Nothing));
}

#[test]
fn input_goes_to_the_protocol() {
    let mut worker = running(false);
    let input = ToWorker::Input(vec![mouse_move(5, 5), key_pressed(0x1E)]);
    assert!(matches!(step(&mut worker, message(input, 0)), Action::ProcessInput(e) if e.len() == 2));
    let outputs = vec![
        StageOutput::GraphicsUpdate,
        StageOutput::ResponseFrame(vec![7]),
        StageOutput::Other,
        StageOutput::ResponseFrame(vec![8]),
    ];
    assert!(matches!(step(&mut worker, Event::Outputs(outputs)), Action::Write(b) if b == vec![7]));
    assert!(matches!(step(&mut worker, Event::Done), Action::Write(b) if b == vec![8]));
    assert!(matches!(step(&mut worker, Event::Done), Action::PollUi));
    // The pointer is there already, so there is nothing to tell.
    let again = ToWorker::Input(vec![mouse_move(5, 5)]);
    assert!(matches!(step(&mut worker, message(again, 0)), Action::PollUi));
}

#[test]
fn failed_input_is_reported() {
    let mut worker = running(false);
    step(&mut worker, message(ToWorker::Input(vec![key_pressed(1)]), 0));
    let action = step(&mut worker, Event::Failed("encode".into()));
    assert_fails(worker, action, "encode");
}

#[test]
fn resize_waits_for_the_debounce() {
    let mut worker = running(false);
    assert!(matches!(step(&mut worker, resize(1000, 700, 5)), Action::PollUi));
    assert!(matches!(step(&mut worker, resize(1001, 701, 10)), Action::PollUi));
    assert!(matches!(step(&mut worker, Event::Nothing), Action::ReadClock));
    let early = Event::Time(10 + RESIZE_DEBOUNCE - 1);
    assert!(matches!(step(&mut worker, early), Action::ReadPdu));
    let idle = Event::ReadFailed { kind: ReadErrorKind::TimedOut, cause: String::new() };
    assert!(matches!(step(&mut worker, idle), Action::PollUi));
    assert!(matches!(step(&mut worker, Event::Nothing), Action::ReadClock));
    let due = Event::Time(10 + RESIZE_DEBOUNCE);
    assert!(matches!(step(&mut worker, due), Action::EncodeResize(1000, 701)));
    let encoded = Event::Encoded(Some(vec![3]));
    assert!(matches!(step(&mut worker, encoded), Action::Write(b) if b == vec![3]));
    assert!(matches!(step(&mut worker, Event::Done), Action::ReadPdu));
    // The size counts as asked for.
    let idle = Event::ReadFailed { kind: ReadErrorKind::WouldBlock, cause: String::new() };
    step(&mut worker, idle);
    step(&mut worker, resize(1001, 701, 20));
    assert!(matches!(step(&mut worker, Event::Nothing), Action::ReadPdu));
}

#[test]
fn refused_resize_is_not_retried() {
    let mut worker = running(false);
    step(&mut worker, resize(1000, 700, 0));
    step(&mut worker, Event::Nothing);
    step(&mut worker, Event::Time(RESIZE_DEBOUNCE));
    assert!(matches!(step(&mut worker, Event::Encoded(None)), Action::ReadPdu));
    let idle = Event::ReadFailed { kind: ReadErrorKind::TimedOut, cause: String::new() };
    step(&mut worker, idle);
    assert!(matches!(step(&mut worker, Event::Nothing), Action::ReadPdu));
}

#[test]
fn current_size_is_not_asked_for() {
    let mut worker = running(false);
    step(&mut worker, resize(1280, 800, 0));
    assert!(matches!(step(&mut worker, Event::Nothing), Action::ReadPdu));
}

#[test]
fn late_messages_are_not_expected() {
    let worker = running(false);
    assert!(!worker.expects(&resize(1, 1, u64::MAX)));
    assert!(!worker.expects(&Event::Done));
}

#[test]
fn clipboard_events_are_forwarded() {
    let mut worker = running(true);
    assert!(matches!(step(&mut worker, Event::Nothing), Action::PollClipboard));
    let event = ClipboardEvent::RequestFormatData(ClipboardFormatId(13));
    assert!(matches!(
        step(&mut worker, Event::Clipboard(event)),
        Action::ForwardClipboard(ClipboardEvent::RequestFormatData(ClipboardFormatId(13)))
    ));
    let encoded = Event::Encoded(Some(vec![4]));
    assert!(matches!(step(&mut worker, encoded), Action::Write(b) if b == vec![4]));
    assert!(matches!(step(&mut worker, Event::Done), Action::PollClipboard));
    let event = ClipboardEvent::RequestFormatData(ClipboardFormatId(13));
    step(&mut worker, Event::Clipboard(event));
    assert!(matches!(step(&mut worker, Event::Encoded(None)), Action::PollClipboard));
    assert!(matches!(step(&mut worker, Event::Nothing), Action::ReadPdu));
}

#[test]
fn broken_reads_are_reported() {
    let mut worker = running(false);
    step(&mut worker, Event::Nothing);
    let broken = Event::ReadFailed { kind: ReadErrorKind::Other, cause: "reset".into() };
    let action = step(&mut worker, broken);
    assert_fails(worker, action, "read frame: reset");
}

#[test]
fn outputs_are_done_in_order() {
    let (mut worker, action) = after_outputs(vec![
        StageOutput::GraphicsUpdate,
        StageOutput::ResponseFrame(vec![1]),
        StageOutput::Other,
        StageOutput::ResponseFrame(vec![2]),
    ]);
    assert!(matches!(action, Action::Write(b) if b == vec![1]));
    assert!(matches!(step(&mut worker, Event::Done), Action::Write(b) if b == vec![2]));
    assert!(matches!(step(&mut worker, Event::Done), Action::SendFrame));
    assert!(matches!(step(&mut worker, Event::Done), Action::PollUi));
}

#[test]
fn unchanged_desktop_is_not_sent() {
    let (_, action) = after_outputs(vec![StageOutput::Other]);
    assert!(matches!(action, Action::PollUi));
}

#[test]
fn termination_is_reported_without_a_picture() {
    let (mut worker, action) = after_outputs(vec![
        StageOutput::GraphicsUpdate,
        StageOutput::Terminate(DisconnectReason::ServerInitiated),
        StageOutput::ResponseFrame(vec![1]),
    ]);
    match action {
        Action::Notify(ToUi::Disconnected(text)) => assert_eq!(text, "server initiated disconnect"),
        other => panic!("{other:?}"),
    }
    assert!(matches!(step(&mut worker, Event::Done), Action::Stop));
}

#[test]
fn reactivation_changes_the_desktop() {
    let outputs = vec![
        StageOutput::GraphicsUpdate,
        StageOutput::DeactivateAll(9),
        StageOutput::ResponseFrame(vec![5]),
    ];
    let (mut worker, action) = after_outputs(outputs);
    assert!(matches!(action, Action::SetReadTimeout(None)));
    assert!(matches!(step(&mut worker, Event::Done), Action::AskHint(9)));
    assert!(matches!(step(&mut worker, Event::Hint(true)), Action::ReadHinted(9)));
    assert!(matches!(
        step(&mut worker, Event::Hinted(vec![6])),
        Action::StepWith(9, payload) if payload == vec![6]
    ));
    let stepped = Event::Stepped { written: Some(vec![8]), state: SequenceState::Ongoing };
    assert!(matches!(step(&mut worker, stepped), Action::Write(b) if b == vec![8]));
    assert!(matches!(step(&mut worker, Event::Done), Action::AskHint(9)));
    assert!(matches!(step(&mut worker, Event::Hint(false)), Action::StepWithout(9)));
    let state = SequenceState::Finalized { share_id: 77, width: 1000, height: 700 };
    let stepped = Event::Stepped { written: None, state };
    assert!(matches!(step(&mut worker, stepped), Action::SetReadTimeout(Some(POLL_TIMEOUT))));
    assert!(matches!(step(&mut worker, Event::Done), Action::SetShareId(77)));
    assert!(matches!(step(&mut worker, Event::Done), Action::NewImage { width: 1000, height: 700 }));
    assert!(matches!(
        step(&mut worker, Event::Done),
        Action::Notify(ToUi::Connected { width: 1000, height: 700 })
    ));
    assert!(matches!(step(&mut worker, Event::Done), Action::SendFrame));
    assert!(matches!(step(&mut worker, Event::Done), Action::Write(b) if b == vec![5]));
    assert!(matches!(step(&mut worker, Event::Done), Action::SendFrame));
    assert!(matches!(step(&mut worker, Event::Done), Action::PollUi));
    // The size that the server has set counts as asked for.
    step(&mut worker, resize(1000, 700, 0));
    assert!(matches!(step(&mut worker, Event::Nothing), Action::ReadPdu));
}

#[test]
fn reactivation_that_just_ends_changes_nothing() {
    let (mut worker, _) = after_outputs(vec![StageOutput::DeactivateAll(0)]);
    step(&mut worker, Event::Done);
    step(&mut worker, Event::Hint(false));
    let stepped = Event::Stepped { written: None, state: SequenceState::Ended };
    assert!(matches!(step(&mut worker, stepped), Action::SetReadTimeout(Some(POLL_TIMEOUT))));
    assert!(matches!(step(&mut worker, Event::Done), Action::PollUi));
}

#[test]
fn failed_reactivation_restores_the_timeout_first() {
    let (mut worker, _) = after_outputs(vec![StageOutput::DeactivateAll(0)]);
    step(&mut worker, Event::Done);
    step(&mut worker, Event::Hint(false));
    let action = step(&mut worker, Event::Failed("bad step".into()));
    assert!(matches!(action, Action::SetReadTimeout(Some(POLL_TIMEOUT))));
    let action = step(&mut worker, Event::Done);
    assert_fails(worker, action, "bad step");
}

#[test]
fn failure_to_restore_the_timeout_comes_first() {
    let (mut worker, _) = after_outputs(vec![StageOutput::DeactivateAll(0)]);
    step(&mut worker, Event::Done);
    step(&mut worker, Event::Hint(true));
    step(&mut worker, Event::Failed("bad read".into()));
    let action = step(&mut worker, Event::Failed("gone".into()));
    assert_fails(worker, action, "set_read_timeout: gone");
}
