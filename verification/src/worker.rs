//! The worker of a session: which step comes next on a connection, from the password to the end.
use ironrdp::pdu::input::fast_path::FastPathInputEvent;
use ironrdp_input::Database;
use vstd::prelude::*;

use crate::clipboard::ClipboardEvent;
use crate::config::{
    command_failure_text, command_prefix, password_from_command, CommandOutcome, PasswordSource,
};
use crate::connection::{
    announced_domain, build_config, in_context, static_channels, with_context, ConnectorConfig,
    StaticChannel,
};
use crate::desktop::{adjusted_size, resize_request};
use crate::input_state::{apply, new_database, state_of, InputState};
use crate::session::{DisconnectReason, SessionRequest, ToUi, ToWorker};
use crate::text::trimmed;

verus! {

/// How long a requested size has to stay the same before it goes to the server, in nanoseconds.
pub const RESIZE_DEBOUNCE: u64 = 300_000_000;

/// How long a read waits for the server while the session runs, in milliseconds.
pub const POLL_TIMEOUT: u64 = 16;

/// What the protocol asks for after a message of the server or input of the user.
#[derive(Debug)]
pub enum StageOutput {
    /// These bytes go to the server.
    ResponseFrame(Vec<u8>),
    /// The desktop has changed.
    GraphicsUpdate,
    /// The connection is to be activated again, by the sequence with this number.
    DeactivateAll(u64),
    /// The session is over.
    Terminate(DisconnectReason),
    /// Nothing that matters here.
    Other,
}

/// Where an activation sequence stands.
#[derive(Debug, Clone, Copy, PartialEq, Eq, Structural)]
pub enum SequenceState {
    /// There are more steps.
    Ongoing,
    /// It has come to its end, with a new share and a new desktop size.
    Finalized { share_id: u32, width: u16, height: u16 },
    /// It has come to another end.
    Ended,
}

/// Why nothing could be read.
#[derive(Debug, Clone, Copy, PartialEq, Eq, Structural)]
pub enum ReadErrorKind {
    WouldBlock,
    TimedOut,
    Other,
}

/// How an activation sequence came out.
#[derive(Debug)]
pub enum Driven {
    Finalized { share_id: u32, width: u16, height: u16 },
    Ended,
    Failed(String),
}

/// What has happened after the last action.
#[derive(Debug)]
pub enum Event {
    /// It is done.
    Done,
    /// It has failed, for this reason.
    Failed(String),
    /// The password command has ended.
    CommandFinished(CommandOutcome),
    /// The connection stands, with a desktop of this size.
    Connected { width: u16, height: u16 },
    /// The window has sent a message; the time in nanoseconds.
    Message { message: ToWorker, now: u64 },
    /// There is no message.
    Nothing,
    /// There will be no more messages.
    Closed,
    /// The protocol asks for this.
    Outputs(Vec<StageOutput>),
    /// The clipboard has an event for the server.
    Clipboard(ClipboardEvent),
    /// The bytes for the server, if there is a channel for them.
    Encoded(Option<Vec<u8>>),
    /// The time in nanoseconds.
    Time(u64),
    /// The server has sent a message, on the fast path or not.
    Pdu { fast_path: bool, payload: Vec<u8> },
    /// Nothing was read.
    ReadFailed { kind: ReadErrorKind, cause: String },
    /// Whether the activation sequence waits for a message of the server.
    Hint(bool),
    /// The message that the activation sequence waited for.
    Hinted(Vec<u8>),
    /// The activation sequence has made a step and may have something to send.
    Stepped { written: Option<Vec<u8>>, state: SequenceState },
}

/// What is to be done next.
#[derive(Debug)]
pub enum Action {
    /// Run the password command.
    RunCommand(String),
    /// Connect to the server.
    Connect { config: ConnectorConfig, host: String, port: u16, channels: Vec<StaticChannel> },
    /// Let reads wait for so many milliseconds, or for ever.
    SetReadTimeout(Option<u64>),
    /// Start over with a blank picture of the desktop.
    NewImage { width: u16, height: u16 },
    /// Tell the window.
    Notify(ToUi),
    /// Send the picture of the desktop to the window.
    SendFrame,
    /// Ask for a message from the window.
    PollUi,
    /// Let the protocol handle input.
    ProcessInput(Vec<FastPathInputEvent>),
    /// Send bytes to the server.
    Write(Vec<u8>),
    /// Ask for an event of the clipboard.
    PollClipboard,
    /// Encode an event of the clipboard for the server.
    ForwardClipboard(ClipboardEvent),
    /// Ask for the time.
    ReadClock,
    /// Encode a request for a desktop size.
    EncodeResize(u32, u32),
    /// Read a message of the server.
    ReadPdu,
    /// Let the protocol handle a message of the server.
    ProcessPdu { fast_path: bool, payload: Vec<u8> },
    /// Ask whether the activation sequence waits for a message.
    AskHint(u64),
    /// Read the message that the activation sequence waits for.
    ReadHinted(u64),
    /// Let the activation sequence go on with a message.
    StepWith(u64, Vec<u8>),
    /// Let the activation sequence go on without a message.
    StepWithout(u64),
    /// Use a new share identifier.
    SetShareId(u32),
    /// There is nothing more to do.
    Stop,
}

/// A notice to the window.
pub enum NoticeView {
    Connected { width: u16, height: u16 },
    Frame { width: u16, height: u16, rgba: Seq<u8> },
    Disconnected(Seq<char>),
    Error(Seq<char>),
}

/// What a message to the window says.
pub open spec fn notice_view(message: ToUi) -> NoticeView {
    match message {
        ToUi::Connected { width, height } => NoticeView::Connected { width, height },
        ToUi::Frame { width, height, rgba } => NoticeView::Frame { width, height, rgba: rgba@ },
        ToUi::Disconnected(text) => NoticeView::Disconnected(text@),
        ToUi::Error(text) => NoticeView::Error(text@),
    }
}

/// A connection to be made.
pub struct ConnectView {
    pub username: Seq<char>,
    pub password: Seq<char>,
    pub domain: Option<Seq<char>>,
    pub width: u16,
    pub height: u16,
    pub has_fixed_settings: bool,
    pub host: Seq<char>,
    pub port: u16,
    pub channels: Seq<StaticChannel>,
}

/// What is to be done next.
pub enum ActionView {
    RunCommand(Seq<char>),
    Connect(ConnectView),
    SetReadTimeout(Option<u64>),
    NewImage { width: u16, height: u16 },
    Notify(NoticeView),
    SendFrame,
    PollUi,
    ProcessInput(Seq<FastPathInputEvent>),
    Write(Seq<u8>),
    PollClipboard,
    ForwardClipboard(ClipboardEvent),
    ReadClock,
    EncodeResize(u32, u32),
    ReadPdu,
    ProcessPdu { fast_path: bool, payload: Seq<u8> },
    AskHint(u64),
    ReadHinted(u64),
    StepWith(u64, Seq<u8>),
    StepWithout(u64),
    SetShareId(u32),
    Stop,
}

impl View for Action {
    type V = ActionView;

    open spec fn view(&self) -> ActionView {
        match *self {
            Action::RunCommand(command) => ActionView::RunCommand(command@),
            Action::Connect { config, host, port, channels } => ActionView::Connect(
                ConnectView {
                    username: config.username@,
                    password: config.password@,
                    domain: match config.domain {
                        Some(text) => Some(text@),
                        None => None,
                    },
                    width: config.width,
                    height: config.height,
                    has_fixed_settings: config.has_fixed_settings(),
                    host: host@,
                    port,
                    channels: channels@,
                },
            ),
            Action::SetReadTimeout(timeout) => ActionView::SetReadTimeout(timeout),
            Action::NewImage { width, height } => ActionView::NewImage { width, height },
            Action::Notify(message) => ActionView::Notify(notice_view(message)),
            Action::SendFrame => ActionView::SendFrame,
            Action::PollUi => ActionView::PollUi,
            Action::ProcessInput(events) => ActionView::ProcessInput(events@),
            Action::Write(bytes) => ActionView::Write(bytes@),
            Action::PollClipboard => ActionView::PollClipboard,
            Action::ForwardClipboard(event) => ActionView::ForwardClipboard(event),
            Action::ReadClock => ActionView::ReadClock,
            Action::EncodeResize(width, height) => ActionView::EncodeResize(width, height),
            Action::ReadPdu => ActionView::ReadPdu,
            Action::ProcessPdu { fast_path, payload } => ActionView::ProcessPdu {
                fast_path,
                payload: payload@,
            },
            Action::AskHint(sequence) => ActionView::AskHint(sequence),
            Action::ReadHinted(sequence) => ActionView::ReadHinted(sequence),
            Action::StepWith(sequence, payload) => ActionView::StepWith(sequence, payload@),
            Action::StepWithout(sequence) => ActionView::StepWithout(sequence),
            Action::SetShareId(share_id) => ActionView::SetShareId(share_id),
            Action::Stop => ActionView::Stop,
        }
    }
}

/// What the worker waits for.
#[derive(Debug)]
pub enum Phase {
    /// The password command of this request.
    Password(SessionRequest),
    /// The connection.
    Connecting,
    /// The first change of the read timeout, for a desktop of this size.
    StartingPolls { width: u16, height: u16 },
    /// A blank picture of the desktop in its new size.
    CreatingImage { width: u16, height: u16 },
    /// The notice of the new size.
    Announcing,
    /// The blank picture, on its way to the window.
    SendingNewFrame,
    /// A message of the window.
    Polling,
    /// What the protocol makes of input.
    Inputting,
    /// A frame for the server, after input.
    WritingInput,
    /// An event of the clipboard.
    PollingClipboard,
    /// An event of the clipboard, encoded.
    Forwarding,
    /// An encoded event of the clipboard, on its way to the server.
    WritingClipboard,
    /// The time.
    ReadingClock,
    /// A request for this size, encoded.
    Resizing { width: u16, height: u16 },
    /// An encoded request for this size, on its way to the server.
    WritingResize { width: u16, height: u16 },
    /// A message of the server.
    Reading,
    /// What the protocol makes of a message.
    Processing,
    /// A frame for the server, after a message.
    WritingOutput,
    /// The end of the read timeout, for an activation sequence.
    ClearingTimeout { sequence: u64 },
    /// Whether the activation sequence wants a message.
    AskingHint { sequence: u64 },
    /// A message for the activation sequence.
    ReadingHinted { sequence: u64 },
    /// A step of the activation sequence.
    Stepping { sequence: u64 },
    /// What the activation sequence sends, in this state.
    WritingStep { sequence: u64, state: SequenceState },
    /// The return of the read timeout, after an activation sequence that came out like this.
    RestoringTimeout(Driven),
    /// The new share identifier, with this desktop size.
    SettingShareId { width: u16, height: u16 },
    /// The picture of the desktop, on its way to the window.
    SendingFrame,
    /// The notice of an error.
    Failing,
    /// The notice of the end.
    Ending,
    /// Nothing.
    Stopped,
}

/// The worker of a session.
pub struct Worker {
    phase: Phase,
    clipboard: bool,
    database: Database,
    pending_resize: Option<(u16, u16)>,
    resize_deadline: Option<u64>,
    last_sent_size: (u16, u16),
    queue: Vec<StageOutput>,
    dirty: bool,
}

/// The worker of a session.
#[verifier::ext_equal]
pub struct WorkerView {
    /// What is waited for.
    pub phase: Phase,
    /// Whether the clipboard is shared.
    pub clipboard: bool,
    /// The keyboard and mouse state that the server knows of.
    pub input: InputState,
    /// The size that is to be asked for.
    pub pending_resize: Option<(u16, u16)>,
    /// The time at which it is to be asked for.
    pub resize_deadline: Option<u64>,
    /// The size that was asked for last, or that the server has set since.
    pub last_sent_size: (u16, u16),
    /// What the protocol has asked for and has not been done.
    pub queue: Seq<StageOutput>,
    /// Whether the desktop has changed since the last picture.
    pub dirty: bool,
}

impl View for Worker {
    type V = WorkerView;

    closed spec fn view(&self) -> WorkerView {
        WorkerView {
            phase: self.phase,
            clipboard: self.clipboard,
            input: state_of(self.database),
            pending_resize: self.pending_resize,
            resize_deadline: self.resize_deadline,
            last_sent_size: self.last_sent_size,
            queue: self.queue@,
            dirty: self.dirty,
        }
    }
}

/// Whether an event tells of an end, good or bad.
pub open spec fn is_outcome(event: Event) -> bool {
    event is Done || event is Failed
}

impl WorkerView {
    /// Whether an event can happen now.
    pub open spec fn expects(self, event: Event) -> bool {
        match self.phase {
            Phase::Password(_) => event is CommandFinished,
            Phase::Connecting => event is Connected || event is Failed,
            Phase::StartingPolls { .. } => is_outcome(event),
            Phase::CreatingImage { .. } => event is Done,
            Phase::Announcing => event is Done,
            Phase::SendingNewFrame => event is Done,
            Phase::Polling => match event {
                Event::Message { message, now } => now <= u64::MAX - RESIZE_DEBOUNCE,
                Event::Nothing => true,
                Event::Closed => true,
                _ => false,
            },
            Phase::Inputting => event is Outputs || event is Failed,
            Phase::WritingInput => is_outcome(event),
            Phase::PollingClipboard => event is Clipboard || event is Nothing || event is Closed,
            Phase::Forwarding => event is Encoded,
            Phase::WritingClipboard => is_outcome(event),
            Phase::ReadingClock => event is Time,
            Phase::Resizing { .. } => event is Encoded || event is Failed,
            Phase::WritingResize { .. } => is_outcome(event),
            Phase::Reading => event is Pdu || event is ReadFailed,
            Phase::Processing => event is Outputs || event is Failed,
            Phase::WritingOutput => is_outcome(event),
            Phase::ClearingTimeout { .. } => is_outcome(event),
            Phase::AskingHint { .. } => event is Hint,
            Phase::ReadingHinted { .. } => event is Hinted || event is Failed,
            Phase::Stepping { .. } => event is Stepped || event is Failed,
            Phase::WritingStep { .. } => is_outcome(event),
            Phase::RestoringTimeout(_) => is_outcome(event),
            Phase::SettingShareId { .. } => event is Done,
            Phase::SendingFrame => event is Done,
            Phase::Failing => event is Done,
            Phase::Ending => event is Done,
            Phase::Stopped => false,
        }
    }

    /// The first step of a session: the password command where there is one, and else the
    /// connection.
    pub open spec fn starting(request: SessionRequest) -> (WorkerView, ActionView) {
        let worker = WorkerView {
            phase: Phase::Password(request),
            clipboard: request.clipboard_passthrough,
            input: InputState::initial(),
            pending_resize: None,
            resize_deadline: None,
            last_sent_size: (request.width, request.height),
            queue: Seq::empty(),
            dirty: false,
        };
        if command_prefix().is_prefix_of(request.password@) {
            (
                worker,
                ActionView::RunCommand(request.password@.skip(command_prefix().len() as int)),
            )
        } else {
            worker.connecting(request, request.password@)
        }
    }

    /// In another phase.
    pub open spec fn at(self, phase: Phase) -> WorkerView {
        WorkerView { phase, ..self }
    }

    /// The end, after an error.
    pub open spec fn failing(self, text: Seq<char>) -> (WorkerView, ActionView) {
        (self.at(Phase::Failing), ActionView::Notify(NoticeView::Error(text)))
    }

    /// The text for a failure at this point: that of a changed read timeout is named.
    pub open spec fn failure_text(self, cause: Seq<char>) -> Seq<char> {
        match self.phase {
            Phase::StartingPolls { .. } => in_context("set_read_timeout"@, cause),
            Phase::ClearingTimeout { .. } => in_context("set_read_timeout"@, cause),
            Phase::RestoringTimeout(_) => in_context("set_read_timeout"@, cause),
            _ => cause,
        }
    }

    /// The end, without a word.
    pub open spec fn stopping(self) -> (WorkerView, ActionView) {
        (self.at(Phase::Stopped), ActionView::Stop)
    }

    /// The connection, under this password.
    pub open spec fn connecting(self, request: SessionRequest, password: Seq<char>) -> (
        WorkerView,
        ActionView,
    ) {
        (
            self.at(Phase::Connecting),
            ActionView::Connect(
                ConnectView {
                    username: request.username@,
                    password,
                    domain: announced_domain(request.domain@),
                    width: request.width,
                    height: request.height,
                    has_fixed_settings: true,
                    host: request.server.host@,
                    port: request.server.port,
                    channels: if request.clipboard_passthrough {
                        seq![StaticChannel::DynamicChannels, StaticChannel::Clipboard]
                    } else {
                        seq![StaticChannel::DynamicChannels]
                    },
                },
            ),
        )
    }

    /// The next message of the window.
    pub open spec fn polling(self) -> (WorkerView, ActionView) {
        (self.at(Phase::Polling), ActionView::PollUi)
    }

    /// The next message of the server.
    pub open spec fn reading(self) -> (WorkerView, ActionView) {
        (self.at(Phase::Reading), ActionView::ReadPdu)
    }

    /// What follows the events of the clipboard: the time matters where a size is pending.
    pub open spec fn after_clipboard(self) -> (WorkerView, ActionView) {
        if self.pending_resize is Some && self.resize_deadline is Some {
            (self.at(Phase::ReadingClock), ActionView::ReadClock)
        } else {
            self.reading()
        }
    }

    /// The next event of the clipboard.
    pub open spec fn polling_clipboard(self) -> (WorkerView, ActionView) {
        (self.at(Phase::PollingClipboard), ActionView::PollClipboard)
    }

    /// What follows the messages of the window.
    pub open spec fn after_messages(self) -> (WorkerView, ActionView) {
        if self.clipboard {
            self.polling_clipboard()
        } else {
            self.after_clipboard()
        }
    }

    /// What follows input: each frame goes to the server, and anything else is passed over.
    pub open spec fn next_input(self) -> (WorkerView, ActionView)
        decreases self.queue.len(),
    {
        if self.queue.len() == 0 {
            self.polling()
        } else {
            let rest = WorkerView { queue: self.queue.skip(1), ..self };
            match self.queue[0] {
                StageOutput::ResponseFrame(frame) => (
                    rest.at(Phase::WritingInput),
                    ActionView::Write(frame@),
                ),
                _ => rest.next_input(),
            }
        }
    }

    /// What follows a message of the server: what the protocol asks for, in order, and at the end
    /// the picture of the desktop where it has changed.
    pub open spec fn next_output(self) -> (WorkerView, ActionView)
        decreases self.queue.len(),
    {
        if self.queue.len() == 0 {
            if self.dirty {
                (
                    WorkerView { phase: Phase::SendingFrame, dirty: false, ..self },
                    ActionView::SendFrame,
                )
            } else {
                self.polling()
            }
        } else {
            let rest = WorkerView { queue: self.queue.skip(1), ..self };
            match self.queue[0] {
                StageOutput::ResponseFrame(frame) => (
                    rest.at(Phase::WritingOutput),
                    ActionView::Write(frame@),
                ),
                StageOutput::GraphicsUpdate => WorkerView { dirty: true, ..rest }.next_output(),
                StageOutput::DeactivateAll(sequence) => (
                    rest.at(Phase::ClearingTimeout { sequence }),
                    ActionView::SetReadTimeout(None),
                ),
                StageOutput::Terminate(reason) => (
                    rest.at(Phase::Ending),
                    ActionView::Notify(NoticeView::Disconnected(reason.text())),
                ),
                StageOutput::Other => rest.next_output(),
            }
        }
    }

    /// A desktop of a new size.
    pub open spec fn creating_image(self, width: u16, height: u16) -> (WorkerView, ActionView) {
        (
            WorkerView {
                phase: Phase::CreatingImage { width, height },
                last_sent_size: (width, height),
                ..self
            },
            ActionView::NewImage { width, height },
        )
    }

    /// The return of the read timeout after an activation sequence.
    pub open spec fn restoring(self, driven: Driven) -> (WorkerView, ActionView) {
        (self.at(Phase::RestoringTimeout(driven)), ActionView::SetReadTimeout(Some(POLL_TIMEOUT)))
    }

    /// The next round of an activation sequence, or its end.
    pub open spec fn next_round(self, sequence: u64, state: SequenceState) -> (
        WorkerView,
        ActionView,
    ) {
        match state {
            SequenceState::Ongoing => (
                self.at(Phase::AskingHint { sequence }),
                ActionView::AskHint(sequence),
            ),
            SequenceState::Finalized { share_id, width, height } => self.restoring(
                Driven::Finalized { share_id, width, height },
            ),
            SequenceState::Ended => self.restoring(Driven::Ended),
        }
    }

    /// With the wish for a size, unless it is the size that was asked for last.
    pub open spec fn wishing(self, width: u16, height: u16, now: u64) -> WorkerView {
        if (width, height) == self.last_sent_size {
            self
        } else {
            WorkerView {
                pending_resize: Some((width, height)),
                resize_deadline: Some((now + RESIZE_DEBOUNCE) as u64),
                ..self
            }
        }
    }

    /// What follows a message of the window.
    pub open spec fn respond_to_message(self, message: ToWorker, now: u64) -> (
        WorkerView,
        ActionView,
    ) {
        match message {
            ToWorker::Input(operations) => {
                let after = WorkerView { input: self.input.after_all(operations@), ..self };
                if self.input.ignores_all(operations@) {
                    after.polling()
                } else {
                    (
                        after.at(Phase::Inputting),
                        ActionView::ProcessInput(self.input.all_events(operations@)),
                    )
                }
            },
            ToWorker::Resize { width, height } => self.wishing(width, height, now).polling(),
            ToWorker::Shutdown => self.stopping(),
        }
    }

    /// What follows the time: a pending size goes to the server once it is due.
    pub open spec fn respond_to_time(self, now: u64) -> (WorkerView, ActionView) {
        match (self.pending_resize, self.resize_deadline) {
            (Some((width, height)), Some(deadline)) => if now >= deadline {
                let size = adjusted_size(width as u32, height as u32);
                (
                    WorkerView {
                        phase: Phase::Resizing { width, height },
                        pending_resize: None,
                        resize_deadline: None,
                        ..self
                    },
                    ActionView::EncodeResize(size.0, size.1),
                )
            } else {
                self.reading()
            },
            _ => self.reading(),
        }
    }

    /// What follows an activation sequence, once reads have their timeout again.
    pub open spec fn respond_to_driven(self, driven: Driven) -> (WorkerView, ActionView) {
        match driven {
            Driven::Finalized { share_id, width, height } => (
                self.at(Phase::SettingShareId { width, height }),
                ActionView::SetShareId(share_id),
            ),
            Driven::Ended => self.next_output(),
            Driven::Failed(text) => self.failing(text@),
        }
    }

    /// What follows an event: the worker after it, and what it does next.
    pub open spec fn respond(self, event: Event) -> (WorkerView, ActionView) {
        match (self.phase, event) {
            (Phase::Password(request), Event::CommandFinished(outcome)) => match outcome {
                CommandOutcome::Succeeded(output) => self.connecting(request, trimmed(output@)),
                CommandOutcome::Failed(reason) => self.failing(command_failure_text(reason@)),
            },
            (Phase::Connecting, Event::Connected { width, height }) => (
                self.at(Phase::StartingPolls { width, height }),
                ActionView::SetReadTimeout(Some(POLL_TIMEOUT)),
            ),
            (Phase::StartingPolls { width, height }, Event::Done) => self.creating_image(
                width,
                height,
            ),
            (Phase::CreatingImage { width, height }, Event::Done) => (
                self.at(Phase::Announcing),
                ActionView::Notify(NoticeView::Connected { width, height }),
            ),
            (Phase::Announcing, Event::Done) => (
                self.at(Phase::SendingNewFrame),
                ActionView::SendFrame,
            ),
            (Phase::SendingNewFrame, Event::Done) => self.next_output(),
            (Phase::Polling, Event::Message { message, now }) => self.respond_to_message(
                message,
                now,
            ),
            (Phase::Polling, Event::Nothing) => self.after_messages(),
            (Phase::Polling, Event::Closed) => self.stopping(),
            (Phase::Inputting, Event::Outputs(outputs)) => WorkerView {
                queue: outputs@,
                ..self
            }.next_input(),
            (Phase::WritingInput, Event::Done) => self.next_input(),
            (Phase::PollingClipboard, Event::Clipboard(event)) => (
                self.at(Phase::Forwarding),
                ActionView::ForwardClipboard(event),
            ),
            (Phase::PollingClipboard, Event::Nothing) => self.after_clipboard(),
            (Phase::PollingClipboard, Event::Closed) => self.after_clipboard(),
            (Phase::Forwarding, Event::Encoded(Some(bytes))) => (
                self.at(Phase::WritingClipboard),
                ActionView::Write(bytes@),
            ),
            (Phase::Forwarding, Event::Encoded(None)) => self.polling_clipboard(),
            (Phase::WritingClipboard, Event::Done) => self.polling_clipboard(),
            (Phase::ReadingClock, Event::Time(now)) => self.respond_to_time(now),
            (Phase::Resizing { width, height }, Event::Encoded(Some(bytes))) => (
                self.at(Phase::WritingResize { width, height }),
                ActionView::Write(bytes@),
            ),
            (Phase::Resizing { .. }, Event::Encoded(None)) => self.reading(),
            (Phase::WritingResize { width, height }, Event::Done) => WorkerView {
                last_sent_size: (width, height),
                ..self
            }.reading(),
            (Phase::Reading, Event::Pdu { fast_path, payload }) => (
                self.at(Phase::Processing),
                ActionView::ProcessPdu { fast_path, payload: payload@ },
            ),
            (Phase::Reading, Event::ReadFailed { kind, cause }) => match kind {
                ReadErrorKind::Other => self.failing(in_context("read frame"@, cause@)),
                _ => self.polling(),
            },
            (Phase::Processing, Event::Outputs(outputs)) => WorkerView {
                queue: outputs@,
                dirty: false,
                ..self
            }.next_output(),
            (Phase::WritingOutput, Event::Done) => self.next_output(),
            (Phase::ClearingTimeout { sequence }, Event::Done) => self.next_round(
                sequence,
                SequenceState::Ongoing,
            ),
            (Phase::AskingHint { sequence }, Event::Hint(wanted)) => if wanted {
                (self.at(Phase::ReadingHinted { sequence }), ActionView::ReadHinted(sequence))
            } else {
                (self.at(Phase::Stepping { sequence }), ActionView::StepWithout(sequence))
            },
            (Phase::ReadingHinted { sequence }, Event::Hinted(payload)) => (
                self.at(Phase::Stepping { sequence }),
                ActionView::StepWith(sequence, payload@),
            ),
            (Phase::ReadingHinted { .. }, Event::Failed(text)) => self.restoring(
                Driven::Failed(text),
            ),
            (Phase::Stepping { sequence }, Event::Stepped { written, state }) => match written {
                Some(bytes) => (
                    self.at(Phase::WritingStep { sequence, state }),
                    ActionView::Write(bytes@),
                ),
                None => self.next_round(sequence, state),
            },
            (Phase::Stepping { .. }, Event::Failed(text)) => self.restoring(Driven::Failed(text)),
            (Phase::WritingStep { sequence, state }, Event::Done) => self.next_round(
                sequence,
                state,
            ),
            (Phase::WritingStep { .. }, Event::Failed(text)) => self.restoring(
                Driven::Failed(text),
            ),
            (Phase::RestoringTimeout(driven), Event::Done) => self.respond_to_driven(driven),
            (Phase::SettingShareId { width, height }, Event::Done) => self.creating_image(
                width,
                height,
            ),
            (Phase::SendingFrame, Event::Done) => self.polling(),
            (Phase::Failing, Event::Done) => self.stopping(),
            (Phase::Ending, Event::Done) => self.stopping(),
            (_, Event::Failed(text)) => self.failing(self.failure_text(text@)),
            _ => self.stopping(),
        }
    }
}

/// What follows input does not hang on the phase.
proof fn lemma_next_input_from_any_phase(worker: WorkerView, phase: Phase)
    ensures
        worker.at(phase).next_input() == worker.next_input(),
    decreases worker.queue.len(),
{
    if worker.queue.len() > 0 {
        lemma_next_input_from_any_phase(
            WorkerView { queue: worker.queue.skip(1), ..worker },
            phase,
        );
    }
}

/// What follows a message of the server does not hang on the phase.
proof fn lemma_next_output_from_any_phase(worker: WorkerView, phase: Phase)
    ensures
        worker.at(phase).next_output() == worker.next_output(),
    decreases worker.queue.len(),
{
    if worker.queue.len() > 0 {
        let rest = WorkerView { queue: worker.queue.skip(1), ..worker };
        lemma_next_output_from_any_phase(rest, phase);
        lemma_next_output_from_any_phase(WorkerView { dirty: true, ..rest }, phase);
    }
}

impl Worker {
    /// The first step of a session: the password command where there is one, and else the
    /// connection.
    pub fn start(request: SessionRequest) -> (result: (Worker, Action))
        ensures
            (result.0@, result.1@) == WorkerView::starting(request),
    {
        let mut worker = Worker {
            phase: Phase::Connecting,
            clipboard: request.clipboard_passthrough,
            database: new_database(),
            pending_resize: None,
            resize_deadline: None,
            last_sent_size: (request.width, request.height),
            queue: Vec::new(),
            dirty: false,
        };
        let action = match PasswordSource::of_field(request.password.as_str()) {
            PasswordSource::Command(command) => {
                assert(command@ == request.password@.skip(command_prefix().len() as int));
                worker.phase = Phase::Password(request);
                Action::RunCommand(command)
            },
            PasswordSource::Literal(password) => worker.connect(request, password),
        };
        (worker, action)
    }

    fn connect(&mut self, request: SessionRequest, password: String) -> (action: Action)
        ensures
            (final(self)@, action@) == old(self)@.connecting(request, password@),
    {
        self.phase = Phase::Connecting;
        let config = build_config(
            &request.server,
            request.username.as_str(),
            password.as_str(),
            request.domain.as_str(),
            request.width,
            request.height,
        );
        Action::Connect {
            config,
            host: request.server.host,
            port: request.server.port,
            channels: static_channels(request.clipboard_passthrough),
        }
    }

    fn fail(&mut self, text: String) -> (action: Action)
        ensures
            (final(self)@, action@) == old(self)@.failing(text@),
    {
        self.phase = Phase::Failing;
        Action::Notify(ToUi::Error(text))
    }

    fn fail_timeout(&mut self, cause: String) -> (action: Action)
        ensures
            (final(self)@, action@) == old(self)@.failing(
                in_context("set_read_timeout"@, cause@),
            ),
    {
        self.fail(with_context("set_read_timeout", cause.as_str()))
    }

    fn poll(&mut self) -> (action: Action)
        ensures
            (final(self)@, action@) == old(self)@.polling(),
    {
        self.phase = Phase::Polling;
        Action::PollUi
    }

    fn read(&mut self) -> (action: Action)
        ensures
            (final(self)@, action@) == old(self)@.reading(),
    {
        self.phase = Phase::Reading;
        Action::ReadPdu
    }

    fn stop(&mut self) -> (action: Action)
        ensures
            (final(self)@, action@) == old(self)@.stopping(),
    {
        self.phase = Phase::Stopped;
        Action::Stop
    }

    fn poll_clipboard(&mut self) -> (action: Action)
        ensures
            (final(self)@, action@) == old(self)@.polling_clipboard(),
    {
        self.phase = Phase::PollingClipboard;
        Action::PollClipboard
    }

    fn leave_clipboard(&mut self) -> (action: Action)
        ensures
            (final(self)@, action@) == old(self)@.after_clipboard(),
    {
        if self.pending_resize.is_some() && self.resize_deadline.is_some() {
            self.phase = Phase::ReadingClock;
            Action::ReadClock
        } else {
            self.read()
        }
    }

    fn leave_messages(&mut self) -> (action: Action)
        ensures
            (final(self)@, action@) == old(self)@.after_messages(),
    {
        if self.clipboard {
            self.poll_clipboard()
        } else {
            self.leave_clipboard()
        }
    }

    fn continue_input(&mut self) -> (action: Action)
        ensures
            (final(self)@, action@) == old(self)@.next_input(),
        decreases old(self)@.queue.len(),
    {
        if self.queue.len() == 0 {
            return self.poll();
        }
        let output = self.queue.remove(0);
        assert(self@.queue == old(self)@.queue.skip(1));
        match output {
            StageOutput::ResponseFrame(frame) => {
                self.phase = Phase::WritingInput;
                Action::Write(frame)
            },
            _ => self.continue_input(),
        }
    }

    fn continue_output(&mut self) -> (action: Action)
        ensures
            (final(self)@, action@) == old(self)@.next_output(),
        decreases old(self)@.queue.len(),
    {
        if self.queue.len() == 0 {
            if self.dirty {
                self.dirty = false;
                self.phase = Phase::SendingFrame;
                return Action::SendFrame;
            }
            return self.poll();
        }
        let output = self.queue.remove(0);
        assert(self@.queue == old(self)@.queue.skip(1));
        match output {
            StageOutput::ResponseFrame(frame) => {
                self.phase = Phase::WritingOutput;
                Action::Write(frame)
            },
            StageOutput::GraphicsUpdate => {
                self.dirty = true;
                self.continue_output()
            },
            StageOutput::DeactivateAll(sequence) => {
                self.phase = Phase::ClearingTimeout { sequence };
                Action::SetReadTimeout(None)
            },
            StageOutput::Terminate(reason) => {
                self.phase = Phase::Ending;
                Action::Notify(ToUi::Disconnected(reason.description()))
            },
            StageOutput::Other => self.continue_output(),
        }
    }

    fn create_image(&mut self, width: u16, height: u16) -> (action: Action)
        ensures
            (final(self)@, action@) == old(self)@.creating_image(width, height),
    {
        self.last_sent_size = (width, height);
        self.phase = Phase::CreatingImage { width, height };
        Action::NewImage { width, height }
    }

    fn restore(&mut self, driven: Driven) -> (action: Action)
        ensures
            (final(self)@, action@) == old(self)@.restoring(driven),
    {
        self.phase = Phase::RestoringTimeout(driven);
        Action::SetReadTimeout(Some(POLL_TIMEOUT))
    }

    fn continue_sequence(&mut self, sequence: u64, state: SequenceState) -> (action: Action)
        ensures
            (final(self)@, action@) == old(self)@.next_round(sequence, state),
    {
        match state {
            SequenceState::Ongoing => {
                self.phase = Phase::AskingHint { sequence };
                Action::AskHint(sequence)
            },
            SequenceState::Finalized { share_id, width, height } => self.restore(
                Driven::Finalized { share_id, width, height },
            ),
            SequenceState::Ended => self.restore(Driven::Ended),
        }
    }

    fn on_message(&mut self, message: ToWorker, now: u64) -> (action: Action)
        requires
            now <= u64::MAX - RESIZE_DEBOUNCE,
        ensures
            (final(self)@, action@) == old(self)@.respond_to_message(message, now),
    {
        match message {
            ToWorker::Input(operations) => {
                let events = apply(&mut self.database, &operations);
                if events.len() == 0 {
                    self.poll()
                } else {
                    self.phase = Phase::Inputting;
                    Action::ProcessInput(events)
                }
            },
            ToWorker::Resize { width, height } => {
                if width != self.last_sent_size.0 || height != self.last_sent_size.1 {
                    self.pending_resize = Some((width, height));
                    self.resize_deadline = Some(now + RESIZE_DEBOUNCE);
                }
                self.poll()
            },
            ToWorker::Shutdown => self.stop(),
        }
    }

    fn on_time(&mut self, now: u64) -> (action: Action)
        ensures
            (final(self)@, action@) == old(self)@.respond_to_time(now),
    {
        match (self.pending_resize, self.resize_deadline) {
            (Some((width, height)), Some(deadline)) => {
                if now >= deadline {
                    self.pending_resize = None;
                    self.resize_deadline = None;
                    self.phase = Phase::Resizing { width, height };
                    let size = resize_request(width, height);
                    Action::EncodeResize(size.0, size.1)
                } else {
                    self.read()
                }
            },
            _ => self.read(),
        }
    }

    fn on_driven(&mut self, driven: Driven) -> (action: Action)
        ensures
            (final(self)@, action@) == old(self)@.respond_to_driven(driven),
    {
        match driven {
            Driven::Finalized { share_id, width, height } => {
                self.phase = Phase::SettingShareId { width, height };
                Action::SetShareId(share_id)
            },
            Driven::Ended => self.continue_output(),
            Driven::Failed(text) => self.fail(text),
        }
    }

    /// The next step of a session, after what came of the last one.
    pub fn step(&mut self, event: Event) -> (action: Action)
        requires
            old(self)@.expects(event),
        ensures
            (final(self)@, action@) == old(self)@.respond(event),
    {
        let mut phase = Phase::Stopped;
        core::mem::swap(&mut phase, &mut self.phase);
        match (phase, event) {
            (Phase::Password(request), Event::CommandFinished(outcome)) => {
                match password_from_command(&outcome) {
                    Ok(password) => self.connect(request, password),
                    Err(text) => self.fail(text),
                }
            },
            (Phase::Connecting, Event::Connected { width, height }) => {
                self.phase = Phase::StartingPolls { width, height };
                Action::SetReadTimeout(Some(POLL_TIMEOUT))
            },
            (Phase::StartingPolls { width, height }, Event::Done) => self.create_image(
                width,
                height,
            ),
            (Phase::CreatingImage { width, height }, Event::Done) => {
                self.phase = Phase::Announcing;
                Action::Notify(ToUi::Connected { width, height })
            },
            (Phase::Announcing, Event::Done) => {
                self.phase = Phase::SendingNewFrame;
                Action::SendFrame
            },
            (Phase::SendingNewFrame, Event::Done) => {
                proof {
                    lemma_next_output_from_any_phase(old(self)@, Phase::Stopped);
                }
                self.continue_output()
            },
            (Phase::Polling, Event::Message { message, now }) => self.on_message(message, now),
            (Phase::Polling, Event::Nothing) => self.leave_messages(),
            (Phase::Polling, Event::Closed) => self.stop(),
            (Phase::Inputting, Event::Outputs(outputs)) => {
                self.queue = outputs;
                proof {
                    lemma_next_input_from_any_phase(
                        WorkerView { queue: outputs@, ..old(self)@ },
                        Phase::Stopped,
                    );
                }
                self.continue_input()
            },
            (Phase::WritingInput, Event::Done) => {
                proof {
                    lemma_next_input_from_any_phase(old(self)@, Phase::Stopped);
                }
                self.continue_input()
            },
            (Phase::PollingClipboard, Event::Clipboard(event)) => {
                self.phase = Phase::Forwarding;
                Action::ForwardClipboard(event)
            },
            (Phase::PollingClipboard, Event::Nothing) => self.leave_clipboard(),
            (Phase::PollingClipboard, Event::Closed) => self.leave_clipboard(),
            (Phase::Forwarding, Event::Encoded(Some(bytes))) => {
                self.phase = Phase::WritingClipboard;
                Action::Write(bytes)
            },
            (Phase::Forwarding, Event::Encoded(None)) => self.poll_clipboard(),
            (Phase::WritingClipboard, Event::Done) => self.poll_clipboard(),
            (Phase::ReadingClock, Event::Time(now)) => self.on_time(now),
            (Phase::Resizing { width, height }, Event::Encoded(Some(bytes))) => {
                self.phase = Phase::WritingResize { width, height };
                Action::Write(bytes)
            },
            (Phase::Resizing { .. }, Event::Encoded(None)) => self.read(),
            (Phase::WritingResize { width, height }, Event::Done) => {
                self.last_sent_size = (width, height);
                self.read()
            },
            (Phase::Reading, Event::Pdu { fast_path, payload }) => {
                self.phase = Phase::Processing;
                Action::ProcessPdu { fast_path, payload }
            },
            (Phase::Reading, Event::ReadFailed { kind, cause }) => match kind {
                ReadErrorKind::Other => self.fail(with_context("read frame", cause.as_str())),
                _ => self.poll(),
            },
            (Phase::Processing, Event::Outputs(outputs)) => {
                self.queue = outputs;
                self.dirty = false;
                proof {
                    lemma_next_output_from_any_phase(
                        WorkerView { queue: outputs@, dirty: false, ..old(self)@ },
                        Phase::Stopped,
                    );
                }
                self.continue_output()
            },
            (Phase::WritingOutput, Event::Done) => {
                proof {
                    lemma_next_output_from_any_phase(old(self)@, Phase::Stopped);
                }
                self.continue_output()
            },
            (Phase::ClearingTimeout { sequence }, Event::Done) => self.continue_sequence(
                sequence,
                SequenceState::Ongoing,
            ),
            (Phase::AskingHint { sequence }, Event::Hint(wanted)) => {
                if wanted {
                    self.phase = Phase::ReadingHinted { sequence };
                    Action::ReadHinted(sequence)
                } else {
                    self.phase = Phase::Stepping { sequence };
                    Action::StepWithout(sequence)
                }
            },
            (Phase::ReadingHinted { sequence }, Event::Hinted(payload)) => {
                self.phase = Phase::Stepping { sequence };
                Action::StepWith(sequence, payload)
            },
            (Phase::ReadingHinted { .. }, Event::Failed(text)) => self.restore(
                Driven::Failed(text),
            ),
            (Phase::Stepping { sequence }, Event::Stepped { written, state }) => match written {
                Some(bytes) => {
                    self.phase = Phase::WritingStep { sequence, state };
                    Action::Write(bytes)
                },
                None => self.continue_sequence(sequence, state),
            },
            (Phase::Stepping { .. }, Event::Failed(text)) => self.restore(Driven::Failed(text)),
            (Phase::WritingStep { sequence, state }, Event::Done) => self.continue_sequence(
                sequence,
                state,
            ),
            (Phase::WritingStep { .. }, Event::Failed(text)) => self.restore(Driven::Failed(text)),
            (Phase::RestoringTimeout(driven), Event::Done) => {
                proof {
                    lemma_next_output_from_any_phase(old(self)@, Phase::Stopped);
                }
                self.on_driven(driven)
            },
            (Phase::SettingShareId { width, height }, Event::Done) => self.create_image(
                width,
                height,
            ),
            (Phase::SendingFrame, Event::Done) => self.poll(),
            (Phase::Failing, Event::Done) => self.stop(),
            (Phase::Ending, Event::Done) => self.stop(),
            (Phase::StartingPolls { .. }, Event::Failed(text)) => self.fail_timeout(text),
            (Phase::ClearingTimeout { .. }, Event::Failed(text)) => self.fail_timeout(text),
            (Phase::RestoringTimeout(_), Event::Failed(text)) => self.fail_timeout(text),
            (_, Event::Failed(text)) => self.fail(text),
            _ => self.stop(),
        }
    }

    /// Whether an event can happen now.
    pub fn expects(&self, event: &Event) -> (yes: bool)
        ensures
            yes == self@.expects(*event),
    {
        let done = matches!(event, Event::Done);
        let failed = matches!(event, Event::Failed(_));
        match self.phase {
            Phase::Password(_) => matches!(event, Event::CommandFinished(_)),
            Phase::Connecting => failed || matches!(event, Event::Connected { .. }),
            Phase::Polling => match event {
                Event::Message { now, .. } => *now <= u64::MAX - RESIZE_DEBOUNCE,
                Event::Nothing => true,
                Event::Closed => true,
                _ => false,
            },
            Phase::PollingClipboard => {
                matches!(event, Event::Clipboard(_) | Event::Nothing | Event::Closed)
            },
            Phase::Forwarding => matches!(event, Event::Encoded(_)),
            Phase::ReadingClock => matches!(event, Event::Time(_)),
            Phase::Resizing { .. } => failed || matches!(event, Event::Encoded(_)),
            Phase::Reading => matches!(event, Event::Pdu { .. } | Event::ReadFailed { .. }),
            Phase::Inputting | Phase::Processing => failed || matches!(event, Event::Outputs(_)),
            Phase::AskingHint { .. } => matches!(event, Event::Hint(_)),
            Phase::ReadingHinted { .. } => failed || matches!(event, Event::Hinted(_)),
            Phase::Stepping { .. } => failed || matches!(event, Event::Stepped { .. }),
            Phase::CreatingImage { .. }
            | Phase::Announcing
            | Phase::SendingNewFrame
            | Phase::SettingShareId { .. }
            | Phase::SendingFrame
            | Phase::Failing
            | Phase::Ending => done,
            Phase::StartingPolls { .. }
            | Phase::WritingInput
            | Phase::WritingClipboard
            | Phase::WritingResize { .. }
            | Phase::WritingOutput
            | Phase::ClearingTimeout { .. }
            | Phase::WritingStep { .. }
            | Phase::RestoringTimeout(_) => done || failed,
            Phase::Stopped => false,
        }
    }
}

} // verus!
