//! What each step of a session's worker does with what it is given.
use vstd::prelude::*;

use crate::clipboard::ClipboardEvent;
use crate::config::{
    law_inline_login_is_taken_field_by_field, law_linked_login_is_taken_field_by_field,
    CommandOutcome, Config, Server,
};
use crate::connection::StaticChannel;
use crate::input::Operation;
use crate::session::{DisconnectReason, SessionRequest, ToWorker};
use crate::text::trimmed;
use crate::worker::{
    ActionView, Driven, Event, NoticeView, Phase, ReadErrorKind, SequenceState, StageOutput,
    WorkerView,
};
use crate::worker_runs::{lemma_queues, lemma_step};

verus! {

/// Whether two workers differ at most in what they wait for.
pub open spec fn differ_in_phase(a: WorkerView, b: WorkerView) -> bool {
    &&& a.clipboard == b.clipboard
    &&& a.input == b.input
    &&& a.pending_resize == b.pending_resize
    &&& a.resize_deadline == b.resize_deadline
    &&& a.last_sent_size == b.last_sent_size
    &&& a.queue == b.queue
    &&& a.dirty == b.dirty
}

/// A message of the server goes to the protocol as it was read: the same bytes, on the fast path
/// exactly where it came on the fast path.
pub proof fn law_message_is_processed_as_read(worker: WorkerView, fast_path: bool, payload: Vec<u8>)
    requires
        worker.phase is Reading,
    ensures
        ({
            let (next, action) = worker.respond(Event::Pdu { fast_path, payload });
            &&& action matches ActionView::ProcessPdu { fast_path: flag, payload: bytes }
            &&& flag == fast_path
            &&& bytes == payload@
            &&& differ_in_phase(next, worker)
        }),
{
}

/// A read that only found nothing yet leads back to the window, with nothing changed. Any other
/// failure is reported with its cause.
pub proof fn law_quiet_reads_are_no_failures(
    worker: WorkerView,
    kind: ReadErrorKind,
    cause: String,
)
    requires
        worker.phase is Reading,
    ensures
        ({
            let (next, action) = worker.respond(Event::ReadFailed { kind, cause });
            &&& differ_in_phase(next, worker)
            &&& match kind {
                ReadErrorKind::WouldBlock | ReadErrorKind::TimedOut => action is PollUi,
                ReadErrorKind::Other => action == ActionView::Notify(
                    NoticeView::Error("read frame"@ + ": "@ + cause@),
                ),
            }
        }),
{
}

/// A wish of the window for a size that differs in width or in height from the one asked for last
/// is pending right after it, and due 300 milliseconds later. A wish for the size asked for last
/// changes nothing.
pub proof fn law_wish_is_pending(worker: WorkerView, width: u16, height: u16, now: u64)
    requires
        worker.phase is Polling,
        now + 300_000_000 <= u64::MAX,
    ensures
        ({
            let (next, action) = worker.respond(
                Event::Message { message: ToWorker::Resize { width, height }, now },
            );
            &&& action is PollUi
            &&& next.last_sent_size == worker.last_sent_size
            &&& if width != worker.last_sent_size.0 || height != worker.last_sent_size.1 {
                &&& next.pending_resize == Some((width, height))
                &&& next.resize_deadline matches Some(deadline)
                &&& deadline == now + 300_000_000
            } else {
                differ_in_phase(next, worker)
            }
        }),
{
}

/// Once the window has nothing more to say, a pending size is looked at before the server is
/// listened to, and only a pending one. Where the clipboard is shared, its events come first.
pub proof fn law_pending_size_is_looked_at(worker: WorkerView)
    requires
        worker.pending_resize is Some <==> worker.resize_deadline is Some,
    ensures
        worker.phase is Polling ==> {
            let (next, action) = worker.respond(Event::Nothing);
            &&& differ_in_phase(next, worker)
            &&& if worker.clipboard {
                action is PollClipboard
            } else if worker.pending_resize is Some {
                action is ReadClock
            } else {
                action is ReadPdu
            }
        },
        worker.phase is PollingClipboard ==> {
            let (next, action) = worker.respond(Event::Nothing);
            &&& worker.respond(Event::Closed) == worker.respond(Event::Nothing)
            &&& differ_in_phase(next, worker)
            &&& if worker.pending_resize is Some {
                action is ReadClock
            } else {
                action is ReadPdu
            }
        },
{
}

/// A pending size whose time has not come stays pending, and the server is listened to.
pub proof fn law_early_size_waits(worker: WorkerView, now: u64)
    requires
        worker.phase is ReadingClock,
        worker.pending_resize is Some,
        worker.resize_deadline matches Some(deadline) && now < deadline,
    ensures
        worker.respond(Event::Time(now)).1 is ReadPdu,
        differ_in_phase(worker.respond(Event::Time(now)).0, worker),
{
}

/// Every event of the clipboard is forwarded, whichever of the three kinds it is of; what it is
/// encoded to is written to the server, and then comes the next event. Where there is nothing to
/// write, the next event comes at once.
pub proof fn law_clipboard_events_are_forwarded(
    worker: WorkerView,
    event: ClipboardEvent,
    bytes: Vec<u8>,
)
    requires
        worker.phase is PollingClipboard,
    ensures
        ({
            let (forwarding, action) = worker.respond(Event::Clipboard(event));
            let (writing, write) = forwarding.respond(Event::Encoded(Some(bytes)));
            let (polling, poll) = writing.respond(Event::Done);
            let (skipping, skip) = forwarding.respond(Event::Encoded(None));
            &&& action == ActionView::ForwardClipboard(event)
            &&& write == ActionView::Write(bytes@)
            &&& poll is PollClipboard
            &&& polling.phase is PollingClipboard
            &&& skip is PollClipboard
            &&& skipping.phase is PollingClipboard
            &&& differ_in_phase(polling, worker)
            &&& differ_in_phase(skipping, worker)
        }),
{
}

/// Input of the window goes to the protocol as the events for its operations, in order, unless
/// there are none.
pub proof fn law_input_goes_to_the_protocol(
    worker: WorkerView,
    operations: Vec<Operation>,
    now: u64,
)
    requires
        worker.phase is Polling,
        now + 300_000_000 <= u64::MAX,
    ensures
        ({
            let (next, action) = worker.respond(
                Event::Message { message: ToWorker::Input(operations), now },
            );
            &&& next.input == worker.input.after_all(operations@)
            &&& match action {
                ActionView::ProcessInput(events) => {
                    &&& events == worker.input.all_events(operations@)
                    &&& !worker.input.ignores_all(operations@)
                },
                ActionView::PollUi => worker.input.ignores_all(operations@),
                _ => false,
            }
            &&& next.pending_resize == worker.pending_resize
            &&& next.resize_deadline == worker.resize_deadline
            &&& next.last_sent_size == worker.last_sent_size
        }),
{
}

/// Whether the protocol asks for nothing but, perhaps, a new picture.
pub open spec fn is_passed_over(output: StageOutput) -> bool {
    output is GraphicsUpdate || output is Other
}

/// Whether `k` is the place of the first thing to be done at once, or the end.
pub open spec fn is_first_task(queue: Seq<StageOutput>, k: int) -> bool {
    &&& 0 <= k <= queue.len()
    &&& forall|j: int| 0 <= j < k ==> is_passed_over(#[trigger] queue[j])
    &&& k < queue.len() ==> !is_passed_over(queue[k])
}

/// Whether the desktop has changed by the first `k` things that the protocol asks for.
pub open spec fn changes_before(queue: Seq<StageOutput>, k: int) -> bool {
    exists|j: int| 0 <= j < k && #[trigger] queue[j] is GraphicsUpdate
}

/// The text for the end of a session.
pub open spec fn farewell(reason: DisconnectReason) -> Seq<char> {
    match reason {
        DisconnectReason::UserInitiated => "user initiated disconnect"@,
        DisconnectReason::ServerInitiated => "server initiated disconnect"@,
        DisconnectReason::Other(text) => text@,
    }
}

/// What is right to do with a queue whose first task is at `k`.
pub open spec fn does_first_task(
    queue: Seq<StageOutput>,
    dirty: bool,
    k: int,
    next: WorkerView,
    action: ActionView,
) -> bool {
    let changed = dirty || changes_before(queue, k);
    if k == queue.len() {
        &&& next.queue.len() == 0
        &&& !next.dirty
        &&& if changed {
            action is SendFrame
        } else {
            action is PollUi
        }
    } else {
        &&& next.queue == queue.skip(k + 1)
        &&& next.dirty == changed
        &&& match queue[k] {
            StageOutput::ResponseFrame(frame) => {
                &&& action == ActionView::Write(frame@)
                &&& next.phase is WritingOutput
            },
            StageOutput::DeactivateAll(sequence) => {
                &&& action == ActionView::SetReadTimeout(None)
                &&& next.phase == Phase::ClearingTimeout { sequence }
            },
            StageOutput::Terminate(reason) => {
                &&& action == ActionView::Notify(NoticeView::Disconnected(farewell(reason)))
                &&& next.phase is Ending
            },
            _ => false,
        }
    }
}

proof fn lemma_first_task(worker: WorkerView, k: int)
    requires
        is_first_task(worker.queue, k),
    ensures
        does_first_task(
            worker.queue,
            worker.dirty,
            k,
            worker.next_output().0,
            worker.next_output().1,
        ),
    decreases k,
{
    let queue = worker.queue;
    if k > 0 {
        assert(is_passed_over(queue[0]));
        let rest = WorkerView {
            queue: queue.skip(1),
            dirty: worker.dirty || queue[0] is GraphicsUpdate,
            ..worker
        };
        assert forall|j: int| 0 <= j < k - 1 implies is_passed_over(#[trigger] rest.queue[j]) by {
            assert(is_passed_over(queue[j + 1]));
        }
        lemma_first_task(rest, k - 1);
        if k < queue.len() {
            assert(rest.queue.skip(k) =~= queue.skip(k + 1));
        }
        if changes_before(queue, k) && !(queue[0] is GraphicsUpdate) {
            let j = choose|j: int| 0 <= j < k && #[trigger] queue[j] is GraphicsUpdate;
            assert(rest.queue[j - 1] is GraphicsUpdate);
        }
        if changes_before(rest.queue, k - 1) {
            let j = choose|j: int| 0 <= j < k - 1 && #[trigger] rest.queue[j] is GraphicsUpdate;
            assert(queue[j + 1] is GraphicsUpdate);
        }
        assert(worker.next_output() == rest.next_output());
    } else {
        assert(!changes_before(queue, 0));
    }
}

/// What the protocol asks for after a message of the server is done in order: frames are written,
/// activation sequences driven and an end reported; in between, changes of the desktop are only
/// remembered. When nothing is left, the picture goes to the window where it has changed.
pub proof fn law_protocol_is_obeyed_in_order(
    worker: WorkerView,
    outputs: Vec<StageOutput>,
    k: int,
)
    ensures
        worker.phase is Processing && is_first_task(outputs@, k) ==> does_first_task(
            outputs@,
            false,
            k,
            worker.respond(Event::Outputs(outputs)).0,
            worker.respond(Event::Outputs(outputs)).1,
        ),
        (worker.phase is WritingOutput || worker.phase is SendingNewFrame || worker.phase
            == Phase::RestoringTimeout(Driven::Ended)) && is_first_task(worker.queue, k)
            ==> does_first_task(
            worker.queue,
            worker.dirty,
            k,
            worker.respond(Event::Done).0,
            worker.respond(Event::Done).1,
        ),
{
    if is_first_task(outputs@, k) {
        lemma_first_task(WorkerView { queue: outputs@, dirty: false, ..worker }, k);
    }
    if is_first_task(worker.queue, k) {
        lemma_first_task(worker, k);
    }
}

/// Whether `k` is the place of the first frame, or the end.
pub open spec fn is_first_frame(queue: Seq<StageOutput>, k: int) -> bool {
    &&& 0 <= k <= queue.len()
    &&& forall|j: int| 0 <= j < k ==> !(#[trigger] queue[j] is ResponseFrame)
    &&& k < queue.len() ==> queue[k] is ResponseFrame
}

/// What is right to do with the answers to input whose first frame is at `k`.
pub open spec fn writes_first_frame(
    queue: Seq<StageOutput>,
    k: int,
    next: WorkerView,
    action: ActionView,
) -> bool {
    if k == queue.len() {
        &&& action is PollUi
        &&& next.queue.len() == 0
    } else {
        &&& action == ActionView::Write(queue[k]->ResponseFrame_0@)
        &&& next.queue == queue.skip(k + 1)
        &&& next.phase is WritingInput
    }
}

proof fn lemma_first_frame(worker: WorkerView, k: int)
    requires
        is_first_frame(worker.queue, k),
    ensures
        writes_first_frame(worker.queue, k, worker.next_input().0, worker.next_input().1),
    decreases k,
{
    let queue = worker.queue;
    if k > 0 {
        assert(!(queue[0] is ResponseFrame));
        let rest = WorkerView { queue: queue.skip(1), ..worker };
        assert forall|j: int| 0 <= j < k - 1 implies !(#[trigger] rest.queue[j] is ResponseFrame) by {
            assert(!(queue[j + 1] is ResponseFrame));
        }
        lemma_first_frame(rest, k - 1);
        if k < queue.len() {
            assert(rest.queue.skip(k) =~= queue.skip(k + 1));
        }
        assert(worker.next_input() == rest.next_input());
    }
}

/// Every frame that the protocol makes of input is written, in order, before the window is asked
/// again.
pub proof fn law_input_is_answered_in_order(
    worker: WorkerView,
    outputs: Vec<StageOutput>,
    k: int,
)
    ensures
        worker.phase is Inputting && is_first_frame(outputs@, k) ==> writes_first_frame(
            outputs@,
            k,
            worker.respond(Event::Outputs(outputs)).0,
            worker.respond(Event::Outputs(outputs)).1,
        ),
        worker.phase is WritingInput && is_first_frame(worker.queue, k) ==> writes_first_frame(
            worker.queue,
            k,
            worker.respond(Event::Done).0,
            worker.respond(Event::Done).1,
        ),
{
    if is_first_frame(outputs@, k) {
        lemma_first_frame(WorkerView { queue: outputs@, ..worker }, k);
    }
    if is_first_frame(worker.queue, k) {
        lemma_first_frame(worker, k);
    }
}

/// An activation sequence is driven under the number that the protocol gave it: it gets the
/// message that it waits for, and none where it waits for none; what it has to send is sent before
/// it goes on.
pub proof fn law_activation_sequence_is_driven(
    worker: WorkerView,
    sequence: u64,
    payload: Vec<u8>,
    written: Vec<u8>,
    state: SequenceState,
)
    ensures
        worker.phase == (Phase::ClearingTimeout { sequence }) ==> {
            let (next, action) = worker.respond(Event::Done);
            &&& action == ActionView::AskHint(sequence)
            &&& next.phase == (Phase::AskingHint { sequence })
            &&& differ_in_phase(next, worker)
        },
        worker.phase == (Phase::AskingHint { sequence }) ==> {
            let (reading, read) = worker.respond(Event::Hint(true));
            let (feeding, feed) = reading.respond(Event::Hinted(payload));
            let (stepping, go) = worker.respond(Event::Hint(false));
            &&& read == ActionView::ReadHinted(sequence)
            &&& feed == ActionView::StepWith(sequence, payload@)
            &&& feeding.phase == (Phase::Stepping { sequence })
            &&& differ_in_phase(feeding, worker)
            &&& go == ActionView::StepWithout(sequence)
            &&& stepping.phase == (Phase::Stepping { sequence })
            &&& differ_in_phase(stepping, worker)
        },
        worker.phase == (Phase::Stepping { sequence }) ==> {
            let (writing, write) = worker.respond(
                Event::Stepped { written: Some(written), state },
            );
            let silent = worker.respond(Event::Stepped { written: None, state });
            &&& write == ActionView::Write(written@)
            &&& writing.respond(Event::Done) == silent
            &&& differ_in_phase(silent.0, worker)
            &&& state is Ongoing ==> silent.1 == ActionView::AskHint(sequence)
            &&& !(state is Ongoing) ==> silent.1 == ActionView::SetReadTimeout(Some(16u64))
        },
{
}

/// An activation sequence that comes to its end brings a new share and a new desktop: reads get
/// their timeout of 16 milliseconds back, the new share identifier is used, a blank picture of the
/// new size is made, and the window is told of that size and gets the picture.
pub proof fn law_finished_activation_is_taken_over(
    worker: WorkerView,
    share_id: u32,
    width: u16,
    height: u16,
)
    requires
        worker.phase is Stepping,
    ensures
        ({
            let state = SequenceState::Finalized { share_id, width, height };
            let (restoring, restore) = worker.respond(Event::Stepped { written: None, state });
            let (sharing, share) = restoring.respond(Event::Done);
            let (creating, create) = sharing.respond(Event::Done);
            let (announcing, announce) = creating.respond(Event::Done);
            let (sending, send) = announcing.respond(Event::Done);
            &&& restore == ActionView::SetReadTimeout(Some(16u64))
            &&& share == ActionView::SetShareId(share_id)
            &&& create == (ActionView::NewImage { width, height })
            &&& announce == ActionView::Notify(NoticeView::Connected { width, height })
            &&& send is SendFrame
            &&& sending.phase is SendingNewFrame
            &&& sending.last_sent_size == (width, height)
            &&& sending.queue == worker.queue
            &&& sending.dirty == worker.dirty
            &&& sending.input == worker.input
            &&& sending.pending_resize == worker.pending_resize
            &&& sending.resize_deadline == worker.resize_deadline
        }),
{
}

/// A connection that stands opens the session: reads get a timeout of 16 milliseconds, a blank
/// picture of the negotiated size is made, and the window is told of that size, gets the picture
/// and is listened to.
pub proof fn law_connection_opens_the_session(worker: WorkerView, width: u16, height: u16)
    requires
        worker.phase is Connecting,
        worker.queue.len() == 0,
        !worker.dirty,
    ensures
        ({
            let (setting, set) = worker.respond(Event::Connected { width, height });
            let (creating, create) = setting.respond(Event::Done);
            let (announcing, announce) = creating.respond(Event::Done);
            let (sending, send) = announcing.respond(Event::Done);
            let (polling, poll) = sending.respond(Event::Done);
            &&& set == ActionView::SetReadTimeout(Some(16u64))
            &&& create == (ActionView::NewImage { width, height })
            &&& announce == ActionView::Notify(NoticeView::Connected { width, height })
            &&& send is SendFrame
            &&& poll is PollUi
            &&& polling.phase is Polling
            &&& polling.last_sent_size == (width, height)
            &&& polling.input == worker.input
            &&& polling.clipboard == worker.clipboard
        }),
{
}

/// The size that counts as asked for is the one last negotiated or last asked for in full: it
/// changes with a new picture and with a written request, and with nothing else.
pub proof fn law_size_that_counts_as_asked_for(worker: WorkerView, event: Event)
    requires
        worker.expects(event),
    ensures
        ({
            let (next, action) = worker.respond(event);
            match (action, worker.phase, event) {
                (ActionView::NewImage { width, height }, _, _) => next.last_sent_size == (
                    width,
                    height,
                ),
                (_, Phase::WritingResize { width, height }, Event::Done) => next.last_sent_size
                    == (width, height),
                _ => next.last_sent_size == worker.last_sent_size,
            }
        }),
{
    lemma_queues(worker, event);
}

/// A pending size stays pending, and due when it was due, until it is asked for or the window
/// wishes for another one.
pub proof fn law_pending_size_stays(worker: WorkerView, event: Event)
    requires
        worker.expects(event),
        !(event matches Event::Message { message: ToWorker::Resize { .. }, .. }),
        !(worker.respond(event).1 is EncodeResize),
    ensures
        worker.respond(event).0.pending_resize == worker.pending_resize,
        worker.respond(event).0.resize_deadline == worker.resize_deadline,
{
    lemma_step(worker, event);
}

/// Whether a session shares the clipboard is settled at its start.
pub proof fn law_clipboard_setting_stays(worker: WorkerView, event: Event)
    requires
        worker.expects(event),
    ensures
        worker.respond(event).0.clipboard == worker.clipboard,
{
    lemma_step(worker, event);
}

/// Whether an event can be what comes of an action.
pub open spec fn answers(action: ActionView, reply: Event) -> bool {
    match action {
        ActionView::RunCommand(_) => reply is CommandFinished,
        ActionView::Connect(_) => reply is Connected || reply is Failed,
        ActionView::SetReadTimeout(_) | ActionView::Write(_) => reply is Done || reply is Failed,
        ActionView::NewImage { .. }
        | ActionView::Notify(_)
        | ActionView::SendFrame
        | ActionView::SetShareId(_) => reply is Done,
        ActionView::PollUi => match reply {
            Event::Message { now, .. } => now + 300_000_000 <= u64::MAX,
            Event::Nothing | Event::Closed => true,
            _ => false,
        },
        ActionView::ProcessInput(_) | ActionView::ProcessPdu { .. } => reply is Outputs
            || reply is Failed,
        ActionView::PollClipboard => reply is Clipboard || reply is Nothing || reply is Closed,
        ActionView::ForwardClipboard(_) => reply is Encoded,
        ActionView::ReadClock => reply is Time,
        ActionView::EncodeResize(_, _) => reply is Encoded || reply is Failed,
        ActionView::ReadPdu => reply is Pdu || reply is ReadFailed,
        ActionView::AskHint(_) => reply is Hint,
        ActionView::ReadHinted(_) => reply is Hinted || reply is Failed,
        ActionView::StepWith(_, _) | ActionView::StepWithout(_) => reply is Stepped
            || reply is Failed,
        ActionView::Stop => false,
    }
}

/// The worker is ready for everything that can come of what it does, at the start and after every
/// step, and for nothing else.
pub proof fn law_every_reply_is_expected(
    request: SessionRequest,
    worker: WorkerView,
    event: Event,
    reply: Event,
)
    ensures
        WorkerView::starting(request).0.expects(reply) == answers(
            WorkerView::starting(request).1,
            reply,
        ),
        worker.expects(event) ==> worker.respond(event).0.expects(reply) == answers(
            worker.respond(event).1,
            reply,
        ),
{
    if worker.expects(event) {
        lemma_queues(worker, event);
    }
}

/// The cause of a failure reaches the window: as it is, or behind the name of the step where a
/// change of the read timeout has failed. A failed activation sequence is reported once reads have
/// their timeout back.
pub proof fn law_causes_are_reported(worker: WorkerView, cause: String)
    requires
        worker.expects(Event::Failed(cause)),
    ensures
        ({
            let (next, action) = worker.respond(Event::Failed(cause));
            match worker.phase {
                Phase::StartingPolls { .. }
                | Phase::ClearingTimeout { .. }
                | Phase::RestoringTimeout(_) => action == ActionView::Notify(
                    NoticeView::Error("set_read_timeout"@ + ": "@ + cause@),
                ),
                Phase::ReadingHinted { .. }
                | Phase::Stepping { .. }
                | Phase::WritingStep { .. } => {
                    &&& action == ActionView::SetReadTimeout(Some(16u64))
                    &&& next.respond(Event::Done).1 == ActionView::Notify(
                        NoticeView::Error(cause@),
                    )
                },
                _ => action == ActionView::Notify(NoticeView::Error(cause@)),
            }
        }),
{
}

/// Whether an action connects to the server of a request, under its user name and domain and the
/// given password, with the desktop size that it asks for and the channels that it needs.
pub open spec fn connects(action: ActionView, request: SessionRequest, password: Seq<char>) -> bool {
    &&& action matches ActionView::Connect(connection)
    &&& connection.username == request.username@
    &&& connection.password == password
    &&& connection.domain is None <==> request.domain@.len() == 0
    &&& connection.domain matches Some(domain) ==> domain == request.domain@
    &&& connection.width == request.width
    &&& connection.height == request.height
    &&& connection.has_fixed_settings
    &&& connection.host == request.server.host@
    &&& connection.port == request.server.port
    &&& connection.channels.contains(StaticChannel::DynamicChannels)
    &&& connection.channels.contains(StaticChannel::Clipboard) <==> request.clipboard_passthrough
    &&& connection.channels.no_duplicates()
}

/// A session connects as it was asked to. A password field that starts with `cmd:` holds a command,
/// and what that prints, without the white space around it, is the password; any other field is the
/// password itself.
pub proof fn law_session_connects_as_asked(
    request: SessionRequest,
    command: Seq<char>,
    output: String,
)
    ensures
        request.password@ == "cmd:"@ + command ==> {
            let (worker, action) = WorkerView::starting(request);
            let outcome = Event::CommandFinished(CommandOutcome::Succeeded(output));
            &&& action == ActionView::RunCommand(command)
            &&& connects(worker.respond(outcome).1, request, trimmed(output@))
        },
        !("cmd:"@.is_prefix_of(request.password@)) ==> connects(
            WorkerView::starting(request).1,
            request,
            request.password@,
        ),
{
    let worker = WorkerView::starting(request).0;
    let with = seq![StaticChannel::DynamicChannels, StaticChannel::Clipboard];
    let without = seq![StaticChannel::DynamicChannels];
    assert(with[0] == StaticChannel::DynamicChannels && with[1] == StaticChannel::Clipboard);
    assert(without[0] == StaticChannel::DynamicChannels);
    if request.password@ == "cmd:"@ + command {
        assert("cmd:"@.is_prefix_of(request.password@)) by {
            assert(request.password@.subrange(0, "cmd:"@.len() as int) =~= "cmd:"@);
        }
        assert(request.password@.skip("cmd:"@.len() as int) =~= command);
    }
}

/// A password command that fails ends the session with its reason; nothing is connected.
pub proof fn law_failed_command_is_reported(request: SessionRequest, reason: String)
    requires
        "cmd:"@.is_prefix_of(request.password@),
    ensures
        WorkerView::starting(request).0.respond(
            Event::CommandFinished(CommandOutcome::Failed(reason)),
        ).1 == ActionView::Notify(NoticeView::Error("password command failed: "@ + reason@)),
{
}

/// A session starts with nothing pressed, nothing pending and nothing left to do.
pub proof fn law_session_starts_clean(request: SessionRequest)
    ensures
        ({
            let worker = WorkerView::starting(request).0;
            &&& worker.clipboard == request.clipboard_passthrough
            &&& worker.input.keys == Set::<(bool, u8)>::empty()
            &&& worker.input.characters == Set::<char>::empty()
            &&& worker.input.buttons.is_empty()
            &&& worker.input.pointer.x == 0 && worker.input.pointer.y == 0
            &&& worker.pending_resize is None
            &&& worker.resize_deadline is None
            &&& worker.queue.len() == 0
            &&& !worker.dirty
        }),
{
}

/// A session with a server that is linked to a credential uses the fields of that credential,
/// character for character. Where its password field holds a command, the session starts with
/// that command.
pub proof fn law_linked_credential_starts_the_session(
    config: Config,
    server: Server,
    size: (u16, u16),
    request: SessionRequest,
    i: int,
)
    requires
        request.is_for(config, server, size),
        0 <= i < config.credentials@.len(),
        server.credential_id is Some,
        config.credentials@[i].id@ == server.credential_id->0@,
        forall|j: int|
            0 <= j < i ==> #[trigger] config.credentials@[j].id@ != server.credential_id->0@,
    ensures
        request.username@ == config.credentials@[i].username@,
        request.password@ == config.credentials@[i].password@,
        request.domain@ == config.credentials@[i].domain@,
        request.server == server,
        request.clipboard_passthrough == config.clipboard_passthrough,
        request.width == size.0,
        request.height == size.1,
        forall|command: Seq<char>|
            config.credentials@[i].password@ == #[trigger] ("cmd:"@ + command)
                ==> WorkerView::starting(request).1 == ActionView::RunCommand(command),
{
    law_linked_login_is_taken_field_by_field(config, server, i);
    assert forall|command: Seq<char>|
        config.credentials@[i].password@ == #[trigger] ("cmd:"@ + command) implies WorkerView::starting(
        request,
    ).1 == ActionView::RunCommand(command) by {
        assert(request.password@.subrange(0, "cmd:"@.len() as int) =~= "cmd:"@);
        assert(request.password@.skip("cmd:"@.len() as int) =~= command);
    }
}

/// A session with a server of its own login uses the fields of the server entry, character for
/// character.
pub proof fn law_inline_login_starts_the_session(
    config: Config,
    server: Server,
    size: (u16, u16),
    request: SessionRequest,
)
    requires
        request.is_for(config, server, size),
        server.credential_id is Some ==> forall|j: int|
            0 <= j < config.credentials@.len() ==> #[trigger] config.credentials@[j].id@
                != server.credential_id->0@,
    ensures
        request.username@ == server.username@,
        request.password@ == server.password@,
        request.domain@ == server.domain@,
        request.server == server,
        request.clipboard_passthrough == config.clipboard_passthrough,
        request.width == size.0,
        request.height == size.1,
{
    law_inline_login_is_taken_field_by_field(config, server);
}

/// After the picture has gone out, the window is listened to; after a written request for a size,
/// the server. A notice of the end or of an error is the last thing that happens.
pub proof fn law_session_goes_on_or_stops(worker: WorkerView)
    ensures
        worker.phase is SendingFrame ==> {
            let (next, action) = worker.respond(Event::Done);
            &&& action is PollUi
            &&& differ_in_phase(next, worker)
        },
        worker.phase is WritingResize ==> worker.respond(Event::Done).1 is ReadPdu,
        worker.phase is Failing || worker.phase is Ending ==> worker.respond(Event::Done).1 is Stop,
        worker.phase is Polling ==> worker.respond(Event::Closed).1 is Stop,
{
}

} // verus!
