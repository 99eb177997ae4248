//! What holds of every run of a session's worker.
use ironrdp_session::image::DecodedImage;
use vstd::prelude::*;

use crate::config::{command_failure_text, command_prefix, CommandOutcome};
use crate::desktop::{adjusted_size, is_valid_size};
use crate::picture::{image_size, is_frame_of, picture_len};
use crate::session::{SessionRequest, ToUi, ToWorker};
use crate::text::trimmed;
use crate::window::TabView;
use crate::worker::{
    notice_view, ActionView, Driven, Event, NoticeView, Phase, SequenceState, StageOutput,
    WorkerView, POLL_TIMEOUT, RESIZE_DEBOUNCE,
};

verus! {

/// A run of a worker: where it stood and what it did at the start and after each event.
pub struct Run {
    pub workers: Seq<WorkerView>,
    pub actions: Seq<ActionView>,
    pub events: Seq<Event>,
}

impl Run {
    /// Whether this is a run of a session that was started with `request`.
    pub open spec fn is_of(self, request: SessionRequest) -> bool {
        &&& self.workers.len() == self.events.len() + 1
        &&& self.actions.len() == self.events.len() + 1
        &&& (self.workers[0], self.actions[0]) == WorkerView::starting(request)
        &&& forall|i: int| 0 <= i < self.events.len() ==> #[trigger] self.takes_step(i)
    }

    /// Whether step `i` is one that the worker takes.
    pub open spec fn takes_step(self, i: int) -> bool {
        &&& self.workers[i].expects(self.events[i])
        &&& (self.workers[i + 1], self.actions[i + 1]) == self.workers[i].respond(self.events[i])
    }

    /// Whether event `i` is a wish of the window for another size than the one that was asked for
    /// last.
    pub open spec fn is_wish(self, i: int) -> bool {
        match self.events[i] {
            Event::Message { message: ToWorker::Resize { width, height }, .. } => (width, height)
                != self.workers[i].last_sent_size,
            _ => false,
        }
    }

    /// Whether event `i` is the wish for `size` at the time `now`, and no wish follows it before
    /// event `n`.
    pub open spec fn is_last_wish(self, i: int, n: int, size: (u16, u16), now: u64) -> bool {
        &&& 0 <= i < n
        &&& self.is_wish(i)
        &&& self.events[i] == (Event::Message {
            message: ToWorker::Resize { width: size.0, height: size.1 },
            now,
        })
        &&& forall|j: int| i < j < n ==> !#[trigger] self.is_wish(j)
    }

    /// The read timeout after the first `n` actions: the last one that was set, and at first none.
    pub open spec fn read_timeout(self, n: nat) -> Option<u64>
        decreases n,
    {
        if n == 0 {
            None
        } else {
            match self.actions[n - 1] {
                ActionView::SetReadTimeout(timeout) => timeout,
                _ => self.read_timeout((n - 1) as nat),
            }
        }
    }
}

impl Run {
    /// The size in the last notice of a connection among the first `n` actions.
    pub open spec fn announced_size(self, n: nat) -> Option<(u16, u16)>
        decreases n,
    {
        if n == 0 {
            None
        } else {
            match self.actions[n - 1] {
                ActionView::Notify(NoticeView::Connected { width, height }) => Some(
                    (width, height),
                ),
                _ => self.announced_size((n - 1) as nat),
            }
        }
    }

    /// The size of the last new picture among the first `n` actions.
    pub open spec fn picture_size(self, n: nat) -> Option<(u16, u16)>
        decreases n,
    {
        if n == 0 {
            None
        } else {
            match self.actions[n - 1] {
                ActionView::NewImage { width, height } => Some((width, height)),
                _ => self.picture_size((n - 1) as nat),
            }
        }
    }

    /// The size that the server has set last, by the connection or by an activation sequence that
    /// came to its end, among the first `n` events.
    pub open spec fn negotiated_size(self, n: nat) -> Option<(u16, u16)>
        decreases n,
    {
        if n == 0 {
            None
        } else {
            match self.events[n - 1] {
                Event::Connected { width, height } => Some((width, height)),
                Event::Stepped {
                    state: SequenceState::Finalized { width, height, .. },
                    ..
                } => Some((width, height)),
                _ => self.negotiated_size((n - 1) as nat),
            }
        }
    }
}

/// The frames for the server among what the protocol asks for.
pub open spec fn frames_of(outputs: Seq<StageOutput>) -> Seq<Seq<u8>>
    decreases outputs.len(),
{
    if outputs.len() == 0 {
        Seq::empty()
    } else {
        match outputs[0] {
            StageOutput::ResponseFrame(frame) => seq![frame@] + frames_of(outputs.skip(1)),
            _ => frames_of(outputs.skip(1)),
        }
    }
}

/// Whether two workers differ at most in the phase, the queue and whether there is a new picture.
pub open spec fn same_session(a: WorkerView, b: WorkerView) -> bool {
    &&& a.clipboard == b.clipboard
    &&& a.input == b.input
    &&& a.pending_resize == b.pending_resize
    &&& a.resize_deadline == b.resize_deadline
    &&& a.last_sent_size == b.last_sent_size
}

/// What going on after input does.
pub open spec fn goes_on_after_input(worker: WorkerView) -> bool {
    let (next, action) = worker.next_input();
    &&& same_session(next, worker)
    &&& next.dirty == worker.dirty
    &&& match action {
        ActionView::Write(frame) => {
            &&& next.phase == Phase::WritingInput
            &&& frames_of(worker.queue) == seq![frame] + frames_of(next.queue)
        },
        ActionView::PollUi => {
            &&& next.phase == Phase::Polling
            &&& next.queue.len() == 0
            &&& frames_of(worker.queue).len() == 0
        },
        _ => false,
    }
}

proof fn lemma_next_input(worker: WorkerView)
    ensures
        goes_on_after_input(worker),
    decreases worker.queue.len(),
{
    if worker.queue.len() > 0 {
        lemma_next_input(WorkerView { queue: worker.queue.skip(1), ..worker });
    }
}

/// What going on after a message of the server does.
pub open spec fn goes_on_after_output(worker: WorkerView) -> bool {
    let (next, action) = worker.next_output();
    &&& same_session(next, worker)
    &&& match action {
        ActionView::Write(frame) => {
            &&& next.phase == Phase::WritingOutput
            &&& frames_of(worker.queue) == seq![frame] + frames_of(next.queue)
        },
        ActionView::SetReadTimeout(timeout) => {
            &&& timeout is None
            &&& next.phase is ClearingTimeout
            &&& frames_of(worker.queue) == frames_of(next.queue)
        },
        ActionView::Notify(NoticeView::Disconnected(_)) => next.phase == Phase::Ending,
        ActionView::SendFrame => {
            &&& next.phase == Phase::SendingFrame
            &&& next.queue.len() == 0
            &&& !next.dirty
            &&& frames_of(worker.queue).len() == 0
        },
        ActionView::PollUi => {
            &&& next.phase == Phase::Polling
            &&& next.queue.len() == 0
            &&& !next.dirty
            &&& frames_of(worker.queue).len() == 0
        },
        _ => false,
    }
}

proof fn lemma_next_output(worker: WorkerView)
    ensures
        goes_on_after_output(worker),
    decreases worker.queue.len(),
{
    if worker.queue.len() > 0 {
        let rest = WorkerView { queue: worker.queue.skip(1), ..worker };
        lemma_next_output(rest);
        lemma_next_output(WorkerView { dirty: true, ..rest });
    }
}

/// What going on does in any step, with the queue as it is or as the event fills it.
pub(crate) proof fn lemma_queues(worker: WorkerView, event: Event)
    ensures
        goes_on_after_input(worker),
        goes_on_after_output(worker),
        event matches Event::Outputs(outputs) ==> {
            &&& goes_on_after_input(WorkerView { queue: outputs@, ..worker })
            &&& goes_on_after_output(WorkerView { queue: outputs@, dirty: false, ..worker })
        },
{
    lemma_next_input(worker);
    lemma_next_output(worker);
    if let Event::Outputs(outputs) = event {
        lemma_next_input(WorkerView { queue: outputs@, ..worker });
        lemma_next_output(WorkerView { queue: outputs@, dirty: false, ..worker });
    }
}

/// Whether an activation sequence is under way.
pub open spec fn in_sequence(phase: Phase) -> bool {
    match phase {
        Phase::ClearingTimeout { .. } => true,
        Phase::AskingHint { .. } => true,
        Phase::ReadingHinted { .. } => true,
        Phase::Stepping { .. } => true,
        Phase::WritingStep { .. } => true,
        _ => false,
    }
}

/// Whether the session is connected and goes on, outside any activation sequence.
pub open spec fn is_polling(phase: Phase) -> bool {
    match phase {
        Phase::Password(_) => false,
        Phase::Connecting => false,
        Phase::Failing => false,
        Phase::Ending => false,
        Phase::Stopped => false,
        _ => !in_sequence(phase),
    }
}

/// Whether nothing that the protocol has asked for is left undone.
spec fn is_idle(phase: Phase) -> bool {
    match phase {
        Phase::Polling => true,
        Phase::Inputting => true,
        Phase::PollingClipboard => true,
        Phase::Forwarding => true,
        Phase::WritingClipboard => true,
        Phase::ReadingClock => true,
        Phase::Resizing { .. } => true,
        Phase::WritingResize { .. } => true,
        Phase::Reading => true,
        Phase::Processing => true,
        Phase::SendingFrame => true,
        _ => false,
    }
}

/// Whether the events of the clipboard are being handled.
pub open spec fn at_clipboard(phase: Phase) -> bool {
    match phase {
        Phase::PollingClipboard => true,
        Phase::Forwarding => true,
        Phase::WritingClipboard => true,
        _ => false,
    }
}

/// What one step does to each part of a worker.
pub(crate) proof fn lemma_step(worker: WorkerView, event: Event)
    requires
        worker.expects(event),
    ensures
        ({
            let (next, action) = worker.respond(event);
            &&& next.clipboard == worker.clipboard
            &&& next.input == match event {
                Event::Message { message: ToWorker::Input(operations), .. } => {
                    worker.input.after_all(operations@)
                },
                _ => worker.input,
            }
            &&& match (event, action) {
                (Event::Message { message: ToWorker::Resize { width, height }, now }, _) => {
                    &&& !(action is EncodeResize)
                    &&& next.pending_resize == worker.wishing(width, height, now).pending_resize
                    &&& next.resize_deadline == worker.wishing(width, height, now).resize_deadline
                },
                (_, ActionView::EncodeResize(width, height)) => {
                    &&& worker.pending_resize matches Some(size)
                    &&& worker.resize_deadline matches Some(deadline)
                    &&& event matches Event::Time(now)
                    &&& now >= deadline
                    &&& (width, height) == adjusted_size(size.0 as u32, size.1 as u32)
                    &&& next.pending_resize is None
                    &&& next.resize_deadline is None
                },
                _ => {
                    &&& next.pending_resize == worker.pending_resize
                    &&& next.resize_deadline == worker.resize_deadline
                },
            }
            &&& match action {
                ActionView::SetReadTimeout(timeout) => if in_sequence(next.phase) {
                    timeout is None
                } else {
                    timeout == Some(POLL_TIMEOUT)
                },
                _ => {
                    &&& in_sequence(next.phase) ==> in_sequence(worker.phase)
                    &&& is_polling(next.phase) ==> is_polling(worker.phase)
                },
            }
            &&& action is ReadPdu ==> next.phase is Reading
            &&& action is ReadHinted ==> next.phase is ReadingHinted
            &&& action is PollUi ==> next.phase is Polling
            &&& action is PollClipboard || action is ForwardClipboard ==> at_clipboard(next.phase)
            &&& at_clipboard(next.phase) ==> worker.clipboard || at_clipboard(worker.phase)
        }),
{
    lemma_queues(worker, event);
}

/// A step away from where nothing is left undone leads there again, unless it leads into the
/// queue.
proof fn lemma_idle_step(worker: WorkerView, event: Event)
    requires
        worker.expects(event),
        is_idle(worker.phase) ==> worker.queue.len() == 0 && !worker.dirty,
        worker.phase is WritingInput ==> !worker.dirty,
    ensures
        ({
            let next = worker.respond(event).0;
            &&& is_idle(next.phase) ==> next.queue.len() == 0 && !next.dirty
            &&& next.phase is WritingInput ==> !next.dirty
        }),
{
    lemma_queues(worker, event);
}

/// A size that is asked of the server is one that the protocol allows: both sides between 200 and
/// 8192, and an even width.
pub proof fn law_requested_sizes_are_valid(worker: WorkerView, event: Event)
    requires
        worker.expects(event),
    ensures
        match worker.respond(event).1 {
            ActionView::EncodeResize(width, height) => is_valid_size(width as int, height as int),
            _ => true,
        },
{
    lemma_step(worker, event);
}

/// The server is told of a key, a button or the pointer exactly where the window sends input: no
/// other event changes what the worker takes to be pressed.
pub proof fn law_only_input_changes_the_input_state(worker: WorkerView, event: Event)
    requires
        worker.expects(event),
    ensures
        worker.respond(event).0.input == match event {
            Event::Message { message: ToWorker::Input(operations), .. } => {
                worker.input.after_all(operations@)
            },
            _ => worker.input,
        },
        worker.respond(event).1 is ProcessInput ==> event matches Event::Message {
            message: ToWorker::Input(_),
            ..
        },
{
    lemma_step(worker, event);
    lemma_queues(worker, event);
}

proof fn lemma_pending_resize(run: Run, request: SessionRequest, n: int)
    requires
        run.is_of(request),
        0 <= n <= run.events.len(),
    ensures
        run.workers[n].pending_resize is Some <==> run.workers[n].resize_deadline is Some,
        match (run.workers[n].pending_resize, run.workers[n].resize_deadline) {
            (Some(size), Some(deadline)) => exists|i: int, now: u64|
                now + RESIZE_DEBOUNCE == deadline && #[trigger] run.is_last_wish(i, n, size, now),
            _ => true,
        },
    decreases n,
{
    if n > 0 {
        lemma_pending_resize(run, request, n - 1);
        assert(run.takes_step(n - 1));
        let before = run.workers[n - 1];
        let after = run.workers[n];
        lemma_step(before, run.events[n - 1]);
        if run.is_wish(n - 1) {
            match run.events[n - 1] {
                Event::Message { message: ToWorker::Resize { width, height }, now } => {
                    assert(now + RESIZE_DEBOUNCE == after.resize_deadline->0);
                    assert(run.is_last_wish(n - 1, n, after.pending_resize->0, now));
                },
                _ => {},
            }
        } else if after.pending_resize is Some {
            assert(after.pending_resize == before.pending_resize);
            assert(after.resize_deadline == before.resize_deadline);
            let size = before.pending_resize->0;
            let deadline = before.resize_deadline->0;
            let (i, now) = choose|i: int, now: u64|
                now + RESIZE_DEBOUNCE == deadline && #[trigger] run.is_last_wish(
                    i,
                    n - 1,
                    size,
                    now,
                );
            assert(run.is_last_wish(i, n, size, now));
        }
    }
}

/// A size goes to the server only after the window has wished for it and then, for the debounce
/// interval, for no other: whenever a size is asked for, it is that of the last wish, and the
/// clock shows at least the time of that wish and the interval.
pub proof fn law_resizes_are_debounced(run: Run, request: SessionRequest, n: int)
    requires
        run.is_of(request),
        0 <= n < run.events.len(),
        run.actions[n + 1] is EncodeResize,
    ensures
        exists|i: int, size: (u16, u16), now: u64|
            {
                &&& #[trigger] run.is_last_wish(i, n, size, now)
                &&& run.actions[n + 1] == ActionView::EncodeResize(
                    adjusted_size(size.0 as u32, size.1 as u32).0,
                    adjusted_size(size.0 as u32, size.1 as u32).1,
                )
                &&& run.events[n] matches Event::Time(clock)
                &&& clock >= now + RESIZE_DEBOUNCE
            },
{
    assert(run.takes_step(n));
    lemma_step(run.workers[n], run.events[n]);
    lemma_pending_resize(run, request, n);
    let size = run.workers[n].pending_resize->0;
    let deadline = run.workers[n].resize_deadline->0;
    let (i, now) = choose|i: int, now: u64|
        now + RESIZE_DEBOUNCE == deadline && #[trigger] run.is_last_wish(i, n, size, now);
    assert(run.is_last_wish(i, n, size, now));
}

/// A wish that is due is asked for, and once the request is written it counts as asked.
pub proof fn law_due_size_is_requested(worker: WorkerView, now: u64, bytes: Vec<u8>)
    requires
        worker.phase is ReadingClock,
        worker.pending_resize matches Some(_),
        worker.resize_deadline matches Some(deadline) && now >= deadline,
    ensures
        ({
            let size = worker.pending_resize->0;
            let (asking, request) = worker.respond(Event::Time(now));
            let (sending, frame) = asking.respond(Event::Encoded(Some(bytes)));
            let (sent, _) = sending.respond(Event::Done);
            &&& request == ActionView::EncodeResize(
                adjusted_size(size.0 as u32, size.1 as u32).0,
                adjusted_size(size.0 as u32, size.1 as u32).1,
            )
            &&& frame == ActionView::Write(bytes@)
            &&& sent.last_sent_size == size
            &&& sent.pending_resize is None
        }),
{
}

/// A size that cannot be asked for, because the server offers no channel for it, is dropped: it
/// is neither kept for later nor taken for asked.
pub proof fn law_refused_size_is_dropped(worker: WorkerView)
    requires
        worker.phase is Resizing,
    ensures
        ({
            let (next, action) = worker.respond(Event::Encoded(None));
            &&& action == ActionView::ReadPdu
            &&& next.pending_resize == worker.pending_resize
            &&& next.last_sent_size == worker.last_sent_size
        }),
{
}

proof fn lemma_timeouts(run: Run, request: SessionRequest, n: nat)
    requires
        run.is_of(request),
        n <= run.events.len(),
    ensures
        is_polling(run.workers[n as int].phase) ==> run.read_timeout(n + 1) == Some(POLL_TIMEOUT),
        in_sequence(run.workers[n as int].phase) ==> run.read_timeout(n + 1) is None,
    decreases n,
{
    if n > 0 {
        lemma_timeouts(run, request, (n - 1) as nat);
        assert(run.takes_step(n - 1));
        lemma_step(run.workers[n - 1], run.events[n - 1]);
    }
}

/// Reads of the running session give up after the polling interval, and reads of an activation
/// sequence wait as long as it takes.
pub proof fn law_read_timeouts_fit(run: Run, request: SessionRequest, n: nat)
    requires
        run.is_of(request),
        n <= run.events.len(),
    ensures
        run.actions[n as int] is ReadPdu ==> run.read_timeout(n) == Some(POLL_TIMEOUT),
        run.actions[n as int] is ReadHinted ==> run.read_timeout(n) is None,
{
    lemma_timeouts(run, request, n);
    if n > 0 {
        assert(run.takes_step(n - 1));
        lemma_step(run.workers[n - 1], run.events[n - 1]);
    }
}

proof fn lemma_no_clipboard(run: Run, request: SessionRequest, n: int)
    requires
        run.is_of(request),
        !request.clipboard_passthrough,
        0 <= n <= run.events.len(),
    ensures
        !run.workers[n].clipboard,
        !at_clipboard(run.workers[n].phase),
    decreases n,
{
    if n > 0 {
        lemma_no_clipboard(run, request, n - 1);
        assert(run.takes_step(n - 1));
        lemma_step(run.workers[n - 1], run.events[n - 1]);
    }
}

/// A session without clipboard passthrough leaves the clipboard alone.
pub proof fn law_clipboard_is_left_alone(run: Run, request: SessionRequest, n: int)
    requires
        run.is_of(request),
        !request.clipboard_passthrough,
        0 <= n <= run.events.len(),
    ensures
        !(run.actions[n] is PollClipboard),
        !(run.actions[n] is ForwardClipboard),
{
    lemma_no_clipboard(run, request, n);
    if n > 0 {
        assert(run.takes_step(n - 1));
        lemma_step(run.workers[n - 1], run.events[n - 1]);
    }
}

proof fn lemma_idle(run: Run, request: SessionRequest, n: int)
    requires
        run.is_of(request),
        0 <= n <= run.events.len(),
    ensures
        is_idle(run.workers[n].phase) ==> run.workers[n].queue.len() == 0 && !run.workers[n].dirty,
        run.workers[n].phase is WritingInput ==> !run.workers[n].dirty,
    decreases n,
{
    if n > 0 {
        lemma_idle(run, request, n - 1);
        assert(run.takes_step(n - 1));
        lemma_idle_step(run.workers[n - 1], run.events[n - 1]);
    }
}

/// Before the worker turns to the window again, everything that the protocol has asked for is
/// done, and the window has the newest picture.
pub proof fn law_nothing_is_left_undone(run: Run, request: SessionRequest, n: int)
    requires
        run.is_of(request),
        0 <= n <= run.events.len(),
        run.actions[n] is PollUi,
    ensures
        run.workers[n].queue.len() == 0,
        !run.workers[n].dirty,
{
    lemma_idle(run, request, n);
    if n > 0 {
        assert(run.takes_step(n - 1));
        lemma_step(run.workers[n - 1], run.events[n - 1]);
    }
}

/// The frames that the protocol asks for after a message of the server go out in its order and
/// none is left out: what comes next is the first of them, an activation sequence with all of
/// them still to come, the end of the session, or, where there are none, the picture or the
/// window.
pub proof fn law_frames_are_written_in_order(worker: WorkerView)
    ensures
        match worker.next_output().1 {
            ActionView::Write(frame) => frames_of(worker.queue) == seq![frame] + frames_of(
                worker.next_output().0.queue,
            ),
            ActionView::SetReadTimeout(_) => frames_of(worker.queue) == frames_of(
                worker.next_output().0.queue,
            ),
            ActionView::Notify(_) => worker.next_output().0.phase == Phase::Ending,
            _ => frames_of(worker.queue).len() == 0,
        },
{
    lemma_next_output(worker);
}

/// Whether the protocol reports a change of the desktop.
pub open spec fn reports_change(outputs: Seq<StageOutput>) -> bool {
    exists|i: int| 0 <= i < outputs.len() && #[trigger] outputs[i] is GraphicsUpdate
}

/// A change of the desktop reaches the window. Whether there is one to show carries over to the
/// next step; the picture is sent exactly where there is one, once nothing else is left to do;
/// only the end of the session comes before it.
pub proof fn law_changes_are_shown(worker: WorkerView)
    ensures
        ({
            let (next, action) = worker.next_output();
            let shown = worker.dirty || reports_change(worker.queue);
            match action {
                ActionView::Write(_) | ActionView::SetReadTimeout(_) => shown == (next.dirty
                    || reports_change(next.queue)),
                ActionView::SendFrame => shown,
                ActionView::PollUi => !shown,
                _ => next.phase == Phase::Ending,
            }
        }),
    decreases worker.queue.len(),
{
    lemma_next_output(worker);
    if worker.queue.len() > 0 {
        let rest = WorkerView { queue: worker.queue.skip(1), ..worker };
        law_changes_are_shown(rest);
        law_changes_are_shown(WorkerView { dirty: true, ..rest });
        assert(forall|i: int|
            0 <= i < rest.queue.len() ==> #[trigger] rest.queue[i] == worker.queue[i + 1]);
        if reports_change(rest.queue) {
            let i = choose|i: int|
                0 <= i < rest.queue.len() && #[trigger] rest.queue[i] is GraphicsUpdate;
            assert(worker.queue[i + 1] is GraphicsUpdate);
        }
        if reports_change(worker.queue) && !(worker.queue[0] is GraphicsUpdate) {
            let i = choose|i: int|
                0 <= i < worker.queue.len() && #[trigger] worker.queue[i] is GraphicsUpdate;
            assert(rest.queue[i - 1] is GraphicsUpdate);
        }
    }
}

/// The frames that the protocol asks for after input go out in its order and none is left out.
pub proof fn law_input_frames_are_written_in_order(worker: WorkerView)
    ensures
        match worker.next_input().1 {
            ActionView::Write(frame) => frames_of(worker.queue) == seq![frame] + frames_of(
                worker.next_input().0.queue,
            ),
            _ => frames_of(worker.queue).len() == 0,
        },
{
    lemma_next_input(worker);
}

/// Every failure is reported and ends the session. The reason goes to the window, with the name of
/// the step where that was a change of the read timeout; where an activation sequence has failed,
/// reads get their timeout back first.
pub proof fn law_failures_are_reported(worker: WorkerView, text: String)
    requires
        worker.expects(Event::Failed(text)),
    ensures
        ({
            let (next, action) = worker.respond(Event::Failed(text));
            let report = ActionView::Notify(NoticeView::Error(worker.failure_text(text@)));
            if action is SetReadTimeout {
                &&& action == ActionView::SetReadTimeout(Some(POLL_TIMEOUT))
                &&& next.expects(Event::Done)
                &&& next.respond(Event::Done).1 == report
                &&& next.respond(Event::Done).0.respond(Event::Done).1 == ActionView::Stop
            } else {
                &&& action == report
                &&& next.expects(Event::Done)
                &&& next.respond(Event::Done).1 == ActionView::Stop
            }
        }),
{
}

/// A request of the window to shut down, or its absence, ends the session at once.
pub proof fn law_shutdown_stops(worker: WorkerView, now: u64)
    requires
        worker.phase is Polling,
    ensures
        worker.respond(Event::Message { message: ToWorker::Shutdown, now }).1 == ActionView::Stop,
        worker.respond(Event::Closed).1 == ActionView::Stop,
{
}

/// A stopped worker does nothing more.
pub proof fn law_stop_is_final(worker: WorkerView, event: Event, next: Event)
    requires
        worker.expects(event),
        worker.respond(event).1 is Stop,
    ensures
        !worker.respond(event).0.expects(next),
{
    lemma_queues(worker, event);
}

/// A password field that starts with `cmd:` holds a command: it is run before anything else, and
/// what it prints, trimmed, is the password of the connection. Any other field is the password
/// itself, and the connection comes first.
pub proof fn law_password_field_decides_the_start(request: SessionRequest, output: String)
    ensures
        ({
            let (worker, action) = WorkerView::starting(request);
            let field = request.password@;
            if command_prefix().is_prefix_of(field) {
                let next = worker.respond(
                    Event::CommandFinished(CommandOutcome::Succeeded(output)),
                ).1;
                &&& action matches ActionView::RunCommand(command)
                &&& field == command_prefix() + command
                &&& next matches ActionView::Connect(connection)
                &&& connection.password == trimmed(output@)
            } else {
                &&& action matches ActionView::Connect(connection)
                &&& connection.password == field
            }
        }),
{
    let n = command_prefix().len() as int;
    if command_prefix().is_prefix_of(request.password@) {
        assert(request.password@ =~= command_prefix() + request.password@.skip(n));
    }
}

/// A password command that fails aborts the connection: nothing is connected, and the tab shows
/// the reason as an error.
pub proof fn law_failed_command_aborts(
    request: SessionRequest,
    reason: String,
    report: ToUi,
    tab: TabView,
)
    requires
        command_prefix().is_prefix_of(request.password@),
        report matches ToUi::Error(text) && text@ == command_failure_text(reason@),
    ensures
        WorkerView::starting(request).0.respond(
            Event::CommandFinished(CommandOutcome::Failed(reason)),
        ).1 == ActionView::Notify(notice_view(report)),
        tab.after(report).status == "Error: "@ + command_failure_text(reason@),
        !tab.after(report).connected,
        WorkerView::starting(request).0.respond(
            Event::CommandFinished(CommandOutcome::Failed(reason)),
        ).0.respond(Event::Done).1 == ActionView::Stop,
{
}

/// Whether the session is not yet connected, or has no picture yet.
spec fn is_starting(phase: Phase) -> bool {
    match phase {
        Phase::Password(_) => true,
        Phase::Connecting => true,
        Phase::StartingPolls { .. } => true,
        _ => false,
    }
}

/// Whether the session is over.
spec fn is_over(phase: Phase) -> bool {
    match phase {
        Phase::Failing => true,
        Phase::Ending => true,
        Phase::Stopped => true,
        _ => false,
    }
}

/// The size that the server has set and that the window has not been told of.
spec fn size_to_announce(phase: Phase) -> Option<(u16, u16)> {
    match phase {
        Phase::StartingPolls { width, height } => Some((width, height)),
        Phase::CreatingImage { width, height } => Some((width, height)),
        Phase::SettingShareId { width, height } => Some((width, height)),
        Phase::WritingStep { state: SequenceState::Finalized { width, height, .. }, .. } => Some(
            (width, height),
        ),
        Phase::RestoringTimeout(Driven::Finalized { width, height, .. }) => Some((width, height)),
        _ => None,
    }
}

/// What one step does to the picture and what the window is told of it.
proof fn lemma_picture_step(worker: WorkerView, event: Event)
    requires
        worker.expects(event),
    ensures
        ({
            let (next, action) = worker.respond(event);
            &&& match action {
                ActionView::NewImage { width, height } => {
                    &&& next.phase == (Phase::CreatingImage { width, height })
                    &&& !is_over(worker.phase)
                    &&& size_to_announce(worker.phase) == Some((width, height))
                },
                ActionView::Notify(NoticeView::Connected { width, height }) => {
                    &&& worker.phase == (Phase::CreatingImage { width, height })
                    &&& next.phase is Announcing
                },
                ActionView::Notify(NoticeView::Error(_)) => is_over(next.phase),
                ActionView::Notify(_) => {
                    &&& is_over(next.phase)
                    &&& !is_starting(worker.phase)
                    &&& !is_over(worker.phase)
                    &&& !(worker.phase is CreatingImage)
                },
                _ => {
                    &&& !(next.phase is CreatingImage)
                    &&& !(next.phase is Announcing)
                    &&& is_over(next.phase) || is_starting(next.phase) == is_starting(worker.phase)
                    &&& !is_over(next.phase) ==> !is_over(worker.phase) && !(
                    worker.phase is CreatingImage)
                },
            }
            &&& action is SendFrame ==> !is_starting(next.phase) && !is_over(next.phase)
            &&& worker.phase is Announcing ==> action is SendFrame
            &&& match size_to_announce(next.phase) {
                Some(size) => match event {
                    Event::Connected { width, height } => (width, height) == size,
                    Event::Stepped {
                        state: SequenceState::Finalized { width, height, .. },
                        ..
                    } => (width, height) == size,
                    _ => size_to_announce(worker.phase) == Some(size),
                },
                None => true,
            }
        }),
{
    lemma_queues(worker, event);
}

proof fn lemma_pictures(run: Run, request: SessionRequest, n: nat)
    requires
        run.is_of(request),
        n <= run.events.len(),
    ensures
        ({
            let phase = run.workers[n as int].phase;
            &&& match size_to_announce(phase) {
                Some(size) => run.negotiated_size(n) == Some(size),
                None => true,
            }
            &&& is_starting(phase) ==> run.announced_size(n + 1) is None && run.picture_size(
                n + 1,
            ) is None
            &&& phase matches Phase::CreatingImage { width, height } ==> run.picture_size(n + 1)
                == Some((width, height))
            &&& !is_starting(phase) && !is_over(phase) && !(phase is CreatingImage)
                ==> run.announced_size(n + 1) is Some && run.announced_size(n + 1)
                == run.picture_size(n + 1)
        }),
    decreases n,
{
    if n > 0 {
        lemma_pictures(run, request, (n - 1) as nat);
        assert(run.takes_step(n - 1));
        lemma_picture_step(run.workers[n - 1], run.events[n - 1]);
    } else {
        assert(run.announced_size(0) is None);
        assert(run.picture_size(0) is None);
    }
}

/// A notice of a connection is followed at once by a picture.
pub proof fn law_connected_is_followed_by_a_picture(run: Run, request: SessionRequest, n: int)
    requires
        run.is_of(request),
        0 <= n < run.events.len(),
        run.actions[n] matches ActionView::Notify(NoticeView::Connected { .. }),
    ensures
        run.actions[n + 1] == ActionView::SendFrame,
{
    if n > 0 {
        assert(run.takes_step(n - 1));
        lemma_picture_step(run.workers[n - 1], run.events[n - 1]);
    }
    assert(run.takes_step(n));
    lemma_picture_step(run.workers[n], run.events[n]);
}

/// A notice of a connection gives the size that the server has set last, and comes after a blank
/// picture of that size.
pub proof fn law_connected_gives_the_negotiated_size(
    run: Run,
    request: SessionRequest,
    n: nat,
    width: u16,
    height: u16,
)
    requires
        run.is_of(request),
        n <= run.events.len(),
        run.actions[n as int] == ActionView::Notify(NoticeView::Connected { width, height }),
    ensures
        n > 0,
        run.negotiated_size(n) == Some((width, height)),
        run.actions[n - 1] == (ActionView::NewImage { width, height }),
{
    if n > 0 {
        assert(run.takes_step(n - 1));
        lemma_picture_step(run.workers[n - 1], run.events[n - 1]);
        lemma_pictures(run, request, (n - 1) as nat);
        if n > 1 {
            assert(run.takes_step(n - 2));
            lemma_picture_step(run.workers[n - 2], run.events[n - 2]);
        }
    }
}

/// The window gets no picture before it is told of a connection, and every picture has the size
/// that it was told last.
pub proof fn law_pictures_have_the_announced_size(run: Run, request: SessionRequest, n: nat)
    requires
        run.is_of(request),
        n <= run.events.len(),
        run.actions[n as int] is SendFrame,
    ensures
        run.announced_size(n) is Some,
        run.picture_size(n) == run.announced_size(n),
{
    lemma_pictures(run, request, n);
    if n > 0 {
        assert(run.takes_step(n - 1));
        lemma_picture_step(run.workers[n - 1], run.events[n - 1]);
    }
}

/// A snapshot of a picture that still has the size in which it was made is as wide and as high as
/// the window was told last, and has four bytes for each pixel.
pub proof fn law_frames_fit_the_announced_size(
    run: Run,
    request: SessionRequest,
    n: nat,
    image: DecodedImage,
    message: ToUi,
)
    requires
        run.is_of(request),
        n <= run.events.len(),
        run.actions[n as int] is SendFrame,
        run.picture_size(n) == Some(image_size(image)),
        is_frame_of(message, image),
    ensures
        message matches ToUi::Frame { width, height, rgba } && run.announced_size(n) == Some(
            (width, height),
        ) && rgba@.len() == picture_len(width, height),
{
    law_pictures_have_the_announced_size(run, request, n);
}

/// Before the window is told of a connection, it is told of nothing but an error: a session that
/// fails to connect sends neither a size nor a picture nor a farewell.
pub proof fn law_only_errors_come_before_the_connection(
    run: Run,
    request: SessionRequest,
    n: nat,
)
    requires
        run.is_of(request),
        n <= run.events.len(),
        run.announced_size(n) is None,
    ensures
        !(run.actions[n as int] is SendFrame),
        run.actions[n as int] matches ActionView::Notify(notice) ==> notice is Connected
            || notice is Error,
{
    lemma_pictures(run, request, n);
    if n > 0 {
        assert(run.takes_step(n - 1));
        lemma_picture_step(run.workers[n - 1], run.events[n - 1]);
        lemma_pictures(run, request, (n - 1) as nat);
    }
}

} // verus!
