//! What holds of the worker over whole runs of events: in which order its
//! outputs come, and how a session and a failed attempt end.

use vstd::prelude::*;
use crate::buds_worker::{
    at_rest, connection_failed, deliveries, delivery, ends_reading, hang_up, next_session,
    not_connected, read_failed, report, send_failed, transition, write_report, ActionView,
    EventView, InputView, OutputView, SessionState, WorkerState,
};
use crate::framing::reframe;
use crate::model::buds_message::BudsCommand;
use crate::stream::{
    all_frames, all_noise, feed, is_unfinished, lemma_feed_is_one_pass, lemma_reframe_cuts,
    lemma_round_trip_with_noise, woven,
};

verus! {

/// The state after a run of events, and all actions that the events called
/// for, in order.
pub open spec fn run(w: WorkerState, events: Seq<EventView>) -> (WorkerState, Seq<ActionView>)
    decreases events.len(),
{
    if events.len() == 0 {
        (w, Seq::empty())
    } else {
        let before = run(w, events.drop_last());
        let last = transition(before.0, events.last());
        (last.0, before.1 + last.1)
    }
}

/// The outputs among `actions`, in order.
pub open spec fn outputs(actions: Seq<ActionView>) -> Seq<OutputView>
    decreases actions.len(),
{
    if actions.len() == 0 {
        Seq::empty()
    } else {
        let before = outputs(actions.drop_last());
        match actions.last() {
            ActionView::Emit(output) => before.push(output),
            _ => before,
        }
    }
}

/// How many of `outputs` are `Disconnected`.
pub open spec fn disconnects(outputs: Seq<OutputView>) -> nat
    decreases outputs.len(),
{
    if outputs.len() == 0 {
        0
    } else {
        disconnects(outputs.drop_last()) + if outputs.last() is Disconnected {
            1nat
        } else {
            0nat
        }
    }
}

/// A session is on in this state.
pub open spec fn in_session(phase: SessionState) -> bool {
    phase is Connected || phase is Disconnecting
}

/// Whether a session is open for the consumer once it has seen `output`,
/// given whether one was open before.
pub open spec fn open_after_one(output: OutputView, open: bool) -> bool {
    match output {
        OutputView::Connected => true,
        OutputView::Disconnected => false,
        _ => open,
    }
}

/// Whether a session is open for the consumer once it has seen `outputs`,
/// given whether one was open before.
pub open spec fn open_after(outputs: Seq<OutputView>, open: bool) -> bool
    decreases outputs.len(),
{
    if outputs.len() == 0 {
        open
    } else {
        open_after_one(outputs.last(), open_after(outputs.drop_last(), open))
    }
}

/// `output` may come where a session is open, or is not.
pub open spec fn may_come(output: OutputView, open: bool) -> bool {
    match output {
        OutputView::Connected => !open,
        OutputView::DataReceived(_) => open,
        _ => true,
    }
}

/// The outputs come in the order of sessions: `Connected` only while no
/// session is open, `DataReceived` only while one is, that is after its
/// `Connected` and before its `Disconnected`.
pub open spec fn in_order(outputs: Seq<OutputView>, open: bool) -> bool
    decreases outputs.len(),
{
    if outputs.len() == 0 {
        true
    } else {
        &&& in_order(outputs.drop_last(), open)
        &&& may_come(outputs.last(), open_after(outputs.drop_last(), open))
    }
}

/// The event ends the session numbered `session`: the consumer disconnects,
/// or the reader of that session meets the end of the stream or an error.
pub open spec fn ends_session(event: EventView, session: u64) -> bool {
    match event {
        EventView::Input(InputView::Disconnect) => true,
        EventView::ReadFinished { session: s, outcome } => s == session && ends_reading(outcome),
        _ => false,
    }
}

/// The outputs of a list of actions with one more action.
proof fn lemma_outputs_push(actions: Seq<ActionView>, action: ActionView)
    ensures
        outputs(actions.push(action)) == match action {
            ActionView::Emit(output) => outputs(actions).push(output),
            _ => outputs(actions),
        },
{
    assert(actions.push(action).drop_last() =~= actions);
}

/// The outputs of two lists of actions, one after the other.
proof fn lemma_outputs_add(first: Seq<ActionView>, second: Seq<ActionView>)
    ensures
        outputs(first + second) == outputs(first) + outputs(second),
    decreases second.len(),
{
    if second.len() == 0 {
        assert(first + second =~= first);
        assert(outputs(first) + outputs(second) =~= outputs(first));
    } else {
        assert((first + second).drop_last() =~= first + second.drop_last());
        lemma_outputs_add(first, second.drop_last());
        match second.last() {
            ActionView::Emit(output) => {
                assert((outputs(first) + outputs(second.drop_last())).push(output) =~= outputs(
                    first,
                ) + outputs(second.drop_last()).push(output));
            },
            _ => {},
        }
    }
}

/// Order, open session and number of `Disconnected` with one more output.
proof fn lemma_order_push(outputs: Seq<OutputView>, output: OutputView, open: bool)
    ensures
        open_after(outputs.push(output), open) == open_after_one(
            output,
            open_after(outputs, open),
        ),
        in_order(outputs.push(output), open) == (in_order(outputs, open) && may_come(
            output,
            open_after(outputs, open),
        )),
        disconnects(outputs.push(output)) == disconnects(outputs) + if output is Disconnected {
            1nat
        } else {
            0nat
        },
{
    assert(outputs.push(output).drop_last() =~= outputs);
}

/// Order, open session and number of `Disconnected` of two runs of outputs,
/// one after the other.
proof fn lemma_order_add(first: Seq<OutputView>, second: Seq<OutputView>, open: bool)
    ensures
        open_after(first + second, open) == open_after(second, open_after(first, open)),
        in_order(first + second, open) == (in_order(first, open) && in_order(
            second,
            open_after(first, open),
        )),
        disconnects(first + second) == disconnects(first) + disconnects(second),
    decreases second.len(),
{
    if second.len() == 0 {
        assert(first + second =~= first);
    } else {
        assert((first + second).drop_last() =~= first + second.drop_last());
        lemma_order_add(first, second.drop_last(), open);
    }
}

/// The outputs of an empty list of actions, of one action and of the
/// actions that end a session.
proof fn lemma_outputs_small(action: ActionView)
    ensures
        outputs(Seq::empty()) == Seq::<OutputView>::empty(),
        outputs(seq![action]) == match action {
            ActionView::Emit(output) => seq![output],
            _ => Seq::<OutputView>::empty(),
        },
        outputs(hang_up()) == seq![OutputView::Disconnected],
{
    let none = Seq::<ActionView>::empty();
    lemma_outputs_push(none, action);
    assert(seq![action] =~= none.push(action));
    match action {
        ActionView::Emit(output) => {
            assert(Seq::<OutputView>::empty().push(output) =~= seq![output]);
        },
        _ => {},
    }
    lemma_outputs_push(none, ActionView::CloseStream);
    lemma_outputs_push(
        none.push(ActionView::CloseStream),
        ActionView::Emit(OutputView::Disconnected),
    );
    assert(hang_up() =~= none.push(ActionView::CloseStream).push(
        ActionView::Emit(OutputView::Disconnected),
    ));
    assert(Seq::<OutputView>::empty().push(OutputView::Disconnected) =~= seq![
        OutputView::Disconnected,
    ]);
}

/// Order, open session and number of `Disconnected` for no output and for
/// a single one.
proof fn lemma_order_small(output: OutputView, open: bool)
    ensures
        open_after(Seq::empty(), open) == open,
        in_order(Seq::empty(), open),
        disconnects(Seq::empty()) == 0,
        open_after(seq![output], open) == open_after_one(output, open),
        in_order(seq![output], open) == may_come(output, open),
        disconnects(seq![output]) == if output is Disconnected {
            1nat
        } else {
            0nat
        },
{
    lemma_order_push(Seq::empty(), output, open);
    assert(seq![output] =~= Seq::<OutputView>::empty().push(output));
}

/// Deliveries are messages for an open session: they come in order where a
/// session is open, leave it open, and none of them is `Disconnected`.
proof fn lemma_deliveries(frames: Seq<Seq<u8>>)
    ensures
        in_order(outputs(deliveries(frames)), true),
        open_after(outputs(deliveries(frames)), true),
        disconnects(outputs(deliveries(frames))) == 0,
    decreases frames.len(),
{
    if frames.len() == 0 {
        assert(deliveries(frames) =~= Seq::<ActionView>::empty());
    } else {
        let before = deliveries(frames.drop_last());
        lemma_deliveries(frames.drop_last());
        match delivery(frames.last()) {
            Some(action) => {
                assert(deliveries(frames) == before + seq![action]);
                lemma_outputs_add(before, seq![action]);
                lemma_outputs_small(action);
                lemma_order_add(outputs(before), outputs(seq![action]), true);
                lemma_order_small(action->Emit_0, true);
            },
            None => {
                assert(deliveries(frames) == before);
            },
        }
    }
}

/// One event: its outputs come in the order of sessions, given that a
/// session is open exactly where the state before says so, and afterwards
/// one is open exactly where the state after says so.
pub proof fn lemma_step_in_order(w: WorkerState, event: EventView)
    ensures
        in_order(outputs(transition(w, event).1), in_session(w.phase)),
        open_after(outputs(transition(w, event).1), in_session(w.phase)) == in_session(
            transition(w, event).0.phase,
        ),
{
    let open = in_session(w.phase);
    lemma_outputs_small(ActionView::OpenStream);
    lemma_outputs_small(ActionView::CloseStream);
    lemma_order_small(OutputView::Disconnected, open);
    match event {
        EventView::Input(input) => {
            match input {
                InputView::Connect => {},
                InputView::Disconnect => {},
                InputView::SendData(bytes) => {
                    lemma_outputs_small(ActionView::Write(bytes));
                    lemma_outputs_small(report(not_connected()));
                    lemma_order_small(OutputView::Error(not_connected()), open);
                },
                InputView::SendCommand(command) => {
                    lemma_outputs_small(ActionView::Write(command.encoding()));
                    lemma_outputs_small(report(not_connected()));
                    lemma_order_small(OutputView::Error(not_connected()), open);
                },
            }
        },
        EventView::StreamOpened => {
            lemma_outputs_small(ActionView::Write(BudsCommand::ManagerInfo.encoding()));
        },
        EventView::ConnectFailed(detail) => {
            lemma_outputs_small(report(connection_failed(detail)));
            lemma_order_small(OutputView::Error(connection_failed(detail)), open);
        },
        EventView::WriteFinished(outcome) => {
            match outcome {
                Ok(_) => {},
                Err(detail) => {
                    lemma_outputs_small(report(send_failed(detail)));
                    lemma_order_small(OutputView::Error(send_failed(detail)), open);
                },
            }
            if w.phase is Connecting && w.priming {
                let connected = ActionView::Emit(OutputView::Connected);
                let reader = ActionView::StartReader { session: next_session(w.session) };
                let none = Seq::<ActionView>::empty();
                lemma_outputs_push(none, connected);
                lemma_outputs_push(none.push(connected), reader);
                assert(seq![connected, reader] =~= none.push(connected).push(reader));
                assert(Seq::<OutputView>::empty().push(OutputView::Connected) =~= seq![
                    OutputView::Connected,
                ]);
                lemma_outputs_add(write_report(outcome), seq![connected, reader]);
                lemma_order_add(
                    outputs(write_report(outcome)),
                    outputs(seq![connected, reader]),
                    open,
                );
                lemma_order_small(OutputView::Connected, open);
            }
        },
        EventView::ReadFinished { session, outcome } => {
            if session == w.session {
                match outcome {
                    Ok(bytes) => {
                        if bytes.len() > 0 && w.phase is Connected {
                            lemma_deliveries(reframe(w.buffer + bytes).0);
                        }
                    },
                    Err(detail) => {
                        let failure = report(read_failed(detail));
                        lemma_outputs_small(failure);
                        lemma_outputs_add(seq![failure], hang_up());
                        lemma_order_add(outputs(seq![failure]), outputs(hang_up()), open);
                        lemma_order_small(OutputView::Error(read_failed(detail)), open);
                        lemma_order_small(OutputView::Disconnected, true);
                    },
                }
            }
        },
    }
}

/// Order of outputs: whatever events come, in whatever order, `Connected`
/// is emitted only while no session is open and `DataReceived` only while
/// one is; so within a session `Connected` comes first, then the messages,
/// then `Disconnected`.
pub proof fn lemma_outputs_in_order(w: WorkerState, events: Seq<EventView>)
    ensures
        in_order(outputs(run(w, events).1), in_session(w.phase)),
        open_after(outputs(run(w, events).1), in_session(w.phase)) == in_session(
            run(w, events).0.phase,
        ),
    decreases events.len(),
{
    let open = in_session(w.phase);
    if events.len() == 0 {
        lemma_outputs_small(ActionView::OpenStream);
        lemma_order_small(OutputView::Connected, open);
    } else {
        let before = run(w, events.drop_last());
        let last = transition(before.0, events.last());
        lemma_outputs_in_order(w, events.drop_last());
        lemma_step_in_order(before.0, events.last());
        lemma_outputs_add(before.1, last.1);
        lemma_order_add(outputs(before.1), outputs(last.1), open);
    }
}

/// The worker does not begin to disconnect by itself: no run of events
/// leads a worker that is not in the state `Disconnecting` into it. (A
/// session ends at once, with the event that ends it.)
pub proof fn lemma_never_disconnecting(w: WorkerState, events: Seq<EventView>)
    requires
        !(w.phase is Disconnecting),
    ensures
        !(run(w, events).0.phase is Disconnecting),
    decreases events.len(),
{
    if events.len() > 0 {
        lemma_never_disconnecting(w, events.drop_last());
    }
}

/// The buffer of the worker holds at most one unfinished frame: where it
/// is empty or begins with the begin-of-message byte and holds no
/// end-of-message byte, it is so again after any run of events.
pub proof fn lemma_buffer_stays_unfinished(w: WorkerState, events: Seq<EventView>)
    requires
        is_unfinished(w.buffer),
    ensures
        is_unfinished(run(w, events).0.buffer),
    decreases events.len(),
{
    if events.len() > 0 {
        lemma_buffer_stays_unfinished(w, events.drop_last());
        let before = run(w, events.drop_last()).0;
        match events.last() {
            EventView::ReadFinished { session, outcome } => {
                match outcome {
                    Ok(bytes) => {
                        lemma_reframe_cuts(before.buffer + bytes);
                    },
                    Err(_) => {},
                }
            },
            _ => {},
        }
    }
}

/// The events of a reader of the session numbered `session` that reads
/// `chunks` one after the other.
pub open spec fn reads(session: u64, chunks: Seq<Seq<u8>>) -> Seq<EventView> {
    Seq::new(
        chunks.len(),
        |i: int| EventView::ReadFinished { session, outcome: Ok(chunks[i]) },
    )
}

/// No chunk is empty.
pub open spec fn all_filled(chunks: Seq<Seq<u8>>) -> bool {
    forall|i: int| 0 <= i < chunks.len() ==> (#[trigger] chunks[i]).len() > 0
}

/// Feeding one more chunk is a pass over what the others left, followed by
/// the chunk.
proof fn lemma_feed_push(buf: Seq<u8>, chunks: Seq<Seq<u8>>, chunk: Seq<u8>)
    ensures
        feed(buf, chunks.push(chunk)) == ({
            let before = feed(buf, chunks);
            let last = reframe(before.1 + chunk);
            (before.0 + last.0, last.1)
        }),
    decreases chunks.len(),
{
    let all = chunks.push(chunk);
    let none = Seq::<Seq<u8>>::empty();
    if chunks.len() == 0 {
        assert(all.drop_first() =~= none);
        let last = reframe(buf + chunk);
        assert(feed(last.1, none) == (none, last.1));
        assert(last.0 + none =~= none + last.0);
    } else {
        let now = reframe(buf + chunks[0]);
        assert(all[0] == chunks[0]);
        assert(all.drop_first() =~= chunks.drop_first().push(chunk));
        lemma_feed_push(now.1, chunks.drop_first(), chunk);
        let later = feed(now.1, chunks.drop_first());
        let last = reframe(later.1 + chunk);
        assert(now.0 + (later.0 + last.0) =~= (now.0 + later.0) + last.0);
    }
}

/// The deliveries of two runs of frames, one after the other.
proof fn lemma_deliveries_add(first: Seq<Seq<u8>>, second: Seq<Seq<u8>>)
    ensures
        deliveries(first + second) == deliveries(first) + deliveries(second),
    decreases second.len(),
{
    if second.len() == 0 {
        assert(first + second =~= first);
        assert(deliveries(second) =~= Seq::<ActionView>::empty());
        assert(deliveries(first) + deliveries(second) =~= deliveries(first));
    } else {
        assert((first + second).drop_last() =~= first + second.drop_last());
        lemma_deliveries_add(first, second.drop_last());
        match delivery(second.last()) {
            Some(action) => {
                assert((deliveries(first) + deliveries(second.drop_last())) + seq![action]
                    =~= deliveries(first) + (deliveries(second.drop_last()) + seq![action]));
            },
            None => {},
        }
    }
}

/// Reads are fed to the re-framer: a connected worker that is told of the
/// reads of its session, none of them empty, keeps in its buffer what
/// feeding the chunks leaves there, and delivers the frames that feeding
/// them yields, and nothing else.
pub proof fn lemma_reads_are_fed(w: WorkerState, chunks: Seq<Seq<u8>>)
    requires
        w.phase is Connected,
        all_filled(chunks),
    ensures
        run(w, reads(w.session, chunks)) == (
            WorkerState {
                phase: w.phase,
                priming: w.priming,
                session: w.session,
                buffer: feed(w.buffer, chunks).1,
            },
            deliveries(feed(w.buffer, chunks).0),
        ),
    decreases chunks.len(),
{
    let events = reads(w.session, chunks);
    if chunks.len() == 0 {
        assert(deliveries(Seq::<Seq<u8>>::empty()) =~= Seq::<ActionView>::empty());
    } else {
        let earlier = chunks.drop_last();
        let chunk = chunks.last();
        assert(events.drop_last() =~= reads(w.session, earlier));
        assert(events.last() == EventView::ReadFinished { session: w.session, outcome: Ok(chunk) });
        assert(all_filled(earlier)) by {
            assert forall|i: int| 0 <= i < earlier.len() implies (#[trigger] earlier[i]).len()
                > 0 by {
                assert(earlier[i] == chunks[i]);
            }
        }
        lemma_reads_are_fed(w, earlier);
        assert(chunks =~= earlier.push(chunk));
        lemma_feed_push(w.buffer, earlier, chunk);
        let before = feed(w.buffer, earlier);
        lemma_deliveries_add(before.0, reframe(before.1 + chunk).0);
    }
}

/// What the consumer receives does not depend on how the stream arrives,
/// whatever the bytes: a connected worker that is told of the reads of its
/// session, none of them empty, delivers the frames that one pass yields
/// over its buffer followed by all that was read, and keeps what that pass
/// keeps.
pub proof fn lemma_delivery_does_not_depend_on_chunking(w: WorkerState, chunks: Seq<Seq<u8>>)
    requires
        w.phase is Connected,
        all_filled(chunks),
        chunks.len() > 0,
    ensures
        run(w, reads(w.session, chunks)) == (
            WorkerState {
                phase: w.phase,
                priming: w.priming,
                session: w.session,
                buffer: reframe(w.buffer + chunks.flatten()).1,
            },
            deliveries(reframe(w.buffer + chunks.flatten()).0),
        ),
{
    lemma_reads_are_fed(w, chunks);
    lemma_feed_is_one_pass(w.buffer, chunks);
}

/// Frames reach the consumer through noise and chunking: a connected worker
/// with an empty buffer, told of reads that together make up a stream of
/// frames with bytes without a begin-of-message byte before, between and
/// after them, cut at any byte boundaries, delivers the messages of exactly
/// those frames, in order, and is left with an empty buffer.
pub proof fn lemma_delivery_survives_chunking(
    w: WorkerState,
    noises: Seq<Seq<u8>>,
    frames: Seq<Seq<u8>>,
    chunks: Seq<Seq<u8>>,
)
    requires
        w.phase is Connected,
        w.buffer == Seq::<u8>::empty(),
        all_frames(frames),
        all_noise(noises),
        noises.len() == frames.len() + 1,
        all_filled(chunks),
        chunks.flatten() == woven(noises, frames),
    ensures
        run(w, reads(w.session, chunks)) == (w, deliveries(frames)),
{
    lemma_reads_are_fed(w, chunks);
    lemma_round_trip_with_noise(noises, frames, chunks);
}

/// One event that ends the session of a connected worker brings the worker
/// to rest with exactly one `Disconnected`; the same event at rest brings
/// none.
proof fn lemma_ending_step(w: WorkerState, event: EventView)
    requires
        ends_session(event, w.session),
        w.phase is Connected || w.phase is Idle,
    ensures
        transition(w, event).0 == if w.phase is Connected {
            at_rest(w)
        } else {
            w
        },
        disconnects(outputs(transition(w, event).1)) == if w.phase is Connected {
            1nat
        } else {
            0nat
        },
        w.phase is Idle ==> outputs(transition(w, event).1) == Seq::<OutputView>::empty(),
{
    lemma_outputs_small(ActionView::CloseStream);
    lemma_order_small(OutputView::Disconnected, true);
    match event {
        EventView::ReadFinished { session, outcome } => {
            match outcome {
                Ok(_) => {},
                Err(detail) => {
                    if w.phase is Connected {
                        let failure = report(read_failed(detail));
                        lemma_outputs_small(failure);
                        lemma_outputs_add(seq![failure], hang_up());
                        lemma_order_add(outputs(seq![failure]), outputs(hang_up()), true);
                        lemma_order_small(OutputView::Error(read_failed(detail)), true);
                    }
                },
            }
        },
        _ => {},
    }
}

/// No event is the input `Connect`.
pub open spec fn without_connect(events: Seq<EventView>) -> bool {
    forall|i: int|
        0 <= i < events.len() ==> #[trigger] events[i] != EventView::Input(InputView::Connect)
}

/// One of the events ends the session numbered `session`.
pub open spec fn some_ends_session(events: Seq<EventView>, session: u64) -> bool {
    exists|i: int| 0 <= i < events.len() && ends_session(#[trigger] events[i], session)
}

/// One event other than `Connect`, in a worker that is connected or idle:
/// a connected worker goes to rest with one `Disconnected` where the event
/// ends its session, and else stays connected without one; an idle worker
/// stays idle without one. The session number stays.
proof fn lemma_step_without_connect(w: WorkerState, event: EventView)
    requires
        w.phase is Connected || w.phase is Idle,
        event != EventView::Input(InputView::Connect),
    ensures
        transition(w, event).0.session == w.session,
        transition(w, event).0.phase == if w.phase is Connected && !ends_session(
            event,
            w.session,
        ) {
            SessionState::Connected
        } else {
            SessionState::Idle
        },
        disconnects(outputs(transition(w, event).1)) == if w.phase is Connected && ends_session(
            event,
            w.session,
        ) {
            1nat
        } else {
            0nat
        },
{
    if ends_session(event, w.session) {
        lemma_ending_step(w, event);
        lemma_order_small(OutputView::Disconnected, true);
    } else {
        lemma_outputs_small(ActionView::CloseStream);
        lemma_order_small(OutputView::Disconnected, true);
        match event {
            EventView::Input(input) => {
                match input {
                    InputView::SendData(bytes) => {
                        lemma_outputs_small(ActionView::Write(bytes));
                        lemma_outputs_small(report(not_connected()));
                        lemma_order_small(OutputView::Error(not_connected()), true);
                    },
                    InputView::SendCommand(command) => {
                        lemma_outputs_small(ActionView::Write(command.encoding()));
                        lemma_outputs_small(report(not_connected()));
                        lemma_order_small(OutputView::Error(not_connected()), true);
                    },
                    _ => {},
                }
            },
            EventView::StreamOpened => {},
            EventView::ConnectFailed(detail) => {},
            EventView::WriteFinished(outcome) => {
                match outcome {
                    Ok(_) => {},
                    Err(detail) => {
                        lemma_outputs_small(report(send_failed(detail)));
                        lemma_order_small(OutputView::Error(send_failed(detail)), true);
                    },
                }
            },
            EventView::ReadFinished { session, outcome } => {
                if session == w.session && w.phase is Connected {
                    lemma_deliveries(reframe(w.buffer + outcome->Ok_0).0);
                }
            },
        }
    }
}

/// A session ends once: in a connected worker, whatever events come, in
/// whatever order, as long as no new connection is asked for, `Disconnected`
/// is emitted exactly once if one of the events ends the session (the
/// consumer disconnects, or the reader meets the end of the stream or an
/// error), and the worker is then idle; and it is not emitted at all if none
/// of them does, and the worker is then still connected.
pub proof fn lemma_session_ends_once(w: WorkerState, events: Seq<EventView>)
    requires
        w.phase is Connected,
        without_connect(events),
    ensures
        run(w, events).0.session == w.session,
        some_ends_session(events, w.session) ==> run(w, events).0.phase is Idle && disconnects(
            outputs(run(w, events).1),
        ) == 1,
        !some_ends_session(events, w.session) ==> run(w, events).0.phase is Connected
            && disconnects(outputs(run(w, events).1)) == 0,
    decreases events.len(),
{
    if events.len() == 0 {
        lemma_order_small(OutputView::Disconnected, true);
    } else {
        let earlier = events.drop_last();
        let before = run(w, earlier);
        let last = transition(before.0, events.last());
        assert(without_connect(earlier)) by {
            assert forall|i: int| 0 <= i < earlier.len() implies #[trigger] earlier[i]
                != EventView::Input(InputView::Connect) by {
                assert(earlier[i] == events[i]);
            }
        }
        lemma_session_ends_once(w, earlier);
        assert(events[events.len() - 1] != EventView::Input(InputView::Connect));
        lemma_step_without_connect(before.0, events.last());
        lemma_outputs_add(before.1, last.1);
        lemma_order_add(outputs(before.1), outputs(last.1), true);
        if some_ends_session(earlier, w.session) {
            let i = choose|i: int|
                0 <= i < earlier.len() && ends_session(#[trigger] earlier[i], w.session);
            assert(ends_session(events[i], w.session));
        } else if ends_session(events.last(), w.session) {
            assert(ends_session(events[events.len() - 1], w.session));
        } else {
            assert(!some_ends_session(events, w.session)) by {
                if some_ends_session(events, w.session) {
                    let i = choose|i: int|
                        0 <= i < events.len() && ends_session(#[trigger] events[i], w.session);
                    if i < earlier.len() {
                        assert(ends_session(earlier[i], w.session));
                    }
                }
            }
        }
    }
}

/// A write that fails in a session is reported and ends nothing.
pub proof fn lemma_write_error_is_not_final(w: WorkerState, detail: Seq<char>)
    requires
        w.phase is Connected,
    ensures
        transition(w, EventView::WriteFinished(Err(detail))) == (
            w,
            seq![report(send_failed(detail))],
        ),
{
}

/// A read that fails in a session is reported, and `Disconnected` follows
/// at once: these are the outputs of the event, and the worker is at rest.
pub proof fn lemma_read_error_is_final(w: WorkerState, detail: Seq<char>)
    requires
        w.phase is Connected,
    ensures
        transition(w, EventView::ReadFinished { session: w.session, outcome: Err(detail) }).0
            == at_rest(w),
        outputs(
            transition(w, EventView::ReadFinished { session: w.session, outcome: Err(detail) }).1,
        ) == seq![OutputView::Error(read_failed(detail)), OutputView::Disconnected],
{
    let failure = report(read_failed(detail));
    lemma_outputs_small(failure);
    lemma_outputs_add(seq![failure], hang_up());
    assert(seq![OutputView::Error(read_failed(detail))] + seq![OutputView::Disconnected] =~= seq![
        OutputView::Error(read_failed(detail)),
        OutputView::Disconnected,
    ]);
}

/// One `Disconnected` per session: in a connected worker, any events that
/// each end the session (the consumer disconnecting, the reader meeting
/// the end of the stream or an error), in any number and order, bring
/// exactly one `Disconnected` and leave the worker idle.
pub proof fn lemma_one_disconnect(w: WorkerState, events: Seq<EventView>)
    requires
        w.phase is Connected,
        events.len() > 0,
        forall|i: int| 0 <= i < events.len() ==> ends_session(#[trigger] events[i], w.session),
    ensures
        run(w, events).0.phase is Idle,
        disconnects(outputs(run(w, events).1)) == 1,
{
    assert(ends_session(events[0], w.session));
    assert(without_connect(events)) by {
        assert forall|i: int| 0 <= i < events.len() implies #[trigger] events[i]
            != EventView::Input(InputView::Connect) by {
            assert(ends_session(events[i], w.session));
        }
    }
    lemma_session_ends_once(w, events);
}

/// A failed connection attempt is quiet: from rest, the input `Connect`
/// followed by the failure of the attempt brings one `Error` with the
/// text of the failure, no `Connected` and no `Disconnected`, and the
/// worker is at rest again.
pub proof fn lemma_failed_connect(w: WorkerState, detail: Seq<char>)
    requires
        w.phase is Idle,
    ensures
        run(w, seq![EventView::Input(InputView::Connect), EventView::ConnectFailed(detail)]) == (
            at_rest(w),
            seq![ActionView::OpenStream, report(connection_failed(detail))],
        ),
        outputs(
            run(w, seq![EventView::Input(InputView::Connect), EventView::ConnectFailed(detail)]).1,
        ) == seq![OutputView::Error(connection_failed(detail))],
{
    let connect = EventView::Input(InputView::Connect);
    let failed = EventView::ConnectFailed(detail);
    let events = seq![connect, failed];
    let none = Seq::<EventView>::empty();
    assert(events.drop_last() =~= seq![connect]);
    assert(seq![connect].drop_last() =~= none);
    assert(run(w, none) == (w, Seq::<ActionView>::empty()));
    let first = transition(w, connect);
    assert(run(w, seq![connect]) == (first.0, Seq::<ActionView>::empty() + first.1));
    let second = transition(first.0, failed);
    assert(second.0 == at_rest(w));
    let actions = (Seq::<ActionView>::empty() + first.1) + second.1;
    assert(actions =~= seq![ActionView::OpenStream, report(connection_failed(detail))]);
    let empty = Seq::<ActionView>::empty();
    lemma_outputs_push(empty, ActionView::OpenStream);
    lemma_outputs_push(empty.push(ActionView::OpenStream), report(connection_failed(detail)));
    assert(actions =~= empty.push(ActionView::OpenStream).push(report(connection_failed(detail))));
    assert(Seq::<OutputView>::empty().push(OutputView::Error(connection_failed(detail))) =~= seq![
        OutputView::Error(connection_failed(detail)),
    ]);
}

} // verus!
