//! The Bluetooth worker: the state machine between the consumer's inputs
//! and the serial stream to the earbuds.
//!
//! The worker performs no input or output itself. It is handed events
//! (an input of the consumer, the end of a connection attempt, of a write
//! or of a read) and answers each with the actions to take, in order: open
//! or close the stream, start the reader, write bytes, emit an output to the
//! consumer. Whoever runs the worker performs the actions and reports back
//! what came of them.

use vstd::prelude::*;
use vstd::string::StringExecFns;
use crate::bluetooth::ConnectError;
use crate::framing::{frame_views, process_buffer, reframe};
use crate::model::buds_message::{classify, BudsCommand, BudsMessage, MessageView};
use crate::model::device_info::DeviceInfo;

verus! {

/// How many bytes the reader asks of the stream at a time.
pub const READ_BUFFER_SIZE: usize = 2048;

/// Where the worker stands.
#[derive(Clone, Copy, Debug, PartialEq, Eq, Structural)]
pub enum SessionState {
    /// No session, and no attempt at one.
    Idle,
    /// A connection attempt is under way.
    Connecting,
    /// A session is on.
    Connected,
    /// A session is on whose end has begun: it sends and delivers nothing
    /// more, and ends when its reader stops. The worker ends its sessions
    /// at once and never brings itself into this state.
    Disconnecting,
}

/// What the consumer asks of the worker.
#[derive(Debug, Clone, PartialEq, Eq)]
pub enum BudsWorkerInput {
    /// Connect to the device.
    Connect,
    /// End the session.
    Disconnect,
    /// Send these bytes as they are.
    SendData(Vec<u8>),
    /// Encode this command and send it.
    SendCommand(BudsCommand),
}

/// What a `BudsWorkerInput` holds.
pub enum InputView {
    Connect,
    Disconnect,
    SendData(Seq<u8>),
    SendCommand(BudsCommand),
}

impl View for BudsWorkerInput {
    type V = InputView;

    open spec fn view(&self) -> InputView {
        match *self {
            BudsWorkerInput::Connect => InputView::Connect,
            BudsWorkerInput::Disconnect => InputView::Disconnect,
            BudsWorkerInput::SendData(bytes) => InputView::SendData(bytes@),
            BudsWorkerInput::SendCommand(command) => InputView::SendCommand(command),
        }
    }
}

/// What the worker tells the consumer.
#[derive(Debug, Clone, PartialEq, Eq)]
pub enum BudsWorkerOutput {
    /// A session has begun.
    Connected,
    /// The session has ended, or a connection attempt was called off.
    Disconnected,
    /// The earbuds sent a message.
    DataReceived(BudsMessage),
    /// Something failed; the text says what.
    Error(String),
}

/// What a `BudsWorkerOutput` holds.
pub enum OutputView {
    Connected,
    Disconnected,
    DataReceived(MessageView),
    Error(Seq<char>),
}

impl View for BudsWorkerOutput {
    type V = OutputView;

    open spec fn view(&self) -> OutputView {
        match *self {
            BudsWorkerOutput::Connected => OutputView::Connected,
            BudsWorkerOutput::Disconnected => OutputView::Disconnected,
            BudsWorkerOutput::DataReceived(message) => OutputView::DataReceived(message@),
            BudsWorkerOutput::Error(text) => OutputView::Error(text@),
        }
    }
}

/// What happened outside the worker.
#[derive(Debug, PartialEq, Eq)]
pub enum WorkerEvent {
    /// The consumer sent an input.
    Input(BudsWorkerInput),
    /// The connection attempt gave a stream.
    StreamOpened,
    /// The connection attempt failed.
    ConnectFailed(ConnectError),
    /// A write ended, with the text of its error if it failed. A write that
    /// took only a part of the bytes counts as failed.
    WriteFinished(Result<(), String>),
    /// The reader of the given session read from the stream: the bytes it
    /// got, none at the end of the stream, or the text of the error.
    ReadFinished { session: u64, outcome: Result<Vec<u8>, String> },
}

/// What a `WorkerEvent` holds; of a connection error, its text.
pub enum EventView {
    Input(InputView),
    StreamOpened,
    ConnectFailed(Seq<char>),
    WriteFinished(Result<(), Seq<char>>),
    ReadFinished { session: u64, outcome: Result<Seq<u8>, Seq<char>> },
}

impl View for WorkerEvent {
    type V = EventView;

    open spec fn view(&self) -> EventView {
        match *self {
            WorkerEvent::Input(input) => EventView::Input(input@),
            WorkerEvent::StreamOpened => EventView::StreamOpened,
            WorkerEvent::ConnectFailed(error) => EventView::ConnectFailed(error@.message()),
            WorkerEvent::WriteFinished(outcome) => EventView::WriteFinished(
                match outcome {
                    Ok(_) => Ok(()),
                    Err(text) => Err(text@),
                },
            ),
            WorkerEvent::ReadFinished { session, outcome } => EventView::ReadFinished {
                session,
                outcome: match outcome {
                    Ok(bytes) => Ok(bytes@),
                    Err(text) => Err(text@),
                },
            },
        }
    }
}

/// What the worker wants done.
#[derive(Debug, Clone, PartialEq, Eq)]
pub enum WorkerAction {
    /// Start a connection attempt and report `StreamOpened` or
    /// `ConnectFailed`.
    OpenStream,
    /// Give up the connection attempt, or drop the stream and stop its
    /// reader.
    CloseStream,
    /// Start reading from the stream and report each read as `ReadFinished`
    /// with this session number.
    StartReader { session: u64 },
    /// Write all of these bytes to the stream and report `WriteFinished`.
    Write(Vec<u8>),
    /// Hand this output to the consumer.
    Emit(BudsWorkerOutput),
}

/// What a `WorkerAction` holds.
pub enum ActionView {
    OpenStream,
    CloseStream,
    StartReader { session: u64 },
    Write(Seq<u8>),
    Emit(OutputView),
}

impl View for WorkerAction {
    type V = ActionView;

    open spec fn view(&self) -> ActionView {
        match *self {
            WorkerAction::OpenStream => ActionView::OpenStream,
            WorkerAction::CloseStream => ActionView::CloseStream,
            WorkerAction::StartReader { session } => ActionView::StartReader { session },
            WorkerAction::Write(bytes) => ActionView::Write(bytes@),
            WorkerAction::Emit(output) => ActionView::Emit(output@),
        }
    }
}

/// The views of a list of actions.
pub open spec fn action_views(actions: Seq<WorkerAction>) -> Seq<ActionView> {
    actions.map_values(|action: WorkerAction| action@)
}

/// What the worker knows: where it stands; while connecting, whether the
/// stream is open and the greeting on its way; the number of the current or
/// last session; and the bytes received that belong to no complete frame yet.
pub struct WorkerState {
    pub phase: SessionState,
    pub priming: bool,
    pub session: u64,
    pub buffer: Seq<u8>,
}

/// The action that reports an error to the consumer.
pub open spec fn report(text: Seq<char>) -> ActionView {
    ActionView::Emit(OutputView::Error(text))
}

/// The error for an input that needs a session where there is none.
pub open spec fn not_connected() -> Seq<char> {
    "Not connected"@
}

/// The error for a connection attempt that failed.
pub open spec fn connection_failed(detail: Seq<char>) -> Seq<char> {
    "Connection failed: "@ + detail
}

/// The error for a write that failed.
pub open spec fn send_failed(detail: Seq<char>) -> Seq<char> {
    "Send data failed: "@ + detail
}

/// The error for a read that failed.
pub open spec fn read_failed(detail: Seq<char>) -> Seq<char> {
    "Read error: "@ + detail
}

/// The number of the session after the one numbered `session`.
pub open spec fn next_session(session: u64) -> u64 {
    if session == u64::MAX {
        0
    } else {
        (session + 1) as u64
    }
}

/// The state with no session and no attempt.
pub open spec fn at_rest(w: WorkerState) -> WorkerState {
    WorkerState {
        phase: SessionState::Idle,
        priming: false,
        session: w.session,
        buffer: Seq::empty(),
    }
}

/// The actions that end a session or call off an attempt.
pub open spec fn hang_up() -> Seq<ActionView> {
    seq![ActionView::CloseStream, ActionView::Emit(OutputView::Disconnected)]
}

/// What is done with one frame: its message is handed to the consumer,
/// unless the frame is one that is not passed on.
pub open spec fn delivery(frame: Seq<u8>) -> Option<ActionView> {
    match classify(frame) {
        Some(message) => Some(ActionView::Emit(OutputView::DataReceived(message))),
        None => None,
    }
}

/// The deliveries of a run of frames, in order.
pub open spec fn deliveries(frames: Seq<Seq<u8>>) -> Seq<ActionView> {
    frames.filter_map(|frame: Seq<u8>| delivery(frame))
}

/// What the worker does with bytes that are to be sent.
pub open spec fn on_send(w: WorkerState, bytes: Seq<u8>) -> (WorkerState, Seq<ActionView>) {
    match w.phase {
        SessionState::Connected => (w, seq![ActionView::Write(bytes)]),
        SessionState::Idle | SessionState::Connecting => (w, seq![report(not_connected())]),
        SessionState::Disconnecting => (w, Seq::empty()),
    }
}

/// What the worker does with an input of the consumer.
pub open spec fn on_input(w: WorkerState, input: InputView) -> (WorkerState, Seq<ActionView>) {
    match input {
        InputView::Connect => match w.phase {
            SessionState::Idle => (
                WorkerState {
                    phase: SessionState::Connecting,
                    priming: false,
                    session: w.session,
                    buffer: Seq::empty(),
                },
                seq![ActionView::OpenStream],
            ),
            _ => (w, Seq::empty()),
        },
        InputView::Disconnect => match w.phase {
            SessionState::Connecting | SessionState::Connected => (at_rest(w), hang_up()),
            _ => (w, Seq::empty()),
        },
        InputView::SendData(bytes) => on_send(w, bytes),
        InputView::SendCommand(command) => on_send(w, command.encoding()),
    }
}

/// What the worker does when the connection attempt gives a stream: it
/// greets the earbuds with the manager-info command. A stream that comes
/// when nothing is being connected is closed again.
pub open spec fn on_stream_opened(w: WorkerState) -> (WorkerState, Seq<ActionView>) {
    match w.phase {
        SessionState::Connecting => if w.priming {
            (w, Seq::empty())
        } else {
            (
                WorkerState {
                    phase: SessionState::Connecting,
                    priming: true,
                    session: w.session,
                    buffer: Seq::empty(),
                },
                seq![ActionView::Write(BudsCommand::ManagerInfo.encoding())],
            )
        },
        SessionState::Idle => (w, seq![ActionView::CloseStream]),
        _ => (w, Seq::empty()),
    }
}

/// What the worker does when the connection attempt fails.
pub open spec fn on_connect_failed(w: WorkerState, detail: Seq<char>) -> (
    WorkerState,
    Seq<ActionView>,
) {
    if w.phase is Connecting && !w.priming {
        (at_rest(w), seq![report(connection_failed(detail))])
    } else {
        (w, Seq::empty())
    }
}

/// The report of a write, if it failed.
pub open spec fn write_report(outcome: Result<(), Seq<char>>) -> Seq<ActionView> {
    match outcome {
        Ok(_) => Seq::empty(),
        Err(detail) => seq![report(send_failed(detail))],
    }
}

/// What the worker does when a write has ended. The end of the greeting
/// begins the session, whether the greeting went through or not: a failure
/// is reported first, then the consumer is told of the session and the
/// reader is started.
pub open spec fn on_write_finished(w: WorkerState, outcome: Result<(), Seq<char>>) -> (
    WorkerState,
    Seq<ActionView>,
) {
    match w.phase {
        SessionState::Connecting => if w.priming {
            let session = next_session(w.session);
            (
                WorkerState {
                    phase: SessionState::Connected,
                    priming: false,
                    session,
                    buffer: Seq::empty(),
                },
                write_report(outcome) + seq![
                    ActionView::Emit(OutputView::Connected),
                    ActionView::StartReader { session },
                ],
            )
        } else {
            (w, Seq::empty())
        },
        SessionState::Connected => (w, write_report(outcome)),
        _ => (w, Seq::empty()),
    }
}

/// What the worker does when the reader has read. A read of another
/// session than the current one is passed over, as is any read while no
/// session is on. In a session, bytes are added to the buffer, and the
/// frames that are then complete are delivered; the end of the stream ends
/// the session; an error is reported and ends the session too.
pub open spec fn on_read_finished(
    w: WorkerState,
    session: u64,
    outcome: Result<Seq<u8>, Seq<char>>,
) -> (WorkerState, Seq<ActionView>) {
    if session != w.session {
        (w, Seq::empty())
    } else {
        match w.phase {
            SessionState::Connected => match outcome {
                Ok(bytes) => if bytes.len() == 0 {
                    (at_rest(w), hang_up())
                } else {
                    let framed = reframe(w.buffer + bytes);
                    (
                        WorkerState {
                            phase: w.phase,
                            priming: w.priming,
                            session: w.session,
                            buffer: framed.1,
                        },
                        deliveries(framed.0),
                    )
                },
                Err(detail) => (at_rest(w), seq![report(read_failed(detail))] + hang_up()),
            },
            SessionState::Disconnecting => match outcome {
                Ok(bytes) => if bytes.len() == 0 {
                    (at_rest(w), hang_up())
                } else {
                    (w, Seq::empty())
                },
                Err(_) => (at_rest(w), hang_up()),
            },
            _ => (w, Seq::empty()),
        }
    }
}

/// The state after an event, and the actions that the event calls for.
pub open spec fn transition(w: WorkerState, event: EventView) -> (WorkerState, Seq<ActionView>) {
    match event {
        EventView::Input(input) => on_input(w, input),
        EventView::StreamOpened => on_stream_opened(w),
        EventView::ConnectFailed(detail) => on_connect_failed(w, detail),
        EventView::WriteFinished(outcome) => on_write_finished(w, outcome),
        EventView::ReadFinished { session, outcome } => on_read_finished(w, session, outcome),
    }
}

/// The outcome of a read after which the reader has nothing more to read:
/// the end of the stream, or an error.
pub open spec fn ends_reading(outcome: Result<Seq<u8>, Seq<char>>) -> bool {
    match outcome {
        Ok(bytes) => bytes.len() == 0,
        Err(_) => true,
    }
}

/// Says whether the reader stops after a read with this outcome: it goes
/// on after bytes, and stops at the end of the stream and after an error.
pub fn read_ends(outcome: &Result<Vec<u8>, String>) -> (ends: bool)
    ensures
        ends == ends_reading(
            match *outcome {
                Ok(bytes) => Ok(bytes@),
                Err(text) => Err(text@),
            },
        ),
{
    match outcome {
        Ok(bytes) => bytes.len() == 0,
        Err(_) => true,
    }
}

/// `prefix` followed by `detail`.
fn with_detail(prefix: &str, detail: &String) -> (text: String)
    ensures
        text@ == prefix@ + detail@,
{
    let mut text = prefix.to_owned();
    text.append(detail.as_str());
    text
}

/// The worker for one device.
#[derive(Debug)]
pub struct BluetoothWorker<D> {
    device: DeviceInfo<D>,
    state: SessionState,
    priming: bool,
    session: u64,
    buffer: Vec<u8>,
}

impl<D> View for BluetoothWorker<D> {
    type V = WorkerState;

    closed spec fn view(&self) -> WorkerState {
        WorkerState {
            phase: self.state,
            priming: self.priming,
            session: self.session,
            buffer: self.buffer@,
        }
    }
}

impl<D> BluetoothWorker<D> {
    /// The device that the worker is for.
    pub closed spec fn spec_device(&self) -> DeviceInfo<D> {
        self.device
    }

    /// A worker for `device`, at rest.
    pub fn init(device: DeviceInfo<D>) -> (worker: Self)
        ensures
            worker.spec_device() == device,
            worker@ == (WorkerState {
                phase: SessionState::Idle,
                priming: false,
                session: 0,
                buffer: Seq::empty(),
            }),
    {
        BluetoothWorker {
            device,
            state: SessionState::Idle,
            priming: false,
            session: 0,
            buffer: Vec::new(),
        }
    }

    /// The device that the worker is for.
    pub fn device(&self) -> (device: &DeviceInfo<D>)
        ensures
            *device == self.spec_device(),
    {
        &self.device
    }

    /// Where the worker stands.
    pub fn state(&self) -> (state: SessionState)
        ensures
            state == self@.phase,
    {
        self.state
    }

    /// The number of the current session, or of the last one.
    pub fn session(&self) -> (session: u64)
        ensures
            session == self@.session,
    {
        self.session
    }

    /// Brings the worker to rest.
    fn rest(&mut self)
        ensures
            final(self)@ == at_rest(old(self)@),
            final(self).spec_device() == old(self).spec_device(),
    {
        self.state = SessionState::Idle;
        self.priming = false;
        self.buffer.clear();
    }

    /// Ends the session or the attempt: the worker is at rest, the stream is
    /// to be closed and the consumer to be told.
    fn hang_up(&mut self, actions: &mut Vec<WorkerAction>)
        ensures
            final(self)@ == at_rest(old(self)@),
            final(self).spec_device() == old(self).spec_device(),
            action_views(final(actions)@) == action_views(old(actions)@) + hang_up(),
    {
        self.rest();
        actions.push(WorkerAction::CloseStream);
        actions.push(WorkerAction::Emit(BudsWorkerOutput::Disconnected));
        assert(action_views(actions@) =~= action_views(old(actions)@) + hang_up());
    }

    /// Decides what is done with bytes that are to be sent: in a session
    /// they are written; else the consumer is told that there is none.
    fn send_data(&mut self, data: Vec<u8>) -> (actions: Vec<WorkerAction>)
        ensures
            (final(self)@, action_views(actions@)) == on_send(old(self)@, data@),
            final(self).spec_device() == old(self).spec_device(),
    {
        let mut actions: Vec<WorkerAction> = Vec::new();
        match self.state {
            SessionState::Connected => {
                actions.push(WorkerAction::Write(data));
                assert(action_views(actions@) =~= seq![ActionView::Write(data@)]);
            },
            SessionState::Idle | SessionState::Connecting => {
                actions.push(
                    WorkerAction::Emit(BudsWorkerOutput::Error("Not connected".to_owned())),
                );
                assert(action_views(actions@) =~= seq![report(not_connected())]);
            },
            SessionState::Disconnecting => {
                assert(action_views(actions@) =~= Seq::<ActionView>::empty());
            },
        }
        actions
    }

    /// Handles an input of the consumer.
    pub fn handle_input(&mut self, msg: BudsWorkerInput) -> (actions: Vec<WorkerAction>)
        ensures
            (final(self)@, action_views(actions@)) == on_input(old(self)@, msg@),
            final(self).spec_device() == old(self).spec_device(),
    {
        match msg {
            BudsWorkerInput::Connect => {
                let mut actions: Vec<WorkerAction> = Vec::new();
                match self.state {
                    SessionState::Idle => {
                        self.state = SessionState::Connecting;
                        self.priming = false;
                        self.buffer.clear();
                        actions.push(WorkerAction::OpenStream);
                        assert(action_views(actions@) =~= seq![ActionView::OpenStream]);
                    },
                    _ => {
                        assert(action_views(actions@) =~= Seq::<ActionView>::empty());
                    },
                }
                actions
            },
            BudsWorkerInput::Disconnect => {
                let mut actions: Vec<WorkerAction> = Vec::new();
                assert(action_views(actions@) =~= Seq::<ActionView>::empty());
                match self.state {
                    SessionState::Connecting | SessionState::Connected => {
                        self.hang_up(&mut actions);
                        assert(Seq::<ActionView>::empty() + hang_up() =~= hang_up());
                    },
                    _ => {},
                }
                actions
            },
            BudsWorkerInput::SendData(data) => self.send_data(data),
            BudsWorkerInput::SendCommand(command) => self.send_data(command.to_bytes()),
        }
    }

    /// Takes note that the connection attempt gave a stream.
    pub fn stream_opened(&mut self) -> (actions: Vec<WorkerAction>)
        ensures
            (final(self)@, action_views(actions@)) == on_stream_opened(old(self)@),
            final(self).spec_device() == old(self).spec_device(),
    {
        let mut actions: Vec<WorkerAction> = Vec::new();
        assert(action_views(actions@) =~= Seq::<ActionView>::empty());
        match self.state {
            SessionState::Connecting => {
                if !self.priming {
                    self.priming = true;
                    self.buffer.clear();
                    actions.push(WorkerAction::Write(BudsCommand::ManagerInfo.to_bytes()));
                    assert(action_views(actions@) =~= seq![
                        ActionView::Write(BudsCommand::ManagerInfo.encoding()),
                    ]);
                }
            },
            SessionState::Idle => {
                actions.push(WorkerAction::CloseStream);
                assert(action_views(actions@) =~= seq![ActionView::CloseStream]);
            },
            _ => {},
        }
        actions
    }

    /// Takes note that the connection attempt failed.
    pub fn connect_failed(&mut self, error: ConnectError) -> (actions: Vec<WorkerAction>)
        ensures
            (final(self)@, action_views(actions@)) == on_connect_failed(
                old(self)@,
                error@.message(),
            ),
            final(self).spec_device() == old(self).spec_device(),
    {
        let mut actions: Vec<WorkerAction> = Vec::new();
        assert(action_views(actions@) =~= Seq::<ActionView>::empty());
        if matches!(self.state, SessionState::Connecting) && !self.priming {
            self.rest();
            let detail = error.message();
            actions.push(
                WorkerAction::Emit(
                    BudsWorkerOutput::Error(with_detail("Connection failed: ", &detail)),
                ),
            );
            assert(action_views(actions@) =~= seq![report(connection_failed(error@.message()))]);
        }
        actions
    }

    /// Adds the report of a write to `actions`, if the write failed.
    fn report_write(outcome: Result<(), String>, actions: &mut Vec<WorkerAction>)
        ensures
            action_views(final(actions)@) == action_views(old(actions)@) + write_report(
                match outcome {
                    Ok(_) => Ok(()),
                    Err(text) => Err(text@),
                },
            ),
    {
        match outcome {
            Ok(_) => {
                assert(action_views(actions@) + Seq::<ActionView>::empty() =~= action_views(
                    actions@,
                ));
            },
            Err(detail) => {
                actions.push(
                    WorkerAction::Emit(
                        BudsWorkerOutput::Error(with_detail("Send data failed: ", &detail)),
                    ),
                );
                assert(action_views(actions@) =~= action_views(old(actions)@) + seq![
                    report(send_failed(detail@)),
                ]);
            },
        }
    }

    /// Takes note that a write has ended.
    pub fn write_finished(&mut self, outcome: Result<(), String>) -> (actions: Vec<WorkerAction>)
        ensures
            (final(self)@, action_views(actions@)) == on_write_finished(
                old(self)@,
                match outcome {
                    Ok(_) => Ok(()),
                    Err(text) => Err(text@),
                },
            ),
            final(self).spec_device() == old(self).spec_device(),
    {
        let mut actions: Vec<WorkerAction> = Vec::new();
        assert(action_views(actions@) =~= Seq::<ActionView>::empty());
        match self.state {
            SessionState::Connecting => {
                if self.priming {
                    let session = if self.session == u64::MAX {
                        0
                    } else {
                        self.session + 1
                    };
                    self.priming = false;
                    self.state = SessionState::Connected;
                    self.session = session;
                    self.buffer.clear();
                    Self::report_write(outcome, &mut actions);
                    let ghost reported = action_views(actions@);
                    actions.push(WorkerAction::Emit(BudsWorkerOutput::Connected));
                    actions.push(WorkerAction::StartReader { session });
                    assert(action_views(actions@) =~= reported + seq![
                        ActionView::Emit(OutputView::Connected),
                        ActionView::StartReader { session },
                    ]);
                    assert(Seq::<ActionView>::empty() + reported =~= reported);
                }
            },
            SessionState::Connected => {
                Self::report_write(outcome, &mut actions);
                assert(Seq::<ActionView>::empty() + action_views(actions@) =~= action_views(
                    actions@,
                ));
            },
            _ => {},
        }
        actions
    }

    /// Classifies the frames and hands on the messages of those that are
    /// passed on, in order.
    fn deliver(frames: Vec<Vec<u8>>) -> (actions: Vec<WorkerAction>)
        ensures
            action_views(actions@) == deliveries(frame_views(frames@)),
    {
        let mut actions: Vec<WorkerAction> = Vec::new();
        let ghost all = frame_views(frames@);
        let mut i: usize = 0;
        assert(deliveries(all.take(0)) =~= Seq::<ActionView>::empty());
        assert(action_views(actions@) =~= Seq::<ActionView>::empty());
        while i < frames.len()
            invariant
                i <= frames.len(),
                all == frame_views(frames@),
                action_views(actions@) == deliveries(all.take(i as int)),
            decreases frames.len() - i,
        {
            proof {
                assert(all.take(i + 1).drop_last() =~= all.take(i as int));
                assert(all.take(i + 1).last() == frames@[i as int]@);
            }
            let ghost before = action_views(actions@);
            if let Some(message) = BudsMessage::from_bytes(frames[i].as_slice()) {
                actions.push(WorkerAction::Emit(BudsWorkerOutput::DataReceived(message)));
                assert(action_views(actions@) =~= before + seq![
                    ActionView::Emit(OutputView::DataReceived(message@)),
                ]);
            }
            i += 1;
        }
        assert(all.take(frames.len() as int) =~= all);
        actions
    }

    /// Takes note of what the reader read.
    pub fn read_finished(&mut self, session: u64, outcome: Result<Vec<u8>, String>) -> (actions:
        Vec<WorkerAction>)
        ensures
            (final(self)@, action_views(actions@)) == on_read_finished(
                old(self)@,
                session,
                match outcome {
                    Ok(bytes) => Ok(bytes@),
                    Err(text) => Err(text@),
                },
            ),
            final(self).spec_device() == old(self).spec_device(),
    {
        let mut actions: Vec<WorkerAction> = Vec::new();
        assert(action_views(actions@) =~= Seq::<ActionView>::empty());
        if session != self.session {
            return actions;
        }
        match self.state {
            SessionState::Connected => match outcome {
                Ok(bytes) => {
                    if bytes.len() == 0 {
                        self.hang_up(&mut actions);
                        assert(Seq::<ActionView>::empty() + hang_up() =~= hang_up());
                        actions
                    } else {
                        let mut bytes = bytes;
                        self.buffer.append(&mut bytes);
                        let frames = process_buffer(&mut self.buffer);
                        Self::deliver(frames)
                    }
                },
                Err(detail) => {
                    actions.push(
                        WorkerAction::Emit(
                            BudsWorkerOutput::Error(with_detail("Read error: ", &detail)),
                        ),
                    );
                    assert(action_views(actions@) =~= seq![report(read_failed(detail@))]);
                    self.hang_up(&mut actions);
                    actions
                },
            },
            SessionState::Disconnecting => {
                let ended = match &outcome {
                    Ok(bytes) => bytes.len() == 0,
                    Err(_) => true,
                };
                if ended {
                    self.hang_up(&mut actions);
                    assert(Seq::<ActionView>::empty() + hang_up() =~= hang_up());
                }
                actions
            },
            _ => actions,
        }
    }

    /// Takes an event and answers with the actions to perform, in order.
    pub fn step(&mut self, event: WorkerEvent) -> (actions: Vec<WorkerAction>)
        ensures
            (final(self)@, action_views(actions@)) == transition(old(self)@, event@),
            final(self).spec_device() == old(self).spec_device(),
    {
        match event {
            WorkerEvent::Input(input) => self.handle_input(input),
            WorkerEvent::StreamOpened => self.stream_opened(),
            WorkerEvent::ConnectFailed(error) => self.connect_failed(error),
            WorkerEvent::WriteFinished(outcome) => self.write_finished(outcome),
            WorkerEvent::ReadFinished { session, outcome } => self.read_finished(session, outcome),
        }
    }
}

} // verus!
