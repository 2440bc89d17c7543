//! The session driver as a state machine. Its caller waits for the next thing
//! to happen (a call from the daemon, a notification from a local caller, the
//! end of the stream, the shutdown signal, a transport error), hands it to
//! [`SingletonClient::handle`], and carries out the action that comes back.
//! When the run is over, [`SingletonClient::exit_decision`] says whether the
//! process has to exit.

use vstd::prelude::*;
use crate::caller::{outbound_channel, OutboundCaller};
use crate::handlers::{handle_log, handle_shutdown, log_output, ExitFlag};
use crate::protocol::{LogOutput, LogOutputView, MethodCall, MethodCallView, Notification};

verus! {

/// One thing that happens to a session.
#[derive(Clone, Debug, PartialEq, Eq)]
pub enum SessionEvent {
    /// The daemon called a method. Calls are handed over in the order in which
    /// they arrived on the stream.
    Call(MethodCall),
    /// A local caller, such as the keyboard relay, emitted a notification.
    Outbound(Notification),
    /// The stream closed: the daemon went away.
    StreamClosed,
    /// The shutdown signal fired.
    ShutdownSignal,
    /// The transport failed, while it was set up or later, or a message could
    /// not be understood.
    TransportError,
}

/// A [`SessionEvent`] with its parameters viewed.
pub enum SessionEventView {
    Call(MethodCallView),
    Outbound(Notification),
    StreamClosed,
    ShutdownSignal,
    TransportError,
}

impl View for SessionEvent {
    type V = SessionEventView;

    open spec fn view(&self) -> SessionEventView {
        match self {
            SessionEvent::Call(call) => SessionEventView::Call(call@),
            SessionEvent::Outbound(notification) => SessionEventView::Outbound(*notification),
            SessionEvent::StreamClosed => SessionEventView::StreamClosed,
            SessionEvent::ShutdownSignal => SessionEventView::ShutdownSignal,
            SessionEvent::TransportError => SessionEventView::TransportError,
        }
    }
}

/// What the caller has to do in answer to an event.
#[derive(Clone, Debug, PartialEq, Eq)]
pub enum SessionAction {
    /// Answer the call with a bare acknowledgement.
    Acknowledge,
    /// Hand the line to the logger, then answer the call with a bare
    /// acknowledgement.
    Log(LogOutput),
    /// Write the notification to the stream.
    Forward(Notification),
    /// Stop: the run is over.
    Stop,
}

/// A [`SessionAction`] with its line viewed.
pub enum SessionActionView {
    Acknowledge,
    Log(LogOutputView),
    Forward(Notification),
    Stop,
}

impl View for SessionAction {
    type V = SessionActionView;

    open spec fn view(&self) -> SessionActionView {
        match self {
            SessionAction::Acknowledge => SessionActionView::Acknowledge,
            SessionAction::Log(output) => SessionActionView::Log(output@),
            SessionAction::Forward(notification) => SessionActionView::Forward(*notification),
            SessionAction::Stop => SessionActionView::Stop,
        }
    }
}

/// The state of a session: whether `shutdown` was called, and whether the run
/// is still going.
pub struct ClientState {
    pub exit_entirely: bool,
    pub running: bool,
}

/// The state in which every session starts.
pub open spec fn initial_state() -> ClientState {
    ClientState { exit_entirely: false, running: true }
}

/// Whether the event ends the run. The end of the stream, the shutdown signal
/// and a transport error all do; none of them is told apart afterwards.
pub open spec fn ends_run(event: SessionEventView) -> bool {
    event is StreamClosed || event is ShutdownSignal || event is TransportError
}

/// Whether the event is a call of `shutdown`.
pub open spec fn is_shutdown_call(event: SessionEventView) -> bool {
    event == SessionEventView::Call(MethodCallView::Shutdown)
}

/// The action that answers an event while the session runs.
pub open spec fn reaction(event: SessionEventView) -> SessionActionView {
    match event {
        SessionEventView::Call(MethodCallView::Shutdown) => SessionActionView::Acknowledge,
        SessionEventView::Call(MethodCallView::Log(message)) => SessionActionView::Log(
            log_output(message),
        ),
        SessionEventView::Outbound(notification) => SessionActionView::Forward(notification),
        SessionEventView::StreamClosed => SessionActionView::Stop,
        SessionEventView::ShutdownSignal => SessionActionView::Stop,
        SessionEventView::TransportError => SessionActionView::Stop,
    }
}

/// The state after an event. A running session records a `shutdown` call and
/// stops at an event that ends the run; a stopped session stays as it is.
pub open spec fn step(state: ClientState, event: SessionEventView) -> ClientState {
    if state.running {
        ClientState {
            exit_entirely: state.exit_entirely || is_shutdown_call(event),
            running: !ends_run(event),
        }
    } else {
        state
    }
}

/// The action for an event in a given state: the event's reaction while the
/// session runs, `Stop` once it has stopped.
pub open spec fn action_in(state: ClientState, event: SessionEventView) -> SessionActionView {
    if state.running {
        reaction(event)
    } else {
        SessionActionView::Stop
    }
}

/// The state after a series of events, starting from a fresh session.
pub open spec fn state_after(events: Seq<SessionEventView>) -> ClientState
    decreases events.len(),
{
    if events.len() == 0 {
        initial_state()
    } else {
        step(state_after(events.drop_last()), events.last())
    }
}

/// Whether event `i` happens during the run: it exists, and no earlier event
/// ended the run.
pub open spec fn during_run(events: Seq<SessionEventView>, i: int) -> bool {
    &&& 0 <= i < events.len()
    &&& forall|j: int| 0 <= j < i ==> !ends_run(#[trigger] events[j])
}

/// Whether the daemon called `shutdown` at least once during the run.
pub open spec fn shutdown_received(events: Seq<SessionEventView>) -> bool {
    exists|i: int| #[trigger] during_run(events, i) && is_shutdown_call(events[i])
}

/// The events of a recorded run, viewed.
pub open spec fn trace_of(events: Seq<SessionEvent>) -> Seq<SessionEventView> {
    events.map_values(|event: SessionEvent| event@)
}

/// The decisions of one attached client.
#[derive(Debug)]
pub struct SingletonClient {
    exit_entirely: ExitFlag,
    running: bool,
}

impl View for SingletonClient {
    type V = ClientState;

    closed spec fn view(&self) -> ClientState {
        ClientState { exit_entirely: self.exit_entirely@, running: self.running }
    }
}

impl SingletonClient {
    /// A fresh session: running, with no exit asked for.
    pub fn new() -> (client: SingletonClient)
        ensures
            client@ == initial_state(),
    {
        SingletonClient { exit_entirely: ExitFlag::new(), running: true }
    }

    /// Takes in one event and says what to do about it.
    pub fn handle(&mut self, event: &SessionEvent) -> (action: SessionAction)
        ensures
            final(self)@ == step(old(self)@, event@),
            action@ == action_in(old(self)@, event@),
    {
        if !self.running {
            return SessionAction::Stop;
        }
        match event {
            SessionEvent::Call(MethodCall::Shutdown) => {
                handle_shutdown(&mut self.exit_entirely);
                SessionAction::Acknowledge
            },
            SessionEvent::Call(MethodCall::Log(message)) => SessionAction::Log(handle_log(message)),
            SessionEvent::Outbound(notification) => SessionAction::Forward(*notification),
            SessionEvent::StreamClosed | SessionEvent::ShutdownSignal
            | SessionEvent::TransportError => {
                self.running = false;
                SessionAction::Stop
            },
        }
    }

    /// Whether the run is still going.
    pub fn is_running(&self) -> (running: bool)
        ensures
            running == self@.running,
    {
        self.running
    }

    /// Whether the process has to exit: whether `shutdown` was called.
    pub fn exit_decision(&self) -> (exit: bool)
        ensures
            exit == self@.exit_entirely,
    {
        self.exit_entirely.get()
    }
}

/// What a client is started with: the sink for the daemon's log lines, the
/// connection to the daemon, and the handle of the shutdown signal. The crate
/// carries the three along without looking into them.
pub struct SingletonClientArgs<L, S, B> {
    /// The logger.
    pub log: L,
    /// The duplex connection to the daemon.
    pub stream: S,
    /// The shutdown signal.
    pub shutdown: B,
}

/// A session ready to be driven: what it was started with, its decisions, and
/// the channel on which local callers reach it.
pub struct ClientSession<L, S, B> {
    /// The logger, to be given each line of a [`SessionAction::Log`].
    pub log: L,
    /// The duplex connection to the daemon.
    pub stream: S,
    /// The shutdown signal.
    pub shutdown: B,
    /// The decisions of the session, fresh.
    pub client: SingletonClient,
    /// The handle for local callers, to be given to the keyboard relay.
    pub caller: OutboundCaller,
    /// Where the notifications of local callers arrive. Each one is to be
    /// handed to `client` as [`SessionEvent::Outbound`].
    pub outbound: tokio::sync::mpsc::UnboundedReceiver<Notification>,
}

/// Sets up a session: a fresh client and a new channel for local callers,
/// beside the log sink, the stream and the shutdown handle as they were given.
pub fn open_session<L, S, B>(args: SingletonClientArgs<L, S, B>) -> (session: ClientSession<
    L,
    S,
    B,
>)
    ensures
        session.log == args.log,
        session.stream == args.stream,
        session.shutdown == args.shutdown,
        session.client@ == initial_state(),
{
    let (caller, outbound) = outbound_channel();
    ClientSession {
        log: args.log,
        stream: args.stream,
        shutdown: args.shutdown,
        client: SingletonClient::new(),
        caller,
        outbound,
    }
}

/// What a recorded run comes to.
#[derive(Debug)]
pub struct RunOutcome {
    /// The exit decision.
    pub exit: bool,
    /// The action taken for each event of the run, in the order of the events.
    pub actions: Vec<SessionAction>,
}

/// Drives a fresh session through a recorded series of events, up to and
/// including the first one that ends the run.
///
/// The decision is to exit exactly if `shutdown` was called during the run.
/// Each event of the run is answered by its reaction, in arrival order, and
/// no event after the end of the run is answered at all.
pub fn run(events: &Vec<SessionEvent>) -> (outcome: RunOutcome)
    ensures
        outcome.exit == shutdown_received(trace_of(events@)),
        outcome.exit == state_after(trace_of(events@)).exit_entirely,
        forall|i: int|
            0 <= i < outcome.actions@.len() <==> #[trigger] during_run(trace_of(events@), i),
        forall|i: int|
            0 <= i < outcome.actions@.len() ==> (#[trigger] outcome.actions@[i])@ == reaction(
                trace_of(events@)[i],
            ),
{
    let ghost trace = trace_of(events@);
    let mut client = SingletonClient::new();
    let mut actions: Vec<SessionAction> = Vec::new();
    let mut i: usize = 0;
    while i < events.len() && client.is_running()
        invariant
            i <= events.len(),
            trace == trace_of(events@),
            actions@.len() == i,
            forall|k: int| 0 <= k < i ==> #[trigger] during_run(trace, k),
            client@.running <==> forall|j: int| 0 <= j < i ==> !ends_run(#[trigger] trace[j]),
            client@.exit_entirely <==> exists|k: int|
                0 <= k < i && is_shutdown_call(#[trigger] trace[k]),
            forall|k: int| 0 <= k < i ==> (#[trigger] actions@[k])@ == reaction(trace[k]),
        decreases events.len() - i,
    {
        let action = client.handle(&events[i]);
        proof {
            if is_shutdown_call(trace[i as int]) {
                assert(0 <= i < i + 1 && is_shutdown_call(trace[i as int]));
            }
        }
        actions.push(action);
        i += 1;
    }
    proof {
        lemma_exit_iff_shutdown_received(trace);
        if client@.exit_entirely {
            let k = choose|k: int| 0 <= k < i && is_shutdown_call(#[trigger] trace[k]);
            assert(during_run(trace, k));
        }
    }
    RunOutcome { exit: client.exit_decision(), actions }
}

/// The state machine keeps to the run: after any series of events, a fresh
/// session has its exit flag set if and only if `shutdown` was called during
/// the run, however and whether the run ended.
pub proof fn lemma_exit_iff_shutdown_received(events: Seq<SessionEventView>)
    ensures
        state_after(events).exit_entirely <==> shutdown_received(events),
        state_after(events).running <==> forall|j: int|
            0 <= j < events.len() ==> !ends_run(#[trigger] events[j]),
    decreases events.len(),
{
    if events.len() > 0 {
        let earlier = events.drop_last();
        let last = events.len() - 1;
        lemma_exit_iff_shutdown_received(earlier);
        assert forall|i: int| 0 <= i < last implies (during_run(earlier, i) <==> during_run(
            events,
            i,
        )) by {
            assert forall|j: int| 0 <= j < i implies earlier[j] == events[j] by {}
        }
        assert(state_after(earlier).running <==> during_run(events, last)) by {
            assert forall|j: int| 0 <= j < last implies earlier[j] == events[j] by {}
        }
        if shutdown_received(earlier) {
            let i = choose|i: int| #[trigger] during_run(earlier, i) && is_shutdown_call(earlier[i]);
            assert(during_run(events, i) && is_shutdown_call(events[i]));
        }
        if shutdown_received(events) {
            let i = choose|i: int| #[trigger] during_run(events, i) && is_shutdown_call(events[i]);
            if i < last {
                assert(during_run(earlier, i) && is_shutdown_call(earlier[i]));
            }
        }
    }
}

/// Calling `shutdown` twice in a row comes to the same exit decision as
/// calling it once, whatever happened before and whatever follows.
pub proof fn lemma_shutdown_idempotent(
    before: Seq<SessionEventView>,
    after: Seq<SessionEventView>,
)
    ensures
        shutdown_received(
            before.push(SessionEventView::Call(MethodCallView::Shutdown)).push(
                SessionEventView::Call(MethodCallView::Shutdown),
            ) + after,
        ) == shutdown_received(
            before.push(SessionEventView::Call(MethodCallView::Shutdown)) + after,
        ),
        forall|state: ClientState|
            step(
                #[trigger] step(state, SessionEventView::Call(MethodCallView::Shutdown)),
                SessionEventView::Call(MethodCallView::Shutdown),
            ) == step(state, SessionEventView::Call(MethodCallView::Shutdown)),
{
    let call = SessionEventView::Call(MethodCallView::Shutdown);
    let once = before.push(call) + after;
    let twice = before.push(call).push(call) + after;
    let n = before.len() as int;
    assert forall|j: int| 0 <= j <= n implies once[j] == twice[j] by {}
    if shutdown_received(once) {
        let i = choose|i: int| #[trigger] during_run(once, i) && is_shutdown_call(once[i]);
        if i <= n {
            assert(during_run(twice, i) && is_shutdown_call(twice[i]));
        } else {
            assert forall|j: int| 0 <= j < i + 1 implies !ends_run(#[trigger] twice[j]) by {
                if j > n {
                    assert(!ends_run(once[j - 1]));
                } else {
                    assert(!ends_run(once[j]));
                }
            }
            assert(during_run(twice, i + 1) && is_shutdown_call(twice[i + 1]));
        }
    }
    if shutdown_received(twice) {
        let i = choose|i: int| #[trigger] during_run(twice, i) && is_shutdown_call(twice[i]);
        if i <= n {
            assert(during_run(once, i) && is_shutdown_call(once[i]));
        } else {
            assert forall|j: int| 0 <= j < i - 1 implies !ends_run(#[trigger] once[j]) by {
                if j >= n {
                    assert(!ends_run(twice[j + 1]));
                } else {
                    assert(!ends_run(twice[j]));
                }
            }
            assert(during_run(once, i - 1) && is_shutdown_call(once[i - 1]));
        }
    }
}

/// Without a call of `shutdown` the decision is not to exit: whether the stream
/// closed, the shutdown signal fired, the transport failed, or the run simply
/// has not ended.
pub proof fn lemma_no_shutdown_no_exit(events: Seq<SessionEventView>)
    requires
        forall|i: int| 0 <= i < events.len() ==> !is_shutdown_call(#[trigger] events[i]),
    ensures
        !shutdown_received(events),
        !state_after(events).exit_entirely,
{
    lemma_exit_iff_shutdown_received(events);
}

/// The exit flag goes from unset to set and never back, and a session that
/// has stopped stays stopped: whatever else happens after a series of events,
/// a flag that was set is still set, and a run that was over is still over.
pub proof fn lemma_exit_flag_never_resets(
    events: Seq<SessionEventView>,
    more: Seq<SessionEventView>,
)
    ensures
        state_after(events).exit_entirely ==> state_after(events + more).exit_entirely,
        !state_after(events).running ==> !state_after(events + more).running,
        forall|state: ClientState, event: SessionEventView|
            state.exit_entirely ==> (#[trigger] step(state, event)).exit_entirely,
{
    let all = events + more;
    lemma_exit_iff_shutdown_received(events);
    lemma_exit_iff_shutdown_received(all);
    if shutdown_received(events) {
        let i = choose|i: int| #[trigger] during_run(events, i) && is_shutdown_call(events[i]);
        assert(during_run(all, i) && is_shutdown_call(all[i]));
    }
    if !state_after(events).running {
        let j = choose|j: int| 0 <= j < events.len() && ends_run(#[trigger] events[j]);
        assert(ends_run(all[j]));
    }
}

} // verus!
