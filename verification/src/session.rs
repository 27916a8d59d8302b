//! The session supervisor: the one place that knows whether a session still
//! exists, serves the commands of its handles in the order of their
//! arrival, and owns the cancellation signal of the connection lifecycle
//! and of the media fan-out.
use vstd::prelude::*;
use std::collections::VecDeque;
use crate::cancel::{CancelToken, CancelTree, CancelTreeView, derives_in};
use crate::config::{CameraConfig, SessionError, Track};
use crate::fanout::{
    FanOut, FanOutAction, FanOutView, Forwarded, REQUEST_QUEUE, StreamRequest, Subscription,
    lemma_fanout_readers_wf, lemma_fanout_stays_wf, lemma_fanout_turns_wf,
};
use crate::hub::Received;
use crate::lifecycle::{
    ConnectionRef, Effects, Lifecycle, LifecycleEvent, LifecycleView, Phase, Publish, Startup,
    World, lemma_world_step, spec_next_serial,
};

verus! {

/// Most commands that wait for the supervisor at one time.
pub const COMMAND_QUEUE: usize = 100;

/// Frames that each track keeps for its subscribers.
pub const HISTORY: usize = 100;

/// What a handle can ask of the supervisor. The number names the reply
/// slot of the requester.
#[derive(Clone, Copy, Debug, PartialEq, Eq, Structural)]
pub enum NeoCamCommand {
    /// Terminate the session.
    HangUp,
    /// Reply with a new handle.
    Instance(u64),
    /// Reply with a subscription to the track.
    Stream(Track, u64),
}

/// A handle on a session: the capability to look at the connection, to ask
/// for subscriptions and to watch for the end of the session.
#[derive(Clone, Copy, Debug, PartialEq, Eq, Structural)]
pub struct NeoInstance {
    /// Number of the handle, in the order of issue.
    pub id: u64,
}

/// What the driver reports to the supervisor.
#[derive(Clone, Copy, Debug, PartialEq, Eq, Structural)]
pub enum Report {
    /// The retry timer ran out.
    RetryElapsed,
    /// The handshake in flight produced a connection.
    HandshakeOk,
    /// The handshake in flight failed.
    HandshakeFailed,
    /// The named connection reported an error.
    ConnectionLost(ConnectionRef),
}

/// What became of a command that a handle handed in.
#[derive(Clone, Copy, Debug, PartialEq, Eq, Structural)]
pub enum Submitted {
    /// The command waits for its turn.
    Queued,
    /// The queue is full: the caller has to wait and hand it in again.
    Full,
    /// The session has been shut down: the command is lost.
    Closed,
}

/// How a step of the supervisor ended.
#[derive(Clone, Copy, Debug, PartialEq, Eq, Structural)]
pub enum Outcome {
    /// The session had been shut down before; nothing was served.
    Stopped,
    /// No command waits.
    Idle,
    /// The oldest command is a subscription request and the fan-out has no
    /// room for it: it stays where it is.
    Blocked,
    /// This step shut the session down.
    Terminated,
    /// A handle was made: fill the reply slot with it.
    Instance { ticket: u64, instance: NeoInstance },
    /// A subscription request went on to the fan-out.
    Forwarded { ticket: u64 },
    /// A subscription request found the fan-out gone.
    Lost { ticket: u64 },
    /// A report was taken in.
    Applied,
}

/// The result of a step of the supervisor.
#[derive(Debug)]
pub struct Step {
    pub outcome: Outcome,
    /// What the driver has to do about the connection.
    pub effects: Effects,
    /// Reply slots that will never be filled, oldest first.
    pub dropped: Vec<u64>,
}

/// [`Step`] as plain values.
pub struct StepView {
    pub outcome: Outcome,
    pub effects: Effects,
    pub dropped: Seq<u64>,
}

impl View for Step {
    type V = StepView;

    open spec fn view(&self) -> StepView {
        StepView { outcome: self.outcome, effects: self.effects, dropped: self.dropped@ }
    }
}

impl Step {
    /// A step that only reports how it ended.
    pub fn plain(outcome: Outcome) -> (step: Step)
        ensures
            step@ == StepView::plain(outcome),
    {
        Step { outcome, effects: Effects::none(), dropped: Vec::new() }
    }
}

impl StepView {
    /// A step that only reports how it ended.
    pub open spec fn plain(outcome: Outcome) -> StepView {
        StepView { outcome, effects: Effects::spec_none(), dropped: Seq::empty() }
    }
}

impl Report {
    /// The report as an event of the connection lifecycle.
    pub open spec fn spec_event(self) -> LifecycleEvent {
        match self {
            Report::RetryElapsed => LifecycleEvent::RetryElapsed,
            Report::HandshakeOk => LifecycleEvent::HandshakeOk,
            Report::HandshakeFailed => LifecycleEvent::HandshakeFailed,
            Report::ConnectionLost(conn) => LifecycleEvent::ConnectionLost(conn),
        }
    }

    /// The report as an event of the connection lifecycle.
    pub fn event(self) -> (event: LifecycleEvent)
        ensures
            event == self.spec_event(),
    {
        match self {
            Report::RetryElapsed => LifecycleEvent::RetryElapsed,
            Report::HandshakeOk => LifecycleEvent::HandshakeOk,
            Report::HandshakeFailed => LifecycleEvent::HandshakeFailed,
            Report::ConnectionLost(conn) => LifecycleEvent::ConnectionLost(conn),
        }
    }
}

impl NeoCamCommand {
    /// The reply slot of the command, if it has one.
    pub open spec fn spec_ticket(self) -> Option<u64> {
        match self {
            NeoCamCommand::HangUp => None,
            NeoCamCommand::Instance(ticket) => Some(ticket),
            NeoCamCommand::Stream(_, ticket) => Some(ticket),
        }
    }

    /// The reply slot of the command, if it has one.
    pub fn ticket(self) -> (ticket: Option<u64>)
        ensures
            ticket == self.spec_ticket(),
    {
        match self {
            NeoCamCommand::HangUp => None,
            NeoCamCommand::Instance(ticket) => Some(ticket),
            NeoCamCommand::Stream(_, ticket) => Some(ticket),
        }
    }
}

/// The reply slots of a sequence of commands, in the order of the commands.
pub open spec fn tickets_of(commands: Seq<NeoCamCommand>) -> Seq<u64>
    decreases commands.len(),
{
    if commands.len() == 0 {
        Seq::empty()
    } else {
        match commands[0].spec_ticket() {
            Some(ticket) => seq![ticket] + tickets_of(commands.drop_first()),
            None => tickets_of(commands.drop_first()),
        }
    }
}

/// The token of the session itself.
pub const SESSION_TOKEN: usize = 0;

/// The token of the control loop.
pub const CONTROL_TOKEN: usize = 1;

/// The token of the connection lifecycle.
pub const LIFECYCLE_TOKEN: usize = 2;

/// The token of the media fan-out.
pub const FANOUT_TOKEN: usize = 3;

/// A session as plain values.
pub struct NeoCamView {
    /// The latest configuration.
    pub config: CameraConfig,
    pub cancel: CancelTreeView,
    pub lifecycle: LifecycleView,
    pub fanout: FanOutView,
    /// Commands that wait, oldest first.
    pub commands: Seq<NeoCamCommand>,
    /// Number of handles issued so far.
    pub issued: u64,
}

impl NeoCamView {
    /// Whether the session has been shut down.
    pub open spec fn closed(self) -> bool {
        self.cancel.cancelled[SESSION_TOKEN as int]
    }

    /// The connection that observers see.
    pub open spec fn published(self) -> Option<ConnectionRef> {
        self.lifecycle.live
    }

    /// The cancellation tree holds the session and its three workers. The
    /// control loop and the lifecycle are cancelled with the session and
    /// never before; the fan-out is cancelled exactly when it has stopped,
    /// with the session or before. A session that is shut down holds no
    /// command, and a fan-out that runs follows the published connection.
    pub open spec fn wf(self) -> bool {
        &&& self.cancel.wf()
        &&& self.cancel.parents == seq![0usize, 0usize, 0usize, 0usize]
        &&& self.cancel.cancelled[CONTROL_TOKEN as int] == self.closed()
        &&& self.cancel.cancelled[LIFECYCLE_TOKEN as int] == self.closed()
        &&& self.cancel.cancelled[FANOUT_TOKEN as int] == self.fanout.stopped
        &&& self.lifecycle.wf()
        &&& self.fanout.wf()
        &&& self.commands.len() <= COMMAND_QUEUE
        &&& self.closed() <==> self.lifecycle.phase == Phase::Stopped
        &&& self.closed() ==> self.fanout.stopped && self.commands.len() == 0
        &&& !self.fanout.stopped ==> self.fanout.connection == self.lifecycle.live
    }

    /// The session right after its creation, which is itself a need for
    /// the connection: the first handshake is under way.
    pub open spec fn create(config: CameraConfig) -> NeoCamView {
        NeoCamView {
            config,
            cancel: CancelTreeView::root().child(0).child(0).child(0),
            lifecycle: LifecycleView::init(config.max_attempts).step(LifecycleEvent::Need).0,
            fanout: FanOutView::init(HISTORY as nat),
            commands: Seq::empty(),
            issued: 0,
        }
    }

    /// The session is shut down: the signal is raised for the session and
    /// all its workers, the connection is retracted and closed, and every
    /// command and request that still waits loses its reply.
    pub open spec fn close(self) -> (NeoCamView, StepView) {
        if self.closed() {
            (self, StepView::plain(Outcome::Stopped))
        } else {
            let (lifecycle, effects) = self.lifecycle.step(LifecycleEvent::Cancelled);
            (
                NeoCamView {
                    cancel: self.cancel.cancel(SESSION_TOKEN as int),
                    lifecycle,
                    fanout: self.fanout.stop(),
                    commands: Seq::empty(),
                    ..self
                },
                StepView {
                    outcome: Outcome::Terminated,
                    effects,
                    dropped: tickets_of(self.commands) + self.fanout.tickets(),
                },
            )
        }
    }

    /// The fan-out is gone while the session lives on: its token is
    /// cancelled, the requests that it held lose their replies, and
    /// requests that come later are lost as well.
    pub open spec fn fanout_gone(self) -> (NeoCamView, StepView) {
        if self.fanout.stopped {
            (self, StepView::plain(Outcome::Stopped))
        } else {
            (
                NeoCamView {
                    cancel: self.cancel.cancel(FANOUT_TOKEN as int),
                    fanout: self.fanout.stop(),
                    ..self
                },
                StepView {
                    outcome: Outcome::Applied,
                    effects: Effects::spec_none(),
                    dropped: self.fanout.tickets(),
                },
            )
        }
    }

    /// A handle hands in a command.
    pub open spec fn submit(self, command: NeoCamCommand) -> (NeoCamView, Submitted) {
        if self.closed() {
            (self, Submitted::Closed)
        } else if self.commands.len() >= COMMAND_QUEUE {
            (self, Submitted::Full)
        } else {
            (NeoCamView { commands: self.commands.push(command), ..self }, Submitted::Queued)
        }
    }

    /// The control loop serves the oldest command. A subscription request
    /// goes on to the fan-out with the strictness of the latest
    /// configuration.
    pub open spec fn serve(self) -> (NeoCamView, StepView) {
        if self.closed() {
            (self, StepView::plain(Outcome::Stopped))
        } else if self.commands.len() == 0 {
            (self, StepView::plain(Outcome::Idle))
        } else {
            let rest = self.commands.drop_first();
            match self.commands[0] {
                NeoCamCommand::HangUp => NeoCamView { commands: rest, ..self }.close(),
                NeoCamCommand::Instance(ticket) => {
                    let (lifecycle, effects) = self.lifecycle.step(LifecycleEvent::Need);
                    (
                        NeoCamView {
                            commands: rest,
                            lifecycle,
                            issued: spec_next_serial(self.issued),
                            ..self
                        },
                        StepView {
                            outcome: Outcome::Instance {
                                ticket,
                                instance: NeoInstance { id: self.issued },
                            },
                            effects,
                            dropped: Seq::empty(),
                        },
                    )
                },
                NeoCamCommand::Stream(track, ticket) => {
                    let (fanout, forwarded) = self.fanout.submit(
                        StreamRequest { track, ticket, strict: self.config.strict },
                    );
                    match forwarded {
                        Forwarded::Queued => (
                            NeoCamView { commands: rest, fanout, ..self },
                            StepView::plain(Outcome::Forwarded { ticket }),
                        ),
                        Forwarded::Full => (self, StepView::plain(Outcome::Blocked)),
                        Forwarded::Gone => (
                            NeoCamView { commands: rest, ..self },
                            StepView {
                                outcome: Outcome::Lost { ticket },
                                effects: Effects::spec_none(),
                                dropped: seq![ticket],
                            },
                        ),
                    }
                },
            }
        }
    }

    /// The driver reports on the connection. The lifecycle takes the
    /// event and the fan-out follows what is published. A creation that
    /// uses up its attempt budget shuts the session down.
    pub open spec fn report(self, report: Report) -> (NeoCamView, StepView) {
        let (lifecycle, effects) = self.lifecycle.step(report.spec_event());
        let synced = NeoCamView {
            lifecycle,
            fanout: self.fanout.connection_changed(lifecycle.live),
            ..self
        };
        if self.closed() {
            (synced, StepView { outcome: Outcome::Stopped, effects, dropped: Seq::empty() })
        } else if lifecycle.phase == Phase::Stopped {
            (
                NeoCamView {
                    cancel: self.cancel.cancel(SESSION_TOKEN as int),
                    fanout: self.fanout.stop(),
                    commands: Seq::empty(),
                    ..synced
                },
                StepView {
                    outcome: Outcome::Terminated,
                    effects,
                    dropped: tickets_of(self.commands) + self.fanout.tickets(),
                },
            )
        } else {
            (synced, StepView { outcome: Outcome::Applied, effects, dropped: Seq::empty() })
        }
    }

    /// The configuration is replaced. A live connection is taken down and
    /// made again with the new configuration.
    pub open spec fn update_config(self, config: CameraConfig) -> (
        NeoCamView,
        Result<Effects, SessionError>,
    ) {
        if self.closed() {
            (self, Err(SessionError::SessionClosed))
        } else {
            let (lifecycle, effects) = self.lifecycle.step(LifecycleEvent::ConfigChanged);
            (
                NeoCamView {
                    config,
                    lifecycle,
                    fanout: self.fanout.connection_changed(lifecycle.live),
                    ..self
                },
                Ok(effects),
            )
        }
    }

    /// A new handle is issued.
    pub open spec fn subscribe(self) -> (NeoCamView, Result<NeoInstance, SessionError>) {
        if self.closed() {
            (self, Err(SessionError::SessionClosed))
        } else {
            (
                NeoCamView { issued: spec_next_serial(self.issued), ..self },
                Ok(NeoInstance { id: self.issued }),
            )
        }
    }

    /// Whether the creation of the session has been decided, and how.
    pub open spec fn creation(self) -> Option<Result<(), SessionError>> {
        match self.lifecycle.startup {
            Startup::Ready => Some(Ok(())),
            Startup::Failed => Some(Err(SessionError::ConnectError)),
            Startup::Pending => if self.closed() {
                Some(Err(SessionError::SessionClosed))
            } else {
                None
            },
        }
    }
}

impl NeoInstance {
    /// What the handle sees of the connection: the published reference, or
    /// that there is none.
    pub open spec fn spec_get_connection(self, cam: NeoCamView) -> Result<
        ConnectionRef,
        SessionError,
    > {
        match cam.published() {
            Some(conn) => Ok(conn),
            None => Err(SessionError::NotConnected),
        }
    }
}


/// Cancelling the session token of a session's tree cancels all four of
/// its tokens.
pub proof fn lemma_session_tree_closes(tree: CancelTreeView)
    requires
        tree.wf(),
        tree.parents == seq![0usize, 0usize, 0usize, 0usize],
    ensures
        tree.cancel(SESSION_TOKEN as int).wf(),
        tree.cancel(SESSION_TOKEN as int).parents == tree.parents,
        forall|t: int| 0 <= t < 4 ==> #[trigger] tree.cancel(SESSION_TOKEN as int).cancelled[t],
{
    reveal_with_fuel(derives_in, 3);
    crate::cancel::lemma_cancel_wf(tree, SESSION_TOKEN as int);
    let closed = tree.cancel(SESSION_TOKEN as int);
    assert forall|t: int| 0 <= t < 4 implies #[trigger] closed.cancelled[t] by {
        assert(tree.parents[t] == 0);
        assert(derives_in(tree.parents, t, 0));
    }
}

/// Cancelling the token of the fan-out cancels that token and no other.
pub proof fn lemma_session_tree_loses_fanout(tree: CancelTreeView)
    requires
        tree.wf(),
        tree.parents == seq![0usize, 0usize, 0usize, 0usize],
    ensures
        tree.cancel(FANOUT_TOKEN as int).wf(),
        tree.cancel(FANOUT_TOKEN as int).parents == tree.parents,
        tree.cancel(FANOUT_TOKEN as int).cancelled[FANOUT_TOKEN as int],
        forall|t: int|
            0 <= t < 3 ==> #[trigger] tree.cancel(FANOUT_TOKEN as int).cancelled[t]
                == tree.cancelled[t],
{
    reveal_with_fuel(derives_in, 3);
    crate::cancel::lemma_cancel_wf(tree, FANOUT_TOKEN as int);
    let lost = tree.cancel(FANOUT_TOKEN as int);
    assert forall|t: int| 0 <= t < 3 implies #[trigger] lost.cancelled[t] == tree.cancelled[t] by {
        assert(tree.parents[t] == 0);
        assert(!derives_in(tree.parents, t, 3));
    }
}

/// Anything that can happen to a session.
pub enum Input {
    Submit(NeoCamCommand),
    Serve,
    Report(Report),
    UpdateConfig(CameraConfig),
    Subscribe,
    Shutdown,
    NextGrant,
    UpstreamOpened(Track, bool),
    Frame(Track, Seq<u8>),
    Recv(Subscription),
    Unsubscribe(Subscription),
    FanOutGone,
}

impl NeoCamView {
    /// The session after one input.
    pub open spec fn apply(self, input: Input) -> NeoCamView {
        match input {
            Input::Submit(command) => self.submit(command).0,
            Input::Serve => self.serve().0,
            Input::Report(report) => self.report(report).0,
            Input::UpdateConfig(config) => self.update_config(config).0,
            Input::Subscribe => self.subscribe().0,
            Input::Shutdown => self.close().0,
            Input::NextGrant => NeoCamView { fanout: self.fanout.next_action().0, ..self },
            Input::UpstreamOpened(track, ok) => NeoCamView {
                fanout: self.fanout.upstream_opened(track, ok),
                ..self
            },
            Input::Frame(track, data) => NeoCamView {
                fanout: self.fanout.frame(track, data),
                ..self
            },
            Input::Recv(subscription) => NeoCamView {
                fanout: self.fanout.recv(subscription).0,
                ..self
            },
            Input::Unsubscribe(subscription) => NeoCamView {
                fanout: self.fanout.unsubscribe(subscription),
                ..self
            },
            Input::FanOutGone => self.fanout_gone().0,
        }
    }

    /// What the driver has to do about the connection after one input.
    pub open spec fn effects_of(self, input: Input) -> Effects {
        match input {
            Input::Serve => self.serve().1.effects,
            Input::Report(report) => self.report(report).1.effects,
            Input::UpdateConfig(config) => match self.update_config(config).1 {
                Ok(effects) => effects,
                Err(_) => Effects::spec_none(),
            },
            Input::Shutdown => self.close().1.effects,
            _ => Effects::spec_none(),
        }
    }

    /// The session after a sequence of inputs.
    pub open spec fn run(self, inputs: Seq<Input>) -> NeoCamView
        decreases inputs.len(),
    {
        if inputs.len() == 0 {
            self
        } else {
            self.apply(inputs[0]).run(inputs.drop_first())
        }
    }
}

impl NeoInstance {
    /// What the handle sees of the connection after each of a sequence of
    /// inputs to the session.
    pub open spec fn observations(self, cam: NeoCamView, inputs: Seq<Input>) -> Seq<
        Result<ConnectionRef, SessionError>,
    >
        decreases inputs.len(),
    {
        if inputs.len() == 0 {
            Seq::empty()
        } else {
            let next = cam.apply(inputs[0]);
            seq![self.spec_get_connection(next)] + self.observations(next, inputs.drop_first())
        }
    }
}

/// The session right after its creation is well formed and lives.
pub proof fn lemma_create_wf(config: CameraConfig)
    ensures
        NeoCamView::create(config).wf(),
        !NeoCamView::create(config).closed(),
        NeoCamView::create(config).published().is_none(),
        NeoCamView::create(config).lifecycle.phase == Phase::Connecting,
{
    let v = NeoCamView::create(config);
    assert(v.cancel.parents =~= seq![0usize, 0usize, 0usize, 0usize]);
    assert(v.cancel.cancelled =~= seq![false, false, false, false]);
}

/// Shutting down keeps the session well formed.
pub proof fn lemma_close_wf(v: NeoCamView)
    requires
        v.wf(),
    ensures
        v.close().0.wf(),
        v.close().0.closed(),
{
    lemma_session_tree_closes(v.cancel);
    lemma_fanout_stays_wf(v.fanout, None);
}

/// A subscription request that finds the fan-out gone is taken from the
/// queue and its reply slot is given back as lost; the session lives on.
pub proof fn lemma_request_is_lost_without_fanout(v: NeoCamView, track: Track, ticket: u64)
    requires
        v.wf(),
        !v.closed(),
        v.fanout.stopped,
        v.commands.len() > 0,
        v.commands[0] == NeoCamCommand::Stream(track, ticket),
    ensures
        v.serve().1.outcome == (Outcome::Lost { ticket }),
        v.serve().1.dropped == seq![ticket],
        v.serve().0.commands == v.commands.drop_first(),
        !v.serve().0.closed(),
        v.fanout_gone() == (v, StepView::plain(Outcome::Stopped)),
{
}

/// A turn of the control loop keeps the session well formed.
pub proof fn lemma_serve_wf(v: NeoCamView)
    requires
        v.wf(),
    ensures
        v.serve().0.wf(),
{
    if !v.closed() && v.commands.len() > 0 {
        let rest = NeoCamView { commands: v.commands.drop_first(), ..v };
        match v.commands[0] {
            NeoCamCommand::HangUp => {
                lemma_close_wf(rest);
            },
            NeoCamCommand::Instance(_) => {},
            NeoCamCommand::Stream(track, ticket) => {
                lemma_fanout_stays_wf(v.fanout, None);
            },
        }
    }
}

/// A report keeps the session well formed.
pub proof fn lemma_report_wf(v: NeoCamView, report: Report)
    requires
        v.wf(),
    ensures
        v.report(report).0.wf(),
{
    let lifecycle = v.lifecycle.step(report.spec_event()).0;
    lemma_session_tree_closes(v.cancel);
    lemma_fanout_stays_wf(v.fanout, lifecycle.live);
}

/// A new configuration keeps the session well formed.
pub proof fn lemma_update_config_wf(v: NeoCamView, config: CameraConfig)
    requires
        v.wf(),
    ensures
        v.update_config(config).0.wf(),
{
    let lifecycle = v.lifecycle.step(LifecycleEvent::ConfigChanged).0;
    lemma_fanout_stays_wf(v.fanout, lifecycle.live);
}

/// A session stays well formed when its fan-out changes to a well-formed
/// one that is stopped, and connected, as before.
pub proof fn lemma_fanout_turn_wf(v: NeoCamView, fanout: FanOutView)
    requires
        v.wf(),
        fanout.wf(),
        fanout.stopped == v.fanout.stopped,
        fanout.connection == v.fanout.connection,
    ensures
        (NeoCamView { fanout, ..v }).wf(),
{
}

/// Whatever happens to a session, it stays well formed.
pub proof fn lemma_apply_wf(v: NeoCamView, input: Input)
    requires
        v.wf(),
    ensures
        v.apply(input).wf(),
{
    match input {
        Input::Submit(_) => {},
        Input::Serve => {
            lemma_serve_wf(v);
        },
        Input::Report(report) => {
            lemma_report_wf(v, report);
        },
        Input::UpdateConfig(config) => {
            lemma_update_config_wf(v, config);
        },
        Input::Subscribe => {},
        Input::Shutdown => {
            lemma_close_wf(v);
        },
        Input::NextGrant => {
            lemma_fanout_turns_wf(v.fanout, Track::Audio, true, Seq::empty());
            lemma_fanout_turn_wf(v, v.fanout.next_action().0);
        },
        Input::UpstreamOpened(track, ok) => {
            lemma_fanout_turns_wf(v.fanout, track, ok, Seq::empty());
            lemma_fanout_turn_wf(v, v.fanout.upstream_opened(track, ok));
        },
        Input::Frame(track, data) => {
            lemma_fanout_turns_wf(v.fanout, track, true, data);
            lemma_fanout_turn_wf(v, v.fanout.frame(track, data));
        },
        Input::Recv(subscription) => {
            lemma_fanout_readers_wf(v.fanout, subscription);
            lemma_fanout_turn_wf(v, v.fanout.recv(subscription).0);
        },
        Input::Unsubscribe(subscription) => {
            lemma_fanout_readers_wf(v.fanout, subscription);
            lemma_fanout_turn_wf(v, v.fanout.unsubscribe(subscription));
        },
        Input::FanOutGone => {
            lemma_session_tree_loses_fanout(v.cancel);
            lemma_fanout_stays_wf(v.fanout, None);
        },
    }
}

/// Every state that a session can reach is well formed.
pub proof fn lemma_run_wf(v: NeoCamView, inputs: Seq<Input>)
    requires
        v.wf(),
    ensures
        v.run(inputs).wf(),
    decreases inputs.len(),
{
    if inputs.len() > 0 {
        lemma_apply_wf(v, inputs[0]);
        lemma_run_wf(v.apply(inputs[0]), inputs.drop_first());
    }
}

/// All handles of a session observe the same connection states in the
/// same order: whatever happens to the session, what one handle sees of
/// the connection after each input is what any other handle sees, and it
/// is what the session publishes.
pub proof fn lemma_handles_observe_alike(
    cam: NeoCamView,
    one: NeoInstance,
    other: NeoInstance,
    inputs: Seq<Input>,
)
    ensures
        one.observations(cam, inputs) == other.observations(cam, inputs),
        one.observations(cam, inputs).len() == inputs.len(),
        forall|i: int|
            0 <= i < inputs.len() ==> #[trigger] one.observations(cam, inputs)[i]
                == one.spec_get_connection(cam.run(inputs.take(i + 1))),
    decreases inputs.len(),
{
    if inputs.len() > 0 {
        let next = cam.apply(inputs[0]);
        let rest = inputs.drop_first();
        lemma_handles_observe_alike(next, one, other, rest);
        assert forall|i: int|
            0 <= i < inputs.len() implies #[trigger] one.observations(cam, inputs)[i]
            == one.spec_get_connection(cam.run(inputs.take(i + 1))) by {
            let taken = inputs.take(i + 1);
            assert(taken[0] == inputs[0]);
            assert(taken.drop_first() =~= rest.take(i));
            if i == 0 {
                assert(cam.run(taken) == next.run(taken.drop_first()));
                assert(taken.drop_first().len() == 0);
            } else {
                assert(one.observations(cam, inputs)[i] == one.observations(next, rest)[i - 1]);
            }
        }
    }
}

/// Issuing a handle, or giving one up, changes nothing that another
/// handle observes.
pub proof fn lemma_handles_are_independent(cam: NeoCamView, handle: NeoInstance)
    ensures
        handle.spec_get_connection(cam.subscribe().0) == handle.spec_get_connection(cam),
        cam.subscribe().0.closed() == cam.closed(),
        cam.subscribe().0.commands == cam.commands,
        cam.subscribe().0.fanout == cam.fanout,
{
}

/// Shutting down is idempotent: the second time nothing changes, nothing
/// is to be done and no reply is lost that was not lost the first time.
pub proof fn lemma_shutdown_is_idempotent(v: NeoCamView)
    requires
        v.wf(),
    ensures
        v.close().0.closed(),
        v.close().0.close().0 == v.close().0,
        v.close().0.close().1 == StepView::plain(Outcome::Stopped),
        v.close().0.submit(NeoCamCommand::HangUp) == (v.close().0, Submitted::Closed),
        v.close().0.serve() == (v.close().0, StepView::plain(Outcome::Stopped)),
{
    lemma_session_tree_closes(v.cancel);
}

/// When the session is shut down, the signal reaches the session and every
/// worker, so that everyone who waits for it is released; the connection
/// is retracted, and every reply slot that was still waiting is handed
/// back as lost.
pub proof fn lemma_shutdown_releases_everyone(v: NeoCamView)
    requires
        v.wf(),
        !v.closed(),
    ensures
        forall|t: int| 0 <= t < 4 ==> #[trigger] v.close().0.cancel.cancelled[t],
        v.close().0.published().is_none(),
        v.close().0.commands.len() == 0,
        v.close().0.fanout.pending.len() == 0,
        v.close().1.dropped == tickets_of(v.commands) + v.fanout.tickets(),
        v.close().1.effects.close == v.published(),
        !v.close().1.effects.connect,
{
    lemma_session_tree_closes(v.cancel);
}

/// A termination command that is served shuts the session down exactly as
/// a direct shutdown does. Commands behind it are not served, and further
/// termination commands among them leave no trace: they have no reply
/// slot to lose.
pub proof fn lemma_hang_up_shuts_down(v: NeoCamView)
    requires
        v.wf(),
        !v.closed(),
        v.commands.len() > 0,
        v.commands[0] == NeoCamCommand::HangUp,
    ensures
        v.serve() == (NeoCamView { commands: v.commands.drop_first(), ..v }).close(),
        v.serve().0 == v.close().0,
        v.serve().1 == v.close().1,
        tickets_of(v.commands.drop_first().push(NeoCamCommand::HangUp)) == tickets_of(
            v.commands.drop_first(),
        ),
{
    lemma_tickets_of_push(v.commands.drop_first(), NeoCamCommand::HangUp);
}

/// The reply slots of a queue with one more command at its end.
pub proof fn lemma_tickets_of_push(commands: Seq<NeoCamCommand>, command: NeoCamCommand)
    ensures
        tickets_of(commands.push(command)) == match command.spec_ticket() {
            Some(ticket) => tickets_of(commands).push(ticket),
            None => tickets_of(commands),
        },
    decreases commands.len(),
{
    if commands.len() == 0 {
        assert(commands.push(command).drop_first() =~= Seq::<NeoCamCommand>::empty());
        assert(tickets_of(Seq::<NeoCamCommand>::empty()) =~= Seq::<u64>::empty());
        match command.spec_ticket() {
            Some(ticket) => {
                assert(seq![ticket] + Seq::<u64>::empty() =~= Seq::<u64>::empty().push(ticket));
            },
            None => {},
        }
    } else {
        lemma_tickets_of_push(commands.drop_first(), command);
        assert(commands.push(command).drop_first() =~= commands.drop_first().push(command));
        match (commands[0].spec_ticket(), command.spec_ticket()) {
            (Some(first), Some(ticket)) => {
                assert(seq![first] + tickets_of(commands.drop_first()).push(ticket) =~= (seq![first]
                    + tickets_of(commands.drop_first())).push(ticket));
            },
            _ => {},
        }
    }
}

/// Every reply slot is accounted for, once: a command that is taken in
/// puts its ticket at the end of those that wait; a turn of the control
/// loop takes the ticket at the front and either answers it, hands it on
/// to the end of the fan-out's queue, or gives it back as lost; a turn of
/// the fan-out takes the ticket at the front of its queue and answers it;
/// and nothing else moves a ticket.
pub proof fn lemma_every_ticket_is_accounted_for(v: NeoCamView, command: NeoCamCommand)
    requires
        v.wf(),
        !v.closed(),
    ensures
        v.submit(command).1 == Submitted::Queued ==> tickets_of(v.submit(command).0.commands)
            == match command.spec_ticket() {
            Some(ticket) => tickets_of(v.commands).push(ticket),
            None => tickets_of(v.commands),
        },
        v.submit(command).1 != Submitted::Queued ==> v.submit(command).0 == v,
        match v.serve().1.outcome {
            Outcome::Instance { ticket, .. } => tickets_of(v.commands) == seq![ticket] + tickets_of(
                v.serve().0.commands,
            ) && v.serve().0.fanout == v.fanout && v.serve().1.dropped.len() == 0,
            Outcome::Forwarded { ticket } => tickets_of(v.commands) == seq![ticket] + tickets_of(
                v.serve().0.commands,
            ) && v.serve().0.fanout.tickets() == v.fanout.tickets().push(ticket)
                && v.serve().1.dropped.len() == 0,
            Outcome::Lost { ticket } => tickets_of(v.commands) == seq![ticket] + tickets_of(
                v.serve().0.commands,
            ) && v.serve().0.fanout == v.fanout && v.serve().1.dropped == seq![ticket],
            Outcome::Terminated => v.serve().1.dropped == tickets_of(v.commands)
                + v.fanout.tickets() && tickets_of(v.serve().0.commands).len() == 0
                && v.serve().0.fanout.tickets().len() == 0,
            _ => v.serve().0 == v && v.serve().1.dropped.len() == 0,
        },
        match v.fanout.next_action().1 {
            FanOutAction::Grant { ticket, .. } => v.fanout.tickets() == seq![ticket]
                + v.fanout.next_action().0.tickets(),
            FanOutAction::Refuse { ticket } => v.fanout.tickets() == seq![ticket]
                + v.fanout.next_action().0.tickets(),
            _ => v.fanout.next_action().0 == v.fanout,
        },
{
    lemma_tickets_of_push(v.commands, command);
    let ticket_of = |r: StreamRequest| r.ticket;
    if v.commands.len() > 0 {
        let rest = v.commands.drop_first();
        match v.commands[0] {
            NeoCamCommand::HangUp => {
                assert(tickets_of(Seq::<NeoCamCommand>::empty()) =~= Seq::<u64>::empty());
                assert(v.fanout.stop().tickets() =~= Seq::<u64>::empty());
            },
            NeoCamCommand::Instance(ticket) => {},
            NeoCamCommand::Stream(track, ticket) => {
                let request = StreamRequest { track, ticket, strict: v.config.strict };
                assert(v.fanout.pending.push(request).map_values(ticket_of)
                    =~= v.fanout.pending.map_values(ticket_of).push(ticket));
            },
        }
    }
    if v.fanout.pending.len() > 0 {
        assert(v.fanout.pending.map_values(ticket_of) =~= seq![v.fanout.pending[0].ticket]
            + v.fanout.pending.drop_first().map_values(ticket_of));
    }
}

/// Once shut down, a session stays shut down whatever happens: nothing is
/// published, no command is taken in, and the driver is never asked to
/// connect or to wait for a retry.
pub proof fn lemma_closed_is_final(v: NeoCamView, input: Input)
    requires
        v.wf(),
        v.closed(),
    ensures
        v.apply(input).closed(),
        v.apply(input).published().is_none(),
        v.apply(input).commands.len() == 0,
        !v.effects_of(input).connect,
        v.effects_of(input).retry_after_ms.is_none(),
        v.effects_of(input).publish == Publish::Keep,
{
}

/// Commands are served strictly in the order of their arrival: a command
/// that is taken in goes to the end of the queue, and a turn of the
/// control loop takes the command at the front and no other.
pub proof fn lemma_commands_are_served_in_order(v: NeoCamView, command: NeoCamCommand)
    requires
        v.wf(),
        !v.closed(),
    ensures
        v.commands.len() < COMMAND_QUEUE ==> v.submit(command).0.commands == v.commands.push(
            command,
        ),
        v.commands.len() > 0 && v.serve().1.outcome != Outcome::Blocked && v.serve().1.outcome
            != Outcome::Terminated ==> v.serve().0.commands == v.commands.drop_first(),
        v.serve().1.outcome == Outcome::Blocked ==> v.serve().0 == v,
        v.commands.len() > 0 ==> match v.commands[0] {
            NeoCamCommand::HangUp => v.serve().1.outcome == Outcome::Terminated,
            NeoCamCommand::Instance(ticket) => v.serve().1.outcome == (Outcome::Instance {
                ticket,
                instance: NeoInstance { id: v.issued },
            }),
            NeoCamCommand::Stream(_, ticket) => {
                ||| v.serve().1.outcome == (Outcome::Forwarded { ticket })
                ||| v.serve().1.outcome == Outcome::Blocked
                ||| v.serve().1.outcome == (Outcome::Lost { ticket })
            },
        },
{
}

/// Only the latest configuration matters for a subscription request: it
/// is forwarded with the strictness of the configuration that is in place
/// when the control loop serves it, whatever the configurations before
/// said. Requests that were forwarded earlier keep the flag that they were
/// forwarded with.
pub proof fn lemma_requests_carry_the_latest_strictness(
    v: NeoCamView,
    config: CameraConfig,
    track: Track,
    ticket: u64,
)
    requires
        v.wf(),
        !v.closed(),
        !v.fanout.stopped,
        v.fanout.pending.len() < REQUEST_QUEUE,
        v.commands.len() > 0,
        v.commands[0] == NeoCamCommand::Stream(track, ticket),
    ensures
        ({
            let updated = v.update_config(config).0;
            let (served, step) = updated.serve();
            &&& updated.config == config
            &&& updated.commands == v.commands
            &&& updated.fanout.pending == v.fanout.pending
            &&& step.outcome == (Outcome::Forwarded { ticket })
            &&& served.fanout.pending == v.fanout.pending.push(
                StreamRequest { track, ticket, strict: config.strict },
            )
        }),
{
}

/// A configuration that replaces another while connected takes the
/// connection down in the same step: observers see no connection until
/// one has been made with the new configuration.
pub proof fn lemma_update_config_reconnects(v: NeoCamView, config: CameraConfig)
    requires
        v.wf(),
        !v.closed(),
        v.published().is_some(),
    ensures
        v.update_config(config).0.config == config,
        v.update_config(config).0.published().is_none(),
        v.update_config(config).0.lifecycle.phase == Phase::Connecting,
        v.update_config(config).1 == Ok::<Effects, SessionError>(
            Effects {
                publish: Publish::Retract,
                close: v.published(),
                connect: true,
                ..Effects::spec_none()
            },
        ),
{
}

impl NeoCamView {
    /// The event that an input to the session is to its connection
    /// lifecycle, if it is one.
    pub open spec fn lifecycle_event(self, input: Input) -> Option<LifecycleEvent> {
        match input {
            Input::Serve => if self.closed() || self.commands.len() == 0 {
                None
            } else {
                match self.commands[0] {
                    NeoCamCommand::HangUp => Some(LifecycleEvent::Cancelled),
                    NeoCamCommand::Instance(_) => Some(LifecycleEvent::Need),
                    NeoCamCommand::Stream(_, _) => None,
                }
            },
            Input::Report(report) => Some(report.spec_event()),
            Input::UpdateConfig(_) => if self.closed() {
                None
            } else {
                Some(LifecycleEvent::ConfigChanged)
            },
            Input::Shutdown => if self.closed() {
                None
            } else {
                Some(LifecycleEvent::Cancelled)
            },
            _ => None,
        }
    }

    /// Whether the driver's world admits the input: a handshake is
    /// reported only while one is in flight.
    pub open spec fn admits(self, world: World, input: Input) -> bool {
        match self.lifecycle_event(input) {
            Some(event) => world.admits(event),
            None => true,
        }
    }

    /// The driver's world after the input.
    pub open spec fn world_after(self, world: World, input: Input) -> World {
        match self.lifecycle_event(input) {
            Some(event) => world.step(event),
            None => world,
        }
    }

    /// Whether the driver's world admits every input in its turn.
    pub open spec fn admits_all(self, world: World, inputs: Seq<Input>) -> bool
        decreases inputs.len(),
    {
        if inputs.len() == 0 {
            true
        } else {
            self.admits(world, inputs[0]) && self.apply(inputs[0]).admits_all(
                self.world_after(world, inputs[0]),
                inputs.drop_first(),
            )
        }
    }

    /// The driver's world after a sequence of inputs.
    pub open spec fn world_run(self, world: World, inputs: Seq<Input>) -> World
        decreases inputs.len(),
    {
        if inputs.len() == 0 {
            world
        } else {
            self.apply(inputs[0]).world_run(self.world_after(world, inputs[0]), inputs.drop_first())
        }
    }
}

/// The world of the driver of a session that has just been created: the
/// first handshake is in flight.
pub open spec fn world_at_creation(config: CameraConfig) -> World {
    World::init(config.max_attempts).step(LifecycleEvent::Need)
}

/// Whatever is done to a session reaches its connection lifecycle as at
/// most one event, and what the driver is asked to do about the connection
/// is what the lifecycle asks for.
pub proof fn lemma_inputs_step_the_lifecycle(v: NeoCamView, input: Input)
    requires
        v.wf(),
    ensures
        match v.lifecycle_event(input) {
            Some(event) => v.apply(input).lifecycle == v.lifecycle.step(event).0 && v.effects_of(
                input,
            ) == v.lifecycle.step(event).1,
            None => v.apply(input).lifecycle == v.lifecycle && v.effects_of(input)
                == Effects::spec_none(),
        },
{
}

/// The driver's world and the session stay in step, and the world stays
/// within its invariant.
pub proof fn lemma_session_world(v: NeoCamView, world: World, inputs: Seq<Input>)
    requires
        v.wf(),
        world.inv(),
        world.lc == v.lifecycle,
        v.admits_all(world, inputs),
    ensures
        v.world_run(world, inputs).inv(),
        v.world_run(world, inputs).lc == v.run(inputs).lifecycle,
    decreases inputs.len(),
{
    if inputs.len() > 0 {
        lemma_inputs_step_the_lifecycle(v, inputs[0]);
        lemma_apply_wf(v, inputs[0]);
        match v.lifecycle_event(inputs[0]) {
            Some(event) => {
                lemma_world_step(world, event);
            },
            None => {},
        }
        lemma_session_world(
            v.apply(inputs[0]),
            v.world_after(world, inputs[0]),
            inputs.drop_first(),
        );
    }
}

/// At most one connection exists at any instant of a session, for any
/// number of handles, commands and subscription requests: whatever is done
/// to a new session, the connection objects that exist and the handshakes
/// that may still produce one number at most one together; a connection
/// object exists exactly while a connection is published; and a published
/// connection was made with the latest configuration.
pub proof fn lemma_session_keeps_one_connection(config: CameraConfig, inputs: Seq<Input>)
    requires
        NeoCamView::create(config).admits_all(world_at_creation(config), inputs),
    ensures
        ({
            let cam = NeoCamView::create(config).run(inputs);
            let world = NeoCamView::create(config).world_run(world_at_creation(config), inputs);
            &&& world.open + world.handshakes <= 1
            &&& world.open == 1 <==> cam.published().is_some()
            &&& cam.published().is_some() ==> world.live_config == world.latest
        }),
{
    lemma_create_wf(config);
    lemma_world_step(World::init(config.max_attempts), LifecycleEvent::Need);
    lemma_session_world(NeoCamView::create(config), world_at_creation(config), inputs);
}

/// The supervisor of one camera session.
pub struct NeoCam {
    config: CameraConfig,
    cancel: CancelTree,
    lifecycle: Lifecycle,
    fanout: FanOut,
    commands: VecDeque<NeoCamCommand>,
    issued: u64,
}

impl View for NeoCam {
    type V = NeoCamView;

    closed spec fn view(&self) -> NeoCamView {
        NeoCamView {
            config: self.config,
            cancel: self.cancel@,
            lifecycle: self.lifecycle@,
            fanout: self.fanout@,
            commands: self.commands@,
            issued: self.issued,
        }
    }
}

impl NeoCam {
    /// Well-formedness of the session.
    pub open spec fn wf(&self) -> bool {
        self@.wf()
    }

    /// Creates a session for the camera that the configuration describes
    /// and starts its first handshake. Returns the session and what the
    /// driver has to do: connect.
    pub fn new(config: CameraConfig) -> (created: (NeoCam, Effects))
        ensures
            created.0.wf(),
            created.0@ == NeoCamView::create(config),
            created.1 == LifecycleView::init(config.max_attempts).step(LifecycleEvent::Need).1,
            created.1 == (Effects { connect: true, ..Effects::spec_none() }),
            !created.0@.closed(),
    {
        let mut cancel = CancelTree::new();
        let root = cancel.root();
        let _ = cancel.child(root);
        let _ = cancel.child(root);
        let _ = cancel.child(root);
        let mut lifecycle = Lifecycle::new(config.max_attempts);
        let effects = lifecycle.step(LifecycleEvent::Need);
        let cam = NeoCam {
            config,
            cancel,
            lifecycle,
            fanout: FanOut::new(HISTORY),
            commands: VecDeque::new(),
            issued: 0,
        };
        proof {
            assert(cam@.commands =~= Seq::<NeoCamCommand>::empty());
            assert(cam@.cancel.parents =~= seq![0usize, 0usize, 0usize, 0usize]);
            assert(cam@.cancel.cancelled =~= seq![false, false, false, false]);
        }
        (cam, effects)
    }

    /// The latest configuration.
    pub fn config(&self) -> (config: &CameraConfig)
        ensures
            *config == self@.config,
    {
        &self.config
    }

    /// Whether the session has been shut down.
    pub fn is_cancelled(&self) -> (closed: bool)
        requires
            self.wf(),
        ensures
            closed == self@.closed(),
    {
        self.cancel.is_cancelled(CancelToken(SESSION_TOKEN))
    }

    /// Whether the cancellation signal has reached the given token of the
    /// session: the session itself or one of its workers. A token that
    /// the session does not have counts as cancelled.
    pub fn token_cancelled(&self, token: CancelToken) -> (cancelled: bool)
        requires
            self.wf(),
        ensures
            cancelled == (token.0 >= 4 || self@.cancel.cancelled[token.0 as int]),
            token.0 < FANOUT_TOKEN ==> cancelled == self@.closed(),
            token.0 == FANOUT_TOKEN ==> cancelled == self@.fanout.stopped,
    {
        if self.cancel.contains(token) {
            self.cancel.is_cancelled(token)
        } else {
            true
        }
    }

    /// The connection that observers see.
    pub fn published(&self) -> (conn: Option<ConnectionRef>)
        ensures
            conn == self@.published(),
    {
        self.lifecycle.live()
    }

    /// The phase of the connection lifecycle.
    pub fn phase(&self) -> (phase: Phase)
        ensures
            phase == self@.lifecycle.phase,
    {
        self.lifecycle.phase()
    }

    /// Number of commands that wait.
    pub fn queued(&self) -> (n: usize)
        ensures
            n == self@.commands.len(),
    {
        self.commands.len()
    }

    /// Whether the creation of the session has been decided, and how:
    /// nothing while the first handshake is still being tried, success
    /// once a handshake has succeeded, `ConnectError` once the attempt
    /// budget is used up, `SessionClosed` if the session was shut down
    /// before either.
    pub fn creation(&self) -> (decided: Option<Result<(), SessionError>>)
        requires
            self.wf(),
        ensures
            decided == self@.creation(),
    {
        match self.lifecycle.startup() {
            Startup::Ready => Some(Ok(())),
            Startup::Failed => Some(Err(SessionError::ConnectError)),
            Startup::Pending => if self.is_cancelled() {
                Some(Err(SessionError::SessionClosed))
            } else {
                None
            },
        }
    }

    /// Raises the signal for the session and its workers, stops the
    /// fan-out and empties the command queue. Returns the reply slots that
    /// are lost.
    fn drop_everything(&mut self) -> (dropped: Vec<u64>)
        requires
            old(self)@.cancel.wf(),
            old(self)@.cancel.parents == seq![0usize, 0usize, 0usize, 0usize],
            old(self)@.fanout.wf(),
        ensures
            final(self)@ == (NeoCamView {
                cancel: old(self)@.cancel.cancel(SESSION_TOKEN as int),
                fanout: old(self)@.fanout.stop(),
                commands: Seq::empty(),
                ..old(self)@
            }),
            final(self)@.fanout.wf(),
            dropped@ == tickets_of(old(self)@.commands) + old(self)@.fanout.tickets(),
    {
        let ghost before = self@;
        self.cancel.cancel(CancelToken(SESSION_TOKEN));
        let mut dropped: Vec<u64> = Vec::new();
        while self.commands.len() > 0
            invariant
                dropped@ + tickets_of(self.commands@) == tickets_of(before.commands),
                self.config == old(self).config,
                self.cancel@ == before.cancel.cancel(SESSION_TOKEN as int),
                self.lifecycle == old(self).lifecycle,
                self.fanout == old(self).fanout,
                self.issued == old(self).issued,
            decreases self.commands.len(),
        {
            let ghost rest = self.commands@;
            let command = self.commands.pop_front();
            if let Some(command) = command {
                assert(self.commands@ == rest.drop_first());
                if let Some(ticket) = command.ticket() {
                    dropped.push(ticket);
                    assert(dropped@ + tickets_of(self.commands@) =~= dropped@.drop_last()
                        + tickets_of(rest));
                }
            }
        }
        assert(tickets_of(self.commands@) =~= Seq::<u64>::empty());
        assert(dropped@ =~= tickets_of(before.commands));
        let mut waiting = self.fanout.stop();
        dropped.append(&mut waiting);
        assert(self.commands@ =~= Seq::<NeoCamCommand>::empty());
        dropped
    }

    /// Shuts the session down: raises the cancellation signal for the
    /// session and all its workers, so that the control loop has exited when
    /// this returns. Doing so again changes nothing.
    pub fn shutdown(&mut self) -> (step: Step)
        requires
            old(self).wf(),
        ensures
            final(self).wf(),
            final(self)@ == old(self)@.close().0,
            step@ == old(self)@.close().1,
            final(self)@.closed(),
    {
        if self.is_cancelled() {
            return Step::plain(Outcome::Stopped);
        }
        proof {
            lemma_session_tree_closes(self@.cancel);
        }
        let effects = self.lifecycle.step(LifecycleEvent::Cancelled);
        let dropped = self.drop_everything();
        Step { outcome: Outcome::Terminated, effects, dropped }
    }

    /// Takes note that the fan-out is gone while the session lives on.
    /// Returns the reply slots of the requests that it still held.
    pub fn fanout_gone(&mut self) -> (step: Step)
        requires
            old(self).wf(),
        ensures
            final(self).wf(),
            final(self)@ == old(self)@.fanout_gone().0,
            step@ == old(self)@.fanout_gone().1,
    {
        if self.fanout.is_stopped() {
            return Step::plain(Outcome::Stopped);
        }
        proof {
            lemma_session_tree_loses_fanout(self@.cancel);
        }
        self.cancel.cancel(CancelToken(FANOUT_TOKEN));
        let dropped = self.fanout.stop();
        Step { outcome: Outcome::Applied, effects: Effects::none(), dropped }
    }

    /// Asks the control loop to terminate the session, behind the commands
    /// that already wait.
    pub fn hang_up(&mut self) -> (submitted: Submitted)
        requires
            old(self).wf(),
        ensures
            final(self).wf(),
            final(self)@ == old(self)@.submit(NeoCamCommand::HangUp).0,
            submitted == old(self)@.submit(NeoCamCommand::HangUp).1,
    {
        self.submit(NeoCamCommand::HangUp)
    }

    /// Takes in a command of a handle, if the session lives and the queue
    /// has room.
    pub fn submit(&mut self, command: NeoCamCommand) -> (submitted: Submitted)
        requires
            old(self).wf(),
        ensures
            final(self).wf(),
            final(self)@ == old(self)@.submit(command).0,
            submitted == old(self)@.submit(command).1,
    {
        if self.is_cancelled() {
            Submitted::Closed
        } else if self.commands.len() >= COMMAND_QUEUE {
            Submitted::Full
        } else {
            self.commands.push_back(command);
            Submitted::Queued
        }
    }

    /// One turn of the control loop: serves the oldest command.
    pub fn serve(&mut self) -> (step: Step)
        requires
            old(self).wf(),
        ensures
            final(self).wf(),
            final(self)@ == old(self)@.serve().0,
            step@ == old(self)@.serve().1,
    {
        if self.is_cancelled() {
            return Step::plain(Outcome::Stopped);
        }
        if self.commands.len() == 0 {
            return Step::plain(Outcome::Idle);
        }
        let command = self.commands[0];
        match command {
            NeoCamCommand::HangUp => {
                let _ = self.commands.pop_front();
                proof {
                    lemma_session_tree_closes(self@.cancel);
                }
                let effects = self.lifecycle.step(LifecycleEvent::Cancelled);
                let dropped = self.drop_everything();
                Step { outcome: Outcome::Terminated, effects, dropped }
            },
            NeoCamCommand::Instance(ticket) => {
                let _ = self.commands.pop_front();
                let effects = self.lifecycle.step(LifecycleEvent::Need);
                let instance = NeoInstance { id: self.issued };
                self.issued = if self.issued == u64::MAX { 0 } else { self.issued + 1 };
                Step {
                    outcome: Outcome::Instance { ticket, instance },
                    effects,
                    dropped: Vec::new(),
                }
            },
            NeoCamCommand::Stream(track, ticket) => {
                let request = StreamRequest { track, ticket, strict: self.config.strict };
                let forwarded = self.fanout.submit(request);
                match forwarded {
                    Forwarded::Queued => {
                        let _ = self.commands.pop_front();
                        Step::plain(Outcome::Forwarded { ticket })
                    },
                    Forwarded::Full => Step::plain(Outcome::Blocked),
                    Forwarded::Gone => {
                        let _ = self.commands.pop_front();
                        let mut dropped: Vec<u64> = Vec::new();
                        dropped.push(ticket);
                        assert(dropped@ =~= seq![ticket]);
                        let effects = Effects::none();
                        Step { outcome: Outcome::Lost { ticket }, effects, dropped }
                    },
                }
            },
        }
    }

    /// Takes in what the driver reports on the connection.
    pub fn report(&mut self, report: Report) -> (step: Step)
        requires
            old(self).wf(),
        ensures
            final(self).wf(),
            final(self)@ == old(self)@.report(report).0,
            step@ == old(self)@.report(report).1,
    {
        let was_closed = self.is_cancelled();
        let effects = self.lifecycle.step(report.event());
        if was_closed {
            self.fanout.connection_changed(self.lifecycle.live());
            Step { outcome: Outcome::Stopped, effects, dropped: Vec::new() }
        } else if self.lifecycle.phase() == Phase::Stopped {
            proof {
                lemma_session_tree_closes(self@.cancel);
            }
            let dropped = self.drop_everything();
            Step { outcome: Outcome::Terminated, effects, dropped }
        } else {
            self.fanout.connection_changed(self.lifecycle.live());
            Step { outcome: Outcome::Applied, effects, dropped: Vec::new() }
        }
    }

    /// Replaces the configuration. Fails only if the session has been shut
    /// down; otherwise returns what the driver has to do.
    pub fn update_config(&mut self, config: CameraConfig) -> (updated: Result<
        Effects,
        SessionError,
    >)
        requires
            old(self).wf(),
        ensures
            final(self).wf(),
            final(self)@ == old(self)@.update_config(config).0,
            updated == old(self)@.update_config(config).1,
            updated.is_err() <==> old(self)@.closed(),
    {
        if self.is_cancelled() {
            return Err(SessionError::SessionClosed);
        }
        let effects = self.lifecycle.step(LifecycleEvent::ConfigChanged);
        self.fanout.connection_changed(self.lifecycle.live());
        self.config = config;
        Ok(effects)
    }

    /// Issues a new handle. Fails only if the session has been shut down.
    pub fn subscribe(&mut self) -> (issued: Result<NeoInstance, SessionError>)
        requires
            old(self).wf(),
        ensures
            final(self).wf(),
            final(self)@ == old(self)@.subscribe().0,
            issued == old(self)@.subscribe().1,
            issued.is_ok() <==> !old(self)@.closed(),
    {
        if self.is_cancelled() {
            return Err(SessionError::SessionClosed);
        }
        let instance = NeoInstance { id: self.issued };
        self.issued = if self.issued == u64::MAX { 0 } else { self.issued + 1 };
        Ok(instance)
    }

    /// One turn of the fan-out: says whether to open an upstream
    /// subscription again or what to do about the oldest request.
    pub fn next_grant(&mut self) -> (action: FanOutAction)
        requires
            old(self).wf(),
        ensures
            final(self).wf(),
            final(self)@ == (NeoCamView {
                fanout: old(self)@.fanout.next_action().0,
                ..old(self)@
            }),
            action == old(self)@.fanout.next_action().1,
    {
        self.fanout.next_action()
    }

    /// Takes note of how opening an upstream subscription went.
    pub fn upstream_opened(&mut self, track: Track, ok: bool)
        requires
            old(self).wf(),
        ensures
            final(self).wf(),
            final(self)@ == (NeoCamView {
                fanout: old(self)@.fanout.upstream_opened(track, ok),
                ..old(self)@
            }),
    {
        self.fanout.upstream_opened(track, ok)
    }

    /// Takes in a frame that arrived on a track.
    pub fn frame(&mut self, track: Track, data: Vec<u8>)
        requires
            old(self).wf(),
        ensures
            final(self).wf(),
            final(self)@ == (NeoCamView {
                fanout: old(self)@.fanout.frame(track, data@),
                ..old(self)@
            }),
    {
        self.fanout.frame(track, data)
    }

    /// Hands a subscriber its next frame, if there is one.
    pub fn recv(&mut self, subscription: Subscription) -> (got: Received)
        requires
            old(self).wf(),
        ensures
            final(self).wf(),
            final(self)@ == (NeoCamView {
                fanout: old(self)@.fanout.recv(subscription).0,
                ..old(self)@
            }),
            got@ == old(self)@.fanout.recv(subscription).1,
    {
        self.fanout.recv(subscription)
    }

    /// Ends a subscription.
    pub fn unsubscribe(&mut self, subscription: Subscription)
        requires
            old(self).wf(),
        ensures
            final(self).wf(),
            final(self)@ == (NeoCamView {
                fanout: old(self)@.fanout.unsubscribe(subscription),
                ..old(self)@
            }),
    {
        self.fanout.unsubscribe(subscription)
    }
}

impl NeoInstance {
    /// A snapshot of the published connection. Fails with `NotConnected`
    /// while there is none.
    pub fn get_connection(&self, cam: &NeoCam) -> (conn: Result<ConnectionRef, SessionError>)
        ensures
            conn == self.spec_get_connection(cam@),
            conn.is_err() <==> cam@.published().is_none(),
            conn.is_err() ==> conn == Err::<ConnectionRef, SessionError>(
                SessionError::NotConnected,
            ),
    {
        match cam.published() {
            Some(conn) => Ok(conn),
            None => Err(SessionError::NotConnected),
        }
    }

    /// Asks for a subscription to a track; the reply goes to the slot that
    /// `ticket` names.
    pub fn request_subscription(&self, cam: &mut NeoCam, track: Track, ticket: u64) -> (submitted:
        Submitted)
        requires
            old(cam).wf(),
        ensures
            final(cam).wf(),
            final(cam)@ == old(cam)@.submit(NeoCamCommand::Stream(track, ticket)).0,
            submitted == old(cam)@.submit(NeoCamCommand::Stream(track, ticket)).1,
    {
        cam.submit(NeoCamCommand::Stream(track, ticket))
    }

    /// Asks for another handle; the reply goes to the slot that `ticket`
    /// names.
    pub fn request_instance(&self, cam: &mut NeoCam, ticket: u64) -> (submitted: Submitted)
        requires
            old(cam).wf(),
        ensures
            final(cam).wf(),
            final(cam)@ == old(cam)@.submit(NeoCamCommand::Instance(ticket)).0,
            submitted == old(cam)@.submit(NeoCamCommand::Instance(ticket)).1,
    {
        cam.submit(NeoCamCommand::Instance(ticket))
    }

    /// Asks the control loop to terminate the session.
    pub fn hang_up(&self, cam: &mut NeoCam) -> (submitted: Submitted)
        requires
            old(cam).wf(),
        ensures
            final(cam).wf(),
            final(cam)@ == old(cam)@.submit(NeoCamCommand::HangUp).0,
            submitted == old(cam)@.submit(NeoCamCommand::HangUp).1,
    {
        cam.submit(NeoCamCommand::HangUp)
    }

    /// Whether the session's cancellation signal has fired.
    pub fn is_cancelled(&self, cam: &NeoCam) -> (cancelled: bool)
        requires
            cam.wf(),
        ensures
            cancelled == cam@.closed(),
    {
        cam.is_cancelled()
    }
}

} // verus!
