//! The connection lifecycle of a session: when to start a handshake, what
//! to publish, and how long to wait before trying again.
use vstd::prelude::*;

verus! {

/// Delay before the first retry, in milliseconds.
pub const RETRY_BASE_MS: u64 = 1000;

/// Longest delay between two retries, in milliseconds.
pub const RETRY_CAP_MS: u64 = 30000;

/// A non-owning reference to a connection: the serial number under which
/// the lifecycle announced it.
#[derive(Clone, Copy, Debug, PartialEq, Eq, Structural)]
pub struct ConnectionRef(pub u64);

/// Where the lifecycle stands.
#[derive(Clone, Copy, Debug, PartialEq, Eq, Structural)]
pub enum Phase {
    Disconnected,
    Connecting,
    Connected,
    /// Cancelled, or given up during creation. Final.
    Stopped,
}

/// Whether the first handshake of the session has been decided.
#[derive(Clone, Copy, Debug, PartialEq, Eq, Structural)]
pub enum Startup {
    /// No handshake has succeeded yet and the budget is not used up.
    Pending,
    /// A handshake has succeeded.
    Ready,
    /// The attempt budget was used up before any handshake succeeded.
    Failed,
}

/// What can happen to the lifecycle.
#[derive(Clone, Copy, Debug, PartialEq, Eq, Structural)]
pub enum LifecycleEvent {
    /// Somebody asked for the connection.
    Need,
    /// The retry timer ran out.
    RetryElapsed,
    /// The handshake in flight produced a connection.
    HandshakeOk,
    /// The handshake in flight failed.
    HandshakeFailed,
    /// The named connection reported an I/O or protocol error.
    ConnectionLost(ConnectionRef),
    /// A new configuration replaced the old one.
    ConfigChanged,
    /// The session was cancelled.
    Cancelled,
}

/// What happens to the published connection reference.
#[derive(Clone, Copy, Debug, PartialEq, Eq, Structural)]
pub enum Publish {
    /// Leave it as it is.
    Keep,
    /// Publish the absent state.
    Retract,
    /// Publish the new connection.
    Announce(ConnectionRef),
}

/// What the driver of the lifecycle has to do after a step, in the order
/// of the fields.
#[derive(Clone, Copy, Debug, PartialEq, Eq, Structural)]
pub struct Effects {
    /// What to publish to the observers.
    pub publish: Publish,
    /// The live connection to tear down.
    pub close: Option<ConnectionRef>,
    /// Drop the connection that the handshake just produced.
    pub discard: bool,
    /// Start a handshake with the latest configuration.
    pub connect: bool,
    /// Arm the retry timer with this many milliseconds.
    pub retry_after_ms: Option<u64>,
}

impl Effects {
    /// Nothing to do.
    pub open spec fn spec_none() -> Effects {
        Effects {
            publish: Publish::Keep,
            close: None,
            discard: false,
            connect: false,
            retry_after_ms: None,
        }
    }

    /// Nothing to do.
    pub fn none() -> (fx: Effects)
        ensures
            fx == Effects::spec_none(),
    {
        Effects {
            publish: Publish::Keep,
            close: None,
            discard: false,
            connect: false,
            retry_after_ms: None,
        }
    }
}

/// The lifecycle as plain values.
pub struct LifecycleView {
    pub phase: Phase,
    /// The connection that is live and published.
    pub live: Option<ConnectionRef>,
    /// While connecting: whether the handshake in flight was started with
    /// the latest configuration.
    pub attempt_current: bool,
    /// Handshakes that failed since the last success.
    pub failures: u32,
    /// Serial number of the next connection.
    pub serial: u64,
    pub startup: Startup,
    /// Failed handshakes after which creation gives up.
    pub budget: u32,
}

/// State of the connection lifecycle of one session.
#[derive(Debug)]
pub struct Lifecycle {
    phase: Phase,
    live: Option<ConnectionRef>,
    attempt_current: bool,
    failures: u32,
    serial: u64,
    startup: Startup,
    budget: u32,
}

/// The delay before the retry that follows the given number of failed
/// handshakes: the base delay, doubled with every failure, and never more
/// than the cap.
pub open spec fn spec_retry_delay(failures: nat) -> nat
    decreases failures,
{
    if failures == 0 {
        RETRY_BASE_MS as nat
    } else {
        let doubled = 2 * spec_retry_delay((failures - 1) as nat);
        if doubled > RETRY_CAP_MS { RETRY_CAP_MS as nat } else { doubled }
    }
}

/// The serial number after `serial`; the numbers wrap around.
pub open spec fn spec_next_serial(serial: u64) -> u64 {
    if serial == u64::MAX { 0 } else { (serial + 1) as u64 }
}

/// One more failure, never past the largest count.
pub open spec fn spec_count_failure(failures: u32) -> u32 {
    if failures == u32::MAX { failures } else { (failures + 1) as u32 }
}

/// The budget that is applied: at least one attempt.
pub open spec fn spec_effective_budget(budget: u32) -> u32 {
    if budget == 0 { 1 } else { budget }
}

impl LifecycleView {
    /// The state of a new session: disconnected, nothing decided.
    pub open spec fn init(budget: u32) -> LifecycleView {
        LifecycleView {
            phase: Phase::Disconnected,
            live: None,
            attempt_current: false,
            failures: 0,
            serial: 0,
            startup: Startup::Pending,
            budget,
        }
    }

    /// A connection is live exactly while the phase is `Connected`, and a
    /// creation that gave up has stopped.
    pub open spec fn wf(self) -> bool {
        &&& self.live.is_some() <==> self.phase == Phase::Connected
        &&& self.startup == Startup::Failed ==> self.phase == Phase::Stopped
        &&& self.phase == Phase::Connected ==> self.startup == Startup::Ready
    }

    /// The state after an event, and what the driver has to do.
    pub open spec fn step(self, event: LifecycleEvent) -> (LifecycleView, Effects) {
        let none = Effects::spec_none();
        match event {
            LifecycleEvent::Cancelled => {
                if self.phase == Phase::Stopped {
                    (self, none)
                } else {
                    (
                        LifecycleView { phase: Phase::Stopped, live: None, ..self },
                        Effects {
                            publish: if self.live.is_some() {
                                Publish::Retract
                            } else {
                                Publish::Keep
                            },
                            close: self.live,
                            ..none
                        },
                    )
                }
            },
            LifecycleEvent::Need | LifecycleEvent::RetryElapsed => {
                if self.phase == Phase::Disconnected {
                    (
                        LifecycleView { phase: Phase::Connecting, attempt_current: true, ..self },
                        Effects { connect: true, ..none },
                    )
                } else {
                    (self, none)
                }
            },
            LifecycleEvent::HandshakeOk => {
                if self.phase != Phase::Connecting {
                    (self, Effects { discard: true, ..none })
                } else if self.attempt_current {
                    let conn = ConnectionRef(self.serial);
                    (
                        LifecycleView {
                            phase: Phase::Connected,
                            live: Some(conn),
                            failures: 0,
                            serial: spec_next_serial(self.serial),
                            startup: Startup::Ready,
                            ..self
                        },
                        Effects { publish: Publish::Announce(conn), ..none },
                    )
                } else {
                    (
                        LifecycleView { attempt_current: true, ..self },
                        Effects { discard: true, connect: true, ..none },
                    )
                }
            },
            LifecycleEvent::HandshakeFailed => {
                if self.phase != Phase::Connecting {
                    (self, none)
                } else {
                    let failures = spec_count_failure(self.failures);
                    if self.startup == Startup::Pending && failures >= spec_effective_budget(
                        self.budget,
                    ) {
                        (
                            LifecycleView {
                                phase: Phase::Stopped,
                                failures,
                                startup: Startup::Failed,
                                ..self
                            },
                            none,
                        )
                    } else {
                        (
                            LifecycleView { phase: Phase::Disconnected, failures, ..self },
                            Effects {
                                retry_after_ms: Some(spec_retry_delay(failures as nat) as u64),
                                ..none
                            },
                        )
                    }
                }
            },
            LifecycleEvent::ConnectionLost(conn) => {
                if self.phase == Phase::Connected && self.live == Some(conn) {
                    (
                        LifecycleView { phase: Phase::Disconnected, live: None, ..self },
                        Effects {
                            publish: Publish::Retract,
                            close: Some(conn),
                            retry_after_ms: Some(spec_retry_delay(0) as u64),
                            ..none
                        },
                    )
                } else {
                    (self, none)
                }
            },
            LifecycleEvent::ConfigChanged => {
                if self.phase == Phase::Connected {
                    (
                        LifecycleView {
                            phase: Phase::Connecting,
                            live: None,
                            attempt_current: true,
                            ..self
                        },
                        Effects {
                            publish: Publish::Retract,
                            close: self.live,
                            connect: true,
                            ..none
                        },
                    )
                } else if self.phase == Phase::Connecting {
                    (LifecycleView { attempt_current: false, ..self }, none)
                } else {
                    (self, none)
                }
            },
        }
    }
}

/// A lifecycle together with what its driver holds: the handshakes in
/// flight, the connection objects that exist, and which configuration each
/// of them was started with. Configurations are numbered in the order in
/// which they replace each other.
pub struct World {
    pub lc: LifecycleView,
    /// Handshakes that were started and have not reported yet.
    pub handshakes: nat,
    /// Connection objects that exist.
    pub open: nat,
    /// Number of the latest configuration.
    pub latest: nat,
    /// Number of the configuration that the last handshake was started with.
    pub attempt_config: nat,
    /// Number of the configuration that the live connection was made with.
    pub live_config: nat,
}

impl World {
    /// A new session and a driver that has done nothing yet.
    pub open spec fn init(budget: u32) -> World {
        World {
            lc: LifecycleView::init(budget),
            handshakes: 0,
            open: 0,
            latest: 0,
            attempt_config: 0,
            live_config: 0,
        }
    }

    /// Whether the event can happen: a handshake reports only while one is
    /// in flight.
    pub open spec fn admits(self, event: LifecycleEvent) -> bool {
        (event == LifecycleEvent::HandshakeOk || event == LifecycleEvent::HandshakeFailed)
            ==> self.handshakes > 0
    }

    /// The lifecycle takes the event and the driver carries out the
    /// effects: a reporting handshake is no longer in flight and, if it
    /// succeeded, has produced a connection object; `discard` and `close`
    /// each end one connection object; `connect` starts a handshake with
    /// the latest configuration.
    pub open spec fn step(self, event: LifecycleEvent) -> World {
        let (lc, fx) = self.lc.step(event);
        let reported: int = if event == LifecycleEvent::HandshakeOk || event
            == LifecycleEvent::HandshakeFailed { 1 } else { 0 };
        let produced: int = if event == LifecycleEvent::HandshakeOk { 1 } else { 0 };
        let started: int = if fx.connect { 1 } else { 0 };
        let discarded: int = if fx.discard { 1 } else { 0 };
        let closed: int = if fx.close.is_some() { 1 } else { 0 };
        let latest: nat = if event == LifecycleEvent::ConfigChanged {
            self.latest + 1
        } else {
            self.latest
        };
        World {
            lc,
            handshakes: (self.handshakes - reported + started) as nat,
            open: (self.open + produced - discarded - closed) as nat,
            latest,
            attempt_config: if fx.connect { latest } else { self.attempt_config },
            live_config: if fx.publish is Announce {
                self.attempt_config
            } else {
                self.live_config
            },
        }
    }

    /// What holds of every world that a session can reach.
    pub open spec fn inv(self) -> bool {
        &&& self.lc.wf()
        &&& self.lc.phase == Phase::Disconnected ==> self.handshakes == 0 && self.open == 0
        &&& self.lc.phase == Phase::Connecting ==> self.handshakes == 1 && self.open == 0
        &&& self.lc.phase == Phase::Connected ==> self.handshakes == 0 && self.open == 1
        &&& self.lc.phase == Phase::Stopped ==> self.handshakes <= 1 && self.open == 0
        &&& self.lc.phase == Phase::Connecting && self.lc.attempt_current ==> self.attempt_config
            == self.latest
        &&& self.lc.phase == Phase::Connected ==> self.live_config == self.latest
    }

    /// Whether every event of the sequence can happen in its turn.
    pub open spec fn admits_all(self, events: Seq<LifecycleEvent>) -> bool
        decreases events.len(),
    {
        if events.len() == 0 {
            true
        } else {
            self.admits(events[0]) && self.step(events[0]).admits_all(events.drop_first())
        }
    }

    /// The world after a sequence of events.
    pub open spec fn run(self, events: Seq<LifecycleEvent>) -> World
        decreases events.len(),
    {
        if events.len() == 0 {
            self
        } else {
            self.step(events[0]).run(events.drop_first())
        }
    }
}

/// A step keeps the lifecycle well formed.
pub proof fn lemma_step_wf(s: LifecycleView, event: LifecycleEvent)
    requires
        s.wf(),
    ensures
        s.step(event).0.wf(),
{
}

/// One step of a reachable world leads to a reachable world.
pub proof fn lemma_world_step(w: World, event: LifecycleEvent)
    requires
        w.inv(),
        w.admits(event),
    ensures
        w.step(event).inv(),
{
}

/// Whatever happens to a new session, in whatever order, the world stays
/// within the invariant.
pub proof fn lemma_world_run(w: World, events: Seq<LifecycleEvent>)
    requires
        w.inv(),
        w.admits_all(events),
    ensures
        w.run(events).inv(),
    decreases events.len(),
{
    if events.len() > 0 {
        lemma_world_step(w, events[0]);
        lemma_world_run(w.step(events[0]), events.drop_first());
    }
}

/// At most one connection exists at any instant: after any sequence of
/// events on a new session, the connection objects that exist and the
/// handshakes that may still produce one number at most one together, and
/// a connection object exists exactly while one is published.
pub proof fn lemma_at_most_one_connection(budget: u32, events: Seq<LifecycleEvent>)
    requires
        World::init(budget).admits_all(events),
    ensures
        ({
            let w = World::init(budget).run(events);
            &&& w.open + w.handshakes <= 1
            &&& w.open == 1 <==> w.lc.live.is_some()
        }),
{
    lemma_world_run(World::init(budget), events);
}

/// No observer sees a connection that was made with an outdated
/// configuration: after any sequence of events on a new session, a
/// published connection was made with the latest configuration.
pub proof fn lemma_published_connection_is_current(budget: u32, events: Seq<LifecycleEvent>)
    requires
        World::init(budget).admits_all(events),
    ensures
        ({
            let w = World::init(budget).run(events);
            w.lc.live.is_some() ==> w.live_config == w.latest
        }),
{
    lemma_world_run(World::init(budget), events);
}

/// A configuration that changes while connected takes the connection down
/// at once and starts a handshake with the new configuration; the next
/// connection to be announced is made with it, unless the configuration
/// changes again first.
pub proof fn lemma_config_change_reconnects(w: World)
    requires
        w.inv(),
        w.lc.phase == Phase::Connected,
    ensures
        ({
            let changed = w.lc.step(LifecycleEvent::ConfigChanged);
            let after = w.step(LifecycleEvent::ConfigChanged);
            let connected = after.step(LifecycleEvent::HandshakeOk);
            &&& changed.1.publish == Publish::Retract
            &&& changed.1.close == w.lc.live
            &&& changed.1.connect
            &&& after.lc.live.is_none()
            &&& after.attempt_config == w.latest + 1
            &&& connected.lc.live.is_some()
            &&& connected.live_config == w.latest + 1
        }),
{
}

/// A connection that fails is retracted in the same step: no observer ever
/// sees a reference to a connection that has already reported an error.
pub proof fn lemma_lost_connection_is_retracted(s: LifecycleView, conn: ConnectionRef)
    requires
        s.wf(),
        s.live == Some(conn),
    ensures
        s.step(LifecycleEvent::ConnectionLost(conn)).0.live.is_none(),
        s.step(LifecycleEvent::ConnectionLost(conn)).1.publish == Publish::Retract,
        s.step(LifecycleEvent::ConnectionLost(conn)).1.close == Some(conn),
{
}

/// After the first connection, a failed handshake is never fatal: the
/// lifecycle waits for a delay within the bounds of the retry policy and
/// tries again when the delay is over, however often it has failed before.
pub proof fn lemma_failures_are_retried(s: LifecycleView)
    requires
        s.wf(),
        s.phase == Phase::Connecting,
        s.startup == Startup::Ready,
    ensures
        ({
            let (failed, fx) = s.step(LifecycleEvent::HandshakeFailed);
            let (retried, again) = failed.step(LifecycleEvent::RetryElapsed);
            &&& failed.phase == Phase::Disconnected
            &&& failed.startup == Startup::Ready
            &&& fx.retry_after_ms matches Some(delay) && RETRY_BASE_MS <= delay <= RETRY_CAP_MS
            &&& retried.phase == Phase::Connecting
            &&& again.connect
        }),
{
    lemma_retry_delay_bounds(spec_count_failure(s.failures) as nat);
}

/// During creation, the handshake that uses up the attempt budget stops
/// the lifecycle for good, and no earlier one does.
pub proof fn lemma_creation_gives_up_at_the_budget(s: LifecycleView)
    requires
        s.wf(),
        s.phase == Phase::Connecting,
        s.startup == Startup::Pending,
    ensures
        ({
            let failed = s.step(LifecycleEvent::HandshakeFailed).0;
            let spent = spec_count_failure(s.failures) >= spec_effective_budget(s.budget);
            &&& spent ==> failed.startup == Startup::Failed && failed.phase == Phase::Stopped
            &&& !spent ==> failed.startup == Startup::Pending && failed.phase
                == Phase::Disconnected
        }),
{
}

/// Once stopped, the lifecycle stays stopped and starts nothing. A
/// handshake that was in flight is left to finish, and the connection that
/// it may still produce is discarded.
pub proof fn lemma_stopped_is_final(s: LifecycleView, event: LifecycleEvent)
    requires
        s.phase == Phase::Stopped,
    ensures
        s.step(event).0 == s,
        !s.step(event).1.connect,
        s.step(event).1.retry_after_ms.is_none(),
        s.step(event).1.publish == Publish::Keep,
        s.step(event).1.discard == (event == LifecycleEvent::HandshakeOk),
{
}

/// The retry delay never leaves the range from the base delay to the cap.
pub proof fn lemma_retry_delay_bounds(failures: nat)
    ensures
        RETRY_BASE_MS <= spec_retry_delay(failures) <= RETRY_CAP_MS,
    decreases failures,
{
    if failures > 0 {
        lemma_retry_delay_bounds((failures - 1) as nat);
    }
}

/// The retry delay never shrinks as failures accumulate.
pub proof fn lemma_retry_delay_monotonic(a: nat, b: nat)
    requires
        a <= b,
    ensures
        spec_retry_delay(a) <= spec_retry_delay(b),
    decreases b,
{
    if a < b {
        lemma_retry_delay_monotonic(a, (b - 1) as nat);
        lemma_retry_delay_bounds((b - 1) as nat);
    }
}

/// Computes the delay before the retry that follows the given number of
/// failed handshakes.
pub fn retry_delay_ms(failures: u32) -> (delay: u64)
    ensures
        delay == spec_retry_delay(failures as nat),
        RETRY_BASE_MS <= delay <= RETRY_CAP_MS,
{
    let mut delay: u64 = RETRY_BASE_MS;
    let mut done: u32 = 0;
    while done < failures && delay < RETRY_CAP_MS
        invariant
            done <= failures,
            delay == spec_retry_delay(done as nat),
            RETRY_BASE_MS <= delay <= RETRY_CAP_MS,
        decreases failures - done,
    {
        let doubled: u64 = 2 * delay;
        delay = if doubled > RETRY_CAP_MS { RETRY_CAP_MS } else { doubled };
        done = done + 1;
    }
    proof {
        lemma_retry_delay_monotonic(done as nat, failures as nat);
        lemma_retry_delay_bounds(failures as nat);
    }
    delay
}

impl View for Lifecycle {
    type V = LifecycleView;

    closed spec fn view(&self) -> LifecycleView {
        LifecycleView {
            phase: self.phase,
            live: self.live,
            attempt_current: self.attempt_current,
            failures: self.failures,
            serial: self.serial,
            startup: self.startup,
            budget: self.budget,
        }
    }
}

impl Lifecycle {
    /// Well-formedness of the state.
    pub open spec fn wf(&self) -> bool {
        self@.wf()
    }

    /// The lifecycle of a new session with the given attempt budget.
    pub fn new(budget: u32) -> (lc: Lifecycle)
        ensures
            lc.wf(),
            lc@ == LifecycleView::init(budget),
    {
        Lifecycle {
            phase: Phase::Disconnected,
            live: None,
            attempt_current: false,
            failures: 0,
            serial: 0,
            startup: Startup::Pending,
            budget,
        }
    }

    /// The current phase.
    pub fn phase(&self) -> (phase: Phase)
        ensures
            phase == self@.phase,
    {
        self.phase
    }

    /// The connection that is live and published, if any.
    pub fn live(&self) -> (live: Option<ConnectionRef>)
        ensures
            live == self@.live,
    {
        self.live
    }

    /// Whether the first handshake has been decided, and how.
    pub fn startup(&self) -> (startup: Startup)
        ensures
            startup == self@.startup,
    {
        self.startup
    }

    /// Handshakes that failed since the last success.
    pub fn failures(&self) -> (failures: u32)
        ensures
            failures == self@.failures,
    {
        self.failures
    }

    /// Takes one event and says what the driver has to do.
    pub fn step(&mut self, event: LifecycleEvent) -> (fx: Effects)
        requires
            old(self).wf(),
        ensures
            final(self).wf(),
            final(self)@ == old(self)@.step(event).0,
            fx == old(self)@.step(event).1,
    {
        let mut fx = Effects::none();
        match event {
            LifecycleEvent::Cancelled => {
                if self.phase != Phase::Stopped {
                    if self.live.is_some() {
                        fx.publish = Publish::Retract;
                    }
                    fx.close = self.live;
                    self.phase = Phase::Stopped;
                    self.live = None;
                }
            },
            LifecycleEvent::Need | LifecycleEvent::RetryElapsed => {
                if self.phase == Phase::Disconnected {
                    self.phase = Phase::Connecting;
                    self.attempt_current = true;
                    fx.connect = true;
                }
            },
            LifecycleEvent::HandshakeOk => {
                if self.phase != Phase::Connecting {
                    fx.discard = true;
                } else if self.attempt_current {
                    let conn = ConnectionRef(self.serial);
                    self.phase = Phase::Connected;
                    self.live = Some(conn);
                    self.failures = 0;
                    self.serial = if self.serial == u64::MAX { 0 } else { self.serial + 1 };
                    self.startup = Startup::Ready;
                    fx.publish = Publish::Announce(conn);
                } else {
                    self.attempt_current = true;
                    fx.discard = true;
                    fx.connect = true;
                }
            },
            LifecycleEvent::HandshakeFailed => {
                if self.phase == Phase::Connecting {
                    let failures = if self.failures == u32::MAX {
                        self.failures
                    } else {
                        self.failures + 1
                    };
                    let budget = if self.budget == 0 { 1 } else { self.budget };
                    self.failures = failures;
                    if self.startup == Startup::Pending && failures >= budget {
                        self.phase = Phase::Stopped;
                        self.startup = Startup::Failed;
                    } else {
                        self.phase = Phase::Disconnected;
                        fx.retry_after_ms = Some(retry_delay_ms(failures));
                    }
                }
            },
            LifecycleEvent::ConnectionLost(conn) => {
                if self.phase == Phase::Connected && self.live == Some(conn) {
                    self.phase = Phase::Disconnected;
                    self.live = None;
                    fx.publish = Publish::Retract;
                    fx.close = Some(conn);
                    fx.retry_after_ms = Some(retry_delay_ms(0));
                }
            },
            LifecycleEvent::ConfigChanged => {
                if self.phase == Phase::Connected {
                    fx.publish = Publish::Retract;
                    fx.close = self.live;
                    fx.connect = true;
                    self.phase = Phase::Connecting;
                    self.live = None;
                    self.attempt_current = true;
                } else if self.phase == Phase::Connecting {
                    self.attempt_current = false;
                }
            },
        }
        fx
    }
}

} // verus!
