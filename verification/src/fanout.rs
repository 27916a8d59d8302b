//! The media fan-out of a session: one upstream subscription per track
//! against the current connection, republished to any number of
//! downstream subscribers.
use vstd::prelude::*;
use std::collections::VecDeque;
use crate::config::{SessionError, Track};
use crate::hub::{
    Hub, HubView, Received, ReceivedView, lemma_close_wf, lemma_push_wf, lemma_recv_wf,
    lemma_subscribe_wf,
};
use crate::lifecycle::ConnectionRef;

verus! {

/// Most subscription requests that wait for the fan-out at one time.
pub const REQUEST_QUEUE: usize = 100;

/// A request for a subscription to one track.
#[derive(Clone, Copy, Debug, PartialEq, Eq, Structural)]
pub struct StreamRequest {
    pub track: Track,
    /// Names the reply slot of the requester.
    pub ticket: u64,
    /// Whether lag is reported to the subscriber as an error.
    pub strict: bool,
}

/// A downstream subscription: one reader of one track's hub.
#[derive(Clone, Copy, Debug, PartialEq, Eq, Structural)]
pub struct Subscription {
    pub track: Track,
    pub reader: usize,
}

/// What became of a request that was handed to the fan-out.
#[derive(Clone, Copy, Debug, PartialEq, Eq, Structural)]
pub enum Forwarded {
    /// The request waits for its turn.
    Queued,
    /// The queue is full: hand the request in again later.
    Full,
    /// The fan-out has stopped: the request is lost.
    Gone,
}

/// What the driver of the fan-out has to do next.
#[derive(Clone, Copy, Debug, PartialEq, Eq, Structural)]
pub enum FanOutAction {
    /// Nothing, until a request or a connection arrives.
    Wait,
    /// Open the upstream subscription of the track against the current
    /// connection and report how it went.
    OpenUpstream(Track),
    /// Fill the reply slot with the subscription.
    Grant { ticket: u64, subscription: Subscription },
    /// Tell the requester that the track cannot be had.
    Refuse { ticket: u64 },
}

impl FanOutAction {
    /// The answer that the action holds for a reply slot, if it holds one:
    /// the subscription that was granted, or that the track cannot be had.
    pub open spec fn spec_reply(self) -> Option<(u64, Result<Subscription, SessionError>)> {
        match self {
            FanOutAction::Grant { ticket, subscription } => Some((ticket, Ok(subscription))),
            FanOutAction::Refuse { ticket } => Some(
                (ticket, Err(SessionError::SubscriptionUnavailable)),
            ),
            _ => None,
        }
    }

    /// The answer that the action holds for a reply slot, if it holds one.
    pub fn reply(self) -> (answer: Option<(u64, Result<Subscription, SessionError>)>)
        ensures
            answer == self.spec_reply(),
    {
        match self {
            FanOutAction::Grant { ticket, subscription } => Some((ticket, Ok(subscription))),
            FanOutAction::Refuse { ticket } => Some(
                (ticket, Err(SessionError::SubscriptionUnavailable)),
            ),
            _ => None,
        }
    }
}

/// The fan-out state of one track as plain values.
pub struct TrackView {
    pub hub: HubView,
    /// Whether the upstream subscription is open against the current
    /// connection.
    pub upstream: bool,
    /// Whether the current connection is known not to offer the track.
    pub unavailable: bool,
}

/// The fan-out as plain values.
pub struct FanOutView {
    pub primary: TrackView,
    pub secondary: TrackView,
    pub audio: TrackView,
    /// The connection that the upstream subscriptions are made against.
    pub connection: Option<ConnectionRef>,
    /// Requests that wait, oldest first.
    pub pending: Seq<StreamRequest>,
    pub stopped: bool,
}

impl TrackView {
    /// A track that nobody has asked for yet.
    pub open spec fn init(history: nat) -> TrackView {
        TrackView { hub: HubView::empty(history), upstream: false, unavailable: false }
    }

    /// Whether the track is in need of its upstream subscription: somebody
    /// is subscribed to it, the upstream subscription is not open, and the
    /// current connection is not known to lack the track.
    pub open spec fn wants_upstream(self) -> bool {
        self.hub.has_open_reader() && !self.upstream && !self.unavailable
    }

    /// The track after its connection went away: subscribers stay, the
    /// upstream subscription is gone.
    pub open spec fn reset(self) -> TrackView {
        TrackView { upstream: false, unavailable: false, ..self }
    }
}

impl FanOutView {
    /// The state of one track.
    pub open spec fn track(self, track: Track) -> TrackView {
        match track {
            Track::PrimaryVideo => self.primary,
            Track::SecondaryVideo => self.secondary,
            Track::Audio => self.audio,
        }
    }

    /// The fan-out with one track replaced.
    pub open spec fn with_track(self, track: Track, state: TrackView) -> FanOutView {
        match track {
            Track::PrimaryVideo => FanOutView { primary: state, ..self },
            Track::SecondaryVideo => FanOutView { secondary: state, ..self },
            Track::Audio => FanOutView { audio: state, ..self },
        }
    }

    /// Every hub is well formed, the queue is within its bound, and
    /// upstream subscriptions exist only against a connection.
    pub open spec fn wf(self) -> bool {
        &&& self.primary.hub.wf()
        &&& self.secondary.hub.wf()
        &&& self.audio.hub.wf()
        &&& self.pending.len() <= REQUEST_QUEUE
        &&& self.stopped ==> self.pending.len() == 0
        &&& self.connection.is_none() ==> self.primary == self.primary.reset() && self.secondary
            == self.secondary.reset() && self.audio == self.audio.reset()
    }

    /// A new fan-out: no connection, no request, empty hubs whose windows
    /// hold `history` frames.
    pub open spec fn init(history: nat) -> FanOutView {
        FanOutView {
            primary: TrackView::init(history),
            secondary: TrackView::init(history),
            audio: TrackView::init(history),
            connection: None,
            pending: Seq::empty(),
            stopped: false,
        }
    }

    /// A request is handed in.
    pub open spec fn submit(self, request: StreamRequest) -> (FanOutView, Forwarded) {
        if self.stopped {
            (self, Forwarded::Gone)
        } else if self.pending.len() >= REQUEST_QUEUE {
            (self, Forwarded::Full)
        } else {
            (FanOutView { pending: self.pending.push(request), ..self }, Forwarded::Queued)
        }
    }

    /// The published connection changed. A different connection, or none,
    /// takes every upstream subscription with it; the subscribers stay.
    pub open spec fn connection_changed(self, connection: Option<ConnectionRef>) -> FanOutView {
        if self.stopped || connection == self.connection {
            self
        } else {
            FanOutView {
                primary: self.primary.reset(),
                secondary: self.secondary.reset(),
                audio: self.audio.reset(),
                connection,
                ..self
            }
        }
    }

    /// The driver reports how opening the upstream subscription went.
    pub open spec fn upstream_opened(self, track: Track, ok: bool) -> FanOutView {
        if self.stopped || self.connection.is_none() {
            self
        } else if ok {
            self.with_track(track, TrackView { upstream: true, ..self.track(track) })
        } else {
            self.with_track(track, TrackView { unavailable: true, ..self.track(track) })
        }
    }

    /// The first track, in the order of the tracks, that is in need of its
    /// upstream subscription.
    pub open spec fn reopen(self) -> Option<Track> {
        if self.primary.wants_upstream() {
            Some(Track::PrimaryVideo)
        } else if self.secondary.wants_upstream() {
            Some(Track::SecondaryVideo)
        } else if self.audio.wants_upstream() {
            Some(Track::Audio)
        } else {
            None
        }
    }

    /// What the fan-out does next. Without a connection it waits. With
    /// one, the subscribers that are there come first: a track that has
    /// subscribers but no upstream subscription, as after a reconnect, has
    /// it opened again. Then the oldest request is looked at: if its track
    /// cannot be had it is refused; if the upstream subscription is open it
    /// is granted a new reader; otherwise the upstream subscription has to
    /// be opened first and the request stays.
    pub open spec fn next_action(self) -> (FanOutView, FanOutAction) {
        if self.stopped || self.connection.is_none() {
            (self, FanOutAction::Wait)
        } else if let Some(track) = self.reopen() {
            (self, FanOutAction::OpenUpstream(track))
        } else if self.pending.len() == 0 {
            (self, FanOutAction::Wait)
        } else {
            let request = self.pending[0];
            let state = self.track(request.track);
            if state.unavailable {
                (
                    FanOutView { pending: self.pending.drop_first(), ..self },
                    FanOutAction::Refuse { ticket: request.ticket },
                )
            } else if state.upstream {
                (
                    FanOutView { pending: self.pending.drop_first(), ..self }.with_track(
                        request.track,
                        TrackView { hub: state.hub.subscribe(request.strict), ..state },
                    ),
                    FanOutAction::Grant {
                        ticket: request.ticket,
                        subscription: Subscription {
                            track: request.track,
                            reader: state.hub.readers.len() as usize,
                        },
                    },
                )
            } else {
                (self, FanOutAction::OpenUpstream(request.track))
            }
        }
    }

    /// A frame arrived on a track. It is taken in only while the upstream
    /// subscription of the track is open.
    pub open spec fn frame(self, track: Track, data: Seq<u8>) -> FanOutView {
        let state = self.track(track);
        if self.stopped || !state.upstream {
            self
        } else {
            self.with_track(track, TrackView { hub: state.hub.push(data), ..state })
        }
    }

    /// A subscriber asks for its next frame.
    pub open spec fn recv(self, subscription: Subscription) -> (FanOutView, ReceivedView) {
        let state = self.track(subscription.track);
        let (hub, got) = state.hub.recv(subscription.reader as int);
        (self.with_track(subscription.track, TrackView { hub, ..state }), got)
    }

    /// A subscriber gives up its subscription.
    pub open spec fn unsubscribe(self, subscription: Subscription) -> FanOutView {
        let state = self.track(subscription.track);
        self.with_track(
            subscription.track,
            TrackView { hub: state.hub.close(subscription.reader as int), ..state },
        )
    }

    /// The fan-out stops: the requests that wait are lost and the upstream
    /// subscriptions are gone.
    pub open spec fn stop(self) -> FanOutView {
        FanOutView {
            primary: self.primary.reset(),
            secondary: self.secondary.reset(),
            audio: self.audio.reset(),
            connection: None,
            pending: Seq::empty(),
            stopped: true,
        }
    }

    /// The tickets of the requests that wait, oldest first.
    pub open spec fn tickets(self) -> Seq<u64> {
        self.pending.map_values(|r: StreamRequest| r.ticket)
    }
}

/// Taking in a request, following the connection and stopping keep the
/// fan-out well formed.
pub proof fn lemma_fanout_stays_wf(v: FanOutView, connection: Option<ConnectionRef>)
    requires
        v.wf(),
    ensures
        forall|request: StreamRequest| (#[trigger] v.submit(request)).0.wf(),
        v.connection_changed(connection).wf(),
        v.stop().wf(),
{
}

/// A turn of the fan-out, a report on an upstream subscription and a frame
/// keep the fan-out well formed, and neither stop it nor change the
/// connection that it follows.
pub proof fn lemma_fanout_turns_wf(v: FanOutView, track: Track, ok: bool, data: Seq<u8>)
    requires
        v.wf(),
    ensures
        v.next_action().0.wf(),
        v.next_action().0.stopped == v.stopped,
        v.next_action().0.connection == v.connection,
        v.upstream_opened(track, ok).wf(),
        v.upstream_opened(track, ok).stopped == v.stopped,
        v.upstream_opened(track, ok).connection == v.connection,
        v.frame(track, data).wf(),
        v.frame(track, data).stopped == v.stopped,
        v.frame(track, data).connection == v.connection,
{
    lemma_push_wf(v.track(track).hub, data);
    if v.pending.len() > 0 {
        let first = v.pending[0];
        lemma_subscribe_wf(v.track(first.track).hub, first.strict);
    }
}

/// What a subscriber does keeps the fan-out well formed, and neither stops
/// it nor changes the connection that it follows.
pub proof fn lemma_fanout_readers_wf(v: FanOutView, subscription: Subscription)
    requires
        v.wf(),
    ensures
        v.recv(subscription).0.wf(),
        v.recv(subscription).0.stopped == v.stopped,
        v.recv(subscription).0.connection == v.connection,
        v.unsubscribe(subscription).wf(),
        v.unsubscribe(subscription).stopped == v.stopped,
        v.unsubscribe(subscription).connection == v.connection,
{
    lemma_recv_wf(v.track(subscription.track).hub, subscription.reader as int);
    lemma_close_wf(v.track(subscription.track).hub, subscription.reader as int);
}

/// At most one upstream subscription is opened per track and connection:
/// the fan-out asks for one only while the track has none.
pub proof fn lemma_one_upstream_per_track(v: FanOutView, track: Track, ok: bool)
    requires
        v.wf(),
        v.next_action().1 == FanOutAction::OpenUpstream(track),
    ensures
        !v.track(track).upstream,
        !v.track(track).unavailable,
        v.connection.is_some(),
        v.next_action().0 == v,
        v.upstream_opened(track, true).track(track).upstream,
        v.upstream_opened(track, ok).next_action().1 != FanOutAction::OpenUpstream(track),
{
}

/// Upstream subscriptions are opened again without anybody asking: while
/// connected, a track that has subscribers but no upstream subscription
/// makes the fan-out ask for one, whether requests wait or not. The
/// tracks in need are asked for in the order of the tracks, and a track
/// that has been reported on is not in need any more, so that each one has
/// its turn.
pub proof fn lemma_upstreams_are_reopened(v: FanOutView, track: Track, ok: bool)
    requires
        v.wf(),
        !v.stopped,
        v.connection.is_some(),
        v.track(track).wants_upstream(),
    ensures
        ({
            let asked = v.reopen().unwrap();
            let reported = v.upstream_opened(asked, ok);
            &&& v.reopen().is_some()
            &&& v.next_action() == (v, FanOutAction::OpenUpstream(asked))
            &&& v.track(asked).wants_upstream()
            &&& asked.spec_index() <= track.spec_index()
            &&& !reported.track(asked).wants_upstream()
            &&& forall|other: Track| other != asked ==> reported.track(other) == v.track(other)
            &&& reported.pending == v.pending
        }),
{
}

/// After a reconnect the subscribers that were there get frames again
/// without subscribing anew: the fan-out asks for the upstream
/// subscription of their track, and once it is open a frame that arrives
/// is handed to a reader that had got all frames before.
pub proof fn lemma_old_readers_get_frames_again(
    v: FanOutView,
    subscription: Subscription,
    connection: ConnectionRef,
    data: Seq<u8>,
)
    requires
        v.wf(),
        !v.stopped,
        v.connection != Some(connection),
        v.track(subscription.track).hub.caught_up(subscription.reader as int),
        v.track(subscription.track).hub.accepts(),
    ensures
        ({
            let track = subscription.track;
            let changed = v.connection_changed(Some(connection));
            let opened = changed.upstream_opened(track, true);
            &&& changed.track(track).wants_upstream()
            &&& changed.next_action().1 is OpenUpstream
            &&& opened.track(track).upstream
            &&& opened.frame(track, data).recv(subscription).1 == ReceivedView::Frame(data)
        }),
{
    let track = subscription.track;
    let hub = v.track(track).hub;
    assert(hub.is_open(subscription.reader as int));
    lemma_push_wf(hub, data);
    let arrived = hub.push(data);
    assert(arrived.frames[arrived.readers[subscription.reader as int].cursor - arrived.head]
        == data);
}

/// A request that arrives before any connection waits: nothing is done for
/// it, and it is neither lost nor overtaken.
pub proof fn lemma_request_waits_for_connection(v: FanOutView, request: StreamRequest)
    requires
        v.wf(),
        !v.stopped,
        v.connection.is_none(),
        v.pending.len() < REQUEST_QUEUE,
    ensures
        v.submit(request).1 == Forwarded::Queued,
        v.submit(request).0.next_action().1 == FanOutAction::Wait,
        v.submit(request).0.next_action().0.pending == v.pending.push(request),
{
}

/// Once the connection is there, no track waits for its upstream
/// subscription and that of the request is open, the oldest request is
/// granted a reader of its own, which starts at the frames that arrive
/// from then on.
pub proof fn lemma_request_is_granted(v: FanOutView)
    requires
        v.wf(),
        !v.stopped,
        v.connection.is_some(),
        v.pending.len() > 0,
        v.reopen().is_none(),
        v.track(v.pending[0].track).upstream,
        !v.track(v.pending[0].track).unavailable,
    ensures
        ({
            let request = v.pending[0];
            let (after, action) = v.next_action();
            let reader = v.track(request.track).hub.readers.len() as int;
            &&& action == FanOutAction::Grant {
                ticket: request.ticket,
                subscription: Subscription { track: request.track, reader: reader as usize },
            }
            &&& after.pending == v.pending.drop_first()
            &&& after.track(request.track).hub.caught_up(reader)
            &&& after.track(request.track).hub.readers[reader].strict == request.strict
        }),
{
}

/// When the connection changes, no subscriber has to subscribe again:
/// every hub, with its window and its readers, is kept.
pub proof fn lemma_subscribers_survive_reconnect(
    v: FanOutView,
    connection: Option<ConnectionRef>,
    track: Track,
)
    ensures
        v.connection_changed(connection).track(track).hub == v.track(track).hub,
        v.connection_changed(connection).pending == v.pending,
        !v.stopped && connection != v.connection ==> !v.connection_changed(connection).track(
            track,
        ).upstream,
{
}

/// One subscriber's request for a frame changes nothing on other tracks.
pub proof fn lemma_recv_leaves_other_tracks(v: FanOutView, subscription: Subscription, other: Track)
    requires
        other != subscription.track,
    ensures
        v.recv(subscription).0.track(other) == v.track(other),
        v.recv(subscription).0.pending == v.pending,
        v.recv(subscription).0.connection == v.connection,
{
}

/// State of the fan-out of one track.
pub struct TrackState {
    hub: Hub,
    upstream: bool,
    unavailable: bool,
}

impl View for TrackState {
    type V = TrackView;

    closed spec fn view(&self) -> TrackView {
        TrackView { hub: self.hub@, upstream: self.upstream, unavailable: self.unavailable }
    }
}

impl TrackState {
    fn new(history: usize) -> (state: TrackState)
        ensures
            state@ == TrackView::init(if history == 0 { 1 } else { history as nat }),
            state@.hub.wf(),
    {
        TrackState { hub: Hub::new(history), upstream: false, unavailable: false }
    }

    fn wants_upstream(&self) -> (yes: bool)
        ensures
            yes == self@.wants_upstream(),
    {
        !self.upstream && !self.unavailable && self.hub.has_open_reader()
    }
}

/// State of the media fan-out of one session.
pub struct FanOut {
    primary: TrackState,
    secondary: TrackState,
    audio: TrackState,
    connection: Option<ConnectionRef>,
    pending: VecDeque<StreamRequest>,
    stopped: bool,
}

impl View for FanOut {
    type V = FanOutView;

    closed spec fn view(&self) -> FanOutView {
        FanOutView {
            primary: self.primary@,
            secondary: self.secondary@,
            audio: self.audio@,
            connection: self.connection,
            pending: self.pending@,
            stopped: self.stopped,
        }
    }
}

impl FanOut {
    /// Well-formedness of the state.
    pub open spec fn wf(&self) -> bool {
        self@.wf()
    }

    /// Creates the fan-out of a new session. Each track keeps the last
    /// `history` frames for its subscribers; zero is taken as one.
    pub fn new(history: usize) -> (fanout: FanOut)
        ensures
            fanout.wf(),
            fanout@ == FanOutView::init(if history == 0 { 1 } else { history as nat }),
    {
        let fanout = FanOut {
            primary: TrackState::new(history),
            secondary: TrackState::new(history),
            audio: TrackState::new(history),
            connection: None,
            pending: VecDeque::new(),
            stopped: false,
        };
        assert(fanout@.pending =~= Seq::<StreamRequest>::empty());
        fanout
    }

    fn state_mut(&mut self, track: Track) -> (state: &mut TrackState)
        ensures
            state@ == old(self)@.track(track),
            final(self)@ == old(self)@.with_track(track, final(state)@),
    {
        match track {
            Track::PrimaryVideo => &mut self.primary,
            Track::SecondaryVideo => &mut self.secondary,
            Track::Audio => &mut self.audio,
        }
    }

    fn state(&self, track: Track) -> (state: &TrackState)
        ensures
            state@ == self@.track(track),
    {
        match track {
            Track::PrimaryVideo => &self.primary,
            Track::SecondaryVideo => &self.secondary,
            Track::Audio => &self.audio,
        }
    }

    /// The connection that the upstream subscriptions are made against.
    pub fn connection(&self) -> (connection: Option<ConnectionRef>)
        ensures
            connection == self@.connection,
    {
        self.connection
    }

    /// Number of requests that wait.
    pub fn pending(&self) -> (n: usize)
        ensures
            n == self@.pending.len(),
    {
        self.pending.len()
    }

    /// Whether the track has subscribers but no upstream subscription,
    /// while nothing says that the connection lacks the track.
    pub fn wants_upstream(&self, track: Track) -> (yes: bool)
        ensures
            yes == self@.track(track).wants_upstream(),
    {
        self.state(track).wants_upstream()
    }

    /// Whether the upstream subscription of the track is open.
    pub fn has_upstream(&self, track: Track) -> (open: bool)
        ensures
            open == self@.track(track).upstream,
    {
        self.state(track).upstream
    }

    /// Whether the fan-out has stopped.
    pub fn is_stopped(&self) -> (stopped: bool)
        ensures
            stopped == self@.stopped,
    {
        self.stopped
    }

    /// Takes in a request, if the queue has room for it.
    pub fn submit(&mut self, request: StreamRequest) -> (outcome: Forwarded)
        requires
            old(self).wf(),
        ensures
            final(self).wf(),
            final(self)@ == old(self)@.submit(request).0,
            outcome == old(self)@.submit(request).1,
    {
        if self.stopped {
            Forwarded::Gone
        } else if self.pending.len() >= REQUEST_QUEUE {
            Forwarded::Full
        } else {
            self.pending.push_back(request);
            Forwarded::Queued
        }
    }

    /// Takes note of the connection that is published now.
    pub fn connection_changed(&mut self, connection: Option<ConnectionRef>)
        requires
            old(self).wf(),
        ensures
            final(self).wf(),
            final(self)@ == old(self)@.connection_changed(connection),
    {
        if self.stopped || connection == self.connection {
            return ;
        }
        self.primary.upstream = false;
        self.primary.unavailable = false;
        self.secondary.upstream = false;
        self.secondary.unavailable = false;
        self.audio.upstream = false;
        self.audio.unavailable = false;
        self.connection = connection;
    }

    /// Takes note of how opening an upstream subscription went.
    pub fn upstream_opened(&mut self, track: Track, ok: bool)
        requires
            old(self).wf(),
        ensures
            final(self).wf(),
            final(self)@ == old(self)@.upstream_opened(track, ok),
    {
        if self.stopped || self.connection.is_none() {
            return ;
        }
        let state = self.state_mut(track);
        if ok {
            state.upstream = true;
        } else {
            state.unavailable = true;
        }
    }

    /// Says what to do next: open an upstream subscription again for the
    /// subscribers of a track, or deal with the oldest request.
    pub fn next_action(&mut self) -> (action: FanOutAction)
        requires
            old(self).wf(),
        ensures
            final(self).wf(),
            final(self)@ == old(self)@.next_action().0,
            action == old(self)@.next_action().1,
    {
        if self.stopped || self.connection.is_none() {
            return FanOutAction::Wait;
        }
        if self.primary.wants_upstream() {
            return FanOutAction::OpenUpstream(Track::PrimaryVideo);
        }
        if self.secondary.wants_upstream() {
            return FanOutAction::OpenUpstream(Track::SecondaryVideo);
        }
        if self.audio.wants_upstream() {
            return FanOutAction::OpenUpstream(Track::Audio);
        }
        if self.pending.len() == 0 {
            return FanOutAction::Wait;
        }
        let request = self.pending[0];
        let unavailable = self.state(request.track).unavailable;
        let upstream = self.state(request.track).upstream;
        if unavailable {
            let _ = self.pending.pop_front();
            FanOutAction::Refuse { ticket: request.ticket }
        } else if upstream {
            let _ = self.pending.pop_front();
            let state = self.state_mut(request.track);
            let reader = state.hub.subscribe(request.strict);
            FanOutAction::Grant {
                ticket: request.ticket,
                subscription: Subscription { track: request.track, reader },
            }
        } else {
            FanOutAction::OpenUpstream(request.track)
        }
    }

    /// Takes in a frame that arrived on a track.
    pub fn frame(&mut self, track: Track, data: Vec<u8>)
        requires
            old(self).wf(),
        ensures
            final(self).wf(),
            final(self)@ == old(self)@.frame(track, data@),
    {
        if self.stopped {
            return ;
        }
        proof {
            lemma_push_wf(self@.track(track).hub, data@);
        }
        let state = self.state_mut(track);
        if state.upstream {
            state.hub.push(data);
        }
    }

    /// Hands a subscriber its next frame, if there is one.
    pub fn recv(&mut self, subscription: Subscription) -> (got: Received)
        requires
            old(self).wf(),
        ensures
            final(self).wf(),
            final(self)@ == old(self)@.recv(subscription).0,
            got@ == old(self)@.recv(subscription).1,
    {
        proof {
            lemma_recv_wf(self@.track(subscription.track).hub, subscription.reader as int);
        }
        let state = self.state_mut(subscription.track);
        state.hub.recv(subscription.reader)
    }

    /// Ends a subscription.
    pub fn unsubscribe(&mut self, subscription: Subscription)
        requires
            old(self).wf(),
        ensures
            final(self).wf(),
            final(self)@ == old(self)@.unsubscribe(subscription),
    {
        proof {
            lemma_close_wf(self@.track(subscription.track).hub, subscription.reader as int);
        }
        let state = self.state_mut(subscription.track);
        state.hub.close(subscription.reader);
    }

    /// Stops the fan-out. Returns the tickets of the requests that were
    /// still waiting, oldest first: their reply slots are never filled.
    pub fn stop(&mut self) -> (dropped: Vec<u64>)
        requires
            old(self).wf(),
        ensures
            final(self).wf(),
            final(self)@ == old(self)@.stop(),
            dropped@ == old(self)@.tickets(),
    {
        let ghost before = self@;
        let mut dropped: Vec<u64> = Vec::new();
        while self.pending.len() > 0
            invariant
                dropped@ + self.pending@.map_values(|r: StreamRequest| r.ticket)
                    == before.tickets(),
                self.primary == old(self).primary,
                self.secondary == old(self).secondary,
                self.audio == old(self).audio,
            decreases self.pending.len(),
        {
            let ghost rest = self.pending@;
            let request = self.pending.pop_front();
            match request {
                Some(request) => {
                    dropped.push(request.ticket);
                    proof {
                        let f = |r: StreamRequest| r.ticket;
                        assert(rest.map_values(f) =~= seq![request.ticket]
                            + rest.drop_first().map_values(f));
                        assert(self.pending@ == rest.drop_first());
                        assert(dropped@ + self.pending@.map_values(f) =~= (dropped@.drop_last()
                            + rest.map_values(f)));
                    }
                },
                None => {},
            }
        }
        self.primary.upstream = false;
        self.primary.unavailable = false;
        self.secondary.upstream = false;
        self.secondary.unavailable = false;
        self.audio.upstream = false;
        self.audio.unavailable = false;
        self.connection = None;
        self.stopped = true;
        proof {
            assert(self.pending@ =~= Seq::<StreamRequest>::empty());
            assert(dropped@ =~= before.tickets());
        }
        dropped
    }
}

} // verus!
