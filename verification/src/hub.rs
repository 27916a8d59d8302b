//! The broadcast buffer of one track: a bounded window over the frames
//! that arrived, read by any number of independent readers.
use vstd::prelude::*;
use std::collections::VecDeque;

verus! {

/// One downstream reader of a hub.
#[derive(Clone, Copy, Debug, PartialEq, Eq, Structural)]
pub struct Reader {
    /// Number of the next frame that the reader will get.
    pub cursor: u64,
    /// Whether lag ends the subscription with an error.
    pub strict: bool,
    /// Whether the subscription is still alive.
    pub open: bool,
}

/// What a reader gets when it asks for its next frame.
#[derive(Debug)]
pub enum Received {
    /// The next frame.
    Frame(Vec<u8>),
    /// No frame has arrived since the last one that the reader got.
    Empty,
    /// The reader missed this many frames; its subscription has ended.
    Lagged(u64),
    /// The subscription has ended or never existed.
    Closed,
}

/// [`Received`] as plain values.
pub enum ReceivedView {
    Frame(Seq<u8>),
    Empty,
    Lagged(u64),
    Closed,
}

impl View for Received {
    type V = ReceivedView;

    open spec fn view(&self) -> ReceivedView {
        match self {
            Received::Frame(data) => ReceivedView::Frame(data@),
            Received::Empty => ReceivedView::Empty,
            Received::Lagged(n) => ReceivedView::Lagged(*n),
            Received::Closed => ReceivedView::Closed,
        }
    }
}

/// The broadcast buffer of one track.
pub struct Hub {
    capacity: usize,
    head: u64,
    frames: VecDeque<Vec<u8>>,
    readers: Vec<Reader>,
}

/// A hub as plain values. Frames are numbered from zero in the order of
/// their arrival; the window holds the frames from number `head` on.
pub struct HubView {
    /// Most frames that the window holds.
    pub capacity: nat,
    /// Number of the oldest frame in the window.
    pub head: nat,
    /// The window, oldest frame first.
    pub frames: Seq<Seq<u8>>,
    pub readers: Seq<Reader>,
}

impl HubView {
    /// Number that the next frame to arrive will get.
    pub open spec fn tail(self) -> nat {
        self.head + self.frames.len()
    }

    /// The window is within its capacity and loses frames only when it is
    /// full, frame numbers fit in 64 bits and no reader is ahead of the
    /// frames.
    pub open spec fn wf(self) -> bool {
        &&& self.capacity >= 1
        &&& self.frames.len() <= self.capacity
        &&& self.head > 0 ==> self.frames.len() == self.capacity
        &&& self.tail() <= u64::MAX
        &&& forall|r: int|
            0 <= r < self.readers.len() ==> (#[trigger] self.readers[r]).cursor <= self.tail()
    }

    /// An empty hub without readers.
    pub open spec fn empty(capacity: nat) -> HubView {
        HubView { capacity, head: 0, frames: Seq::empty(), readers: Seq::empty() }
    }

    /// Whether the hub can still number another frame.
    pub open spec fn accepts(self) -> bool {
        self.tail() < u64::MAX
    }

    /// The hub after a frame arrived. A full window drops its oldest frame.
    /// A hub that has run out of frame numbers stays as it is.
    pub open spec fn push(self, data: Seq<u8>) -> HubView {
        if !self.accepts() {
            self
        } else if self.frames.len() < self.capacity {
            HubView { frames: self.frames.push(data), ..self }
        } else {
            HubView { head: self.head + 1, frames: self.frames.drop_first().push(data), ..self }
        }
    }

    /// The hub after a sequence of frames arrived.
    pub open spec fn push_all(self, datas: Seq<Seq<u8>>) -> HubView
        decreases datas.len(),
    {
        if datas.len() == 0 {
            self
        } else {
            self.push(datas[0]).push_all(datas.drop_first())
        }
    }

    /// The hub with one more reader, which will get the frames that arrive
    /// from now on.
    pub open spec fn subscribe(self, strict: bool) -> HubView {
        HubView {
            readers: self.readers.push(Reader { cursor: self.tail() as u64, strict, open: true }),
            ..self
        }
    }

    /// Whether `r` names a reader whose subscription is alive.
    pub open spec fn is_open(self, r: int) -> bool {
        0 <= r < self.readers.len() && self.readers[r].open
    }

    /// Whether any reader's subscription is alive.
    pub open spec fn has_open_reader(self) -> bool {
        exists|r: int| self.is_open(r)
    }

    /// Whether reader `r` has missed frames: the frame it would get next has
    /// left the window.
    pub open spec fn lags(self, r: int) -> bool {
        self.is_open(r) && self.readers[r].cursor < self.head
    }

    /// Whether reader `r` has got every frame that arrived so far.
    pub open spec fn caught_up(self, r: int) -> bool {
        self.is_open(r) && self.readers[r].cursor == self.tail()
    }

    /// The hub with the subscription of `r` ended.
    pub open spec fn close(self, r: int) -> HubView {
        if 0 <= r < self.readers.len() {
            HubView {
                readers: self.readers.update(r, Reader { open: false, ..self.readers[r] }),
                ..self
            }
        } else {
            self
        }
    }

    /// Reader `r` standing at frame number `pos` takes its next frame.
    pub open spec fn deliver(self, r: int, pos: nat) -> (HubView, ReceivedView) {
        if pos >= self.tail() {
            (
                HubView {
                    readers: self.readers.update(
                        r,
                        Reader { cursor: pos as u64, ..self.readers[r] },
                    ),
                    ..self
                },
                ReceivedView::Empty,
            )
        } else {
            (
                HubView {
                    readers: self.readers.update(
                        r,
                        Reader { cursor: (pos + 1) as u64, ..self.readers[r] },
                    ),
                    ..self
                },
                ReceivedView::Frame(self.frames[pos - self.head]),
            )
        }
    }

    /// Frames arrive one by one, and after each arrival reader `a` and then
    /// reader `b` ask for their next frame. Returns the hub at the end and
    /// what each of the two was handed, in order.
    pub open spec fn relay(self, datas: Seq<Seq<u8>>, a: int, b: int) -> (
        HubView,
        Seq<ReceivedView>,
        Seq<ReceivedView>,
    )
        decreases datas.len(),
    {
        if datas.len() == 0 {
            (self, Seq::empty(), Seq::empty())
        } else {
            let arrived = self.push(datas[0]);
            let (after_a, got_a) = arrived.recv(a);
            let (after_b, got_b) = after_a.recv(b);
            let (end, rest_a, rest_b) = after_b.relay(datas.drop_first(), a, b);
            (end, seq![got_a] + rest_a, seq![got_b] + rest_b)
        }
    }

    /// Frames arrive one by one, and after each arrival reader `a` asks for
    /// its next frame while no other reader asks for anything. Returns the
    /// hub at the end and what `a` was handed, in order.
    pub open spec fn feed(self, datas: Seq<Seq<u8>>, a: int) -> (HubView, Seq<ReceivedView>)
        decreases datas.len(),
    {
        if datas.len() == 0 {
            (self, Seq::empty())
        } else {
            let (after, got) = self.push(datas[0]).recv(a);
            let (end, rest) = after.feed(datas.drop_first(), a);
            (end, seq![got] + rest)
        }
    }

    /// Reader `r` asks for its next frame. A reader that lags is told so
    /// and closed if it is strict, and silently moved to the oldest frame
    /// of the window if it is not.
    pub open spec fn recv(self, r: int) -> (HubView, ReceivedView) {
        if !self.is_open(r) {
            (self, ReceivedView::Closed)
        } else if self.readers[r].cursor < self.head {
            if self.readers[r].strict {
                (self.close(r), ReceivedView::Lagged((self.head - self.readers[r].cursor) as u64))
            } else {
                self.deliver(r, self.head)
            }
        } else {
            self.deliver(r, self.readers[r].cursor as nat)
        }
    }
}

/// A frame that arrives keeps the hub well formed and touches no reader.
pub proof fn lemma_push_wf(h: HubView, data: Seq<u8>)
    requires
        h.wf(),
    ensures
        h.push(data).wf(),
        h.push(data).readers == h.readers,
        h.push(data).capacity == h.capacity,
        h.accepts() ==> h.push(data).tail() == h.tail() + 1,
        h.accepts() ==> h.push(data).frames.last() == data,
{
}

/// A new reader keeps the hub well formed and has got all that arrived.
pub proof fn lemma_subscribe_wf(h: HubView, strict: bool)
    requires
        h.wf(),
    ensures
        h.subscribe(strict).wf(),
        h.subscribe(strict).caught_up(h.readers.len() as int),
{
    let s = h.subscribe(strict);
    assert forall|k: int| 0 <= k < s.readers.len() implies (#[trigger] s.readers[k]).cursor
        <= s.tail() by {
        if k < h.readers.len() {
            assert(h.readers[k].cursor <= h.tail());
        }
    }
}

/// Ending a subscription keeps the hub well formed.
pub proof fn lemma_close_wf(h: HubView, r: int)
    requires
        h.wf(),
    ensures
        h.close(r).wf(),
{
    let c = h.close(r);
    assert forall|k: int| 0 <= k < c.readers.len() implies (#[trigger] c.readers[k]).cursor
        <= c.tail() by {
        assert(h.readers[k].cursor <= h.tail());
    }
}

/// Asking for a frame keeps the hub well formed.
pub proof fn lemma_recv_wf(h: HubView, r: int)
    requires
        h.wf(),
    ensures
        h.recv(r).0.wf(),
{
}

/// A reader that asks for its frame changes nothing for anybody else: the
/// window and every other reader stay as they were.
pub proof fn lemma_recv_leaves_others(h: HubView, r: int, other: int)
    requires
        h.wf(),
        0 <= other < h.readers.len(),
        other != r,
    ensures
        h.recv(r).0.readers[other] == h.readers[other],
        h.recv(r).0.readers.len() == h.readers.len(),
        h.recv(r).0.frames == h.frames,
        h.recv(r).0.head == h.head,
        h.recv(r).0.capacity == h.capacity,
{
}

/// A reader that does not lag gets the frames in the order of their
/// arrival, without a gap: it is handed the frame whose number its cursor
/// holds, and the cursor moves on by one.
pub proof fn lemma_recv_in_order(h: HubView, r: int)
    requires
        h.wf(),
        h.is_open(r),
        !h.lags(r),
        !h.caught_up(r),
    ensures
        h.recv(r).1 == ReceivedView::Frame(h.frames[h.readers[r].cursor - h.head]),
        h.recv(r).0.readers[r].cursor == h.readers[r].cursor + 1,
        h.recv(r).0.is_open(r),
{
}

/// Two readers that keep up both get every frame: when both have caught
/// up, a frame arrives and each asks in turn, each is handed that frame
/// and has caught up again.
pub proof fn lemma_keeping_up_gets_every_frame(h: HubView, data: Seq<u8>, a: int, b: int)
    requires
        h.wf(),
        h.accepts(),
        a != b,
        h.caught_up(a),
        h.caught_up(b),
    ensures
        ({
            let arrived = h.push(data);
            let (after_a, got_a) = arrived.recv(a);
            let (after_b, got_b) = after_a.recv(b);
            &&& got_a == ReceivedView::Frame(data)
            &&& got_b == ReceivedView::Frame(data)
            &&& after_b.caught_up(a)
            &&& after_b.caught_up(b)
            &&& after_b.wf()
        }),
{
    let arrived = h.push(data);
    lemma_push_wf(h, data);
    assert(arrived.frames[arrived.readers[a].cursor - arrived.head] == data);
    let (after_a, got_a) = arrived.recv(a);
    assert(after_a.frames == arrived.frames);
}

/// Two readers that keep up receive every frame that arrives, in the order
/// of arrival and nothing else, however many frames there are and whatever
/// the size of the window.
pub proof fn lemma_keeping_up_gets_all_frames(h: HubView, datas: Seq<Seq<u8>>, a: int, b: int)
    requires
        h.wf(),
        h.tail() + datas.len() <= u64::MAX,
        a != b,
        h.caught_up(a),
        h.caught_up(b),
    ensures
        h.relay(datas, a, b).1 == Seq::new(datas.len(), |i: int| ReceivedView::Frame(datas[i])),
        h.relay(datas, a, b).2 == h.relay(datas, a, b).1,
        h.relay(datas, a, b).0.caught_up(a),
        h.relay(datas, a, b).0.caught_up(b),
        h.relay(datas, a, b).0.wf(),
    decreases datas.len(),
{
    if datas.len() > 0 {
        lemma_keeping_up_gets_every_frame(h, datas[0], a, b);
        let after = h.push(datas[0]).recv(a).0.recv(b).0;
        let rest = datas.drop_first();
        lemma_keeping_up_gets_all_frames(after, rest, a, b);
        let expected = Seq::new(datas.len(), |i: int| ReceivedView::Frame(datas[i]));
        let expected_rest = Seq::new(rest.len(), |i: int| ReceivedView::Frame(rest[i]));
        assert(seq![ReceivedView::Frame(datas[0])] + expected_rest =~= expected);
    } else {
        assert(Seq::<ReceivedView>::empty() =~= Seq::new(
            datas.len(),
            |i: int| ReceivedView::Frame(datas[i]),
        ));
    }
}

/// A reader that keeps up receives every frame that arrives, in the order
/// of arrival, whatever the other readers do not read: they are left as
/// they were, and the window moves on as the frames demand.
pub proof fn lemma_feed_shape(h: HubView, datas: Seq<Seq<u8>>, a: int)
    requires
        h.wf(),
        h.tail() + datas.len() <= u64::MAX,
        h.caught_up(a),
    ensures
        h.feed(datas, a).1 == Seq::new(datas.len(), |i: int| ReceivedView::Frame(datas[i])),
        h.feed(datas, a).0.wf(),
        h.feed(datas, a).0.caught_up(a),
        h.feed(datas, a).0.capacity == h.capacity,
        h.feed(datas, a).0.tail() == h.tail() + datas.len(),
        h.feed(datas, a).0.head == if h.tail() + datas.len() - h.head > h.capacity {
            h.tail() + datas.len() - h.capacity
        } else {
            h.head as int
        },
        h.feed(datas, a).0.readers.len() == h.readers.len(),
        forall|other: int|
            0 <= other < h.readers.len() && other != a ==> #[trigger] h.feed(
                datas,
                a,
            ).0.readers[other] == h.readers[other],
    decreases datas.len(),
{
    if datas.len() > 0 {
        let arrived = h.push(datas[0]);
        lemma_push_wf(h, datas[0]);
        assert(arrived.frames[arrived.readers[a].cursor - arrived.head] == datas[0]);
        let after = arrived.recv(a).0;
        lemma_recv_wf(arrived, a);
        let rest = datas.drop_first();
        lemma_feed_shape(after, rest, a);
        let expected = Seq::new(datas.len(), |i: int| ReceivedView::Frame(datas[i]));
        let expected_rest = Seq::new(rest.len(), |i: int| ReceivedView::Frame(rest[i]));
        assert(seq![ReceivedView::Frame(datas[0])] + expected_rest =~= expected);
        let end = h.feed(datas, a).0;
        assert forall|other: int|
            0 <= other < h.readers.len() && other != a implies #[trigger] end.readers[other]
            == h.readers[other] by {
            assert(after.readers[other] == h.readers[other]);
        }
    } else {
        assert(Seq::<ReceivedView>::empty() =~= Seq::new(
            datas.len(),
            |i: int| ReceivedView::Frame(datas[i]),
        ));
    }
}

/// A slow reader does not hold back a fast one. While a strict reader
/// reads nothing and more frames arrive than the window holds, a reader
/// that keeps up is handed every one of them. The slow reader is then
/// told how many frames it missed and is closed; this changes nothing for
/// the fast reader, which goes on receiving what arrives.
pub proof fn lemma_fast_reader_is_unaffected(
    h: HubView,
    datas: Seq<Seq<u8>>,
    next: Seq<u8>,
    fast: int,
    slow: int,
)
    requires
        h.wf(),
        h.tail() + datas.len() < u64::MAX,
        datas.len() > h.capacity,
        fast != slow,
        h.caught_up(fast),
        h.is_open(slow),
        h.readers[slow].strict,
    ensures
        ({
            let (fed, got) = h.feed(datas, fast);
            let (after, told) = fed.recv(slow);
            &&& got == Seq::new(datas.len(), |i: int| ReceivedView::Frame(datas[i]))
            &&& fed.lags(slow)
            &&& told == ReceivedView::Lagged((fed.head - h.readers[slow].cursor) as u64)
            &&& !after.is_open(slow)
            &&& after.readers[fast] == fed.readers[fast]
            &&& after.push(next).recv(fast).1 == ReceivedView::Frame(next)
        }),
{
    lemma_feed_shape(h, datas, fast);
    let fed = h.feed(datas, fast).0;
    let after = fed.recv(slow).0;
    lemma_recv_wf(fed, slow);
    let arrived = after.push(next);
    lemma_push_wf(after, next);
    assert(arrived.frames[arrived.readers[fast].cursor - arrived.head] == next);
}

/// What a sequence of arriving frames does to the window: as long as the
/// frame numbers last, every frame is numbered, the window keeps the
/// newest frames up to its capacity, and no reader is touched.
pub proof fn lemma_push_all_shape(h: HubView, datas: Seq<Seq<u8>>)
    requires
        h.wf(),
        h.tail() + datas.len() <= u64::MAX,
    ensures
        h.push_all(datas).wf(),
        h.push_all(datas).readers == h.readers,
        h.push_all(datas).capacity == h.capacity,
        h.push_all(datas).tail() == h.tail() + datas.len(),
        h.push_all(datas).head == if h.tail() + datas.len() - h.head > h.capacity {
            h.tail() + datas.len() - h.capacity
        } else {
            h.head as int
        },
    decreases datas.len(),
{
    if datas.len() > 0 {
        lemma_push_wf(h, datas[0]);
        lemma_push_all_shape(h.push(datas[0]), datas.drop_first());
    }
}

/// A strict reader that falls behind is told so, and nobody else is: once
/// more frames than the window holds have arrived without the reader
/// asking, its next request reports how many frames it missed and ends
/// its subscription, while every other reader stays as it was.
pub proof fn lemma_slow_strict_reader_lags(h: HubView, datas: Seq<Seq<u8>>, slow: int, other: int)
    requires
        h.wf(),
        h.tail() + datas.len() <= u64::MAX,
        datas.len() > h.capacity,
        h.is_open(slow),
        h.readers[slow].strict,
        0 <= other < h.readers.len(),
        other != slow,
    ensures
        ({
            let flooded = h.push_all(datas);
            let (after, got) = flooded.recv(slow);
            &&& flooded.lags(slow)
            &&& got == ReceivedView::Lagged((flooded.head - h.readers[slow].cursor) as u64)
            &&& !after.is_open(slow)
            &&& after.readers[other] == h.readers[other]
            &&& after.frames == flooded.frames
        }),
{
    lemma_push_all_shape(h, datas);
}

/// A reader that is not strict is never closed for lagging: it is moved to
/// the oldest frame that the window still holds and gets that one.
pub proof fn lemma_lenient_reader_skips(h: HubView, r: int)
    requires
        h.wf(),
        h.lags(r),
        !h.readers[r].strict,
    ensures
        h.recv(r).1 == ReceivedView::Frame(h.frames[0]),
        h.recv(r).0.is_open(r),
        h.recv(r).0.readers[r].cursor == h.head + 1,
{
}

impl View for Hub {
    type V = HubView;

    closed spec fn view(&self) -> HubView {
        HubView {
            capacity: self.capacity as nat,
            head: self.head as nat,
            frames: self.frames@.map_values(|f: Vec<u8>| f@),
            readers: self.readers@,
        }
    }
}

impl Hub {
    /// Well-formedness of the hub.
    pub open spec fn wf(&self) -> bool {
        self@.wf()
    }

    /// Creates an empty hub whose window holds `capacity` frames; a
    /// capacity of zero is taken as one.
    pub fn new(capacity: usize) -> (hub: Hub)
        ensures
            hub.wf(),
            hub@ == HubView::empty(if capacity == 0 { 1 } else { capacity as nat }),
    {
        let hub = Hub {
            capacity: if capacity == 0 { 1 } else { capacity },
            head: 0,
            frames: VecDeque::new(),
            readers: Vec::new(),
        };
        assert(hub@.frames =~= Seq::<Seq<u8>>::empty());
        hub
    }

    /// Number of frames in the window.
    pub fn len(&self) -> (n: usize)
        ensures
            n == self@.frames.len(),
    {
        self.frames.len()
    }

    /// Number of readers that ever subscribed.
    pub fn readers(&self) -> (n: usize)
        ensures
            n == self@.readers.len(),
    {
        self.readers.len()
    }

    /// Whether any reader's subscription is alive.
    pub fn has_open_reader(&self) -> (yes: bool)
        ensures
            yes == self@.has_open_reader(),
    {
        let mut i: usize = 0;
        while i < self.readers.len()
            invariant
                i <= self.readers.len(),
                forall|k: int| 0 <= k < i ==> !self@.is_open(k),
            decreases self.readers.len() - i,
        {
            if self.readers[i].open {
                assert(self@.is_open(i as int));
                return true;
            }
            i = i + 1;
        }
        false
    }

    /// The state of a reader, if there is one of that number.
    pub fn reader(&self, r: usize) -> (state: Option<Reader>)
        ensures
            state == if r < self@.readers.len() { Some(self@.readers[r as int]) } else { None },
    {
        if r < self.readers.len() { Some(self.readers[r]) } else { None }
    }

    /// Takes in a frame that arrived from upstream.
    pub fn push(&mut self, data: Vec<u8>)
        requires
            old(self).wf(),
        ensures
            final(self).wf(),
            final(self)@ == old(self)@.push(data@),
    {
        let ghost before = self@;
        let ghost before_frames = self.frames@;
        if self.head >= u64::MAX - self.frames.len() as u64 {
            return ;
        }
        if self.frames.len() < self.capacity {
            self.frames.push_back(data);
            proof {
                assert(self.frames@ == before_frames.push(data));
                assert(self@.frames =~= before.frames.push(data@));
            }
        } else {
            let _ = self.frames.pop_front();
            self.frames.push_back(data);
            self.head = self.head + 1;
            proof {
                assert(self.frames@ == before_frames.drop_first().push(data));
                assert(self@.frames =~= before.frames.drop_first().push(data@));
            }
        }
        proof {
            lemma_push_wf(before, data@);
        }
    }

    /// Adds a reader, which will get the frames that arrive from now on.
    /// Returns the number that names it.
    pub fn subscribe(&mut self, strict: bool) -> (r: usize)
        requires
            old(self).wf(),
        ensures
            final(self).wf(),
            final(self)@ == old(self)@.subscribe(strict),
            r == old(self)@.readers.len(),
    {
        let r = self.readers.len();
        let cursor: u64 = self.head + self.frames.len() as u64;
        self.readers.push(Reader { cursor, strict, open: true });
        proof {
            assert(self@.readers =~= old(self)@.subscribe(strict).readers);
        }
        r
    }

    /// Ends the subscription of a reader.
    pub fn close(&mut self, r: usize)
        requires
            old(self).wf(),
        ensures
            final(self).wf(),
            final(self)@ == old(self)@.close(r as int),
    {
        proof {
            lemma_close_wf(self@, r as int);
        }
        if r < self.readers.len() {
            let reader = self.readers[r];
            self.readers.set(r, Reader { open: false, ..reader });
        }
    }

    /// Hands reader `r` its next frame, if there is one.
    pub fn recv(&mut self, r: usize) -> (got: Received)
        requires
            old(self).wf(),
        ensures
            final(self).wf(),
            final(self)@ == old(self)@.recv(r as int).0,
            got@ == old(self)@.recv(r as int).1,
    {
        let ghost before = self@;
        proof {
            lemma_recv_wf(before, r as int);
        }
        if r >= self.readers.len() {
            return Received::Closed;
        }
        let reader = self.readers[r];
        if !reader.open {
            return Received::Closed;
        }
        let mut pos = reader.cursor;
        if pos < self.head {
            if reader.strict {
                self.readers.set(r, Reader { open: false, ..reader });
                return Received::Lagged(self.head - pos);
            }
            pos = self.head;
        }
        let tail: u64 = self.head + self.frames.len() as u64;
        if pos >= tail {
            self.readers.set(r, Reader { cursor: pos, ..reader });
            Received::Empty
        } else {
            let at: usize = (pos - self.head) as usize;
            let data = self.frames[at].clone();
            self.readers.set(r, Reader { cursor: pos + 1, ..reader });
            proof {
                assert(data@ == self.frames@[at as int]@);
                assert(before.frames[at as int] == self.frames@[at as int]@);
            }
            Received::Frame(data)
        }
    }
}

} // verus!
