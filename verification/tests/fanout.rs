use neocam::config::{SessionError, Track};
use neocam::fanout::{
    FanOut, FanOutAction, Forwarded, StreamRequest, Subscription, REQUEST_QUEUE,
};
use neocam::hub::{Hub, Reader, Received};
use neocam::lifecycle::ConnectionRef;

fn frame_of(got: Received) -> Vec<u8> {
    match got {
        Received::Frame(data) => data,
        other => panic!("expected a frame, got {:?}", other),
    }
}

fn ready_fanout(track: Track) -> FanOut {
    let mut fanout = FanOut::new(4);
    fanout.connection_changed(Some(ConnectionRef(0)));
    fanout.upstream_opened(track, true);
    fanout
}

fn subscribe_to(fanout: &mut FanOut, track: Track, ticket: u64, strict: bool) -> Subscription {
    assert_eq!(fanout.submit(StreamRequest { track, ticket, strict }), Forwarded::Queued);
    match fanout.next_action() {
        FanOutAction::Grant { ticket: granted, subscription } => {
            assert_eq!(granted, ticket);
            subscription
        }
        other => panic!("expected a grant, got {:?}", other),
    }
}

#[test]
fn two_readers_that_keep_up_get_every_frame() {
    let mut hub = Hub::new(2);
    let a = hub.subscribe(true);
    let b = hub.subscribe(false);
    assert_eq!((a, b), (0, 1));
    for n in 0..10u8 {
        hub.push(vec![n, n]);
        assert_eq!(frame_of(hub.recv(a)), vec![n, n]);
        assert_eq!(frame_of(hub.recv(b)), vec![n, n]);
        assert!(matches!(hub.recv(a), Received::Empty));
        assert!(matches!(hub.recv(b), Received::Empty));
    }
    assert_eq!(hub.reader(a), Some(Reader { cursor: 10, strict: true, open: true }));
    assert_eq!(hub.reader(b), Some(Reader { cursor: 10, strict: false, open: true }));
}

#[test]
fn a_slow_strict_reader_is_told_that_it_lags_and_the_fast_one_is_not() {
    let mut hub = Hub::new(3);
    let slow = hub.subscribe(true);
    let fast = hub.subscribe(true);
    for n in 0..5u8 {
        hub.push(vec![n]);
        assert_eq!(frame_of(hub.recv(fast)), vec![n]);
    }
    assert!(matches!(hub.recv(slow), Received::Lagged(2)));
    assert!(matches!(hub.recv(slow), Received::Closed));
    hub.push(vec![5]);
    assert_eq!(frame_of(hub.recv(fast)), vec![5]);
    assert_eq!(hub.reader(fast), Some(Reader { cursor: 6, strict: true, open: true }));
    assert_eq!(hub.reader(slow), Some(Reader { cursor: 0, strict: true, open: false }));
}

#[test]
fn a_slow_lenient_reader_skips_to_the_oldest_frame_kept() {
    let mut hub = Hub::new(3);
    let slow = hub.subscribe(false);
    for n in 0..5u8 {
        hub.push(vec![n]);
    }
    assert_eq!(frame_of(hub.recv(slow)), vec![2]);
    assert_eq!(frame_of(hub.recv(slow)), vec![3]);
    assert_eq!(frame_of(hub.recv(slow)), vec![4]);
    assert!(matches!(hub.recv(slow), Received::Empty));
}

#[test]
fn a_reader_within_the_window_does_not_lag() {
    let mut hub = Hub::new(3);
    let reader = hub.subscribe(true);
    for n in 0..3u8 {
        hub.push(vec![n]);
    }
    assert_eq!(hub.len(), 3);
    assert_eq!(frame_of(hub.recv(reader)), vec![0]);
    hub.push(vec![3]);
    assert_eq!(hub.len(), 3);
    assert_eq!(frame_of(hub.recv(reader)), vec![1]);
    assert_eq!(frame_of(hub.recv(reader)), vec![2]);
    assert_eq!(frame_of(hub.recv(reader)), vec![3]);
}

#[test]
fn a_new_reader_gets_only_what_arrives_after_it_subscribed() {
    let mut hub = Hub::new(8);
    hub.push(vec![1]);
    hub.push(vec![2]);
    let late = hub.subscribe(true);
    assert_eq!(hub.readers(), 1);
    assert!(matches!(hub.recv(late), Received::Empty));
    hub.push(vec![3]);
    assert_eq!(frame_of(hub.recv(late)), vec![3]);
}

#[test]
fn a_hub_of_no_capacity_keeps_one_frame() {
    let mut hub = Hub::new(0);
    let reader = hub.subscribe(false);
    hub.push(vec![1]);
    hub.push(vec![2]);
    assert_eq!(hub.len(), 1);
    assert_eq!(frame_of(hub.recv(reader)), vec![2]);
}

#[test]
fn unknown_and_closed_readers_are_closed() {
    let mut hub = Hub::new(2);
    assert!(matches!(hub.recv(0), Received::Closed));
    assert_eq!(hub.reader(0), None);
    let reader = hub.subscribe(false);
    hub.push(vec![1]);
    hub.close(reader);
    hub.close(7);
    assert!(matches!(hub.recv(reader), Received::Closed));
    assert_eq!(hub.reader(reader), Some(Reader { cursor: 0, strict: false, open: false }));
}

#[test]
fn one_upstream_serves_all_subscribers_of_a_track() {
    let mut fanout = FanOut::new(4);
    fanout.connection_changed(Some(ConnectionRef(3)));
    assert_eq!(fanout.connection(), Some(ConnectionRef(3)));
    for ticket in 0..3u64 {
        fanout.submit(StreamRequest { track: Track::PrimaryVideo, ticket, strict: false });
    }
    assert_eq!(fanout.pending(), 3);
    assert_eq!(fanout.next_action(), FanOutAction::OpenUpstream(Track::PrimaryVideo));
    assert_eq!(fanout.next_action(), FanOutAction::OpenUpstream(Track::PrimaryVideo));
    assert!(!fanout.has_upstream(Track::PrimaryVideo));
    fanout.upstream_opened(Track::PrimaryVideo, true);
    assert!(fanout.has_upstream(Track::PrimaryVideo));
    for ticket in 0..3u64 {
        assert_eq!(
            fanout.next_action(),
            FanOutAction::Grant {
                ticket,
                subscription: Subscription { track: Track::PrimaryVideo, reader: ticket as usize },
            }
        );
    }
    assert_eq!(fanout.next_action(), FanOutAction::Wait);
}

#[test]
fn a_track_that_cannot_be_had_is_refused_once_per_request() {
    let mut fanout = FanOut::new(4);
    fanout.connection_changed(Some(ConnectionRef(0)));
    fanout.submit(StreamRequest { track: Track::Audio, ticket: 1, strict: false });
    fanout.submit(StreamRequest { track: Track::Audio, ticket: 2, strict: false });
    fanout.submit(StreamRequest { track: Track::PrimaryVideo, ticket: 3, strict: false });
    assert_eq!(fanout.next_action(), FanOutAction::OpenUpstream(Track::Audio));
    fanout.upstream_opened(Track::Audio, false);
    assert_eq!(fanout.next_action(), FanOutAction::Refuse { ticket: 1 });
    assert_eq!(fanout.next_action(), FanOutAction::Refuse { ticket: 2 });
    assert_eq!(fanout.next_action(), FanOutAction::OpenUpstream(Track::PrimaryVideo));
    fanout.connection_changed(Some(ConnectionRef(1)));
    fanout.submit(StreamRequest { track: Track::Audio, ticket: 4, strict: false });
    fanout.upstream_opened(Track::PrimaryVideo, true);
    assert!(matches!(fanout.next_action(), FanOutAction::Grant { ticket: 3, .. }));
    assert_eq!(fanout.next_action(), FanOutAction::OpenUpstream(Track::Audio));
}

#[test]
fn subscribers_survive_a_reconnect_and_see_a_gap() {
    let mut fanout = ready_fanout(Track::PrimaryVideo);
    let subscription = subscribe_to(&mut fanout, Track::PrimaryVideo, 1, true);
    fanout.frame(Track::PrimaryVideo, vec![1]);
    assert_eq!(frame_of(fanout.recv(subscription)), vec![1]);
    fanout.connection_changed(None);
    assert!(!fanout.has_upstream(Track::PrimaryVideo));
    assert!(fanout.wants_upstream(Track::PrimaryVideo));
    assert_eq!(fanout.next_action(), FanOutAction::Wait);
    fanout.frame(Track::PrimaryVideo, vec![2]);
    assert!(matches!(fanout.recv(subscription), Received::Empty));
    fanout.connection_changed(Some(ConnectionRef(1)));
    assert_eq!(fanout.pending(), 0);
    assert_eq!(fanout.next_action(), FanOutAction::OpenUpstream(Track::PrimaryVideo));
    fanout.frame(Track::PrimaryVideo, vec![3]);
    assert!(matches!(fanout.recv(subscription), Received::Empty));
    fanout.upstream_opened(Track::PrimaryVideo, true);
    assert!(!fanout.wants_upstream(Track::PrimaryVideo));
    assert_eq!(fanout.next_action(), FanOutAction::Wait);
    fanout.frame(Track::PrimaryVideo, vec![4]);
    assert_eq!(frame_of(fanout.recv(subscription)), vec![4]);
}

#[test]
fn upstreams_are_opened_again_in_the_order_of_the_tracks() {
    let mut fanout = ready_fanout(Track::Audio);
    fanout.upstream_opened(Track::PrimaryVideo, true);
    fanout.upstream_opened(Track::SecondaryVideo, true);
    let audio = subscribe_to(&mut fanout, Track::Audio, 1, false);
    let second = subscribe_to(&mut fanout, Track::SecondaryVideo, 2, false);
    let first = subscribe_to(&mut fanout, Track::PrimaryVideo, 3, false);
    let gone = subscribe_to(&mut fanout, Track::PrimaryVideo, 4, false);
    fanout.unsubscribe(first);
    fanout.unsubscribe(gone);
    fanout.connection_changed(Some(ConnectionRef(1)));
    fanout.submit(StreamRequest { track: Track::Audio, ticket: 5, strict: false });
    assert!(!fanout.wants_upstream(Track::PrimaryVideo));
    assert!(fanout.wants_upstream(Track::SecondaryVideo));
    assert!(fanout.wants_upstream(Track::Audio));
    assert_eq!(fanout.next_action(), FanOutAction::OpenUpstream(Track::SecondaryVideo));
    assert_eq!(fanout.next_action(), FanOutAction::OpenUpstream(Track::SecondaryVideo));
    fanout.upstream_opened(Track::SecondaryVideo, false);
    assert!(!fanout.wants_upstream(Track::SecondaryVideo));
    assert_eq!(fanout.next_action(), FanOutAction::OpenUpstream(Track::Audio));
    fanout.upstream_opened(Track::Audio, true);
    assert!(matches!(fanout.next_action(), FanOutAction::Grant { ticket: 5, .. }));
    assert_eq!(fanout.next_action(), FanOutAction::Wait);
    fanout.frame(Track::Audio, vec![1]);
    fanout.frame(Track::SecondaryVideo, vec![2]);
    assert_eq!(frame_of(fanout.recv(audio)), vec![1]);
    assert!(matches!(fanout.recv(second), Received::Empty));
}

#[test]
fn a_hub_knows_whether_anybody_listens() {
    let mut hub = Hub::new(2);
    assert!(!hub.has_open_reader());
    let a = hub.subscribe(true);
    let b = hub.subscribe(false);
    assert!(hub.has_open_reader());
    hub.close(a);
    assert!(hub.has_open_reader());
    hub.close(b);
    assert!(!hub.has_open_reader());
    let strict = hub.subscribe(true);
    hub.push(vec![1]);
    hub.push(vec![2]);
    hub.push(vec![3]);
    assert!(matches!(hub.recv(strict), Received::Lagged(1)));
    assert!(!hub.has_open_reader());
}

#[test]
fn a_slow_reader_does_not_hold_back_a_fast_one() {
    let mut hub = Hub::new(4);
    let fast = hub.subscribe(false);
    let slow = hub.subscribe(true);
    for n in 0..20u8 {
        hub.push(vec![n]);
        assert_eq!(frame_of(hub.recv(fast)), vec![n]);
    }
    assert!(matches!(hub.recv(slow), Received::Lagged(16)));
    assert_eq!(hub.reader(fast), Some(Reader { cursor: 20, strict: false, open: true }));
    hub.push(vec![20]);
    assert_eq!(frame_of(hub.recv(fast)), vec![20]);
    assert!(matches!(hub.recv(slow), Received::Closed));
}

#[test]
fn an_unchanged_connection_keeps_its_upstreams() {
    let mut fanout = ready_fanout(Track::Audio);
    fanout.connection_changed(Some(ConnectionRef(0)));
    assert!(fanout.has_upstream(Track::Audio));
    fanout.connection_changed(Some(ConnectionRef(1)));
    assert!(!fanout.has_upstream(Track::Audio));
}

#[test]
fn tracks_do_not_disturb_each_other() {
    let mut fanout = ready_fanout(Track::PrimaryVideo);
    fanout.upstream_opened(Track::Audio, true);
    let video = subscribe_to(&mut fanout, Track::PrimaryVideo, 1, true);
    let audio = subscribe_to(&mut fanout, Track::Audio, 2, true);
    for n in 0..9u8 {
        fanout.frame(Track::PrimaryVideo, vec![n]);
    }
    fanout.frame(Track::Audio, vec![42]);
    assert_eq!(frame_of(fanout.recv(audio)), vec![42]);
    assert!(matches!(fanout.recv(video), Received::Lagged(5)));
    assert!(matches!(fanout.recv(audio), Received::Empty));
    fanout.unsubscribe(audio);
    assert!(matches!(fanout.recv(audio), Received::Closed));
}

#[test]
fn the_request_queue_is_bounded() {
    let mut fanout = FanOut::new(4);
    for ticket in 0..REQUEST_QUEUE as u64 {
        assert_eq!(
            fanout.submit(StreamRequest { track: Track::Audio, ticket, strict: false }),
            Forwarded::Queued
        );
    }
    assert_eq!(
        fanout.submit(StreamRequest { track: Track::Audio, ticket: 500, strict: false }),
        Forwarded::Full
    );
    assert_eq!(fanout.pending(), REQUEST_QUEUE);
}

#[test]
fn stopping_hands_back_the_waiting_tickets() {
    let mut fanout = ready_fanout(Track::Audio);
    let subscription = subscribe_to(&mut fanout, Track::Audio, 1, false);
    fanout.frame(Track::Audio, vec![7]);
    fanout.submit(StreamRequest { track: Track::PrimaryVideo, ticket: 8, strict: false });
    fanout.submit(StreamRequest { track: Track::SecondaryVideo, ticket: 9, strict: false });
    assert!(!fanout.is_stopped());
    assert_eq!(fanout.stop(), vec![8, 9]);
    assert!(fanout.is_stopped());
    assert_eq!(fanout.stop(), Vec::<u64>::new());
    assert_eq!(fanout.connection(), None);
    assert_eq!(
        fanout.submit(StreamRequest { track: Track::Audio, ticket: 10, strict: false }),
        Forwarded::Gone
    );
    assert_eq!(fanout.next_action(), FanOutAction::Wait);
    fanout.connection_changed(Some(ConnectionRef(2)));
    assert_eq!(fanout.connection(), None);
    fanout.frame(Track::Audio, vec![8]);
    assert_eq!(frame_of(fanout.recv(subscription)), vec![7]);
    assert!(matches!(fanout.recv(subscription), Received::Empty));
}

#[test]
fn actions_carry_the_answer_for_the_reply_slot() {
    let subscription = Subscription { track: Track::Audio, reader: 2 };
    assert_eq!(FanOutAction::Grant { ticket: 5, subscription }.reply(), Some((5, Ok(subscription))));
    assert_eq!(
        FanOutAction::Refuse { ticket: 6 }.reply(),
        Some((6, Err(SessionError::SubscriptionUnavailable)))
    );
    assert_eq!(FanOutAction::Wait.reply(), None);
    assert_eq!(FanOutAction::OpenUpstream(Track::Audio).reply(), None);
}
