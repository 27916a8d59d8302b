use neocam::lifecycle::{
    retry_delay_ms, ConnectionRef, Effects, Lifecycle, LifecycleEvent, Phase, Publish, Startup,
    RETRY_BASE_MS, RETRY_CAP_MS,
};

fn nothing() -> Effects {
    Effects::none()
}

#[test]
fn retry_delay_doubles_up_to_the_cap() {
    assert_eq!(retry_delay_ms(0), 1000);
    assert_eq!(retry_delay_ms(1), 2000);
    assert_eq!(retry_delay_ms(2), 4000);
    assert_eq!(retry_delay_ms(3), 8000);
    assert_eq!(retry_delay_ms(4), 16000);
    assert_eq!(retry_delay_ms(5), 30000);
    assert_eq!(retry_delay_ms(6), 30000);
    assert_eq!(retry_delay_ms(u32::MAX), 30000);
    assert_eq!(RETRY_BASE_MS, 1000);
    assert_eq!(RETRY_CAP_MS, 30000);
}

#[test]
fn retry_delay_never_shrinks() {
    let mut last = 0;
    for failures in 0..40 {
        let delay = retry_delay_ms(failures);
        assert!(delay >= last);
        assert!(delay >= RETRY_BASE_MS && delay <= RETRY_CAP_MS);
        last = delay;
    }
}

#[test]
fn no_effects_is_empty() {
    assert_eq!(
        nothing(),
        Effects { publish: Publish::Keep, close: None, discard: false, connect: false, retry_after_ms: None }
    );
}

#[test]
fn lifecycle_starts_disconnected() {
    let lc = Lifecycle::new(4);
    assert_eq!(lc.phase(), Phase::Disconnected);
    assert_eq!(lc.live(), None);
    assert_eq!(lc.startup(), Startup::Pending);
    assert_eq!(lc.failures(), 0);
}

#[test]
fn only_one_handshake_is_ever_in_flight() {
    let mut lc = Lifecycle::new(4);
    assert_eq!(lc.step(LifecycleEvent::Need), Effects { connect: true, ..nothing() });
    assert_eq!(lc.step(LifecycleEvent::Need), nothing());
    assert_eq!(lc.step(LifecycleEvent::RetryElapsed), nothing());
    assert_eq!(lc.phase(), Phase::Connecting);
    assert_eq!(
        lc.step(LifecycleEvent::HandshakeOk),
        Effects { publish: Publish::Announce(ConnectionRef(0)), ..nothing() }
    );
    assert_eq!(lc.step(LifecycleEvent::Need), nothing());
    assert_eq!(lc.step(LifecycleEvent::RetryElapsed), nothing());
    assert_eq!(lc.phase(), Phase::Connected);
}

#[test]
fn a_connection_nobody_asked_for_is_discarded() {
    let mut lc = Lifecycle::new(4);
    assert_eq!(lc.step(LifecycleEvent::HandshakeOk), Effects { discard: true, ..nothing() });
    assert_eq!(lc.phase(), Phase::Disconnected);
    lc.step(LifecycleEvent::Need);
    lc.step(LifecycleEvent::HandshakeOk);
    assert_eq!(lc.step(LifecycleEvent::HandshakeOk), Effects { discard: true, ..nothing() });
    assert_eq!(lc.live(), Some(ConnectionRef(0)));
}

#[test]
fn a_lost_connection_is_retracted_before_reconnecting() {
    let mut lc = Lifecycle::new(4);
    lc.step(LifecycleEvent::Need);
    lc.step(LifecycleEvent::HandshakeOk);
    let fx = lc.step(LifecycleEvent::ConnectionLost(ConnectionRef(0)));
    assert_eq!(
        fx,
        Effects {
            publish: Publish::Retract,
            close: Some(ConnectionRef(0)),
            retry_after_ms: Some(1000),
            ..nothing()
        }
    );
    assert_eq!(lc.live(), None);
    assert_eq!(lc.phase(), Phase::Disconnected);
    assert_eq!(lc.step(LifecycleEvent::RetryElapsed), Effects { connect: true, ..nothing() });
    assert_eq!(
        lc.step(LifecycleEvent::HandshakeOk),
        Effects { publish: Publish::Announce(ConnectionRef(1)), ..nothing() }
    );
}

#[test]
fn the_loss_of_an_old_connection_is_ignored() {
    let mut lc = Lifecycle::new(4);
    lc.step(LifecycleEvent::Need);
    lc.step(LifecycleEvent::HandshakeOk);
    lc.step(LifecycleEvent::ConnectionLost(ConnectionRef(0)));
    lc.step(LifecycleEvent::RetryElapsed);
    lc.step(LifecycleEvent::HandshakeOk);
    assert_eq!(lc.step(LifecycleEvent::ConnectionLost(ConnectionRef(0))), nothing());
    assert_eq!(lc.live(), Some(ConnectionRef(1)));
}

#[test]
fn failures_are_counted_and_forgotten_on_success() {
    let mut lc = Lifecycle::new(10);
    lc.step(LifecycleEvent::Need);
    assert_eq!(
        lc.step(LifecycleEvent::HandshakeFailed),
        Effects { retry_after_ms: Some(2000), ..nothing() }
    );
    assert_eq!(lc.step(LifecycleEvent::HandshakeFailed), nothing());
    lc.step(LifecycleEvent::RetryElapsed);
    assert_eq!(
        lc.step(LifecycleEvent::HandshakeFailed),
        Effects { retry_after_ms: Some(4000), ..nothing() }
    );
    assert_eq!(lc.failures(), 2);
    lc.step(LifecycleEvent::RetryElapsed);
    lc.step(LifecycleEvent::HandshakeOk);
    assert_eq!(lc.failures(), 0);
    assert_eq!(lc.startup(), Startup::Ready);
}

#[test]
fn cancellation_stops_from_any_phase() {
    let mut idle = Lifecycle::new(4);
    assert_eq!(idle.step(LifecycleEvent::Cancelled), nothing());
    assert_eq!(idle.phase(), Phase::Stopped);

    let mut connecting = Lifecycle::new(4);
    connecting.step(LifecycleEvent::Need);
    assert_eq!(connecting.step(LifecycleEvent::Cancelled), nothing());
    assert_eq!(connecting.step(LifecycleEvent::HandshakeOk), Effects { discard: true, ..nothing() });
    assert_eq!(connecting.phase(), Phase::Stopped);

    let mut connected = Lifecycle::new(4);
    connected.step(LifecycleEvent::Need);
    connected.step(LifecycleEvent::HandshakeOk);
    assert_eq!(
        connected.step(LifecycleEvent::Cancelled),
        Effects { publish: Publish::Retract, close: Some(ConnectionRef(0)), ..nothing() }
    );
    assert_eq!(connected.live(), None);
    for event in [
        LifecycleEvent::Need,
        LifecycleEvent::RetryElapsed,
        LifecycleEvent::HandshakeFailed,
        LifecycleEvent::ConfigChanged,
        LifecycleEvent::ConnectionLost(ConnectionRef(0)),
        LifecycleEvent::Cancelled,
    ] {
        assert_eq!(connected.step(event), nothing());
        assert_eq!(connected.phase(), Phase::Stopped);
    }
}

#[test]
fn giving_up_happens_only_during_creation() {
    let mut lc = Lifecycle::new(2);
    lc.step(LifecycleEvent::Need);
    lc.step(LifecycleEvent::HandshakeFailed);
    lc.step(LifecycleEvent::RetryElapsed);
    assert_eq!(lc.step(LifecycleEvent::HandshakeFailed), nothing());
    assert_eq!(lc.startup(), Startup::Failed);
    assert_eq!(lc.phase(), Phase::Stopped);
    assert_eq!(lc.failures(), 2);
}
