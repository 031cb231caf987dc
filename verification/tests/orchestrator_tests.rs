use kadugu::mode::{Configuration, ProxyBind};
use kadugu::orchestrator::{step, Action, ConnectivityState, OverlayEvent};

fn bytes(s: &str) -> Vec<u8> {
    s.as_bytes().to_vec()
}

fn user_config() -> Configuration {
    Configuration::User { target: bytes("QmSharer"), bind: ProxyBind::Loopback }
}

fn sharer_config() -> Configuration {
    Configuration::Sharer { acl: kadugu::acl::AccessControlList::new(Vec::new()) }
}

#[test]
fn reservation_flag_tracks_latest_event() {
    let mut s = ConnectivityState::new();
    let cfg = sharer_config();
    assert!(!s.relay_reservation_active);

    let a = step(&mut s, &cfg, &OverlayEvent::RelayReservationAccepted { relay: bytes("QmRelay") });
    assert!(s.relay_reservation_active);
    assert!(a.is_empty());

    // Repetition is idempotent.
    step(&mut s, &cfg, &OverlayEvent::RelayReservationAccepted { relay: bytes("QmRelay") });
    assert!(s.relay_reservation_active);

    let a = step(&mut s, &cfg, &OverlayEvent::ExternalAddrExpired);
    assert!(!s.relay_reservation_active);
    assert!(a.is_empty());

    step(&mut s, &cfg, &OverlayEvent::ExternalAddrExpired);
    assert!(!s.relay_reservation_active);

    // Unrelated events leave the flag as the latest relevant event set it.
    step(&mut s, &cfg, &OverlayEvent::Other);
    assert!(!s.relay_reservation_active);
}

#[test]
fn first_identify_in_user_mode_sets_up_once() {
    let mut s = ConnectivityState::new();
    let cfg = user_config();

    let first = step(&mut s, &cfg, &OverlayEvent::IdentifyReceived { peer: bytes("QmSharer") });
    assert!(s.sharer_dial_in_progress);
    assert_eq!(first.len(), 2);
    assert!(matches!(&first[0], Action::DialSharerViaRelay { target } if *target == bytes("QmSharer")));
    assert!(matches!(&first[1], Action::SpawnLocalListener { bind: ProxyBind::Loopback }));

    // A second identify event, from the same peer or any other, triggers
    // neither the dial nor the listener spawn again.
    let again = step(&mut s, &cfg, &OverlayEvent::IdentifyReceived { peer: bytes("QmSharer") });
    assert!(again.is_empty());
    let other = step(&mut s, &cfg, &OverlayEvent::IdentifyReceived { peer: bytes("QmElse") });
    assert!(other.is_empty());
    assert!(s.sharer_dial_in_progress);
}

#[test]
fn dial_flag_survives_address_expiry() {
    let mut s = ConnectivityState::new();
    let cfg = user_config();
    step(&mut s, &cfg, &OverlayEvent::IdentifyReceived { peer: bytes("QmSharer") });
    step(&mut s, &cfg, &OverlayEvent::ExternalAddrExpired);
    assert!(s.sharer_dial_in_progress);
    assert!(!s.relay_reservation_active);
}

#[test]
fn failed_dial_to_target_is_retried_once() {
    let mut s = ConnectivityState::new();
    let cfg = user_config();

    let a = step(
        &mut s,
        &cfg,
        &OverlayEvent::OutgoingConnectionFailed { peer: Some(bytes("QmSharer")) },
    );
    assert_eq!(a.len(), 1);
    assert!(matches!(&a[0], Action::DialSharerViaRelay { target } if *target == bytes("QmSharer")));
}

#[test]
fn failed_dial_to_unrelated_peer_is_ignored() {
    let mut s = ConnectivityState::new();
    let cfg = user_config();

    let a = step(
        &mut s,
        &cfg,
        &OverlayEvent::OutgoingConnectionFailed { peer: Some(bytes("QmStranger")) },
    );
    assert!(a.is_empty());
    let b = step(&mut s, &cfg, &OverlayEvent::OutgoingConnectionFailed { peer: None });
    assert!(b.is_empty());
}

#[test]
fn sharer_ignores_failed_dials() {
    let mut s = ConnectivityState::new();
    let cfg = sharer_config();
    let a = step(
        &mut s,
        &cfg,
        &OverlayEvent::OutgoingConnectionFailed { peer: Some(bytes("QmAnyone")) },
    );
    assert!(a.is_empty());
}

#[test]
fn sharer_identify_requests_reservation_until_active() {
    let mut s = ConnectivityState::new();
    let cfg = sharer_config();

    let a = step(&mut s, &cfg, &OverlayEvent::IdentifyReceived { peer: bytes("QmAnyone") });
    assert_eq!(a.len(), 1);
    assert!(matches!(a[0], Action::RequestRelayReservation));

    // Until the reservation is accepted, every identify asks again.
    let b = step(&mut s, &cfg, &OverlayEvent::IdentifyReceived { peer: bytes("QmAnyone") });
    assert_eq!(b.len(), 1);

    step(&mut s, &cfg, &OverlayEvent::RelayReservationAccepted { relay: bytes("QmRelay") });
    let c = step(&mut s, &cfg, &OverlayEvent::IdentifyReceived { peer: bytes("QmAnyone") });
    assert!(c.is_empty());

    // Losing the external address clears the reservation; the next
    // identify asks for a new one.
    step(&mut s, &cfg, &OverlayEvent::ExternalAddrExpired);
    let d = step(&mut s, &cfg, &OverlayEvent::IdentifyReceived { peer: bytes("QmAnyone") });
    assert_eq!(d.len(), 1);
}

#[test]
fn unknown_events_change_nothing() {
    let mut s = ConnectivityState::new();
    let cfg = user_config();
    let a = step(&mut s, &cfg, &OverlayEvent::Other);
    assert!(a.is_empty());
    assert_eq!(s, ConnectivityState::new());
}
