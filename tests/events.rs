use ble_peripheral::events::{handle_event, serve, GattEvent};
use ble_peripheral::registry::{GattError, Server, BATTERY_LEVEL, MIDI_PACKET};

#[test]
fn enabling_notifications_twice_stays_enabled() {
    let mut s = Server::new();
    let e = GattEvent::SubscriptionChanged { handle: BATTERY_LEVEL, enabled: true };
    assert_eq!(handle_event(&mut s, &e), Ok(()));
    assert_eq!(handle_event(&mut s, &e), Ok(()));
    assert_eq!(s.is_subscribed(BATTERY_LEVEL), Ok(true));
    let off = GattEvent::SubscriptionChanged { handle: BATTERY_LEVEL, enabled: false };
    assert_eq!(handle_event(&mut s, &off), Ok(()));
    assert_eq!(s.is_subscribed(BATTERY_LEVEL), Ok(false));
}

#[test]
fn malformed_write_is_refused_and_serving_goes_on() {
    let mut s = Server::new();
    let events = vec![
        GattEvent::Write { handle: MIDI_PACKET, data: vec![1, 2, 3, 4, 5] },
        GattEvent::Write { handle: MIDI_PACKET, data: vec![9, 9, 9] },
        GattEvent::Write { handle: MIDI_PACKET, data: vec![9, 9, 9, 9, 9, 9] },
        GattEvent::SubscriptionChanged { handle: MIDI_PACKET, enabled: true },
        GattEvent::Write { handle: MIDI_PACKET, data: vec![6, 7, 8, 9, 10] },
    ];
    let results = serve(&mut s, &events);
    assert_eq!(
        results,
        vec![
            Ok(()),
            Err(GattError::InvalidLength),
            Err(GattError::InvalidLength),
            Ok(()),
            Ok(()),
        ]
    );
    assert_eq!(s.get(MIDI_PACKET), Ok(vec![6, 7, 8, 9, 10]));
    assert_eq!(s.is_subscribed(MIDI_PACKET), Ok(true));
}

#[test]
fn malformed_write_leaves_value_unchanged() {
    let mut s = Server::new();
    s.set(MIDI_PACKET, &[1, 1, 1, 1, 1]).unwrap();
    let e = GattEvent::Write { handle: MIDI_PACKET, data: vec![2, 2] };
    assert_eq!(handle_event(&mut s, &e), Err(GattError::InvalidLength));
    assert_eq!(s.get(MIDI_PACKET), Ok(vec![1, 1, 1, 1, 1]));
}

#[test]
fn events_for_unknown_characteristics_are_refused() {
    let mut s = Server::new();
    let w = GattEvent::Write { handle: 4, data: vec![1] };
    let c = GattEvent::SubscriptionChanged { handle: 4, enabled: true };
    assert_eq!(handle_event(&mut s, &w), Err(GattError::InvalidHandle));
    assert_eq!(handle_event(&mut s, &c), Err(GattError::InvalidHandle));
    let b = GattEvent::Write { handle: BATTERY_LEVEL, data: vec![1] };
    assert_eq!(handle_event(&mut s, &b), Err(GattError::WriteNotPermitted));
}
