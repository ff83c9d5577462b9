use ble_peripheral::events::GattEvent;
use ble_peripheral::lifecycle::{Action, Controller, Event, Phase, BATTERY_BASELINE};
use ble_peripheral::registry::{Connection, GattError, Server, BATTERY_LEVEL, MIDI_PACKET};

fn connected(conn: Connection) -> Controller {
    let mut c = Controller::new(Server::new(), false);
    assert!(matches!(c.step(Event::Start), Action::StartAdvertising));
    assert_eq!(c.phase(), Phase::Advertising);
    assert!(matches!(
        c.step(Event::ConnectionFormed { conn }),
        Action::StartSession { conn: k } if k == conn
    ));
    assert_eq!(c.phase(), Phase::Connected { conn });
    c
}

fn notified(a: Action) -> Option<u8> {
    match a {
        Action::Notify { notification } => Some(notification.value[0]),
        _ => None,
    }
}

#[test]
fn end_to_end_notifies_thirteen_fourteen_fifteen() {
    let conn = Connection { handle: 3, att_mtu: 23 };
    let mut c = connected(conn);
    assert_eq!(BATTERY_BASELINE, 12);
    assert_eq!(c.server().get(BATTERY_LEVEL), Ok(vec![12]));
    let sub = GattEvent::SubscriptionChanged { handle: BATTERY_LEVEL, enabled: true };
    assert!(matches!(c.step(Event::Gatt { event: sub }), Action::Nothing));
    let mut seen = Vec::new();
    for _ in 0..3 {
        if let Some(v) = notified(c.step(Event::Tick)) {
            seen.push(v);
        }
    }
    assert_eq!(seen, vec![13, 14, 15]);
}

#[test]
fn unsubscribed_ticks_still_advance_the_level() {
    let conn = Connection { handle: 3, att_mtu: 23 };
    let mut c = connected(conn);
    for _ in 0..3 {
        assert!(matches!(
            c.step(Event::Tick),
            Action::NotifySkipped { error: GattError::NotSubscribed }
        ));
    }
    assert_eq!(c.server().get(BATTERY_LEVEL), Ok(vec![15]));
}

#[test]
fn disconnect_mid_session_returns_to_advertising() {
    let conn = Connection { handle: 3, att_mtu: 23 };
    let mut c = connected(conn);
    let sub = GattEvent::SubscriptionChanged { handle: BATTERY_LEVEL, enabled: true };
    c.step(Event::Gatt { event: sub });
    assert_eq!(notified(c.step(Event::Tick)), Some(13));
    assert!(matches!(c.step(Event::Disconnected), Action::StartAdvertising));
    assert_eq!(c.phase(), Phase::Advertising);
    // a tick of the abandoned notifier reaches nobody
    assert!(matches!(c.step(Event::Tick), Action::Nothing));
    assert_eq!(c.server().get(BATTERY_LEVEL), Ok(vec![13]));
    // the next session starts from the baseline, unsubscribed
    let next = Connection { handle: 4, att_mtu: 23 };
    assert!(matches!(
        c.step(Event::ConnectionFormed { conn: next }),
        Action::StartSession { .. }
    ));
    assert_eq!(c.server().get(BATTERY_LEVEL), Ok(vec![12]));
    assert_eq!(c.server().is_subscribed(BATTERY_LEVEL), Ok(false));
}

#[test]
fn session_rejects_malformed_write_and_continues() {
    let conn = Connection { handle: 3, att_mtu: 23 };
    let mut c = connected(conn);
    let bad = GattEvent::Write { handle: MIDI_PACKET, data: vec![1] };
    assert!(matches!(
        c.step(Event::Gatt { event: bad }),
        Action::EventRejected { error: GattError::InvalidLength }
    ));
    let good = GattEvent::Write { handle: MIDI_PACKET, data: vec![1, 2, 3, 4, 5] };
    assert!(matches!(c.step(Event::Gatt { event: good }), Action::Nothing));
    assert_eq!(c.server().get(MIDI_PACKET), Ok(vec![1, 2, 3, 4, 5]));
    assert_eq!(c.phase(), Phase::Connected { conn });
}

#[test]
fn advertise_failure_aborts_without_retry() {
    let mut c = Controller::new(Server::new(), false);
    c.step(Event::Start);
    assert!(matches!(c.step(Event::AdvertiseFailed), Action::Abort));
    assert_eq!(c.phase(), Phase::Halted);
    let conn = Connection { handle: 1, att_mtu: 23 };
    assert!(matches!(c.step(Event::ConnectionFormed { conn }), Action::Nothing));
    assert_eq!(c.phase(), Phase::Halted);
}

#[test]
fn advertise_failure_retries_when_configured() {
    let mut c = Controller::new(Server::new(), true);
    c.step(Event::Start);
    assert!(matches!(c.step(Event::AdvertiseFailed), Action::StartAdvertising));
    assert_eq!(c.phase(), Phase::Advertising);
}

#[test]
fn events_out_of_phase_are_ignored() {
    let mut c = Controller::new(Server::new(), false);
    assert!(matches!(c.step(Event::Tick), Action::Nothing));
    assert!(matches!(c.step(Event::Disconnected), Action::Nothing));
    assert_eq!(c.phase(), Phase::Idle);
    c.step(Event::Start);
    assert!(matches!(c.step(Event::Start), Action::Nothing));
    assert_eq!(c.phase(), Phase::Advertising);
}
