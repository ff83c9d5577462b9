use ble_peripheral::registry::{
    Connection, GattError, Server, BATTERY_LEVEL, MIDI_PACKET,
};

fn conn(mtu: u16) -> Connection {
    Connection { handle: 7, att_mtu: mtu }
}

#[test]
fn startup_table_has_zero_values() {
    let s = Server::new();
    assert_eq!(s.len(), 2);
    assert_eq!(s.get(BATTERY_LEVEL), Ok(vec![0]));
    assert_eq!(s.get(MIDI_PACKET), Ok(vec![0, 0, 0, 0, 0]));
    assert_eq!(s.is_subscribed(BATTERY_LEVEL), Ok(false));
    assert_eq!(s.get(2), Err(GattError::InvalidHandle));
    assert_eq!(s.is_subscribed(2), Err(GattError::InvalidHandle));
}

#[test]
fn set_then_get_round_trip() {
    let mut s = Server::new();
    assert_eq!(s.set(BATTERY_LEVEL, &[77]), Ok(()));
    assert_eq!(s.get(BATTERY_LEVEL), Ok(vec![77]));
    assert_eq!(s.set(MIDI_PACKET, &[0x80, 0x80, 0x90, 0x3c, 0x7f]), Ok(()));
    assert_eq!(s.get(MIDI_PACKET), Ok(vec![0x80, 0x80, 0x90, 0x3c, 0x7f]));
    assert_eq!(s.battery_level_get(), 77);
    s.battery_level_set(200);
    assert_eq!(s.get(BATTERY_LEVEL), Ok(vec![200]));
}

#[test]
fn set_with_wrong_width_is_refused() {
    let mut s = Server::new();
    assert_eq!(s.set(MIDI_PACKET, &[1, 2, 3]), Err(GattError::InvalidLength));
    assert_eq!(s.set(BATTERY_LEVEL, &[]), Err(GattError::InvalidLength));
    assert_eq!(s.set(5, &[1]), Err(GattError::InvalidHandle));
    assert_eq!(s.get(MIDI_PACKET), Ok(vec![0, 0, 0, 0, 0]));
}

#[test]
fn peer_cannot_write_battery_level() {
    let mut s = Server::new();
    assert_eq!(s.write(BATTERY_LEVEL, &[9]), Err(GattError::WriteNotPermitted));
    assert_eq!(s.get(BATTERY_LEVEL), Ok(vec![0]));
    assert_eq!(s.write(MIDI_PACKET, &[1, 2, 3, 4, 5]), Ok(()));
    assert_eq!(s.get(MIDI_PACKET), Ok(vec![1, 2, 3, 4, 5]));
}

#[test]
fn notify_requires_subscription_and_room() {
    let mut s = Server::new();
    assert_eq!(
        s.notify(&conn(23), BATTERY_LEVEL, &[1]).err(),
        Some(GattError::NotSubscribed)
    );
    assert_eq!(s.set_subscription(MIDI_PACKET, true), Ok(()));
    assert_eq!(
        s.notify(&conn(7), MIDI_PACKET, &[1, 2, 3, 4, 5]).err(),
        Some(GattError::PayloadTooLarge)
    );
    let n = s.notify(&conn(8), MIDI_PACKET, &[1, 2, 3, 4, 5]).unwrap();
    assert_eq!(n.connection, conn(8));
    assert_eq!(n.handle, MIDI_PACKET);
    assert_eq!(n.value, vec![1, 2, 3, 4, 5]);
    assert_eq!(
        s.notify(&conn(23), 9, &[1]).err(),
        Some(GattError::InvalidHandle)
    );
}

#[test]
fn clearing_withdraws_every_subscription() {
    let mut s = Server::new();
    s.set_subscription(BATTERY_LEVEL, true).unwrap();
    s.set_subscription(MIDI_PACKET, true).unwrap();
    s.set(MIDI_PACKET, &[5, 4, 3, 2, 1]).unwrap();
    s.clear_subscriptions();
    assert_eq!(s.is_subscribed(BATTERY_LEVEL), Ok(false));
    assert_eq!(s.is_subscribed(MIDI_PACKET), Ok(false));
    assert_eq!(s.get(MIDI_PACKET), Ok(vec![5, 4, 3, 2, 1]));
}
