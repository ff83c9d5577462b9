//! The periodic notifier: on each tick the battery level goes up by one,
//! wrapping at 256, and is notified to the connected peer.
use vstd::prelude::*;
use crate::registry::{
    lemma_battery_width, lemma_store_keeps_layout, notify_result, standard_table, same_layout,
    store, CharacteristicState, Connection, GattError, Notification, Server, BATTERY_LEVEL,
};

verus! {

/// Interval between two ticks, in milliseconds.
pub const TICK_INTERVAL_MS: u64 = 1000;

/// The level that follows `v`.
pub open spec fn next_level_spec(v: u8) -> u8 {
    ((v + 1) % 256) as u8
}

/// The update applied on each tick.
pub fn next_level(v: u8) -> (r: u8)
    ensures
        r == next_level_spec(v),
{
    v.wrapping_add(1)
}

/// The battery level of a well-formed table.
pub open spec fn battery_of(s: Seq<CharacteristicState>) -> u8 {
    s[BATTERY_LEVEL as int].value[0]
}

/// The table after one tick.
pub open spec fn tick(s: Seq<CharacteristicState>) -> Seq<CharacteristicState> {
    store(s, BATTERY_LEVEL as int, seq![next_level_spec(battery_of(s))])
}

/// The table after `n` ticks.
pub open spec fn ticks(s: Seq<CharacteristicState>, n: nat) -> Seq<CharacteristicState>
    decreases n,
{
    if n == 0 {
        s
    } else {
        tick(ticks(s, (n - 1) as nat))
    }
}

/// One cycle of the notifier: reads the battery level, stores the next one
/// and prepares its notification over `conn`. The new level is returned with
/// the outcome; a refused notification ends nothing.
pub fn notify_battery_level(server: &mut Server, conn: &Connection) -> (r: (
    u8,
    Result<Notification, GattError>,
))
    requires
        old(server).wf(),
    ensures
        final(server).wf(),
        final(server)@ == tick(old(server)@),
        r.0 == next_level_spec(battery_of(old(server)@)),
        match r.1 {
            Ok(n) => {
                &&& notify_result(final(server)@, BATTERY_LEVEL as int, 1, *conn) is Ok
                &&& n.connection == *conn
                &&& n.handle == BATTERY_LEVEL
                &&& n.value@ == seq![r.0]
            },
            Err(e) => notify_result(final(server)@, BATTERY_LEVEL as int, 1, *conn) == Err::<
                (),
                GattError,
            >(e),
        },
{
    let level = next_level(server.battery_level_get());
    server.battery_level_set(level);
    let value: Vec<u8> = vec![level];
    assert(value@ =~= seq![level]);
    let sent = server.notify(conn, BATTERY_LEVEL, value.as_slice());
    (level, sent)
}

/// A tick keeps the layout of a well-formed table.
pub proof fn lemma_tick_keeps_layout(s: Seq<CharacteristicState>)
    requires
        same_layout(standard_table(), s),
    ensures
        same_layout(standard_table(), tick(s)),
        battery_of(tick(s)) == next_level_spec(battery_of(s)),
{
    lemma_battery_width(s);
    lemma_store_keeps_layout(s, BATTERY_LEVEL as int, seq![next_level_spec(battery_of(s))]);
}

/// After `n` ticks a battery level that started at `v` reads `(v + n) mod
/// 256`; nothing but the battery level has changed.
pub proof fn lemma_ticks_wrap(s: Seq<CharacteristicState>, n: nat)
    requires
        same_layout(standard_table(), s),
    ensures
        same_layout(standard_table(), ticks(s, n)),
        battery_of(ticks(s, n)) == (battery_of(s) + n) % 256,
        ticks(s, n)[BATTERY_LEVEL as int].value == seq![((battery_of(s) + n) % 256) as u8],
    decreases n,
{
    if n > 0 {
        lemma_ticks_wrap(s, (n - 1) as nat);
        lemma_tick_keeps_layout(ticks(s, (n - 1) as nat));
        let p = battery_of(ticks(s, (n - 1) as nat));
        assert(((p + 1) % 256) == ((battery_of(s) + n) % 256)) by {
            assert(p == (battery_of(s) + (n - 1)) % 256);
        }
    }
    lemma_battery_width(ticks(s, n));
}

} // verus!
