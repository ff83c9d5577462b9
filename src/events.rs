//! The connection event server: applies the peer's writes and subscription
//! changes to the attribute table.
use vstd::prelude::*;
use crate::registry::{
    after_subscribe, after_write, subscribe_result, write_result, CharacteristicState, GattError,
    Server,
};

verus! {

/// An inbound event of the active connection.
pub enum GattEvent {
    /// The peer wrote `data` to characteristic `handle`.
    Write { handle: usize, data: Vec<u8> },
    /// The peer wrote the notification configuration of `handle`.
    SubscriptionChanged { handle: usize, enabled: bool },
}

/// What handling `e` answers on table `s`.
pub open spec fn event_result(s: Seq<CharacteristicState>, e: GattEvent) -> Result<(), GattError> {
    match e {
        GattEvent::Write { handle, data } => write_result(s, handle as int, data@),
        GattEvent::SubscriptionChanged { handle, .. } => subscribe_result(s, handle as int),
    }
}

/// The table after handling `e`.
pub open spec fn apply_event(s: Seq<CharacteristicState>, e: GattEvent) -> Seq<CharacteristicState> {
    match e {
        GattEvent::Write { handle, data } => after_write(s, handle as int, data@),
        GattEvent::SubscriptionChanged { handle, enabled } => after_subscribe(
            s,
            handle as int,
            enabled,
        ),
    }
}

/// The table after handling `es` in order.
pub open spec fn apply_events(s: Seq<CharacteristicState>, es: Seq<GattEvent>) -> Seq<
    CharacteristicState,
>
    decreases es.len(),
{
    if es.len() == 0 {
        s
    } else {
        apply_event(apply_events(s, es.drop_last()), es.last())
    }
}

/// Handles one event. A refused event leaves the table as it was.
pub fn handle_event(server: &mut Server, event: &GattEvent) -> (r: Result<(), GattError>)
    ensures
        r == event_result(old(server)@, *event),
        final(server)@ == apply_event(old(server)@, *event),
        old(server).wf() ==> final(server).wf(),
{
    match event {
        GattEvent::Write { handle, data } => server.write(*handle, data.as_slice()),
        GattEvent::SubscriptionChanged { handle, enabled } => server.set_subscription(
            *handle,
            *enabled,
        ),
    }
}

/// Handles the events in order; a refused event does not stop the ones after
/// it. The answer to each event is returned at its position.
pub fn serve(server: &mut Server, events: &Vec<GattEvent>) -> (r: Vec<Result<(), GattError>>)
    ensures
        final(server)@ == apply_events(old(server)@, events@),
        r@.len() == events@.len(),
        forall|i: int|
            0 <= i < events@.len() ==> r@[i] == event_result(
                apply_events(old(server)@, events@.take(i)),
                #[trigger] events@[i],
            ),
{
    let mut results: Vec<Result<(), GattError>> = Vec::new();
    let mut k: usize = 0;
    while k < events.len()
        invariant
            k <= events@.len(),
            results@.len() == k,
            server@ == apply_events(old(server)@, events@.take(k as int)),
            forall|i: int|
                0 <= i < k ==> results@[i] == event_result(
                    apply_events(old(server)@, events@.take(i)),
                    #[trigger] events@[i],
                ),
        decreases events@.len() - k,
    {
        let r = handle_event(server, &events[k]);
        results.push(r);
        assert(events@.take(k + 1).drop_last() =~= events@.take(k as int));
        k = k + 1;
    }
    assert(events@.take(k as int) =~= events@);
    results
}

/// Enabling notifications twice in a row leaves the same table as enabling
/// them once.
pub proof fn lemma_enable_twice(s: Seq<CharacteristicState>, h: usize)
    ensures
        apply_event(
            apply_event(s, GattEvent::SubscriptionChanged { handle: h, enabled: true }),
            GattEvent::SubscriptionChanged { handle: h, enabled: true },
        ) == apply_event(s, GattEvent::SubscriptionChanged { handle: h, enabled: true }),
        subscribe_result(s, h as int) is Ok ==> apply_event(
            s,
            GattEvent::SubscriptionChanged { handle: h, enabled: true },
        )[h as int].subscribed,
{
    let e = GattEvent::SubscriptionChanged { handle: h, enabled: true };
    let once = apply_event(s, e);
    if subscribe_result(s, h as int) is Ok {
        assert(apply_event(once, e) =~= once);
    }
}

/// A write whose length differs from the characteristic's width is refused
/// and changes nothing.
pub proof fn lemma_malformed_write(s: Seq<CharacteristicState>, h: usize, data: Vec<u8>)
    requires
        0 <= h < s.len(),
        data@.len() != s[h as int].value.len(),
    ensures
        event_result(s, GattEvent::Write { handle: h, data }) is Err,
        apply_event(s, GattEvent::Write { handle: h, data }) == s,
{
}

} // verus!
