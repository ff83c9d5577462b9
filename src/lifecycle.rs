//! The peripheral lifecycle: advertise, accept one connection, run the
//! notifier and the event server against it until the peer disconnects, then
//! advertise again. The controller decides; the caller performs each action
//! it returns and reports what happened as the next event.
use vstd::prelude::*;
use crate::events::{apply_event, event_result, handle_event, GattEvent};
use crate::notifier::{battery_of, lemma_tick_keeps_layout, notify_battery_level, tick};
use crate::registry::{
    notify_result, same_layout, standard_table,
    store, unsubscribed, CharacteristicState, Connection, GattError, Notification, Server,
    BATTERY_LEVEL,
};

verus! {

/// The battery level set at the start of every session.
pub const BATTERY_BASELINE: u8 = 12;

/// Where the peripheral stands.
#[derive(Clone, Copy, Debug, PartialEq, Eq, Structural)]
pub enum Phase {
    /// Nothing started yet.
    Idle,
    /// Broadcasting and waiting for a peer.
    Advertising,
    /// A session with one peer is running.
    Connected { conn: Connection },
    /// Advertising failed and retrying is off: nothing more happens.
    Halted,
}

/// What the caller reports to the controller.
pub enum Event {
    /// Begin the lifecycle.
    Start,
    /// The stack refused to advertise.
    AdvertiseFailed,
    /// A peer connected while advertising.
    ConnectionFormed { conn: Connection },
    /// The notifier's interval elapsed.
    Tick,
    /// An inbound event of the connection.
    Gatt { event: GattEvent },
    /// The connection dropped; the session is over.
    Disconnected,
}

/// What the caller is to do next.
pub enum Action {
    Nothing,
    StartAdvertising,
    /// Run the notifier and the event server against `conn`.
    StartSession { conn: Connection },
    /// Hand this notification to the stack.
    Notify { notification: Notification },
    /// The tick's notification was refused; the session goes on.
    NotifySkipped { error: GattError },
    /// The inbound event was refused; the session goes on.
    EventRejected { error: GattError },
    /// Stop: advertising failed and is not retried.
    Abort,
}

/// An action as the contracts see it.
pub enum Effect {
    Nothing,
    StartAdvertising,
    StartSession { conn: Connection },
    Notify { conn: Connection, handle: int, value: Seq<u8> },
    NotifySkipped { error: GattError },
    EventRejected { error: GattError },
    Abort,
}

pub open spec fn effect_of(a: Action) -> Effect {
    match a {
        Action::Nothing => Effect::Nothing,
        Action::StartAdvertising => Effect::StartAdvertising,
        Action::StartSession { conn } => Effect::StartSession { conn },
        Action::Notify { notification } => Effect::Notify {
            conn: notification.connection,
            handle: notification.handle as int,
            value: notification.value@,
        },
        Action::NotifySkipped { error } => Effect::NotifySkipped { error },
        Action::EventRejected { error } => Effect::EventRejected { error },
        Action::Abort => Effect::Abort,
    }
}

/// The controller as the contracts see it.
pub struct ControllerState {
    pub phase: Phase,
    pub table: Seq<CharacteristicState>,
    pub retry: bool,
}

/// The table at the start of a session: no subscriptions, battery at the
/// baseline.
pub open spec fn begin_session(s: Seq<CharacteristicState>) -> Seq<CharacteristicState> {
    store(unsubscribed(s), BATTERY_LEVEL as int, seq![BATTERY_BASELINE])
}

/// The effect of one notifier tick over `conn` on table `s`.
pub open spec fn tick_effect(s: Seq<CharacteristicState>, conn: Connection) -> Effect {
    let t = tick(s);
    match notify_result(t, BATTERY_LEVEL as int, 1, conn) {
        Ok(_) => Effect::Notify {
            conn,
            handle: BATTERY_LEVEL as int,
            value: seq![battery_of(t)],
        },
        Err(error) => Effect::NotifySkipped { error },
    }
}

/// One transition: the next state and what is to be done. An event that
/// does not fit the phase changes nothing.
pub open spec fn step(c: ControllerState, e: Event) -> (ControllerState, Effect) {
    match (c.phase, e) {
        (Phase::Idle, Event::Start) => (
            ControllerState { phase: Phase::Advertising, ..c },
            Effect::StartAdvertising,
        ),
        (Phase::Advertising, Event::AdvertiseFailed) => if c.retry {
            (c, Effect::StartAdvertising)
        } else {
            (ControllerState { phase: Phase::Halted, ..c }, Effect::Abort)
        },
        (Phase::Advertising, Event::ConnectionFormed { conn }) => (
            ControllerState {
                phase: Phase::Connected { conn },
                table: begin_session(c.table),
                ..c
            },
            Effect::StartSession { conn },
        ),
        (Phase::Connected { conn }, Event::Tick) => (
            ControllerState { table: tick(c.table), ..c },
            tick_effect(c.table, conn),
        ),
        (Phase::Connected { .. }, Event::Gatt { event }) => (
            ControllerState { table: apply_event(c.table, event), ..c },
            match event_result(c.table, event) {
                Ok(_) => Effect::Nothing,
                Err(error) => Effect::EventRejected { error },
            },
        ),
        (Phase::Connected { .. }, Event::Disconnected) => (
            ControllerState { phase: Phase::Advertising, ..c },
            Effect::StartAdvertising,
        ),
        _ => (c, Effect::Nothing),
    }
}

/// The state after the events `es`, in order.
pub open spec fn run(c: ControllerState, es: Seq<Event>) -> ControllerState
    decreases es.len(),
{
    if es.len() == 0 {
        c
    } else {
        step(run(c, es.drop_last()), es.last()).0
    }
}

/// The effects of the events `es`, one for each.
pub open spec fn effects(c: ControllerState, es: Seq<Event>) -> Seq<Effect>
    decreases es.len(),
{
    if es.len() == 0 {
        Seq::empty()
    } else {
        effects(c, es.drop_last()).push(step(run(c, es.drop_last()), es.last()).1)
    }
}

/// Drives the lifecycle over the attribute table.
pub struct Controller {
    phase: Phase,
    server: Server,
    retry_on_advertise_failure: bool,
}

impl View for Controller {
    type V = ControllerState;

    closed spec fn view(&self) -> ControllerState {
        ControllerState {
            phase: self.phase,
            table: self.server@,
            retry: self.retry_on_advertise_failure,
        }
    }
}

impl Controller {
    pub open spec fn wf(&self) -> bool {
        same_layout(standard_table(), self@.table)
    }

    /// A controller in `Idle` over `server`. With `retry_on_advertise_failure`
    /// a failed advertisement is tried again; without it the lifecycle stops.
    pub fn new(server: Server, retry_on_advertise_failure: bool) -> (r: Controller)
        requires
            server.wf(),
        ensures
            r@ == (ControllerState {
                phase: Phase::Idle,
                table: server@,
                retry: retry_on_advertise_failure,
            }),
            r.wf(),
    {
        Controller { phase: Phase::Idle, server, retry_on_advertise_failure }
    }

    pub fn phase(&self) -> (r: Phase)
        ensures
            r == self@.phase,
    {
        self.phase
    }

    /// The attribute table.
    pub fn server(&self) -> (r: &Server)
        ensures
            r@ == self@.table,
    {
        &self.server
    }

    /// Takes one event and returns what is to be done.
    pub fn step(&mut self, event: Event) -> (r: Action)
        requires
            old(self).wf(),
        ensures
            final(self).wf(),
            (final(self)@, effect_of(r)) == step(old(self)@, event),
    {
        match (self.phase, event) {
            (Phase::Idle, Event::Start) => {
                self.phase = Phase::Advertising;
                Action::StartAdvertising
            },
            (Phase::Advertising, Event::AdvertiseFailed) => {
                if self.retry_on_advertise_failure {
                    Action::StartAdvertising
                } else {
                    self.phase = Phase::Halted;
                    Action::Abort
                }
            },
            (Phase::Advertising, Event::ConnectionFormed { conn }) => {
                self.server.clear_subscriptions();
                self.server.battery_level_set(BATTERY_BASELINE);
                self.phase = Phase::Connected { conn };
                Action::StartSession { conn }
            },
            (Phase::Connected { conn }, Event::Tick) => {
                proof {
                    lemma_tick_keeps_layout(self.server@);
                }
                let (_, sent) = notify_battery_level(&mut self.server, &conn);
                match sent {
                    Ok(notification) => Action::Notify { notification },
                    Err(error) => Action::NotifySkipped { error },
                }
            },
            (Phase::Connected { .. }, Event::Gatt { event }) => {
                let outcome = handle_event(&mut self.server, &event);
                match outcome {
                    Ok(_) => Action::Nothing,
                    Err(error) => Action::EventRejected { error },
                }
            },
            (Phase::Connected { .. }, Event::Disconnected) => {
                self.phase = Phase::Advertising;
                Action::StartAdvertising
            },
            _ => Action::Nothing,
        }
    }
}

/// A notification is only ever produced inside a session, and only for the
/// connection of that session.
pub proof fn lemma_notify_only_in_session(c: ControllerState, e: Event)
    ensures
        step(c, e).1 matches Effect::Notify { conn, .. } ==> c.phase == (Phase::Connected { conn }),
{
}

/// Outside a session, and until a new connection forms, no event leads back
/// into a session or produces a notification.
pub proof fn lemma_outside_session(c: ControllerState, es: Seq<Event>)
    requires
        !(c.phase is Connected),
        forall|i: int| 0 <= i < es.len() ==> !(#[trigger] es[i] is ConnectionFormed),
    ensures
        !(run(c, es).phase is Connected),
        effects(c, es).len() == es.len(),
        forall|i: int| 0 <= i < es.len() ==> !(#[trigger] effects(c, es)[i] is Notify),
    decreases es.len(),
{
    if es.len() > 0 {
        let rest = es.drop_last();
        assert forall|i: int| 0 <= i < rest.len() implies !(#[trigger] rest[i] is ConnectionFormed) by {
            assert(rest[i] == es[i]);
        }
        lemma_outside_session(c, rest);
        assert(!(es[es.len() - 1] is ConnectionFormed));
        assert forall|i: int| 0 <= i < es.len() implies !(#[trigger] effects(c, es)[i] is Notify) by {
            if i < es.len() - 1 {
                assert(effects(c, es)[i] == effects(c, rest)[i]);
            }
        }
    }
}

/// A disconnect in the middle of a session, whatever the notifier was doing,
/// brings the controller back to advertising; after it, until a new
/// connection forms, no notification is produced, so none reaches the old
/// connection.
pub proof fn lemma_disconnect_ends_session(c: ControllerState, es: Seq<Event>)
    requires
        c.phase is Connected,
        forall|i: int| 0 <= i < es.len() ==> !(#[trigger] es[i] is ConnectionFormed),
    ensures
        step(c, Event::Disconnected).0.phase == Phase::Advertising,
        step(c, Event::Disconnected).0.table == c.table,
        step(c, Event::Disconnected).1 == Effect::StartAdvertising,
        forall|i: int|
            0 <= i < es.len() ==> !(#[trigger] effects(step(c, Event::Disconnected).0, es)[i] is Notify),
{
    lemma_outside_session(step(c, Event::Disconnected).0, es);
}

} // verus!
