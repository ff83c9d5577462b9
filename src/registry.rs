//! The GATT attribute table and the value store of each characteristic.
use vstd::prelude::*;

verus! {

/// Index of the battery level characteristic in the table.
pub const BATTERY_LEVEL: usize = 0;

/// Index of the MIDI packet characteristic in the table.
pub const MIDI_PACKET: usize = 1;

/// Size of the header that precedes the value in a notification.
pub const NOTIFY_HEADER_LEN: u16 = 3;

/// A 16-bit or 128-bit attribute UUID.
#[derive(Clone, Copy, Debug, PartialEq, Eq, Structural)]
pub enum Uuid {
    Short(u16),
    Long(u128),
}

/// Access rights of a characteristic.
#[derive(Clone, Copy, Debug, PartialEq, Eq, Structural)]
pub struct Properties {
    pub read: bool,
    pub write: bool,
    pub notify: bool,
}

/// An active link to one peer.
#[derive(Clone, Copy, Debug, PartialEq, Eq, Structural)]
pub struct Connection {
    /// The stack's handle of the link.
    pub handle: u16,
    /// The negotiated size of an attribute protocol packet.
    pub att_mtu: u16,
}

/// Why an operation on the table was refused.
#[derive(Clone, Copy, Debug, PartialEq, Eq, Structural)]
pub enum GattError {
    /// No characteristic has this index.
    InvalidHandle,
    /// The payload does not have the characteristic's width.
    InvalidLength,
    /// The peer may not write this characteristic.
    WriteNotPermitted,
    /// The characteristic cannot be notified.
    NotifyNotSupported,
    /// The peer has not enabled notifications.
    NotSubscribed,
    /// The payload does not fit in one packet of the link.
    PayloadTooLarge,
}

/// One characteristic as the contracts see it. The width is the length of
/// `value`, which never changes.
pub struct CharacteristicState {
    pub service: Uuid,
    pub uuid: Uuid,
    pub props: Properties,
    pub value: Seq<u8>,
    pub subscribed: bool,
}

/// A characteristic of the table.
pub struct Characteristic {
    service: Uuid,
    uuid: Uuid,
    props: Properties,
    value: Vec<u8>,
    subscribed: bool,
}

impl View for Characteristic {
    type V = CharacteristicState;

    closed spec fn view(&self) -> CharacteristicState {
        CharacteristicState {
            service: self.service,
            uuid: self.uuid,
            props: self.props,
            value: self.value@,
            subscribed: self.subscribed,
        }
    }
}

/// A notification ready to be handed to the protocol stack.
pub struct Notification {
    pub connection: Connection,
    pub handle: usize,
    pub value: Vec<u8>,
}

/// The table of characteristics, fixed at startup; only values and
/// subscriptions change.
pub struct Server {
    characteristics: Vec<Characteristic>,
}

impl View for Server {
    type V = Seq<CharacteristicState>;

    closed spec fn view(&self) -> Seq<CharacteristicState> {
        self.characteristics@.map_values(|c: Characteristic| c@)
    }
}

/// The MIDI service UUID.
pub const MIDI_SERVICE_UUID: u128 = 0x03b80e5a_ede8_4b33_a751_6ce34ec4c700;

/// The MIDI packet characteristic UUID.
pub const MIDI_PACKET_UUID: u128 = 0x7772e5db_3868_4112_a1a9_f2669d106bf3;

/// The battery service UUID.
pub const BATTERY_SERVICE_UUID: u16 = 0x180f;

/// The battery level characteristic UUID.
pub const BATTERY_LEVEL_UUID: u16 = 0x2a19;

pub open spec fn state_of(
    service: Uuid,
    uuid: Uuid,
    props: Properties,
    value: Seq<u8>,
) -> CharacteristicState {
    CharacteristicState { service, uuid, props, value, subscribed: false }
}

/// The table registered at startup: a one-byte battery level, readable and
/// notifiable, and a five-byte MIDI packet, readable, writable and
/// notifiable, all values zero and nothing subscribed.
pub open spec fn standard_table() -> Seq<CharacteristicState> {
    seq![
        state_of(
            Uuid::Short(BATTERY_SERVICE_UUID),
            Uuid::Short(BATTERY_LEVEL_UUID),
            Properties { read: true, write: false, notify: true },
            seq![0u8],
        ),
        state_of(
            Uuid::Long(MIDI_SERVICE_UUID),
            Uuid::Long(MIDI_PACKET_UUID),
            Properties { read: true, write: true, notify: true },
            seq![0u8, 0u8, 0u8, 0u8, 0u8],
        ),
    ]
}

/// Two tables differ at most in values and subscriptions, and values keep
/// their width.
pub open spec fn same_layout(a: Seq<CharacteristicState>, b: Seq<CharacteristicState>) -> bool {
    &&& a.len() == b.len()
    &&& forall|i: int|
        0 <= i < a.len() ==> {
            &&& (#[trigger] a[i]).service == b[i].service
            &&& a[i].uuid == b[i].uuid
            &&& a[i].props == b[i].props
            &&& a[i].value.len() == b[i].value.len()
        }
}

pub open spec fn get_result(s: Seq<CharacteristicState>, h: int) -> Result<Seq<u8>, GattError> {
    if 0 <= h < s.len() {
        Ok(s[h].value)
    } else {
        Err(GattError::InvalidHandle)
    }
}

/// Outcome of storing `v` from the local side.
pub open spec fn set_result(s: Seq<CharacteristicState>, h: int, v: Seq<u8>) -> Result<
    (),
    GattError,
> {
    if !(0 <= h < s.len()) {
        Err(GattError::InvalidHandle)
    } else if v.len() != s[h].value.len() {
        Err(GattError::InvalidLength)
    } else {
        Ok(())
    }
}

/// Outcome of a write of `v` by the peer.
pub open spec fn write_result(s: Seq<CharacteristicState>, h: int, v: Seq<u8>) -> Result<
    (),
    GattError,
> {
    if !(0 <= h < s.len()) {
        Err(GattError::InvalidHandle)
    } else if !s[h].props.write {
        Err(GattError::WriteNotPermitted)
    } else if v.len() != s[h].value.len() {
        Err(GattError::InvalidLength)
    } else {
        Ok(())
    }
}

/// The table with `v` stored at `h`.
pub open spec fn store(s: Seq<CharacteristicState>, h: int, v: Seq<u8>) -> Seq<
    CharacteristicState,
> {
    s.update(h, CharacteristicState { value: v, ..s[h] })
}

/// The table with every subscription withdrawn.
pub open spec fn unsubscribed(s: Seq<CharacteristicState>) -> Seq<CharacteristicState> {
    Seq::new(s.len(), |i: int| CharacteristicState { subscribed: false, ..s[i] })
}

pub open spec fn after_set(s: Seq<CharacteristicState>, h: int, v: Seq<u8>) -> Seq<
    CharacteristicState,
> {
    if set_result(s, h, v) is Ok {
        store(s, h, v)
    } else {
        s
    }
}

pub open spec fn after_write(s: Seq<CharacteristicState>, h: int, v: Seq<u8>) -> Seq<
    CharacteristicState,
> {
    if write_result(s, h, v) is Ok {
        store(s, h, v)
    } else {
        s
    }
}

/// Outcome of the peer changing its subscription.
pub open spec fn subscribe_result(s: Seq<CharacteristicState>, h: int) -> Result<(), GattError> {
    if !(0 <= h < s.len()) {
        Err(GattError::InvalidHandle)
    } else if !s[h].props.notify {
        Err(GattError::NotifyNotSupported)
    } else {
        Ok(())
    }
}

pub open spec fn after_subscribe(s: Seq<CharacteristicState>, h: int, enabled: bool) -> Seq<
    CharacteristicState,
> {
    if subscribe_result(s, h) is Ok {
        s.update(h, CharacteristicState { subscribed: enabled, ..s[h] })
    } else {
        s
    }
}

/// Outcome of notifying `len` bytes of `h` over `conn`.
pub open spec fn notify_result(
    s: Seq<CharacteristicState>,
    h: int,
    len: int,
    conn: Connection,
) -> Result<(), GattError> {
    if !(0 <= h < s.len()) {
        Err(GattError::InvalidHandle)
    } else if !s[h].props.notify {
        Err(GattError::NotifyNotSupported)
    } else if !s[h].subscribed {
        Err(GattError::NotSubscribed)
    } else if len + NOTIFY_HEADER_LEN > conn.att_mtu {
        Err(GattError::PayloadTooLarge)
    } else {
        Ok(())
    }
}

impl Server {
    /// The table shape registered at startup.
    pub open spec fn wf(&self) -> bool {
        same_layout(standard_table(), self@)
    }

    /// Registers the battery and MIDI services.
    pub fn new() -> (r: Server)
        ensures
            r@ == standard_table(),
            r.wf(),
    {
        let battery = Characteristic {
            service: Uuid::Short(BATTERY_SERVICE_UUID),
            uuid: Uuid::Short(BATTERY_LEVEL_UUID),
            props: Properties { read: true, write: false, notify: true },
            value: vec![0u8],
            subscribed: false,
        };
        let midi = Characteristic {
            service: Uuid::Long(MIDI_SERVICE_UUID),
            uuid: Uuid::Long(MIDI_PACKET_UUID),
            props: Properties { read: true, write: true, notify: true },
            value: vec![0u8, 0u8, 0u8, 0u8, 0u8],
            subscribed: false,
        };
        assert(battery.value@ =~= seq![0u8]);
        assert(midi.value@ =~= seq![0u8, 0u8, 0u8, 0u8, 0u8]);
        let r = Server { characteristics: vec![battery, midi] };
        assert(r.characteristics@[0]@ == standard_table()[0]);
        assert(r.characteristics@[1]@ == standard_table()[1]);
        assert(r@ =~= standard_table());
        r
    }

    /// Number of characteristics.
    pub fn len(&self) -> (r: usize)
        ensures
            r == self@.len(),
    {
        self.characteristics.len()
    }

    /// The current value of characteristic `h`.
    pub fn get(&self, h: usize) -> (r: Result<Vec<u8>, GattError>)
        ensures
            match r {
                Ok(v) => get_result(self@, h as int) == Ok::<Seq<u8>, GattError>(v@),
                Err(e) => get_result(self@, h as int) == Err::<Seq<u8>, GattError>(e),
            },
    {
        if h >= self.characteristics.len() {
            return Err(GattError::InvalidHandle);
        }
        Ok(vstd::slice::slice_to_vec(self.characteristics[h].value.as_slice()))
    }

    /// Whether the peer has enabled notifications of `h`.
    pub fn is_subscribed(&self, h: usize) -> (r: Result<bool, GattError>)
        ensures
            r is Err <==> h >= self@.len(),
            r is Err ==> r == Err::<bool, GattError>(GattError::InvalidHandle),
            r matches Ok(b) ==> b == self@[h as int].subscribed,
    {
        if h >= self.characteristics.len() {
            return Err(GattError::InvalidHandle);
        }
        Ok(self.characteristics[h].subscribed)
    }

    /// Replaces the value of `h`, keeping everything else.
    fn put(&mut self, h: usize, value: &[u8])
        requires
            h < old(self)@.len(),
        ensures
            final(self)@ == store(old(self)@, h as int, value@),
    {
        let c = &self.characteristics[h];
        let n = Characteristic {
            service: c.service,
            uuid: c.uuid,
            props: c.props,
            value: vstd::slice::slice_to_vec(value),
            subscribed: c.subscribed,
        };
        self.characteristics.set(h, n);
        assert(self@ =~= store(old(self)@, h as int, value@));
    }

    /// Stores `value` in `h` from the local side; it must have the
    /// characteristic's width.
    pub fn set(&mut self, h: usize, value: &[u8]) -> (r: Result<(), GattError>)
        ensures
            r == set_result(old(self)@, h as int, value@),
            final(self)@ == after_set(old(self)@, h as int, value@),
            old(self).wf() ==> final(self).wf(),
    {
        if h >= self.characteristics.len() {
            return Err(GattError::InvalidHandle);
        }
        if value.len() != self.characteristics[h].value.len() {
            return Err(GattError::InvalidLength);
        }
        self.put(h, value);
        proof {
            lemma_store_keeps_layout(old(self)@, h as int, value@);
        }
        Ok(())
    }

    /// Stores `value` in `h` on behalf of the peer: the characteristic must
    /// be writable and the value have its width.
    pub fn write(&mut self, h: usize, value: &[u8]) -> (r: Result<(), GattError>)
        ensures
            r == write_result(old(self)@, h as int, value@),
            final(self)@ == after_write(old(self)@, h as int, value@),
            old(self).wf() ==> final(self).wf(),
    {
        if h >= self.characteristics.len() {
            return Err(GattError::InvalidHandle);
        }
        if !self.characteristics[h].props.write {
            return Err(GattError::WriteNotPermitted);
        }
        if value.len() != self.characteristics[h].value.len() {
            return Err(GattError::InvalidLength);
        }
        self.put(h, value);
        proof {
            lemma_store_keeps_layout(old(self)@, h as int, value@);
        }
        Ok(())
    }

    /// Records whether the peer has enabled notifications of `h`.
    pub fn set_subscription(&mut self, h: usize, enabled: bool) -> (r: Result<(), GattError>)
        ensures
            r == subscribe_result(old(self)@, h as int),
            final(self)@ == after_subscribe(old(self)@, h as int, enabled),
            old(self).wf() ==> final(self).wf(),
    {
        if h >= self.characteristics.len() {
            return Err(GattError::InvalidHandle);
        }
        if !self.characteristics[h].props.notify {
            return Err(GattError::NotifyNotSupported);
        }
        let c = &self.characteristics[h];
        let n = Characteristic {
            service: c.service,
            uuid: c.uuid,
            props: c.props,
            value: vstd::slice::slice_to_vec(c.value.as_slice()),
            subscribed: enabled,
        };
        self.characteristics.set(h, n);
        assert(self@ =~= after_subscribe(old(self)@, h as int, enabled));
        Ok(())
    }

    /// Prepares a notification of `value` for `h` over `conn`: the
    /// characteristic must be notifiable, the peer subscribed, and the value
    /// fit in one packet.
    pub fn notify(&self, conn: &Connection, h: usize, value: &[u8]) -> (r: Result<
        Notification,
        GattError,
    >)
        ensures
            match r {
                Ok(n) => {
                    &&& notify_result(self@, h as int, value@.len() as int, *conn) is Ok
                    &&& n.connection == *conn
                    &&& n.handle == h
                    &&& n.value@ == value@
                },
                Err(e) => notify_result(self@, h as int, value@.len() as int, *conn) == Err::<
                    (),
                    GattError,
                >(e),
            },
    {
        if h >= self.characteristics.len() {
            return Err(GattError::InvalidHandle);
        }
        let c = &self.characteristics[h];
        if !c.props.notify {
            return Err(GattError::NotifyNotSupported);
        }
        if !c.subscribed {
            return Err(GattError::NotSubscribed);
        }
        if conn.att_mtu < NOTIFY_HEADER_LEN || value.len() > (conn.att_mtu
            - NOTIFY_HEADER_LEN) as usize {
            return Err(GattError::PayloadTooLarge);
        }
        Ok(Notification { connection: *conn, handle: h, value: vstd::slice::slice_to_vec(value) })
    }

    /// Withdraws every subscription, as when a new peer connects.
    pub fn clear_subscriptions(&mut self)
        ensures
            final(self)@ == unsubscribed(old(self)@),
            old(self).wf() ==> final(self).wf(),
    {
        let mut k: usize = 0;
        while k < self.characteristics.len()
            invariant
                k <= self@.len(),
                self@.len() == old(self)@.len(),
                forall|i: int| 0 <= i < k ==> #[trigger] self@[i] == unsubscribed(old(self)@)[i],
                forall|i: int| k <= i < self@.len() ==> #[trigger] self@[i] == old(self)@[i],
            decreases self@.len() - k,
        {
            let c = &self.characteristics[k];
            let n = Characteristic {
                service: c.service,
                uuid: c.uuid,
                props: c.props,
                value: vstd::slice::slice_to_vec(c.value.as_slice()),
                subscribed: false,
            };
            let ghost before = self@;
            assert(before[k as int] == self.characteristics@[k as int]@);
            assert(n@ == unsubscribed(old(self)@)[k as int]);
            self.characteristics.set(k, n);
            assert(self@ =~= before.update(k as int, unsubscribed(old(self)@)[k as int]));
            k = k + 1;
        }
        assert(self@ =~= unsubscribed(old(self)@));
    }

    /// The battery level.
    pub fn battery_level_get(&self) -> (r: u8)
        requires
            self.wf(),
        ensures
            self@[BATTERY_LEVEL as int].value == seq![r],
    {
        proof {
            lemma_battery_width(self@);
        }
        self.characteristics[BATTERY_LEVEL].value[0]
    }

    /// Stores a new battery level.
    pub fn battery_level_set(&mut self, level: u8)
        requires
            old(self).wf(),
        ensures
            final(self)@ == store(old(self)@, BATTERY_LEVEL as int, seq![level]),
            final(self).wf(),
    {
        proof {
            lemma_battery_width(self@);
        }
        let v: Vec<u8> = vec![level];
        assert(v@ =~= seq![level]);
        self.put(BATTERY_LEVEL, v.as_slice());
        proof {
            lemma_store_keeps_layout(old(self)@, BATTERY_LEVEL as int, seq![level]);
        }
    }
}

/// In a well-formed table the battery level is one byte wide.
pub proof fn lemma_battery_width(s: Seq<CharacteristicState>)
    requires
        same_layout(standard_table(), s),
    ensures
        s[BATTERY_LEVEL as int].value.len() == 1,
        s[BATTERY_LEVEL as int].value == seq![s[BATTERY_LEVEL as int].value[0]],
        s[MIDI_PACKET as int].value.len() == 5,
        s.len() == 2,
{
    assert(standard_table()[0].value.len() == 1);
    assert(standard_table()[1].value.len() == 5);
    assert(s[0].value =~= seq![s[0].value[0]]);
}

/// Storing a value of the same width keeps the layout.
pub proof fn lemma_store_keeps_layout(s: Seq<CharacteristicState>, h: int, v: Seq<u8>)
    requires
        0 <= h < s.len(),
        v.len() == s[h].value.len(),
    ensures
        same_layout(s, store(s, h, v)),
        forall|t: Seq<CharacteristicState>| same_layout(t, s) ==> same_layout(t, #[trigger] store(s, h, v)),
{
}

/// Setting a value of the characteristic's width and then reading it back
/// gives exactly that value.
pub proof fn lemma_set_then_get(s: Seq<CharacteristicState>, h: int, v: Seq<u8>)
    requires
        0 <= h < s.len(),
        v.len() == s[h].value.len(),
    ensures
        set_result(s, h, v) is Ok,
        get_result(after_set(s, h, v), h) == Ok::<Seq<u8>, GattError>(v),
{
}

} // verus!
