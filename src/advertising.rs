//! The legacy advertising and scan response payloads: a sequence of
//! structures, each a length byte, a type byte and its data.
use vstd::prelude::*;
use crate::registry::{BATTERY_SERVICE_UUID, MIDI_SERVICE_UUID};

verus! {

/// Largest legacy advertising or scan response payload.
pub const LEGACY_MAX_LEN: usize = 31;

pub const AD_FLAGS: u8 = 0x01;

pub const AD_COMPLETE_16_SERVICE_LIST: u8 = 0x03;

pub const AD_COMPLETE_128_SERVICE_LIST: u8 = 0x07;

pub const AD_FULL_NAME: u8 = 0x09;

/// Flag bit: general discoverable mode.
pub const FLAG_GENERAL_DISCOVERY: u8 = 0x02;

/// Flag bit: classic Bluetooth not supported.
pub const FLAG_LE_ONLY: u8 = 0x04;

/// Why a payload cannot be built.
#[derive(Clone, Copy, Debug, PartialEq, Eq, Structural)]
pub enum AdvertisingError {
    /// The payload would take more bytes than a legacy payload holds.
    Oversize,
}

/// The low `n` bytes of `u`, least significant first.
pub open spec fn le_bytes(u: nat, n: nat) -> Seq<u8>
    decreases n,
{
    if n == 0 {
        Seq::empty()
    } else {
        seq![(u % 256) as u8] + le_bytes(u / 256, (n - 1) as nat)
    }
}

/// One structure: length of what follows, type, data.
pub open spec fn ad_structure(ty: u8, data: Seq<u8>) -> Seq<u8> {
    seq![(data.len() + 1) as u8, ty] + data
}

/// The 16-bit UUIDs, two bytes each, little endian.
pub open spec fn uuid16_list(s: Seq<u16>) -> Seq<u8>
    decreases s.len(),
{
    if s.len() == 0 {
        Seq::empty()
    } else {
        uuid16_list(s.drop_last()) + le_bytes(s.last() as nat, 2)
    }
}

/// The 128-bit UUIDs, sixteen bytes each, little endian.
pub open spec fn uuid128_list(s: Seq<u128>) -> Seq<u8>
    decreases s.len(),
{
    if s.len() == 0 {
        Seq::empty()
    } else {
        uuid128_list(s.drop_last()) + le_bytes(s.last() as nat, 16)
    }
}

/// Flags (general discoverable, LE only), the complete list of 16-bit
/// services and the full name.
pub open spec fn advertising_payload(name: Seq<u8>, services: Seq<u16>) -> Seq<u8> {
    ad_structure(AD_FLAGS, seq![FLAG_GENERAL_DISCOVERY | FLAG_LE_ONLY]) + ad_structure(
        AD_COMPLETE_16_SERVICE_LIST,
        uuid16_list(services),
    ) + ad_structure(AD_FULL_NAME, name)
}

/// The complete list of 128-bit services.
pub open spec fn scan_response_payload(services: Seq<u128>) -> Seq<u8> {
    ad_structure(AD_COMPLETE_128_SERVICE_LIST, uuid128_list(services))
}

proof fn lemma_le_bytes_len(u: nat, n: nat)
    ensures
        le_bytes(u, n).len() == n,
    decreases n,
{
    if n > 0 {
        lemma_le_bytes_len(u / 256, (n - 1) as nat);
    }
}

/// Appends the `n` low bytes of `u`, least significant first.
fn push_le(out: &mut Vec<u8>, u: u128, n: usize)
    requires
        n <= 16,
    ensures
        final(out)@ == old(out)@ + le_bytes(u as nat, n as nat),
{
    let mut v: u128 = u;
    let mut k: usize = 0;
    while k < n
        invariant
            k <= n,
            out@ + le_bytes(v as nat, (n - k) as nat) == old(out)@ + le_bytes(u as nat, n as nat),
        decreases n - k,
    {
        let ghost before = out@;
        out.push((v % 256) as u8);
        assert(le_bytes(v as nat, (n - k) as nat) == seq![(v % 256) as u8] + le_bytes(
            (v / 256) as nat,
            (n - k - 1) as nat,
        ));
        assert(out@ + le_bytes((v / 256) as nat, (n - k - 1) as nat) =~= before + le_bytes(
            v as nat,
            (n - k) as nat,
        ));
        v = v / 256;
        k = k + 1;
    }
    assert(le_bytes(v as nat, 0) =~= Seq::<u8>::empty());
    assert(out@ =~= out@ + le_bytes(v as nat, 0));
}

/// Appends the header of a structure whose data is `len` bytes.
fn push_header(out: &mut Vec<u8>, ty: u8, len: usize)
    requires
        len < 255,
    ensures
        final(out)@ == old(out)@ + seq![(len + 1) as u8, ty],
{
    out.push((len + 1) as u8);
    out.push(ty);
    assert(out@ =~= old(out)@ + seq![(len + 1) as u8, ty]);
}

/// Appends `data` to `out`.
fn push_all(out: &mut Vec<u8>, data: &[u8])
    ensures
        final(out)@ == old(out)@ + data@,
{
    let mut k: usize = 0;
    while k < data.len()
        invariant
            k <= data@.len(),
            out@ == old(out)@ + data@.take(k as int),
        decreases data@.len() - k,
    {
        out.push(data[k]);
        assert(data@.take(k + 1) =~= data@.take(k as int).push(data@[k as int]));
        k = k + 1;
    }
    assert(data@.take(k as int) =~= data@);
}

proof fn lemma_uuid16_list_len(s: Seq<u16>)
    ensures
        uuid16_list(s).len() == 2 * s.len(),
    decreases s.len(),
{
    if s.len() > 0 {
        lemma_uuid16_list_len(s.drop_last());
        lemma_le_bytes_len(s.last() as nat, 2);
    }
}

proof fn lemma_uuid128_list_len(s: Seq<u128>)
    ensures
        uuid128_list(s).len() == 16 * s.len(),
    decreases s.len(),
{
    if s.len() > 0 {
        lemma_uuid128_list_len(s.drop_last());
        lemma_le_bytes_len(s.last() as nat, 16);
    }
}

/// Builds the advertising payload for `name` and `services`.
pub fn build_advertising_data(name: &[u8], services: &[u16]) -> (r: Result<
    Vec<u8>,
    AdvertisingError,
>)
    ensures
        r is Ok <==> 7 + 2 * services@.len() + name@.len() <= LEGACY_MAX_LEN,
        r matches Ok(v) ==> v@ == advertising_payload(name@, services@),
        r matches Err(e) ==> e == AdvertisingError::Oversize,
{
    if name.len() > LEGACY_MAX_LEN || services.len() > LEGACY_MAX_LEN || 7 + 2 * services.len()
        + name.len() > LEGACY_MAX_LEN {
        return Err(AdvertisingError::Oversize);
    }
    let mut out: Vec<u8> = Vec::new();
    push_header(&mut out, AD_FLAGS, 1);
    out.push(FLAG_GENERAL_DISCOVERY | FLAG_LE_ONLY);
    push_header(&mut out, AD_COMPLETE_16_SERVICE_LIST, 2 * services.len());
    let mut k: usize = 0;
    let ghost start = out@;
    while k < services.len()
        invariant
            k <= services@.len(),
            out@ == start + uuid16_list(services@.take(k as int)),
        decreases services@.len() - k,
    {
        push_le(&mut out, services[k] as u128, 2);
        assert(services@.take(k + 1).drop_last() =~= services@.take(k as int));
        k = k + 1;
    }
    assert(services@.take(k as int) =~= services@);
    push_header(&mut out, AD_FULL_NAME, name.len());
    push_all(&mut out, name);
    proof {
        lemma_uuid16_list_len(services@);
        assert(out@ =~= advertising_payload(name@, services@));
    }
    Ok(out)
}

/// Builds the scan response payload listing `services`.
pub fn build_scan_response(services: &[u128]) -> (r: Result<Vec<u8>, AdvertisingError>)
    ensures
        r is Ok <==> 2 + 16 * services@.len() <= LEGACY_MAX_LEN,
        r matches Ok(v) ==> v@ == scan_response_payload(services@),
        r matches Err(e) ==> e == AdvertisingError::Oversize,
{
    if services.len() > 1 {
        return Err(AdvertisingError::Oversize);
    }
    let mut out: Vec<u8> = Vec::new();
    push_header(&mut out, AD_COMPLETE_128_SERVICE_LIST, 16 * services.len());
    let mut k: usize = 0;
    let ghost start = out@;
    while k < services.len()
        invariant
            k <= services@.len(),
            out@ == start + uuid128_list(services@.take(k as int)),
        decreases services@.len() - k,
    {
        push_le(&mut out, services[k], 16);
        assert(services@.take(k + 1).drop_last() =~= services@.take(k as int));
        k = k + 1;
    }
    assert(services@.take(k as int) =~= services@);
    proof {
        lemma_uuid128_list_len(services@);
        assert(out@ =~= scan_response_payload(services@));
    }
    Ok(out)
}

/// The device name, "HelloRust".
pub open spec fn device_name() -> Seq<u8> {
    seq![0x48u8, 0x65, 0x6c, 0x6c, 0x6f, 0x52, 0x75, 0x73, 0x74]
}

/// The advertising payload of this device: its name and the battery service.
pub fn advertising_data() -> (r: Vec<u8>)
    ensures
        r@ == advertising_payload(device_name(), seq![BATTERY_SERVICE_UUID]),
{
    let name: Vec<u8> = vec![0x48u8, 0x65, 0x6c, 0x6c, 0x6f, 0x52, 0x75, 0x73, 0x74];
    let services: Vec<u16> = vec![BATTERY_SERVICE_UUID];
    assert(name@ =~= device_name());
    assert(services@ =~= seq![BATTERY_SERVICE_UUID]);
    match build_advertising_data(name.as_slice(), services.as_slice()) {
        Ok(v) => v,
        Err(_) => Vec::new(),
    }
}

/// The scan response payload of this device: the MIDI service.
pub fn scan_response_data() -> (r: Vec<u8>)
    ensures
        r@ == scan_response_payload(seq![MIDI_SERVICE_UUID]),
{
    let services: Vec<u128> = vec![MIDI_SERVICE_UUID];
    assert(services@ =~= seq![MIDI_SERVICE_UUID]);
    match build_scan_response(services.as_slice()) {
        Ok(v) => v,
        Err(_) => Vec::new(),
    }
}

} // verus!
