use vstd::prelude::*;
use crate::types::{AirPodsInformation, AirPodsLEKeys, DeviceData, DeviceInformation, DeviceType, ProximityKeyType};

verus! {

/// Lower-case hex digit of a nibble.
pub open spec fn hex_lower(n: u8) -> char {
    if n < 10 {
        crate::mac::hex_upper(n)
    } else if n == 10 { 'a' }
    else if n == 11 { 'b' }
    else if n == 12 { 'c' }
    else if n == 13 { 'd' }
    else if n == 14 { 'e' }
    else { 'f' }
}

/// Each byte as two lower-case hex digits, in order.
pub open spec fn hex_lower_text(b: Seq<u8>) -> Seq<char>
    decreases b.len(),
{
    if b.len() == 0 {
        Seq::empty()
    } else {
        hex_lower_text(b.drop_last()) + seq![hex_lower(b.last() / 16), hex_lower(b.last() % 16)]
    }
}

/// Relies on hex::encode: two lower-case hex digits for each byte, in order.
#[verifier::external_body]
fn encode_hex(b: &[u8]) -> (r: String)
    ensures
        r@ == hex_lower_text(b@),
{
    hex::encode(b)
}

/// A device's identity strings in field order, then the identity key, then the encryption key.
pub open spec fn info_view(i: AirPodsInformation) -> Seq<Seq<char>> {
    seq![
        i.name@, i.model_number@, i.manufacturer@, i.serial_number@, i.version1@, i.version2@,
        i.hardware_revision@, i.updater_identifier@, i.left_serial_number@,
        i.right_serial_number@, i.version3@, i.le_keys.irk@, i.le_keys.enc_key@,
    ]
}

/// Position of the identity key in `info_view`.
pub open spec fn irk_slot() -> int { 11 }

/// Position of the encryption key in `info_view`.
pub open spec fn enc_key_slot() -> int { 12 }

/// The view of information whose strings are all empty.
pub open spec fn empty_info_view() -> Seq<Seq<char>> {
    Seq::new(13, |i: int| Seq::<char>::empty())
}

pub type DeviceView = (Seq<char>, DeviceType, Option<Seq<Seq<char>>>);

pub open spec fn device_view(d: DeviceData) -> DeviceView {
    (
        d.name@,
        d.type_,
        match d.information {
            Some(DeviceInformation::AirPods(i)) => Some(info_view(i)),
            None => None,
        },
    )
}

/// The record store as (address text, record view) pairs.
pub open spec fn devices_view(v: Seq<(String, DeviceData)>) -> Seq<(Seq<char>, DeviceView)> {
    v.map_values(|e: (String, DeviceData)| (e.0@, device_view(e.1)))
}

/// At most one record per address.
pub open spec fn keys_unique(v: Seq<(Seq<char>, DeviceView)>) -> bool {
    forall|i: int, j: int| 0 <= i < j < v.len() ==> #[trigger] v[i].0 != #[trigger] v[j].0
}

pub open spec fn has_key(v: Seq<(Seq<char>, DeviceView)>, k: Seq<char>) -> bool {
    exists|i: int| 0 <= i < v.len() && #[trigger] v[i].0 == k
}

/// Index of the record for `k`, where there is one.
pub open spec fn key_index(v: Seq<(Seq<char>, DeviceView)>, k: Seq<char>) -> int {
    choose|i: int| 0 <= i < v.len() && #[trigger] v[i].0 == k
}

/// Stores `h` at `slot` of the information of the record for `mac`; a missing record is added
/// under the address as its name, and missing information starts empty.
pub open spec fn set_key(v: Seq<(Seq<char>, DeviceView)>, mac: Seq<char>, slot: int, h: Seq<char>) -> Seq<(Seq<char>, DeviceView)> {
    if has_key(v, mac) {
        let i = key_index(v, mac);
        let d = v[i].1;
        let info = match d.2 {
            Some(x) => x,
            None => empty_info_view(),
        };
        v.update(i, (mac, (d.0, d.1, Some(info.update(slot, h)))))
    } else {
        v.push((mac, (mac, DeviceType::AirPods, Some(empty_info_view().update(slot, h)))))
    }
}

/// The store after the first `n` keys are applied in order; kinds other than the identity and
/// encryption key are passed over.
pub open spec fn apply_keys(v: Seq<(Seq<char>, DeviceView)>, mac: Seq<char>, keys: Seq<(u8, Seq<u8>)>, n: nat) -> Seq<(Seq<char>, DeviceView)>
    decreases n,
{
    if n == 0 || n > keys.len() {
        v
    } else {
        let before = apply_keys(v, mac, keys, (n - 1) as nat);
        let k = keys[n - 1];
        if k.0 == 0x01 {
            set_key(before, mac, irk_slot(), hex_lower_text(k.1))
        } else if k.0 == 0x04 {
            set_key(before, mac, enc_key_slot(), hex_lower_text(k.1))
        } else {
            before
        }
    }
}

/// Index of the record for `mac`.
pub fn find_device(devices: &Vec<(String, DeviceData)>, mac: &String) -> (r: Option<usize>)
    ensures
        r is None <==> !has_key(devices_view(devices@), mac@),
        r matches Some(i) ==> i < devices@.len() && devices@[i as int].0@ == mac@,
{
    let mut i: usize = 0;
    while i < devices.len()
        invariant
            i <= devices@.len(),
            forall|j: int| 0 <= j < i ==> devices@[j].0@ != mac@,
        decreases devices@.len() - i,
    {
        if devices[i].0 == *mac {
            assert(devices_view(devices@)[i as int].0 == mac@);
            return Some(i);
        }
        i = i + 1;
    }
    assert forall|j: int| 0 <= j < devices_view(devices@).len() implies #[trigger] devices_view(devices@)[j].0 != mac@ by {
        assert(devices_view(devices@)[j].0 == devices@[j].0@);
    }
    None
}

pub(crate) fn empty_string() -> (r: String)
    ensures
        r@ == Seq::<char>::empty(),
{
    proof {
        reveal_strlit("");
    }
    let r = String::from_str("");
    assert(r@ =~= Seq::<char>::empty());
    r
}

/// Information whose strings are all empty.
pub fn empty_information() -> (r: AirPodsInformation)
    ensures
        info_view(r) == empty_info_view(),
{
    let r = AirPodsInformation {
        name: empty_string(),
        model_number: empty_string(),
        manufacturer: empty_string(),
        serial_number: empty_string(),
        version1: empty_string(),
        version2: empty_string(),
        hardware_revision: empty_string(),
        updater_identifier: empty_string(),
        left_serial_number: empty_string(),
        right_serial_number: empty_string(),
        version3: empty_string(),
        le_keys: AirPodsLEKeys { irk: empty_string(), enc_key: empty_string() },
    };
    assert(info_view(r) =~= empty_info_view());
    r
}

/// Stores a Low-Energy key, as lower-case hex, under the record for `mac`, as `set_key` says.
pub fn store_key(devices: &mut Vec<(String, DeviceData)>, mac: &String, kind: ProximityKeyType, data: &[u8])
    requires
        keys_unique(devices_view(old(devices)@)),
    ensures
        keys_unique(devices_view(final(devices)@)),
        devices_view(final(devices)@) == set_key(
            devices_view(old(devices)@),
            mac@,
            match kind {
                ProximityKeyType::Irk => irk_slot(),
                ProximityKeyType::EncKey => enc_key_slot(),
            },
            hex_lower_text(data@),
        ),
{
    let ghost v = devices_view(devices@);
    let ghost slot = match kind {
        ProximityKeyType::Irk => irk_slot(),
        ProximityKeyType::EncKey => enc_key_slot(),
    };
    let h = encode_hex(data);
    match find_device(devices, mac) {
        Some(i) => {
            let (key, mut d) = devices.remove(i);
            let mut info = match d.information {
                Some(DeviceInformation::AirPods(x)) => x,
                None => empty_information(),
            };
            let ghost before = info_view(info);
            match kind {
                ProximityKeyType::Irk => info.le_keys.irk = h,
                ProximityKeyType::EncKey => info.le_keys.enc_key = h,
            }
            assert(info_view(info) =~= before.update(slot, hex_lower_text(data@)));
            d.information = Some(DeviceInformation::AirPods(info));
            devices.insert(i, (key, d));
            assert(v[i as int].0 == mac@);
            assert(key_index(v, mac@) == i) by {
                let k = key_index(v, mac@);
                assert(0 <= k < v.len() && v[k].0 == mac@);
            }
            assert(devices_view(devices@) =~= set_key(v, mac@, slot, hex_lower_text(data@)));
        },
        None => {
            let mut info = empty_information();
            match kind {
                ProximityKeyType::Irk => info.le_keys.irk = h,
                ProximityKeyType::EncKey => info.le_keys.enc_key = h,
            }
            assert(info_view(info) =~= empty_info_view().update(slot, hex_lower_text(data@)));
            let d = DeviceData {
                name: mac.clone(),
                type_: DeviceType::AirPods,
                information: Some(DeviceInformation::AirPods(info)),
            };
            devices.push((mac.clone(), d));
            assert(devices_view(devices@) =~= set_key(v, mac@, slot, hex_lower_text(data@)));
        },
    }
}

} // verus!
