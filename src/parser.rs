use vstd::prelude::*;
use vstd::utf8::{decode_utf8, valid_utf8};
use crate::devices::empty_string;
use crate::mac::{format_mac, mac_text_of};
use crate::types::{
    audio_source_type_of, battery_component_of, battery_status_of, ear_status_of, AudioSource,
    AirPodsInformation, AirPodsLEKeys, AudioSourceType, BatteryComponent, BatteryInfo, BatteryStatus, ConnectedDevice,
    EarDetectionStatus,
};

verus! {

/// The bytes from the opcode on.
pub open spec fn payload_of(packet: Seq<u8>) -> Seq<u8> {
    packet.subrange(4, packet.len() as int)
}

/// Whether a received buffer starts with the header and holds an opcode.
pub fn is_frame(packet: &[u8]) -> (r: bool)
    ensures
        r == crate::codec::is_frame(packet@),
{
    if packet.len() < 5 {
        return false;
    }
    let r = packet[0] == 0x04 && packet[1] == 0x00 && packet[2] == 0x04 && packet[3] == 0x00;
    assert(r == (packet@.subrange(0, 4) =~= crate::codec::header()));
    r
}

// ---- battery ----

/// The battery record at entry `i`, when both its component and status bytes are known.
pub open spec fn battery_entry(p: Seq<u8>, i: int) -> Option<BatteryInfo> {
    let base = 3 + 5 * i;
    match (battery_component_of(p[base]), battery_status_of(p[base + 3])) {
        (Some(c), Some(s)) => Some(BatteryInfo { component: c, level: p[base + 2], status: s }),
        _ => None,
    }
}

/// The known records among the first `n` entries, in order.
pub open spec fn battery_entries(p: Seq<u8>, n: nat) -> Seq<BatteryInfo>
    decreases n,
{
    if n == 0 {
        Seq::empty()
    } else {
        let before = battery_entries(p, (n - 1) as nat);
        match battery_entry(p, n - 1) {
            Some(e) => before.push(e),
            None => before,
        }
    }
}

pub open spec fn battery_fits(p: Seq<u8>) -> bool {
    p.len() >= 3 && p.len() >= 3 + 5 * p[2]
}

fn battery_component(b: u8) -> (r: Option<BatteryComponent>)
    ensures
        r == battery_component_of(b),
{
    match b {
        0x04 => Some(BatteryComponent::Left),
        0x02 => Some(BatteryComponent::Right),
        0x08 => Some(BatteryComponent::Case),
        _ => None,
    }
}

fn battery_status(b: u8) -> (r: Option<BatteryStatus>)
    ensures
        r == battery_status_of(b),
{
    match b {
        0x01 => Some(BatteryStatus::Charging),
        0x02 => Some(BatteryStatus::NotCharging),
        0x04 => Some(BatteryStatus::Disconnected),
        _ => None,
    }
}

/// Battery records of a battery payload; entries with an unknown component or status are skipped.
pub fn parse_battery_info(payload: &[u8]) -> (r: Option<Vec<BatteryInfo>>)
    ensures
        r is Some <==> battery_fits(payload@),
        r matches Some(v) ==> v@ == battery_entries(payload@, payload@[2] as nat),
{
    if payload.len() < 3 {
        return None;
    }
    let count = payload[2] as usize;
    if payload.len() < 3 + count * 5 {
        return None;
    }
    let mut out: Vec<BatteryInfo> = Vec::new();
    let mut i: usize = 0;
    while i < count
        invariant
            count == payload@[2],
            payload@.len() >= 3 + 5 * count,
            i <= count,
            out@ == battery_entries(payload@, i as nat),
        decreases count - i,
    {
        let base = 3 + i * 5;
        let c = battery_component(payload[base]);
        let s = battery_status(payload[base + 3]);
        match (c, s) {
            (Some(c), Some(s)) => {
                out.push(BatteryInfo { component: c, level: payload[base + 2], status: s });
            },
            _ => {},
        }
        i = i + 1;
    }
    Some(out)
}

// ---- control command ----

/// `v` without its trailing zero bytes.
pub open spec fn strip_trailing_zeros(v: Seq<u8>) -> Seq<u8>
    decreases v.len(),
{
    if v.len() == 0 {
        v
    } else if v.last() == 0 {
        strip_trailing_zeros(v.drop_last())
    } else {
        v
    }
}

/// The stored form of a control value: up to its last non-zero byte, or a single zero.
pub open spec fn trimmed_value(v: Seq<u8>) -> Seq<u8> {
    let s = strip_trailing_zeros(v);
    if s.len() == 0 {
        seq![0u8]
    } else {
        s
    }
}

/// The stored form of four value bytes.
pub fn trim_control_value(v: &[u8]) -> (r: Vec<u8>)
    ensures
        r@ == trimmed_value(v@),
{
    let mut n: usize = v.len();
    assert(v@.subrange(0, n as int) =~= v@);
    while n > 0 && v[n - 1] == 0
        invariant
            n <= v@.len(),
            strip_trailing_zeros(v@) == strip_trailing_zeros(v@.subrange(0, n as int)),
        decreases n,
    {
        assert(v@.subrange(0, n as int).drop_last() =~= v@.subrange(0, n - 1));
        n = n - 1;
    }
    assert(strip_trailing_zeros(v@.subrange(0, n as int)) == v@.subrange(0, n as int));
    let mut r: Vec<u8> = Vec::new();
    if n == 0 {
        r.push(0u8);
        assert(r@ =~= seq![0u8]);
    } else {
        let mut i: usize = 0;
        while i < n
            invariant
                n <= v@.len(),
                i <= n,
                r@ == v@.subrange(0, i as int),
            decreases n - i,
        {
            r.push(v[i]);
            i = i + 1;
            assert(r@ =~= v@.subrange(0, i as int));
        }
    }
    r
}

/// Identifier byte and the four raw value bytes of a control-command payload.
pub fn parse_control_command(payload: &[u8]) -> (r: Option<(u8, Vec<u8>)>)
    ensures
        r is Some <==> payload@.len() >= 7,
        r matches Some(c) ==> c.0 == payload@[2] && c.1@ == payload@.subrange(3, 7),
{
    if payload.len() < 7 {
        return None;
    }
    let mut v: Vec<u8> = Vec::new();
    v.push(payload[3]);
    v.push(payload[4]);
    v.push(payload[5]);
    v.push(payload[6]);
    assert(v@ =~= payload@.subrange(3, 7));
    Some((payload[2], v))
}

// ---- ear detection, conversational awareness ----

fn ear_status(b: u8) -> (r: EarDetectionStatus)
    ensures
        r == ear_status_of(b),
{
    match b {
        0x00 => EarDetectionStatus::InEar,
        0x01 => EarDetectionStatus::OutOfEar,
        0x02 => EarDetectionStatus::InCase,
        0x03 => EarDetectionStatus::Disconnected,
        _ => EarDetectionStatus::OutOfEar,
    }
}

/// Primary and secondary ear status, read at bytes 6 and 7 of the whole frame.
pub fn parse_ear_detection(packet: &[u8]) -> (r: Option<Vec<EarDetectionStatus>>)
    ensures
        r is Some <==> packet@.len() >= 8,
        r matches Some(v) ==> v@ == seq![ear_status_of(packet@[6]), ear_status_of(packet@[7])],
{
    if packet.len() < 8 {
        return None;
    }
    let mut v: Vec<EarDetectionStatus> = Vec::new();
    v.push(ear_status(packet[6]));
    v.push(ear_status(packet[7]));
    assert(v@ =~= seq![ear_status_of(packet@[6]), ear_status_of(packet@[7])]);
    Some(v)
}

/// The conversational-awareness byte, present only in a frame of exactly ten bytes.
pub fn parse_conversation_awareness(packet: &[u8]) -> (r: Option<u8>)
    ensures
        r == (if packet@.len() == 10 { Some(packet@[9]) } else { None::<u8> }),
{
    if packet.len() == 10 {
        Some(packet[9])
    } else {
        None
    }
}

// ---- audio source, connected devices ----

/// Octets `start .. start + 6` of `p` in the opposite order.
pub open spec fn reversed_six(p: Seq<u8>, start: int) -> Seq<u8> {
    Seq::new(6, |i: int| p[start + 5 - i])
}

/// The audio source of a payload: its address is written least-significant octet first.
pub fn parse_audio_source(payload: &[u8]) -> (r: Option<AudioSource>)
    ensures
        r is Some <==> payload@.len() >= 9,
        r matches Some(a) ==> a.mac@ == mac_text_of(reversed_six(payload@, 2)) && a.kind == (
        match audio_source_type_of(payload@[8]) {
            Some(k) => k,
            None => AudioSourceType::NoAudio,
        }),
{
    if payload.len() < 9 {
        return None;
    }
    let octets: [u8; 6] = [payload[7], payload[6], payload[5], payload[4], payload[3], payload[2]];
    assert(octets@ =~= reversed_six(payload@, 2));
    let mac = format_mac(octets.as_slice());
    let kind = match AudioSourceType::from_u8(payload[8]) {
        Some(k) => k,
        None => AudioSourceType::NoAudio,
    };
    Some(AudioSource { mac, kind })
}

pub open spec fn connected_devices_fit(p: Seq<u8>) -> bool {
    &&& p.len() >= 3
    &&& p.len() >= 3 + 8 * p[2]
    &&& (p[2] == 0 || p.len() >= 5 + 8 * p[2])
}

/// The device record at entry `i`: its address is written in order, then two info bytes.
pub open spec fn device_entry_matches(p: Seq<u8>, i: int, d: ConnectedDevice) -> bool {
    let base = 5 + 8 * i;
    &&& d.mac@ == mac_text_of(p.subrange(base, base + 6))
    &&& d.info1 == p[base + 6]
    &&& d.info2 == p[base + 7]
    &&& d.kind is None
}

/// The connected devices of a payload.
pub fn parse_connected_devices(payload: &[u8]) -> (r: Option<Vec<ConnectedDevice>>)
    ensures
        r is Some <==> connected_devices_fit(payload@),
        r matches Some(v) ==> v@.len() == payload@[2] && forall|i: int|
            0 <= i < v@.len() ==> device_entry_matches(payload@, i, #[trigger] v@[i]),
{
    if payload.len() < 3 {
        return None;
    }
    let count = payload[2] as usize;
    if payload.len() < 3 + count * 8 || (count > 0 && payload.len() < 5 + count * 8) {
        return None;
    }
    let mut out: Vec<ConnectedDevice> = Vec::new();
    let mut i: usize = 0;
    while i < count
        invariant
            count == payload@[2],
            count > 0 ==> payload@.len() >= 5 + 8 * count,
            i <= count,
            out@.len() == i,
            forall|j: int| 0 <= j < i ==> device_entry_matches(payload@, j, #[trigger] out@[j]),
        decreases count - i,
    {
        let base = 5 + i * 8;
        let octets: [u8; 6] = [
            payload[base],
            payload[base + 1],
            payload[base + 2],
            payload[base + 3],
            payload[base + 4],
            payload[base + 5],
        ];
        assert(octets@ =~= payload@.subrange(base as int, base + 6));
        let mac = format_mac(octets.as_slice());
        out.push(ConnectedDevice { mac, info1: payload[base + 6], info2: payload[base + 7], kind: None });
        i = i + 1;
    }
    Some(out)
}

// ---- smart routing response ----

/// The text that asks this host to give up the audio route.
pub open spec fn ownership_to_false_text() -> Seq<u8> {
    seq![
        0x53u8, 0x65, 0x74, 0x4F, 0x77, 0x6E, 0x65, 0x72, 0x73, 0x68, 0x69, 0x70, 0x54, 0x6F,
        0x46, 0x61, 0x6C, 0x73, 0x65,
    ]
}

/// `needle` occurs in `hay` at or after `from`.
pub open spec fn occurs_from(hay: Seq<u8>, needle: Seq<u8>, from: int) -> bool {
    exists|i: int| from <= i && i + needle.len() <= hay.len() && #[trigger] hay.subrange(i, i + needle.len()) == needle
}

/// Whether a smart-routing response asks to set ownership to false.
pub fn asks_ownership_to_false(payload: &[u8]) -> (r: bool)
    ensures
        r == (payload@.len() >= 2 && occurs_from(payload@, ownership_to_false_text(), 2)),
{
    let needle: [u8; 19] = [
        0x53, 0x65, 0x74, 0x4F, 0x77, 0x6E, 0x65, 0x72, 0x73, 0x68, 0x69, 0x70, 0x54, 0x6F,
        0x46, 0x61, 0x6C, 0x73, 0x65,
    ];
    assert(needle@ =~= ownership_to_false_text());
    if payload.len() < 2 {
        return false;
    }
    let n = payload.len();
    let mut i: usize = 2;
    while n - i >= 19
        invariant
            n == payload@.len(),
            2 <= i <= n,
            needle@ == ownership_to_false_text(),
            forall|k: int| 2 <= k < i && k + 19 <= n ==> #[trigger] payload@.subrange(k, k + 19) != ownership_to_false_text(),
        decreases n - i,
    {
        let mut j: usize = 0;
        while j < 19 && payload[i + j] == needle[j]
            invariant
                i + 19 <= n,
                n == payload@.len(),
                j <= 19,
                forall|m: int| 0 <= m < j ==> payload@[i + m] == needle@[m],
            decreases 19 - j,
        {
            j = j + 1;
        }
        if j == 19 {
            assert(payload@.subrange(i as int, i + 19) =~= ownership_to_false_text());
            return true;
        }
        assert(payload@.subrange(i as int, i + 19)[j as int] != ownership_to_false_text()[j as int]);
        i = i + 1;
    }
    assert(ownership_to_false_text().len() == 19);
    false
}

// ---- information ----

/// Relies on std::str::from_utf8: it succeeds exactly on valid UTF-8, with the text encoded.
#[verifier::external_body]
fn utf8_text(b: &[u8]) -> (r: Option<&str>)
    ensures
        r is Some <==> valid_utf8(b@),
        r matches Some(s) ==> s@ == decode_utf8(b@),
{
    std::str::from_utf8(b).ok()
}

/// The text of each string.
pub open spec fn string_views(v: Seq<String>) -> Seq<Seq<char>> {
    v.map_values(|s: String| s@)
}

/// Index of the first zero byte at or after `i`, or the length.
pub open spec fn run_end(d: Seq<u8>, i: int) -> int
    decreases d.len() - i,
{
    if i >= d.len() || d[i] == 0 {
        i
    } else {
        run_end(d, i + 1)
    }
}

/// The maximal runs of non-zero bytes from `i` on, the first extended from `cur`.
pub open spec fn runs(d: Seq<u8>, i: int, cur: Seq<u8>) -> Seq<Seq<u8>>
    decreases d.len() - i,
{
    if i >= d.len() {
        if cur.len() > 0 { seq![cur] } else { Seq::empty() }
    } else if d[i] == 0 {
        (if cur.len() > 0 { seq![cur] } else { Seq::empty() }) + runs(d, i + 1, Seq::empty())
    } else {
        runs(d, i + 1, cur.push(d[i]))
    }
}

/// The runs that are valid UTF-8, decoded, in order.
pub open spec fn texts(rs: Seq<Seq<u8>>) -> Seq<Seq<char>>
    decreases rs.len(),
{
    if rs.len() == 0 {
        Seq::empty()
    } else {
        (if valid_utf8(rs[0]) { seq![decode_utf8(rs[0])] } else { Seq::empty() }) + texts(rs.drop_first())
    }
}

proof fn lemma_texts_append(a: Seq<Seq<u8>>, b: Seq<Seq<u8>>)
    ensures
        texts(a + b) == texts(a) + texts(b),
    decreases a.len(),
{
    if a.len() == 0 {
        assert(a + b =~= b);
    } else {
        assert((a + b).drop_first() =~= a.drop_first() + b);
        lemma_texts_append(a.drop_first(), b);
    }
}

/// The strings of an information payload: after the bytes up to the first zero byte, the
/// zero-separated non-empty runs that are valid UTF-8.
pub open spec fn information_strings(payload: Seq<u8>) -> Seq<Seq<char>> {
    let d = payload.subrange(4, payload.len() as int);
    texts(runs(d, run_end(d, 0), Seq::empty()))
}

/// Field `k` of an information payload: string `k + 1`, the first being an opaque token; empty
/// where there is none.
pub open spec fn information_field(payload: Seq<u8>, k: int) -> Seq<char> {
    let s = information_strings(payload);
    if k + 1 < s.len() { s[k + 1] } else { Seq::empty() }
}

fn text_of_run(d: &[u8], start: usize, end: usize, strings: &mut Vec<String>)
    requires
        start < end <= d@.len(),
    ensures
        string_views(final(strings)@) == string_views(old(strings)@)
            + texts(seq![d@.subrange(start as int, end as int)]),
{
    let mut run: Vec<u8> = Vec::new();
    let mut j: usize = start;
    while j < end
        invariant
            start <= j <= end <= d@.len(),
            run@ == d@.subrange(start as int, j as int),
        decreases end - j,
    {
        run.push(d[j]);
        j = j + 1;
        assert(run@ =~= d@.subrange(start as int, j as int));
    }
    let ghost r = d@.subrange(start as int, end as int);
    assert(texts(seq![r]) =~= (if valid_utf8(r) { seq![decode_utf8(r)] } else { Seq::empty() }) + texts(Seq::<Seq<u8>>::empty())) by {
        assert(seq![r].drop_first() =~= Seq::<Seq<u8>>::empty());
    }
    match utf8_text(run.as_slice()) {
        Some(s) => {
            strings.push(String::from_str(s));
            assert(string_views(strings@) =~= string_views(old(strings)@) + texts(seq![r]));
        },
        None => {
            assert(string_views(strings@) =~= string_views(old(strings)@) + texts(seq![r]));
        },
    }
}

/// The strings of an information payload, as `information_strings` says.
fn information_strings_of(payload: &[u8]) -> (r: Vec<String>)
    requires
        payload@.len() >= 4,
    ensures
        string_views(r@) == information_strings(payload@),
{
    let ghost d = payload@.subrange(4, payload@.len() as int);
    let n = payload.len();
    let mut i: usize = 4;
    while i < n && payload[i] != 0
        invariant
            4 <= i <= n == payload@.len(),
            d == payload@.subrange(4, n as int),
            run_end(d, 0) == run_end(d, i - 4),
        decreases n - i,
    {
        i = i + 1;
    }
    let ghost first = i - 4;
    assert(run_end(d, i - 4) == i - 4);
    let mut strings: Vec<String> = Vec::new();
    let mut start: usize = i;
    assert(d.subrange(start - 4, i - 4) =~= Seq::<u8>::empty());
    assert(string_views(strings@) =~= Seq::<Seq<char>>::empty());
    while i < n
        invariant
            4 <= start <= i <= n == payload@.len(),
            d == payload@.subrange(4, n as int),
            string_views(strings@) + texts(runs(d, i - 4, d.subrange(start - 4, i - 4)))
                == texts(runs(d, first, Seq::empty())),
        decreases n - i,
    {
        let ghost cur = d.subrange(start - 4, i - 4);
        let ghost before = string_views(strings@);
        assert(cur =~= payload@.subrange(start as int, i as int));
        assert(d[i - 4] == payload@[i as int]);
        if payload[i] == 0 {
            let ghost rest = runs(d, i - 4 + 1, Seq::empty());
            if start < i {
                proof {
                    lemma_texts_append(seq![cur], rest);
                }
                assert(runs(d, i - 4, cur) == seq![cur] + rest);
                text_of_run(payload, start, i, &mut strings);
                assert(before + texts(seq![cur] + rest) =~= (before + texts(seq![cur])) + texts(rest));
            } else {
                assert(seq![cur].len() == 0 || cur.len() == 0);
                assert(runs(d, i - 4, cur) =~= rest);
            }
            i = i + 1;
            start = i;
            assert(d.subrange(start - 4, i - 4) =~= Seq::<u8>::empty());
        } else {
            assert(cur.push(d[i - 4]) =~= d.subrange(start - 4, i - 4 + 1));
            assert(runs(d, i - 4, cur) == runs(d, i - 4 + 1, cur.push(d[i - 4])));
            i = i + 1;
        }
    }
    let ghost cur = d.subrange(start - 4, i - 4);
    assert(cur =~= payload@.subrange(start as int, i as int));
    if start < i {
        assert(runs(d, i - 4, cur) == seq![cur]);
        text_of_run(payload, start, i, &mut strings);
    } else {
        assert(runs(d, i - 4, cur) =~= Seq::<Seq<u8>>::empty());
        assert(texts(Seq::<Seq<u8>>::empty()) =~= Seq::<Seq<char>>::empty());
        assert(string_views(strings@) =~= string_views(strings@) + Seq::<Seq<char>>::empty());
    }
    assert(first == run_end(d, 0));
    assert(d == payload@.subrange(4, payload@.len() as int));
    strings
}

fn information_field_of(strings: &Vec<String>, k: usize) -> (r: String)
    requires
        k < 11,
    ensures
        r@ == (if k + 1 < strings@.len() { string_views(strings@)[k + 1] } else { Seq::<char>::empty() }),
{
    if k + 1 < strings.len() {
        strings[k + 1].clone()
    } else {
        empty_string()
    }
}

/// All eleven fields of `info` are those that `information_field` gives for `payload`, and the
/// keys are empty.
pub open spec fn information_matches(payload: Seq<u8>, info: AirPodsInformation) -> bool {
    &&& info.name@ == information_field(payload, 0)
    &&& info.model_number@ == information_field(payload, 1)
    &&& info.manufacturer@ == information_field(payload, 2)
    &&& info.serial_number@ == information_field(payload, 3)
    &&& info.version1@ == information_field(payload, 4)
    &&& info.version2@ == information_field(payload, 5)
    &&& info.hardware_revision@ == information_field(payload, 6)
    &&& info.updater_identifier@ == information_field(payload, 7)
    &&& info.left_serial_number@ == information_field(payload, 8)
    &&& info.right_serial_number@ == information_field(payload, 9)
    &&& info.version3@ == information_field(payload, 10)
    &&& info.le_keys.irk@ == Seq::<char>::empty()
    &&& info.le_keys.enc_key@ == Seq::<char>::empty()
}

/// The identity strings of an information payload.
pub fn parse_information(payload: &[u8]) -> (r: Option<AirPodsInformation>)
    ensures
        r is Some <==> payload@.len() >= 6,
        r matches Some(info) ==> information_matches(payload@, info),
{
    if payload.len() < 6 {
        return None;
    }
    let strings = information_strings_of(payload);
    Some(AirPodsInformation {
        name: information_field_of(&strings, 0),
        model_number: information_field_of(&strings, 1),
        manufacturer: information_field_of(&strings, 2),
        serial_number: information_field_of(&strings, 3),
        version1: information_field_of(&strings, 4),
        version2: information_field_of(&strings, 5),
        hardware_revision: information_field_of(&strings, 6),
        updater_identifier: information_field_of(&strings, 7),
        left_serial_number: information_field_of(&strings, 8),
        right_serial_number: information_field_of(&strings, 9),
        version3: information_field_of(&strings, 10),
        le_keys: AirPodsLEKeys { irk: empty_string(), enc_key: empty_string() },
    })
}

// ---- proximity keys ----

/// `n` keys read from offset `o`: kind at `o`, length at `o + 2`, data from `o + 4`.
pub open spec fn keys_from(p: Seq<u8>, o: int, n: nat) -> Option<Seq<(u8, Seq<u8>)>>
    decreases n,
{
    if n == 0 {
        Some(Seq::empty())
    } else if o + 3 >= p.len() {
        None
    } else {
        let d = o + 4;
        let len = p[o + 2] as int;
        if d + len > p.len() {
            None
        } else {
            match keys_from(p, d + len, (n - 1) as nat) {
                Some(rest) => Some(seq![(p[o], p.subrange(d, d + len))] + rest),
                None => None,
            }
        }
    }
}

/// The keys of a proximity-keys response.
pub open spec fn proximity_keys_of(p: Seq<u8>) -> Option<Seq<(u8, Seq<u8>)>> {
    if p.len() < 4 {
        None
    } else {
        keys_from(p, 3, p[2] as nat)
    }
}

pub open spec fn key_views(v: Seq<(u8, Vec<u8>)>) -> Seq<(u8, Seq<u8>)> {
    v.map_values(|e: (u8, Vec<u8>)| (e.0, e.1@))
}

pub open spec fn after(acc: Seq<(u8, Seq<u8>)>, rest: Option<Seq<(u8, Seq<u8>)>>) -> Option<Seq<(u8, Seq<u8>)>> {
    match rest {
        Some(r) => Some(acc + r),
        None => None,
    }
}

/// The (kind, data) pairs of a proximity-keys response; `None` when it ends early.
pub fn parse_proximity_keys(payload: &[u8]) -> (r: Option<Vec<(u8, Vec<u8>)>>)
    ensures
        r is Some <==> proximity_keys_of(payload@) is Some,
        r matches Some(v) ==> Some(key_views(v@)) == proximity_keys_of(payload@),
{
    if payload.len() < 4 {
        return None;
    }
    let count = payload[2] as usize;
    let n = payload.len();
    let mut offset: usize = 3;
    let mut keys: Vec<(u8, Vec<u8>)> = Vec::new();
    let mut i: usize = 0;
    assert(key_views(keys@) =~= Seq::<(u8, Seq<u8>)>::empty());
    assert(Seq::<(u8, Seq<u8>)>::empty() + keys_from(payload@, 3, count as nat)->0 =~= keys_from(payload@, 3, count as nat)->0);
    while i < count
        invariant
            n == payload@.len(),
            count == payload@[2],
            i <= count,
            offset <= n,
            proximity_keys_of(payload@) == after(key_views(keys@), keys_from(payload@, offset as int, (count - i) as nat)),
        decreases count - i,
    {
        if n - offset <= 3 {
            return None;
        }
        let key_type = payload[offset];
        let key_length = payload[offset + 2] as usize;
        let start = offset + 4;
        if key_length > n - start {
            return None;
        }
        let mut data: Vec<u8> = Vec::new();
        let mut j: usize = start;
        while j < start + key_length
            invariant
                start <= j <= start + key_length <= n == payload@.len(),
                data@ == payload@.subrange(start as int, j as int),
            decreases start + key_length - j,
        {
            data.push(payload[j]);
            j = j + 1;
            assert(data@ =~= payload@.subrange(start as int, j as int));
        }
        let ghost old_views = key_views(keys@);
        let ghost rest = keys_from(payload@, (start + key_length) as int, (count - i - 1) as nat);
        keys.push((key_type, data));
        assert(key_views(keys@) =~= old_views + seq![(key_type, data@)]);
        proof {
            if rest is Some {
                assert(old_views + (seq![(key_type, data@)] + rest->0) =~= key_views(keys@) + rest->0);
            }
        }
        offset = start + key_length;
        i = i + 1;
    }
    assert(key_views(keys@) + Seq::<(u8, Seq<u8>)>::empty() =~= key_views(keys@));
    Some(keys)
}

} // verus!
