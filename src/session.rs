use vstd::prelude::*;
use crate::codec;
use crate::opcodes;
use crate::devices::{
    apply_keys, device_view, devices_view, find_device, has_key, info_view, key_index, keys_unique,
    store_key,
};
use crate::parser::{
    self, battery_entries, battery_fits, connected_devices_fit, device_entry_matches,
    key_views, ownership_to_false_text, occurs_from, payload_of,
    proximity_keys_of, trimmed_value,
};
use crate::types::{
    control_id_of, ear_status_of, AACPEvent, AacpError,
    AudioSource, BatteryInfo, ConnectedDevice, ControlCommandIdentifiers, ControlCommandStatus,
    DeviceData, DeviceInformation, EarDetectionStatus, ProximityKeyType,
};

verus! {

/// The shared state of one session.
pub struct AACPManagerState {
    /// Whether the outbound queue is open: set once the channel is up, cleared when it ends.
    pub connected: bool,
    pub control_command_status_list: Vec<ControlCommandStatus>,
    /// (identifier, subscriber) in order of subscription.
    pub control_command_subscribers: Vec<(ControlCommandIdentifiers, u64)>,
    pub owns: bool,
    pub old_connected_devices: Vec<ConnectedDevice>,
    pub connected_devices: Vec<ConnectedDevice>,
    pub audio_source: Option<AudioSource>,
    pub battery_info: Vec<BatteryInfo>,
    pub conversational_awareness_status: u8,
    pub old_ear_detection_status: Vec<EarDetectionStatus>,
    pub ear_detection_status: Vec<EarDetectionStatus>,
    /// Known devices by upper-case colon-separated address.
    pub devices: Vec<(String, DeviceData)>,
    /// Address of the peer of the current session.
    pub airpods_mac: Option<String>,
}

/// What the host is to do after a packet: emit an event, hand values to subscribers, save the
/// device records.
pub struct Reaction {
    pub event: Option<AACPEvent>,
    pub deliveries: Vec<(u64, Vec<u8>)>,
    pub persist: bool,
}

impl Reaction {
    pub open spec fn is_quiet(&self) -> bool {
        &&& self.event is None
        &&& self.deliveries@.len() == 0
        &&& !self.persist
    }

    fn quiet() -> (r: Reaction)
        ensures
            r.is_quiet(),
    {
        Reaction { event: None, deliveries: Vec::new(), persist: false }
    }
}

/// The control-command shadow as (identifier, value) pairs.
pub open spec fn shadow_view(list: Seq<ControlCommandStatus>) -> Seq<(ControlCommandIdentifiers, Seq<u8>)> {
    list.map_values(|s: ControlCommandStatus| (s.identifier, s.value@))
}

/// At most one entry per identifier.
pub open spec fn shadow_unique(s: Seq<(ControlCommandIdentifiers, Seq<u8>)>) -> bool {
    forall|i: int, j: int| 0 <= i < j < s.len() ==> #[trigger] s[i].0 != #[trigger] s[j].0
}

pub open spec fn shadow_has(s: Seq<(ControlCommandIdentifiers, Seq<u8>)>, id: ControlCommandIdentifiers) -> bool {
    exists|i: int| 0 <= i < s.len() && #[trigger] s[i].0 == id
}

pub open spec fn shadow_index(s: Seq<(ControlCommandIdentifiers, Seq<u8>)>, id: ControlCommandIdentifiers) -> int {
    choose|i: int| 0 <= i < s.len() && #[trigger] s[i].0 == id
}

/// The value stored for `id`, if any.
pub open spec fn shadow_lookup(s: Seq<(ControlCommandIdentifiers, Seq<u8>)>, id: ControlCommandIdentifiers) -> Option<Seq<u8>> {
    if shadow_has(s, id) {
        Some(s[shadow_index(s, id)].1)
    } else {
        None
    }
}

/// The shadow with `id` set to `v`: replaced in place, or appended when absent.
pub open spec fn shadow_set(s: Seq<(ControlCommandIdentifiers, Seq<u8>)>, id: ControlCommandIdentifiers, v: Seq<u8>) -> Seq<(ControlCommandIdentifiers, Seq<u8>)> {
    if shadow_has(s, id) {
        s.update(shadow_index(s, id), (id, v))
    } else {
        s.push((id, v))
    }
}

/// One (subscriber, value) pair for each subscription to `id`, in order of subscription.
pub open spec fn deliveries_for(subs: Seq<(ControlCommandIdentifiers, u64)>, id: ControlCommandIdentifiers, v: Seq<u8>) -> Seq<(u64, Seq<u8>)>
    decreases subs.len(),
{
    if subs.len() == 0 {
        Seq::empty()
    } else {
        let before = deliveries_for(subs.drop_last(), id, v);
        if subs.last().0 == id {
            before.push((subs.last().1, v))
        } else {
            before
        }
    }
}

pub open spec fn deliveries_view(d: Seq<(u64, Vec<u8>)>) -> Seq<(u64, Seq<u8>)> {
    d.map_values(|e: (u64, Vec<u8>)| (e.0, e.1@))
}

impl AACPManagerState {
    /// The state's invariant: one shadow entry per identifier, one record per address.
    pub open spec fn wf(&self) -> bool {
        &&& shadow_unique(shadow_view(self.control_command_status_list@))
        &&& keys_unique(devices_view(self.devices@))
    }

    /// A fresh state holding the device records read at start.
    pub fn new(devices: Vec<(String, DeviceData)>) -> (r: Option<Self>)
        ensures
            r is Some <==> keys_unique(devices_view(devices@)),
            r matches Some(s) ==> s.wf() && !s.connected && s.control_command_status_list@.len() == 0
                && s.control_command_subscribers@.len() == 0 && !s.owns
                && s.connected_devices@.len() == 0 && s.old_connected_devices@.len() == 0
                && s.audio_source is None && s.battery_info@.len() == 0
                && s.conversational_awareness_status == 0
                && s.ear_detection_status@.len() == 0 && s.old_ear_detection_status@.len() == 0
                && s.devices@ == devices@ && s.airpods_mac is None,
    {
        let mut i: usize = 0;
        while i < devices.len()
            invariant
                i <= devices@.len(),
                forall|a: int, b: int| 0 <= a < b < i ==> #[trigger] devices_view(devices@)[a].0 != #[trigger] devices_view(devices@)[b].0,
            decreases devices@.len() - i,
        {
            let mut j: usize = 0;
            while j < i
                invariant
                    j <= i < devices@.len(),
                    forall|a: int| 0 <= a < j ==> #[trigger] devices_view(devices@)[a].0 != devices_view(devices@)[i as int].0,
                decreases i - j,
            {
                if devices[j].0 == devices[i].0 {
                    assert(devices_view(devices@)[j as int].0 == devices_view(devices@)[i as int].0);
                    return None;
                }
                j = j + 1;
            }
            i = i + 1;
        }
        let s = AACPManagerState {
            connected: false,
            control_command_status_list: Vec::new(),
            control_command_subscribers: Vec::new(),
            owns: false,
            old_connected_devices: Vec::new(),
            connected_devices: Vec::new(),
            audio_source: None,
            battery_info: Vec::new(),
            conversational_awareness_status: 0,
            old_ear_detection_status: Vec::new(),
            ear_detection_status: Vec::new(),
            devices,
            airpods_mac: None,
        };
        assert(shadow_view(s.control_command_status_list@) =~= Seq::empty());
        Some(s)
    }
}

fn copy_bytes(v: &Vec<u8>) -> (r: Vec<u8>)
    ensures
        r@ == v@,
{
    let mut r: Vec<u8> = Vec::new();
    let mut i: usize = 0;
    while i < v.len()
        invariant
            i <= v@.len(),
            r@ == v@.subrange(0, i as int),
        decreases v@.len() - i,
    {
        r.push(v[i]);
        i = i + 1;
        assert(r@ =~= v@.subrange(0, i as int));
    }
    assert(r@ =~= v@);
    r
}

/// What a control-command payload does to the state and what it asks of the host.
pub open spec fn control_effect(old: AACPManagerState, new: AACPManagerState, payload: Seq<u8>, r: Reaction) -> bool {
    if payload.len() < 7 || control_id_of(payload[2]) is None {
        new == old && r.is_quiet()
    } else {
        let id = control_id_of(payload[2])->0;
        let v = trimmed_value(payload.subrange(3, 7));
        &&& shadow_view(new.control_command_status_list@) == shadow_set(shadow_view(old.control_command_status_list@), id, v)
        &&& new.owns == (if id == ControlCommandIdentifiers::OwnsConnection { payload[3] != 0 } else { old.owns })
        &&& new == AACPManagerState { control_command_status_list: new.control_command_status_list, owns: new.owns, ..old }
        &&& deliveries_view(r.deliveries@) == deliveries_for(old.control_command_subscribers@, id, v)
        &&& r.event matches Some(AACPEvent::ControlCommand(st)) && st.identifier == id && st.value@ == v
        &&& !r.persist
    }
}

/// What a battery payload does.
pub open spec fn battery_effect(old: AACPManagerState, new: AACPManagerState, payload: Seq<u8>, r: Reaction) -> bool {
    if !battery_fits(payload) {
        new == old && r.is_quiet()
    } else {
        let entries = battery_entries(payload, payload[2] as nat);
        &&& new.battery_info@ == entries
        &&& new == AACPManagerState { battery_info: new.battery_info, ..old }
        &&& r.event matches Some(AACPEvent::BatteryInfo(v)) && v@ == entries
        &&& r.deliveries@.len() == 0 && !r.persist
    }
}

/// What an ear-detection frame does: the current pair becomes the previous one.
pub open spec fn ear_effect(old: AACPManagerState, new: AACPManagerState, packet: Seq<u8>, r: Reaction) -> bool {
    if packet.len() < 8 {
        new == old && r.is_quiet()
    } else {
        let cur = seq![ear_status_of(packet[6]), ear_status_of(packet[7])];
        &&& new.old_ear_detection_status@ == old.ear_detection_status@
        &&& new.ear_detection_status@ == cur
        &&& new == AACPManagerState { old_ear_detection_status: new.old_ear_detection_status, ear_detection_status: new.ear_detection_status, ..old }
        &&& r.event matches Some(AACPEvent::EarDetection(p, c)) && p@ == old.ear_detection_status@ && c@ == cur
        &&& r.deliveries@.len() == 0 && !r.persist
    }
}

/// What a conversational-awareness frame does.
pub open spec fn conversation_effect(old: AACPManagerState, new: AACPManagerState, packet: Seq<u8>, r: Reaction) -> bool {
    if packet.len() != 10 {
        new == old && r.is_quiet()
    } else {
        &&& new == AACPManagerState { conversational_awareness_status: packet[9], ..old }
        &&& r.event == Some(AACPEvent::ConversationalAwareness(packet[9]))
        &&& r.deliveries@.len() == 0 && !r.persist
    }
}

/// What an audio-source payload does.
pub open spec fn audio_source_effect(old: AACPManagerState, new: AACPManagerState, payload: Seq<u8>, r: Reaction) -> bool {
    if payload.len() < 9 {
        new == old && r.is_quiet()
    } else {
        &&& new.audio_source matches Some(a) && a.mac@ == crate::mac::mac_text_of(parser::reversed_six(payload, 2))
            && a.kind == (match crate::types::audio_source_type_of(payload[8]) {
                Some(k) => k,
                None => crate::types::AudioSourceType::NoAudio,
            })
        &&& new == AACPManagerState { audio_source: new.audio_source, ..old }
        &&& r.event matches Some(AACPEvent::AudioSource(a)) && Some(a) == new.audio_source
        &&& r.deliveries@.len() == 0 && !r.persist
    }
}

/// What a connected-devices payload does: the current list becomes the previous one.
pub open spec fn connected_devices_effect(old: AACPManagerState, new: AACPManagerState, payload: Seq<u8>, r: Reaction) -> bool {
    if !connected_devices_fit(payload) {
        new == old && r.is_quiet()
    } else {
        &&& new.old_connected_devices@ == old.connected_devices@
        &&& new.connected_devices@.len() == payload[2]
        &&& forall|i: int| 0 <= i < new.connected_devices@.len() ==> device_entry_matches(payload, i, #[trigger] new.connected_devices@[i])
        &&& new == AACPManagerState { old_connected_devices: new.old_connected_devices, connected_devices: new.connected_devices, ..old }
        &&& r.event matches Some(AACPEvent::ConnectedDevices(p, c)) && p@ == old.connected_devices@ && c@ == new.connected_devices@
        &&& r.deliveries@.len() == 0 && !r.persist
    }
}

/// What a smart-routing response does: at most an event.
pub open spec fn smart_routing_effect(old: AACPManagerState, new: AACPManagerState, payload: Seq<u8>, r: Reaction) -> bool {
    &&& new == old
    &&& r.deliveries@.len() == 0 && !r.persist
    &&& if payload.len() >= 2 && occurs_from(payload, ownership_to_false_text(), 2) {
        r.event == Some(AACPEvent::OwnershipToFalseRequest)
    } else {
        r.event is None
    }
}

impl AACPManagerState {
    fn handle_battery(&mut self, payload: &[u8]) -> (r: Reaction)
        ensures
            battery_effect(*old(self), *final(self), payload@, r),
    {
        match parser::parse_battery_info(payload) {
            None => Reaction::quiet(),
            Some(list) => {
                let mut copy: Vec<BatteryInfo> = Vec::new();
                let mut i: usize = 0;
                while i < list.len()
                    invariant
                        i <= list@.len(),
                        copy@ == list@.subrange(0, i as int),
                    decreases list@.len() - i,
                {
                    copy.push(list[i]);
                    i = i + 1;
                    assert(copy@ =~= list@.subrange(0, i as int));
                }
                assert(copy@ =~= list@);
                self.battery_info = list;
                Reaction { event: Some(AACPEvent::BatteryInfo(copy)), deliveries: Vec::new(), persist: false }
            },
        }
    }

    fn handle_ear_detection(&mut self, packet: &[u8]) -> (r: Reaction)
        ensures
            ear_effect(*old(self), *final(self), packet@, r),
    {
        match parser::parse_ear_detection(packet) {
            None => Reaction::quiet(),
            Some(cur) => {
                let prev_copy = copy_ear(&self.ear_detection_status);
                let cur_copy = copy_ear(&cur);
                let mut prev = cur;
                std::mem::swap(&mut prev, &mut self.ear_detection_status);
                self.old_ear_detection_status = prev;
                Reaction { event: Some(AACPEvent::EarDetection(prev_copy, cur_copy)), deliveries: Vec::new(), persist: false }
            },
        }
    }

    fn handle_conversation_awareness(&mut self, packet: &[u8]) -> (r: Reaction)
        ensures
            conversation_effect(*old(self), *final(self), packet@, r),
    {
        match parser::parse_conversation_awareness(packet) {
            None => Reaction::quiet(),
            Some(status) => {
                self.conversational_awareness_status = status;
                Reaction { event: Some(AACPEvent::ConversationalAwareness(status)), deliveries: Vec::new(), persist: false }
            },
        }
    }

    fn handle_smart_routing_response(&mut self, payload: &[u8]) -> (r: Reaction)
        ensures
            smart_routing_effect(*old(self), *final(self), payload@, r),
    {
        if parser::asks_ownership_to_false(payload) {
            Reaction { event: Some(AACPEvent::OwnershipToFalseRequest), deliveries: Vec::new(), persist: false }
        } else {
            Reaction::quiet()
        }
    }
}

/// The eleven identity fields that an information payload gives.
pub open spec fn info_fields(payload: Seq<u8>) -> Seq<Seq<char>> {
    Seq::new(11, |k: int| parser::information_field(payload, k))
}

/// The information stored from a payload: its fields, and the keys already held, if any.
pub open spec fn merged_info(payload: Seq<u8>, held: Option<Seq<Seq<char>>>) -> Seq<Seq<char>> {
    info_fields(payload) + match held {
        Some(x) => seq![x[11], x[12]],
        None => seq![Seq::<char>::empty(), Seq::<char>::empty()],
    }
}

/// What an information payload does: the record of the current peer, if there is one, takes the
/// reported strings and keeps its keys; the records are then saved.
pub open spec fn information_effect(old: AACPManagerState, new: AACPManagerState, payload: Seq<u8>, r: Reaction) -> bool {
    if payload.len() < 6 {
        new == old && r.is_quiet()
    } else {
        let dv = devices_view(old.devices@);
        &&& new == AACPManagerState { devices: new.devices, ..old }
        &&& devices_view(new.devices@) == (match old.airpods_mac {
            Some(m) => if has_key(dv, m@) {
                let i = key_index(dv, m@);
                dv.update(i, (m@, (parser::information_field(payload, 0), dv[i].1.1, Some(merged_info(payload, dv[i].1.2)))))
            } else {
                dv
            },
            None => dv,
        })
        &&& r.event is None && r.deliveries@.len() == 0 && r.persist
    }
}

/// What a proximity-keys response does: each identity or encryption key is stored, as hex,
/// under the current peer; the records are then saved.
pub open spec fn proximity_effect(old: AACPManagerState, new: AACPManagerState, payload: Seq<u8>, r: Reaction) -> bool {
    match proximity_keys_of(payload) {
        None => new == old && r.is_quiet(),
        Some(keys) => {
            let dv = devices_view(old.devices@);
            &&& new == AACPManagerState { devices: new.devices, ..old }
            &&& devices_view(new.devices@) == (match old.airpods_mac {
                Some(m) => apply_keys(dv, m@, keys, keys.len()),
                None => dv,
            })
            &&& r.event is None && r.deliveries@.len() == 0 && r.persist
        },
    }
}

fn copy_device(d: &ConnectedDevice) -> (r: ConnectedDevice)
    ensures
        r == *d,
{
    ConnectedDevice {
        mac: d.mac.clone(),
        info1: d.info1,
        info2: d.info2,
        kind: match &d.kind {
            Some(k) => Some(k.clone()),
            None => None,
        },
    }
}

fn copy_devices(v: &Vec<ConnectedDevice>) -> (r: Vec<ConnectedDevice>)
    ensures
        r@ == v@,
{
    let mut r: Vec<ConnectedDevice> = Vec::new();
    let mut i: usize = 0;
    while i < v.len()
        invariant
            i <= v@.len(),
            r@ == v@.subrange(0, i as int),
        decreases v@.len() - i,
    {
        r.push(copy_device(&v[i]));
        i = i + 1;
        assert(r@ =~= v@.subrange(0, i as int));
    }
    assert(r@ =~= v@);
    r
}

impl AACPManagerState {
    fn handle_control_command(&mut self, payload: &[u8]) -> (r: Reaction)
        requires
            old(self).wf(),
        ensures
            final(self).wf(),
            control_effect(*old(self), *final(self), payload@, r),
    {
        let (id_byte, bytes) = match parser::parse_control_command(payload) {
            None => return Reaction::quiet(),
            Some(c) => c,
        };
        let id = match ControlCommandIdentifiers::from_u8(id_byte) {
            None => return Reaction::quiet(),
            Some(id) => id,
        };
        let value = parser::trim_control_value(bytes.as_slice());
        let ghost v = value@;
        let ghost sv = shadow_view(self.control_command_status_list@);
        let mut i: usize = 0;
        while i < self.control_command_status_list.len() && self.control_command_status_list[i].identifier != id
            invariant
                i <= self.control_command_status_list@.len(),
                sv == shadow_view(self.control_command_status_list@),
                forall|j: int| 0 <= j < i ==> #[trigger] sv[j].0 != id,
            decreases self.control_command_status_list@.len() - i,
        {
            assert(sv[i as int].0 == self.control_command_status_list@[i as int].identifier);
            i = i + 1;
        }
        if i < self.control_command_status_list.len() {
            let mut st = self.control_command_status_list.remove(i);
            st.value = copy_bytes(&value);
            self.control_command_status_list.insert(i, st);
            assert(sv[i as int].0 == id);
            assert(shadow_index(sv, id) == i) by {
                let k = shadow_index(sv, id);
                assert(0 <= k < sv.len() && sv[k].0 == id);
            }
            assert(shadow_view(self.control_command_status_list@) =~= shadow_set(sv, id, v));
        } else {
            assert(!shadow_has(sv, id));
            self.control_command_status_list.push(ControlCommandStatus { identifier: id, value: copy_bytes(&value) });
            assert(shadow_view(self.control_command_status_list@) =~= shadow_set(sv, id, v));
        }
        if id == ControlCommandIdentifiers::OwnsConnection {
            self.owns = bytes[0] != 0;
        }
        let mut deliveries: Vec<(u64, Vec<u8>)> = Vec::new();
        let mut k: usize = 0;
        while k < self.control_command_subscribers.len()
            invariant
                k <= self.control_command_subscribers@.len(),
                self.control_command_subscribers == old(self).control_command_subscribers,
                value@ == v,
                deliveries_view(deliveries@) == deliveries_for(self.control_command_subscribers@.subrange(0, k as int), id, v),
            decreases self.control_command_subscribers@.len() - k,
        {
            let ghost subs = self.control_command_subscribers@;
            assert(subs.subrange(0, k + 1 as int).drop_last() =~= subs.subrange(0, k as int));
            let (sid, sub) = self.control_command_subscribers[k];
            if sid == id {
                let ghost before = deliveries_view(deliveries@);
                deliveries.push((sub, copy_bytes(&value)));
                assert(deliveries_view(deliveries@) =~= before.push((sub, v)));
            }
            k = k + 1;
        }
        assert(self.control_command_subscribers@.subrange(0, k as int) =~= self.control_command_subscribers@);
        let event = AACPEvent::ControlCommand(ControlCommandStatus { identifier: id, value });
        Reaction { event: Some(event), deliveries, persist: false }
    }

    fn handle_audio_source(&mut self, payload: &[u8]) -> (r: Reaction)
        ensures
            audio_source_effect(*old(self), *final(self), payload@, r),
    {
        match parser::parse_audio_source(payload) {
            None => Reaction::quiet(),
            Some(a) => {
                let copy = AudioSource { mac: a.mac.clone(), kind: a.kind };
                self.audio_source = Some(a);
                Reaction { event: Some(AACPEvent::AudioSource(copy)), deliveries: Vec::new(), persist: false }
            },
        }
    }

    fn handle_connected_devices(&mut self, payload: &[u8]) -> (r: Reaction)
        ensures
            connected_devices_effect(*old(self), *final(self), payload@, r),
    {
        match parser::parse_connected_devices(payload) {
            None => Reaction::quiet(),
            Some(list) => {
                let prev_copy = copy_devices(&self.connected_devices);
                let cur_copy = copy_devices(&list);
                let mut prev = list;
                std::mem::swap(&mut prev, &mut self.connected_devices);
                self.old_connected_devices = prev;
                Reaction { event: Some(AACPEvent::ConnectedDevices(prev_copy, cur_copy)), deliveries: Vec::new(), persist: false }
            },
        }
    }

    fn handle_information(&mut self, payload: &[u8]) -> (r: Reaction)
        requires
            old(self).wf(),
        ensures
            final(self).wf(),
            information_effect(*old(self), *final(self), payload@, r),
    {
        let mut info = match parser::parse_information(payload) {
            None => return Reaction::quiet(),
            Some(info) => info,
        };
        let ghost dv = devices_view(self.devices@);
        let ghost fields = info_view(info);
        assert(fields.subrange(0, 11) =~= info_fields(payload@));
        if let Some(mac) = &self.airpods_mac {
            if let Some(i) = find_device(&self.devices, mac) {
                let (key, mut d) = self.devices.remove(i);
                let ghost held = device_view(d).2;
                match d.information {
                    Some(DeviceInformation::AirPods(prev)) => {
                        info.le_keys = prev.le_keys;
                    },
                    None => {},
                }
                assert(info_view(info) =~= merged_info(payload@, held));
                d.name = info.name.clone();
                d.information = Some(DeviceInformation::AirPods(info));
                self.devices.insert(i, (key, d));
                assert(dv[i as int].0 == mac@);
                assert(key_index(dv, mac@) == i) by {
                    let k = key_index(dv, mac@);
                    assert(0 <= k < dv.len() && dv[k].0 == mac@);
                }
                assert(devices_view(self.devices@) =~= dv.update(i as int, (mac@, (parser::information_field(payload@, 0), dv[i as int].1.1, Some(merged_info(payload@, dv[i as int].1.2))))));
            }
        }
        Reaction { event: None, deliveries: Vec::new(), persist: true }
    }

    fn handle_proximity_keys(&mut self, payload: &[u8]) -> (r: Reaction)
        requires
            old(self).wf(),
        ensures
            final(self).wf(),
            proximity_effect(*old(self), *final(self), payload@, r),
    {
        let keys = match parser::parse_proximity_keys(payload) {
            None => return Reaction::quiet(),
            Some(keys) => keys,
        };
        let ghost kv = key_views(keys@);
        let ghost dv = devices_view(self.devices@);
        if let Some(mac) = &self.airpods_mac {
            let mut i: usize = 0;
            while i < keys.len()
                invariant
                    i <= keys@.len(),
                    kv == key_views(keys@),
                    *self == (AACPManagerState { devices: self.devices, ..*old(self) }),
                    old(self).airpods_mac == Some(*mac),
                    keys_unique(devices_view(self.devices@)),
                    devices_view(self.devices@) == apply_keys(dv, mac@, kv, i as nat),
                decreases keys@.len() - i,
            {
                assert(kv[i as int] == (keys@[i as int].0, keys@[i as int].1@));
                match ProximityKeyType::from_u8(keys[i].0) {
                    Some(kind) => {
                        store_key(&mut self.devices, mac, kind, keys[i].1.as_slice());
                    },
                    None => {},
                }
                i = i + 1;
            }
        }
        Reaction { event: None, deliveries: Vec::new(), persist: true }
    }
}

/// What a received buffer does to the state, and what it asks of the host, by its opcode.
pub open spec fn received(old: AACPManagerState, new: AACPManagerState, packet: Seq<u8>, r: Reaction) -> bool {
    if !codec::is_frame(packet) {
        new == old && r.is_quiet()
    } else {
        let payload = payload_of(packet);
        let op = packet[4];
        if op == opcodes::BATTERY_INFO {
            battery_effect(old, new, payload, r)
        } else if op == opcodes::CONTROL_COMMAND {
            control_effect(old, new, payload, r)
        } else if op == opcodes::EAR_DETECTION {
            ear_effect(old, new, packet, r)
        } else if op == opcodes::CONVERSATION_AWARENESS {
            conversation_effect(old, new, packet, r)
        } else if op == opcodes::INFORMATION {
            information_effect(old, new, payload, r)
        } else if op == opcodes::PROXIMITY_KEYS_RSP {
            proximity_effect(old, new, payload, r)
        } else if op == opcodes::AUDIO_SOURCE {
            audio_source_effect(old, new, payload, r)
        } else if op == opcodes::CONNECTED_DEVICES {
            connected_devices_effect(old, new, payload, r)
        } else if op == opcodes::SMART_ROUTING_RESP {
            smart_routing_effect(old, new, payload, r)
        } else {
            new == old && r.is_quiet()
        }
    }
}

/// The state after the receive loop ends: on a read error the ownership flag, the connected
/// devices and the control-command shadow are cleared; either way the queue is closed.
pub open spec fn ended(old: AACPManagerState, new: AACPManagerState, read_error: bool) -> bool {
    &&& !new.connected
    &&& if read_error {
        &&& !new.owns
        &&& new.connected_devices@.len() == 0
        &&& new.control_command_status_list@.len() == 0
        &&& new == AACPManagerState {
            connected: false,
            owns: false,
            connected_devices: new.connected_devices,
            control_command_status_list: new.control_command_status_list,
            ..old
        }
    } else {
        new == AACPManagerState { connected: false, ..old }
    }
}

impl AACPManagerState {
    /// Parses one received buffer and applies it to the state.
    pub fn receive_packet(&mut self, packet: &[u8]) -> (r: Reaction)
        requires
            old(self).wf(),
        ensures
            final(self).wf(),
            received(*old(self), *final(self), packet@, r),
    {
        if !parser::is_frame(packet) {
            return Reaction::quiet();
        }
        let opcode = packet[4];
        let mut payload: Vec<u8> = Vec::new();
        let mut i: usize = 4;
        while i < packet.len()
            invariant
                4 <= i <= packet@.len(),
                payload@ == packet@.subrange(4, i as int),
            decreases packet@.len() - i,
        {
            payload.push(packet[i]);
            i = i + 1;
            assert(payload@ =~= packet@.subrange(4, i as int));
        }
        let p = payload.as_slice();
        if opcode == opcodes::BATTERY_INFO {
            self.handle_battery(p)
        } else if opcode == opcodes::CONTROL_COMMAND {
            self.handle_control_command(p)
        } else if opcode == opcodes::EAR_DETECTION {
            self.handle_ear_detection(packet)
        } else if opcode == opcodes::CONVERSATION_AWARENESS {
            self.handle_conversation_awareness(packet)
        } else if opcode == opcodes::INFORMATION {
            self.handle_information(p)
        } else if opcode == opcodes::PROXIMITY_KEYS_RSP {
            self.handle_proximity_keys(p)
        } else if opcode == opcodes::AUDIO_SOURCE {
            self.handle_audio_source(p)
        } else if opcode == opcodes::CONNECTED_DEVICES {
            self.handle_connected_devices(p)
        } else if opcode == opcodes::SMART_ROUTING_RESP {
            self.handle_smart_routing_response(p)
        } else {
            Reaction::quiet()
        }
    }

    /// Applies the end of the receive loop, as `ended` says.
    pub fn receive_ended(&mut self, read_error: bool)
        requires
            old(self).wf(),
        ensures
            final(self).wf(),
            ended(*old(self), *final(self), read_error),
    {
        if read_error {
            self.owns = false;
            self.connected_devices.clear();
            self.control_command_status_list.clear();
            assert(shadow_view(self.control_command_status_list@) =~= Seq::empty());
        }
        self.connected = false;
    }

    /// Records the peer of a new session.
    pub fn set_peer(&mut self, mac: String)
        ensures
            *final(self) == (AACPManagerState { airpods_mac: Some(mac), ..*old(self) }),
    {
        self.airpods_mac = Some(mac);
    }

    /// Marks the outbound queue as open.
    pub fn set_connected(&mut self)
        ensures
            *final(self) == (AACPManagerState { connected: true, ..*old(self) }),
    {
        self.connected = true;
    }

    /// Admits an outbound packet only while the queue is open.
    pub fn outbound(&self, packet: Vec<u8>) -> (r: Result<Vec<u8>, AacpError>)
        ensures
            self.connected ==> r == Ok::<Vec<u8>, AacpError>(packet),
            !self.connected ==> r == Err::<Vec<u8>, AacpError>(AacpError::NotConnected),
    {
        if self.connected {
            Ok(packet)
        } else {
            Err(AacpError::NotConnected)
        }
    }

    /// Adds `subscriber` for `identifier` and gives back the value held now, to be delivered
    /// to it first.
    pub fn subscribe_to_control_command(&mut self, identifier: ControlCommandIdentifiers, subscriber: u64) -> (r: Option<Vec<u8>>)
        requires
            old(self).wf(),
        ensures
            final(self).wf(),
            *final(self) == (AACPManagerState { control_command_subscribers: final(self).control_command_subscribers, ..*old(self) }),
            final(self).control_command_subscribers@ == old(self).control_command_subscribers@.push((identifier, subscriber)),
            match r {
                Some(v) => shadow_lookup(shadow_view(old(self).control_command_status_list@), identifier) == Some(v@),
                None => shadow_lookup(shadow_view(old(self).control_command_status_list@), identifier) is None,
            },
    {
        let r = lookup_control(&self.control_command_status_list, identifier);
        self.control_command_subscribers.push((identifier, subscriber));
        r
    }
}

/// The value held for `identifier`, copied.
fn lookup_control(list: &Vec<ControlCommandStatus>, identifier: ControlCommandIdentifiers) -> (r: Option<Vec<u8>>)
    requires
        shadow_unique(shadow_view(list@)),
    ensures
        match r {
            Some(v) => shadow_lookup(shadow_view(list@), identifier) == Some(v@),
            None => shadow_lookup(shadow_view(list@), identifier) is None,
        },
{
    let ghost sv = shadow_view(list@);
    let mut i: usize = 0;
    while i < list.len()
        invariant
            i <= list@.len(),
            sv == shadow_view(list@),
            shadow_unique(sv),
            forall|j: int| 0 <= j < i ==> #[trigger] sv[j].0 != identifier,
        decreases list@.len() - i,
    {
        assert(sv[i as int].0 == list@[i as int].identifier);
        if list[i].identifier == identifier {
            assert(shadow_index(sv, identifier) == i) by {
                let k = shadow_index(sv, identifier);
                assert(0 <= k < sv.len() && sv[k].0 == identifier);
            }
            return Some(copy_bytes(&list[i].value));
        }
        i = i + 1;
    }
    None
}

fn copy_ear(v: &Vec<EarDetectionStatus>) -> (r: Vec<EarDetectionStatus>)
    ensures
        r@ == v@,
{
    let mut r: Vec<EarDetectionStatus> = Vec::new();
    let mut i: usize = 0;
    while i < v.len()
        invariant
            i <= v@.len(),
            r@ == v@.subrange(0, i as int),
        decreases v@.len() - i,
    {
        r.push(v[i]);
        i = i + 1;
        assert(r@ =~= v@.subrange(0, i as int));
    }
    assert(r@ =~= v@);
    r
}

} // verus!
