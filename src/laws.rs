use vstd::prelude::*;
use vstd::string::StringSliceAdditionalSpecFns;
use crate::codec::{command_packet, four_value_bytes, header, is_frame, key_mask};
use crate::opcodes;
use crate::parser::{connected_devices_fit, payload_of, trimmed_value};
use crate::session::{
    deliveries_for, deliveries_view, ended, received, shadow_has, shadow_index, shadow_lookup, shadow_set,
    shadow_unique, shadow_view, AACPManagerState, Reaction,
};
use crate::types::{control_id_byte, control_id_of, lemma_control_id_round_trip, ControlCommandIdentifiers, ProximityKeyType};

verus! {

/// A control-command frame, read back, gives the identifier that was encoded and the value
/// bytes that were sent.
pub proof fn lemma_control_command_round_trip(id: ControlCommandIdentifiers, value: Seq<u8>)
    ensures
        ({
            let p = command_packet(opcodes::CONTROL_COMMAND, seq![control_id_byte(id)] + four_value_bytes(value));
            &&& is_frame(p)
            &&& p[4] == opcodes::CONTROL_COMMAND
            &&& payload_of(p).len() >= 7
            &&& control_id_of(payload_of(p)[2]) == Some(id)
            &&& payload_of(p).subrange(3, 7) == four_value_bytes(value)
        }),
{
    let p = command_packet(opcodes::CONTROL_COMMAND, seq![control_id_byte(id)] + four_value_bytes(value));
    lemma_control_id_round_trip(id);
    assert(p.subrange(0, 4) =~= header());
    assert(payload_of(p).subrange(3, 7) =~= four_value_bytes(value));
}

/// A rename frame carries the name's length at payload byte 2 and the name from payload byte 4.
pub proof fn lemma_rename_round_trip(name: &str)
    ensures
        ({
            let n = name.spec_bytes();
            let p = command_packet(opcodes::RENAME, seq![n.len() as u8, 0x00u8] + n);
            &&& is_frame(p)
            &&& p[4] == opcodes::RENAME
            &&& payload_of(p)[2] == n.len() as u8
            &&& payload_of(p).subrange(4, payload_of(p).len() as int) == n
        }),
{
    let n = name.spec_bytes();
    let p = command_packet(opcodes::RENAME, seq![n.len() as u8, 0x00u8] + n);
    assert(p.subrange(0, 4) =~= header());
    assert(payload_of(p).subrange(4, payload_of(p).len() as int) =~= n);
}

/// A proximity-keys request carries the or of the requested kinds at payload byte 2.
pub proof fn lemma_proximity_request_round_trip(kinds: Seq<ProximityKeyType>)
    ensures
        ({
            let p = command_packet(opcodes::PROXIMITY_KEYS_REQ, seq![key_mask(kinds), 0x00u8]);
            &&& is_frame(p)
            &&& p[4] == opcodes::PROXIMITY_KEYS_REQ
            &&& payload_of(p) == seq![opcodes::PROXIMITY_KEYS_REQ, 0x00u8, key_mask(kinds), 0x00u8]
        }),
{
    let p = command_packet(opcodes::PROXIMITY_KEYS_REQ, seq![key_mask(kinds), 0x00u8]);
    assert(p.subrange(0, 4) =~= header());
    assert(payload_of(p) =~= seq![opcodes::PROXIMITY_KEYS_REQ, 0x00u8, key_mask(kinds), 0x00u8]);
}

/// Setting a value keeps one entry per identifier and leaves that value stored.
pub proof fn lemma_shadow_set(s: Seq<(ControlCommandIdentifiers, Seq<u8>)>, id: ControlCommandIdentifiers, v: Seq<u8>)
    requires
        shadow_unique(s),
    ensures
        shadow_unique(shadow_set(s, id, v)),
        shadow_lookup(shadow_set(s, id, v), id) == Some(v),
{
    let t = shadow_set(s, id, v);
    if shadow_has(s, id) {
        let i = shadow_index(s, id);
        assert(t[i].0 == id);
        assert(shadow_has(t, id));
        let k = shadow_index(t, id);
        assert(t[k].0 == id);
    } else {
        assert(t[s.len() as int].0 == id);
        assert(shadow_has(t, id));
        let k = shadow_index(t, id);
        assert(t[k].0 == id);
    }
}

/// After a control-command frame with a known identifier, the shadow holds one entry per
/// identifier, and the entry for that identifier is the trimmed form of the four value bytes.
pub proof fn lemma_control_command_shadow(old: AACPManagerState, new: AACPManagerState, packet: Seq<u8>, r: Reaction)
    requires
        old.wf(),
        received(old, new, packet, r),
        is_frame(packet),
        packet[4] == opcodes::CONTROL_COMMAND,
        packet.len() >= 11,
        control_id_of(packet[6]) is Some,
    ensures
        shadow_unique(shadow_view(new.control_command_status_list@)),
        shadow_lookup(shadow_view(new.control_command_status_list@), control_id_of(packet[6])->0)
            == Some(trimmed_value(packet.subrange(7, 11))),
{
    assert(payload_of(packet).subrange(3, 7) =~= packet.subrange(7, 11));
    lemma_shadow_set(shadow_view(old.control_command_status_list@), control_id_of(packet[6])->0, trimmed_value(packet.subrange(7, 11)));
}

/// After an ownership control command, the ownership flag is whether its first value byte is
/// non-zero.
pub proof fn lemma_ownership_follows_value(old: AACPManagerState, new: AACPManagerState, packet: Seq<u8>, r: Reaction)
    requires
        received(old, new, packet, r),
        is_frame(packet),
        packet[4] == opcodes::CONTROL_COMMAND,
        packet.len() >= 11,
        packet[6] == 0x06u8,
    ensures
        new.owns == (packet[7] != 0),
{
    lemma_control_id_round_trip(ControlCommandIdentifiers::OwnsConnection);
}

/// After an ear-detection update the previous pair is as long as the current one was before.
pub proof fn lemma_ear_detection_history(old: AACPManagerState, new: AACPManagerState, packet: Seq<u8>, r: Reaction)
    requires
        received(old, new, packet, r),
        is_frame(packet),
        packet[4] == opcodes::EAR_DETECTION,
        packet.len() >= 8,
    ensures
        new.old_ear_detection_status@.len() == old.ear_detection_status@.len(),
{
}

/// After a connected-devices update the previous list is as long as the current one was before.
pub proof fn lemma_connected_devices_history(old: AACPManagerState, new: AACPManagerState, packet: Seq<u8>, r: Reaction)
    requires
        received(old, new, packet, r),
        is_frame(packet),
        packet[4] == opcodes::CONNECTED_DEVICES,
        connected_devices_fit(payload_of(packet)),
    ensures
        new.old_connected_devices@.len() == old.connected_devices@.len(),
{
}

/// When the receive loop ends on a read error, ownership is cleared and the connected devices
/// and the control-command shadow are empty.
pub proof fn lemma_read_error_clears(old: AACPManagerState, new: AACPManagerState)
    requires
        ended(old, new, true),
    ensures
        !new.owns,
        new.connected_devices@.len() == 0,
        new.control_command_status_list@.len() == 0,
{
}

/// A subscriber's pair appears in an update's deliveries once for each of its subscriptions:
/// none without one, and one more for each one added.
pub proof fn lemma_deliveries_follow_subscriptions(subs: Seq<(ControlCommandIdentifiers, u64)>, id: ControlCommandIdentifiers, sub: u64, v: Seq<u8>)
    ensures
        deliveries_for(subs.push((id, sub)), id, v) == deliveries_for(subs, id, v).push((sub, v)),
        !subs.contains((id, sub)) ==> !deliveries_for(subs, id, v).contains((sub, v)),
        subs.contains((id, sub)) ==> deliveries_for(subs, id, v).contains((sub, v)),
    decreases subs.len(),
{
    assert(subs.push((id, sub)).drop_last() =~= subs);
    if subs.len() > 0 {
        let rest = subs.drop_last();
        lemma_deliveries_follow_subscriptions(rest, id, sub, v);
        let before = deliveries_for(rest, id, v);
        if subs.contains((id, sub)) {
            let k = choose|k: int| 0 <= k < subs.len() && subs[k] == (id, sub);
            if k == subs.len() - 1 {
                assert(deliveries_for(subs, id, v) == before.push((sub, v)));
                assert(deliveries_for(subs, id, v)[before.len() as int] == (sub, v));
            } else {
                assert(rest[k] == (id, sub));
                let j = choose|j: int| 0 <= j < before.len() && before[j] == (sub, v);
                assert(deliveries_for(subs, id, v)[j] == (sub, v));
            }
        } else {
            assert forall|k: int| 0 <= k < rest.len() implies rest[k] != (id, sub) by {
                assert(rest[k] == subs[k]);
            }
            assert(!rest.contains((id, sub)));
            assert(subs.last() != (id, sub)) by {
                assert(subs[subs.len() - 1] == subs.last());
            }
            if subs.last().0 == id {
                assert(subs.last().1 != sub);
                assert forall|j: int| 0 <= j < deliveries_for(subs, id, v).len() implies deliveries_for(subs, id, v)[j] != (sub, v) by {
                    if j < before.len() {
                        assert(!before.contains((sub, v)));
                    }
                }
            }
        }
    }
}

/// A subscriber added just before a control-command update for its identifier is handed that
/// update's value exactly once: as the last delivery, and in none before it.
pub proof fn lemma_subscribe_then_update(
    subs: Seq<(ControlCommandIdentifiers, u64)>,
    sub: u64,
    s1: AACPManagerState,
    s2: AACPManagerState,
    packet: Seq<u8>,
    r: Reaction,
)
    requires
        !subs.contains((control_id_of(packet[6])->0, sub)),
        s1.control_command_subscribers@ == subs.push((control_id_of(packet[6])->0, sub)),
        received(s1, s2, packet, r),
        is_frame(packet),
        packet[4] == opcodes::CONTROL_COMMAND,
        packet.len() >= 11,
        control_id_of(packet[6]) is Some,
    ensures
        deliveries_view(r.deliveries@).len() > 0,
        deliveries_view(r.deliveries@).last() == (sub, trimmed_value(packet.subrange(7, 11))),
        !deliveries_view(r.deliveries@).drop_last().contains((sub, trimmed_value(packet.subrange(7, 11)))),
{
    let id = control_id_of(packet[6])->0;
    let v = trimmed_value(packet.subrange(7, 11));
    assert(payload_of(packet).subrange(3, 7) =~= packet.subrange(7, 11));
    lemma_deliveries_follow_subscriptions(subs, id, sub, v);
    assert(deliveries_for(subs, id, v).push((sub, v)).drop_last() =~= deliveries_for(subs, id, v));
}

/// A value set before a subscription is what the subscription is handed first.
pub proof fn lemma_update_then_subscribe(s: Seq<(ControlCommandIdentifiers, Seq<u8>)>, id: ControlCommandIdentifiers, v: Seq<u8>)
    requires
        shadow_unique(s),
    ensures
        shadow_lookup(shadow_set(s, id, v), id) == Some(v),
{
    lemma_shadow_set(s, id, v);
}

} // verus!
