use vstd::prelude::*;
use vstd::string::StringSliceAdditionalSpecFns;
use vstd::utf8::is_ascii_chars;
use crate::opcodes;
use crate::mac::{is_mac_text, mac_octets, parse_mac};
use crate::types::{control_id_byte, AacpError, proximity_key_byte, ControlCommandIdentifiers, ProximityKeyType};

verus! {


/// The prefix of every data packet.
pub open spec fn header() -> Seq<u8> {
    seq![0x04u8, 0x00u8, 0x04u8, 0x00u8]
}

/// A received buffer is a frame when it starts with the header and holds an opcode.
pub open spec fn is_frame(p: Seq<u8>) -> bool {
    p.len() >= 5 && p.subrange(0, 4) == header()
}

/// A command frame: header, opcode, a zero byte, then the body.
pub open spec fn command_packet(opcode: u8, body: Seq<u8>) -> Seq<u8> {
    header() + seq![opcode, 0x00u8] + body
}

/// `s` followed by zero bytes up to length `n` (unchanged when already that long).
pub open spec fn pad_to(s: Seq<u8>, n: nat) -> Seq<u8> {
    if s.len() < n {
        s + Seq::new((n - s.len()) as nat, |i: int| 0u8)
    } else {
        s
    }
}

/// Byte `i` of `v`, or zero past its end.
pub open spec fn byte_or_zero(v: Seq<u8>, i: int) -> u8 {
    if 0 <= i < v.len() {
        v[i]
    } else {
        0u8
    }
}

/// The four value bytes of a control command: `v` cut or zero-padded to four.
pub open spec fn four_value_bytes(v: Seq<u8>) -> Seq<u8> {
    seq![byte_or_zero(v, 0), byte_or_zero(v, 1), byte_or_zero(v, 2), byte_or_zero(v, 3)]
}

/// Bitwise or of the wire bytes of the requested key kinds.
pub open spec fn key_mask(ks: Seq<ProximityKeyType>) -> u8
    decreases ks.len(),
{
    if ks.len() == 0 {
        0u8
    } else {
        key_mask(ks.drop_last()) | proximity_key_byte(ks.last())
    }
}

/// Appends `bytes` to `buf`.
pub fn push_bytes(buf: &mut Vec<u8>, bytes: &[u8])
    ensures
        final(buf)@ == old(buf)@ + bytes@,
{
    let mut i: usize = 0;
    while i < bytes.len()
        invariant
            i <= bytes@.len(),
            buf@ == old(buf)@ + bytes@.subrange(0, i as int),
        decreases bytes@.len() - i,
    {
        buf.push(bytes[i]);
        i = i + 1;
        assert(bytes@.subrange(0, i as int) == bytes@.subrange(0, i - 1 as int).push(bytes@[i - 1]));
    }
    assert(bytes@.subrange(0, i as int) == bytes@);
}

/// Appends one byte to `buf`.
pub fn push_byte(buf: &mut Vec<u8>, b: u8)
    ensures
        final(buf)@ == old(buf)@ + seq![b],
{
    buf.push(b);
    assert(buf@ =~= old(buf)@ + seq![b]);
}

/// Appends zero bytes to `buf` until it is `n` long.
pub fn pad_with_zeros(buf: &mut Vec<u8>, n: usize)
    ensures
        final(buf)@ == pad_to(old(buf)@, n as nat),
{
    let ghost start = buf@;
    while buf.len() < n
        invariant
            start.len() <= buf@.len() || buf@ == start,
            buf@.len() <= n || buf@ == start,
            buf@.subrange(0, start.len() as int) == start,
            forall|i: int| start.len() <= i < buf@.len() ==> buf@[i] == 0u8,
        decreases n - buf@.len(),
    {
        buf.push(0u8);
    }
    proof {
        if start.len() < n {
            assert(buf@ =~= start + Seq::new((n - start.len()) as nat, |i: int| 0u8));
        } else {
            assert(buf@ =~= start);
        }
    }
}

/// Prepends the header to `data`.
pub fn frame_data_packet(data: &[u8]) -> (r: Vec<u8>)
    ensures
        r@ == header() + data@,
{
    let mut r: Vec<u8> = Vec::new();
    r.push(0x04u8);
    r.push(0x00u8);
    r.push(0x04u8);
    r.push(0x00u8);
    assert(r@ == header());
    push_bytes(&mut r, data);
    r
}

/// A frame that `body` follows after the header, the opcode and a zero byte.
fn command_frame(opcode: u8, body: &[u8]) -> (r: Vec<u8>)
    ensures
        r@ == command_packet(opcode, body@),
{
    let mut r: Vec<u8> = Vec::new();
    r.push(0x04u8);
    r.push(0x00u8);
    r.push(0x04u8);
    r.push(0x00u8);
    r.push(opcode);
    r.push(0x00u8);
    assert(r@ == header() + seq![opcode, 0x00u8]);
    push_bytes(&mut r, body);
    r
}

/// The opening handshake, sent as it stands, without the header.
pub fn encode_handshake() -> (r: Vec<u8>)
    ensures
        r@ == seq![0x00u8, 0x00, 0x04, 0x00, 0x01, 0x00, 0x02, 0x00, 0x00, 0x00, 0x00, 0x00, 0x00, 0x00, 0x00, 0x00],
{
    let mut r: Vec<u8> = Vec::new();
    r.push(0x00u8);
    r.push(0x00u8);
    r.push(0x04u8);
    r.push(0x00u8);
    r.push(0x01u8);
    r.push(0x00u8);
    r.push(0x02u8);
    r.push(0x00u8);
    pad_with_zeros(&mut r, 16);
    assert(r@ =~= seq![0x00u8, 0x00, 0x04, 0x00, 0x01, 0x00, 0x02, 0x00, 0x00, 0x00, 0x00, 0x00, 0x00, 0x00, 0x00, 0x00]);
    r
}

/// Sets the feature flags: the body is `FF` and seven zero bytes.
pub fn encode_set_feature_flags() -> (r: Vec<u8>)
    ensures
        r@ == command_packet(opcodes::SET_FEATURE_FLAGS, seq![0xFFu8, 0, 0, 0, 0, 0, 0, 0]),
{
    let body: [u8; 8] = [0xFF, 0, 0, 0, 0, 0, 0, 0];
    command_frame(opcodes::SET_FEATURE_FLAGS, body.as_slice())
}

/// Asks for every notification: the body is four `FF` bytes.
pub fn encode_notification_request() -> (r: Vec<u8>)
    ensures
        r@ == command_packet(opcodes::REQUEST_NOTIFICATIONS, seq![0xFFu8, 0xFF, 0xFF, 0xFF]),
{
    let body: [u8; 4] = [0xFF, 0xFF, 0xFF, 0xFF];
    command_frame(opcodes::REQUEST_NOTIFICATIONS, body.as_slice())
}

/// The probe sent under opcode `0x29`: eight `FF` bytes.
pub fn encode_ssl_probe() -> (r: Vec<u8>)
    ensures
        r@ == command_packet(opcodes::SSL, seq![0xFFu8, 0xFF, 0xFF, 0xFF, 0xFF, 0xFF, 0xFF, 0xFF]),
{
    let body: [u8; 8] = [0xFF, 0xFF, 0xFF, 0xFF, 0xFF, 0xFF, 0xFF, 0xFF];
    command_frame(opcodes::SSL, body.as_slice())
}

/// Requests the given proximity keys: the or of their kinds, then a zero byte.
pub fn encode_proximity_keys_request(key_types: &Vec<ProximityKeyType>) -> (r: Vec<u8>)
    ensures
        r@ == command_packet(opcodes::PROXIMITY_KEYS_REQ, seq![key_mask(key_types@), 0x00u8]),
{
    let mut mask: u8 = 0;
    let mut i: usize = 0;
    while i < key_types.len()
        invariant
            i <= key_types@.len(),
            mask == key_mask(key_types@.subrange(0, i as int)),
        decreases key_types@.len() - i,
    {
        assert(key_types@.subrange(0, i + 1 as int).drop_last() == key_types@.subrange(0, i as int));
        mask = mask | key_types[i].to_u8();
        i = i + 1;
    }
    assert(key_types@.subrange(0, i as int) == key_types@);
    let body: [u8; 2] = [mask, 0x00];
    command_frame(opcodes::PROXIMITY_KEYS_REQ, body.as_slice())
}

/// Renames the device: the name's length as a byte, a zero byte, then the name.
pub fn encode_rename(name: &str) -> (r: Vec<u8>)
    ensures
        r@ == command_packet(
            opcodes::RENAME,
            seq![name.spec_bytes().len() as u8, 0x00u8] + name.spec_bytes(),
        ),
{
    let bytes = name.as_bytes();
    let mut body: Vec<u8> = Vec::new();
    body.push(bytes.len() as u8);
    body.push(0x00u8);
    push_bytes(&mut body, bytes);
    command_frame(opcodes::RENAME, body.as_slice())
}

/// Sets a control command: its identifier byte, then `value` cut or padded to four bytes.
pub fn encode_control_command(identifier: ControlCommandIdentifiers, value: &[u8]) -> (r: Vec<u8>)
    ensures
        r@ == command_packet(
            opcodes::CONTROL_COMMAND,
            seq![control_id_byte(identifier)] + four_value_bytes(value@),
        ),
{
    let mut body: Vec<u8> = Vec::new();
    body.push(identifier.to_u8());
    let mut i: usize = 0;
    while i < 4
        invariant
            i <= 4,
            body@.len() == 1 + i,
            body@[0] == control_id_byte(identifier),
            forall|j: int| 0 <= j < i ==> body@[1 + j] == byte_or_zero(value@, j),
        decreases 4 - i,
    {
        let b: u8 = if i < value.len() { value[i] } else { 0u8 };
        body.push(b);
        i = i + 1;
    }
    assert(body@ =~= seq![control_id_byte(identifier)] + four_value_bytes(value@));
    command_frame(opcodes::CONTROL_COMMAND, body.as_slice())
}

/// A literal of ASCII characters takes one byte per character.
proof fn lemma_text_len(s: &str)
    requires
        is_ascii_chars(s@),
    ensures
        s.spec_bytes().len() == s@.len(),
{
    vstd::string::is_ascii_spec_bytes(s);
}

/// The six octets in the opposite order.
pub open spec fn reversed_octets(o: Seq<u8>) -> Seq<u8> {
    Seq::new(6, |i: int| o[5 - i])
}

/// A smart-routing frame: the target's octets reversed, the variant's bytes, zero padding to `n`.
pub open spec fn smart_routing_packet(target: Seq<u8>, rest: Seq<u8>, n: nat) -> Seq<u8> {
    command_packet(opcodes::SMART_ROUTING, pad_to(reversed_octets(target) + rest, n))
}

/// Frames `rest` after the reversed target address; fails on a malformed address.
fn smart_routing_frame(target_mac: &str, rest: &Vec<u8>, n: usize) -> (r: Result<Vec<u8>, AacpError>)
    ensures
        !is_mac_text(target_mac.spec_bytes()) ==> r == Err::<Vec<u8>, AacpError>(AacpError::InvalidAddress),
        is_mac_text(target_mac.spec_bytes()) ==> (r matches Ok(p) && p@ == smart_routing_packet(
            mac_octets(target_mac.spec_bytes()),
            rest@,
            n as nat,
        )),
{
    match parse_mac(target_mac) {
        None => Err(AacpError::InvalidAddress),
        Some(o) => {
            let mut body: Vec<u8> = Vec::new();
            let mut k: usize = 6;
            while k > 0
                invariant
                    o@.len() == 6,
                    k <= 6,
                    body@.len() == 6 - k,
                    forall|i: int| 0 <= i < 6 - k ==> #[trigger] body@[i] == o@[5 - i],
                decreases k,
            {
                k = k - 1;
                body.push(o[k]);
            }
            assert(body@ =~= reversed_octets(o@));
            push_bytes(&mut body, rest.as_slice());
            pad_with_zeros(&mut body, n);
            Ok(command_frame(opcodes::SMART_ROUTING, body.as_slice()))
        },
    }
}

/// The bytes that follow the reversed target address in `encode_media_information_new_device`.
pub open spec fn media_information_new_device_body(self_mac: &str) -> Seq<u8> {
    seq![0x68u8, 0x00u8] + seq![0x01u8, 0xE5u8, 0x4Au8] + "playingApp".spec_bytes()
        + seq![0x42u8] + "NA".spec_bytes() + seq![0x52u8] + "hostStreamingState".spec_bytes()
        + seq![0x42u8] + "NO".spec_bytes() + seq![0x49u8] + "btAddress".spec_bytes()
        + seq![0x51u8] + self_mac.spec_bytes() + seq![0x46u8] + "btName".spec_bytes()
        + seq![0x43u8] + "Mac".spec_bytes() + seq![0x58u8] + "otherDevice".spec_bytes()
        + "AudioCategory".spec_bytes() + seq![0x30u8, 0x64u8]
}

/// Announces this host's media state to a device that is new to it.
pub fn encode_media_information_new_device(self_mac: &str, target_mac: &str) -> (r: Result<Vec<u8>, AacpError>)
    ensures
        !is_mac_text(target_mac.spec_bytes()) ==> r == Err::<Vec<u8>, AacpError>(AacpError::InvalidAddress),
        is_mac_text(target_mac.spec_bytes()) ==> (r matches Ok(p) && p@ == smart_routing_packet(
            mac_octets(target_mac.spec_bytes()),
            media_information_new_device_body(self_mac),
            112,
        )),
        is_mac_text(target_mac.spec_bytes()) && self_mac.spec_bytes().len() == 17 ==> (r matches Ok(
            p,
        ) && p@.len() == 6 + 112),
{
    proof {
        reveal_strlit("playingApp");
        lemma_text_len("playingApp");
        reveal_strlit("NA");
        lemma_text_len("NA");
        reveal_strlit("hostStreamingState");
        lemma_text_len("hostStreamingState");
        reveal_strlit("NO");
        lemma_text_len("NO");
        reveal_strlit("btAddress");
        lemma_text_len("btAddress");
        reveal_strlit("btName");
        lemma_text_len("btName");
        reveal_strlit("Mac");
        lemma_text_len("Mac");
        reveal_strlit("otherDevice");
        lemma_text_len("otherDevice");
        reveal_strlit("AudioCategory");
        lemma_text_len("AudioCategory");
    }
    let mut rest: Vec<u8> = Vec::new();
    let piece: [u8; 2] = [0x68, 0x00];
    push_bytes(&mut rest, piece.as_slice());
    let piece: [u8; 3] = [0x01, 0xE5, 0x4A];
    push_bytes(&mut rest, piece.as_slice());
    push_bytes(&mut rest, "playingApp".as_bytes());
    push_byte(&mut rest, 0x42);
    push_bytes(&mut rest, "NA".as_bytes());
    push_byte(&mut rest, 0x52);
    push_bytes(&mut rest, "hostStreamingState".as_bytes());
    push_byte(&mut rest, 0x42);
    push_bytes(&mut rest, "NO".as_bytes());
    push_byte(&mut rest, 0x49);
    push_bytes(&mut rest, "btAddress".as_bytes());
    push_byte(&mut rest, 0x51);
    push_bytes(&mut rest, self_mac.as_bytes());
    push_byte(&mut rest, 0x46);
    push_bytes(&mut rest, "btName".as_bytes());
    push_byte(&mut rest, 0x43);
    push_bytes(&mut rest, "Mac".as_bytes());
    push_byte(&mut rest, 0x58);
    push_bytes(&mut rest, "otherDevice".as_bytes());
    push_bytes(&mut rest, "AudioCategory".as_bytes());
    let piece: [u8; 2] = [0x30, 0x64];
    push_bytes(&mut rest, piece.as_slice());
    smart_routing_frame(target_mac, &rest, 112)
}

/// The bytes that follow the reversed target address in `encode_hijack_request`.
pub open spec fn hijack_request_body() -> Seq<u8> {
    seq![0x62u8, 0x00u8] + seq![0x01u8, 0xE5u8] + seq![0x4Au8] + "localscore".spec_bytes()
        + seq![0x30u8, 0x64u8] + seq![0x46u8] + "reason".spec_bytes() + seq![0x48u8]
        + "Hijackv2".spec_bytes() + seq![0x51u8] + "audioRoutingScore".spec_bytes()
        + seq![0x31u8, 0x2Du8, 0x01u8, 0x5Fu8] + "audioRoutingSetOwnershipToFalse".spec_bytes()
        + seq![0x01u8] + seq![0x4Bu8] + "remotescore".spec_bytes() + seq![0xA5u8]
}

/// Asks the device to move its audio route to this host.
pub fn encode_hijack_request(target_mac: &str) -> (r: Result<Vec<u8>, AacpError>)
    ensures
        !is_mac_text(target_mac.spec_bytes()) ==> r == Err::<Vec<u8>, AacpError>(AacpError::InvalidAddress),
        is_mac_text(target_mac.spec_bytes()) ==> (r matches Ok(p) && p@ == smart_routing_packet(
            mac_octets(target_mac.spec_bytes()),
            hijack_request_body(),
            106,
        )),
        is_mac_text(target_mac.spec_bytes()) ==> (r matches Ok(
            p,
        ) && p@.len() == 6 + 106),
{
    proof {
        reveal_strlit("localscore");
        lemma_text_len("localscore");
        reveal_strlit("reason");
        lemma_text_len("reason");
        reveal_strlit("Hijackv2");
        lemma_text_len("Hijackv2");
        reveal_strlit("audioRoutingScore");
        lemma_text_len("audioRoutingScore");
        reveal_strlit("audioRoutingSetOwnershipToFalse");
        lemma_text_len("audioRoutingSetOwnershipToFalse");
        reveal_strlit("remotescore");
        lemma_text_len("remotescore");
    }
    let mut rest: Vec<u8> = Vec::new();
    let piece: [u8; 2] = [0x62, 0x00];
    push_bytes(&mut rest, piece.as_slice());
    let piece: [u8; 2] = [0x01, 0xE5];
    push_bytes(&mut rest, piece.as_slice());
    push_byte(&mut rest, 0x4A);
    push_bytes(&mut rest, "localscore".as_bytes());
    let piece: [u8; 2] = [0x30, 0x64];
    push_bytes(&mut rest, piece.as_slice());
    push_byte(&mut rest, 0x46);
    push_bytes(&mut rest, "reason".as_bytes());
    push_byte(&mut rest, 0x48);
    push_bytes(&mut rest, "Hijackv2".as_bytes());
    push_byte(&mut rest, 0x51);
    push_bytes(&mut rest, "audioRoutingScore".as_bytes());
    let piece: [u8; 4] = [0x31, 0x2D, 0x01, 0x5F];
    push_bytes(&mut rest, piece.as_slice());
    push_bytes(&mut rest, "audioRoutingSetOwnershipToFalse".as_bytes());
    push_byte(&mut rest, 0x01);
    push_byte(&mut rest, 0x4B);
    push_bytes(&mut rest, "remotescore".as_bytes());
    push_byte(&mut rest, 0xA5);
    smart_routing_frame(target_mac, &rest, 106)
}

/// The bytes that follow the reversed target address in `encode_media_information`.
pub open spec fn media_information_body(self_mac: &str, streaming_state: bool) -> Seq<u8> {
    seq![0x82u8, 0x00u8] + seq![0x01u8, 0xE5u8, 0x4Au8] + "PlayingApp".spec_bytes()
        + seq![0x56u8] + "com.google.ios.youtube".spec_bytes() + seq![0x52u8]
        + "HostStreamingState".spec_bytes() + seq![0x42u8]
        + (if streaming_state { "YES".spec_bytes() } else { "NO".spec_bytes() }) + seq![0x49u8]
        + "btAddress".spec_bytes() + seq![0x51u8] + self_mac.spec_bytes()
        + "btName".spec_bytes() + seq![0x43u8] + "Mac".spec_bytes() + seq![0x58u8]
        + "otherDevice".spec_bytes() + "AudioCategory".spec_bytes()
        + seq![0x31u8, 0x2Du8, 0x01u8]
}

/// Reports this host's media state; `streaming_state` picks `YES` or `NO`.
pub fn encode_media_information(self_mac: &str, target_mac: &str, streaming_state: bool) -> (r: Result<Vec<u8>, AacpError>)
    ensures
        !is_mac_text(target_mac.spec_bytes()) ==> r == Err::<Vec<u8>, AacpError>(AacpError::InvalidAddress),
        is_mac_text(target_mac.spec_bytes()) ==> (r matches Ok(p) && p@ == smart_routing_packet(
            mac_octets(target_mac.spec_bytes()),
            media_information_body(self_mac, streaming_state),
            138,
        )),
        is_mac_text(target_mac.spec_bytes()) && self_mac.spec_bytes().len() == 17 ==> (r matches Ok(
            p,
        ) && p@.len() == 6 + 138),
{
    proof {
        reveal_strlit("PlayingApp");
        lemma_text_len("PlayingApp");
        reveal_strlit("com.google.ios.youtube");
        lemma_text_len("com.google.ios.youtube");
        reveal_strlit("HostStreamingState");
        lemma_text_len("HostStreamingState");
        reveal_strlit("YES");
        lemma_text_len("YES");
        reveal_strlit("NO");
        lemma_text_len("NO");
        reveal_strlit("btAddress");
        lemma_text_len("btAddress");
        reveal_strlit("btName");
        lemma_text_len("btName");
        reveal_strlit("Mac");
        lemma_text_len("Mac");
        reveal_strlit("otherDevice");
        lemma_text_len("otherDevice");
        reveal_strlit("AudioCategory");
        lemma_text_len("AudioCategory");
    }
    let mut rest: Vec<u8> = Vec::new();
    let piece: [u8; 2] = [0x82, 0x00];
    push_bytes(&mut rest, piece.as_slice());
    let piece: [u8; 3] = [0x01, 0xE5, 0x4A];
    push_bytes(&mut rest, piece.as_slice());
    push_bytes(&mut rest, "PlayingApp".as_bytes());
    push_byte(&mut rest, 0x56);
    push_bytes(&mut rest, "com.google.ios.youtube".as_bytes());
    push_byte(&mut rest, 0x52);
    push_bytes(&mut rest, "HostStreamingState".as_bytes());
    push_byte(&mut rest, 0x42);
    if streaming_state {
        push_bytes(&mut rest, "YES".as_bytes());
    } else {
        push_bytes(&mut rest, "NO".as_bytes());
    }
    push_byte(&mut rest, 0x49);
    push_bytes(&mut rest, "btAddress".as_bytes());
    push_byte(&mut rest, 0x51);
    push_bytes(&mut rest, self_mac.as_bytes());
    push_bytes(&mut rest, "btName".as_bytes());
    push_byte(&mut rest, 0x43);
    push_bytes(&mut rest, "Mac".as_bytes());
    push_byte(&mut rest, 0x58);
    push_bytes(&mut rest, "otherDevice".as_bytes());
    push_bytes(&mut rest, "AudioCategory".as_bytes());
    let piece: [u8; 3] = [0x31, 0x2D, 0x01];
    push_bytes(&mut rest, piece.as_slice());
    smart_routing_frame(target_mac, &rest, 138)
}

/// The bytes that follow the reversed target address in `encode_smart_routing_show_ui`.
pub open spec fn smart_routing_show_ui_body() -> Seq<u8> {
    seq![0x7Eu8, 0x00u8] + seq![0x01u8, 0xE6u8, 0x5Bu8]
        + "SmartRoutingKeyShowNearbyUI".spec_bytes() + seq![0x01u8] + seq![0x4Au8]
        + "localscore".spec_bytes() + seq![0x31u8, 0x2Du8] + seq![0x01u8] + seq![0x46u8]
        + "reasonHhijackv2".spec_bytes() + seq![0x51u8] + "audioRoutingScore".spec_bytes()
        + seq![0xA2u8] + seq![0x5Fu8] + "audioRoutingSetOwnershipToFalse".spec_bytes()
        + seq![0x01u8] + seq![0x4Bu8] + "remotescore".spec_bytes() + seq![0xA2u8]
}

/// Asks the device to show the nearby-routing prompt.
pub fn encode_smart_routing_show_ui(target_mac: &str) -> (r: Result<Vec<u8>, AacpError>)
    ensures
        !is_mac_text(target_mac.spec_bytes()) ==> r == Err::<Vec<u8>, AacpError>(AacpError::InvalidAddress),
        is_mac_text(target_mac.spec_bytes()) ==> (r matches Ok(p) && p@ == smart_routing_packet(
            mac_octets(target_mac.spec_bytes()),
            smart_routing_show_ui_body(),
            134,
        )),
        is_mac_text(target_mac.spec_bytes()) ==> (r matches Ok(
            p,
        ) && p@.len() == 6 + 134),
{
    proof {
        reveal_strlit("SmartRoutingKeyShowNearbyUI");
        lemma_text_len("SmartRoutingKeyShowNearbyUI");
        reveal_strlit("localscore");
        lemma_text_len("localscore");
        reveal_strlit("reasonHhijackv2");
        lemma_text_len("reasonHhijackv2");
        reveal_strlit("audioRoutingScore");
        lemma_text_len("audioRoutingScore");
        reveal_strlit("audioRoutingSetOwnershipToFalse");
        lemma_text_len("audioRoutingSetOwnershipToFalse");
        reveal_strlit("remotescore");
        lemma_text_len("remotescore");
    }
    let mut rest: Vec<u8> = Vec::new();
    let piece: [u8; 2] = [0x7E, 0x00];
    push_bytes(&mut rest, piece.as_slice());
    let piece: [u8; 3] = [0x01, 0xE6, 0x5B];
    push_bytes(&mut rest, piece.as_slice());
    push_bytes(&mut rest, "SmartRoutingKeyShowNearbyUI".as_bytes());
    push_byte(&mut rest, 0x01);
    push_byte(&mut rest, 0x4A);
    push_bytes(&mut rest, "localscore".as_bytes());
    let piece: [u8; 2] = [0x31, 0x2D];
    push_bytes(&mut rest, piece.as_slice());
    push_byte(&mut rest, 0x01);
    push_byte(&mut rest, 0x46);
    push_bytes(&mut rest, "reasonHhijackv2".as_bytes());
    push_byte(&mut rest, 0x51);
    push_bytes(&mut rest, "audioRoutingScore".as_bytes());
    push_byte(&mut rest, 0xA2);
    push_byte(&mut rest, 0x5F);
    push_bytes(&mut rest, "audioRoutingSetOwnershipToFalse".as_bytes());
    push_byte(&mut rest, 0x01);
    push_byte(&mut rest, 0x4B);
    push_bytes(&mut rest, "remotescore".as_bytes());
    push_byte(&mut rest, 0xA2);
    smart_routing_frame(target_mac, &rest, 134)
}

/// The bytes that follow the reversed target address in `encode_hijack_reversed`.
pub open spec fn hijack_reversed_body() -> Seq<u8> {
    seq![0x59u8, 0x00u8] + seq![0x01u8, 0xE3u8] + seq![0x5Fu8]
        + "audioRoutingSetOwnershipToFalse".spec_bytes() + seq![0x01u8] + seq![0x59u8]
        + "audioRoutingShowReverseUI".spec_bytes() + seq![0x01u8] + seq![0x46u8]
        + "reason".spec_bytes() + seq![0x53u8] + "ReverseBannerTapped".spec_bytes()
}

/// Hands the audio route back after the reverse banner was tapped.
pub fn encode_hijack_reversed(target_mac: &str) -> (r: Result<Vec<u8>, AacpError>)
    ensures
        !is_mac_text(target_mac.spec_bytes()) ==> r == Err::<Vec<u8>, AacpError>(AacpError::InvalidAddress),
        is_mac_text(target_mac.spec_bytes()) ==> (r matches Ok(p) && p@ == smart_routing_packet(
            mac_octets(target_mac.spec_bytes()),
            hijack_reversed_body(),
            97,
        )),
        is_mac_text(target_mac.spec_bytes()) ==> (r matches Ok(
            p,
        ) && p@.len() == 6 + 97),
{
    proof {
        reveal_strlit("audioRoutingSetOwnershipToFalse");
        lemma_text_len("audioRoutingSetOwnershipToFalse");
        reveal_strlit("audioRoutingShowReverseUI");
        lemma_text_len("audioRoutingShowReverseUI");
        reveal_strlit("reason");
        lemma_text_len("reason");
        reveal_strlit("ReverseBannerTapped");
        lemma_text_len("ReverseBannerTapped");
    }
    let mut rest: Vec<u8> = Vec::new();
    let piece: [u8; 2] = [0x59, 0x00];
    push_bytes(&mut rest, piece.as_slice());
    let piece: [u8; 2] = [0x01, 0xE3];
    push_bytes(&mut rest, piece.as_slice());
    push_byte(&mut rest, 0x5F);
    push_bytes(&mut rest, "audioRoutingSetOwnershipToFalse".as_bytes());
    push_byte(&mut rest, 0x01);
    push_byte(&mut rest, 0x59);
    push_bytes(&mut rest, "audioRoutingShowReverseUI".as_bytes());
    push_byte(&mut rest, 0x01);
    push_byte(&mut rest, 0x46);
    push_bytes(&mut rest, "reason".as_bytes());
    push_byte(&mut rest, 0x53);
    push_bytes(&mut rest, "ReverseBannerTapped".as_bytes());
    smart_routing_frame(target_mac, &rest, 97)
}

/// The bytes that follow the reversed target address in `encode_add_tipi_device`.
pub open spec fn add_tipi_device_body(self_mac: &str) -> Seq<u8> {
    seq![0x4Eu8, 0x00u8] + seq![0x01u8, 0xE5u8] + seq![0x48u8]
        + "idleTime".spec_bytes() + seq![0x08u8, 0x47u8] + "newTipi".spec_bytes()
        + seq![0x01u8, 0x49u8] + "btAddress".spec_bytes() + seq![0x51u8]
        + self_mac.spec_bytes() + seq![0x46u8] + "btName".spec_bytes() + seq![0x43u8]
        + "Mac".spec_bytes() + seq![0x50u8] + "nearbyAudioScore".spec_bytes() + seq![0x0Eu8]
}

/// Adds this host as a device that shares the audio route.
pub fn encode_add_tipi_device(self_mac: &str, target_mac: &str) -> (r: Result<Vec<u8>, AacpError>)
    ensures
        !is_mac_text(target_mac.spec_bytes()) ==> r == Err::<Vec<u8>, AacpError>(AacpError::InvalidAddress),
        is_mac_text(target_mac.spec_bytes()) ==> (r matches Ok(p) && p@ == smart_routing_packet(
            mac_octets(target_mac.spec_bytes()),
            add_tipi_device_body(self_mac),
            86,
        )),
        is_mac_text(target_mac.spec_bytes()) && self_mac.spec_bytes().len() == 17 ==> (r matches Ok(
            p,
        ) && p@.len() == 6 + 86),
{
    proof {
        reveal_strlit("idleTime");
        lemma_text_len("idleTime");
        reveal_strlit("newTipi");
        lemma_text_len("newTipi");
        reveal_strlit("btAddress");
        lemma_text_len("btAddress");
        reveal_strlit("btName");
        lemma_text_len("btName");
        reveal_strlit("Mac");
        lemma_text_len("Mac");
        reveal_strlit("nearbyAudioScore");
        lemma_text_len("nearbyAudioScore");
        assert(add_tipi_device_body(self_mac).len() == 63 + self_mac.spec_bytes().len());
    }
    let mut rest: Vec<u8> = Vec::new();
    let piece: [u8; 2] = [0x4E, 0x00];
    push_bytes(&mut rest, piece.as_slice());
    let piece: [u8; 2] = [0x01, 0xE5];
    push_bytes(&mut rest, piece.as_slice());
    push_byte(&mut rest, 0x48);
    push_bytes(&mut rest, "idleTime".as_bytes());
    let piece: [u8; 2] = [0x08, 0x47];
    push_bytes(&mut rest, piece.as_slice());
    push_bytes(&mut rest, "newTipi".as_bytes());
    let piece: [u8; 2] = [0x01, 0x49];
    push_bytes(&mut rest, piece.as_slice());
    push_bytes(&mut rest, "btAddress".as_bytes());
    push_byte(&mut rest, 0x51);
    push_bytes(&mut rest, self_mac.as_bytes());
    push_byte(&mut rest, 0x46);
    push_bytes(&mut rest, "btName".as_bytes());
    push_byte(&mut rest, 0x43);
    push_bytes(&mut rest, "Mac".as_bytes());
    push_byte(&mut rest, 0x50);
    push_bytes(&mut rest, "nearbyAudioScore".as_bytes());
    push_byte(&mut rest, 0x0E);
    smart_routing_frame(target_mac, &rest, 86)
}

} // verus!
