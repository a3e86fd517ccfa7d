//! Opcode bytes of the protocol.
use vstd::prelude::*;

verus! {

pub const SET_FEATURE_FLAGS: u8 = 0x4D;
pub const REQUEST_NOTIFICATIONS: u8 = 0x0F;
pub const BATTERY_INFO: u8 = 0x04;
pub const CONTROL_COMMAND: u8 = 0x09;
pub const EAR_DETECTION: u8 = 0x06;
pub const CONVERSATION_AWARENESS: u8 = 0x4B;
pub const INFORMATION: u8 = 0x1D;
pub const RENAME: u8 = 0x1E;
pub const PROXIMITY_KEYS_REQ: u8 = 0x30;
pub const PROXIMITY_KEYS_RSP: u8 = 0x31;
pub const STEM_PRESS: u8 = 0x19;
pub const EQ_DATA: u8 = 0x53;
pub const CONNECTED_DEVICES: u8 = 0x2E;
pub const AUDIO_SOURCE: u8 = 0x0E;
pub const SMART_ROUTING: u8 = 0x10;
pub const SMART_ROUTING_RESP: u8 = 0x11;
pub const SEND_CONNECTED_MAC: u8 = 0x14;
pub const HEADTRACKING: u8 = 0x17;
pub const TIPI_3: u8 = 0x0C;
pub const SSL: u8 = 0x29;

} // verus!
