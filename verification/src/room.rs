//! Rooms (WIZ_ROOM_PACKET 0x61): instanced content that players create,
//! join, leave and list. No room is backed by world state yet, so every
//! request gets a fixed answer.
use vstd::prelude::*;
use crate::packet::{Packet, u8_le, u16_le, sbyte_string};
use vstd::string::StringSliceAdditionalSpecFns;

verus! {

pub const WIZ_ROOM_PACKET: u8 = 0x61;

pub const ROOM_CREATE: u8 = 0x01;
pub const ROOM_JOIN: u8 = 0x02;
pub const ROOM_LEAVE: u8 = 0x03;
pub const ROOM_LIST: u8 = 0x04;
pub const ROOM_INFO: u8 = 0x05;
pub const ROOM_READY: u8 = 0x06;
pub const ROOM_START: u8 = 0x07;

pub const ROOM_RESULT_SUCCESS: u8 = 1;
pub const ROOM_RESULT_FAIL: u8 = 0;
pub const ROOM_RESULT_FULL: u8 = 2;
pub const ROOM_RESULT_NOT_FOUND: u8 = 3;
pub const ROOM_RESULT_ALREADY_IN: u8 = 4;

pub const ROOM_STATUS_WAITING: u8 = 0;
pub const ROOM_STATUS_PLAYING: u8 = 1;
pub const ROOM_STATUS_CLOSED: u8 = 2;

/// `[u8 sub][u8 result]`.
pub fn build_result_packet(sub_opcode: u8, result: u8) -> (pkt: Packet)
    ensures
        pkt.opcode == WIZ_ROOM_PACKET,
        pkt.data@ == u8_le(sub_opcode) + u8_le(result),
{
    let mut pkt = Packet::new(WIZ_ROOM_PACKET);
    pkt.write_u8(sub_opcode);
    pkt.write_u8(result);
    pkt
}

/// `[u8 1][u8 result][u16 room]`.
pub fn build_create_result(result: u8, room_id: u16) -> (pkt: Packet)
    ensures
        pkt.opcode == WIZ_ROOM_PACKET,
        pkt.data@ == u8_le(ROOM_CREATE) + u8_le(result) + u16_le(room_id),
{
    let mut pkt = Packet::new(WIZ_ROOM_PACKET);
    pkt.write_u8(ROOM_CREATE);
    pkt.write_u8(result);
    pkt.write_u16(room_id);
    pkt
}

/// `[u8 4][u8 0]`: a list with no room.
pub fn build_empty_list_packet() -> (pkt: Packet)
    ensures
        pkt.opcode == WIZ_ROOM_PACKET,
        pkt.data@ == u8_le(ROOM_LIST) + u8_le(0),
{
    let mut pkt = Packet::new(WIZ_ROOM_PACKET);
    pkt.write_u8(ROOM_LIST);
    pkt.write_u8(0);
    pkt
}

/// `[u8 5][u16 room][sbyte name][u8 players][u8 max][u8 status]`.
pub fn build_room_info_packet(room_id: u16, name: &str, player_count: u8, max_players: u8, status: u8) -> (pkt: Packet)
    ensures
        pkt.opcode == WIZ_ROOM_PACKET,
        pkt.data@ == u8_le(ROOM_INFO) + u16_le(room_id) + sbyte_string(name.spec_bytes()) + u8_le(player_count)
            + u8_le(max_players) + u8_le(status),
{
    let mut pkt = Packet::new(WIZ_ROOM_PACKET);
    pkt.write_u8(ROOM_INFO);
    pkt.write_u16(room_id);
    pkt.write_sbyte_string(name);
    pkt.write_u8(player_count);
    pkt.write_u8(max_players);
    pkt.write_u8(status);
    pkt
}

/// `[u8 7][u16 room]`.
pub fn build_room_start_packet(room_id: u16) -> (pkt: Packet)
    ensures
        pkt.opcode == WIZ_ROOM_PACKET,
        pkt.data@ == u8_le(ROOM_START) + u16_le(room_id),
{
    let mut pkt = Packet::new(WIZ_ROOM_PACKET);
    pkt.write_u8(ROOM_START);
    pkt.write_u16(room_id);
    pkt
}

/// The payload of the answer to a request whose first byte is `sub`: a
/// failed creation, "not found" for a join, success for leave and ready, an
/// empty list; no answer to any other sub-opcode.
pub open spec fn room_answer(sub: u8) -> Option<Seq<u8>> {
    if sub == ROOM_CREATE {
        Some(u8_le(ROOM_CREATE) + u8_le(ROOM_RESULT_FAIL) + u16_le(0))
    } else if sub == ROOM_JOIN {
        Some(u8_le(ROOM_JOIN) + u8_le(ROOM_RESULT_NOT_FOUND))
    } else if sub == ROOM_LEAVE {
        Some(u8_le(ROOM_LEAVE) + u8_le(ROOM_RESULT_SUCCESS))
    } else if sub == ROOM_LIST {
        Some(u8_le(ROOM_LIST) + u8_le(0))
    } else if sub == ROOM_READY {
        Some(u8_le(ROOM_READY) + u8_le(ROOM_RESULT_SUCCESS))
    } else {
        None
    }
}

/// The answer to a room request: nothing outside the game or for an empty
/// payload, else the answer that the sub-opcode calls for.
pub fn handle_room_request(in_game: bool, data: &[u8]) -> (r: Option<Packet>)
    ensures
        (!in_game || data@.len() == 0) ==> r is None,
        in_game && data@.len() > 0 ==> match room_answer(data@[0]) {
            None => r is None,
            Some(bytes) => r is Some && r->0.opcode == WIZ_ROOM_PACKET && r->0.data@ == bytes,
        },
{
    if !in_game || data.len() == 0 {
        return None;
    }
    let sub = data[0];
    if sub == ROOM_CREATE {
        Some(build_create_result(ROOM_RESULT_FAIL, 0))
    } else if sub == ROOM_JOIN {
        Some(build_result_packet(ROOM_JOIN, ROOM_RESULT_NOT_FOUND))
    } else if sub == ROOM_LEAVE {
        Some(build_result_packet(ROOM_LEAVE, ROOM_RESULT_SUCCESS))
    } else if sub == ROOM_LIST {
        Some(build_empty_list_packet())
    } else if sub == ROOM_READY {
        Some(build_result_packet(ROOM_READY, ROOM_RESULT_SUCCESS))
    } else {
        None
    }
}

} // verus!
