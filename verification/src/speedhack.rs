//! Speed-hack check (WIZ_SPEEDHACK_CHECK 0x41): the class-based limit on how
//! far a player may move between two checks, and the warp back to the last
//! accepted position. The distance itself is measured in floating point by
//! the caller.
use vstd::prelude::*;
use crate::packet::{Packet, u8_le, u16_le};

verus! {

pub const WIZ_SPEEDHACK_CHECK: u8 = 0x41;
pub const WIZ_MOVE: u8 = 0x06;

/// Fame of a clan's command captain, who moves as fast as a rogue.
pub const COMMAND_CAPTAIN: u8 = 100;

/// Movement allowance of rogues and captains, and of everyone else.
pub const ROGUE_SPEED: u32 = 90;
pub const NORMAL_SPEED: u32 = 67;
/// Slack added to either allowance.
pub const SPEED_BUFFER: u32 = 17;

/// Rogue classes: base class 2, 7 or 8.
pub open spec fn spec_is_rogue(class: u16) -> bool {
    let b = class % 100;
    b == 2 || b == 7 || b == 8
}

pub fn is_rogue_class(class: u16) -> (r: bool)
    ensures
        r == spec_is_rogue(class),
{
    let b = class % 100;
    b == 2 || b == 7 || b == 8
}

/// The most a player may move between two checks, as squared distance over
/// 100: 107 for rogues and command captains, 84 for everyone else.
pub fn speed_limit(class: u16, fame: u8) -> (r: u32)
    ensures
        r == if spec_is_rogue(class) || fame == COMMAND_CAPTAIN {
            ROGUE_SPEED + SPEED_BUFFER
        } else {
            NORMAL_SPEED + SPEED_BUFFER
        },
{
    let base = if is_rogue_class(class) || fame == COMMAND_CAPTAIN { ROGUE_SPEED } else { NORMAL_SPEED };
    base + SPEED_BUFFER
}

/// Game masters (authority 0) are not checked.
pub fn speed_check_exempt(authority: u8) -> (r: bool)
    ensures
        r == (authority == 0),
{
    authority == 0
}

/// What a check decides once the distance is known.
#[derive(Clone, Copy, Debug, PartialEq, Eq, Structural)]
pub enum SpeedVerdict {
    /// Nothing recorded yet (the last position is the origin): the current
    /// position is recorded without a check.
    Record,
    /// Within the limit: the current position becomes the accepted one.
    Accept,
    /// At or over the limit: the player is warped back.
    WarpBack,
}

/// The decision of a check: the first check only records, and a move whose
/// measure reaches the limit is sent back.
pub fn speed_verdict(last_is_origin: bool, reaches_limit: bool) -> (r: SpeedVerdict)
    ensures
        r == if last_is_origin {
            SpeedVerdict::Record
        } else if reaches_limit {
            SpeedVerdict::WarpBack
        } else {
            SpeedVerdict::Accept
        },
{
    if last_is_origin {
        SpeedVerdict::Record
    } else if reaches_limit {
        SpeedVerdict::WarpBack
    } else {
        SpeedVerdict::Accept
    }
}

/// A coordinate in the warp packet: the whole-unit coordinate times ten,
/// wrapping at 16 bits.
pub fn warp_coordinate(whole: u16) -> (r: u16)
    ensures
        r == (whole * 10) % 65536,
{
    ((whole as u32 * 10) % 65536) as u16
}

/// Warp back to the last accepted position: `[u16 x][u16 z][u16 0][i16 0][u8 2]`.
pub fn build_warp_back_packet(warp_x: u16, warp_z: u16) -> (pkt: Packet)
    ensures
        pkt.opcode == WIZ_MOVE,
        pkt.data@ == u16_le(warp_x) + u16_le(warp_z) + u16_le(0) + u16_le(0) + u8_le(2),
{
    let mut pkt = Packet::new(WIZ_MOVE);
    pkt.write_u16(warp_x);
    pkt.write_u16(warp_z);
    pkt.write_u16(0);
    pkt.write_i16(0);
    pkt.write_u8(2);
    pkt
}

} // verus!
