//! Stealth (WIZ_STEALTH 0x60): taking a player's stealth away when they
//! move or attack, and the packets that tell the region and the player.
use vstd::prelude::*;
use crate::packet::{Packet, u8_le, u16_le, u32_le};
use crate::regene::{WIZ_STEALTH, WIZ_STATE_CHANGE};
use crate::pet::WIZ_MAGIC_PROCESS;

verus! {

pub const INVIS_NONE: u8 = 0;
/// Stealth that breaks when the player moves.
pub const INVIS_DISPEL_ON_MOVE: u8 = 1;
/// Stealth that breaks only on attack or an offensive skill.
pub const INVIS_DISPEL_ON_ATTACK: u8 = 2;

/// Buff type of stealth.
pub const BUFF_TYPE_INVISIBILITY: i32 = 100;
/// WIZ_MAGIC_PROCESS sub-opcode telling the client a buff ran out.
pub const MAGIC_DURATION_EXPIRED: u8 = 5;
/// Response the client expects when a stealth buff is cancelled.
pub const TYPE9_CANCEL_STEALTH_RESPONSE: u8 = 91;
/// State-change type of invisibility.
pub const STATE_CHANGE_INVISIBILITY: u8 = 7;

/// A player's stealth: the invisibility type and whether the stealth buff
/// is on.
#[derive(Clone, Copy, Debug, PartialEq, Eq, Structural)]
pub struct StealthState {
    pub invisibility_type: u8,
    pub has_invisibility_buff: bool,
}

/// Removes one kind of stealth (`INVIS_DISPEL_ON_MOVE` or
/// `INVIS_DISPEL_ON_ATTACK`) from a player who is invisible: the buff goes
/// and the player becomes visible. Says whether it did, so that the region
/// and the player can be told. Any other kind, or a visible player, is
/// left as is.
pub fn remove_stealth_type(s: &mut StealthState, invis_type: u8) -> (removed: bool)
    ensures
        removed == ((invis_type == INVIS_DISPEL_ON_MOVE || invis_type == INVIS_DISPEL_ON_ATTACK)
            && old(s).invisibility_type != INVIS_NONE),
        removed ==> *final(s) == (StealthState { invisibility_type: INVIS_NONE, has_invisibility_buff: false }),
        !removed ==> *final(s) == *old(s),
{
    if invis_type != INVIS_DISPEL_ON_MOVE && invis_type != INVIS_DISPEL_ON_ATTACK {
        return false;
    }
    if s.invisibility_type == INVIS_NONE {
        return false;
    }
    s.has_invisibility_buff = false;
    s.invisibility_type = INVIS_NONE;
    true
}

/// A player after all stealth is taken away: visible, without the stealth
/// buff; a player who was visible stays as they were.
pub open spec fn spec_without_stealth(s: StealthState) -> StealthState {
    if s.invisibility_type != INVIS_NONE {
        StealthState { invisibility_type: INVIS_NONE, has_invisibility_buff: false }
    } else {
        s
    }
}

/// Removes all stealth before an attack: an invisible player becomes
/// visible and loses the stealth buff, once (the region and the player are
/// told once). A visible player is left as is.
pub fn remove_stealth(s: &mut StealthState) -> (removed: bool)
    ensures
        removed == (old(s).invisibility_type != INVIS_NONE),
        *final(s) == spec_without_stealth(*old(s)),
{
    if s.invisibility_type == INVIS_NONE {
        return false;
    }
    let first = remove_stealth_type(s, INVIS_DISPEL_ON_MOVE);
    let second = remove_stealth_type(s, INVIS_DISPEL_ON_ATTACK);
    first || second
}

/// Removing stealth leaves a player visible, and doing it again changes
/// nothing.
pub proof fn lemma_remove_stealth_idempotent(s: StealthState)
    ensures
        spec_without_stealth(s).invisibility_type == INVIS_NONE,
        spec_without_stealth(spec_without_stealth(s)) == spec_without_stealth(s),
{
}

/// The region's notice that a player is visible again:
/// `[u32 session][u8 7][u32 0]`.
pub fn build_stealth_removed_broadcast(sid: u16) -> (pkt: Packet)
    ensures
        pkt.opcode == WIZ_STATE_CHANGE,
        pkt.data@ == u32_le(sid as u32) + u8_le(STATE_CHANGE_INVISIBILITY) + u32_le(INVIS_NONE as u32),
{
    let mut pkt = Packet::new(WIZ_STATE_CHANGE);
    pkt.write_u32(sid as u32);
    pkt.write_u8(STATE_CHANGE_INVISIBILITY);
    pkt.write_u32(INVIS_NONE as u32);
    pkt
}

/// The player's notice that the stealth buff ended: `[u8 5][u8 91]`.
pub fn build_stealth_expired_packet() -> (pkt: Packet)
    ensures
        pkt.opcode == WIZ_MAGIC_PROCESS,
        pkt.data@ == u8_le(MAGIC_DURATION_EXPIRED) + u8_le(TYPE9_CANCEL_STEALTH_RESPONSE),
{
    let mut pkt = Packet::new(WIZ_MAGIC_PROCESS);
    pkt.write_u8(MAGIC_DURATION_EXPIRED);
    pkt.write_u8(TYPE9_CANCEL_STEALTH_RESPONSE);
    pkt
}

/// Mini-map stealth of the lupine skill: `[u8 1][u16 radius]`.
pub fn build_minimap_stealth_packet(radius: u16) -> (pkt: Packet)
    ensures
        pkt.opcode == WIZ_STEALTH,
        pkt.data@ == u8_le(1) + u16_le(radius),
{
    let mut pkt = Packet::new(WIZ_STEALTH);
    pkt.write_u8(1);
    pkt.write_u16(radius);
    pkt
}

} // verus!
