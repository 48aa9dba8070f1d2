//! Target HP (WIZ_TARGET_HP 0x22): which HP a clicked target reports, and
//! the answer packet.
use vstd::prelude::*;
use crate::packet::{Packet, u8_le, u32_le};
use crate::pet::NPC_BAND;

verus! {

pub const WIZ_TARGET_HP: u8 = 0x22;

/// What the world knows of a target.
#[derive(Clone, Copy, Debug, PartialEq, Eq, Structural)]
pub enum TargetLookup {
    /// Nothing under that ID (or an NPC without a template).
    Missing,
    /// A bot.
    Bot { max_hp: i16, hp: i16 },
    /// An NPC: its template's maximum and its tracked HP, if tracked.
    Npc { template_max_hp: u32, hp: Option<i32> },
    /// A player.
    Player { max_hp: i16, hp: i16 },
}

/// A target ID names a player below `NPC_BAND`, an NPC or bot from it on;
/// 0 names nothing.
pub fn is_npc_band(target_id: u32) -> (r: bool)
    ensures
        r == (target_id >= NPC_BAND),
{
    target_id >= NPC_BAND
}

pub open spec fn spec_nonneg_u32(v: int) -> u32 {
    if v < 0 { 0 } else { v as u32 }
}

/// (max, current) HP to report for a target, or `None` when it is unknown
/// (no answer is sent). Bots and NPCs report no less than 0; an NPC whose
/// HP is not tracked reports its template maximum; players report their HP
/// as stored.
pub fn target_hp_values(lookup: TargetLookup) -> (r: Option<(u32, u32)>)
    ensures
        r == target_hp_values_spec(lookup),
{
    match lookup {
        TargetLookup::Missing => None,
        TargetLookup::Bot { max_hp, hp } => Some((max_hp as u32, if hp < 0 { 0 } else { hp as u32 })),
        TargetLookup::Npc { template_max_hp, hp } => {
            let current: i32 = match hp {
                Some(h) => h,
                None => template_max_hp as i32,
            };
            Some((template_max_hp, if current < 0 { 0 } else { current as u32 }))
        },
        TargetLookup::Player { max_hp, hp } => Some((max_hp as u32, hp as u32)),
    }
}

/// Game masters (authority 0) and GM users (2) see debug details of NPC
/// targets.
pub fn sees_target_debug(authority: u8, target_id: u32) -> (r: bool)
    ensures
        r == ((authority == 0 || authority == 2) && target_id >= NPC_BAND),
{
    (authority == 0 || authority == 2) && target_id >= NPC_BAND
}

/// Answer: `[u32 target][u8 echo][u32 max][u32 current][u32 0][u32 0][u8 0]`.
pub fn build_target_hp_packet(target_id: u32, echo: u8, max_hp: u32, current_hp: u32) -> (pkt: Packet)
    ensures
        pkt.opcode == WIZ_TARGET_HP,
        pkt.data@ == u32_le(target_id) + u8_le(echo) + u32_le(max_hp) + u32_le(current_hp) + u32_le(0) + u32_le(0)
            + u8_le(0),
{
    let mut pkt = Packet::new(WIZ_TARGET_HP);
    pkt.write_u32(target_id);
    pkt.write_u8(echo);
    pkt.write_u32(max_hp);
    pkt.write_u32(current_hp);
    pkt.write_u32(0);
    pkt.write_u32(0);
    pkt.write_u8(0);
    pkt
}

/// The whole request: no answer for target 0 or an unknown target;
/// otherwise the HP answer.
pub fn answer_target_hp(target_id: u32, echo: u8, lookup: TargetLookup) -> (r: Option<Packet>)
    ensures
        (target_id == 0 || target_hp_values_spec(lookup) is None) <==> r is None,
        r is Some ==> {
            let v = target_hp_values_spec(lookup)->0;
            &&& r->0.opcode == WIZ_TARGET_HP
            &&& r->0.data@ == u32_le(target_id) + u8_le(echo) + u32_le(v.0) + u32_le(v.1) + u32_le(0) + u32_le(0)
                + u8_le(0)
        },
{
    if target_id == 0 {
        return None;
    }
    match target_hp_values(lookup) {
        None => None,
        Some((max_hp, current)) => Some(build_target_hp_packet(target_id, echo, max_hp, current)),
    }
}

pub open spec fn target_hp_values_spec(lookup: TargetLookup) -> Option<(u32, u32)> {
    match lookup {
        TargetLookup::Missing => None,
        TargetLookup::Bot { max_hp, hp } => Some((max_hp as u32, spec_nonneg_u32(hp as int))),
        TargetLookup::Npc { template_max_hp, hp } => Some(
            (
                template_max_hp,
                match hp {
                    Some(h) => spec_nonneg_u32(h as int),
                    None => spec_nonneg_u32((template_max_hp as i32) as int),
                },
            ),
        ),
        TargetLookup::Player { max_hp, hp } => Some((max_hp as u32, hp as u32)),
    }
}

} // verus!
