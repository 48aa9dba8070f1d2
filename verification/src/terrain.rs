//! Terrain effects (WIZ_TERRAIN_EFFECTS 0x83): when the Oreads battlefield
//! applies terrain to a player, and the packet that tells the client. Which
//! terrain a position lies in is measured in floating point by the caller.
use vstd::prelude::*;
use crate::packet::{Packet, u8_le};

verus! {

pub const WIZ_TERRAIN_EFFECTS: u8 = 0x83;

/// The Oreads battlefield.
pub const ZONE_BATTLE6: u16 = 66;

pub const TERRAIN_NONE: u8 = 0;
/// Boosts fire magic, weakens ice and lightning.
pub const TERRAIN_HAY: u8 = 1;
/// Boosts all magic, slows movement.
pub const TERRAIN_SWAMP: u8 = 2;
/// Weakens fire magic, boosts ice and lightning.
pub const TERRAIN_WATER: u8 = 3;

/// Terrain applies only during a nation battle, in the Oreads battlefield,
/// and never to a game master.
pub fn terrain_applies(zone_id: u16, is_nation_battle: bool, is_gm: bool) -> (r: bool)
    ensures
        r == (is_nation_battle && zone_id == ZONE_BATTLE6 && !is_gm),
{
    is_nation_battle && zone_id == ZONE_BATTLE6 && !is_gm
}

/// The terrain a player is in: none where terrain does not apply, else the
/// first of hay, swamp and water whose area holds the position.
pub fn terrain_type(applies: bool, in_hay: bool, in_swamp: bool, in_water: bool) -> (r: u8)
    ensures
        r == if !applies {
            TERRAIN_NONE
        } else if in_hay {
            TERRAIN_HAY
        } else if in_swamp {
            TERRAIN_SWAMP
        } else if in_water {
            TERRAIN_WATER
        } else {
            TERRAIN_NONE
        },
{
    if !applies {
        TERRAIN_NONE
    } else if in_hay {
        TERRAIN_HAY
    } else if in_swamp {
        TERRAIN_SWAMP
    } else if in_water {
        TERRAIN_WATER
    } else {
        TERRAIN_NONE
    }
}

/// `[u8 1][u8 terrain]`.
pub fn build_terrain_effects_packet(terrain_type: u8) -> (pkt: Packet)
    ensures
        pkt.opcode == WIZ_TERRAIN_EFFECTS,
        pkt.data@ == u8_le(1) + u8_le(terrain_type),
{
    let mut pkt = Packet::new(WIZ_TERRAIN_EFFECTS);
    pkt.write_u8(0x01);
    pkt.write_u8(terrain_type);
    pkt
}

} // verus!
