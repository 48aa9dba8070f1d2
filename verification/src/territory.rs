//! Territory queries (WIZ_TERRITORY 0xD5): who holds the castle or won the
//! battle, and at what tax.
use vstd::prelude::*;
use crate::packet::{Packet, u8_le, u16_le};

verus! {

pub const WIZ_TERRITORY: u8 = 0xD5;

/// The castle siege zone.
pub const TERRITORY_CASTLE: u8 = 1;
/// The battle zones.
pub const TERRITORY_BATTLE: u8 = 2;

/// The tax rate shown for the castle: the tariff, at most 100.
pub fn castle_tax_rate(delos_tariff: u16) -> (r: u8)
    ensures
        r == if delos_tariff > 100 { 100 } else { delos_tariff },
{
    if delos_tariff > 100 { 100 } else { delos_tariff as u8 }
}

/// A territory with its owner: `[u8 type][u8 1][u16 clan][u8 nation][u8 tax]`.
pub fn build_territory_response(territory_type: u8, owner_clan_id: u16, owner_nation: u8, tax_rate: u8) -> (pkt: Packet)
    ensures
        pkt.opcode == WIZ_TERRITORY,
        pkt.data@ == u8_le(territory_type) + u8_le(1) + u16_le(owner_clan_id) + u8_le(owner_nation) + u8_le(tax_rate),
{
    let mut pkt = Packet::new(WIZ_TERRITORY);
    pkt.write_u8(territory_type);
    pkt.write_u8(1);
    pkt.write_u16(owner_clan_id);
    pkt.write_u8(owner_nation);
    pkt.write_u8(tax_rate);
    pkt
}

/// No territory here: `[u8 type][u8 0]`.
pub fn build_territory_empty(territory_type: u8) -> (pkt: Packet)
    ensures
        pkt.opcode == WIZ_TERRITORY,
        pkt.data@ == u8_le(territory_type) + u8_le(0),
{
    let mut pkt = Packet::new(WIZ_TERRITORY);
    pkt.write_u8(territory_type);
    pkt.write_u8(0);
    pkt
}

/// What the world says of the territories.
#[derive(Clone, Copy, Debug, PartialEq, Eq, Structural)]
pub struct TerritoryState {
    /// The clan holding the castle (0 for none).
    pub castle_owner_clan: u16,
    /// That clan's nation, if it is known.
    pub castle_owner_nation: Option<u8>,
    pub delos_tariff: u16,
    /// The nation that won the last battle (0 for none).
    pub battle_victor: u8,
}

/// The answer to a query: the castle's holder, its nation and tax; the
/// battle's winner; nothing for any other type.
pub fn answer_territory(territory_type: u8, t: &TerritoryState) -> (pkt: Packet)
    ensures
        pkt.opcode == WIZ_TERRITORY,
        territory_type == TERRITORY_CASTLE ==> pkt.data@ == u8_le(TERRITORY_CASTLE) + u8_le(1) + u16_le(
            t.castle_owner_clan,
        ) + u8_le(
            if t.castle_owner_clan > 0 && t.castle_owner_nation is Some {
                t.castle_owner_nation->0
            } else {
                0u8
            },
        ) + u8_le(if t.delos_tariff > 100 { 100u8 } else { t.delos_tariff as u8 }),
        territory_type == TERRITORY_BATTLE ==> pkt.data@ == u8_le(TERRITORY_BATTLE) + u8_le(1) + u16_le(0) + u8_le(
            t.battle_victor,
        ) + u8_le(0),
        territory_type != TERRITORY_CASTLE && territory_type != TERRITORY_BATTLE ==> pkt.data@ == u8_le(
            territory_type,
        ) + u8_le(0),
{
    if territory_type == TERRITORY_CASTLE {
        let nation: u8 = if t.castle_owner_clan > 0 {
            match t.castle_owner_nation {
                Some(n) => n,
                None => 0,
            }
        } else {
            0
        };
        build_territory_response(TERRITORY_CASTLE, t.castle_owner_clan, nation, castle_tax_rate(t.delos_tariff))
    } else if territory_type == TERRITORY_BATTLE {
        build_territory_response(TERRITORY_BATTLE, 0, t.battle_victor, 0)
    } else {
        build_territory_empty(territory_type)
    }
}

} // verus!
