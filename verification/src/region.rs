//! What a player looks like to others: the visible equipment (with the
//! dragon-armor disguise of nation battles), the alliance cape, and the
//! WIZ_USER_INOUT packet with its user-info block; also the merchant and
//! region lists sent around a player.
use vstd::prelude::*;
use crate::packet::{Packet, u8_le, u16_le, u32_le, sbyte_string};
use crate::inventory::UserItemSlot;
use crate::clock::unix_now;

verus! {

pub const WIZ_USER_INOUT: u8 = 0x07;
pub const WIZ_REGIONCHANGE: u8 = 0x15;
pub const WIZ_NPC_REGION: u8 = 0x1C;
pub const WIZ_MERCHANT_INOUT: u8 = 0x69;

pub const INOUT_IN: u8 = 1;
pub const INOUT_OUT: u8 = 2;
pub const INOUT_RESPAWN: u8 = 3;
pub const INOUT_WARP: u8 = 4;

/// NPC in-out type "in", the same value as `INOUT_IN`.
pub const NPC_IN: u8 = 1;

pub const ZONE_BATTLE3: u16 = 63;
pub const ZONE_SPBATTLE_MIN: u16 = 105;
pub const ZONE_SPBATTLE_MAX: u16 = 115;
pub const ZONE_RONARK_LAND_PK: u16 = 71;
pub const ZONE_ARDREAM_PK: u16 = 72;
pub const ZONE_RONARK_LAND_BASE_PK: u16 = 73;

/// Merchant states.
pub const MERCHANT_STATE_SELLING: u8 = 0;
pub const MERCHANT_STATE_BUYING: u8 = 1;

/// Number of visible equipment slots in the user-info block.
pub const VISUAL_SLOTS: usize = 17;

/// Inventory slots shown to others, in broadcast order: breast, leg, head,
/// glove, foot, shoulder, right hand, left hand, then the nine cosplay
/// slots (wing, helmet, left, right, top, tattoo, fairy, emblem, talisman).
pub const VISUAL_SLOT_ORDER: [usize; 17] = [4, 10, 1, 12, 13, 5, 6, 8, 42, 43, 44, 45, 46, 49, 48, 47, 50];

pub open spec fn visual_slot_order() -> Seq<usize> {
    seq![4usize, 10, 1, 12, 13, 5, 6, 8, 42, 43, 44, 45, 46, 49, 48, 47, 50]
}

/// Visible equipment with nothing worn.
pub fn empty_equip_visual() -> (r: [(u32, i16, u8); 17])
    ensures
        forall|i: int| 0 <= i < 17 ==> #[trigger] r@[i] == (0u32, 0i16, 0u8),
{
    [(0u32, 0i16, 0u8); 17]
}

/// Dragon armor a class wears in a nation battle: the warriors' set also
/// dresses Kurians.
pub open spec fn spec_dragon_armor(class: u16) -> Option<Seq<u32>> {
    let c = class % 100;
    if c == 1 || c == 5 || c == 6 || c == 13 || c == 14 || c == 15 {
        Some(seq![507001010u32, 507002010, 507003010, 507004010, 507005010])
    } else if c == 2 || c == 7 || c == 8 {
        Some(seq![547001010u32, 547002010, 547003010, 547004010, 547005010])
    } else if c == 3 || c == 9 || c == 10 {
        Some(seq![567001010u32, 567002010, 567003010, 567004010, 567005010])
    } else if c == 4 || c == 11 || c == 12 {
        Some(seq![587001018u32, 587002018, 587003018, 587004018, 587005018])
    } else {
        None
    }
}

/// Dragon armor item IDs (breast, leg, head, glove, foot) for a class, by
/// its base class (`class % 100`).
pub fn dragon_armor_for_class(class: u16) -> (r: Option<[u32; 5]>)
    ensures
        r is None <==> spec_dragon_armor(class) is None,
        r is Some ==> r->0@ == spec_dragon_armor(class)->0,
{
    let c = class % 100;
    let r = if c == 1 || c == 5 || c == 6 || c == 13 || c == 14 || c == 15 {
        Some([507001010u32, 507002010, 507003010, 507004010, 507005010])
    } else if c == 2 || c == 7 || c == 8 {
        Some([547001010u32, 547002010, 547003010, 547004010, 547005010])
    } else if c == 3 || c == 9 || c == 10 {
        Some([567001010u32, 567002010, 567003010, 567004010, 567005010])
    } else if c == 4 || c == 11 || c == 12 {
        Some([587001018u32, 587002018, 587003018, 587004018, 587005018])
    } else {
        None
    };
    proof {
        if r is Some {
            assert(r->0@ =~= spec_dragon_armor(class)->0);
        }
    }
    r
}

/// A nation battle is on outside Battle 3: the dragon disguise applies.
pub open spec fn spec_dragon_disguise(nation_battle: bool, battle_zone: u16) -> bool {
    nation_battle && battle_zone != ZONE_BATTLE3
}

/// What slot `i` of the visible equipment shows before any disguise: the
/// item in its inventory slot, or nothing.
pub open spec fn spec_worn_visual(inv: Seq<UserItemSlot>, i: int) -> (u32, i16, u8) {
    let slot = visual_slot_order()[i] as int;
    if slot < inv.len() && inv[slot].item_id != 0 {
        (inv[slot].item_id, inv[slot].durability, inv[slot].flag)
    } else {
        (0u32, 0i16, 0u8)
    }
}

/// What slot `i` of the visible equipment shows: the worn item, whose ID
/// the dragon armor replaces in the first five slots while the disguise
/// applies and the class has a set (durability and flag stay).
pub open spec fn spec_visual(inv: Seq<UserItemSlot>, class: Option<u16>, disguise: bool, i: int) -> (u32, i16, u8) {
    let worn = spec_worn_visual(inv, i);
    if disguise && i < 5 && class is Some && spec_dragon_armor(class->0) is Some {
        (spec_dragon_armor(class->0)->0[i], worn.1, worn.2)
    } else {
        worn
    }
}

/// The 17 visible equipment slots of a player, in broadcast order, as
/// (item, durability, flag). `class` is the character's class if known;
/// `nation_battle` and `battle_zone` describe the running battle.
pub fn get_equipped_visual(
    inventory: &[UserItemSlot],
    class: Option<u16>,
    nation_battle: bool,
    battle_zone: u16,
) -> (r: [(u32, i16, u8); 17])
    ensures
        forall|i: int|
            0 <= i < 17 ==> #[trigger] r@[i] == spec_visual(
                inventory@,
                class,
                spec_dragon_disguise(nation_battle, battle_zone),
                i,
            ),
{
    let order = VISUAL_SLOT_ORDER;
    assert(order@ =~= visual_slot_order());
    let mut result = [(0u32, 0i16, 0u8); 17];
    let mut i: usize = 0;
    while i < 17
        invariant
            i <= 17,
            order@ == visual_slot_order(),
            forall|j: int| 0 <= j < i ==> #[trigger] result@[j] == spec_worn_visual(inventory@, j),
            forall|j: int| i <= j < 17 ==> #[trigger] result@[j] == (0u32, 0i16, 0u8),
        decreases 17 - i,
    {
        let slot = order[i];
        if slot < inventory.len() {
            let item = inventory[slot];
            if item.item_id != 0 {
                result[i] = (item.item_id, item.durability, item.flag);
            }
        }
        i = i + 1;
    }
    if nation_battle && battle_zone != ZONE_BATTLE3 {
        if let Some(c) = class {
            if let Some(items) = dragon_armor_for_class(c) {
                let mut k: usize = 0;
                while k < 5
                    invariant
                        k <= 5,
                        items@ == spec_dragon_armor(c)->0,
                        spec_dragon_armor(c) is Some,
                        forall|j: int| 0 <= j < k ==> #[trigger] result@[j] == (
                            items@[j],
                            spec_worn_visual(inventory@, j).1,
                            spec_worn_visual(inventory@, j).2,
                        ),
                        forall|j: int| k <= j < 17 ==> #[trigger] result@[j] == spec_worn_visual(inventory@, j),
                    decreases 5 - k,
                {
                    let (_, dur, flag) = result[k];
                    result[k] = (items[k], dur, flag);
                    k = k + 1;
                }
            }
        }
    }
    result
}

/// PK zones: Ronark Land, Ardream, Ronark Land Base and the special event
/// zones 105 to 115.
pub open spec fn spec_is_pk_zone(zone_id: u16) -> bool {
    zone_id == ZONE_ARDREAM_PK || zone_id == ZONE_RONARK_LAND_PK || zone_id == ZONE_RONARK_LAND_BASE_PK
        || (ZONE_SPBATTLE_MIN <= zone_id <= ZONE_SPBATTLE_MAX)
}

/// Whether the zone is a PK zone (where others do not see one's fame).
pub fn is_pk_zone(zone_id: u16) -> (r: bool)
    ensures
        r == spec_is_pk_zone(zone_id),
{
    zone_id == ZONE_ARDREAM_PK || zone_id == ZONE_RONARK_LAND_PK || zone_id == ZONE_RONARK_LAND_BASE_PK
        || (ZONE_SPBATTLE_MIN <= zone_id && zone_id <= ZONE_SPBATTLE_MAX)
}

/// A clan as the user-info block and the cape rules read it.
pub struct ClanInfo {
    pub id: u16,
    pub alliance: u16,
    pub name: String,
    pub grade: u8,
    pub ranking: u8,
    pub mark_version: u16,
    pub flag: u8,
    pub cape: u16,
    pub cape_r: u8,
    pub cape_g: u8,
    pub cape_b: u8,
    pub castellan_cape: bool,
    /// The castellan cape is worn until this time (seconds since the epoch).
    pub cast_cape_time: u32,
    pub cast_cape_id: u16,
    pub cast_cape_r: u8,
    pub cast_cape_g: u8,
    pub cast_cape_b: u8,
}

/// An alliance's member clans.
#[derive(Clone, Copy, Debug, PartialEq, Eq, Structural)]
pub struct AllianceInfo {
    pub sub_clan: u16,
    pub mercenary_1: u16,
    pub mercenary_2: u16,
}

pub open spec fn opt_alliance(a: Option<&AllianceInfo>) -> Option<AllianceInfo> {
    match a {
        Some(a) => Some(*a),
        None => None,
    }
}

pub open spec fn opt_clan(c: Option<&ClanInfo>) -> Option<ClanInfo> {
    match c {
        Some(c) => Some(*c),
        None => None,
    }
}

/// The cape a clan shows: its castellan cape while that lasts, else its own.
pub open spec fn spec_clan_cape(c: ClanInfo, now: u32) -> (u16, u8, u8, u8) {
    if c.castellan_cape && c.cast_cape_time >= now {
        (c.cast_cape_id, c.cast_cape_r, c.cast_cape_g, c.cast_cape_b)
    } else {
        (c.cape, c.cape_r, c.cape_g, c.cape_b)
    }
}

pub open spec fn spec_alliance_cape(
    ki: ClanInfo,
    alliance: Option<AllianceInfo>,
    main_clan: Option<ClanInfo>,
    now: u32,
) -> Option<(u16, u8, u8, u8)> {
    if ki.alliance == 0 || alliance is None || main_clan is None {
        None
    } else {
        let a = alliance->0;
        let base = spec_clan_cape(main_clan->0, now);
        if a.sub_clan == ki.id {
            Some((base.0, ki.cape_r, ki.cape_g, ki.cape_b))
        } else if a.mercenary_1 == ki.id || a.mercenary_2 == ki.id {
            Some((base.0, 0u8, 0u8, 0u8))
        } else {
            Some(base)
        }
    }
}

/// The alliance cape of a clan member at time `now`, as (cape, R, G, B):
/// none outside an alliance (or when the alliance or its main clan is
/// unknown); otherwise the main clan's cape (its castellan cape while that
/// lasts), coloured with the sub clan's own colours, black for mercenary
/// clans, and the main clan's colours for everyone else. `alliance` and
/// `main_clan` are looked up by `ki.alliance`.
pub fn resolve_alliance_cape_at(
    ki: &ClanInfo,
    alliance: Option<&AllianceInfo>,
    main_clan: Option<&ClanInfo>,
    now: u32,
) -> (r: Option<(u16, u8, u8, u8)>)
    ensures
        r == spec_alliance_cape(
            *ki,
            opt_alliance(alliance),
            opt_clan(main_clan),
            now,
        ),
{
    if ki.alliance == 0 {
        return None;
    }
    let a = match alliance {
        Some(a) => a,
        None => return None,
    };
    let m = match main_clan {
        Some(m) => m,
        None => return None,
    };
    let base = if m.castellan_cape && m.cast_cape_time >= now {
        (m.cast_cape_id, m.cast_cape_r, m.cast_cape_g, m.cast_cape_b)
    } else {
        (m.cape, m.cape_r, m.cape_g, m.cape_b)
    };
    if a.sub_clan == ki.id {
        Some((base.0, ki.cape_r, ki.cape_g, ki.cape_b))
    } else if a.mercenary_1 == ki.id || a.mercenary_2 == ki.id {
        Some((base.0, 0, 0, 0))
    } else {
        Some(base)
    }
}

/// `resolve_alliance_cape_at` at the current time, as read from the clock.
pub fn resolve_alliance_cape(
    ki: &ClanInfo,
    alliance: Option<&AllianceInfo>,
    main_clan: Option<&ClanInfo>,
) -> (r: Option<(u16, u8, u8, u8)>)
    ensures
        exists|now: u32|
            r == #[trigger] spec_alliance_cape(
                *ki,
                opt_alliance(alliance),
                opt_clan(main_clan),
                now,
            ),
{
    let now = unix_now() as u32;
    resolve_alliance_cape_at(ki, alliance, main_clan, now)
}

/// A character as the user-info block reads it.
pub struct UserInfoCharacter {
    pub name: String,
    pub nation: u8,
    pub knights_id: u16,
    pub fame: u8,
    pub level: u8,
    pub race: u8,
    pub class: u16,
    pub face: u8,
    pub hair_rgb: u32,
    pub res_hp_type: u8,
    pub authority: u8,
    pub rank: u8,
    pub rebirth_level: u8,
    pub cover_title: u16,
}

/// A position for the user-info block: the zone, and the coordinates
/// already scaled by ten as the client reads them.
#[derive(Clone, Copy, Debug, PartialEq, Eq, Structural)]
pub struct ScaledPosition {
    pub zone_id: u16,
    pub x10: u16,
    pub z10: u16,
    pub y10: u16,
}

/// The per-session flags others see.
#[derive(Clone, Copy, Debug, PartialEq, Eq, Structural)]
pub struct BroadcastState {
    pub need_party: u8,
    pub party_leader: u8,
    pub is_devil: u8,
    pub team_colour: u8,
    pub direction: u16,
    pub is_hiding_helmet: u8,
    pub is_hiding_cospre: u8,
    /// Clan rank, -1 when unranked.
    pub knights_rank: i8,
    /// Personal rank, -1 when unranked.
    pub personal_rank: i8,
    pub is_in_genie: u8,
    pub return_symbol_ok: u32,
}

impl BroadcastState {
    /// Every flag and rank zero.
    pub fn zeroed() -> (b: BroadcastState)
        ensures
            b == (BroadcastState {
                need_party: 0,
                party_leader: 0,
                is_devil: 0,
                team_colour: 0,
                direction: 0,
                is_hiding_helmet: 0,
                is_hiding_cospre: 0,
                knights_rank: 0,
                personal_rank: 0,
                is_in_genie: 0,
                return_symbol_ok: 0,
            }),
    {
        BroadcastState {
            need_party: 0,
            party_leader: 0,
            is_devil: 0,
            team_colour: 0,
            direction: 0,
            is_hiding_helmet: 0,
            is_hiding_cospre: 0,
            knights_rank: 0,
            personal_rank: 0,
            is_in_genie: 0,
            return_symbol_ok: 0,
        }
    }
}

/// The nation cape of a king: 97 for Karus, 98 for El Morad.
pub open spec fn king_cape(nation: u8) -> u16 {
    if nation == 1 { 97 } else { 98 }
}

pub open spec fn cape_bytes(c: (u16, u8, u8, u8)) -> Seq<u8> {
    u16_le(c.0) + u8_le(c.1) + u8_le(c.2) + u8_le(c.3) + u8_le(0)
}

/// The clan block of the user info: the clan's alliance, name, grade,
/// ranking, mark version, cape and flag; a king wears the nation cape.
/// Without a clan, seven zero bytes, the cape (-1, or the king's), and
/// zeros.
pub open spec fn clan_block_bytes(
    nation: u8,
    clan: Option<ClanInfo>,
    alliance_cape: Option<(u16, u8, u8, u8)>,
    is_king: bool,
    now: u32,
) -> Seq<u8> {
    match clan {
        Some(ki) => u16_le(ki.alliance) + sbyte_string(vstd::utf8::encode_utf8(ki.name@)) + u8_le(ki.grade)
            + u8_le(ki.ranking) + u16_le(ki.mark_version) + (if is_king {
            u16_le(king_cape(nation)) + u32_le(0)
        } else {
            match alliance_cape {
                Some(c) => cape_bytes(c),
                None => cape_bytes(spec_clan_cape(ki, now)),
            }
        }) + u8_le(ki.flag),
        None => u16_le(0) + u8_le(0) + u8_le(0) + u8_le(0) + u16_le(0) + u16_le(
            if is_king { king_cape(nation) } else { 0xFFFFu16 },
        ) + u32_le(0) + u8_le(0),
    }
}

/// Name, nation, clan ID and fame (hidden in PK zones), then the clan block.
pub open spec fn user_info_head_bytes(
    ch: UserInfoCharacter,
    zone_id: u16,
    clan: Option<ClanInfo>,
    alliance_cape: Option<(u16, u8, u8, u8)>,
    is_king: bool,
    now: u32,
) -> Seq<u8> {
    sbyte_string(vstd::utf8::encode_utf8(ch.name@)) + u8_le(ch.nation) + u8_le(0) + u8_le(0) + u8_le(0)
        + u16_le(ch.knights_id) + u8_le(if spec_is_pk_zone(zone_id) { 0u8 } else { ch.fame })
        + clan_block_bytes(ch.nation, clan, alliance_cape, is_king, now)
}

/// Level, race, class, position, looks, status flags and the better of the
/// two ranks (each written only where it is the better one, else -1).
pub open spec fn user_info_body_bytes(
    ch: UserInfoCharacter,
    pos: ScaledPosition,
    invisibility_type: u8,
    abnormal_type: u32,
    bs: BroadcastState,
) -> Seq<u8> {
    u8_le(ch.level) + u8_le(ch.race) + u16_le(ch.class) + u16_le(pos.x10) + u16_le(pos.z10) + u16_le(pos.y10)
        + u8_le(ch.face) + u32_le(ch.hair_rgb) + u8_le(ch.res_hp_type) + u32_le(abnormal_type) + u8_le(0)
        + u8_le(bs.need_party) + u8_le(ch.authority) + u8_le(bs.party_leader) + u8_le(
        if invisibility_type != 0 { 1u8 } else { 0u8 },
    ) + u8_le(bs.team_colour) + u8_le(bs.is_devil) + u8_le(0) + u16_le(bs.direction) + u8_le(
        if ch.level < 30 { 1u8 } else { 0u8 },
    ) + u8_le(ch.rank) + u8_le(0) + u8_le(0) + u8_le(
        (if bs.knights_rank <= bs.personal_rank { bs.knights_rank } else { -1i8 }) as u8,
    ) + u8_le((if bs.personal_rank <= bs.knights_rank { bs.personal_rank } else { -1i8 }) as u8)
}

/// The visible equipment: per slot `[u32 item][u16 durability][u8 flag]`.
pub open spec fn equip_bytes(e: Seq<(u32, i16, u8)>) -> Seq<u8>
    decreases e.len(),
{
    if e.len() == 0 {
        Seq::empty()
    } else {
        equip_bytes(e.drop_last()) + u32_le(e.last().0) + u16_le(e.last().1 as u16) + u8_le(e.last().2)
    }
}

/// Zone and the trailing fields.
pub open spec fn user_info_tail_bytes(ch: UserInfoCharacter, zone_id: u16, bs: BroadcastState) -> Seq<u8> {
    u16_le(zone_id) + u32_le(0xFFFF_FFFF) + u8_le(0) + u32_le(0) + u8_le(bs.is_hiding_helmet) + u8_le(
        bs.is_hiding_cospre,
    ) + u8_le(bs.is_in_genie) + u8_le(ch.rebirth_level) + u16_le(ch.cover_title) + u32_le(bs.return_symbol_ok)
        + u8_le(0) + u8_le(0) + u8_le(1)
}

/// The whole user-info block.
pub open spec fn user_info_bytes(
    ch: UserInfoCharacter,
    pos: ScaledPosition,
    clan: Option<ClanInfo>,
    alliance_cape: Option<(u16, u8, u8, u8)>,
    is_king: bool,
    invisibility_type: u8,
    abnormal_type: u32,
    bs: BroadcastState,
    equip: Seq<(u32, i16, u8)>,
    now: u32,
) -> Seq<u8> {
    user_info_head_bytes(ch, pos.zone_id, clan, alliance_cape, is_king, now) + user_info_body_bytes(
        ch,
        pos,
        invisibility_type,
        abnormal_type,
        bs,
    ) + equip_bytes(equip) + user_info_tail_bytes(ch, pos.zone_id, bs)
}

fn cape_segment(c: (u16, u8, u8, u8)) -> (v: Vec<u8>)
    ensures
        v@ == cape_bytes(c),
{
    let mut p = Packet::new(0);
    p.write_u16(c.0);
    assert(p.data@ =~= u16_le(c.0));
    p.write_u8(c.1);
    p.write_u8(c.2);
    p.write_u8(c.3);
    p.write_u8(0);
    p.data
}

fn clan_block_segment(
    nation: u8,
    clan: Option<&ClanInfo>,
    alliance_cape: Option<(u16, u8, u8, u8)>,
    is_king: bool,
    now: u32,
) -> (v: Vec<u8>)
    ensures
        v@ == clan_block_bytes(nation, opt_clan(clan), alliance_cape, is_king, now),
{
    let king: u16 = if nation == 1 { 97 } else { 98 };
    let mut p = Packet::new(0);
    match clan {
        Some(ki) => {
            p.write_u16(ki.alliance);
            assert(p.data@ =~= u16_le(ki.alliance));
            p.write_sbyte_string(ki.name.as_str());
            p.write_u8(ki.grade);
            p.write_u8(ki.ranking);
            p.write_u16(ki.mark_version);
            let ghost before = p.data@;
            if is_king {
                let mut k = Packet::new(0);
                k.write_u16(king);
                assert(k.data@ =~= u16_le(king));
                k.write_u32(0);
                p.write_bytes(k.data.as_slice());
            } else {
                let c = match alliance_cape {
                    Some(c) => c,
                    None => if ki.castellan_cape && ki.cast_cape_time >= now {
                        (ki.cast_cape_id, ki.cast_cape_r, ki.cast_cape_g, ki.cast_cape_b)
                    } else {
                        (ki.cape, ki.cape_r, ki.cape_g, ki.cape_b)
                    },
                };
                let seg = cape_segment(c);
                p.write_bytes(seg.as_slice());
            }
            p.write_u8(ki.flag);
        },
        None => {
            p.write_u16(0);
            assert(p.data@ =~= u16_le(0));
            p.write_u8(0);
            p.write_u8(0);
            p.write_u8(0);
            p.write_u16(0);
            p.write_u16(if is_king { king } else { 0xFFFF });
            p.write_u32(0);
            p.write_u8(0);
        },
    }
    p.data
}

fn user_info_head_segment(
    ch: &UserInfoCharacter,
    zone_id: u16,
    clan: Option<&ClanInfo>,
    alliance_cape: Option<(u16, u8, u8, u8)>,
    is_king: bool,
    now: u32,
) -> (v: Vec<u8>)
    ensures
        v@ == user_info_head_bytes(*ch, zone_id, opt_clan(clan), alliance_cape, is_king, now),
{
    let mut p = Packet::new(0);
    p.write_sbyte_string(ch.name.as_str());
    assert(p.data@ =~= sbyte_string(vstd::utf8::encode_utf8(ch.name@)));
    p.write_u8(ch.nation);
    p.write_u8(0);
    p.write_u8(0);
    p.write_u8(0);
    p.write_u16(ch.knights_id);
    let fame = if is_pk_zone(zone_id) { 0 } else { ch.fame };
    p.write_u8(fame);
    let seg = clan_block_segment(ch.nation, clan, alliance_cape, is_king, now);
    p.write_bytes(seg.as_slice());
    p.data
}

fn user_info_body_segment(
    ch: &UserInfoCharacter,
    pos: &ScaledPosition,
    invisibility_type: u8,
    abnormal_type: u32,
    bs: &BroadcastState,
) -> (v: Vec<u8>)
    ensures
        v@ == user_info_body_bytes(*ch, *pos, invisibility_type, abnormal_type, *bs),
{
    let mut p = Packet::new(0);
    p.write_u8(ch.level);
    assert(p.data@ =~= u8_le(ch.level));
    p.write_u8(ch.race);
    p.write_u16(ch.class);
    p.write_u16(pos.x10);
    p.write_u16(pos.z10);
    p.write_u16(pos.y10);
    p.write_u8(ch.face);
    p.write_u32(ch.hair_rgb);
    p.write_u8(ch.res_hp_type);
    p.write_u32(abnormal_type);
    p.write_u8(0);
    p.write_u8(bs.need_party);
    p.write_u8(ch.authority);
    p.write_u8(bs.party_leader);
    p.write_u8(if invisibility_type != 0 { 1 } else { 0 });
    p.write_u8(bs.team_colour);
    p.write_u8(bs.is_devil);
    p.write_u8(0);
    p.write_u16(bs.direction);
    p.write_u8(if ch.level < 30 { 1 } else { 0 });
    p.write_u8(ch.rank);
    p.write_u8(0);
    p.write_u8(0);
    let kr = bs.knights_rank;
    let pr = bs.personal_rank;
    p.write_i8(if kr <= pr { kr } else { -1 });
    p.write_i8(if pr <= kr { pr } else { -1 });
    p.data
}

fn equip_segment(equip: &[(u32, i16, u8); 17]) -> (v: Vec<u8>)
    ensures
        v@ == equip_bytes(equip@),
{
    let mut p = Packet::new(0);
    let mut i: usize = 0;
    while i < 17
        invariant
            i <= 17,
            equip@.len() == 17,
            p.data@ == equip_bytes(equip@.subrange(0, i as int)),
        decreases 17 - i,
    {
        let (item_id, dur, flag) = equip[i];
        p.write_u32(item_id);
        p.write_u16(dur as u16);
        p.write_u8(flag);
        proof {
            let next = equip@.subrange(0, i as int + 1);
            assert(next.drop_last() == equip@.subrange(0, i as int));
            assert(next.last() == equip@[i as int]);
        }
        i = i + 1;
    }
    assert(equip@.subrange(0, 17) == equip@);
    p.data
}

fn user_info_tail_segment(ch: &UserInfoCharacter, zone_id: u16, bs: &BroadcastState) -> (v: Vec<u8>)
    ensures
        v@ == user_info_tail_bytes(*ch, zone_id, *bs),
{
    let mut p = Packet::new(0);
    p.write_u16(zone_id);
    assert(p.data@ =~= u16_le(zone_id));
    p.write_u32(0xFFFF_FFFF);
    p.write_u8(0);
    p.write_u32(0);
    p.write_u8(bs.is_hiding_helmet);
    p.write_u8(bs.is_hiding_cospre);
    p.write_u8(bs.is_in_genie);
    p.write_u8(ch.rebirth_level);
    p.write_u16(ch.cover_title);
    p.write_u32(bs.return_symbol_ok);
    p.write_u8(0);
    p.write_u8(0);
    p.write_u8(1);
    p.data
}

/// Appends the user-info block of a player at time `now` (which decides
/// whether a castellan cape still shows). Fame is hidden in PK zones; a
/// king wears the nation cape; an alliance cape comes before the clan's
/// own; any stealth shows to the client as type 1; characters under level
/// 30 are marked as beginners.
pub fn write_user_info_at(
    pkt: &mut Packet,
    ch: &UserInfoCharacter,
    pos: &ScaledPosition,
    clan: Option<&ClanInfo>,
    alliance_cape: Option<(u16, u8, u8, u8)>,
    is_king: bool,
    invisibility_type: u8,
    abnormal_type: u32,
    bs: &BroadcastState,
    equip: &[(u32, i16, u8); 17],
    now: u32,
)
    ensures
        final(pkt).opcode == old(pkt).opcode,
        final(pkt).data@ == old(pkt).data@ + user_info_bytes(
            *ch,
            *pos,
            opt_clan(clan),
            alliance_cape,
            is_king,
            invisibility_type,
            abnormal_type,
            *bs,
            equip@,
            now,
        ),
{
    let head = user_info_head_segment(ch, pos.zone_id, clan, alliance_cape, is_king, now);
    let body = user_info_body_segment(ch, pos, invisibility_type, abnormal_type, bs);
    let worn = equip_segment(equip);
    let tail = user_info_tail_segment(ch, pos.zone_id, bs);
    let ghost start = pkt.data@;
    pkt.write_bytes(head.as_slice());
    pkt.write_bytes(body.as_slice());
    pkt.write_bytes(worn.as_slice());
    pkt.write_bytes(tail.as_slice());
    assert(pkt.data@ =~= start + (head@ + body@ + worn@ + tail@));
}

/// `write_user_info_at` at the current time, as read from the clock.
pub fn write_user_info(
    pkt: &mut Packet,
    ch: &UserInfoCharacter,
    pos: &ScaledPosition,
    clan: Option<&ClanInfo>,
    alliance_cape: Option<(u16, u8, u8, u8)>,
    is_king: bool,
    invisibility_type: u8,
    abnormal_type: u32,
    bs: &BroadcastState,
    equip: &[(u32, i16, u8); 17],
)
    ensures
        final(pkt).opcode == old(pkt).opcode,
        exists|now: u32|
            final(pkt).data@ == old(pkt).data@ + #[trigger] user_info_bytes(
                *ch,
                *pos,
                opt_clan(clan),
                alliance_cape,
                is_king,
                invisibility_type,
                abnormal_type,
                *bs,
                equip@,
                now,
            ),
{
    let now = unix_now() as u32;
    write_user_info_at(pkt, ch, pos, clan, alliance_cape, is_king, invisibility_type, abnormal_type, bs, equip, now);
}

/// Bytes of a WIZ_USER_INOUT: `[u8 type][u8 0][u32 session]`, then the
/// user-info block unless the type is `INOUT_OUT` or the character is
/// unknown.
pub open spec fn user_inout_bytes(
    inout_type: u8,
    session_id: u16,
    character: Option<UserInfoCharacter>,
    position: ScaledPosition,
    clan: Option<ClanInfo>,
    alliance_cape: Option<(u16, u8, u8, u8)>,
    is_king: bool,
    invisibility_type: u8,
    abnormal_type: u32,
    bs: BroadcastState,
    equip: Seq<(u32, i16, u8)>,
    now: u32,
) -> Seq<u8> {
    u8_le(inout_type) + u8_le(0) + u32_le(session_id as u32) + if inout_type != INOUT_OUT && character is Some {
        user_info_bytes(
            character->0,
            position,
            clan,
            alliance_cape,
            is_king,
            invisibility_type,
            abnormal_type,
            bs,
            equip,
            now,
        )
    } else {
        Seq::empty()
    }
}

pub open spec fn opt_character(c: Option<&UserInfoCharacter>) -> Option<UserInfoCharacter> {
    match c {
        Some(c) => Some(*c),
        None => None,
    }
}

/// WIZ_USER_INOUT for a player, with clan, alliance cape, king flag,
/// stealth, abnormal state, broadcast flags and visible equipment, at time
/// `now`.
pub fn build_user_inout_with_clan_at(
    inout_type: u8,
    session_id: u16,
    character: Option<&UserInfoCharacter>,
    position: &ScaledPosition,
    clan: Option<&ClanInfo>,
    alliance_cape: Option<(u16, u8, u8, u8)>,
    is_king: bool,
    invisibility_type: u8,
    abnormal_type: u32,
    bs: &BroadcastState,
    equip: &[(u32, i16, u8); 17],
    now: u32,
) -> (pkt: Packet)
    ensures
        pkt.opcode == WIZ_USER_INOUT,
        pkt.data@ == user_inout_bytes(
            inout_type,
            session_id,
            opt_character(character),
            *position,
            opt_clan(clan),
            alliance_cape,
            is_king,
            invisibility_type,
            abnormal_type,
            *bs,
            equip@,
            now,
        ),
{
    let mut pkt = Packet::new(WIZ_USER_INOUT);
    pkt.write_u8(inout_type);
    assert(pkt.data@ =~= u8_le(inout_type));
    pkt.write_u8(0);
    pkt.write_u32(session_id as u32);
    if inout_type != INOUT_OUT {
        if let Some(ch) = character {
            let ghost start = pkt.data@;
            write_user_info_at(
                &mut pkt,
                ch,
                position,
                clan,
                alliance_cape,
                is_king,
                invisibility_type,
                abnormal_type,
                bs,
                equip,
                now,
            );
        }
    }
    pkt
}

/// `build_user_inout_with_clan_at` at the current time, as read from the clock.
pub fn build_user_inout_with_clan(
    inout_type: u8,
    session_id: u16,
    character: Option<&UserInfoCharacter>,
    position: &ScaledPosition,
    clan: Option<&ClanInfo>,
    alliance_cape: Option<(u16, u8, u8, u8)>,
    is_king: bool,
    invisibility_type: u8,
    abnormal_type: u32,
    bs: &BroadcastState,
    equip: &[(u32, i16, u8); 17],
) -> (pkt: Packet)
    ensures
        pkt.opcode == WIZ_USER_INOUT,
        exists|now: u32|
            pkt.data@ == #[trigger] user_inout_bytes(
                inout_type,
                session_id,
                opt_character(character),
                *position,
                opt_clan(clan),
                alliance_cape,
                is_king,
                invisibility_type,
                abnormal_type,
                *bs,
                equip@,
                now,
            ),
{
    let now = unix_now() as u32;
    build_user_inout_with_clan_at(
        inout_type,
        session_id,
        character,
        position,
        clan,
        alliance_cape,
        is_king,
        invisibility_type,
        abnormal_type,
        bs,
        equip,
        now,
    )
}

/// WIZ_USER_INOUT with stealth and abnormal state but no clan, default
/// flags and the given visible equipment.
pub fn build_user_inout_with_invis(
    inout_type: u8,
    session_id: u16,
    character: Option<&UserInfoCharacter>,
    position: &ScaledPosition,
    invisibility_type: u8,
    abnormal_type: u32,
    equip: &[(u32, i16, u8); 17],
) -> (pkt: Packet)
    ensures
        pkt.opcode == WIZ_USER_INOUT,
        pkt.data@ == user_inout_bytes(
            inout_type,
            session_id,
            opt_character(character),
            *position,
            None,
            None,
            false,
            invisibility_type,
            abnormal_type,
            BroadcastState {
                need_party: 0,
                party_leader: 0,
                is_devil: 0,
                team_colour: 0,
                direction: 0,
                is_hiding_helmet: 0,
                is_hiding_cospre: 0,
                knights_rank: 0,
                personal_rank: 0,
                is_in_genie: 0,
                return_symbol_ok: 0,
            },
            equip@,
            0,
        ),
{
    let bs = BroadcastState::zeroed();
    build_user_inout_with_clan_at(
        inout_type,
        session_id,
        character,
        position,
        None,
        None,
        false,
        invisibility_type,
        abnormal_type,
        &bs,
        equip,
        0,
    )
}

/// WIZ_USER_INOUT with no clan, no stealth, the normal abnormal state (1),
/// default flags and nothing visibly worn.
pub fn build_user_inout(inout_type: u8, session_id: u16, character: Option<&UserInfoCharacter>, position: &ScaledPosition) -> (pkt: Packet)
    ensures
        pkt.opcode == WIZ_USER_INOUT,
        pkt.data@ == user_inout_bytes(
            inout_type,
            session_id,
            opt_character(character),
            *position,
            None,
            None,
            false,
            0,
            1,
            BroadcastState {
                need_party: 0,
                party_leader: 0,
                is_devil: 0,
                team_colour: 0,
                direction: 0,
                is_hiding_helmet: 0,
                is_hiding_cospre: 0,
                knights_rank: 0,
                personal_rank: 0,
                is_in_genie: 0,
                return_symbol_ok: 0,
            },
            Seq::new(17, |i: int| (0u32, 0i16, 0u8)),
            0,
        ),
{
    let equip = empty_equip_visual();
    assert(equip@ =~= Seq::new(17, |i: int| (0u32, 0i16, 0u8)));
    build_user_inout_with_invis(inout_type, session_id, character, position, 0, 1, &equip)
}

/// A session's own flags as the world keeps them.
#[derive(Clone, Copy, Debug, PartialEq, Eq, Structural)]
pub struct SessionFlags {
    pub need_party: u8,
    pub party_leader: u8,
    pub is_devil: bool,
    pub team_colour: u8,
    pub direction: i16,
    pub is_hiding_helmet: bool,
    pub is_hiding_cospre: bool,
    /// Clan rank, 0 when unranked.
    pub knights_rank: u8,
    /// Personal rank, 0 when unranked.
    pub personal_rank: u8,
    pub genie_active: bool,
    pub return_symbol_ok: u32,
}

/// A rank as others see it: -1 when unranked (0).
pub open spec fn shown_rank(r: u8) -> i8 {
    if r == 0 { -1i8 } else { r as i8 }
}

/// What others see of a player besides the character itself.
#[derive(Clone, Copy, Debug)]
pub struct BroadcastSnapshot {
    pub invisibility_type: u8,
    pub abnormal_type: u32,
    pub broadcast_state: BroadcastState,
    pub equip_visual: [(u32, i16, u8); 17],
}

/// The broadcast view of a session: flags as 0/1 bytes, unranked ranks as
/// -1, and the visible equipment as `get_equipped_visual` gives it.
pub fn snapshot_broadcast_info(
    flags: &SessionFlags,
    inventory: &[UserItemSlot],
    class: Option<u16>,
    nation_battle: bool,
    battle_zone: u16,
    invisibility_type: u8,
    abnormal_type: u32,
) -> (r: BroadcastSnapshot)
    ensures
        r.invisibility_type == invisibility_type,
        r.abnormal_type == abnormal_type,
        r.broadcast_state == (BroadcastState {
            need_party: flags.need_party,
            party_leader: flags.party_leader,
            is_devil: if flags.is_devil { 1u8 } else { 0u8 },
            team_colour: flags.team_colour,
            direction: flags.direction as u16,
            is_hiding_helmet: if flags.is_hiding_helmet { 1u8 } else { 0u8 },
            is_hiding_cospre: if flags.is_hiding_cospre { 1u8 } else { 0u8 },
            knights_rank: shown_rank(flags.knights_rank),
            personal_rank: shown_rank(flags.personal_rank),
            is_in_genie: if flags.genie_active { 1u8 } else { 0u8 },
            return_symbol_ok: flags.return_symbol_ok,
        }),
        forall|i: int|
            0 <= i < 17 ==> #[trigger] r.equip_visual@[i] == spec_visual(
                inventory@,
                class,
                spec_dragon_disguise(nation_battle, battle_zone),
                i,
            ),
{
    let equip = get_equipped_visual(inventory, class, nation_battle, battle_zone);
    let bs = BroadcastState {
        need_party: flags.need_party,
        party_leader: flags.party_leader,
        is_devil: if flags.is_devil { 1 } else { 0 },
        team_colour: flags.team_colour,
        direction: flags.direction as u16,
        is_hiding_helmet: if flags.is_hiding_helmet { 1 } else { 0 },
        is_hiding_cospre: if flags.is_hiding_cospre { 1 } else { 0 },
        knights_rank: if flags.knights_rank == 0 { -1 } else { flags.knights_rank as i8 },
        personal_rank: if flags.personal_rank == 0 { -1 } else { flags.personal_rank as i8 },
        is_in_genie: if flags.genie_active { 1 } else { 0 },
        return_symbol_ok: flags.return_symbol_ok,
    };
    BroadcastSnapshot { invisibility_type, abnormal_type, broadcast_state: bs, equip_visual: equip }
}

/// Whether two regions are within one step of each other on both axes.
pub open spec fn spec_in_3x3(rx: u16, rz: u16, other_rx: u16, other_rz: u16) -> bool {
    -1 <= other_rx - rx <= 1 && -1 <= other_rz - rz <= 1
}

/// Seeing is mutual: a player is in the 3x3 block around another exactly
/// when the other is in the block around the player.
pub proof fn lemma_in_3x3_symmetric(rx: u16, rz: u16, other_rx: u16, other_rz: u16)
    ensures
        spec_in_3x3(rx, rz, other_rx, other_rz) == spec_in_3x3(other_rx, other_rz, rx, rz),
{
}

/// Whether a region lies in the 3x3 block of regions around another.
pub fn in_3x3(rx: u16, rz: u16, other_rx: u16, other_rz: u16) -> (r: bool)
    ensures
        r == spec_in_3x3(rx, rz, other_rx, other_rz),
{
    let dx: i32 = other_rx as i32 - rx as i32;
    let dz: i32 = other_rz as i32 - rz as i32;
    -1 <= dx && dx <= 1 && -1 <= dz && dz <= 1
}

/// A player or bot nearby that might be merchanting.
#[derive(Clone, Copy, Debug, PartialEq, Eq, Structural)]
pub struct MerchantCandidate {
    pub id: u32,
    /// Merchant state: -1 when not merchanting, else selling (0) or buying (1).
    pub merchant_state: i8,
    pub premium: bool,
    /// Whether it may be shown (a player not invisible, a bot within reach).
    pub shown: bool,
}

/// A candidate appears in the merchant list.
pub open spec fn spec_listed(c: MerchantCandidate) -> bool {
    c.shown && c.merchant_state != -1
}

/// Premium flag shown for a merchant: buying merchants never show premium.
pub open spec fn spec_shown_premium(c: MerchantCandidate) -> bool {
    if c.merchant_state == MERCHANT_STATE_BUYING as i8 { false } else { c.premium }
}

/// Entries of the listed candidates, `[u32 id][u8 state][u8 premium]` each.
pub open spec fn merchant_entries_bytes(cs: Seq<MerchantCandidate>) -> Seq<u8>
    decreases cs.len(),
{
    if cs.len() == 0 {
        Seq::empty()
    } else {
        let c = cs.last();
        merchant_entries_bytes(cs.drop_last()) + if spec_listed(c) {
            u32_le(c.id) + u8_le(c.merchant_state as u8) + u8_le(if spec_shown_premium(c) { 1u8 } else { 0u8 })
        } else {
            Seq::empty()
        }
    }
}

/// Number of listed candidates.
pub open spec fn merchant_count(cs: Seq<MerchantCandidate>) -> nat
    decreases cs.len(),
{
    if cs.len() == 0 {
        0
    } else {
        merchant_count(cs.drop_last()) + if spec_listed(cs.last()) { 1nat } else { 0nat }
    }
}

proof fn lemma_merchant_count_bound(cs: Seq<MerchantCandidate>)
    ensures
        merchant_count(cs) <= cs.len(),
    decreases cs.len(),
{
    if cs.len() > 0 {
        lemma_merchant_count_bound(cs.drop_last());
    }
}

/// WIZ_MERCHANT_INOUT listing the merchants around a player:
/// `[u8 1][u16 count]`, then each listed candidate in order.
pub fn build_merchant_inout_packet(candidates: &[MerchantCandidate]) -> (pkt: Packet)
    requires
        candidates@.len() <= u16::MAX,
    ensures
        pkt.opcode == WIZ_MERCHANT_INOUT,
        pkt.data@ == u8_le(INOUT_IN) + u16_le(merchant_count(candidates@) as u16) + merchant_entries_bytes(
            candidates@,
        ),
{
    let mut body = Packet::new(0);
    let mut count: u16 = 0;
    let mut i: usize = 0;
    while i < candidates.len()
        invariant
            i <= candidates@.len() <= u16::MAX,
            count == merchant_count(candidates@.subrange(0, i as int)),
            body.data@ == merchant_entries_bytes(candidates@.subrange(0, i as int)),
        decreases candidates@.len() - i,
    {
        let c = candidates[i];
        proof {
            let next = candidates@.subrange(0, i as int + 1);
            assert(next.drop_last() == candidates@.subrange(0, i as int));
            assert(next.last() == c);
            lemma_merchant_count_bound(candidates@.subrange(0, i as int));
        }
        if c.shown && c.merchant_state != -1 {
            let premium = if c.merchant_state == MERCHANT_STATE_BUYING as i8 { false } else { c.premium };
            let ghost before = body.data@;
            body.write_u32(c.id);
            body.write_u8(c.merchant_state as u8);
            body.write_u8(if premium { 1 } else { 0 });
            assert(body.data@ =~= before + (u32_le(c.id) + u8_le(c.merchant_state as u8) + u8_le(
                if premium { 1u8 } else { 0u8 },
            )));
            count = count + 1;
        } else {
            assert(body.data@ =~= body.data@ + Seq::<u8>::empty());
        }
        i = i + 1;
    }
    assert(candidates@.subrange(0, candidates@.len() as int) == candidates@);
    let mut pkt = Packet::new(WIZ_MERCHANT_INOUT);
    pkt.write_u8(INOUT_IN);
    assert(pkt.data@ =~= u8_le(INOUT_IN));
    pkt.write_u16(count);
    pkt.write_bytes(body.data.as_slice());
    pkt
}

/// Bytes of a list of IDs, `[u32 id]` each.
pub open spec fn id_list_bytes(ids: Seq<u32>) -> Seq<u8>
    decreases ids.len(),
{
    if ids.len() == 0 {
        Seq::empty()
    } else {
        id_list_bytes(ids.drop_last()) + u32_le(ids.last())
    }
}

fn write_id_list(pkt: &mut Packet, ids: &[u32])
    ensures
        final(pkt).opcode == old(pkt).opcode,
        final(pkt).data@ == old(pkt).data@ + id_list_bytes(ids@),
{
    let ghost start = pkt.data@;
    let mut i: usize = 0;
    while i < ids.len()
        invariant
            i <= ids@.len(),
            pkt.opcode == old(pkt).opcode,
            start == old(pkt).data@,
            pkt.data@ == start + id_list_bytes(ids@.subrange(0, i as int)),
        decreases ids@.len() - i,
    {
        pkt.write_u32(ids[i]);
        proof {
            let next = ids@.subrange(0, i as int + 1);
            assert(next.drop_last() == ids@.subrange(0, i as int));
        }
        i = i + 1;
    }
    assert(ids@.subrange(0, ids@.len() as int) == ids@);
}

/// WIZ_REGIONCHANGE, phase 0 (start): `[u8 0]`.
pub fn build_region_change_start() -> (pkt: Packet)
    ensures
        pkt.opcode == WIZ_REGIONCHANGE,
        pkt.data@ == u8_le(0),
{
    let mut pkt = Packet::new(WIZ_REGIONCHANGE);
    pkt.write_u8(0);
    pkt
}

/// WIZ_REGIONCHANGE, phase 1 (before compression): `[u8 1][u16 n]` and the
/// IDs of the players, then of the bots, nearby.
pub fn build_region_change_data(players: &[u32], bots: &[u32]) -> (pkt: Packet)
    ensures
        pkt.opcode == WIZ_REGIONCHANGE,
        pkt.data@ == u8_le(1) + u16_le(((players@.len() + bots@.len()) % 65536) as u16) + id_list_bytes(
            players@,
        ) + id_list_bytes(bots@),
{
    let mut pkt = Packet::new(WIZ_REGIONCHANGE);
    pkt.write_u8(1);
    assert(pkt.data@ =~= u8_le(1));
    let a: u32 = (players.len() % 65536) as u32;
    let b: u32 = (bots.len() % 65536) as u32;
    let n: u32 = (a + b) % 65536;
    assert(n == (players@.len() + bots@.len()) % 65536) by (nonlinear_arith)
        requires
            a == players@.len() % 65536,
            b == bots@.len() % 65536,
            n == (a + b) % 65536,
            players@.len() >= 0,
            bots@.len() >= 0,
    ;
    pkt.write_u16(n as u16);
    write_id_list(&mut pkt, players);
    write_id_list(&mut pkt, bots);
    pkt
}

/// WIZ_REGIONCHANGE, phase 2 (end): `[u8 2]`.
pub fn build_region_change_end() -> (pkt: Packet)
    ensures
        pkt.opcode == WIZ_REGIONCHANGE,
        pkt.data@ == u8_le(2),
{
    let mut pkt = Packet::new(WIZ_REGIONCHANGE);
    pkt.write_u8(2);
    pkt
}

/// WIZ_NPC_REGION (before compression): `[u16 n]` and the NPC IDs.
pub fn build_npc_region_packet(npc_ids: &[u32]) -> (pkt: Packet)
    ensures
        pkt.opcode == WIZ_NPC_REGION,
        pkt.data@ == u16_le((npc_ids@.len() % 65536) as u16) + id_list_bytes(npc_ids@),
{
    let mut pkt = Packet::new(WIZ_NPC_REGION);
    pkt.write_u16((npc_ids.len() % 65536) as u16);
    assert(pkt.data@ =~= u16_le((npc_ids@.len() % 65536) as u16));
    write_id_list(&mut pkt, npc_ids);
    pkt
}

/// The nation-battle disguise changes only what others see of the first
/// five slots' item IDs: every slot keeps its durability and flag, and the
/// slots from the sixth on show exactly what is worn.
pub proof fn lemma_disguise_changes_only_armor_ids(inv: Seq<UserItemSlot>, class: Option<u16>, disguise: bool, i: int)
    requires
        0 <= i < 17,
    ensures
        spec_visual(inv, class, disguise, i).1 == spec_worn_visual(inv, i).1,
        spec_visual(inv, class, disguise, i).2 == spec_worn_visual(inv, i).2,
        i >= 5 ==> spec_visual(inv, class, disguise, i) == spec_worn_visual(inv, i),
        !disguise ==> spec_visual(inv, class, disguise, i) == spec_worn_visual(inv, i),
{
}


/// The block around a region is the region and its eight neighbours: a
/// region in it is at most one step away on each axis, every region at most
/// one step away on both axes is in it, and a region is in its own block.
pub proof fn lemma_in_3x3_is_the_neighbourhood(rx: u16, rz: u16, other_rx: u16, other_rz: u16)
    ensures
        spec_in_3x3(rx, rz, other_rx, other_rz) ==> -1 <= other_rx - rx <= 1,
        spec_in_3x3(rx, rz, other_rx, other_rz) ==> -1 <= other_rz - rz <= 1,
        (other_rx == rx || other_rx == rx + 1 || other_rx + 1 == rx) && (other_rz == rz || other_rz == rz + 1
            || other_rz + 1 == rz) ==> spec_in_3x3(rx, rz, other_rx, other_rz),
        spec_in_3x3(rx, rz, rx, rz),
{
}

} // verus!
