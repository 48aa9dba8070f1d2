//! Perks (WIZ_EXT_HOOK 0xE9, sub-opcode 0xE3): spending perk points one at
//! a time, resetting them for gold, and the perk packets.
use vstd::prelude::*;
use crate::packet::{Packet, u8_le, u16_le, u32_le, dbyte_string};
use vstd::string::StringSliceAdditionalSpecFns;

verus! {

pub const WIZ_EXT_HOOK: u8 = 0xE9;
pub const WIZ_GOLD_CHANGE: u8 = 0x4A;
pub const EXT_SUB_PERKS: u8 = 0xE3;

pub const PERK_SUB_INFO: u8 = 0;
pub const PERK_SUB_PLUS: u8 = 1;
pub const PERK_SUB_RESET: u8 = 2;
pub const PERK_SUB_TARGET_INFO: u8 = 4;

pub const PERK_ERR_REM_PERKS: u8 = 0;
pub const PERK_ERR_NOT_FOUND: u8 = 1;
pub const PERK_ERR_MAX_COUNT: u8 = 2;
pub const PERK_ERR_SUCCESS: u8 = 3;

/// Gold a reset costs when the server settings give no price.
pub const DEFAULT_PERK_COINS: u32 = 100_000;

/// Number of perks.
pub const PERK_COUNT: usize = 13;

/// Gold-change sub-opcode for a loss.
pub const GOLD_CHANGE_LOSE: u8 = 2;

/// A player's perk levels and unspent points.
pub struct PerkAllocation {
    pub levels: [i16; 13],
    pub rem_perk: i16,
}

/// Sum of a sequence of levels.
pub open spec fn level_sum(s: Seq<i16>) -> int
    decreases s.len(),
{
    if s.len() == 0 { 0 } else { level_sum(s.drop_last()) + s.last() }
}

/// Points a player owns: spent and unspent.
pub open spec fn perk_total(p: PerkAllocation) -> int {
    level_sum(p.levels@) + p.rem_perk
}

/// Why a point could not be spent, as the client is told, or success.
pub open spec fn spec_perk_plus_code(p: PerkAllocation, index: u32, max: Option<i16>) -> u8 {
    if index >= 13 {
        PERK_ERR_NOT_FOUND
    } else if p.rem_perk <= 0 {
        PERK_ERR_REM_PERKS
    } else if max is None {
        PERK_ERR_NOT_FOUND
    } else if p.levels@[index as int] >= max->0 {
        PERK_ERR_MAX_COUNT
    } else {
        PERK_ERR_SUCCESS
    }
}

proof fn lemma_level_sum_update(s: Seq<i16>, i: int, v: i16)
    requires
        0 <= i < s.len(),
    ensures
        level_sum(s.update(i, v)) == level_sum(s) - s[i] + v,
    decreases s.len(),
{
    if i == s.len() - 1 {
        assert(s.update(i, v).drop_last() == s.drop_last());
    } else {
        assert(s.update(i, v).drop_last() == s.drop_last().update(i, v));
        lemma_level_sum_update(s.drop_last(), i, v);
    }
}

/// perkPlus: spends one point on perk `index`, whose maximum level (if the
/// perk exists) is `max`. Succeeds when the index names a perk, a point is
/// left and the perk is below its maximum; then that level rises by one
/// and a point is used. Returns the code the client is told.
pub fn perk_plus(p: &mut PerkAllocation, index: u32, max: Option<i16>) -> (code: u8)
    ensures
        code == spec_perk_plus_code(*old(p), index, max),
        code == PERK_ERR_SUCCESS ==> final(p).levels@ == old(p).levels@.update(
            index as int,
            (old(p).levels@[index as int] + 1) as i16,
        ) && final(p).rem_perk == old(p).rem_perk - 1,
        code != PERK_ERR_SUCCESS ==> final(p).levels@ == old(p).levels@ && final(p).rem_perk == old(p).rem_perk,
        perk_total(*final(p)) == perk_total(*old(p)),
{
    if index >= 13 {
        return PERK_ERR_NOT_FOUND;
    }
    let i = index as usize;
    if p.rem_perk <= 0 {
        return PERK_ERR_REM_PERKS;
    }
    let m = match max {
        None => return PERK_ERR_NOT_FOUND,
        Some(m) => m,
    };
    let level = p.levels[i];
    if level >= m {
        return PERK_ERR_MAX_COUNT;
    }
    proof {
        lemma_level_sum_update(old(p).levels@, i as int, (level + 1) as i16);
    }
    p.levels[i] = level + 1;
    p.rem_perk = p.rem_perk - 1;
    PERK_ERR_SUCCESS
}

/// What a perk reset did.
#[derive(Clone, Copy, Debug, PartialEq, Eq, Structural)]
pub enum PerkResetOutcome {
    /// No point was spent: nothing happens.
    NothingToReset,
    /// Not enough gold: nothing happens.
    NotEnoughGold,
    /// Gold paid, every level back to 0 and its points unspent again.
    Reset { gold_left: u32, rem_perk: i16 },
}

/// perkReset: for `cost` gold, takes every spent point back.
pub fn perk_reset(p: &mut PerkAllocation, gold: u32, cost: u32) -> (r: PerkResetOutcome)
    requires
        forall|k: int|
            0 <= k <= 13 ==> i16::MIN <= #[trigger] level_sum(old(p).levels@.subrange(0, k)) <= i16::MAX,
        i16::MIN <= old(p).rem_perk + level_sum(old(p).levels@) <= i16::MAX,
    ensures
        level_sum(old(p).levels@) == 0 ==> r == PerkResetOutcome::NothingToReset,
        level_sum(old(p).levels@) != 0 && gold < cost ==> r == PerkResetOutcome::NotEnoughGold,
        level_sum(old(p).levels@) != 0 && gold >= cost ==> r == (PerkResetOutcome::Reset {
            gold_left: (gold - cost) as u32,
            rem_perk: (old(p).rem_perk + level_sum(old(p).levels@)) as i16,
        }),
        r is Reset ==> (forall|i: int| 0 <= i < 13 ==> #[trigger] final(p).levels@[i] == 0) && final(p).rem_perk
            == old(p).rem_perk + level_sum(old(p).levels@),
        !(r is Reset) ==> final(p).levels@ == old(p).levels@ && final(p).rem_perk == old(p).rem_perk,
        perk_total(*final(p)) == perk_total(*old(p)),
{
    let mut total: i16 = 0;
    let mut i: usize = 0;
    while i < 13
        invariant
            i <= 13,
            p.levels@.len() == 13,
            p.levels@ == old(p).levels@,
            forall|k: int|
                0 <= k <= 13 ==> i16::MIN <= #[trigger] level_sum(p.levels@.subrange(0, k)) <= i16::MAX,
            total == level_sum(p.levels@.subrange(0, i as int)),
        decreases 13 - i,
    {
        proof {
            let next = p.levels@.subrange(0, i as int + 1);
            assert(next.drop_last() == p.levels@.subrange(0, i as int));
        }
        assert(i16::MIN <= level_sum(p.levels@.subrange(0, i as int + 1)) <= i16::MAX);
        total = total + p.levels[i];
        i = i + 1;
    }
    assert(p.levels@.subrange(0, 13) == p.levels@);
    if total == 0 {
        return PerkResetOutcome::NothingToReset;
    }
    if gold < cost {
        return PerkResetOutcome::NotEnoughGold;
    }
    let new_rem: i16 = p.rem_perk + total;
    let ghost old_levels = p.levels@;
    p.levels = [0i16; 13];
    p.rem_perk = new_rem;
    proof {
        let z = p.levels@;
        assert forall|k: int| 0 <= k <= 13 implies level_sum(#[trigger] z.subrange(0, k)) == 0 by {
            lemma_zero_prefix_sum(z, k);
        }
        assert(z.subrange(0, 13) == z);
    }
    PerkResetOutcome::Reset { gold_left: gold - cost, rem_perk: new_rem }
}

proof fn lemma_zero_prefix_sum(z: Seq<i16>, k: int)
    requires
        0 <= k <= z.len(),
        forall|i: int| 0 <= i < z.len() ==> #[trigger] z[i] == 0,
    ensures
        level_sum(z.subrange(0, k)) == 0,
    decreases k,
{
    if k > 0 {
        assert(z.subrange(0, k).drop_last() == z.subrange(0, k - 1));
        lemma_zero_prefix_sum(z, k - 1);
    }
}

/// Spending a point and taking points back never create or lose points:
/// spent plus unspent stays the same through any perkPlus or perkReset.
pub proof fn lemma_perk_points_conserved(before: PerkAllocation, after: PerkAllocation, index: u32)
    requires
        index < 13,
        after.levels@ == before.levels@.update(index as int, (before.levels@[index as int] + 1) as i16),
        after.rem_perk == before.rem_perk - 1,
        before.levels@[index as int] + 1 <= i16::MAX,
    ensures
        perk_total(after) == perk_total(before),
{
    lemma_level_sum_update(before.levels@, index as int, (before.levels@[index as int] + 1) as i16);
}

/// A perk as the info packet describes it.
pub struct PerkDefinition {
    pub p_index: i32,
    pub status: bool,
    pub perk_count: i16,
    pub perk_max: i16,
    pub description: String,
    pub percentage: bool,
}

/// One definition's segment, before its 16-bit length prefix.
pub open spec fn perk_segment_bytes(d: PerkDefinition) -> Seq<u8> {
    u32_le(d.p_index as u32) + u8_le(if d.status { 1u8 } else { 0u8 }) + u16_le(d.perk_count as u16) + u16_le(
        d.perk_max as u16,
    ) + dbyte_string(vstd::utf8::encode_utf8(d.description@)) + u8_le(if d.percentage { 1u8 } else { 0u8 })
}

pub open spec fn perk_definitions_bytes(defs: Seq<PerkDefinition>) -> Seq<u8>
    decreases defs.len(),
{
    if defs.len() == 0 {
        Seq::empty()
    } else {
        let seg = perk_segment_bytes(defs.last());
        perk_definitions_bytes(defs.drop_last()) + u16_le((seg.len() % 65536) as u16) + seg
    }
}

pub open spec fn levels_bytes(levels: Seq<i16>) -> Seq<u8>
    decreases levels.len(),
{
    if levels.len() == 0 {
        Seq::empty()
    } else {
        levels_bytes(levels.drop_last()) + u16_le(levels.last() as u16)
    }
}

fn write_levels(pkt: &mut Packet, levels: &[i16; 13])
    ensures
        final(pkt).opcode == old(pkt).opcode,
        final(pkt).data@ == old(pkt).data@ + levels_bytes(levels@),
{
    let ghost start = pkt.data@;
    let mut i: usize = 0;
    while i < 13
        invariant
            i <= 13,
            levels@.len() == 13,
            pkt.opcode == old(pkt).opcode,
            start == old(pkt).data@,
            pkt.data@ == start + levels_bytes(levels@.subrange(0, i as int)),
        decreases 13 - i,
    {
        pkt.write_u16(levels[i] as u16);
        proof {
            let next = levels@.subrange(0, i as int + 1);
            assert(next.drop_last() == levels@.subrange(0, i as int));
        }
        i = i + 1;
    }
    assert(levels@.subrange(0, 13) == levels@);
}

fn perk_segment(d: &PerkDefinition) -> (v: Vec<u8>)
    ensures
        v@ == perk_segment_bytes(*d),
{
    let mut p = Packet::new(0);
    p.write_u32(d.p_index as u32);
    assert(p.data@ =~= u32_le(d.p_index as u32));
    p.write_u8(if d.status { 1 } else { 0 });
    p.write_u16(d.perk_count as u16);
    p.write_u16(d.perk_max as u16);
    p.write_string(d.description.as_str());
    p.write_u8(if d.percentage { 1 } else { 0 });
    p.data
}

/// The perk window sent on game entry: `[u8 0xE3][u8 0][u16 unspent]
/// [u32 reset cost][u16 n]`, each definition as a segment with a 16-bit
/// length, then the player's thirteen levels.
pub fn build_perk_info_packet(p: &PerkAllocation, perk_coins: u32, defs: &[PerkDefinition]) -> (pkt: Packet)
    ensures
        pkt.opcode == WIZ_EXT_HOOK,
        pkt.data@ == u8_le(EXT_SUB_PERKS) + u8_le(PERK_SUB_INFO) + u16_le(p.rem_perk as u16) + u32_le(perk_coins)
            + u16_le((defs@.len() % 65536) as u16) + perk_definitions_bytes(defs@) + levels_bytes(p.levels@),
{
    let mut pkt = Packet::new(WIZ_EXT_HOOK);
    pkt.write_u8(EXT_SUB_PERKS);
    assert(pkt.data@ =~= u8_le(EXT_SUB_PERKS));
    pkt.write_u8(PERK_SUB_INFO);
    pkt.write_u16(p.rem_perk as u16);
    pkt.write_u32(perk_coins);
    pkt.write_u16((defs.len() % 65536) as u16);
    let ghost head = pkt.data@;
    let mut i: usize = 0;
    while i < defs.len()
        invariant
            i <= defs@.len(),
            pkt.opcode == WIZ_EXT_HOOK,
            pkt.data@ == head + perk_definitions_bytes(defs@.subrange(0, i as int)),
        decreases defs@.len() - i,
    {
        let seg = perk_segment(&defs[i]);
        pkt.write_u16((seg.len() % 65536) as u16);
        pkt.write_bytes(seg.as_slice());
        proof {
            let next = defs@.subrange(0, i as int + 1);
            assert(next.drop_last() == defs@.subrange(0, i as int));
            assert(next.last() == defs@[i as int]);
        }
        i = i + 1;
    }
    assert(defs@.subrange(0, defs@.len() as int) == defs@);
    write_levels(&mut pkt, &p.levels);
    pkt
}

/// perkPlus success: `[u8 0xE3][u8 1][u8 3][u32 index][u16 level][u16 unspent]`.
pub fn build_perk_plus_packet(index: u32, new_level: i16, rem_perk: i16) -> (pkt: Packet)
    ensures
        pkt.opcode == WIZ_EXT_HOOK,
        pkt.data@ == u8_le(EXT_SUB_PERKS) + u8_le(PERK_SUB_PLUS) + u8_le(PERK_ERR_SUCCESS) + u32_le(index) + u16_le(
            new_level as u16,
        ) + u16_le(rem_perk as u16),
{
    let mut pkt = Packet::new(WIZ_EXT_HOOK);
    pkt.write_u8(EXT_SUB_PERKS);
    pkt.write_u8(PERK_SUB_PLUS);
    pkt.write_u8(PERK_ERR_SUCCESS);
    pkt.write_u32(index);
    pkt.write_u16(new_level as u16);
    pkt.write_u16(rem_perk as u16);
    pkt
}

/// perkPlus failure: `[u8 0xE3][u8 1][u8 error]`.
pub fn build_perk_error_packet(error: u8) -> (pkt: Packet)
    ensures
        pkt.opcode == WIZ_EXT_HOOK,
        pkt.data@ == u8_le(EXT_SUB_PERKS) + u8_le(PERK_SUB_PLUS) + u8_le(error),
{
    let mut pkt = Packet::new(WIZ_EXT_HOOK);
    pkt.write_u8(EXT_SUB_PERKS);
    pkt.write_u8(PERK_SUB_PLUS);
    pkt.write_u8(error);
    pkt
}

/// perkReset answer: `[u8 0xE3][u8 2][u16 unspent]`.
pub fn build_perk_reset_packet(rem_perk: i16) -> (pkt: Packet)
    ensures
        pkt.opcode == WIZ_EXT_HOOK,
        pkt.data@ == u8_le(EXT_SUB_PERKS) + u8_le(PERK_SUB_RESET) + u16_le(rem_perk as u16),
{
    let mut pkt = Packet::new(WIZ_EXT_HOOK);
    pkt.write_u8(EXT_SUB_PERKS);
    pkt.write_u8(PERK_SUB_RESET);
    pkt.write_u16(rem_perk as u16);
    pkt
}

/// Another player's perks: `[u8 0xE3][u8 4][u16 target]` and the thirteen levels.
pub fn build_perk_target_info_packet(target_id: u16, levels: &[i16; 13]) -> (pkt: Packet)
    ensures
        pkt.opcode == WIZ_EXT_HOOK,
        pkt.data@ == u8_le(EXT_SUB_PERKS) + u8_le(PERK_SUB_TARGET_INFO) + u16_le(target_id) + levels_bytes(levels@),
{
    let mut pkt = Packet::new(WIZ_EXT_HOOK);
    pkt.write_u8(EXT_SUB_PERKS);
    pkt.write_u8(PERK_SUB_TARGET_INFO);
    pkt.write_u16(target_id);
    write_levels(&mut pkt, levels);
    pkt
}

/// Gold lost: `[u8 2][u32 amount][u32 gold left]`.
pub fn build_gold_lose_packet(amount: u32, gold_left: u32) -> (pkt: Packet)
    ensures
        pkt.opcode == WIZ_GOLD_CHANGE,
        pkt.data@ == u8_le(GOLD_CHANGE_LOSE) + u32_le(amount) + u32_le(gold_left),
{
    let mut pkt = Packet::new(WIZ_GOLD_CHANGE);
    pkt.write_u8(GOLD_CHANGE_LOSE);
    pkt.write_u32(amount);
    pkt.write_u32(gold_left);
    pkt
}

} // verus!
