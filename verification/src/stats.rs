//! Stat and skill point allocation (WIZ_POINT_CHANGE 0x28, WIZ_SKILLPT_CHANGE
//! 0x32), and the derived maxima that depend only on whole numbers.
use vstd::prelude::*;
use crate::packet::{Packet, u8_le, u16_le, u32_le};

verus! {

/// WIZ_POINT_CHANGE opcode.
pub const WIZ_POINT_CHANGE: u8 = 0x28;

/// WIZ_SKILLPT_CHANGE opcode.
pub const WIZ_SKILLPT_CHANGE: u8 = 0x32;

/// Maximum stat value.
pub const STAT_MAX: u8 = 255;

/// First skill point category accepted by WIZ_SKILLPT_CHANGE.
pub const SKILLPT_CAT1: u8 = 5;

/// Master skill point category.
pub const SKILLPT_MASTER: u8 = 8;

/// Server level cap used by the master category rule.
pub const MAX_LEVEL: u8 = 83;

/// The parts of a character that stat and skill allocation read and change.
#[derive(Debug, Clone, Copy)]
pub struct CharacterInfo {
    pub class: u16,
    pub level: u8,
    pub max_hp: i16,
    pub max_mp: i16,
    pub str: u8,
    pub sta: u8,
    pub dex: u8,
    pub intel: u8,
    pub cha: u8,
    pub free_points: u16,
    /// Index 0 holds the free skill points; 5..=8 the categories.
    pub skill_points: [u8; 10],
}

/// The stat addressed by a request type (1=STR, 2=STA, 3=DEX, 4=INT, 5=CHA), 0 otherwise.
pub open spec fn spec_stat(ch: CharacterInfo, stat_type: u8) -> u8 {
    if stat_type == 1 {
        ch.str
    } else if stat_type == 2 {
        ch.sta
    } else if stat_type == 3 {
        ch.dex
    } else if stat_type == 4 {
        ch.intel
    } else if stat_type == 5 {
        ch.cha
    } else {
        0
    }
}

/// `ch` with the stat addressed by `stat_type` set to `value` (unchanged for other types).
pub open spec fn spec_with_stat(ch: CharacterInfo, stat_type: u8, value: u8) -> CharacterInfo {
    if stat_type == 1 {
        CharacterInfo { str: value, ..ch }
    } else if stat_type == 2 {
        CharacterInfo { sta: value, ..ch }
    } else if stat_type == 3 {
        CharacterInfo { dex: value, ..ch }
    } else if stat_type == 4 {
        CharacterInfo { intel: value, ..ch }
    } else if stat_type == 5 {
        CharacterInfo { cha: value, ..ch }
    } else {
        ch
    }
}

/// The stat value for a request type (1=STR..5=CHA); 0 for other types.
pub fn get_stat_by_type(ch: &CharacterInfo, stat_type: u8) -> (v: u8)
    ensures
        v == spec_stat(*ch, stat_type),
{
    match stat_type {
        1 => ch.str,
        2 => ch.sta,
        3 => ch.dex,
        4 => ch.intel,
        5 => ch.cha,
        _ => 0,
    }
}

/// Sets the stat for a request type (1=STR..5=CHA); other types change nothing.
pub fn set_stat_by_type(ch: &mut CharacterInfo, stat_type: u8, value: u8)
    ensures
        *final(ch) == spec_with_stat(*old(ch), stat_type, value),
{
    match stat_type {
        1 => ch.str = value,
        2 => ch.sta = value,
        3 => ch.dex = value,
        4 => ch.intel = value,
        5 => ch.cha = value,
        _ => {},
    }
}

/// Reading back a stat just set gives the value set.
pub proof fn lemma_set_then_get_stat(ch: CharacterInfo, stat_type: u8, value: u8)
    requires
        1 <= stat_type <= 5,
    ensures
        spec_stat(spec_with_stat(ch, stat_type, value), stat_type) == value,
        forall|other: u8|
            other != stat_type ==> spec_stat(spec_with_stat(ch, stat_type, value), other)
                == #[trigger] spec_stat(ch, other),
{
}

/// Maximum carry weight without item bonuses: `(STR + level) * 50`.
pub fn calculate_max_weight(ch: &CharacterInfo) -> (w: u32)
    ensures
        w == (ch.str + ch.level) * 50,
{
    (ch.str as u32 + ch.level as u32) * 50
}

/// Maximum SP of Kurian classes: 100 (beginner, class type 13), 150 (novice,
/// 14), 200 (master, 15) or 250 for a master with 3..=23 points in the fourth
/// master skill; 0 for every other class.
pub fn calculate_max_sp(class: u16, pro_skill4: u8) -> (sp: i16)
    ensures
        sp == (if class % 100 == 13 {
            100i16
        } else if class % 100 == 14 {
            150i16
        } else if class % 100 == 15 {
            if 3 <= pro_skill4 <= 23 {
                250i16
            } else {
                200i16
            }
        } else {
            0i16
        }),
{
    match class % 100 {
        13 => 100,
        14 => 150,
        15 => {
            if 3 <= pro_skill4 && pro_skill4 <= 23 {
                250
            } else {
                200
            }
        },
        _ => 0,
    }
}

/// Whether a class is a Kurian/Portu class (class type 13..=15).
pub fn is_kurian_class(class: u16) -> (b: bool)
    ensures
        b == (13 <= class % 100 <= 15),
{
    let t = class % 100;
    13 <= t && t <= 15
}

/// Why a stat point allocation is refused.
#[derive(Debug, Clone, Copy, PartialEq, Eq, Structural)]
pub enum PointChangeRefusal {
    /// The type is not 1..=5.
    InvalidType,
    /// No free points are left.
    NoFreePoints,
    /// The stat is already at its maximum.
    StatAtMax,
}

/// The outcome of a stat point request on a character.
pub open spec fn spec_point_change(ch: CharacterInfo, stat_type: u8) -> Result<u8, PointChangeRefusal> {
    if !(1 <= stat_type <= 5) {
        Err(PointChangeRefusal::InvalidType)
    } else if ch.free_points < 1 {
        Err(PointChangeRefusal::NoFreePoints)
    } else if spec_stat(ch, stat_type) == STAT_MAX {
        Err(PointChangeRefusal::StatAtMax)
    } else {
        Ok((spec_stat(ch, stat_type) + 1) as u8)
    }
}

/// Spends one free point on the stat of `stat_type` (1=STR..5=CHA): the stat
/// rises by one and the free points fall by one. Returns the new stat value, or
/// the reason for refusal with the character unchanged.
pub fn apply_point_change(ch: &mut CharacterInfo, stat_type: u8) -> (r: Result<u8, PointChangeRefusal>)
    ensures
        r == spec_point_change(*old(ch), stat_type),
        r matches Ok(v) ==> *final(ch) == (CharacterInfo {
            free_points: (old(ch).free_points - 1) as u16,
            ..spec_with_stat(*old(ch), stat_type, v)
        }),
        r is Err ==> *final(ch) == *old(ch),
{
    if !(1 <= stat_type && stat_type <= 5) {
        return Err(PointChangeRefusal::InvalidType);
    }
    if ch.free_points < 1 {
        return Err(PointChangeRefusal::NoFreePoints);
    }
    let current = get_stat_by_type(ch, stat_type);
    if current == STAT_MAX {
        return Err(PointChangeRefusal::StatAtMax);
    }
    let new_value = current + 1;
    set_stat_by_type(ch, stat_type, new_value);
    ch.free_points = ch.free_points - 1;
    Ok(new_value)
}

/// Allocating a point never changes the sum of free points and the five stats.
pub proof fn lemma_point_change_conserves_points(ch: CharacterInfo, stat_type: u8)
    requires
        spec_point_change(ch, stat_type) is Ok,
    ensures
        ({
            let v = spec_point_change(ch, stat_type)->Ok_0;
            let after = CharacterInfo {
                free_points: (ch.free_points - 1) as u16,
                ..spec_with_stat(ch, stat_type, v)
            };
            after.free_points + after.str + after.sta + after.dex + after.intel + after.cha
                == ch.free_points + ch.str + ch.sta + ch.dex + ch.intel + ch.cha
        }),
{
}

/// Bytes of the WIZ_POINT_CHANGE answer:
/// `[u8 type][u16 stat][u16 max_hp][u16 hp][u16 max_mp][u32 max_weight]`.
pub open spec fn spec_point_change_payload(
    stat_type: u8,
    new_stat: u16,
    max_hp: u16,
    hp: u16,
    max_mp: u16,
    max_weight: u32,
) -> Seq<u8> {
    u8_le(stat_type) + u16_le(new_stat) + u16_le(max_hp) + u16_le(hp) + u16_le(max_mp) + u32_le(
        max_weight,
    )
}

/// Builds the WIZ_POINT_CHANGE answer.
pub fn build_point_change_packet(
    stat_type: u8,
    new_stat: u16,
    max_hp: u16,
    hp: u16,
    max_mp: u16,
    max_weight: u32,
) -> (pkt: Packet)
    ensures
        pkt.opcode == WIZ_POINT_CHANGE,
        pkt.data@ == spec_point_change_payload(stat_type, new_stat, max_hp, hp, max_mp, max_weight),
{
    let mut pkt = Packet::new(WIZ_POINT_CHANGE);
    pkt.write_u8(stat_type);
    pkt.write_u16(new_stat);
    pkt.write_u16(max_hp);
    pkt.write_u16(hp);
    pkt.write_u16(max_mp);
    pkt.write_u32(max_weight);
    assert(pkt.data@ == spec_point_change_payload(stat_type, new_stat, max_hp, hp, max_mp, max_weight));
    pkt
}

/// Whether a class type has completed its master job change.
pub open spec fn is_mastered_class_type(t: u16) -> bool {
    t == 6 || t == 8 || t == 10 || t == 12 || t == 15
}

/// Whether a skill point request is granted.
pub open spec fn spec_skillpt_granted(ch: CharacterInfo, skill_type: u8) -> bool {
    &&& SKILLPT_CAT1 <= skill_type <= SKILLPT_MASTER
    &&& ch.skill_points[0] >= 1
    &&& ch.skill_points[skill_type as int] + 1 <= ch.level
    &&& ch.class % 100 > 4
    &&& skill_type == SKILLPT_MASTER ==> {
        &&& is_mastered_class_type(ch.class % 100)
        &&& ch.skill_points[skill_type as int] < MAX_LEVEL - 60
        &&& ch.level >= 60 && ch.skill_points[skill_type as int] < ch.level - 60
    }
}

/// The value reported back on refusal: the category's current points, or 0
/// for a type past the table.
pub open spec fn spec_skillpt_current(ch: CharacterInfo, skill_type: u8) -> u8 {
    if skill_type < 10 {
        ch.skill_points[skill_type as int]
    } else {
        0
    }
}

/// Spends one free skill point on category `skill_type` (5..=8). Granted when
/// the type is a category, a free point is left, the category stays within the
/// level, the first job change is done, and for the master category the class
/// is mastered and the category is below both `83 - 60` and `level - 60`.
/// Returns `Err` with the category's current points (the failure answer) and
/// the character unchanged otherwise.
pub fn apply_skillpt_change(ch: &mut CharacterInfo, skill_type: u8) -> (r: Result<(), u8>)
    ensures
        r is Ok == spec_skillpt_granted(*old(ch), skill_type),
        r matches Err(cur) ==> cur == spec_skillpt_current(*old(ch), skill_type) && *final(ch)
            == *old(ch),
        r is Ok ==> final(ch).skill_points@ == old(ch).skill_points@.update(
            0,
            (old(ch).skill_points[0] - 1) as u8,
        ).update(skill_type as int, (old(ch).skill_points[skill_type as int] + 1) as u8),
        r is Ok ==> *final(ch) == (CharacterInfo { skill_points: final(ch).skill_points, ..*old(ch) }),
{
    let current: u8 = if (skill_type as usize) < 10 {
        ch.skill_points[skill_type as usize]
    } else {
        0
    };
    if !(SKILLPT_CAT1 <= skill_type && skill_type <= SKILLPT_MASTER) {
        return Err(current);
    }
    if ch.skill_points[0] < 1 {
        return Err(current);
    }
    let idx = skill_type as usize;
    if ch.skill_points[idx] as u16 + 1 > ch.level as u16 {
        return Err(current);
    }
    if (ch.class % 100) <= 4 {
        return Err(current);
    }
    if skill_type == SKILLPT_MASTER {
        let class_mod = ch.class % 100;
        let is_mastered = class_mod == 6 || class_mod == 8 || class_mod == 10 || class_mod == 12
            || class_mod == 15;
        let level_cap: u8 = if ch.level >= 60 {
            ch.level - 60
        } else {
            0
        };
        if !is_mastered || ch.skill_points[idx] >= MAX_LEVEL - 60 || ch.skill_points[idx]
            >= level_cap {
            return Err(current);
        }
    }
    let free = ch.skill_points[0];
    let cat = ch.skill_points[idx];
    ch.skill_points[0] = free - 1;
    ch.skill_points[idx] = cat + 1;
    Ok(())
}

/// Bytes of the skill point failure answer: `[u8 type][u8 current]`.
pub fn build_skillpt_fail_packet(skill_type: u8, current: u8) -> (pkt: Packet)
    ensures
        pkt.opcode == WIZ_SKILLPT_CHANGE,
        pkt.data@ == u8_le(skill_type) + u8_le(current),
{
    let mut pkt = Packet::new(WIZ_SKILLPT_CHANGE);
    pkt.write_u8(skill_type);
    pkt.write_u8(current);
    pkt
}

/// Derived maxima of a character.
#[derive(Debug, Clone, Copy, PartialEq, Eq, Structural)]
pub struct AbilityResult {
    /// Maximum health points.
    pub max_hp: i16,
    /// Maximum mana points.
    pub max_mp: i16,
    /// Maximum carry weight.
    pub max_weight: u32,
}

/// Abilities when the class has no coefficient row: the current maxima are
/// kept, and only the carry weight is recomputed.
pub fn abilities_without_coefficients(ch: &CharacterInfo) -> (r: AbilityResult)
    ensures
        r.max_hp == ch.max_hp,
        r.max_mp == ch.max_mp,
        r.max_weight == (ch.str + ch.level) * 50,
{
    AbilityResult { max_hp: ch.max_hp, max_mp: ch.max_mp, max_weight: calculate_max_weight(ch) }
}

} // verus!
