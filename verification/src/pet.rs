//! Pets (WIZ_PET 0x76): restoring a pet from its stored row, summoning it,
//! switching its mode, feeding it, its satisfaction and death, the skill
//! it casts, and the pet packets.
use vstd::prelude::*;
use crate::packet::{Packet, u8_le, u16_le, u32_le, u64_le, dbyte_string};
use crate::inventory::{UserItemSlot, SLOT_MAX};
use vstd::string::StringSliceAdditionalSpecFns;

verus! {

pub const WIZ_PET: u8 = 0x76;
pub const WIZ_MAGIC_PROCESS: u8 = 0x31;

pub const MODE_SUMMON: u8 = 2;
pub const MODE_ATTACK: u8 = 3;
pub const MODE_DEFENCE: u8 = 4;
pub const MODE_LOOTING: u8 = 8;
pub const MODE_CHAT: u8 = 9;
pub const MODE_SATISFACTION_UPDATE: u8 = 0x0F;
pub const MODE_FOOD: u8 = 0x10;

pub const PET_MODE_FUNCTION: u8 = 1;
pub const PET_USE_SKILL: u8 = 2;

/// WIZ_MAGIC_PROCESS sub-opcode that plays a skill's effect.
pub const MAGIC_EFFECTING_SUBCODE: u8 = 3;

pub const NORMAL_MODE: u8 = 5;
pub const FOOD_MODE: u8 = 16;

pub const PET_HP_CHANGE_CODE: u8 = 7;
pub const PET_DAMAGE_DISPLAY_CODE: u8 = 8;
pub const PET_EXP_CHANGE_CODE: u8 = 10;
pub const PET_LEVEL_UP_CODE: u8 = 11;
pub const PET_MP_CHANGE_CODE: u8 = 13;

/// Food items: +20%, +50% and +100% of the current satisfaction.
pub const FOOD_ITEM_20: u32 = 389570000;
pub const FOOD_ITEM_50: u32 = 389580000;
pub const FOOD_ITEM_100: u32 = 389590000;

pub const MAX_SATISFACTION: i16 = 10000;
pub const MAX_PET_LEVEL: u8 = 60;
pub const PET_INVENTORY_TOTAL: u8 = 4;

/// NPC template of summoned pets.
pub const PET_RUNTIME_TEMPLATE_SID: u16 = 19_000;

/// Runtime IDs from this value on are NPCs; below are players.
pub const NPC_BAND: u32 = 10000;

/// Skills a pet may cast have IDs from this value on.
pub const PET_SKILL_MIN: u32 = 300000;

/// Item ID of the pet egg, and the inventory slots a pet item may sit in.
pub const PET_ITEM_ID: u32 = 610_001_000;
pub const PET_ITEM_SLOT: i16 = 5;
pub const CFAIRY_SLOT: i16 = 48;

/// A player's pet.
pub struct PetState {
    pub serial_id: u64,
    pub level: u8,
    /// 0 to `MAX_SATISFACTION`.
    pub satisfaction: i16,
    pub exp: u32,
    pub hp: u16,
    /// Runtime NPC ID while summoned, else 0.
    pub nid: u16,
    pub index: u32,
    pub mp: u16,
    /// Current mode (`MODE_*`).
    pub state_change: u8,
    pub name: String,
    pub pid: u16,
    pub size: u16,
    pub attack_started: bool,
    pub attack_target_id: i32,
}

/// A pet as stored.
pub struct PetRow {
    pub n_serial_id: i64,
    pub b_level: i16,
    pub s_satisfaction: i16,
    pub n_exp: i32,
    pub s_hp: i16,
    pub n_index: i32,
    pub s_mp: i16,
    pub s_pet_name: String,
    pub s_pid: i16,
    pub s_size: i16,
}

pub open spec fn clamp_int(v: int, lo: int, hi: int) -> int {
    if v < lo { lo } else if v > hi { hi } else { v }
}

pub open spec fn nonneg(v: int) -> int {
    if v < 0 { 0 } else { v }
}

/// A stored pet brought back: level between 1 and 60, satisfaction between
/// 0 and 10000, negative numbers read as 0, unsummoned and defending.
pub fn restore_pet(row: PetRow) -> (p: PetState)
    ensures
        p.serial_id == nonneg(row.n_serial_id as int),
        p.level == clamp_int(row.b_level as int, 1, 60),
        p.satisfaction == clamp_int(row.s_satisfaction as int, 0, 10000),
        p.exp == nonneg(row.n_exp as int),
        p.hp == nonneg(row.s_hp as int),
        p.nid == 0,
        p.index == nonneg(row.n_index as int),
        p.mp == nonneg(row.s_mp as int),
        p.state_change == MODE_DEFENCE,
        p.name@ == row.s_pet_name@,
        p.pid == nonneg(row.s_pid as int),
        p.size == nonneg(row.s_size as int),
        !p.attack_started,
        p.attack_target_id == -1,
{
    let level: i16 = if row.b_level < 1 { 1 } else if row.b_level > 60 { 60 } else { row.b_level };
    let sat: i16 = if row.s_satisfaction < 0 { 0 } else if row.s_satisfaction > 10000 { 10000 } else { row.s_satisfaction };
    PetState {
        serial_id: if row.n_serial_id < 0 { 0 } else { row.n_serial_id as u64 },
        level: level as u8,
        satisfaction: sat,
        exp: if row.n_exp < 0 { 0 } else { row.n_exp as u32 },
        hp: if row.s_hp < 0 { 0 } else { row.s_hp as u16 },
        nid: 0,
        index: if row.n_index < 0 { 0 } else { row.n_index as u32 },
        mp: if row.s_mp < 0 { 0 } else { row.s_mp as u16 },
        state_change: MODE_DEFENCE,
        name: row.s_pet_name,
        pid: if row.s_pid < 0 { 0 } else { row.s_pid as u16 },
        size: if row.s_size < 0 { 0 } else { row.s_size as u16 },
        attack_started: false,
        attack_target_id: -1,
    }
}

/// A stored inventory item as the pet lookup reads it.
#[derive(Clone, Copy, Debug, PartialEq, Eq, Structural)]
pub struct StoredItem {
    pub item_id: u32,
    pub slot_index: i16,
    pub serial_num: i64,
}

/// The item holds a pet: it has a serial and is the pet egg or sits in the
/// pet or fairy slot.
pub open spec fn spec_is_pet_item(it: StoredItem) -> bool {
    it.serial_num > 0 && (it.item_id == PET_ITEM_ID || it.slot_index == PET_ITEM_SLOT || it.slot_index
        == CFAIRY_SLOT)
}

/// Position of the first stored item that holds a pet.
pub fn find_pet_item(items: &[StoredItem]) -> (r: Option<usize>)
    ensures
        r is Some ==> r->0 < items@.len() && spec_is_pet_item(items@[r->0 as int]) && forall|j: int|
            0 <= j < r->0 ==> !spec_is_pet_item(#[trigger] items@[j]),
        r is None ==> forall|j: int| 0 <= j < items@.len() ==> !spec_is_pet_item(#[trigger] items@[j]),
{
    let mut i: usize = 0;
    while i < items.len()
        invariant
            i <= items@.len(),
            forall|j: int| 0 <= j < i ==> !spec_is_pet_item(#[trigger] items@[j]),
        decreases items@.len() - i,
    {
        let it = items[i];
        if it.serial_num > 0 && (it.item_id == PET_ITEM_ID || it.slot_index == PET_ITEM_SLOT || it.slot_index
            == CFAIRY_SLOT) {
            return Some(i);
        }
        i = i + 1;
    }
    None
}

/// What a NormalMode request asks for.
#[derive(Clone, Copy, Debug, PartialEq, Eq, Structural)]
pub enum NormalModeRequest {
    Summon,
    /// Attack, defence or looting.
    SetMode,
    Chat,
    Unhandled,
}

pub fn classify_normal_mode(mode: u8) -> (r: NormalModeRequest)
    ensures
        r == (if mode == MODE_SUMMON {
            NormalModeRequest::Summon
        } else if mode == MODE_ATTACK || mode == MODE_DEFENCE || mode == MODE_LOOTING {
            NormalModeRequest::SetMode
        } else if mode == MODE_CHAT {
            NormalModeRequest::Chat
        } else {
            NormalModeRequest::Unhandled
        }),
{
    if mode == MODE_SUMMON {
        NormalModeRequest::Summon
    } else if mode == MODE_ATTACK || mode == MODE_DEFENCE || mode == MODE_LOOTING {
        NormalModeRequest::SetMode
    } else if mode == MODE_CHAT {
        NormalModeRequest::Chat
    } else {
        NormalModeRequest::Unhandled
    }
}

/// Switches the pet's mode; defending stops any attack.
pub fn set_pet_mode(pet: &mut PetState, mode: u8)
    ensures
        final(pet).state_change == mode,
        mode == MODE_DEFENCE ==> !final(pet).attack_started && final(pet).attack_target_id == -1,
        mode != MODE_DEFENCE ==> final(pet).attack_started == old(pet).attack_started
            && final(pet).attack_target_id == old(pet).attack_target_id,
        final(pet).satisfaction == old(pet).satisfaction,
        final(pet).nid == old(pet).nid,
        final(pet).index == old(pet).index,
{
    pet.state_change = mode;
    if mode == MODE_DEFENCE {
        pet.attack_started = false;
        pet.attack_target_id = -1;
    }
}

/// A summon goes ahead only when the pet is not already in the world.
pub fn summon_allowed(pet_nid: u16, npc_exists: bool) -> (r: bool)
    ensures
        r == !(pet_nid != 0 && npc_exists),
{
    !(pet_nid != 0 && npc_exists)
}

/// Marks the pet as summoned under a runtime NPC ID, defending.
pub fn mark_summoned(pet: &mut PetState, runtime_nid: u32)
    ensures
        final(pet).nid == (runtime_nid % 65536) as u16,
        final(pet).state_change == MODE_DEFENCE,
        !final(pet).attack_started,
        final(pet).attack_target_id == -1,
        final(pet).satisfaction == old(pet).satisfaction,
        final(pet).index == old(pet).index,
        final(pet).level == old(pet).level,
{
    pet.nid = (runtime_nid % 65536) as u16;
    pet.state_change = MODE_DEFENCE;
    pet.attack_started = false;
    pet.attack_target_id = -1;
}

/// A level's stats from the pet table.
#[derive(Clone, Copy, Debug, PartialEq, Eq, Structural)]
pub struct PetStats {
    pub max_hp: u16,
    pub max_sp: u16,
    pub attack: u16,
    pub defence: u16,
    pub res: u16,
}

/// Pet stats snapshot for the status window.
pub struct PetSpawnInfo {
    pub index: u32,
    pub name: String,
    pub level: u8,
    /// Experience as percentage times 100.
    pub exp_percent: u16,
    pub max_hp: u16,
    pub hp: u16,
    pub max_mp: u16,
    pub mp: u16,
    pub satisfaction: u16,
    pub attack: u16,
    pub defence: u16,
    /// Used for all six resistance slots.
    pub resistance: u16,
}

/// The status window of a freshly summoned pet: its level's stats where
/// known (else its own HP and MP as maxima, and zero combat stats).
pub fn spawn_info_for(pet: &PetState, stats: Option<PetStats>) -> (r: PetSpawnInfo)
    ensures
        r.index == pet.index,
        r.name@ == pet.name@,
        r.level == pet.level,
        r.exp_percent == 0,
        r.hp == pet.hp,
        r.mp == pet.mp,
        r.satisfaction == nonneg(pet.satisfaction as int),
        stats is Some ==> r.max_hp == stats->0.max_hp && r.max_mp == stats->0.max_sp && r.attack
            == stats->0.attack && r.defence == stats->0.defence && r.resistance == stats->0.res,
        stats is None ==> r.max_hp == pet.hp && r.max_mp == pet.mp && r.attack == 0 && r.defence == 0
            && r.resistance == 0,
{
    let sat: u16 = if pet.satisfaction < 0 { 0 } else { pet.satisfaction as u16 };
    let (max_hp, max_mp, attack, defence, res) = match stats {
        Some(s) => (s.max_hp, s.max_sp, s.attack, s.defence, s.res),
        None => (pet.hp, pet.mp, 0, 0, 0),
    };
    PetSpawnInfo {
        index: pet.index,
        name: pet.name.clone(),
        level: pet.level,
        exp_percent: 0,
        max_hp,
        hp: pet.hp,
        max_mp,
        mp: pet.mp,
        satisfaction: sat,
        attack,
        defence,
        resistance: res,
    }
}

/// Percentage of the current satisfaction a food item adds, or `None` for
/// anything that is not pet food.
pub open spec fn spec_food_percent(item_id: u32) -> Option<int> {
    if item_id == FOOD_ITEM_20 {
        Some(20)
    } else if item_id == FOOD_ITEM_50 {
        Some(50)
    } else if item_id == FOOD_ITEM_100 {
        Some(100)
    } else {
        None
    }
}

/// Satisfaction after eating: raised by the food's share of the current
/// value (rounded down), capped at `MAX_SATISFACTION`.
pub open spec fn spec_fed_satisfaction(old_sat: i16, percent: int) -> int {
    let raised = old_sat + (old_sat * percent) / 100;
    if raised > MAX_SATISFACTION { MAX_SATISFACTION as int } else { raised }
}

/// What feeding did.
#[derive(Clone, Copy, Debug, PartialEq, Eq, Structural)]
pub struct FeedResult {
    /// Satisfaction before the meal, which the food reply reports against.
    pub old_satisfaction: i16,
    pub new_satisfaction: i16,
    /// What is left in the food slot.
    pub remaining_item_id: u32,
    pub remaining_count: u16,
}

/// The bag slot holds the food item.
pub open spec fn spec_food_slot_ok(inv: Seq<UserItemSlot>, slot_index: u8, item_id: u32) -> bool {
    let at = SLOT_MAX + slot_index;
    &&& at < inv.len()
    &&& inv[at].item_id != 0 && inv[at].item_id == item_id && inv[at].count > 0
}

/// FoodMode: feeds the pet the food at bag position `slot_index`. Nothing
/// happens (`None`) unless it is pet food and the slot holds it. Otherwise
/// one piece is eaten (an emptied slot loses its item and durability) and
/// satisfaction rises by the food's share, up to the maximum.
pub fn feed_pet(pet: &mut PetState, inventory: &mut Vec<UserItemSlot>, slot_index: u8, item_id: u32) -> (r: Option<FeedResult>)
    requires
        0 <= old(pet).satisfaction <= MAX_SATISFACTION,
    ensures
        r is Some <==> spec_food_percent(item_id) is Some && spec_food_slot_ok(old(inventory)@, slot_index, item_id),
        r is None ==> final(pet).satisfaction == old(pet).satisfaction && final(inventory)@ == old(inventory)@,
        r is Some ==> {
            let at = SLOT_MAX + slot_index;
            let slot = old(inventory)@[at];
            let left = (slot.count - 1) as u16;
            &&& final(pet).satisfaction == spec_fed_satisfaction(old(pet).satisfaction, spec_food_percent(item_id)->0)
            &&& r->0.old_satisfaction == old(pet).satisfaction
            &&& r->0.new_satisfaction == final(pet).satisfaction
            &&& r->0.remaining_count == left
            &&& r->0.remaining_item_id == if left == 0 { 0 } else { item_id }
            &&& final(inventory)@ == old(inventory)@.update(
                at,
                if left == 0 {
                    UserItemSlot { count: 0, item_id: 0, durability: 0, ..slot }
                } else {
                    UserItemSlot { count: left, ..slot }
                },
            )
        },
        final(pet).index == old(pet).index,
        final(pet).nid == old(pet).nid,
        0 <= final(pet).satisfaction <= MAX_SATISFACTION,
{
    let percent: i32 = if item_id == FOOD_ITEM_20 {
        20
    } else if item_id == FOOD_ITEM_50 {
        50
    } else if item_id == FOOD_ITEM_100 {
        100
    } else {
        return None;
    };
    let at: usize = SLOT_MAX + slot_index as usize;
    if at >= inventory.len() {
        return None;
    }
    let slot = inventory[at];
    if !(slot.item_id != 0 && slot.item_id == item_id && slot.count > 0) {
        return None;
    }
    let old_sat = pet.satisfaction;
    let increase: i32 = (old_sat as i32 * percent) / 100;
    let mut new_sat: i16 = old_sat + increase as i16;
    if new_sat > MAX_SATISFACTION {
        new_sat = MAX_SATISFACTION;
    }
    pet.satisfaction = new_sat;
    let left: u16 = slot.count - 1;
    let new_slot = if left == 0 {
        UserItemSlot { count: 0, item_id: 0, durability: 0, ..slot }
    } else {
        UserItemSlot { count: left, ..slot }
    };
    inventory.set(at, new_slot);
    Some(FeedResult {
        old_satisfaction: old_sat,
        new_satisfaction: new_sat,
        remaining_item_id: if left == 0 { 0 } else { item_id },
        remaining_count: left,
    })
}

/// What a change of satisfaction led to.
#[derive(Clone, Copy, Debug, PartialEq, Eq, Structural)]
pub enum SatisfactionOutcome {
    /// No pet.
    NoPet,
    /// The pet starved and is gone; its index, for the death notice.
    Died(u32),
    /// The new satisfaction and the pet's runtime ID, for the update.
    Updated(i16, u32),
}

/// Changes the pet's satisfaction by `amount`, kept between 0 and the
/// maximum. A pet at 0 dies and is removed.
pub fn pet_satisfaction_update(pet: &mut Option<PetState>, amount: i16) -> (r: SatisfactionOutcome)
    requires
        (*old(pet)) is Some ==> 0 <= (*old(pet))->0.satisfaction <= MAX_SATISFACTION,
        (*old(pet)) is Some ==> (*old(pet))->0.satisfaction + amount <= i16::MAX,
    ensures
        (*old(pet)) is None ==> r == SatisfactionOutcome::NoPet && (*final(pet)) is None,
        (*old(pet)) is Some ==> {
            let p = (*old(pet))->0;
            let sat = clamp_int(p.satisfaction + amount, 0, MAX_SATISFACTION as int);
            &&& sat <= 0 ==> r == SatisfactionOutcome::Died(p.index) && (*final(pet)) is None
            &&& sat > 0 ==> r == SatisfactionOutcome::Updated(sat as i16, p.nid as u32) && (*final(pet)) is Some
                && (*final(pet))->0.satisfaction == sat && (*final(pet))->0.index == p.index
        },
{
    match pet {
        None => SatisfactionOutcome::NoPet,
        Some(p) => {
            let raised: i16 = p.satisfaction + amount;
            let sat: i16 = if raised < 0 { 0 } else if raised > MAX_SATISFACTION { MAX_SATISFACTION } else { raised };
            p.satisfaction = sat;
            if sat <= 0 {
                let index = p.index;
                *pet = None;
                SatisfactionOutcome::Died(index)
            } else {
                SatisfactionOutcome::Updated(sat, p.nid as u32)
            }
        },
    }
}

/// What a PetUseSkill request does.
#[derive(Clone, Copy, Debug, PartialEq, Eq, Structural)]
pub enum PetSkillOutcome {
    /// Nothing: no pet in the world, not a pet skill, or no live NPC target.
    Ignore,
    /// The effect plays, the pet attacks the target, and satisfaction drops
    /// by 10; `announce_attack` says the client must be told the pet left
    /// defence.
    Cast { announce_attack: bool },
}

/// PetUseSkill: a summoned pet casting `skill_id` on NPC `target_id`.
/// `pet_in_world` is whether its runtime NPC exists; `target_alive` whether
/// the target NPC exists and is alive. On a cast the pet turns to attack
/// the target.
pub fn pet_use_skill(pet: &mut PetState, pet_in_world: bool, skill_id: u32, target_id: u32, target_alive: bool) -> (r: PetSkillOutcome)
    ensures
        r == (if old(pet).nid == 0 || !pet_in_world || skill_id < PET_SKILL_MIN || target_id < NPC_BAND
            || !target_alive {
            PetSkillOutcome::Ignore
        } else {
            PetSkillOutcome::Cast { announce_attack: old(pet).state_change == MODE_DEFENCE }
        }),
        r == PetSkillOutcome::Ignore ==> final(pet).state_change == old(pet).state_change
            && final(pet).attack_started == old(pet).attack_started
            && final(pet).attack_target_id == old(pet).attack_target_id,
        r != PetSkillOutcome::Ignore ==> final(pet).state_change == MODE_ATTACK && final(pet).attack_started
            && final(pet).attack_target_id == target_id as i32,
        final(pet).satisfaction == old(pet).satisfaction,
        final(pet).nid == old(pet).nid,
        final(pet).index == old(pet).index,
{
    if pet.nid == 0 || !pet_in_world {
        return PetSkillOutcome::Ignore;
    }
    if skill_id < PET_SKILL_MIN {
        return PetSkillOutcome::Ignore;
    }
    if target_id < NPC_BAND || !target_alive {
        return PetSkillOutcome::Ignore;
    }
    let was_defending = pet.state_change == MODE_DEFENCE;
    pet.state_change = MODE_ATTACK;
    pet.attack_started = true;
    pet.attack_target_id = target_id as i32;
    PetSkillOutcome::Cast { announce_attack: was_defending }
}

/// Mode acknowledgement: `[u8 1][u8 5][u8 mode][u16 1]`.
pub fn build_pet_mode_change_packet(mode: u8) -> (pkt: Packet)
    ensures
        pkt.opcode == WIZ_PET,
        pkt.data@ == u8_le(PET_MODE_FUNCTION) + u8_le(NORMAL_MODE) + u8_le(mode) + u16_le(1),
{
    let mut pkt = Packet::new(WIZ_PET);
    pkt.write_u8(PET_MODE_FUNCTION);
    pkt.write_u8(NORMAL_MODE);
    pkt.write_u8(mode);
    pkt.write_u16(1);
    pkt
}

/// Chat answer: `[u8 1][u8 5][u8 9][u16 1]` and the message's bytes.
pub fn build_pet_chat_packet(chat: &str) -> (pkt: Packet)
    ensures
        pkt.opcode == WIZ_PET,
        pkt.data@ == u8_le(PET_MODE_FUNCTION) + u8_le(NORMAL_MODE) + u8_le(MODE_CHAT) + u16_le(1)
            + chat.spec_bytes(),
{
    let mut pkt = build_pet_mode_change_packet(MODE_CHAT);
    pkt.write_bytes(chat.as_bytes());
    pkt
}

/// Food answer: `[u8 1][u8 0x10][u8 1][u8 slot][u32 item left][u16 count
/// left][u16 0][u32 0][u16 10000 - satisfaction before the meal]`.
pub fn build_pet_food_packet(slot_index: u8, fed: &FeedResult) -> (pkt: Packet)
    requires
        0 <= fed.old_satisfaction <= MAX_SATISFACTION,
    ensures
        pkt.opcode == WIZ_PET,
        pkt.data@ == u8_le(PET_MODE_FUNCTION) + u8_le(MODE_FOOD) + u8_le(1) + u8_le(slot_index) + u32_le(
            fed.remaining_item_id,
        ) + u16_le(fed.remaining_count) + u16_le(0) + u32_le(0) + u16_le(
            (MAX_SATISFACTION - fed.old_satisfaction) as u16,
        ),
{
    let mut pkt = Packet::new(WIZ_PET);
    pkt.write_u8(PET_MODE_FUNCTION);
    pkt.write_u8(MODE_FOOD);
    pkt.write_u8(1);
    pkt.write_u8(slot_index);
    pkt.write_u32(fed.remaining_item_id);
    pkt.write_u16(fed.remaining_count);
    pkt.write_u16(0);
    pkt.write_u32(0);
    pkt.write_u16((MAX_SATISFACTION - fed.old_satisfaction) as u16);
    pkt
}

/// Satisfaction update: `[u8 1][u8 0x0F][u16 satisfaction][u32 pet NPC]`.
pub fn build_pet_satisfaction_packet(satisfaction: i16, nid: u32) -> (pkt: Packet)
    ensures
        pkt.opcode == WIZ_PET,
        pkt.data@ == u8_le(PET_MODE_FUNCTION) + u8_le(MODE_SATISFACTION_UPDATE) + u16_le(satisfaction as u16)
            + u32_le(nid),
{
    let mut pkt = Packet::new(WIZ_PET);
    pkt.write_u8(PET_MODE_FUNCTION);
    pkt.write_u8(MODE_SATISFACTION_UPDATE);
    pkt.write_u16(satisfaction as u16);
    pkt.write_u32(nid);
    pkt
}

/// Death notice: `[u8 1][u8 5][u8 2][u16 1][u32 pet index]`.
pub fn build_pet_death_packet(index: u32) -> (pkt: Packet)
    ensures
        pkt.opcode == WIZ_PET,
        pkt.data@ == u8_le(PET_MODE_FUNCTION) + u8_le(NORMAL_MODE) + u8_le(2) + u16_le(1) + u32_le(index),
{
    let mut pkt = Packet::new(WIZ_PET);
    pkt.write_u8(PET_MODE_FUNCTION);
    pkt.write_u8(NORMAL_MODE);
    pkt.write_u8(2);
    pkt.write_u16(1);
    pkt.write_u32(index);
    pkt
}

/// The effect of a pet's skill, seen by everyone around:
/// `[u8 3][u32 skill][u32 pet NPC][u32 target]` and six zero words.
pub fn build_pet_magic_packet(skill_id: u32, pet_nid: u16, target_id: u32) -> (pkt: Packet)
    ensures
        pkt.opcode == WIZ_MAGIC_PROCESS,
        pkt.data@ == u8_le(MAGIC_EFFECTING_SUBCODE) + u32_le(skill_id) + u32_le(pet_nid as u32) + u32_le(target_id)
            + u16_le(0) + u16_le(0) + u16_le(0) + u16_le(0) + u16_le(0) + u16_le(0),
{
    let mut pkt = Packet::new(WIZ_MAGIC_PROCESS);
    pkt.write_u8(MAGIC_EFFECTING_SUBCODE);
    pkt.write_u32(skill_id);
    pkt.write_u32(pet_nid as u32);
    pkt.write_u32(target_id);
    pkt.write_u16(0);
    pkt.write_u16(0);
    pkt.write_u16(0);
    pkt.write_u16(0);
    pkt.write_u16(0);
    pkt.write_u16(0);
    pkt
}

/// One empty pet-inventory slot in the status window.
pub open spec fn empty_pet_slot_bytes() -> Seq<u8> {
    u32_le(0) + u16_le(0) + u16_le(0) + u8_le(0) + u16_le(0) + u32_le(0) + u32_le(0)
}

pub open spec fn repeat_bytes(b: Seq<u8>, n: nat) -> Seq<u8>
    decreases n,
{
    if n == 0 { Seq::empty() } else { repeat_bytes(b, (n - 1) as nat) + b }
}

/// Bytes of the status window of a pet.
pub open spec fn pet_spawn_bytes(info: PetSpawnInfo) -> Seq<u8> {
    u8_le(PET_MODE_FUNCTION) + u8_le(NORMAL_MODE) + u8_le(1) + u8_le(1) + u8_le(0) + u32_le(info.index)
        + dbyte_string(vstd::utf8::encode_utf8(info.name@)) + u8_le(119) + u8_le(info.level) + u16_le(
        info.exp_percent,
    ) + u16_le(info.max_hp) + u16_le(info.hp) + u16_le(info.max_mp) + u16_le(info.mp) + u16_le(
        info.satisfaction,
    ) + u16_le(info.attack) + u16_le(info.defence) + repeat_bytes(u16_le(info.resistance), 6) + repeat_bytes(
        empty_pet_slot_bytes(),
        4,
    )
}

/// The pet's status window, sent on summon: `[u8 1][u8 5][u8 1][u8 1][u8 0]
/// [u32 index]`, the name with a 16-bit length, `[u8 119][u8 level]
/// [u16 exp%]`, HP, MP, satisfaction, attack, defence, the resistance six
/// times, and four empty pet-inventory slots.
pub fn build_pet_spawn_packet(info: &PetSpawnInfo) -> (pkt: Packet)
    ensures
        pkt.opcode == WIZ_PET,
        pkt.data@ == pet_spawn_bytes(*info),
{
    let mut pkt = Packet::new(WIZ_PET);
    pkt.write_u8(PET_MODE_FUNCTION);
    assert(pkt.data@ =~= u8_le(PET_MODE_FUNCTION));
    pkt.write_u8(NORMAL_MODE);
    pkt.write_u8(1);
    pkt.write_u8(1);
    pkt.write_u8(0);
    pkt.write_u32(info.index);
    pkt.write_string(info.name.as_str());
    pkt.write_u8(119);
    pkt.write_u8(info.level);
    pkt.write_u16(info.exp_percent);
    pkt.write_u16(info.max_hp);
    pkt.write_u16(info.hp);
    pkt.write_u16(info.max_mp);
    pkt.write_u16(info.mp);
    pkt.write_u16(info.satisfaction);
    pkt.write_u16(info.attack);
    pkt.write_u16(info.defence);
    let ghost mid = pkt.data@;
    let mut i: usize = 0;
    while i < 6
        invariant
            i <= 6,
            pkt.opcode == WIZ_PET,
            pkt.data@ == mid + repeat_bytes(u16_le(info.resistance), i as nat),
        decreases 6 - i,
    {
        pkt.write_u16(info.resistance);
        i = i + 1;
    }
    let ghost mid2 = pkt.data@;
    let mut k: u8 = 0;
    while k < PET_INVENTORY_TOTAL
        invariant
            k <= PET_INVENTORY_TOTAL,
            pkt.opcode == WIZ_PET,
            pkt.data@ == mid2 + repeat_bytes(empty_pet_slot_bytes(), k as nat),
        decreases PET_INVENTORY_TOTAL - k,
    {
        let ghost before = pkt.data@;
        pkt.write_u32(0);
        pkt.write_u16(0);
        pkt.write_u16(0);
        pkt.write_u8(0);
        pkt.write_u16(0);
        pkt.write_u32(0);
        pkt.write_u32(0);
        assert(pkt.data@ =~= before + empty_pet_slot_bytes());
        k = k + 1;
    }
    pkt
}

/// HP change: `[u8 1][u8 7][u16 max][u16 current][u32 source]`.
pub fn build_pet_hp_change_packet(max_hp: u16, current_hp: u16, source_id: u32) -> (pkt: Packet)
    ensures
        pkt.opcode == WIZ_PET,
        pkt.data@ == u8_le(PET_MODE_FUNCTION) + u8_le(PET_HP_CHANGE_CODE) + u16_le(max_hp) + u16_le(current_hp)
            + u32_le(source_id),
{
    let mut pkt = Packet::new(WIZ_PET);
    pkt.write_u8(PET_MODE_FUNCTION);
    pkt.write_u8(PET_HP_CHANGE_CODE);
    pkt.write_u16(max_hp);
    pkt.write_u16(current_hp);
    pkt.write_u32(source_id);
    pkt
}

/// Damage number over the pet: `[u8 1][u8 8][i32 target][0,7,0,0,0,4,0,0,0]
/// [i16 damage]`.
pub fn build_pet_damage_display_packet(target_id: i32, damage: i16) -> (pkt: Packet)
    ensures
        pkt.opcode == WIZ_PET,
        pkt.data@ == u8_le(PET_MODE_FUNCTION) + u8_le(PET_DAMAGE_DISPLAY_CODE) + u32_le(target_id as u32)
            + seq![0u8, 7, 0, 0, 0, 4, 0, 0, 0] + u16_le(damage as u16),
{
    let mut pkt = Packet::new(WIZ_PET);
    pkt.write_u8(PET_MODE_FUNCTION);
    pkt.write_u8(PET_DAMAGE_DISPLAY_CODE);
    pkt.write_i32(target_id);
    let ghost mid = pkt.data@;
    pkt.write_u8(0);
    pkt.write_u8(7);
    pkt.write_u8(0);
    pkt.write_u8(0);
    pkt.write_u8(0);
    pkt.write_u8(4);
    pkt.write_u8(0);
    pkt.write_u8(0);
    pkt.write_u8(0);
    assert(pkt.data@ =~= mid + seq![0u8, 7, 0, 0, 0, 4, 0, 0, 0]);
    pkt.write_i16(damage);
    pkt
}

/// EXP change: `[u8 1][u8 10][u64 gained][u16 exp%][u8 level][u16 satisfaction]`.
pub fn build_pet_exp_change_packet(gained_exp: u64, exp_percent: u16, level: u8, satisfaction: u16) -> (pkt: Packet)
    ensures
        pkt.opcode == WIZ_PET,
        pkt.data@ == u8_le(PET_MODE_FUNCTION) + u8_le(PET_EXP_CHANGE_CODE) + u64_le(gained_exp) + u16_le(exp_percent)
            + u8_le(level) + u16_le(satisfaction),
{
    let mut pkt = Packet::new(WIZ_PET);
    pkt.write_u8(PET_MODE_FUNCTION);
    pkt.write_u8(PET_EXP_CHANGE_CODE);
    pkt.write_u64(gained_exp);
    pkt.write_u16(exp_percent);
    pkt.write_u8(level);
    pkt.write_u16(satisfaction);
    pkt
}

/// Level-up effect for everyone around: `[u8 1][u8 11][u32 pet NPC]`.
pub fn build_pet_level_up_broadcast_packet(pet_npc_id: u32) -> (pkt: Packet)
    ensures
        pkt.opcode == WIZ_PET,
        pkt.data@ == u8_le(PET_MODE_FUNCTION) + u8_le(PET_LEVEL_UP_CODE) + u32_le(pet_npc_id),
{
    let mut pkt = Packet::new(WIZ_PET);
    pkt.write_u8(PET_MODE_FUNCTION);
    pkt.write_u8(PET_LEVEL_UP_CODE);
    pkt.write_u32(pet_npc_id);
    pkt
}

/// MP change: `[u8 1][u8 13][u16 max][u16 current][u16 source]`.
pub fn build_pet_mp_change_packet(max_mp: u16, current_mp: u16, source_id: u16) -> (pkt: Packet)
    ensures
        pkt.opcode == WIZ_PET,
        pkt.data@ == u8_le(PET_MODE_FUNCTION) + u8_le(PET_MP_CHANGE_CODE) + u16_le(max_mp) + u16_le(current_mp)
            + u16_le(source_id),
{
    let mut pkt = Packet::new(WIZ_PET);
    pkt.write_u8(PET_MODE_FUNCTION);
    pkt.write_u8(PET_MP_CHANGE_CODE);
    pkt.write_u16(max_mp);
    pkt.write_u16(current_mp);
    pkt.write_u16(source_id);
    pkt
}

/// Tooltip block of a pet egg: `[u32 index]`, the name with a 16-bit length,
/// `[u8 attack type][u8 level][u16 exp%][u16 satisfaction][u8 0]`.
pub fn build_pet_item_info(index: u32, name: &str, attack_type: u8, level: u8, exp_percent: u16, satisfaction: u16) -> (data: Vec<u8>)
    ensures
        data@ == u32_le(index) + dbyte_string(name.spec_bytes()) + u8_le(attack_type) + u8_le(level) + u16_le(
            exp_percent,
        ) + u16_le(satisfaction) + u8_le(0),
{
    let mut pkt = Packet::new(WIZ_PET);
    pkt.write_u32(index);
    assert(pkt.data@ =~= u32_le(index));
    pkt.write_string(name);
    pkt.write_u8(attack_type);
    pkt.write_u8(level);
    pkt.write_u16(exp_percent);
    pkt.write_u16(satisfaction);
    pkt.write_u8(0);
    pkt.data
}

/// When its owner dies the pet is gone, and the owner is told which pet
/// died; without a pet nothing happens.
pub fn pet_on_death(pet: &mut Option<PetState>) -> (r: Option<Packet>)
    ensures
        *final(pet) is None,
        *old(pet) is None ==> r is None,
        *old(pet) is Some ==> r is Some && r->0.opcode == WIZ_PET && r->0.data@ == u8_le(PET_MODE_FUNCTION) + u8_le(
            NORMAL_MODE,
        ) + u8_le(2) + u16_le(1) + u32_le(old(pet)->0.index),
{
    match pet.take() {
        Some(p) => Some(build_pet_death_packet(p.index)),
        None => None,
    }
}


/// The three pet foods, and nothing else, are food: item 389570000 raises
/// satisfaction by a fifth of its value, 389580000 by half and 389590000
/// doubles it, each rounded down and capped at 10000; a stronger food never
/// leaves the pet less satisfied than a weaker one.
pub proof fn lemma_pet_foods(item_id: u32, sat: i16)
    requires
        0 <= sat <= 10000,
    ensures
        item_id == 389570000 ==> spec_food_percent(item_id) == Some(20int) && spec_fed_satisfaction(sat, 20)
            == if sat + sat / 5 > 10000 { 10000 } else { sat + sat / 5 },
        item_id == 389580000 ==> spec_food_percent(item_id) == Some(50int) && spec_fed_satisfaction(sat, 50)
            == if sat + sat / 2 > 10000 { 10000 } else { sat + sat / 2 },
        item_id == 389590000 ==> spec_food_percent(item_id) == Some(100int) && spec_fed_satisfaction(sat, 100)
            == if 2 * sat > 10000 { 10000 } else { 2 * sat },
        item_id != 389570000 && item_id != 389580000 && item_id != 389590000 ==> spec_food_percent(item_id) is None,
        spec_fed_satisfaction(sat, 20) <= spec_fed_satisfaction(sat, 50) <= spec_fed_satisfaction(sat, 100),
        sat <= spec_fed_satisfaction(sat, 20),
{
    assert((sat * 20) / 100 == sat / 5) by (nonlinear_arith)
        requires
            0 <= sat <= 10000,
    ;
    assert((sat * 50) / 100 == sat / 2) by (nonlinear_arith)
        requires
            0 <= sat <= 10000,
    ;
    assert((sat * 100) / 100 == sat) by (nonlinear_arith)
        requires
            0 <= sat <= 10000,
    ;
}

} // verus!
