//! Quest rules (WIZ_QUEST 0x64): class groups, prerequisites, monster kill
//! counting, turn-in checks and the quest packets.
use vstd::prelude::*;
use crate::packet::{Packet, u8_le, u16_le, u32_le};
use crate::clock::unix_now;
use std::collections::HashMap;

verus! {

broadcast use vstd::std_specs::hash::group_hash_axioms;

/// WIZ_QUEST opcode.
pub const WIZ_QUEST: u8 = 0x64;

/// WIZ_NPC_SAY opcode.
pub const WIZ_NPC_SAY: u8 = 0x56;

/// Maximum number of text IDs in an NPC_SAY dialog.
pub const MAX_SAY_TEXT_IDS: usize = 8;

/// Moradon, the town that players are sent to.
pub const ZONE_MORADON: u16 = 21;

/// Quest whose turn-in skips the kill count check.
pub const QUEST_WITHOUT_KILL_CHECK: i16 = 812;

/// Quest sub-opcodes.
pub const QUEST_LIST: u8 = 1;
pub const QUEST_SAVE: u8 = 2;
pub const QUEST_EXECUTE: u8 = 3;
pub const QUEST_FULFILL: u8 = 4;
pub const QUEST_ABANDON: u8 = 5;
pub const QUEST_EXECUTE_ALT: u8 = 7;
pub const QUEST_TIME: u8 = 8;
pub const QUEST_MONSTER: u8 = 9;
pub const QUEST_ACCEPT: u8 = 12;

/// Whether class `player_class` (nation * 100 + class type) satisfies a quest's
/// class requirement: 5 accepts every class, a value above 100 demands that
/// exact class, 1/2/3/4/13 name the warrior, rogue, mage, priest and kurian
/// groups (base, novice and master types), and any other value demands that
/// class type.
pub open spec fn spec_job_group_check(player_class: u16, required_class: i16) -> bool {
    let base = player_class % 100;
    if required_class == 5 {
        true
    } else if required_class > 100 {
        player_class == required_class
    } else if required_class == 1 {
        base == 1 || base == 5 || base == 6
    } else if required_class == 2 {
        base == 2 || base == 7 || base == 8
    } else if required_class == 3 {
        base == 3 || base == 9 || base == 10
    } else if required_class == 4 {
        base == 4 || base == 11 || base == 12
    } else if required_class == 13 {
        13 <= base <= 15
    } else {
        base == required_class
    }
}

/// Checks a class against a quest's class requirement.
pub fn job_group_check(player_class: u16, required_class: i16) -> (b: bool)
    ensures
        b == spec_job_group_check(player_class, required_class),
{
    if required_class == 5 {
        return true;
    }
    if required_class > 100 {
        return player_class == required_class as u16;
    }
    let base = (player_class % 100) as i16;
    match required_class {
        1 => base == 1 || base == 5 || base == 6,
        2 => base == 2 || base == 7 || base == 8,
        3 => base == 3 || base == 9 || base == 10,
        4 => base == 4 || base == 11 || base == 12,
        13 => 13 <= base && base <= 15,
        _ => base == required_class,
    }
}

/// The class groups partition the class types 1..=15: each belongs to exactly one group.
pub proof fn lemma_class_groups_partition(player_class: u16)
    requires
        1 <= player_class % 100 <= 15,
    ensures
        (if spec_job_group_check(player_class, 1) { 1int } else { 0int }) + (if spec_job_group_check(
            player_class,
            2,
        ) { 1int } else { 0int }) + (if spec_job_group_check(player_class, 3) { 1int } else { 0int })
            + (if spec_job_group_check(player_class, 4) { 1int } else { 0int }) + (
        if spec_job_group_check(player_class, 13) { 1int } else { 0int }) == 1,
{
}

/// Quest prerequisites: nation (3 = any), minimum level, and class group (5 = any).
pub fn quest_prerequisites_met(
    required_nation: i16,
    required_level: i16,
    required_class: i16,
    nation: u8,
    level: u8,
    class: u16,
) -> (b: bool)
    ensures
        b == ((required_nation == 3 || required_nation == nation) && required_level <= level && (
        required_class == 5 || spec_job_group_check(class, required_class))),
{
    if required_nation != 3 && required_nation != nation as i16 {
        return false;
    }
    if required_level > level as i16 {
        return false;
    }
    if required_class != 5 && !job_group_check(class, required_class) {
        return false;
    }
    true
}

/// Whether abandoning a quest in `zone` sends the player back to Moradon
/// (the war zones 81..=83).
pub fn abandon_kicks_to_moradon(zone: u16) -> (b: bool)
    ensures
        b == (81 <= zone <= 83),
{
    81 <= zone && zone <= 83
}

/// Whether group `g` has the exact kill count it asks for (or asks for none).
pub open spec fn spec_group_met(required: [i16; 4], kill_counts: [u8; 4], g: int) -> bool {
    required[g] <= 0 || kill_counts[g] as i16 == required[g]
}

/// Whether the kill counts allow a turn-in: every group with a positive
/// requirement must have exactly that many kills, except for quest 812.
pub fn quest_kills_fulfilled(quest_num: i16, required: [i16; 4], kill_counts: [u8; 4]) -> (b: bool)
    ensures
        b == (quest_num == QUEST_WITHOUT_KILL_CHECK || forall|g: int|
            0 <= g < 4 ==> #[trigger] spec_group_met(required, kill_counts, g)),
{
    if quest_num == QUEST_WITHOUT_KILL_CHECK {
        return true;
    }
    let mut g: usize = 0;
    while g < 4
        invariant
            g <= 4,
            quest_num != QUEST_WITHOUT_KILL_CHECK,
            forall|h: int| 0 <= h < g ==> #[trigger] spec_group_met(required, kill_counts, h),
        decreases 4 - g,
    {
        if required[g] > 0 && (kill_counts[g] as i16) != required[g] {
            assert(!spec_group_met(required, kill_counts, g as int));
            return false;
        }
        g = g + 1;
    }
    true
}

/// Kill counts of the four groups after considering the first `k` of the
/// sixteen monster slots (group `k / 4`, slot `k % 4`) for one kill of
/// `npc_proto_id`: each slot naming the monster raises its group's count by
/// one while the count stays within the group's requirement. A count is one
/// byte, so it stops at 255 even where a group asks for more.
pub open spec fn spec_counts_after(
    counts: Seq<u8>,
    monster_ids: [[i16; 4]; 4],
    required: [i16; 4],
    npc_proto_id: u16,
    k: nat,
) -> Seq<u8>
    decreases k,
{
    if k == 0 {
        counts
    } else {
        let prev = spec_counts_after(counts, monster_ids, required, npc_proto_id, (k - 1) as nat);
        let g = (k - 1) / 4;
        let s = (k - 1) % 4;
        if monster_ids[g as int][s as int] == npc_proto_id as i16 && prev[g as int] < 255 && prev[g as int] + 1
            <= required[g as int] {
            prev.update(g as int, (prev[g as int] + 1) as u8)
        } else {
            prev
        }
    }
}

/// The `(group, new count)` updates made while considering the first `k` slots.
pub open spec fn spec_updates_after(
    counts: Seq<u8>,
    monster_ids: [[i16; 4]; 4],
    required: [i16; 4],
    npc_proto_id: u16,
    k: nat,
) -> Seq<(u8, u8)>
    decreases k,
{
    if k == 0 {
        Seq::empty()
    } else {
        let prev = spec_counts_after(counts, monster_ids, required, npc_proto_id, (k - 1) as nat);
        let ups = spec_updates_after(counts, monster_ids, required, npc_proto_id, (k - 1) as nat);
        let g = (k - 1) / 4;
        let s = (k - 1) % 4;
        if monster_ids[g as int][s as int] == npc_proto_id as i16 && prev[g as int] < 255 && prev[g as int] + 1
            <= required[g as int] {
            ups.push((g as u8, (prev[g as int] + 1) as u8))
        } else {
            ups
        }
    }
}

/// Whether every group with a positive requirement has reached it.
pub open spec fn spec_all_groups_done(counts: Seq<u8>, required: [i16; 4]) -> bool {
    forall|g: int| 0 <= g < 4 ==> (#[trigger] required[g] <= 0 || counts[g] >= required[g])
}

/// The effect of one monster kill on an ongoing quest.
pub struct KillCountOutcome {
    /// Kill counts of the four groups afterwards.
    pub counts: [u8; 4],
    /// `(group, new count)` of each increment, in slot order.
    pub updates: Vec<(u8, u8)>,
    /// Whether the kill completed the quest (only when something was counted).
    pub fulfilled: bool,
}

/// Counts one kill of `npc_proto_id` toward an ongoing quest with monster
/// table `monster_ids` and requirements `required`.
pub fn count_monster_kill(
    kill_counts: [u8; 4],
    monster_ids: [[i16; 4]; 4],
    required: [i16; 4],
    npc_proto_id: u16,
) -> (r: KillCountOutcome)
    ensures
        r.counts@ == spec_counts_after(kill_counts@, monster_ids, required, npc_proto_id, 16),
        r.updates@ == spec_updates_after(kill_counts@, monster_ids, required, npc_proto_id, 16),
        r.fulfilled == (r.updates@.len() > 0 && spec_all_groups_done(r.counts@, required)),
{
    let mut counts = kill_counts;
    let mut updates: Vec<(u8, u8)> = Vec::new();
    let mut k: usize = 0;
    while k < 16
        invariant
            k <= 16,
            counts@ == spec_counts_after(kill_counts@, monster_ids, required, npc_proto_id, k as nat),
            updates@ == spec_updates_after(kill_counts@, monster_ids, required, npc_proto_id, k as nat),
            counts@.len() == 4,
        decreases 16 - k,
    {
        let g = k / 4;
        let s = k % 4;
        let mob_id = monster_ids[g][s];
        let current = counts[g];
        if mob_id == npc_proto_id as i16 && current < 255 && (current as i16 + 1) <= required[g] {
            let new_count = current + 1;
            counts[g] = new_count;
            updates.push((g as u8, new_count));
        }
        k = k + 1;
    }
    let mut done = true;
    let mut g: usize = 0;
    while g < 4
        invariant
            g <= 4,
            counts@.len() == 4,
            done == forall|h: int| 0 <= h < g ==> (#[trigger] required[h] <= 0 || counts@[h]
                >= required[h]),
        decreases 4 - g,
    {
        if !(required[g] <= 0 || (counts[g] as i16) >= required[g]) {
            done = false;
        }
        g = g + 1;
    }
    let fulfilled = updates.len() > 0 && done;
    KillCountOutcome { counts, updates, fulfilled }
}

/// Kill counts never exceed the requirement through counting: a group that
/// starts within its requirement stays within it.
pub proof fn lemma_counts_stay_within_requirement(
    counts: Seq<u8>,
    monster_ids: [[i16; 4]; 4],
    required: [i16; 4],
    npc_proto_id: u16,
    k: nat,
)
    requires
        counts.len() == 4,
        k <= 16,
        forall|g: int| 0 <= g < 4 ==> #[trigger] counts[g] <= required[g] || required[g] <= 0,
    ensures
        spec_counts_after(counts, monster_ids, required, npc_proto_id, k).len() == 4,
        forall|g: int|
            0 <= g < 4 ==> #[trigger] spec_counts_after(counts, monster_ids, required, npc_proto_id, k)[g]
                <= required[g] || (required[g] <= 0 && spec_counts_after(
                counts,
                monster_ids,
                required,
                npc_proto_id,
                k,
            )[g] == counts[g]),
    decreases k,
{
    if k > 0 {
        lemma_counts_stay_within_requirement(counts, monster_ids, required, npc_proto_id, (k - 1) as nat);
    }
}

/// Bytes of a kill count update: `[u8 9][u8 2][u16 quest][u8 group + 1][u16 count]`.
pub fn build_kill_update_packet(quest_num: u16, group: u8, new_count: u8) -> (pkt: Packet)
    requires
        group < 4,
    ensures
        pkt.opcode == WIZ_QUEST,
        pkt.data@ == u8_le(9) + u8_le(2) + u16_le(quest_num) + u8_le((group + 1) as u8) + u16_le(
            new_count as u16,
        ),
{
    let mut pkt = Packet::new(WIZ_QUEST);
    pkt.write_u8(9);
    pkt.write_u8(2);
    pkt.write_u16(quest_num);
    pkt.write_u8(group + 1);
    pkt.write_u16(new_count as u16);
    pkt
}

/// Bytes of a quest state update: `[u8 2][u16 quest][u8 state]`.
pub fn build_quest_state_packet(quest_num: u16, state: u8) -> (pkt: Packet)
    ensures
        pkt.opcode == WIZ_QUEST,
        pkt.data@ == u8_le(2) + u16_le(quest_num) + u8_le(state),
{
    let mut pkt = Packet::new(WIZ_QUEST);
    pkt.write_u8(2);
    pkt.write_u16(quest_num);
    pkt.write_u8(state);
    pkt
}

/// Bytes of the monster data of a quest:
/// `[u8 9][u8 1][u16 quest][u16 kills] x 4`.
pub fn build_quest_monster_data_packet(quest_id: u16, kill_counts: [u8; 4]) -> (pkt: Packet)
    ensures
        pkt.opcode == WIZ_QUEST,
        pkt.data@ == u8_le(9) + u8_le(1) + u16_le(quest_id) + u16_le(kill_counts[0] as u16)
            + u16_le(kill_counts[1] as u16) + u16_le(kill_counts[2] as u16) + u16_le(
            kill_counts[3] as u16,
        ),
{
    let mut pkt = Packet::new(WIZ_QUEST);
    pkt.write_u8(9);
    pkt.write_u8(1);
    pkt.write_u16(quest_id);
    pkt.write_u16(kill_counts[0] as u16);
    pkt.write_u16(kill_counts[1] as u16);
    pkt.write_u16(kill_counts[2] as u16);
    pkt.write_u16(kill_counts[3] as u16);
    pkt
}

/// Bytes of the `(quest, state)` entries of the quest list.
pub open spec fn spec_quest_entries(entries: Seq<(u16, u8)>) -> Seq<u8>
    decreases entries.len(),
{
    if entries.len() == 0 {
        Seq::empty()
    } else {
        spec_quest_entries(entries.drop_last()) + u16_le(entries.last().0) + u8_le(
            entries.last().1,
        )
    }
}

/// Builds the quest list `[u8 1][u16 count]([u16 quest][u8 state])*` and
/// returns the quests, in list order, that are ongoing (1) or ready (3).
pub fn build_quest_list_packet(entries: &[(u16, u8)]) -> (r: (Packet, Vec<u16>))
    ensures
        r.0.opcode == WIZ_QUEST,
        r.0.data@ == u8_le(1) + u16_le((entries@.len() % 65536) as u16) + spec_quest_entries(
            entries@,
        ),
        r.1@ == entries@.filter(|e: (u16, u8)| e.1 == 1 || e.1 == 3).map_values(
            |e: (u16, u8)| e.0,
        ),
{
    let ghost pred = |e: (u16, u8)| e.1 == 1 || e.1 == 3;
    let ghost key = |e: (u16, u8)| e.0;
    let mut pkt = Packet::new(WIZ_QUEST);
    pkt.write_u8(1);
    pkt.write_u16((entries.len() % 65536) as u16);
    let ghost header = pkt.data@;
    let mut active: Vec<u16> = Vec::new();
    let mut i: usize = 0;
    while i < entries.len()
        invariant
            i <= entries@.len(),
            pred == (|e: (u16, u8)| e.1 == 1 || e.1 == 3),
            key == (|e: (u16, u8)| e.0),
            pkt.opcode == WIZ_QUEST,
            pkt.data@ == header + spec_quest_entries(entries@.subrange(0, i as int)),
            active@ == entries@.subrange(0, i as int).filter(pred).map_values(key),
        decreases entries@.len() - i,
    {
        let (quest_id, state) = entries[i];
        let ghost next = entries@.subrange(0, i + 1);
        proof {
            assert(next.drop_last() == entries@.subrange(0, i as int));
            assert(next.last() == (quest_id, state));
            reveal_with_fuel(Seq::<_>::filter, 1);
        }
        pkt.write_u16(quest_id);
        pkt.write_u8(state);
        if state == 1 || state == 3 {
            active.push(quest_id);
            assert(next.filter(pred) == next.drop_last().filter(pred).push((quest_id, state)));
        } else {
            assert(next.filter(pred) == next.drop_last().filter(pred));
        }
        assert(active@ == next.filter(pred).map_values(key));
        i = i + 1;
    }
    assert(entries@.subrange(0, entries@.len() as int) == entries@);
    (pkt, active)
}

/// The NPC_SAY text ids: the first eight given, padded with zeros.
pub open spec fn spec_say_ids(text_ids: Seq<i32>) -> Seq<i32> {
    Seq::new(8, |i: int| if i < text_ids.len() { text_ids[i] } else { 0i32 })
}

/// Bytes of a sequence of 32-bit values.
pub open spec fn spec_i32s(vals: Seq<i32>) -> Seq<u8>
    decreases vals.len(),
{
    if vals.len() == 0 {
        Seq::empty()
    } else {
        spec_i32s(vals.drop_last()) + u32_le(vals.last() as u32)
    }
}

/// Builds an NPC_SAY dialog: two `-1` markers, then exactly eight text ids
/// (extra ids dropped, missing ones written as 0).
pub fn build_npc_say_packet(text_ids: &[i32]) -> (pkt: Packet)
    ensures
        pkt.opcode == WIZ_NPC_SAY,
        pkt.data@ == spec_i32s(seq![-1i32, -1i32] + spec_say_ids(text_ids@)),
{
    let mut pkt = Packet::new(WIZ_NPC_SAY);
    pkt.write_i32(-1);
    pkt.write_i32(-1);
    let ghost all = seq![-1i32, -1i32] + spec_say_ids(text_ids@);
    proof {
        reveal_with_fuel(spec_i32s, 3);
        assert(all.subrange(0, 2).drop_last() == all.subrange(0, 1));
        assert(all.subrange(0, 1).drop_last() == all.subrange(0, 0));
    }
    assert(pkt.data@ == spec_i32s(all.subrange(0, 2)));
    let mut i: usize = 0;
    while i < MAX_SAY_TEXT_IDS
        invariant
            i <= 8,
            all == seq![-1i32, -1i32] + spec_say_ids(text_ids@),
            pkt.opcode == WIZ_NPC_SAY,
            pkt.data@ == spec_i32s(all.subrange(0, i + 2)),
        decreases 8 - i,
    {
        let id: i32 = if i < text_ids.len() {
            text_ids[i]
        } else {
            0
        };
        pkt.write_i32(id);
        assert(all.subrange(0, i + 3).drop_last() == all.subrange(0, i + 2));
        assert(all.subrange(0, i + 3).last() == id);
        i = i + 1;
    }
    assert(all.subrange(0, 10) == all);
    pkt
}

/// Bytes of the time sync: `[u8 8][u16 year][u8 month][u8 day][u8 hour][u8 minute][u8 second]`.
pub fn build_time_sync_packet(year: i32, month: u32, day: u32, hour: u32, minute: u32, second: u32) -> (pkt: Packet)
    ensures
        pkt.opcode == WIZ_QUEST,
        pkt.data@ == u8_le(8) + u16_le(year as u16) + u8_le(month as u8) + u8_le(day as u8) + u8_le(
            hour as u8,
        ) + u8_le(minute as u8) + u8_le(second as u8),
{
    let mut pkt = Packet::new(WIZ_QUEST);
    pkt.write_u8(8);
    pkt.write_u16(year as u16);
    pkt.write_u8(month as u8);
    pkt.write_u8(day as u8);
    pkt.write_u8(hour as u8);
    pkt.write_u8(minute as u8);
    pkt.write_u8(second as u8);
    pkt
}

/// The UTC calendar date and time of a UNIX time in seconds, as
/// `(year, month, day, hour, minute, second)`, or `None` where chrono cannot
/// place it on its calendar.
pub uninterp spec fn utc_fields_of(secs: i64) -> Option<(i32, u32, u32, u32, u32, u32)>;

/// Calls `chrono::DateTime::from_timestamp(secs, 0)` and reads the date and
/// time fields of the result. The result is named, not restated: chrono's
/// calendar arithmetic depends on `secs` alone. chrono documents month in
/// 1..=12, day in 1..=31, hour in 0..=23, minute and second in 0..=59; for
/// which `secs` the result is `None` is not stated beyond the name.
#[verifier::external_body]
fn utc_fields(secs: i64) -> (r: Option<(i32, u32, u32, u32, u32, u32)>)
    ensures
        r == utc_fields_of(secs),
        r matches Some(f) ==> 1 <= f.1 <= 12 && 1 <= f.2 <= 31 && f.3 <= 23 && f.4 <= 59 && f.5 <= 59,
{
    match chrono::DateTime::from_timestamp(secs, 0) {
        Some(t) => Some(
            (
                chrono::Datelike::year(&t),
                chrono::Datelike::month(&t),
                chrono::Datelike::day(&t),
                chrono::Timelike::hour(&t),
                chrono::Timelike::minute(&t),
                chrono::Timelike::second(&t),
            ),
        ),
        None => None,
    }
}

/// The fields the time sync carries for UNIX time `secs`: its UTC date and
/// time, or the epoch's where the calendar has no place for it.
pub open spec fn time_sync_fields(secs: u64) -> (i32, u32, u32, u32, u32, u32) {
    let f = if secs <= i64::MAX { utc_fields_of(secs as i64) } else { None };
    match f {
        Some(x) => x,
        None => (1970, 1, 1, 0, 0, 0),
    }
}

/// Builds the time sync packet for UNIX time `secs` (UTC).
pub fn build_time_sync_packet_at(secs: u64) -> (pkt: Packet)
    ensures
        pkt.opcode == WIZ_QUEST,
        ({
            let f = time_sync_fields(secs);
            pkt.data@ == u8_le(8) + u16_le(f.0 as u16) + u8_le(f.1 as u8) + u8_le(f.2 as u8) + u8_le(f.3 as u8)
                + u8_le(f.4 as u8) + u8_le(f.5 as u8)
        }),
        1 <= time_sync_fields(secs).1 <= 12 && 1 <= time_sync_fields(secs).2 <= 31,
        time_sync_fields(secs).3 <= 23 && time_sync_fields(secs).4 <= 59 && time_sync_fields(secs).5 <= 59,
{
    let f = if secs <= i64::MAX as u64 {
        utc_fields(secs as i64)
    } else {
        None
    };
    let (year, month, day, hour, minute, second) = match f {
        Some(x) => x,
        None => (1970, 1, 1, 0, 0, 0),
    };
    build_time_sync_packet(year, month, day, hour, minute, second)
}

/// Builds the time sync packet for the current UTC time, read from the
/// system clock (a clock set before the epoch reads as the epoch).
pub fn build_current_time_sync_packet() -> (pkt: Packet)
    ensures
        pkt.opcode == WIZ_QUEST,
        pkt.data@.len() == 8,
        pkt.data@[0] == 8,
        1 <= pkt.data@[3] <= 12,
        1 <= pkt.data@[4] <= 31,
        pkt.data@[5] <= 23,
        pkt.data@[6] <= 59,
        pkt.data@[7] <= 59,
{
    let now = unix_now();
    build_time_sync_packet_at(now)
}

/// A player's progress in one quest.
#[derive(Clone, Copy, Debug)]
pub struct UserQuestInfo {
    pub quest_state: u8,
    pub kill_counts: [u8; 4],
}

pub const QUEST_STATE_ONGOING: u8 = 1;
pub const QUEST_STATE_COMPLETED: u8 = 2;
pub const QUEST_STATE_READY: u8 = 3;
pub const QUEST_STATE_REMOVED: u8 = 4;

/// The quest map after a quest is saved in a state: state 1 starts the
/// quest with no kills, or keeps the kills of one already known; state 2
/// completes it, known or not; state 4 forgets it; any other state is set
/// on a known quest only. No other quest changes.
pub open spec fn spec_save_event(quests: Map<u16, UserQuestInfo>, quest_id: u16, quest_state: u8) -> Map<
    u16,
    UserQuestInfo,
> {
    if quest_state == QUEST_STATE_ONGOING {
        if quests.contains_key(quest_id) {
            quests.insert(quest_id, UserQuestInfo { quest_state: 1, kill_counts: quests[quest_id].kill_counts })
        } else {
            quests.insert(quest_id, UserQuestInfo { quest_state: 1, kill_counts: [0u8, 0u8, 0u8, 0u8] })
        }
    } else if quest_state == QUEST_STATE_COMPLETED {
        if quests.contains_key(quest_id) {
            quests.insert(quest_id, UserQuestInfo { quest_state: 2, kill_counts: quests[quest_id].kill_counts })
        } else {
            quests.insert(quest_id, UserQuestInfo { quest_state: 2, kill_counts: [0u8, 0u8, 0u8, 0u8] })
        }
    } else if quest_state == QUEST_STATE_REMOVED {
        quests.remove(quest_id)
    } else if quests.contains_key(quest_id) {
        quests.insert(quest_id, UserQuestInfo { quest_state, kill_counts: quests[quest_id].kill_counts })
    } else {
        quests
    }
}

/// Saves a quest in a state and gives what the client is told: the state,
/// and for a started quest its kill counts.
pub fn save_event(quests: &mut HashMap<u16, UserQuestInfo>, quest_id: u16, quest_state: u8) -> (r: Vec<Packet>)
    ensures
        final(quests)@ == spec_save_event(old(quests)@, quest_id, quest_state),
        quest_state != QUEST_STATE_ONGOING ==> r@.len() == 1,
        quest_state == QUEST_STATE_ONGOING ==> r@.len() == 2 && r@[1].opcode == WIZ_QUEST && r@[1].data@ == u8_le(9)
            + u8_le(1) + u16_le(quest_id) + u16_le(final(quests)@[quest_id].kill_counts[0] as u16) + u16_le(
            final(quests)@[quest_id].kill_counts[1] as u16,
        ) + u16_le(final(quests)@[quest_id].kill_counts[2] as u16) + u16_le(
            final(quests)@[quest_id].kill_counts[3] as u16,
        ),
        r@[0].opcode == WIZ_QUEST,
        r@[0].data@ == u8_le(2) + u16_le(quest_id) + u8_le(quest_state),
{
    let known: Option<UserQuestInfo> = match quests.get(&quest_id) {
        Some(info) => Some(*info),
        None => None,
    };
    if quest_state == QUEST_STATE_REMOVED {
        quests.remove(&quest_id);
    } else if quest_state == QUEST_STATE_ONGOING || quest_state == QUEST_STATE_COMPLETED {
        let counts: [u8; 4] = match known {
            Some(info) => info.kill_counts,
            None => [0u8, 0u8, 0u8, 0u8],
        };
        quests.insert(quest_id, UserQuestInfo { quest_state, kill_counts: counts });
    } else {
        match known {
            Some(info) => {
                quests.insert(quest_id, UserQuestInfo { quest_state, kill_counts: info.kill_counts });
            },
            None => {},
        }
    }
    let mut out: Vec<Packet> = Vec::new();
    out.push(build_quest_state_packet(quest_id, quest_state));
    if quest_state == QUEST_STATE_ONGOING {
        let counts: [u8; 4] = match known {
            Some(info) => info.kill_counts,
            None => [0u8, 0u8, 0u8, 0u8],
        };
        out.push(build_quest_monster_data_packet(quest_id, counts));
    }
    out
}

/// A removed quest is forgotten, so starting it again begins with no kills;
/// and saving a quest never touches another quest.
pub proof fn lemma_restart_after_removal_clears_kills(
    quests: Map<u16, UserQuestInfo>,
    quest_id: u16,
    other: u16,
    state: u8,
)
    ensures
        !spec_save_event(quests, quest_id, QUEST_STATE_REMOVED).contains_key(quest_id),
        spec_save_event(spec_save_event(quests, quest_id, QUEST_STATE_REMOVED), quest_id, QUEST_STATE_ONGOING)[quest_id]
            == (UserQuestInfo { quest_state: 1, kill_counts: [0u8, 0u8, 0u8, 0u8] }),
        other != quest_id ==> (spec_save_event(quests, quest_id, state).contains_key(other) == quests.contains_key(other)),
        other != quest_id && quests.contains_key(other) ==> spec_save_event(quests, quest_id, state)[other]
            == quests[other],
{
}

/// Quest helpers with this event index need no NPC.
pub const QUEST_EVENT_WITHOUT_NPC: i16 = 500;

/// What the world says of the NPC a player is talking to.
#[derive(Clone, Copy, Debug, PartialEq, Eq, Structural)]
pub struct QuestNpcView {
    pub is_dead: bool,
    /// The NPC's template, where the NPC is known.
    pub proto_id: Option<u16>,
    pub in_range: bool,
}

/// Whether a quest helper may run for a player: a helper of event index
/// 500 needs no NPC; any other needs the NPC the player talks to (a
/// non-negative ID) alive, of the helper's template where the NPC is known,
/// and within reach; then the player meets the prerequisites.
pub fn quest_allowed_with_npc(
    event_data_index: i16,
    helper_npc_id: i16,
    event_nid: Option<i32>,
    npc: QuestNpcView,
    prerequisites_met: bool,
) -> (b: bool)
    ensures
        b == (prerequisites_met && (event_data_index == QUEST_EVENT_WITHOUT_NPC || (event_nid is Some
            && event_nid->0 >= 0 && !npc.is_dead && (npc.proto_id is None || helper_npc_id == npc.proto_id->0 as i16)
            && npc.in_range))),
{
    if event_data_index == QUEST_EVENT_WITHOUT_NPC {
        return prerequisites_met;
    }
    match event_nid {
        Some(n) if n >= 0 => {},
        _ => return false,
    }
    if npc.is_dead {
        return false;
    }
    match npc.proto_id {
        Some(p) => {
            if helper_npc_id != p as i16 {
                return false;
            }
        },
        None => {},
    }
    if !npc.in_range {
        return false;
    }
    prerequisites_met
}

/// Accepting a quest starts it unless it is already ongoing.
pub fn accept_quest(quests: &mut HashMap<u16, UserQuestInfo>, quest_id: u16) -> (r: Vec<Packet>)
    ensures
        old(quests)@.contains_key(quest_id) && old(quests)@[quest_id].quest_state == QUEST_STATE_ONGOING
            ==> final(quests)@ == old(quests)@ && r@.len() == 0,
        !(old(quests)@.contains_key(quest_id) && old(quests)@[quest_id].quest_state == QUEST_STATE_ONGOING)
            ==> final(quests)@ == spec_save_event(old(quests)@, quest_id, QUEST_STATE_ONGOING) && r@.len() == 2
            && r@[0].data@ == u8_le(2) + u16_le(quest_id) + u8_le(QUEST_STATE_ONGOING),
{
    let ongoing = match quests.get(&quest_id) {
        Some(info) => info.quest_state == QUEST_STATE_ONGOING,
        None => false,
    };
    if ongoing {
        return Vec::new();
    }
    save_event(quests, quest_id, QUEST_STATE_ONGOING)
}

/// Abandoning a known quest removes it; the answer is the state packet and
/// whether the player is sent to Moradon. An unknown quest is left alone.
pub fn abandon_quest(quests: &mut HashMap<u16, UserQuestInfo>, quest_id: u16, zone: u16) -> (r: Option<(Packet, bool)>)
    ensures
        !old(quests)@.contains_key(quest_id) ==> r is None && final(quests)@ == old(quests)@,
        old(quests)@.contains_key(quest_id) ==> r is Some && final(quests)@ == old(quests)@.remove(quest_id)
            && (r->0).0.data@ == u8_le(2) + u16_le(quest_id) + u8_le(QUEST_STATE_REMOVED) && (r->0).1 == (81 <= zone
            <= 83),
{
    if !quests.contains_key(&quest_id) {
        return None;
    }
    let mut pkts = save_event(quests, quest_id, QUEST_STATE_REMOVED);
    let pkt = pkts.remove(0);
    Some((pkt, abandon_kicks_to_moradon(zone)))
}

/// A helper's script runs unless its quest is already completed.
pub fn helper_may_run(quests: &HashMap<u16, UserQuestInfo>, quest_id: u16) -> (b: bool)
    ensures
        b == !(quests@.contains_key(quest_id) && quests@[quest_id].quest_state == QUEST_STATE_COMPLETED),
{
    match quests.get(&quest_id) {
        Some(info) => info.quest_state != QUEST_STATE_COMPLETED,
        None => true,
    }
}

proof fn lemma_update_groups_below_four(
    counts: Seq<u8>,
    monster_ids: [[i16; 4]; 4],
    required: [i16; 4],
    npc_proto_id: u16,
    k: nat,
)
    requires
        k <= 16,
    ensures
        forall|i: int|
            0 <= i < spec_updates_after(counts, monster_ids, required, npc_proto_id, k).len() ==> (#[trigger] spec_updates_after(
                counts,
                monster_ids,
                required,
                npc_proto_id,
                k,
            )[i]).0 < 4,
    decreases k,
{
    if k > 0 {
        lemma_update_groups_below_four(counts, monster_ids, required, npc_proto_id, (k - 1) as nat);
        let g = (k - 1) / 4;
        assert(g < 4);
        let prev = spec_updates_after(counts, monster_ids, required, npc_proto_id, (k - 1) as nat);
        let cur = spec_updates_after(counts, monster_ids, required, npc_proto_id, k);
        assert forall|i: int| 0 <= i < cur.len() implies (#[trigger] cur[i]).0 < 4 by {
            if i < prev.len() {
                assert(cur[i] == prev[i]);
            } else {
                assert(cur[i].0 == g as u8);
            }
        }
    }
}

/// The kill count packets of the updates, in order.
pub open spec fn kill_update_views(quest_num: u16, ups: Seq<(u8, u8)>) -> Seq<Seq<u8>> {
    ups.map_values(|u: (u8, u8)| u8_le(9) + u8_le(2) + u16_le(quest_num) + u8_le((u.0 + 1) as u8) + u16_le(u.1 as u16))
}

/// Bytes of the packets one kill sends for quest `quest_num` of the
/// player's quests `q`, with that quest's monster table: the count updates
/// in slot order, then the ready state if the kill completed the quest;
/// nothing when the quest is not ongoing or nothing was counted.
pub open spec fn kill_packets(
    q: Map<u16, UserQuestInfo>,
    quest_num: u16,
    monster_ids: [[i16; 4]; 4],
    required: [i16; 4],
    npc_proto_id: u16,
) -> Seq<Seq<u8>> {
    if !(q.contains_key(quest_num) && q[quest_num].quest_state == QUEST_STATE_ONGOING) {
        Seq::empty()
    } else {
        let ups = spec_updates_after(q[quest_num].kill_counts@, monster_ids, required, npc_proto_id, 16);
        let counts = spec_counts_after(q[quest_num].kill_counts@, monster_ids, required, npc_proto_id, 16);
        if ups.len() == 0 {
            Seq::empty()
        } else if spec_all_groups_done(counts, required) {
            kill_update_views(quest_num, ups).push(u8_le(2) + u16_le(quest_num) + u8_le(QUEST_STATE_READY))
        } else {
            kill_update_views(quest_num, ups)
        }
    }
}

/// `after` is quest `quest_num` once one kill has been counted toward it
/// from the player's quests `q`: the new counts and, when every group is
/// done, the ready state; unchanged when the quest is not ongoing or the
/// kill counted nothing.
pub open spec fn quest_after_kill(
    q: Map<u16, UserQuestInfo>,
    after: UserQuestInfo,
    quest_num: u16,
    monster_ids: [[i16; 4]; 4],
    required: [i16; 4],
    npc_proto_id: u16,
) -> bool {
    let info = q[quest_num];
    let ups = spec_updates_after(info.kill_counts@, monster_ids, required, npc_proto_id, 16);
    let counts = spec_counts_after(info.kill_counts@, monster_ids, required, npc_proto_id, 16);
    if info.quest_state != QUEST_STATE_ONGOING || ups.len() == 0 {
        after == info
    } else {
        &&& after.kill_counts@ == counts
        &&& after.quest_state == if spec_all_groups_done(counts, required) {
            QUEST_STATE_READY
        } else {
            QUEST_STATE_ONGOING
        }
    }
}

/// A monster kill counted toward one quest of the player, with that
/// quest's monster table: only an ongoing quest counts; when the kill
/// raises a count, the new counts are kept, the client gets each update,
/// and a quest whose every group is done becomes ready to turn in (state
/// 3), which the client is told last. Otherwise nothing changes.
pub fn quest_monster_kill(
    quests: &mut HashMap<u16, UserQuestInfo>,
    quest_num: u16,
    monster_ids: [[i16; 4]; 4],
    required: [i16; 4],
    npc_proto_id: u16,
) -> (r: Vec<Packet>)
    ensures
        ({
            let old_q = old(quests)@;
            let counted = old_q.contains_key(quest_num) && old_q[quest_num].quest_state == QUEST_STATE_ONGOING;
            let ups = spec_updates_after(old_q[quest_num].kill_counts@, monster_ids, required, npc_proto_id, 16);
            let counts = spec_counts_after(old_q[quest_num].kill_counts@, monster_ids, required, npc_proto_id, 16);
            let done = spec_all_groups_done(counts, required);
            if !counted || ups.len() == 0 {
                final(quests)@ == old_q && r@.len() == 0
            } else {
                &&& final(quests)@.dom() == old_q.dom()
                &&& forall|q: u16| q != quest_num && old_q.contains_key(q) ==> #[trigger] final(quests)@[q] == old_q[q]
                &&& final(quests)@[quest_num].kill_counts@ == counts
                &&& final(quests)@[quest_num].quest_state == (if done { QUEST_STATE_READY } else { QUEST_STATE_ONGOING })
                &&& r@.len() == ups.len() + (if done { 1int } else { 0int })
                &&& forall|i: int| 0 <= i < ups.len() ==> #[trigger] r@[i].data@ == kill_update_views(quest_num, ups)[i]
                &&& forall|i: int| 0 <= i < r@.len() ==> #[trigger] r@[i].opcode == WIZ_QUEST
                &&& done ==> r@[ups.len() as int].data@ == u8_le(2) + u16_le(quest_num) + u8_le(QUEST_STATE_READY)
            }
        }),
        final(quests)@.dom() == old(quests)@.dom(),
        forall|q: u16| q != quest_num && old(quests)@.contains_key(q) ==> #[trigger] final(quests)@[q] == old(quests)@[q],
        old(quests)@.contains_key(quest_num) ==> quest_after_kill(
            old(quests)@,
            final(quests)@[quest_num],
            quest_num,
            monster_ids,
            required,
            npc_proto_id,
        ),
        r@.map_values(|p: Packet| p.data@) == kill_packets(old(quests)@, quest_num, monster_ids, required, npc_proto_id),
        forall|i: int| 0 <= i < r@.len() ==> #[trigger] r@[i].opcode == WIZ_QUEST,
{
    let info: UserQuestInfo = match quests.get(&quest_num) {
        Some(i) => *i,
        None => return Vec::new(),
    };
    if info.quest_state != QUEST_STATE_ONGOING {
        return Vec::new();
    }
    let outcome = count_monster_kill(info.kill_counts, monster_ids, required, npc_proto_id);
    if outcome.updates.len() == 0 {
        return Vec::new();
    }
    let new_state: u8 = if outcome.fulfilled { QUEST_STATE_READY } else { QUEST_STATE_ONGOING };
    quests.insert(quest_num, UserQuestInfo { quest_state: new_state, kill_counts: outcome.counts });
    proof {
        lemma_update_groups_below_four(info.kill_counts@, monster_ids, required, npc_proto_id, 16);
    }
    let mut out: Vec<Packet> = Vec::new();
    let mut i: usize = 0;
    while i < outcome.updates.len()
        invariant
            i <= outcome.updates@.len(),
            out@.len() == i,
            outcome.updates@ == spec_updates_after(info.kill_counts@, monster_ids, required, npc_proto_id, 16),
            forall|j: int| 0 <= j < outcome.updates@.len() ==> (#[trigger] outcome.updates@[j]).0 < 4,
            forall|j: int| 0 <= j < i ==> #[trigger] out@[j].data@ == kill_update_views(quest_num, outcome.updates@)[j],
            forall|j: int| 0 <= j < i ==> #[trigger] out@[j].opcode == WIZ_QUEST,
        decreases outcome.updates@.len() - i,
    {
        let (g, c) = outcome.updates[i];
        out.push(build_kill_update_packet(quest_num, g, c));
        i = i + 1;
    }
    if outcome.fulfilled {
        out.push(build_quest_state_packet(quest_num, QUEST_STATE_READY));
    }
    proof {
        let ups = outcome.updates@;
        let views = kill_update_views(quest_num, ups);
        if outcome.fulfilled {
            assert(out@.map_values(|p: Packet| p.data@) =~= views.push(
                u8_le(2) + u16_le(quest_num) + u8_le(QUEST_STATE_READY),
            ));
        } else {
            assert(out@.map_values(|p: Packet| p.data@) =~= views);
        }
    }
    out
}

/// The packets a kill sends for each row of the player's quest table, in
/// row order, all read against the quests as they were before the kill.
pub open spec fn walk_packets(
    q: Map<u16, UserQuestInfo>,
    rows: Seq<(u16, [[i16; 4]; 4], [i16; 4])>,
    npc_proto_id: u16,
) -> Seq<Seq<u8>>
    decreases rows.len(),
{
    if rows.len() == 0 {
        Seq::empty()
    } else {
        let row = rows.last();
        walk_packets(q, rows.drop_last(), npc_proto_id) + kill_packets(q, row.0, row.1, row.2, npc_proto_id)
    }
}

/// Some row of the table is for quest `quest_num`.
pub open spec fn has_row(rows: Seq<(u16, [[i16; 4]; 4], [i16; 4])>, quest_num: u16) -> bool {
    exists|i: int| 0 <= i < rows.len() && rows[i].0 == quest_num
}

/// A monster kill counted toward every quest of the player: `rows` holds,
/// for each of the player's quests that has a monster table, its number,
/// monster IDs and requirements, one row per quest. Each ongoing quest with
/// a row is counted as `quest_monster_kill` states; quests without a row
/// stay as they were; the packets come row after row.
pub fn quests_monster_kill(
    quests: &mut HashMap<u16, UserQuestInfo>,
    rows: &[(u16, [[i16; 4]; 4], [i16; 4])],
    npc_proto_id: u16,
) -> (r: Vec<Packet>)
    requires
        forall|i: int, j: int| 0 <= i < j < rows@.len() ==> #[trigger] rows@[i].0 != #[trigger] rows@[j].0,
    ensures
        final(quests)@.dom() == old(quests)@.dom(),
        forall|q: u16| old(quests)@.contains_key(q) && !has_row(rows@, q) ==> #[trigger] final(quests)@[q] == old(quests)@[q],
        forall|i: int|
            0 <= i < rows@.len() && old(quests)@.contains_key(rows@[i].0) ==> quest_after_kill(
                old(quests)@,
                final(quests)@[#[trigger] rows@[i].0],
                rows@[i].0,
                rows@[i].1,
                rows@[i].2,
                npc_proto_id,
            ),
        r@.map_values(|p: Packet| p.data@) == walk_packets(old(quests)@, rows@, npc_proto_id),
        forall|i: int| 0 <= i < r@.len() ==> #[trigger] r@[i].opcode == WIZ_QUEST,
{
    let ghost start = quests@;
    let mut out: Vec<Packet> = Vec::new();
    let mut i: usize = 0;
    while i < rows.len()
        invariant
            i <= rows@.len(),
            forall|a: int, b: int| 0 <= a < b < rows@.len() ==> #[trigger] rows@[a].0 != #[trigger] rows@[b].0,
            quests@.dom() == start.dom(),
            forall|q: u16| start.contains_key(q) && !has_row(rows@.subrange(0, i as int), q) ==> #[trigger] quests@[q] == start[q],
            forall|j: int|
                0 <= j < i && start.contains_key(rows@[j].0) ==> quest_after_kill(
                    start,
                    quests@[#[trigger] rows@[j].0],
                    rows@[j].0,
                    rows@[j].1,
                    rows@[j].2,
                    npc_proto_id,
                ),
            out@.map_values(|p: Packet| p.data@) == walk_packets(start, rows@.subrange(0, i as int), npc_proto_id),
            forall|k: int| 0 <= k < out@.len() ==> #[trigger] out@[k].opcode == WIZ_QUEST,
        decreases rows@.len() - i,
    {
        let (quest_num, ids, req) = rows[i];
        let ghost before = quests@;
        let ghost prev_out = out@;
        proof {
            assert(!has_row(rows@.subrange(0, i as int), quest_num)) by {
                if has_row(rows@.subrange(0, i as int), quest_num) {
                    let w = choose|w: int| 0 <= w < i && rows@.subrange(0, i as int)[w].0 == quest_num;
                    assert(rows@[w].0 == rows@[i as int].0);
                }
            }
            if start.contains_key(quest_num) {
                assert(before[quest_num] == start[quest_num]);
            }
        }
        let mut pkts = quest_monster_kill(quests, quest_num, ids, req, npc_proto_id);
        proof {
            let next = rows@.subrange(0, i as int + 1);
            assert(next.drop_last() == rows@.subrange(0, i as int));
            assert(next.last() == rows@[i as int]);
            assert(kill_packets(before, quest_num, ids, req, npc_proto_id) == kill_packets(start, quest_num, ids, req, npc_proto_id));
            assert forall|q: u16| start.contains_key(q) && !has_row(next, q) implies #[trigger] quests@[q] == start[q] by {
                assert(!has_row(rows@.subrange(0, i as int), q)) by {
                    if has_row(rows@.subrange(0, i as int), q) {
                        let w = choose|w: int| 0 <= w < i && rows@.subrange(0, i as int)[w].0 == q;
                        assert(next[w].0 == q);
                    }
                }
                assert(q != quest_num) by {
                    assert(next[i as int].0 == quest_num);
                }
            }
            assert forall|j: int|
                0 <= j < i + 1 && start.contains_key(rows@[j].0) implies quest_after_kill(
                    start,
                    quests@[#[trigger] rows@[j].0],
                    rows@[j].0,
                    rows@[j].1,
                    rows@[j].2,
                    npc_proto_id,
                ) by {
                if j < i {
                    assert(rows@[j].0 != rows@[i as int].0);
                }
            }
        }
        let ghost mid = out@;
        out.append(&mut pkts);
        proof {
            assert(out@.map_values(|p: Packet| p.data@) =~= mid.map_values(|p: Packet| p.data@) + kill_packets(
                before,
                quest_num,
                ids,
                req,
                npc_proto_id,
            ));
        }
        i = i + 1;
    }
    proof {
        assert(rows@.subrange(0, rows@.len() as int) == rows@);
    }
    out
}

} // verus!
