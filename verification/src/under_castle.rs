//! Under The Castle (Castellan Dungeon) event: the countdown state machine,
//! entry validation, boss-death consequences and room rewards.
use vstd::prelude::*;
use crate::packet::{Packet, u8_le, u16_le, u32_le};

verus! {

/// Zone id of the Under The Castle dungeon.
pub const ZONE_UNDER_CASTLE: u16 = 86;

/// WIZ_UTC_MOVIE opcode value (0x92).
pub const WIZ_UTC_MOVIE: u8 = 0x92;

/// Minimum level to enter Under The Castle.
pub const MIN_LEVEL_UNDER_CASTLE: u8 = 70;

/// NPC type for fast-spawn UTC monsters.
pub const NPC_UTC_SPAWN_FAST: u16 = 214;

pub const MONSTER_EMPEROR_MAMMOTH_I: u16 = 9501;
pub const MONSTER_EMPEROR_MAMMOTH_II: u16 = 9502;
pub const MONSTER_EMPEROR_MAMMOTH_III: u16 = 9503;
pub const MONSTER_CRESHERGIMMIC_I: u16 = 9504;
pub const MONSTER_CRESHERGIMMIC_II: u16 = 9505;
pub const MONSTER_CRESHERGIMMIC_III: u16 = 9506;
pub const MONSTER_CRESHERGIMMIC_VI: u16 = 9507;
pub const MONSTER_PURIOUS_I: u16 = 9508;
pub const MONSTER_PURIOUS_II: u16 = 9509;
pub const MONSTER_PURIOUS_III: u16 = 9510;
pub const MONSTER_PURIOUS_VI: u16 = 9511;
pub const MONSTER_FLUWITON_ROOM_3_I: u16 = 9512;
pub const MONSTER_FLUWITON_ROOM_3_II: u16 = 9513;
pub const MONSTER_FLUWITON_ROOM_3_III: u16 = 9514;
pub const MONSTER_FLUWITON_ROOM_4_I: u16 = 9515;
pub const MONSTER_FLUWITON_ROOM_4_II: u16 = 9516;
pub const MONSTER_FLUWITON_ROOM_4_III: u16 = 9517;
pub const MONSTER_FLUWITON_ROOM_4_VI: u16 = 9518;

/// NPC ID for the exit portal spawned after final boss death.
pub const UTC_EXIT_PORTAL_NPC: u16 = 29197;

/// Trophy of Flame — awarded in every room.
pub const TROPHY_OF_FLAME: u32 = 800_149_000;

/// Dented Ironmass — room 2 bonus reward.
pub const DENTED_IRONMASS: u32 = 508_147_000;

/// Petrified Weapon Shrapnel — room 3 bonus reward.
pub const PETRIFIED_WEAPON_SHRAPNEL: u32 = 508_149_000;

/// Iron Powder of Chain — room 4 bonus reward.
pub const IRON_POWDER_OF_CHAIN: u32 = 508_151_000;

/// Plwitoon's Tear — room 5 bonus reward.
pub const PLWITOONS_TEAR: u32 = 508_152_000;

/// Horn of Pluwitoon — room 5 bonus reward.
pub const HORN_OF_PLUWITOON: u32 = 810_479_000;

/// Boss kill proximity range in map units.
pub const UTC_BOSS_KILL_RANGE: u16 = 15;

/// Center `(x, z)` and range of each reward room, in map units.
pub open spec fn spec_room_geometry(room: u8) -> Option<(u16, u16, u16)> {
    if room == 1 || room == 2 {
        Some((121, 297, 80))
    } else if room == 3 {
        Some((520, 494, 115))
    } else if room == 4 {
        Some((642, 351, 100))
    } else if room == 5 {
        Some((803, 839, 110))
    } else {
        None
    }
}

/// Center `(x, z)` and range of a reward room; rooms 1 and 2 share one hall.
pub fn room_geometry(room: u8) -> (r: Option<(u16, u16, u16)>)
    ensures
        r == spec_room_geometry(room),
{
    match room {
        1 | 2 => Some((121, 297, 80)),
        3 => Some((520, 494, 115)),
        4 => Some((642, 351, 100)),
        5 => Some((803, 839, 110)),
        _ => None,
    }
}

/// Bonus items of a room, given with count 1 each beside the trophies.
pub open spec fn spec_room_reward_items(room: u8) -> Seq<u32> {
    if room == 2 {
        seq![DENTED_IRONMASS]
    } else if room == 3 {
        seq![PETRIFIED_WEAPON_SHRAPNEL]
    } else if room == 4 {
        seq![IRON_POWDER_OF_CHAIN]
    } else if room == 5 {
        seq![PLWITOONS_TEAR, HORN_OF_PLUWITOON]
    } else {
        Seq::empty()
    }
}

/// Bonus reward items for a UTC room (room 1 and unknown rooms have none).
pub fn get_utc_room_reward_items(room: u8) -> (items: Vec<u32>)
    ensures
        items@ == spec_room_reward_items(room),
{
    match room {
        2 => vec![DENTED_IRONMASS],
        3 => vec![PETRIFIED_WEAPON_SHRAPNEL],
        4 => vec![IRON_POWDER_OF_CHAIN],
        5 => vec![PLWITOONS_TEAR, HORN_OF_PLUWITOON],
        _ => vec![],
    }
}

/// Trophies owed for a boss kill: two when the player is both inside the room
/// range and near the boss, one when only one of them holds, none otherwise.
pub fn trophy_count_for(in_room: bool, near_boss: bool) -> (n: u16)
    ensures
        n == (if in_room { 1u16 } else { 0u16 }) + (if near_boss { 1u16 } else { 0u16 }),
{
    if in_room && near_boss {
        2
    } else if in_room || near_boss {
        1
    } else {
        0
    }
}

/// In-memory spawn entry loaded from the database at startup.
#[derive(Debug, Clone)]
pub struct UtcSpawnEntry {
    pub s_index: i16,
    pub s_sid: i16,
    pub name: String,
    pub b_type: i16,
    pub trap_number: i16,
    pub x: i16,
    pub y: i16,
    pub z: i16,
    pub direction: i16,
    pub count: i16,
    pub radius: i16,
}

/// Under The Castle runtime event state.
pub struct UnderTheCastleState {
    /// Whether the event is currently active.
    pub is_active: bool,
    /// Whether monsters have been summoned for this run.
    pub is_summon: bool,
    /// Countdown in seconds; the event ends when it reaches 0.
    pub start_time: u32,
    /// Countdown value at which the movie cutscene triggers.
    pub start_move_time: u32,
    pub min_level: u8,
    pub max_level: u8,
    /// Runtime ids of the spawned monsters, for cleanup on event end.
    pub monster_list: Vec<u32>,
    /// Door NPC runtime ids of each of the three gate stages.
    pub gate_ids: Vec<Vec<u32>>,
}

impl UnderTheCastleState {
    /// Three gate stages.
    pub open spec fn wf(&self) -> bool {
        self.gate_ids@.len() == 3
    }

    /// The state of an event that has never run, or has been reset.
    pub open spec fn is_idle(&self) -> bool {
        &&& self.wf()
        &&& !self.is_active
        &&& !self.is_summon
        &&& self.start_time == 0
        &&& self.start_move_time == 0
        &&& self.min_level == 0
        &&& self.max_level == 0
        &&& self.monster_list@ == Seq::<u32>::empty()
        &&& forall|i: int| 0 <= i < 3 ==> #[trigger] self.gate_ids@[i]@ == Seq::<u32>::empty()
    }

    /// A new, inactive state.
    pub fn new() -> (s: Self)
        ensures
            s.is_idle(),
    {
        UnderTheCastleState {
            is_active: false,
            is_summon: false,
            start_time: 0,
            start_move_time: 0,
            min_level: 0,
            max_level: 0,
            monster_list: Vec::new(),
            gate_ids: vec![Vec::new(), Vec::new(), Vec::new()],
        }
    }

    /// Resets every field (called on event end).
    pub fn reset(&mut self)
        ensures
            final(self).is_idle(),
    {
        self.is_active = false;
        self.is_summon = false;
        self.start_time = 0;
        self.start_move_time = 0;
        self.min_level = 0;
        self.max_level = 0;
        self.monster_list = Vec::new();
        self.gate_ids = vec![Vec::new(), Vec::new(), Vec::new()];
    }
}

impl Default for UnderTheCastleState {
    fn default() -> (s: Self)
        ensures
            s.is_idle(),
    {
        Self::new()
    }
}

/// Whether an activation request is granted.
pub open spec fn activation_granted(s: UnderTheCastleState, duration_minutes: u32) -> bool {
    !s.is_active && duration_minutes != 0
}

/// Activates the event: the countdown is `duration_minutes * 60` seconds and the
/// movie triggers 15 seconds after the start. Refused while already active or
/// for a zero duration, leaving the state unchanged.
pub fn activate_event(
    state: &mut UnderTheCastleState,
    duration_minutes: u32,
    min_level: u8,
    max_level: u8,
) -> (ok: bool)
    requires
        old(state).wf(),
        activation_granted(*old(state), duration_minutes) ==> duration_minutes * 60 <= u32::MAX,
    ensures
        ok == activation_granted(*old(state), duration_minutes),
        !ok ==> *final(state) == *old(state),
        ok ==> {
            &&& final(state).wf()
            &&& final(state).is_active
            &&& !final(state).is_summon
            &&& final(state).start_time == duration_minutes * 60
            &&& final(state).start_move_time == (if duration_minutes * 60 >= 15 {
                duration_minutes * 60 - 15
            } else {
                0
            })
            &&& final(state).min_level == min_level
            &&& final(state).max_level == max_level
            &&& final(state).monster_list@ == Seq::<u32>::empty()
            &&& forall|i: int| 0 <= i < 3 ==> #[trigger] final(state).gate_ids@[i]@ == Seq::<
                u32,
            >::empty()
        },
{
    if state.is_active {
        return false;
    }
    if duration_minutes == 0 {
        return false;
    }
    state.reset();
    let total_seconds = duration_minutes * 60;
    state.start_time = total_seconds;
    state.start_move_time = if total_seconds >= 15 {
        total_seconds - 15
    } else {
        0
    };
    state.min_level = min_level;
    state.max_level = max_level;
    state.is_active = true;
    state.is_summon = false;
    true
}

/// Forcibly stops an active event by setting the countdown to 1, so that the
/// next ticks end it; an inactive event is left unchanged.
pub fn force_stop_event(state: &mut UnderTheCastleState)
    ensures
        old(state).is_active ==> *final(state) == (UnderTheCastleState {
            start_time: 1,
            ..*old(state)
        }),
        !old(state).is_active ==> *final(state) == *old(state),
{
    if !state.is_active {
        return;
    }
    state.start_time = 1;
}

/// Result of a single timer tick.
#[derive(Debug, PartialEq, Eq, Structural, Clone, Copy)]
pub enum UtcTickResult {
    /// No action needed (event not active).
    Idle,
    /// Monsters should be spawned (first tick after activation).
    SpawnMonsters,
    /// The movie cutscene should be triggered.
    TriggerMovie,
    /// Event has ended: kill all monsters and kick users.
    Finish,
    /// Normal tick: the countdown decreased by one.
    Tick,
}

/// What one tick returns for a state.
pub open spec fn spec_tick_result(s: UnderTheCastleState) -> UtcTickResult {
    if !s.is_active {
        UtcTickResult::Idle
    } else if !s.is_summon {
        UtcTickResult::SpawnMonsters
    } else if s.start_time == s.start_move_time && s.start_move_time > 0 {
        UtcTickResult::TriggerMovie
    } else if s.start_time == 0 {
        UtcTickResult::Finish
    } else {
        UtcTickResult::Tick
    }
}

/// The state after one tick.
pub open spec fn spec_tick_state(s: UnderTheCastleState) -> UnderTheCastleState {
    match spec_tick_result(s) {
        UtcTickResult::SpawnMonsters => UnderTheCastleState { is_summon: true, ..s },
        UtcTickResult::TriggerMovie | UtcTickResult::Tick => UnderTheCastleState {
            start_time: (s.start_time - 1) as u32,
            ..s
        },
        _ => s,
    }
}

/// Runs one tick of the event timer (called every second).
pub fn timer_tick(state: &mut UnderTheCastleState) -> (r: UtcTickResult)
    ensures
        r == spec_tick_result(*old(state)),
        *final(state) == spec_tick_state(*old(state)),
{
    if !state.is_active {
        return UtcTickResult::Idle;
    }
    if !state.is_summon {
        state.is_summon = true;
        return UtcTickResult::SpawnMonsters;
    }
    let current_time = state.start_time;
    let move_time = state.start_move_time;
    if current_time == move_time && move_time > 0 {
        state.start_time = current_time - 1;
        return UtcTickResult::TriggerMovie;
    }
    if current_time == 0 {
        return UtcTickResult::Finish;
    }
    state.start_time = current_time - 1;
    UtcTickResult::Tick
}

/// The state after `n` ticks.
pub open spec fn spec_run_ticks(s: UnderTheCastleState, n: nat) -> UnderTheCastleState
    decreases n,
{
    if n == 0 {
        s
    } else {
        spec_run_ticks(spec_tick_state(s), (n - 1) as nat)
    }
}

/// A tick never raises the countdown, and changes nothing but the countdown
/// and the summon flag.
pub proof fn lemma_tick_never_raises_countdown(s: UnderTheCastleState)
    ensures
        spec_tick_state(s).start_time <= s.start_time,
        spec_tick_state(s).start_move_time == s.start_move_time,
        spec_tick_state(s).is_active == s.is_active,
        spec_tick_state(s).min_level == s.min_level,
        spec_tick_state(s).max_level == s.max_level,
        spec_tick_state(s).monster_list == s.monster_list,
        spec_tick_state(s).gate_ids == s.gate_ids,
{
}

/// Once the monsters are summoned, an active event counts down by exactly one
/// second per tick until it reaches zero, whereupon every tick answers `Finish`.
pub proof fn lemma_countdown_reaches_finish(s: UnderTheCastleState)
    requires
        s.is_active,
        s.is_summon,
    ensures
        spec_run_ticks(s, s.start_time as nat).start_time == 0,
        spec_run_ticks(s, s.start_time as nat).is_active,
        spec_tick_result(spec_run_ticks(s, s.start_time as nat)) == UtcTickResult::Finish,
    decreases s.start_time,
{
    if s.start_time == 0 {
        assert(spec_run_ticks(s, 0) == s);
    } else {
        let t = spec_tick_state(s);
        assert(t.start_time == s.start_time - 1);
        lemma_countdown_reaches_finish(t);
        assert(spec_run_ticks(s, s.start_time as nat) == spec_run_ticks(t, t.start_time as nat));
    }
}

/// A fresh activation (of at least one minute) spawns the monsters on the first
/// tick and triggers the movie on tick 16, after 15 ordinary countdown ticks.
pub proof fn lemma_activation_schedule(s: UnderTheCastleState)
    requires
        s.is_active,
        !s.is_summon,
        s.start_time >= 60,
        s.start_move_time == s.start_time - 15,
    ensures
        spec_tick_result(s) == UtcTickResult::SpawnMonsters,
        forall|k: nat|
            1 <= k <= 15 ==> spec_tick_result(#[trigger] spec_run_ticks(s, k))
                == UtcTickResult::Tick,
        spec_tick_result(spec_run_ticks(s, 16)) == UtcTickResult::TriggerMovie,
{
    let s1 = spec_tick_state(s);
    assert(spec_run_ticks(s, 1) == s1) by {
        assert(spec_run_ticks(s1, 0) == s1);
    }
    lemma_run_ticks_counts_down(s1, 15);
    assert forall|k: nat| 1 <= k <= 15 implies spec_tick_result(#[trigger] spec_run_ticks(s, k))
        == UtcTickResult::Tick by {
        lemma_run_ticks_unfold(s, k);
        lemma_run_ticks_counts_down(s1, (k - 1) as nat);
    }
    lemma_run_ticks_unfold(s, 16);
}

/// Unfolds the first tick of a run.
proof fn lemma_run_ticks_unfold(s: UnderTheCastleState, k: nat)
    requires
        k >= 1,
    ensures
        spec_run_ticks(s, k) == spec_run_ticks(spec_tick_state(s), (k - 1) as nat),
{
}

/// While the countdown is above the movie mark, `k` ticks of a summoned event
/// lower it by `k`.
proof fn lemma_run_ticks_counts_down(s: UnderTheCastleState, k: nat)
    requires
        s.is_active,
        s.is_summon,
        s.start_time >= s.start_move_time + k,
        s.start_move_time > 0,
    ensures
        spec_run_ticks(s, k) == (UnderTheCastleState { start_time: (s.start_time - k) as u32, ..s }),
    decreases k,
{
    if k == 0 {
        assert(spec_run_ticks(s, 0) == s);
    } else {
        let t = spec_tick_state(s);
        assert(spec_tick_result(s) == UtcTickResult::Tick);
        lemma_run_ticks_counts_down(t, (k - 1) as nat);
    }
}

/// Result of entry validation.
#[derive(Debug, PartialEq, Eq, Structural, Clone, Copy)]
pub enum UtcEntryResult {
    /// Player can enter.
    Allowed,
    /// Event is not active.
    EventNotActive,
    /// Player level is too low.
    LevelTooLow,
    /// Player has no clan.
    NoClan,
    /// Player's clan is not the CSW winner (or allied).
    NotCswWinner,
}

/// Whether a player may enter zone 86: the event must be active, the player at
/// least level 70, in a clan, and that clan the siege winner or its ally; the
/// first unmet requirement in that order is reported.
pub fn can_player_enter(
    is_active: bool,
    player_level: u8,
    player_clan_id: u16,
    is_csw_winner: bool,
) -> (r: UtcEntryResult)
    ensures
        r == (if !is_active {
            UtcEntryResult::EventNotActive
        } else if player_level < MIN_LEVEL_UNDER_CASTLE {
            UtcEntryResult::LevelTooLow
        } else if player_clan_id == 0 {
            UtcEntryResult::NoClan
        } else if !is_csw_winner {
            UtcEntryResult::NotCswWinner
        } else {
            UtcEntryResult::Allowed
        }),
{
    if !is_active {
        return UtcEntryResult::EventNotActive;
    }
    if player_level < MIN_LEVEL_UNDER_CASTLE {
        return UtcEntryResult::LevelTooLow;
    }
    if player_clan_id == 0 {
        return UtcEntryResult::NoClan;
    }
    if !is_csw_winner {
        return UtcEntryResult::NotCswWinner;
    }
    UtcEntryResult::Allowed
}

/// Result of processing a monster death in UTC.
#[derive(Debug, PartialEq, Eq, Structural, Clone, Copy)]
pub struct UtcMonsterDeathResult {
    /// Movie ID to broadcast via WIZ_UTC_MOVIE, or 0 if none.
    pub movie_id: u32,
    /// Reward room number (1-5) to send items to nearby users, or 0 if none.
    pub reward_room: u8,
    /// Gate index to open (0-2), or None if no gate opens.
    pub gate_index: Option<u8>,
    /// Whether to spawn exit portal NPCs.
    pub spawn_exit_portals: bool,
    /// Whether this is a fast-despawn NPC.
    pub despawn_fast: bool,
}

/// `(movie_id, reward_room, gate_index, spawn_exit_portals)` of each boss.
pub open spec fn spec_death_table(proto_id: u16) -> (u32, u8, Option<u8>, bool) {
    if proto_id == MONSTER_EMPEROR_MAMMOTH_I {
        (7, 0, Some(0u8), false)
    } else if proto_id == MONSTER_EMPEROR_MAMMOTH_II {
        (8, 0, None, false)
    } else if proto_id == MONSTER_EMPEROR_MAMMOTH_III {
        (2, 1, None, false)
    } else if proto_id == MONSTER_CRESHERGIMMIC_I || proto_id == MONSTER_CRESHERGIMMIC_II
        || proto_id == MONSTER_CRESHERGIMMIC_III {
        (6, 0, None, false)
    } else if proto_id == MONSTER_CRESHERGIMMIC_VI {
        (3, 2, None, false)
    } else if proto_id == MONSTER_PURIOUS_I {
        (3, 2, Some(1u8), false)
    } else if proto_id == MONSTER_PURIOUS_II || proto_id == MONSTER_PURIOUS_III {
        (6, 0, None, false)
    } else if proto_id == MONSTER_PURIOUS_VI {
        (4, 3, Some(1u8), false)
    } else if proto_id == MONSTER_FLUWITON_ROOM_3_I || proto_id == MONSTER_FLUWITON_ROOM_3_III {
        (5, 4, Some(2u8), false)
    } else if proto_id == MONSTER_FLUWITON_ROOM_3_II {
        (6, 0, None, false)
    } else if proto_id == MONSTER_FLUWITON_ROOM_4_I {
        (5, 5, None, true)
    } else if proto_id == MONSTER_FLUWITON_ROOM_4_II || proto_id == MONSTER_FLUWITON_ROOM_4_III {
        (6, 0, None, false)
    } else if proto_id == MONSTER_FLUWITON_ROOM_4_VI {
        (0, 5, None, true)
    } else {
        (0, 0, None, false)
    }
}

/// The actions that follow the death of a monster in the dungeon.
pub fn on_monster_death(proto_id: u16, npc_type: u16) -> (r: UtcMonsterDeathResult)
    ensures
        r.movie_id == spec_death_table(proto_id).0,
        r.reward_room == spec_death_table(proto_id).1,
        r.gate_index == spec_death_table(proto_id).2,
        r.spawn_exit_portals == spec_death_table(proto_id).3,
        r.despawn_fast == (npc_type == NPC_UTC_SPAWN_FAST),
{
    let despawn_fast = npc_type == NPC_UTC_SPAWN_FAST;
    let (movie_id, reward_room, gate_index, spawn_exit_portals): (u32, u8, Option<u8>, bool) =
        match proto_id {
        MONSTER_EMPEROR_MAMMOTH_I => (7, 0, Some(0), false),
        MONSTER_EMPEROR_MAMMOTH_II => (8, 0, None, false),
        MONSTER_EMPEROR_MAMMOTH_III => (2, 1, None, false),
        MONSTER_CRESHERGIMMIC_I => (6, 0, None, false),
        MONSTER_CRESHERGIMMIC_II => (6, 0, None, false),
        MONSTER_CRESHERGIMMIC_III => (6, 0, None, false),
        MONSTER_CRESHERGIMMIC_VI => (3, 2, None, false),
        MONSTER_PURIOUS_I => (3, 2, Some(1), false),
        MONSTER_PURIOUS_II => (6, 0, None, false),
        MONSTER_PURIOUS_III => (6, 0, None, false),
        MONSTER_PURIOUS_VI => (4, 3, Some(1), false),
        MONSTER_FLUWITON_ROOM_3_I => (5, 4, Some(2), false),
        MONSTER_FLUWITON_ROOM_3_II => (6, 0, None, false),
        MONSTER_FLUWITON_ROOM_3_III => (5, 4, Some(2), false),
        MONSTER_FLUWITON_ROOM_4_I => (5, 5, None, true),
        MONSTER_FLUWITON_ROOM_4_II => (6, 0, None, false),
        MONSTER_FLUWITON_ROOM_4_III => (6, 0, None, false),
        MONSTER_FLUWITON_ROOM_4_VI => (0, 5, None, true),
        _ => (0, 0, None, false),
    };
    UtcMonsterDeathResult { movie_id, reward_room, gate_index, spawn_exit_portals, despawn_fast }
}

/// Every boss that opens a gate opens one of the three stages, and only the
/// two final bosses of room 5 spawn the exit portals.
pub proof fn lemma_death_table_well_formed(proto_id: u16)
    ensures
        spec_death_table(proto_id).2 matches Some(g) ==> g < 3,
        spec_death_table(proto_id).1 <= 5,
        spec_death_table(proto_id).3 ==> spec_death_table(proto_id).1 == 5,
        spec_death_table(proto_id).1 != 0 ==> spec_room_geometry(spec_death_table(proto_id).1)
            is Some,
{
}

/// Removes every occurrence of `npc_id` from the tracked monster list, keeping
/// the others in order.
pub fn remove_from_monster_list(state: &mut UnderTheCastleState, npc_id: u32)
    ensures
        final(state).monster_list@ == old(state).monster_list@.filter(|id: u32| id != npc_id),
        final(state).gate_ids == old(state).gate_ids,
        final(state).is_active == old(state).is_active,
        final(state).is_summon == old(state).is_summon,
        final(state).start_time == old(state).start_time,
        final(state).start_move_time == old(state).start_move_time,
        final(state).min_level == old(state).min_level,
        final(state).max_level == old(state).max_level,
{
    let ghost pred = |id: u32| id != npc_id;
    let mut kept: Vec<u32> = Vec::new();
    let mut i: usize = 0;
    while i < state.monster_list.len()
        invariant
            i <= state.monster_list@.len(),
            pred == (|id: u32| id != npc_id),
            kept@ == state.monster_list@.subrange(0, i as int).filter(pred),
        decreases state.monster_list@.len() - i,
    {
        let id = state.monster_list[i];
        let ghost next = state.monster_list@.subrange(0, i + 1);
        proof {
            assert(next.drop_last() == state.monster_list@.subrange(0, i as int));
            assert(next.last() == id);
            reveal_with_fuel(Seq::<_>::filter, 1);
        }
        if id != npc_id {
            assert(pred(id));
            kept.push(id);
            assert(kept@ == next.drop_last().filter(pred).push(id));
        } else {
            assert(!pred(id));
        }
        assert(kept@ == next.filter(pred));
        i = i + 1;
    }
    assert(state.monster_list@.subrange(0, state.monster_list@.len() as int)
        == state.monster_list@);
    state.monster_list = kept;
}

/// Registers a door NPC id for gate stage `gate_index` (0-2), once; other
/// indices are ignored.
pub fn set_gate_id(state: &mut UnderTheCastleState, gate_index: u8, npc_id: u32)
    requires
        old(state).wf(),
    ensures
        final(state).wf(),
        final(state).monster_list == old(state).monster_list,
        final(state).start_time == old(state).start_time,
        final(state).is_active == old(state).is_active,
        forall|i: int|
            0 <= i < 3 && i != gate_index ==> #[trigger] final(state).gate_ids@[i] == old(
                state,
            ).gate_ids@[i],
        gate_index < 3 ==> final(state).gate_ids@[gate_index as int]@ == (if old(
            state,
        ).gate_ids@[gate_index as int]@.contains(npc_id) {
            old(state).gate_ids@[gate_index as int]@
        } else {
            old(state).gate_ids@[gate_index as int]@.push(npc_id)
        }),
        gate_index >= 3 ==> final(state).gate_ids == old(state).gate_ids,
{
    if gate_index > 2 {
        return;
    }
    let idx = gate_index as usize;
    let mut ids = state.gate_ids[idx].clone();
    assert(ids@ == state.gate_ids@[idx as int]@);
    let mut found = false;
    let mut j: usize = 0;
    while j < ids.len()
        invariant
            j <= ids@.len(),
            found == exists|k: int| 0 <= k < j && ids@[k] == npc_id,
        decreases ids@.len() - j,
    {
        if ids[j] == npc_id {
            found = true;
        }
        j = j + 1;
    }
    if !found {
        ids.push(npc_id);
    } else {
        assert(ids@.contains(npc_id));
    }
    state.gate_ids.set(idx, ids);
}

/// Every runtime NPC id of a gate stage; empty for indices past 2.
pub fn get_gate_ids(state: &UnderTheCastleState, gate_index: u8) -> (ids: Vec<u32>)
    requires
        state.wf(),
    ensures
        gate_index < 3 ==> ids@ == state.gate_ids@[gate_index as int]@,
        gate_index >= 3 ==> ids@ == Seq::<u32>::empty(),
{
    if gate_index > 2 {
        return Vec::new();
    }
    let ids = state.gate_ids[gate_index as usize].clone();
    ids
}

/// Registering a door twice records it once: repeated registrations keep each
/// gate stage free of duplicates.
pub proof fn lemma_gate_ids_stay_unique(before: Seq<u32>, npc_id: u32)
    requires
        before.no_duplicates(),
    ensures
        (if before.contains(npc_id) {
            before
        } else {
            before.push(npc_id)
        }).no_duplicates(),
        (if before.contains(npc_id) {
            before
        } else {
            before.push(npc_id)
        }).contains(npc_id),
{
    if !before.contains(npc_id) {
        let after = before.push(npc_id);
        assert(after.last() == npc_id);
        assert forall|i: int, j: int| 0 <= i < after.len() && 0 <= j < after.len() && i != j implies after[i]
            != after[j] by {
            if i < before.len() && j < before.len() {
            } else if i == before.len() {
                assert(after[j] == before[j]);
            } else {
                assert(after[i] == before[i]);
            }
        }
    }
}

/// All tracked monster ids.
pub fn get_all_monster_ids(state: &UnderTheCastleState) -> (ids: Vec<u32>)
    ensures
        ids@ == state.monster_list@,
{
    state.monster_list.clone()
}

/// Adds a spawned monster id to the tracking list.
pub fn add_monster_id(state: &mut UnderTheCastleState, npc_id: u32)
    ensures
        final(state).monster_list@ == old(state).monster_list@.push(npc_id),
        final(state).gate_ids == old(state).gate_ids,
        final(state).is_active == old(state).is_active,
        final(state).start_time == old(state).start_time,
{
    state.monster_list.push(npc_id);
}

/// Bytes of a WIZ_UTC_MOVIE payload: `[u8 2][u8 1][u16 1][u32 movie_id]`.
pub open spec fn spec_utc_movie_payload(movie_id: u32) -> Seq<u8> {
    u8_le(2) + u8_le(1) + u16_le(1) + u32_le(movie_id)
}

/// Builds a WIZ_UTC_MOVIE packet.
pub fn build_utc_movie_packet(movie_id: u32) -> (pkt: Packet)
    ensures
        pkt.opcode == WIZ_UTC_MOVIE,
        pkt.data@ == spec_utc_movie_payload(movie_id),
{
    let mut pkt = Packet::new(WIZ_UTC_MOVIE);
    pkt.write_u8(2);
    pkt.write_u8(1);
    pkt.write_u16(1);
    pkt.write_u32(movie_id);
    assert(pkt.data@ == spec_utc_movie_payload(movie_id));
    pkt
}

} // verus!
