//! Respawn after death (WIZ_REGENE 0x12): request normalisation, resurrection
//! stone cost, the choice of respawn point, and the post-respawn blink.
use vstd::prelude::*;
use crate::packet::{Packet, u8_le, u16_le, u32_le};
use crate::clock::unix_now;

verus! {

pub const WIZ_REGENE: u8 = 0x12;
pub const WIZ_STATE_CHANGE: u8 = 0x29;
pub const WIZ_STEALTH: u8 = 0x60;

/// Resurrection stone item ID.
pub const ITEM_RESURRECTION_STONE: u32 = 379006000;

/// Level up to which resurrection stones cannot be used.
pub const MIN_LEVEL_FOR_STONES: u8 = 5;

/// Blink duration in seconds.
pub const BLINK_TIME: u64 = 10;

/// Blink duration in the special event zones (10 + 45 seconds).
pub const SPECIAL_ZONE_BLINK_TIME: u64 = 55;

pub const ABNORMAL_NORMAL: u32 = 1;
/// Abnormal type: blinking (respawn invulnerability).
pub const ABNORMAL_BLINKING: u32 = 4;
/// Abnormal type of the Chaos Dungeon / Dungeon Defence zones when not blinking.
pub const ABNORMAL_CHAOS_NORMAL: u32 = 7;

pub const USER_STATUS_CURE: u8 = 0;
pub const USER_STATUS_DOT: u8 = 1;
pub const USER_STATUS_POISON: u8 = 2;
pub const USER_STATUS_SPEED: u8 = 3;

/// State change type carrying an abnormal type.
pub const STATE_CHANGE_ABNORMAL: u8 = 3;

pub const ZONE_KARUS: u16 = 1;
pub const ZONE_ELMORAD: u16 = 2;
pub const ZONE_MORADON: u16 = 21;
pub const ZONE_DELOS: u16 = 30;
pub const ZONE_ARENA: u16 = 48;
pub const ZONE_BATTLE_BASE: u16 = 60;
pub const ZONE_SNOW_BATTLE: u16 = 69;
pub const ZONE_CHAOS_DUNGEON: u16 = 85;
pub const ZONE_UNDER_CASTLE: u16 = 86;
pub const ZONE_JURAID_MOUNTAIN: u16 = 87;
pub const ZONE_DUNGEON_DEFENCE: u16 = 89;

/// Moradon fallback respawn point.
pub const MORADON_RESPAWN_X: i32 = 512;
pub const MORADON_RESPAWN_Z: i32 = 341;

/// Only types 1 (bind point) and 2 (resurrection stones) exist; anything else is 1.
pub fn normalize_regene_type(regene_type: u8) -> (t: u8)
    ensures
        t == (if regene_type == 2 { 2u8 } else { 1u8 }),
{
    if regene_type != 1 && regene_type != 2 {
        1
    } else {
        regene_type
    }
}

/// Resurrection stones needed to revive in place: three per level, and none
/// can be used up to level 5.
pub fn resurrection_stone_cost(level: u8) -> (r: Option<u16>)
    ensures
        level <= MIN_LEVEL_FOR_STONES ==> r is None,
        level > MIN_LEVEL_FOR_STONES ==> r == Some((3 * level) as u16),
{
    if level <= MIN_LEVEL_FOR_STONES {
        None
    } else {
        Some(3u16 * level as u16)
    }
}

/// Whether the respawn restores full MP too (only in the Under The Castle zone).
pub fn restores_mana_on_respawn(zone: u16) -> (b: bool)
    ensures
        b == (zone == ZONE_UNDER_CASTLE),
{
    zone == ZONE_UNDER_CASTLE
}

/// Whether saved buffs are recast after respawn: not while blinking and not in
/// the Chaos Dungeon, Dungeon Defence or Knight Royale zones.
pub fn recasts_saved_magic(is_blinking: bool, zone: u16, knight_royale_zone: u16) -> (b: bool)
    ensures
        b == (!is_blinking && zone != ZONE_CHAOS_DUNGEON && zone != ZONE_DUNGEON_DEFENCE && zone
            != knight_royale_zone),
{
    !is_blinking && zone != ZONE_CHAOS_DUNGEON && zone != ZONE_DUNGEON_DEFENCE && zone
        != knight_royale_zone
}

/// Whether a player with no loyalty is sent home after a normal respawn: war
/// zones, the PK zones 71..=73 and the special event zones 105..=115.
pub fn loyalty_zero_kick(regene_type: u8, loyalty: u32, is_war_zone: bool, zone: u16) -> (b: bool)
    ensures
        b == (regene_type == 1 && loyalty == 0 && (is_war_zone || (71 <= zone <= 73) || (105
            <= zone <= 115))),
{
    regene_type == 1 && loyalty == 0 && (is_war_zone || (71 <= zone && zone <= 73) || (105 <= zone
        && zone <= 115))
}

/// Whether a player's bind point is used: a bind zone and coordinates must be
/// set, and Delos never uses it.
pub fn can_use_bind_point(bind_zone: u16, has_bind_coords: bool, current_zone: u16) -> (b: bool)
    ensures
        b == (bind_zone > 0 && has_bind_coords && current_zone != ZONE_DELOS),
{
    bind_zone > 0 && has_bind_coords && current_zone != ZONE_DELOS
}

/// Abnormal type broadcast when a blink is cleared in `zone`.
pub fn blink_clear_abnormal_type(zone: u16) -> (t: u32)
    ensures
        t == (if zone == ZONE_CHAOS_DUNGEON || zone == ZONE_DUNGEON_DEFENCE {
            ABNORMAL_CHAOS_NORMAL
        } else {
            ABNORMAL_NORMAL
        }),
{
    if zone == ZONE_CHAOS_DUNGEON || zone == ZONE_DUNGEON_DEFENCE {
        ABNORMAL_CHAOS_NORMAL
    } else {
        ABNORMAL_NORMAL
    }
}

/// What a blink request does.
#[derive(Debug, Clone, Copy, PartialEq, Eq, Structural)]
pub enum BlinkAction {
    /// Nothing happens.
    Nothing,
    /// The running blink ends and this abnormal type is broadcast.
    Clear(u32),
    /// A blink starts, ending at this UNIX time; skills are disabled.
    Start(u64),
}

/// The blink after a respawn or zone change: GMs and transformed players never
/// blink; in war zones and zones without blink an active blink is cleared;
/// elsewhere a blink of `duration_secs` starts at `now`.
pub open spec fn spec_blink_action(
    is_gm: bool,
    is_transformed: bool,
    is_war_zone: bool,
    zone_has_blink: bool,
    was_blinking: bool,
    zone: u16,
    now: u64,
    duration_secs: u64,
) -> BlinkAction {
    if is_gm || is_transformed {
        BlinkAction::Nothing
    } else if is_war_zone || !zone_has_blink {
        if was_blinking {
            BlinkAction::Clear(
                if zone == ZONE_CHAOS_DUNGEON || zone == ZONE_DUNGEON_DEFENCE {
                    ABNORMAL_CHAOS_NORMAL
                } else {
                    ABNORMAL_NORMAL
                },
            )
        } else {
            BlinkAction::Nothing
        }
    } else {
        BlinkAction::Start((now + duration_secs) as u64)
    }
}

pub fn blink_action(
    is_gm: bool,
    is_transformed: bool,
    is_war_zone: bool,
    zone_has_blink: bool,
    was_blinking: bool,
    zone: u16,
    now: u64,
    duration_secs: u64,
) -> (a: BlinkAction)
    requires
        now + duration_secs <= u64::MAX,
    ensures
        a == spec_blink_action(is_gm, is_transformed, is_war_zone, zone_has_blink, was_blinking, zone, now, duration_secs),
{
    if is_gm || is_transformed {
        return BlinkAction::Nothing;
    }
    if is_war_zone || !zone_has_blink {
        if was_blinking {
            return BlinkAction::Clear(blink_clear_abnormal_type(zone));
        }
        return BlinkAction::Nothing;
    }
    BlinkAction::Start(now + duration_secs)
}

/// A blink that ends at `expiry` still runs at `now`.
pub open spec fn blink_running(now: u64, expiry: u64) -> bool {
    now < expiry
}

/// What the world knows of a player when a blink is asked for: whether the
/// player is a GM or transformed, the zone's kind, and when the current
/// blink ends (a time already past when none runs).
#[derive(Debug, Clone, Copy, PartialEq, Eq, Structural)]
pub struct BlinkSubject {
    pub is_gm: bool,
    pub is_transformed: bool,
    pub is_war_zone: bool,
    pub zone_has_blink: bool,
    pub blink_expiry: u64,
}

/// Starts or clears a blink of `duration_secs` at the time of the call. The
/// clock may read anything; whatever it read, the action is the one
/// `spec_blink_action` gives for that time, a blink counting as running
/// while the time is before its end. A clock so late that the end would
/// pass `u64::MAX` is read as the last time at which it does not.
pub fn activate_blink_with_duration(p: &BlinkSubject, zone_id: u16, duration_secs: u64) -> (a: BlinkAction)
    ensures
        exists|now: u64|
            now + duration_secs <= u64::MAX && a == #[trigger] spec_blink_action(
                p.is_gm,
                p.is_transformed,
                p.is_war_zone,
                p.zone_has_blink,
                blink_running(now, p.blink_expiry),
                zone_id,
                now,
                duration_secs,
            ),
{
    let read = unix_now();
    let now = if read > u64::MAX - duration_secs { u64::MAX - duration_secs } else { read };
    let a = blink_action(
        p.is_gm,
        p.is_transformed,
        p.is_war_zone,
        p.zone_has_blink,
        is_blinking(now, p.blink_expiry),
        zone_id,
        now,
        duration_secs,
    );
    assert(a == spec_blink_action(
        p.is_gm,
        p.is_transformed,
        p.is_war_zone,
        p.zone_has_blink,
        blink_running(now, p.blink_expiry),
        zone_id,
        now,
        duration_secs,
    ));
    a
}

/// A blink of the usual length, `BLINK_TIME` seconds.
pub fn activate_blink(p: &BlinkSubject, zone_id: u16) -> (a: BlinkAction)
    ensures
        exists|now: u64|
            now + BLINK_TIME <= u64::MAX && a == #[trigger] spec_blink_action(
                p.is_gm,
                p.is_transformed,
                p.is_war_zone,
                p.zone_has_blink,
                blink_running(now, p.blink_expiry),
                zone_id,
                now,
                BLINK_TIME,
            ),
{
    activate_blink_with_duration(p, zone_id, BLINK_TIME)
}

/// Whether a blink that ends at `expiry` is still running at `now`.
pub fn is_blinking(now: u64, expiry: u64) -> (b: bool)
    ensures
        b == (now < expiry),
{
    now < expiry
}

/// Whether skills come back after a blink for a transformed player.
pub fn should_reenable_skills(is_blinking: bool, is_transformed: bool, can_use_skills: bool) -> (b: bool)
    ensures
        b == (!is_blinking && is_transformed && !can_use_skills),
{
    !is_blinking && is_transformed && !can_use_skills
}

/// Bytes of a state change broadcast: `[u32 id][u8 type][u32 buff]`.
pub fn build_state_change_broadcast(sid: u32, b_type: u8, n_buff: u32) -> (pkt: Packet)
    ensures
        pkt.opcode == WIZ_STATE_CHANGE,
        pkt.data@ == u32_le(sid) + u8_le(b_type) + u32_le(n_buff),
{
    let mut pkt = Packet::new(WIZ_STATE_CHANGE);
    pkt.write_u32(sid);
    pkt.write_u8(b_type);
    pkt.write_u32(n_buff);
    pkt
}

/// Bytes of the stealth reset sent on respawn: `[u8 0][u16 0]`.
pub fn build_initialize_stealth_packet() -> (pkt: Packet)
    ensures
        pkt.opcode == WIZ_STEALTH,
        pkt.data@ == u8_le(0) + u16_le(0),
{
    let mut pkt = Packet::new(WIZ_STEALTH);
    pkt.write_u8(0);
    pkt.write_u16(0);
    pkt
}

/// Bytes of the respawn answer: `[u16 x*10][u16 z*10][u16 0][u8 1]`, the
/// coordinates given already scaled.
pub fn build_regene_packet(scaled_x: u16, scaled_z: u16) -> (pkt: Packet)
    ensures
        pkt.opcode == WIZ_REGENE,
        pkt.data@ == u16_le(scaled_x) + u16_le(scaled_z) + u16_le(0) + u8_le(1),
{
    let mut pkt = Packet::new(WIZ_REGENE);
    pkt.write_u16(scaled_x);
    pkt.write_u16(scaled_z);
    pkt.write_u16(0);
    pkt.write_u8(1);
    pkt
}

/// Nation-specific start coordinates of a zone.
#[derive(Debug, Clone, Copy)]
pub struct StartPosition {
    pub karus_x: i16,
    pub karus_z: i16,
    pub elmorad_x: i16,
    pub elmorad_z: i16,
    pub range_x: u16,
    pub range_z: u16,
}

/// Nation home coordinates.
#[derive(Debug, Clone, Copy)]
pub struct HomePosition {
    pub karus_zone_x: i16,
    pub karus_zone_z: i16,
    pub elmo_zone_x: i16,
    pub elmo_zone_z: i16,
}

/// Bridge state of the first Juraid Mountain room with an event running.
#[derive(Debug, Clone, Copy)]
pub struct JuraidBridges {
    pub karus_bridges: [bool; 2],
    pub elmorad_bridges: [bool; 2],
}

/// What the respawn choice reads about the player and the world.
#[derive(Debug, Clone, Copy)]
pub struct RespawnContext {
    pub nation: u8,
    pub bind_zone: u16,
    /// Whether the bind coordinates are not both zero.
    pub has_bind_coords: bool,
    /// The zone of the running nation battle (`60 + id`), 0 when none.
    pub battle_zone_id: u16,
    /// Start position row of the current zone.
    pub start_position: Option<StartPosition>,
    /// Whether the current zone has random spawn points.
    pub has_random_start: bool,
    /// Bridge state when a Juraid Mountain room is running.
    pub juraid_bridges: Option<JuraidBridges>,
    /// Whether the current zone's initial position is not both zero.
    pub zone_init_nonzero: bool,
    /// Home coordinates of the player's nation.
    pub home: Option<HomePosition>,
}

/// Where a player respawns.
#[derive(Debug, Clone, Copy, PartialEq, Eq, Structural)]
pub enum RespawnTarget {
    /// At the bind point.
    BindPoint,
    /// At a fixed point of a zone.
    Point { zone: u16, x: i32, z: i32 },
    /// At one of the zone's random spawn points.
    RandomStart,
    /// At the zone's initial position.
    ZoneInit,
}

/// The nation's coordinates of a start position row.
pub open spec fn nation_base(sp: StartPosition, nation: u8) -> (i32, i32) {
    if nation == 1 {
        (sp.karus_x as i32, sp.karus_z as i32)
    } else {
        (sp.elmorad_x as i32, sp.elmorad_z as i32)
    }
}

/// Juraid Mountain stage: 2 when a second bridge is open, 1 when a first one
/// is, 0 (Deva) otherwise.
pub open spec fn spec_juraid_stage(b: JuraidBridges) -> u8 {
    if b.karus_bridges[1] || b.elmorad_bridges[1] {
        2
    } else if b.karus_bridges[0] || b.elmorad_bridges[0] {
        1
    } else {
        0
    }
}

/// Base coordinates of each Juraid stage and nation.
pub open spec fn spec_juraid_base(stage: u8, nation: u8) -> (i32, i32) {
    if stage == 0 {
        if nation == 1 { (511, 738) } else { (511, 281) }
    } else if stage == 1 {
        if nation == 1 { (224, 671) } else { (800, 349) }
    } else {
        if nation == 1 { (336, 848) } else { (695, 171) }
    }
}

/// Juraid Mountain stage of a bridge state.
pub fn juraid_stage(b: &JuraidBridges) -> (s: u8)
    ensures
        s == spec_juraid_stage(*b),
{
    if b.karus_bridges[1] || b.elmorad_bridges[1] {
        2
    } else if b.karus_bridges[0] || b.elmorad_bridges[0] {
        1
    } else {
        0
    }
}

/// A uniformly drawn integer in `0..=max`, from `rand::thread_rng()` and
/// `Rng::gen_range`. The value depends on the generator; only the range is claimed.
#[verifier::external_body]
fn random_up_to(max: u16) -> (r: u16)
    ensures
        r <= max,
{
    rand::Rng::gen_range(&mut rand::thread_rng(), 0..=max)
}

/// The respawn point of a dead player in `current_zone` for given random
/// draws, in order: the bind point (not in Delos); in a home zone (Karus or
/// El Morad) or the running battle zone (not Snow Battle), the nation start
/// point plus the draws `dx`, `dz` on the axes whose range is not zero; the
/// zone's random spawn points; in Juraid Mountain with a room running, the
/// stage's point plus `jx`, `jz`; the nation start point when not both zero;
/// the zone's initial position when not both zero; the nation home when not
/// both zero (zone = nation); Moradon.
pub open spec fn spec_respawn(ctx: RespawnContext, current_zone: u16, dx: u16, dz: u16, jx: u16, jz: u16) -> RespawnTarget {
    if can_use_bind_point_spec(ctx, current_zone) {
        RespawnTarget::BindPoint
    } else if is_home_or_battle(ctx, current_zone) && ctx.start_position is Some {
        let sp = ctx.start_position->Some_0;
        let (bx, bz) = nation_base(sp, ctx.nation);
        RespawnTarget::Point {
            zone: current_zone,
            x: (bx + if sp.range_x > 0 { dx as i32 } else { 0i32 }) as i32,
            z: (bz + if sp.range_z > 0 { dz as i32 } else { 0i32 }) as i32,
        }
    } else if ctx.has_random_start {
        RespawnTarget::RandomStart
    } else if current_zone == ZONE_JURAID_MOUNTAIN && ctx.juraid_bridges is Some {
        let (bx, bz) = spec_juraid_base(spec_juraid_stage(ctx.juraid_bridges->Some_0), ctx.nation);
        RespawnTarget::Point { zone: current_zone, x: (bx + jx) as i32, z: (bz + jz) as i32 }
    } else if ctx.start_position is Some && nation_base(ctx.start_position->Some_0, ctx.nation) != (0i32, 0i32) {
        let (bx, bz) = nation_base(ctx.start_position->Some_0, ctx.nation);
        RespawnTarget::Point { zone: current_zone, x: bx, z: bz }
    } else if ctx.zone_init_nonzero {
        RespawnTarget::ZoneInit
    } else if ctx.home is Some && home_base(ctx.home->Some_0, ctx.nation) != (0i32, 0i32) {
        let (hx, hz) = home_base(ctx.home->Some_0, ctx.nation);
        RespawnTarget::Point { zone: ctx.nation as u16, x: hx, z: hz }
    } else {
        RespawnTarget::Point { zone: ZONE_MORADON, x: MORADON_RESPAWN_X, z: MORADON_RESPAWN_Z }
    }
}

/// The respawn point for given random draws, as `spec_respawn` states.
pub fn respawn_location(ctx: &RespawnContext, current_zone: u16, dx: u16, dz: u16, jx: u16, jz: u16) -> (t: RespawnTarget)
    ensures
        t == spec_respawn(*ctx, current_zone, dx, dz, jx, jz),
{
    if can_use_bind_point(ctx.bind_zone, ctx.has_bind_coords, current_zone) {
        return RespawnTarget::BindPoint;
    }
    let is_home_zone = current_zone <= ZONE_ELMORAD;
    let is_battle_zone = current_zone != ZONE_SNOW_BATTLE && ctx.battle_zone_id > 0
        && ctx.battle_zone_id <= u16::MAX - ZONE_BATTLE_BASE && current_zone == ZONE_BATTLE_BASE
        + ctx.battle_zone_id;
    if is_home_zone || is_battle_zone {
        if let Some(sp) = ctx.start_position {
            let (base_x, base_z): (i32, i32) = if ctx.nation == 1 {
                (sp.karus_x as i32, sp.karus_z as i32)
            } else {
                (sp.elmorad_x as i32, sp.elmorad_z as i32)
            };
            let offset_x: i32 = if sp.range_x > 0 { dx as i32 } else { 0 };
            let offset_z: i32 = if sp.range_z > 0 { dz as i32 } else { 0 };
            return RespawnTarget::Point { zone: current_zone, x: base_x + offset_x, z: base_z + offset_z };
        }
    }
    if ctx.has_random_start {
        return RespawnTarget::RandomStart;
    }
    if current_zone == ZONE_JURAID_MOUNTAIN {
        if let Some(b) = ctx.juraid_bridges {
            let stage = juraid_stage(&b);
            let (x, z): (i32, i32) = match (stage, ctx.nation) {
                (0, 1) => (511, 738),
                (0, _) => (511, 281),
                (1, 1) => (224, 671),
                (1, _) => (800, 349),
                (_, 1) => (336, 848),
                (_, _) => (695, 171),
            };
            return RespawnTarget::Point { zone: current_zone, x: x + jx as i32, z: z + jz as i32 };
        }
    }
    if let Some(sp) = ctx.start_position {
        let (base_x, base_z): (i32, i32) = if ctx.nation == 1 {
            (sp.karus_x as i32, sp.karus_z as i32)
        } else {
            (sp.elmorad_x as i32, sp.elmorad_z as i32)
        };
        if base_x != 0 || base_z != 0 {
            return RespawnTarget::Point { zone: current_zone, x: base_x, z: base_z };
        }
    }
    if ctx.zone_init_nonzero {
        return RespawnTarget::ZoneInit;
    }
    if let Some(home) = ctx.home {
        let (x, z): (i32, i32) = if ctx.nation == 1 {
            (home.karus_zone_x as i32, home.karus_zone_z as i32)
        } else {
            (home.elmo_zone_x as i32, home.elmo_zone_z as i32)
        };
        if x != 0 || z != 0 {
            return RespawnTarget::Point { zone: ctx.nation as u16, x, z };
        }
    }
    RespawnTarget::Point { zone: ZONE_MORADON, x: MORADON_RESPAWN_X, z: MORADON_RESPAWN_Z }
}

/// The largest start-point draw on each axis: the row's ranges, none
/// without a row.
pub open spec fn start_draw_bounds(ctx: RespawnContext) -> (u16, u16) {
    match ctx.start_position {
        Some(sp) => (sp.range_x, sp.range_z),
        None => (0u16, 0u16),
    }
}

/// Chooses the respawn point of a dead player in `current_zone`: the point
/// `spec_respawn` gives for random draws within the start row's ranges and
/// within 0..=3 for Juraid Mountain. The draws come from the thread's
/// random generator; whatever they are, the point is the one for them.
pub fn determine_respawn_location(ctx: &RespawnContext, current_zone: u16) -> (t: RespawnTarget)
    ensures
        exists|dx: u16, dz: u16, jx: u16, jz: u16|
            dx <= start_draw_bounds(*ctx).0 && dz <= start_draw_bounds(*ctx).1 && jx <= 3 && jz <= 3 && t
                == #[trigger] spec_respawn(*ctx, current_zone, dx, dz, jx, jz),
{
    let (rx, rz): (u16, u16) = match ctx.start_position {
        Some(sp) => (random_up_to(sp.range_x), random_up_to(sp.range_z)),
        None => (0, 0),
    };
    let jx = random_up_to(3);
    let jz = random_up_to(3);
    let t = respawn_location(ctx, current_zone, rx, rz, jx, jz);
    assert(t == spec_respawn(*ctx, current_zone, rx, rz, jx, jz));
    t
}

/// Whether the bind point is used for this context.
pub open spec fn can_use_bind_point_spec(ctx: RespawnContext, current_zone: u16) -> bool {
    ctx.bind_zone > 0 && ctx.has_bind_coords && current_zone != ZONE_DELOS
}

/// Whether the zone is a home zone or the running battle zone.
pub open spec fn is_home_or_battle(ctx: RespawnContext, current_zone: u16) -> bool {
    current_zone <= ZONE_ELMORAD || (current_zone != ZONE_SNOW_BATTLE && ctx.battle_zone_id > 0
        && current_zone == ZONE_BATTLE_BASE + ctx.battle_zone_id)
}

/// The nation's home coordinates.
pub open spec fn home_base(h: HomePosition, nation: u8) -> (i32, i32) {
    if nation == 1 {
        (h.karus_zone_x as i32, h.karus_zone_z as i32)
    } else {
        (h.elmo_zone_x as i32, h.elmo_zone_z as i32)
    }
}

pub const WIZ_ZONEABILITY: u8 = 0x5E;
pub const WIZ_PARTY: u8 = 0x2F;
/// Party sub-opcode telling members of a status change.
pub const PARTY_STATUSCHANGE: u8 = 0x09;

/// The player's status icon update: `[u8 2][u8 status type][u8 behaviour]`
/// (behaviour 0 cures, 1 applies).
pub fn build_user_status_update_packet(status_type: u8, behaviour: u8) -> (pkt: Packet)
    ensures
        pkt.opcode == WIZ_ZONEABILITY,
        pkt.data@ == u8_le(2) + u8_le(status_type) + u8_le(behaviour),
{
    let mut pkt = Packet::new(WIZ_ZONEABILITY);
    pkt.write_u8(2);
    pkt.write_u8(status_type);
    pkt.write_u8(behaviour);
    pkt
}

/// The same change told to the player's party:
/// `[u8 9][u32 session][u8 status type][u8 behaviour]`.
pub fn build_party_status_change_packet(sid: u32, status_type: u8, behaviour: u8) -> (pkt: Packet)
    ensures
        pkt.opcode == WIZ_PARTY,
        pkt.data@ == u8_le(PARTY_STATUSCHANGE) + u32_le(sid) + u8_le(status_type) + u8_le(behaviour),
{
    let mut pkt = Packet::new(WIZ_PARTY);
    pkt.write_u8(PARTY_STATUSCHANGE);
    pkt.write_u32(sid);
    pkt.write_u8(status_type);
    pkt.write_u8(behaviour);
    pkt
}

/// A status update: the player is always told; the party, when the player
/// is in one.
pub fn user_status_update(sid: u32, in_party: bool, status_type: u8, behaviour: u8) -> (r: (Packet, Option<Packet>))
    ensures
        r.0.opcode == WIZ_ZONEABILITY,
        r.0.data@ == u8_le(2) + u8_le(status_type) + u8_le(behaviour),
        in_party <==> r.1 is Some,
        in_party ==> r.1->0.opcode == WIZ_PARTY && r.1->0.data@ == u8_le(PARTY_STATUSCHANGE) + u32_le(sid) + u8_le(
            status_type,
        ) + u8_le(behaviour),
{
    let mine = build_user_status_update_packet(status_type, behaviour);
    let party = if in_party {
        Some(build_party_status_change_packet(sid, status_type, behaviour))
    } else {
        None
    };
    (mine, party)
}


/// A player's blink state: when the current blink ends (a time already past
/// when none runs) and whether skills may be used.
#[derive(Debug, Clone, Copy, PartialEq, Eq, Structural)]
pub struct BlinkState {
    pub blink_expiry: u64,
    pub can_use_skills: bool,
}

/// The state after a blink action: a started blink ends at its expiry with
/// skills disabled; a cleared blink leaves no expiry and gives skills back;
/// nothing changes otherwise.
pub open spec fn state_after_blink(st: BlinkState, action: BlinkAction) -> BlinkState {
    match action {
        BlinkAction::Nothing => st,
        BlinkAction::Clear(_) => BlinkState { blink_expiry: 0, can_use_skills: true },
        BlinkAction::Start(expiry) => BlinkState { blink_expiry: expiry, can_use_skills: false },
    }
}

/// Applies a blink action to player `sid`'s state and gives the state change
/// to broadcast to the player's 3x3 region: `[u32 sid][u8 3][u32 abnormal]`,
/// with the blinking type for a started blink and the given type for a
/// cleared one; nothing is broadcast when nothing happens.
pub fn apply_blink_action(st: &mut BlinkState, sid: u16, action: BlinkAction) -> (r: Option<Packet>)
    ensures
        *final(st) == state_after_blink(*old(st), action),
        action is Nothing <==> r is None,
        r matches Some(pkt) ==> pkt.opcode == WIZ_STATE_CHANGE && pkt.data@ == u32_le(sid as u32) + u8_le(
            STATE_CHANGE_ABNORMAL,
        ) + u32_le(
            match action {
                BlinkAction::Clear(t) => t,
                _ => ABNORMAL_BLINKING,
            },
        ),
{
    match action {
        BlinkAction::Nothing => None,
        BlinkAction::Clear(t) => {
            *st = BlinkState { blink_expiry: 0, can_use_skills: true };
            Some(build_state_change_broadcast(sid as u32, STATE_CHANGE_ABNORMAL, t))
        },
        BlinkAction::Start(expiry) => {
            *st = BlinkState { blink_expiry: expiry, can_use_skills: false };
            Some(build_state_change_broadcast(sid as u32, STATE_CHANGE_ABNORMAL, ABNORMAL_BLINKING))
        },
    }
}

/// The whole blink request for player `sid` with blink state `st`, at UNIX
/// time `now`: the action `spec_blink_action` gives, applied to the state,
/// and the state change to broadcast.
pub fn blink_at(p: &BlinkSubject, st: &mut BlinkState, sid: u16, zone_id: u16, now: u64, duration_secs: u64) -> (r: (
    BlinkAction,
    Option<Packet>,
))
    requires
        now + duration_secs <= u64::MAX,
    ensures
        r.0 == spec_blink_action(
            p.is_gm,
            p.is_transformed,
            p.is_war_zone,
            p.zone_has_blink,
            blink_running(now, p.blink_expiry),
            zone_id,
            now,
            duration_secs,
        ),
        *final(st) == state_after_blink(*old(st), r.0),
        r.0 is Nothing <==> r.1 is None,
        r.1 matches Some(pkt) ==> pkt.opcode == WIZ_STATE_CHANGE && pkt.data@ == u32_le(sid as u32) + u8_le(
            STATE_CHANGE_ABNORMAL,
        ) + u32_le(
            match r.0 {
                BlinkAction::Clear(t) => t,
                _ => ABNORMAL_BLINKING,
            },
        ),
{
    let a = blink_action(
        p.is_gm,
        p.is_transformed,
        p.is_war_zone,
        p.zone_has_blink,
        is_blinking(now, p.blink_expiry),
        zone_id,
        now,
        duration_secs,
    );
    let pkt = apply_blink_action(st, sid, a);
    (a, pkt)
}


/// The Juraid stage follows the bridges of both nations alike: any open
/// second bridge makes it 2; otherwise any open first bridge makes it 1;
/// with every bridge closed it is 0; and swapping the two nations' bridges
/// never changes it.
pub proof fn lemma_juraid_stage_from_bridges(b: JuraidBridges)
    ensures
        b.karus_bridges[1] || b.elmorad_bridges[1] ==> spec_juraid_stage(b) == 2,
        !b.karus_bridges[1] && !b.elmorad_bridges[1] && (b.karus_bridges[0] || b.elmorad_bridges[0])
            ==> spec_juraid_stage(b) == 1,
        !b.karus_bridges[0] && !b.karus_bridges[1] && !b.elmorad_bridges[0] && !b.elmorad_bridges[1]
            ==> spec_juraid_stage(b) == 0,
        spec_juraid_stage(b) == spec_juraid_stage(
            JuraidBridges { karus_bridges: b.elmorad_bridges, elmorad_bridges: b.karus_bridges },
        ),
{
}

/// A player who dies in Juraid Mountain with a room running, with no bind
/// point, no random spawn points and no battle there, comes back in Juraid
/// at the point of the furthest bridge either nation has opened: the last
/// stage (Karus 336,848; El Morad 695,171) once a second bridge is open,
/// else the first bridge stage (224,671; 800,349) once a first bridge is
/// open, else the Deva stage (511,738; 511,281), plus the draws.
pub proof fn lemma_juraid_respawn_point(ctx: RespawnContext, dx: u16, dz: u16, jx: u16, jz: u16)
    requires
        ctx.bind_zone == 0,
        !ctx.has_random_start,
        ctx.battle_zone_id + 60 != 87,
        ctx.juraid_bridges is Some,
    ensures
        ({
            let b = ctx.juraid_bridges->Some_0;
            let karus = ctx.nation == 1;
            let (x, z) = if b.karus_bridges[1] || b.elmorad_bridges[1] {
                if karus { (336int, 848int) } else { (695int, 171int) }
            } else if b.karus_bridges[0] || b.elmorad_bridges[0] {
                if karus { (224int, 671int) } else { (800int, 349int) }
            } else {
                if karus { (511int, 738int) } else { (511int, 281int) }
            };
            spec_respawn(ctx, 87, dx, dz, jx, jz) == RespawnTarget::Point { zone: 87, x: (x + jx) as i32, z: (z + jz) as i32 }
        }),
{
}

} // verus!
