use ko_game::regene::{apply_blink_action, blink_at, BlinkState};
use ko_game::regene::respawn_location;
use ko_game::regene::{activate_blink, activate_blink_with_duration, BlinkSubject};
use ko_game::packet::PacketReader;
use ko_game::regene::{
    blink_action, blink_clear_abnormal_type, build_initialize_stealth_packet, build_regene_packet,
    build_state_change_broadcast, can_use_bind_point, determine_respawn_location, is_blinking,
    loyalty_zero_kick, normalize_regene_type, recasts_saved_magic, restores_mana_on_respawn,
    resurrection_stone_cost, should_reenable_skills, BlinkAction, HomePosition, JuraidBridges,
    RespawnContext, RespawnTarget, StartPosition, ABNORMAL_BLINKING, ABNORMAL_CHAOS_NORMAL,
    ABNORMAL_NORMAL, BLINK_TIME, ITEM_RESURRECTION_STONE, MIN_LEVEL_FOR_STONES,
    STATE_CHANGE_ABNORMAL, USER_STATUS_CURE, USER_STATUS_DOT, USER_STATUS_POISON,
    USER_STATUS_SPEED, WIZ_STATE_CHANGE, ZONE_ARENA, ZONE_BATTLE_BASE, ZONE_CHAOS_DUNGEON,
    ZONE_DELOS, ZONE_DUNGEON_DEFENCE, ZONE_ELMORAD, ZONE_JURAID_MOUNTAIN, ZONE_SNOW_BATTLE,
    ZONE_UNDER_CASTLE,
};

fn empty_ctx(nation: u8) -> RespawnContext {
    RespawnContext {
        nation,
        bind_zone: 0,
        has_bind_coords: false,
        battle_zone_id: 0,
        start_position: None,
        has_random_start: false,
        juraid_bridges: None,
        zone_init_nonzero: false,
        home: None,
    }
}

#[test]
fn test_respawn_hp_calculation() {
    let max_hp: i16 = 1000;
    let restored_hp = max_hp;
    assert_eq!(restored_hp, 1000);
}

#[test]
fn test_respawn_position_bind_point() {
    let bind_zone: u8 = 11;
    let bind_x: f32 = 200.0;
    let bind_z: f32 = 300.0;
    let mut ctx = empty_ctx(1);
    ctx.bind_zone = bind_zone as u16;
    ctx.has_bind_coords = bind_x != 0.0 || bind_z != 0.0;
    assert_eq!(determine_respawn_location(&ctx, 21), RespawnTarget::BindPoint);
    let (zone, x, z) = (bind_zone as u16, bind_x, bind_z);
    assert_eq!(zone, 11);
    assert_eq!(x, 200.0);
    assert_eq!(z, 300.0);
}

#[test]
fn test_respawn_position_fallback_moradon() {
    let ctx = empty_ctx(1);
    assert!(!can_use_bind_point(ctx.bind_zone, ctx.has_bind_coords, 999));
    assert_eq!(
        determine_respawn_location(&ctx, 999),
        RespawnTarget::Point { zone: 21, x: 512, z: 341 }
    );
}

#[test]
fn test_respawn_position_coords_scaled() {
    let x = 512.5_f32;
    let z = 341.3_f32;
    let sx = (x * 10.0) as u16;
    let sz = (z * 10.0) as u16;
    assert_eq!(sx, 5125);
    assert_eq!(sz, 3413);
    let pkt = build_regene_packet(sx, sz);
    let mut r = PacketReader::new(&pkt.data);
    assert_eq!(r.read_u16(), Some(5125));
    assert_eq!(r.read_u16(), Some(3413));
    assert_eq!(r.read_u16(), Some(0));
    assert_eq!(r.read_u8(), Some(1));
    assert_eq!(r.remaining(), 0);
}

#[test]
fn test_regene_type_normalization() {
    for invalid in [0_u8, 3, 4, 5, 255] {
        assert_eq!(normalize_regene_type(invalid), 1);
    }
    assert_eq!(normalize_regene_type(1), 1);
    assert_eq!(normalize_regene_type(2), 2);
}

#[test]
fn test_resurrection_stone_constants() {
    assert_eq!(ITEM_RESURRECTION_STONE, 379006000);
    assert_eq!(MIN_LEVEL_FOR_STONES, 5);
}

#[test]
fn test_resurrection_stone_cost_calculation() {
    assert_eq!(resurrection_stone_cost(10), Some(30));
    assert_eq!(resurrection_stone_cost(60), Some(180));
    assert_eq!(resurrection_stone_cost(83), Some(249));
}

#[test]
fn test_resurrection_stone_level_check() {
    for level in 0..=5u8 {
        assert!(level <= MIN_LEVEL_FOR_STONES);
        assert_eq!(resurrection_stone_cost(level), None);
    }
    for level in 6..=83u8 {
        assert!(level > MIN_LEVEL_FOR_STONES);
        assert!(resurrection_stone_cost(level).is_some());
    }
}

#[test]
fn test_blink_time_constant() {
    assert_eq!(BLINK_TIME, 10);
}

#[test]
fn test_abnormal_constants() {
    assert_eq!(ABNORMAL_NORMAL, 1);
    assert_eq!(ABNORMAL_BLINKING, 4);
}

#[test]
fn test_build_state_change_broadcast_blinking() {
    let pkt = build_state_change_broadcast(42, STATE_CHANGE_ABNORMAL, ABNORMAL_BLINKING);
    assert_eq!(pkt.opcode, WIZ_STATE_CHANGE);
    let mut r = PacketReader::new(&pkt.data);
    assert_eq!(r.read_u32(), Some(42));
    assert_eq!(r.read_u8(), Some(3));
    assert_eq!(r.read_u32(), Some(4));
    assert_eq!(r.remaining(), 0);
}

#[test]
fn test_build_state_change_broadcast_normal() {
    let pkt = build_state_change_broadcast(100, STATE_CHANGE_ABNORMAL, ABNORMAL_NORMAL);
    let mut r = PacketReader::new(&pkt.data);
    assert_eq!(r.read_u32(), Some(100));
    assert_eq!(r.read_u8(), Some(3));
    assert_eq!(r.read_u32(), Some(1));
    assert_eq!(r.remaining(), 0);
}

#[test]
fn test_initialize_stealth_packet_format() {
    let pkt = build_initialize_stealth_packet();
    assert_eq!(pkt.data.len(), 3);
    let mut r = PacketReader::new(&pkt.data);
    assert_eq!(r.read_u8(), Some(0));
    assert_eq!(r.read_u16(), Some(0));
    assert_eq!(r.remaining(), 0);
}

#[test]
fn test_user_status_constants() {
    assert_eq!(USER_STATUS_DOT, 1);
    assert_eq!(USER_STATUS_POISON, 2);
    assert_eq!(USER_STATUS_CURE, 0);
}

#[test]
fn test_state_change_broadcast_size() {
    let pkt = build_state_change_broadcast(1, STATE_CHANGE_ABNORMAL, 4);
    assert_eq!(pkt.data.len(), 9);
}

#[test]
fn test_blink_expiry_calculation() {
    let now: u64 = 1700000000;
    let expiry = match blink_action(false, false, false, true, false, 21, now, BLINK_TIME) {
        BlinkAction::Start(e) => e,
        other => panic!("unexpected {:?}", other),
    };
    assert_eq!(expiry, 1700000010);
    assert!(now < expiry);
    assert!(is_blinking(now, expiry));
    assert!(!is_blinking(expiry, expiry));
}

#[test]
fn test_blink_time_check_logic() {
    let now: u64 = 1700000015;
    let expiry: u64 = 1700000010;
    assert!(!is_blinking(now, expiry), "Blink should be expired");
    let still_active_expiry: u64 = 1700000020;
    assert!(is_blinking(now, still_active_expiry), "Blink should still be active");
}

#[test]
fn test_state_change_type_abnormal() {
    assert_eq!(STATE_CHANGE_ABNORMAL, 3);
}

#[test]
fn test_abnormal_chaos_normal_constant() {
    assert_eq!(ABNORMAL_CHAOS_NORMAL, 7);
}

#[test]
fn test_zone_constants() {
    assert_eq!(ZONE_CHAOS_DUNGEON, 85);
    assert_eq!(ZONE_DUNGEON_DEFENCE, 89);
    assert_eq!(ZONE_ARENA, 48);
    assert_eq!(ZONE_UNDER_CASTLE, 86);
}

#[test]
fn test_user_status_speed_constant() {
    assert_eq!(USER_STATUS_SPEED, 3);
}

#[test]
fn test_chaos_zone_blink_clear_uses_chaos_normal() {
    assert_eq!(blink_clear_abnormal_type(ZONE_CHAOS_DUNGEON), ABNORMAL_CHAOS_NORMAL);
    assert_eq!(
        blink_action(false, false, true, true, true, ZONE_DUNGEON_DEFENCE, 0, BLINK_TIME),
        BlinkAction::Clear(ABNORMAL_CHAOS_NORMAL)
    );
}

#[test]
fn test_normal_zone_blink_clear_uses_normal() {
    let zone_id: u16 = 21;
    assert_eq!(blink_clear_abnormal_type(zone_id), ABNORMAL_NORMAL);
    assert_eq!(
        blink_action(false, false, false, false, true, zone_id, 0, BLINK_TIME),
        BlinkAction::Clear(ABNORMAL_NORMAL)
    );
}

#[test]
fn test_blink_skip_when_transformed() {
    let is_transformed = true;
    let is_gm = false;
    assert_eq!(
        blink_action(is_gm, is_transformed, false, true, false, 21, 100, BLINK_TIME),
        BlinkAction::Nothing,
        "Blink should be skipped for transformed players"
    );
}

#[test]
fn test_blink_allowed_when_not_transformed() {
    let is_transformed = false;
    let is_gm = false;
    assert_eq!(
        blink_action(is_gm, is_transformed, false, true, false, 21, 100, BLINK_TIME),
        BlinkAction::Start(110),
        "Blink should proceed for non-transformed players"
    );
}

#[test]
fn test_blink_sets_can_use_skills_false() {
    let action = blink_action(false, false, false, true, false, 21, 0, BLINK_TIME);
    let can_use_skills = !matches!(action, BlinkAction::Start(_));
    assert!(!can_use_skills, "Skills should be disabled during blink");
}

#[test]
fn test_blink_clear_restores_can_use_skills() {
    let can_use_skills = !is_blinking(20, 10);
    assert!(can_use_skills, "Skills should be re-enabled after blink");
}

#[test]
fn test_post_blink_transform_skill_reenable_logic() {
    assert!(should_reenable_skills(false, true, false), "Skills should re-enable post-blink when transformed");
}

#[test]
fn test_post_blink_no_reenable_if_still_blinking() {
    assert!(!should_reenable_skills(true, true, false), "Skills should NOT re-enable while still blinking");
}

#[test]
fn test_mini_arena_respawn_constants() {
    let x: f32 = 734.0;
    let z: f32 = 427.0;
    let radius: f32 = 5.0;
    assert_eq!(ZONE_ARENA, 48);
    assert!(x - radius >= 729.0);
    assert!(x + radius <= 739.0);
    assert!(z - radius >= 422.0);
    assert!(z + radius <= 432.0);
}

#[test]
fn test_delos_blocks_bind_point() {
    assert!(!can_use_bind_point(1, true, ZONE_DELOS), "ZONE_DELOS must block bind point respawn");
}

#[test]
fn test_non_delos_allows_bind_point() {
    assert!(can_use_bind_point(1, true, 1), "Non-Delos zones should allow bind point respawn");
}

#[test]
fn test_status_types_match_cpp() {
    assert_eq!(USER_STATUS_DOT, 1);
    assert_eq!(USER_STATUS_POISON, 2);
    assert_eq!(USER_STATUS_SPEED, 3);
    let cure: u8 = USER_STATUS_CURE;
    let apply: u8 = 1;
    assert_ne!(cure, apply);
}

#[test]
fn test_respawn_arena_uses_start_position() {
    let mut ctx = empty_ctx(1);
    ctx.start_position = Some(StartPosition {
        karus_x: 120, karus_z: 115, elmorad_x: 120, elmorad_z: 115, range_x: 5, range_z: 5,
    });
    assert_eq!(
        determine_respawn_location(&ctx, ZONE_ARENA),
        RespawnTarget::Point { zone: ZONE_ARENA, x: 120, z: 115 }
    );
}

#[test]
fn test_respawn_bind_point_blocked_in_delos() {
    let mut ctx = empty_ctx(1);
    ctx.bind_zone = 11;
    ctx.has_bind_coords = true;
    assert_ne!(determine_respawn_location(&ctx, ZONE_DELOS), RespawnTarget::BindPoint);
}

#[test]
fn test_respawn_home_zone_nation_karus() {
    let mut ctx = empty_ctx(1);
    ctx.start_position = Some(StartPosition {
        karus_x: 437, karus_z: 1627, elmorad_x: 1869, elmorad_z: 172, range_x: 5, range_z: 5,
    });
    match determine_respawn_location(&ctx, 1) {
        RespawnTarget::Point { zone, x, z } => {
            assert_eq!(zone, 1);
            assert!((437..=442).contains(&x), "karus x={x}");
            assert!((1627..=1632).contains(&z), "karus z={z}");
        }
        other => panic!("unexpected {:?}", other),
    }
}

#[test]
fn test_respawn_home_zone_nation_elmorad() {
    let mut ctx = empty_ctx(2);
    ctx.start_position = Some(StartPosition {
        karus_x: 437, karus_z: 1627, elmorad_x: 1598, elmorad_z: 407, range_x: 5, range_z: 5,
    });
    match determine_respawn_location(&ctx, 2) {
        RespawnTarget::Point { zone, x, z } => {
            assert_eq!(zone, 2);
            assert!((1598..=1603).contains(&x), "elmo x={x}");
            assert!((407..=412).contains(&z), "elmo z={z}");
        }
        other => panic!("unexpected {:?}", other),
    }
}

#[test]
fn test_respawn_chaos_dungeon_random() {
    let mut ctx = empty_ctx(1);
    ctx.has_random_start = true;
    assert_eq!(determine_respawn_location(&ctx, 85), RespawnTarget::RandomStart);
}

#[test]
fn test_respawn_juraid_no_event_falls_through() {
    let mut ctx = empty_ctx(1);
    ctx.start_position = Some(StartPosition {
        karus_x: 224, karus_z: 272, elmorad_x: 800, elmorad_z: 750, range_x: 0, range_z: 0,
    });
    assert_eq!(
        determine_respawn_location(&ctx, ZONE_JURAID_MOUNTAIN),
        RespawnTarget::Point { zone: ZONE_JURAID_MOUNTAIN, x: 224, z: 272 }
    );
}

fn juraid(ctx_nation: u8, karus: [bool; 2], elmorad: [bool; 2]) -> (i32, i32) {
    let mut ctx = empty_ctx(ctx_nation);
    ctx.juraid_bridges = Some(JuraidBridges { karus_bridges: karus, elmorad_bridges: elmorad });
    match determine_respawn_location(&ctx, ZONE_JURAID_MOUNTAIN) {
        RespawnTarget::Point { zone, x, z } => {
            assert_eq!(zone, ZONE_JURAID_MOUNTAIN);
            (x, z)
        }
        other => panic!("unexpected {:?}", other),
    }
}

#[test]
fn test_respawn_juraid_deva_stage_karus() {
    let (x, z) = juraid(1, [false, false], [false, false]);
    assert!((511..=514).contains(&x), "juraid karus deva x={x}");
    assert!((738..=741).contains(&z), "juraid karus deva z={z}");
}

#[test]
fn test_respawn_juraid_deva_stage_elmorad() {
    let (x, z) = juraid(2, [false, false], [false, false]);
    assert!((511..=514).contains(&x), "juraid elmo deva x={x}");
    assert!((281..=284).contains(&z), "juraid elmo deva z={z}");
}

#[test]
fn test_respawn_juraid_bridge1_stage() {
    let (x, z) = juraid(1, [true, false], [false, false]);
    assert!((224..=227).contains(&x), "juraid bridge1 x={x}");
    assert!((671..=674).contains(&z), "juraid bridge1 z={z}");
}

#[test]
fn test_respawn_juraid_bridge2_stage() {
    let (x, z) = juraid(2, [true, false], [false, true]);
    assert!((695..=698).contains(&x), "juraid bridge2 x={x}");
    assert!((171..=174).contains(&z), "juraid bridge2 z={z}");
}

#[test]
fn test_respawn_default_nation_specific() {
    let mut ctx = empty_ctx(2);
    ctx.start_position = Some(StartPosition {
        karus_x: 76, karus_z: 729, elmorad_x: 244, elmorad_z: 945, range_x: 5, range_z: 5,
    });
    assert_eq!(
        determine_respawn_location(&ctx, 31),
        RespawnTarget::Point { zone: 31, x: 244, z: 945 }
    );
}

#[test]
fn test_respawn_home_table_and_zone_init() {
    let mut ctx = empty_ctx(2);
    ctx.zone_init_nonzero = true;
    assert_eq!(determine_respawn_location(&ctx, 31), RespawnTarget::ZoneInit);
    ctx.zone_init_nonzero = false;
    ctx.home = Some(HomePosition { karus_zone_x: 1, karus_zone_z: 2, elmo_zone_x: 3, elmo_zone_z: 4 });
    assert_eq!(determine_respawn_location(&ctx, 31), RespawnTarget::Point { zone: 2, x: 3, z: 4 });
}

#[test]
fn test_respawn_moradon_fallback() {
    let ctx = empty_ctx(1);
    assert_eq!(
        determine_respawn_location(&ctx, 999),
        RespawnTarget::Point { zone: 21, x: 512, z: 341 }
    );
}

#[test]
fn test_respawn_zone_constants() {
    assert_eq!(ZONE_ELMORAD, 2);
    assert_eq!(ZONE_DELOS, 30);
    assert_eq!(ZONE_BATTLE_BASE, 60);
    assert_eq!(ZONE_SNOW_BATTLE, 69);
    assert_eq!(ZONE_JURAID_MOUNTAIN, 87);
}

#[test]
fn test_respawn_side_rules() {
    assert!(restores_mana_on_respawn(ZONE_UNDER_CASTLE));
    assert!(!restores_mana_on_respawn(21));
    assert!(recasts_saved_magic(false, 21, 76));
    assert!(!recasts_saved_magic(true, 21, 76));
    assert!(!recasts_saved_magic(false, ZONE_CHAOS_DUNGEON, 76));
    assert!(loyalty_zero_kick(1, 0, false, 72));
    assert!(loyalty_zero_kick(1, 0, false, 110));
    assert!(!loyalty_zero_kick(2, 0, true, 72));
    assert!(!loyalty_zero_kick(1, 5, true, 72));
}

#[test]
fn activate_blink_reads_the_clock() {
    let before = std::time::SystemTime::now().duration_since(std::time::UNIX_EPOCH).unwrap().as_secs();
    let plain = BlinkSubject { is_gm: false, is_transformed: false, is_war_zone: false, zone_has_blink: true, blink_expiry: 0 };
    match activate_blink(&plain, 21) {
        BlinkAction::Start(end) => assert!(end >= before + BLINK_TIME && end <= before + BLINK_TIME + 60),
        other => panic!("expected a blink, got {:?}", other),
    }
    match activate_blink_with_duration(&plain, 21, 55) {
        BlinkAction::Start(end) => assert!(end >= before + 55),
        other => panic!("expected a blink, got {:?}", other),
    }
    let gm = BlinkSubject { is_gm: true, ..plain };
    assert_eq!(activate_blink(&gm, 21), BlinkAction::Nothing);
    let war_running = BlinkSubject { is_war_zone: true, blink_expiry: u64::MAX, ..plain };
    assert_eq!(activate_blink(&war_running, ZONE_CHAOS_DUNGEON), BlinkAction::Clear(ABNORMAL_CHAOS_NORMAL));
    let war_done = BlinkSubject { is_war_zone: true, blink_expiry: 5, ..plain };
    assert_eq!(activate_blink(&war_done, 21), BlinkAction::Nothing);
}

#[test]
fn test_regene_request_format() {
    let mut pkt = ko_game::packet::Packet::new(ko_game::regene::WIZ_REGENE);
    pkt.write_u8(1);
    assert_eq!(pkt.opcode, ko_game::regene::WIZ_REGENE);
    assert_eq!(pkt.data.len(), 1);
    let mut r = PacketReader::new(&pkt.data);
    assert_eq!(r.read_u8(), Some(1));
    assert_eq!(r.remaining(), 0);
}

#[test]
fn test_regene_response_format() {
    let x = 512.0_f32;
    let z = 341.0_f32;
    let mut pkt = ko_game::packet::Packet::new(ko_game::regene::WIZ_REGENE);
    pkt.write_u16((x * 10.0) as u16);
    pkt.write_u16((z * 10.0) as u16);
    pkt.write_u16(0);
    assert_eq!(pkt.opcode, ko_game::regene::WIZ_REGENE);
    assert_eq!(pkt.data.len(), 6);
    let mut r = PacketReader::new(&pkt.data);
    assert_eq!(r.read_u16(), Some(5120));
    assert_eq!(r.read_u16(), Some(3410));
    assert_eq!(r.read_u16(), Some(0));
    assert_eq!(r.remaining(), 0);
}

#[test]
fn test_hp_change_packet_format() {
    let max_hp: i16 = 1000;
    let current_hp: i16 = 1000;
    let mut pkt = ko_game::packet::Packet::new(0x17);
    pkt.write_i16(max_hp);
    pkt.write_i16(current_hp);
    pkt.write_u32(0xFFFF);
    assert_eq!(pkt.data.len(), 8);
    let mut r = PacketReader::new(&pkt.data);
    assert_eq!(r.read_u16(), Some(1000));
    assert_eq!(r.read_u16(), Some(1000));
    assert_eq!(r.read_u32(), Some(0xFFFF));
    assert_eq!(r.remaining(), 0);
}

#[test]
fn test_regene_type2_request_format() {
    let mut pkt = ko_game::packet::Packet::new(ko_game::regene::WIZ_REGENE);
    pkt.write_u8(2);
    assert_eq!(pkt.opcode, ko_game::regene::WIZ_REGENE);
    let mut r = PacketReader::new(&pkt.data);
    assert_eq!(r.read_u8(), Some(2));
    assert_eq!(r.remaining(), 0);
}

#[test]
fn test_user_status_update_dot_cure_format() {
    let pkt = ko_game::regene::build_user_status_update_packet(USER_STATUS_DOT, USER_STATUS_CURE);
    assert_eq!(pkt.opcode, ko_game::regene::WIZ_ZONEABILITY);
    assert_eq!(pkt.data.len(), 3);
    let mut r = PacketReader::new(&pkt.data);
    assert_eq!(r.read_u8(), Some(2));
    assert_eq!(r.read_u8(), Some(1));
    assert_eq!(r.read_u8(), Some(0));
    assert_eq!(r.remaining(), 0);
}

#[test]
fn test_user_status_update_poison_cure_format() {
    let pkt = ko_game::regene::build_user_status_update_packet(USER_STATUS_POISON, USER_STATUS_CURE);
    assert_eq!(pkt.opcode, ko_game::regene::WIZ_ZONEABILITY);
    let mut r = PacketReader::new(&pkt.data);
    assert_eq!(r.read_u8(), Some(2));
    assert_eq!(r.read_u8(), Some(2));
    assert_eq!(r.read_u8(), Some(0));
    assert_eq!(r.remaining(), 0);
}

#[test]
fn test_arena_speed_cure_packet_format() {
    let pkt = ko_game::regene::build_user_status_update_packet(USER_STATUS_SPEED, USER_STATUS_CURE);
    let mut r = PacketReader::new(&pkt.data);
    assert_eq!(r.read_u8(), Some(2));
    assert_eq!(r.read_u8(), Some(3));
    assert_eq!(r.read_u8(), Some(0));
    assert_eq!(r.remaining(), 0);
}

#[test]
fn test_party_status_change_packet_format() {
    let pkt = ko_game::regene::build_party_status_change_packet(42, 2, 1);
    assert_eq!(pkt.opcode, ko_game::regene::WIZ_PARTY);
    let mut r = PacketReader::new(&pkt.data);
    assert_eq!(r.read_u8(), Some(0x09));
    assert_eq!(r.read_u32(), Some(42));
    assert_eq!(r.read_u8(), Some(2));
    assert_eq!(r.read_u8(), Some(1));
    assert_eq!(r.remaining(), 0);
}

#[test]
fn test_party_status_change_cure() {
    let pkt = ko_game::regene::build_party_status_change_packet(100, 1, 0);
    let mut r = PacketReader::new(&pkt.data);
    assert_eq!(r.read_u8(), Some(0x09));
    assert_eq!(r.read_u32(), Some(100));
    assert_eq!(r.read_u8(), Some(1));
    assert_eq!(r.read_u8(), Some(0));
    assert_eq!(r.remaining(), 0);
}

#[test]
fn test_respawn_bind_point_used() {
    let mut ctx = empty_ctx(1);
    ctx.bind_zone = 11;
    ctx.has_bind_coords = true;
    assert_eq!(determine_respawn_location(&ctx, 21), RespawnTarget::BindPoint);
}

#[test]
fn status_update_reaches_party_only_when_in_one() {
    let (mine, party) = ko_game::regene::user_status_update(7, true, USER_STATUS_POISON, 1);
    assert_eq!(mine.data, vec![2, 2, 1]);
    assert_eq!(party.unwrap().data, vec![9, 7, 0, 0, 0, 2, 1]);
    let (_, none) = ko_game::regene::user_status_update(7, false, USER_STATUS_POISON, 1);
    assert!(none.is_none());
}

#[test]
fn respawn_location_applies_draws() {
    let mut ctx = empty_ctx(1);
    ctx.start_position = Some(StartPosition { karus_x: 100, karus_z: 200, elmorad_x: 300, elmorad_z: 400, range_x: 5, range_z: 0 });
    assert_eq!(respawn_location(&ctx, 1, 4, 9, 0, 0), RespawnTarget::Point { zone: 1, x: 104, z: 200 });
    ctx.nation = 2;
    assert_eq!(respawn_location(&ctx, 2, 2, 9, 0, 0), RespawnTarget::Point { zone: 2, x: 302, z: 400 });
    let mut j = empty_ctx(1);
    j.juraid_bridges = Some(JuraidBridges { karus_bridges: [false; 2], elmorad_bridges: [false; 2] });
    assert_eq!(respawn_location(&j, ZONE_JURAID_MOUNTAIN, 0, 0, 3, 1), RespawnTarget::Point { zone: ZONE_JURAID_MOUNTAIN, x: 514, z: 739 });
}

fn subject() -> BlinkSubject {
    BlinkSubject { is_gm: false, is_transformed: false, is_war_zone: false, zone_has_blink: true, blink_expiry: 0 }
}

#[test]
fn started_blink_locks_skills_and_is_broadcast() {
    let mut st = BlinkState { blink_expiry: 0, can_use_skills: true };
    let (a, pkt) = blink_at(&subject(), &mut st, 0x0102, 21, 1_000, BLINK_TIME);
    assert_eq!(a, BlinkAction::Start(1_010));
    assert_eq!(st, BlinkState { blink_expiry: 1_010, can_use_skills: false });
    let pkt = pkt.unwrap();
    assert_eq!(pkt.opcode, WIZ_STATE_CHANGE);
    assert_eq!(pkt.data, vec![0x02, 0x01, 0, 0, 3, 4, 0, 0, 0]);
}

#[test]
fn cleared_blink_gives_skills_back_and_is_broadcast() {
    let mut st = BlinkState { blink_expiry: 1_010, can_use_skills: false };
    let war = BlinkSubject { is_war_zone: true, blink_expiry: 1_010, ..subject() };
    let (a, pkt) = blink_at(&war, &mut st, 7, ZONE_CHAOS_DUNGEON, 1_000, BLINK_TIME);
    assert_eq!(a, BlinkAction::Clear(ABNORMAL_CHAOS_NORMAL));
    assert_eq!(st, BlinkState { blink_expiry: 0, can_use_skills: true });
    assert_eq!(pkt.unwrap().data, vec![7, 0, 0, 0, 3, 7, 0, 0, 0]);
}

#[test]
fn nothing_to_do_changes_nothing() {
    let mut st = BlinkState { blink_expiry: 5, can_use_skills: true };
    let gm = BlinkSubject { is_gm: true, ..subject() };
    let (a, pkt) = blink_at(&gm, &mut st, 7, 21, 1_000, BLINK_TIME);
    assert_eq!(a, BlinkAction::Nothing);
    assert!(pkt.is_none());
    assert_eq!(st, BlinkState { blink_expiry: 5, can_use_skills: true });
    assert!(apply_blink_action(&mut st, 7, BlinkAction::Nothing).is_none());
    assert_eq!(st.blink_expiry, 5);
}
