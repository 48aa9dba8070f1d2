use ko_game::under_castle::{
    activate_event, add_monster_id, can_player_enter, force_stop_event, get_all_monster_ids,
    get_gate_ids, get_utc_room_reward_items, on_monster_death, remove_from_monster_list,
    room_geometry, set_gate_id, timer_tick, trophy_count_for, UnderTheCastleState,
    UtcEntryResult, UtcTickResult, build_utc_movie_packet, DENTED_IRONMASS, HORN_OF_PLUWITOON,
    IRON_POWDER_OF_CHAIN, MIN_LEVEL_UNDER_CASTLE, MONSTER_CRESHERGIMMIC_I,
    MONSTER_CRESHERGIMMIC_II, MONSTER_CRESHERGIMMIC_III, MONSTER_CRESHERGIMMIC_VI,
    MONSTER_EMPEROR_MAMMOTH_I, MONSTER_EMPEROR_MAMMOTH_II, MONSTER_EMPEROR_MAMMOTH_III,
    MONSTER_FLUWITON_ROOM_3_I, MONSTER_FLUWITON_ROOM_3_III, MONSTER_FLUWITON_ROOM_4_I,
    MONSTER_FLUWITON_ROOM_4_II, MONSTER_FLUWITON_ROOM_4_III, MONSTER_FLUWITON_ROOM_4_VI,
    MONSTER_PURIOUS_I, MONSTER_PURIOUS_II, MONSTER_PURIOUS_III, MONSTER_PURIOUS_VI,
    NPC_UTC_SPAWN_FAST, PETRIFIED_WEAPON_SHRAPNEL, PLWITOONS_TEAR, TROPHY_OF_FLAME,
    UTC_BOSS_KILL_RANGE, UTC_EXIT_PORTAL_NPC, WIZ_UTC_MOVIE, ZONE_UNDER_CASTLE,
};

#[test]
fn state_new_is_inactive() {
    let state = UnderTheCastleState::new();
    assert!(!state.is_active);
    assert!(!state.is_summon);
    assert_eq!(state.start_time, 0);
}

#[test]
fn state_default_is_inactive() {
    let state = UnderTheCastleState::default();
    assert!(!state.is_active);
}

#[test]
fn state_reset_clears_all_fields() {
    let mut state = UnderTheCastleState::new();
    state.is_active = true;
    state.is_summon = true;
    state.start_time = 9999;
    state.start_move_time = 9984;
    state.min_level = 70;
    state.max_level = 83;
    add_monster_id(&mut state, 100);
    set_gate_id(&mut state, 0, 200);

    state.reset();

    assert!(!state.is_active);
    assert!(!state.is_summon);
    assert_eq!(state.start_time, 0);
    assert_eq!(state.start_move_time, 0);
    assert_eq!(state.min_level, 0);
    assert_eq!(state.max_level, 0);
    assert!(get_all_monster_ids(&state).is_empty());
    assert!(get_gate_ids(&state, 0).is_empty());
}

#[test]
fn activate_event_success() {
    let mut state = UnderTheCastleState::new();
    let result = activate_event(&mut state, 180, 70, 83);
    assert!(result);
    assert!(state.is_active);
    assert!(!state.is_summon);
    assert_eq!(state.start_time, 10800);
    assert_eq!(state.start_move_time, 10785);
    assert_eq!(state.min_level, 70);
    assert_eq!(state.max_level, 83);
}

#[test]
fn activate_event_already_active_fails() {
    let mut state = UnderTheCastleState::new();
    activate_event(&mut state, 180, 70, 83);
    let result = activate_event(&mut state, 60, 70, 83);
    assert!(!result);
    assert_eq!(state.start_time, 10800);
}

#[test]
fn activate_event_zero_duration_fails() {
    let mut state = UnderTheCastleState::new();
    let result = activate_event(&mut state, 0, 70, 83);
    assert!(!result);
    assert!(!state.is_active);
}

#[test]
fn force_stop_sets_low_timer() {
    let mut state = UnderTheCastleState::new();
    activate_event(&mut state, 180, 70, 83);
    force_stop_event(&mut state);
    assert_eq!(state.start_time, 1);
}

#[test]
fn force_stop_inactive_noop() {
    let mut state = UnderTheCastleState::new();
    force_stop_event(&mut state);
    assert_eq!(state.start_time, 0);
}

#[test]
fn tick_idle_when_not_active() {
    let mut state = UnderTheCastleState::new();
    assert_eq!(timer_tick(&mut state), UtcTickResult::Idle);
}

#[test]
fn tick_spawn_monsters_on_first_tick() {
    let mut state = UnderTheCastleState::new();
    activate_event(&mut state, 180, 70, 83);
    assert_eq!(timer_tick(&mut state), UtcTickResult::SpawnMonsters);
    assert!(state.is_summon);
}

#[test]
fn tick_normal_decrement() {
    let mut state = UnderTheCastleState::new();
    activate_event(&mut state, 180, 70, 83);
    timer_tick(&mut state);
    let before = state.start_time;
    assert_eq!(timer_tick(&mut state), UtcTickResult::Tick);
    let after = state.start_time;
    assert_eq!(before - 1, after);
}

#[test]
fn tick_movie_trigger() {
    let mut state = UnderTheCastleState::new();
    activate_event(&mut state, 180, 70, 83);
    timer_tick(&mut state);
    let move_time = state.start_move_time;
    state.start_time = move_time;
    assert_eq!(timer_tick(&mut state), UtcTickResult::TriggerMovie);
    assert_eq!(state.start_time, move_time - 1);
}

#[test]
fn tick_finish_at_zero() {
    let mut state = UnderTheCastleState::new();
    activate_event(&mut state, 180, 70, 83);
    timer_tick(&mut state);
    state.start_time = 0;
    assert_eq!(timer_tick(&mut state), UtcTickResult::Finish);
}

#[test]
fn entry_allowed() {
    assert_eq!(can_player_enter(true, 75, 42, true), UtcEntryResult::Allowed);
}

#[test]
fn entry_event_not_active() {
    assert_eq!(can_player_enter(false, 75, 42, true), UtcEntryResult::EventNotActive);
}

#[test]
fn entry_level_too_low() {
    assert_eq!(can_player_enter(true, 69, 42, true), UtcEntryResult::LevelTooLow);
}

#[test]
fn entry_level_exactly_minimum() {
    assert_eq!(can_player_enter(true, 70, 42, true), UtcEntryResult::Allowed);
}

#[test]
fn entry_no_clan() {
    assert_eq!(can_player_enter(true, 75, 0, true), UtcEntryResult::NoClan);
}

#[test]
fn entry_not_csw_winner() {
    assert_eq!(can_player_enter(true, 75, 42, false), UtcEntryResult::NotCswWinner);
}

#[test]
fn death_emperor_mammoth_i_opens_gate_0() {
    let result = on_monster_death(MONSTER_EMPEROR_MAMMOTH_I, 0);
    assert_eq!(result.movie_id, 7);
    assert_eq!(result.reward_room, 0);
    assert_eq!(result.gate_index, Some(0));
    assert!(!result.spawn_exit_portals);
}

#[test]
fn death_emperor_mammoth_ii() {
    let result = on_monster_death(MONSTER_EMPEROR_MAMMOTH_II, 0);
    assert_eq!(result.movie_id, 8);
    assert_eq!(result.reward_room, 0);
}

#[test]
fn death_emperor_mammoth_iii_rewards_room_1() {
    let result = on_monster_death(MONSTER_EMPEROR_MAMMOTH_III, 0);
    assert_eq!(result.movie_id, 2);
    assert_eq!(result.reward_room, 1);
    assert_eq!(result.gate_index, None);
}

#[test]
fn death_creshergimmic_vi_rewards_room_2_without_gate() {
    let result = on_monster_death(MONSTER_CRESHERGIMMIC_VI, 0);
    assert_eq!(result.movie_id, 3);
    assert_eq!(result.reward_room, 2);
    assert_eq!(result.gate_index, None);
}

#[test]
fn death_purious_vi_opens_gate_1() {
    let result = on_monster_death(MONSTER_PURIOUS_VI, 0);
    assert_eq!(result.movie_id, 4);
    assert_eq!(result.reward_room, 3);
    assert_eq!(result.gate_index, Some(1));
}

#[test]
fn death_fluwiton_room_3_iii_opens_gate_2() {
    let result = on_monster_death(MONSTER_FLUWITON_ROOM_3_III, 0);
    assert_eq!(result.movie_id, 5);
    assert_eq!(result.reward_room, 4);
    assert_eq!(result.gate_index, Some(2));
}

#[test]
fn death_fluwiton_room_4_vi_spawns_exit() {
    let result = on_monster_death(MONSTER_FLUWITON_ROOM_4_VI, 0);
    assert_eq!(result.movie_id, 0);
    assert_eq!(result.reward_room, 5);
    assert!(result.spawn_exit_portals);
    assert_eq!(result.gate_index, None);
}

#[test]
fn death_generic_monster_no_effect() {
    let result = on_monster_death(9525, 0);
    assert_eq!(result.movie_id, 0);
    assert_eq!(result.reward_room, 0);
    assert_eq!(result.gate_index, None);
    assert!(!result.spawn_exit_portals);
}

#[test]
fn death_creshergimmic_i_ii_iii_movie_6() {
    for proto_id in [
        MONSTER_CRESHERGIMMIC_I,
        MONSTER_CRESHERGIMMIC_II,
        MONSTER_CRESHERGIMMIC_III,
    ] {
        let result = on_monster_death(proto_id, 0);
        assert_eq!(result.movie_id, 6, "proto_id={proto_id} should have movie_id=6");
        assert_eq!(result.reward_room, 0);
        assert_eq!(result.gate_index, None);
    }
}

#[test]
fn death_purious_i_is_v2615_room_2_boss() {
    let result = on_monster_death(MONSTER_PURIOUS_I, 0);
    assert_eq!(result.movie_id, 3);
    assert_eq!(result.reward_room, 2);
    assert_eq!(result.gate_index, Some(1));
}

#[test]
fn death_purious_ii_iii_movie_6() {
    for proto_id in [MONSTER_PURIOUS_II, MONSTER_PURIOUS_III] {
        let result = on_monster_death(proto_id, 0);
        assert_eq!(result.movie_id, 6, "proto_id={proto_id} should have movie_id=6");
    }
}

#[test]
fn death_fluwiton_room_3_i_is_v2615_room_3_boss() {
    let result = on_monster_death(MONSTER_FLUWITON_ROOM_3_I, 0);
    assert_eq!(result.movie_id, 5);
    assert_eq!(result.reward_room, 4);
    assert_eq!(result.gate_index, Some(2));
}

#[test]
fn death_fluwiton_room_4_i_is_v2615_final_boss() {
    let result = on_monster_death(MONSTER_FLUWITON_ROOM_4_I, 0);
    assert_eq!(result.movie_id, 5);
    assert_eq!(result.reward_room, 5);
    assert!(result.spawn_exit_portals);
}

#[test]
fn death_fluwiton_room_4_ii_iii_movie_6() {
    for proto_id in [MONSTER_FLUWITON_ROOM_4_II, MONSTER_FLUWITON_ROOM_4_III] {
        let result = on_monster_death(proto_id, 0);
        assert_eq!(result.movie_id, 6, "proto_id={proto_id} should have movie_id=6");
    }
}

#[test]
fn death_fast_despawn_npc() {
    let result = on_monster_death(MONSTER_EMPEROR_MAMMOTH_I, NPC_UTC_SPAWN_FAST);
    assert!(result.despawn_fast);
}

#[test]
fn death_normal_npc_not_fast() {
    let result = on_monster_death(MONSTER_EMPEROR_MAMMOTH_I, 0);
    assert!(!result.despawn_fast);
}

#[test]
fn add_and_get_monster_ids() {
    let mut state = UnderTheCastleState::new();
    add_monster_id(&mut state, 100);
    add_monster_id(&mut state, 200);
    add_monster_id(&mut state, 300);
    let ids = get_all_monster_ids(&state);
    assert_eq!(ids.len(), 3);
    assert!(ids.contains(&100));
    assert!(ids.contains(&200));
    assert!(ids.contains(&300));
}

#[test]
fn remove_monster_id() {
    let mut state = UnderTheCastleState::new();
    add_monster_id(&mut state, 100);
    add_monster_id(&mut state, 200);
    remove_from_monster_list(&mut state, 100);
    let ids = get_all_monster_ids(&state);
    assert_eq!(ids.len(), 1);
    assert!(!ids.contains(&100));
    assert!(ids.contains(&200));
}

#[test]
fn remove_nonexistent_monster_id_noop() {
    let mut state = UnderTheCastleState::new();
    add_monster_id(&mut state, 100);
    remove_from_monster_list(&mut state, 999);
    let ids = get_all_monster_ids(&state);
    assert_eq!(ids.len(), 1);
}

#[test]
fn set_and_get_gate_ids() {
    let mut state = UnderTheCastleState::new();
    set_gate_id(&mut state, 0, 1000);
    set_gate_id(&mut state, 0, 1001);
    set_gate_id(&mut state, 1, 2000);
    set_gate_id(&mut state, 2, 3000);
    set_gate_id(&mut state, 2, 3001);
    assert_eq!(get_gate_ids(&state, 0), vec![1000, 1001]);
    assert_eq!(get_gate_ids(&state, 1), vec![2000]);
    assert_eq!(get_gate_ids(&state, 2), vec![3000, 3001]);
}

#[test]
fn set_gate_id_twice_keeps_one_entry() {
    let mut state = UnderTheCastleState::new();
    set_gate_id(&mut state, 1, 2000);
    set_gate_id(&mut state, 1, 2000);
    assert_eq!(get_gate_ids(&state, 1), vec![2000]);
}

#[test]
fn get_gate_ids_uninitialized_returns_empty() {
    let state = UnderTheCastleState::new();
    assert!(get_gate_ids(&state, 0).is_empty());
    assert!(get_gate_ids(&state, 1).is_empty());
    assert!(get_gate_ids(&state, 2).is_empty());
}

#[test]
fn set_gate_id_out_of_bounds_ignored() {
    let mut state = UnderTheCastleState::new();
    set_gate_id(&mut state, 3, 9999);
    set_gate_id(&mut state, 255, 9999);
    assert!(get_gate_ids(&state, 3).is_empty());
}

#[test]
fn build_utc_movie_packet_format() {
    let pkt = build_utc_movie_packet(7);
    assert_eq!(pkt.opcode, WIZ_UTC_MOVIE);
    assert_eq!(pkt.data.len(), 8);
    assert_eq!(pkt.data[0], 2);
    assert_eq!(pkt.data[1], 1);
    assert_eq!(pkt.data[2], 0x01);
    assert_eq!(pkt.data[3], 0x00);
    assert_eq!(pkt.data[4], 0x07);
    assert_eq!(pkt.data[5], 0x00);
    assert_eq!(pkt.data[6], 0x00);
    assert_eq!(pkt.data[7], 0x00);
}

#[test]
fn build_utc_movie_packet_different_ids() {
    for movie_id in [1, 2, 3, 4, 5, 6, 7, 8] {
        let pkt = build_utc_movie_packet(movie_id);
        let id_bytes = &pkt.data[4..8];
        let reconstructed =
            u32::from_le_bytes([id_bytes[0], id_bytes[1], id_bytes[2], id_bytes[3]]);
        assert_eq!(reconstructed, movie_id);
    }
}

#[test]
fn full_event_lifecycle() {
    let mut state = UnderTheCastleState::new();
    assert!(activate_event(&mut state, 180, 70, 83));
    assert!(state.is_active);
    assert_eq!(timer_tick(&mut state), UtcTickResult::SpawnMonsters);
    for _ in 0..5 {
        let result = timer_tick(&mut state);
        assert!(result == UtcTickResult::Tick || result == UtcTickResult::TriggerMovie);
    }
    let move_time = state.start_move_time;
    state.start_time = move_time;
    assert_eq!(timer_tick(&mut state), UtcTickResult::TriggerMovie);
    state.start_time = 0;
    assert_eq!(timer_tick(&mut state), UtcTickResult::Finish);
    state.reset();
    assert!(!state.is_active);
    assert_eq!(timer_tick(&mut state), UtcTickResult::Idle);
}

#[test]
fn activate_with_small_duration() {
    let mut state = UnderTheCastleState::new();
    assert!(activate_event(&mut state, 1, 70, 83));
    assert_eq!(state.start_time, 60);
    assert_eq!(state.start_move_time, 45);
}

#[test]
fn countdown_ticks_to_finish_with_one_movie() {
    let mut state = UnderTheCastleState::new();
    assert!(activate_event(&mut state, 1, 70, 83));
    assert_eq!(timer_tick(&mut state), UtcTickResult::SpawnMonsters);
    let mut movies = 0;
    let mut ticks = 0;
    loop {
        match timer_tick(&mut state) {
            UtcTickResult::Finish => break,
            UtcTickResult::TriggerMovie => movies += 1,
            UtcTickResult::Tick => ticks += 1,
            other => panic!("unexpected {:?}", other),
        }
    }
    assert_eq!(movies, 1);
    assert_eq!(ticks + movies, 60);
    assert_eq!(state.start_time, 0);
}

#[test]
fn constants_match_cpp() {
    assert_eq!(ZONE_UNDER_CASTLE, 86);
    assert_eq!(WIZ_UTC_MOVIE, 0x92);
    assert_eq!(MIN_LEVEL_UNDER_CASTLE, 70);
    assert_eq!(NPC_UTC_SPAWN_FAST, 214);
    assert_eq!(MONSTER_EMPEROR_MAMMOTH_I, 9501);
    assert_eq!(MONSTER_FLUWITON_ROOM_4_VI, 9518);
    assert_eq!(UTC_EXIT_PORTAL_NPC, 29197);
}

#[test]
fn reward_item_constants_match_cpp() {
    assert_eq!(TROPHY_OF_FLAME, 800_149_000);
    assert_eq!(DENTED_IRONMASS, 508_147_000);
    assert_eq!(PETRIFIED_WEAPON_SHRAPNEL, 508_149_000);
    assert_eq!(IRON_POWDER_OF_CHAIN, 508_151_000);
    assert_eq!(PLWITOONS_TEAR, 508_152_000);
    assert_eq!(HORN_OF_PLUWITOON, 810_479_000);
}

#[test]
fn room_center_rooms_1_and_2_same() {
    let c1 = room_geometry(1).unwrap();
    let c2 = room_geometry(2).unwrap();
    assert_eq!(c1, c2);
    assert_eq!(c1, (121, 297, 80));
}

#[test]
fn room_center_room_3() {
    assert_eq!(room_geometry(3).unwrap(), (520, 494, 115));
}

#[test]
fn room_center_room_4() {
    assert_eq!(room_geometry(4).unwrap(), (642, 351, 100));
}

#[test]
fn room_center_room_5() {
    assert_eq!(room_geometry(5).unwrap(), (803, 839, 110));
}

#[test]
fn room_center_invalid_returns_none() {
    assert!(room_geometry(0).is_none());
    assert!(room_geometry(6).is_none());
    assert!(room_geometry(255).is_none());
}

#[test]
fn trophy_both_ranges_gives_2() {
    assert_eq!(trophy_count_for(true, true), 2);
}

#[test]
fn trophy_room_only_gives_1() {
    assert_eq!(trophy_count_for(true, false), 1);
}

#[test]
fn trophy_boss_only_gives_1() {
    assert_eq!(trophy_count_for(false, true), 1);
}

#[test]
fn trophy_neither_gives_0() {
    assert_eq!(trophy_count_for(false, false), 0);
}

#[test]
fn room_1_no_bonus_items() {
    let items = get_utc_room_reward_items(1);
    assert!(items.is_empty());
}

#[test]
fn room_2_dented_ironmass() {
    assert_eq!(get_utc_room_reward_items(2), vec![DENTED_IRONMASS]);
}

#[test]
fn room_3_petrified_weapon_shrapnel() {
    assert_eq!(get_utc_room_reward_items(3), vec![PETRIFIED_WEAPON_SHRAPNEL]);
}

#[test]
fn room_4_iron_powder_of_chain() {
    assert_eq!(get_utc_room_reward_items(4), vec![IRON_POWDER_OF_CHAIN]);
}

#[test]
fn room_5_two_bonus_items() {
    assert_eq!(get_utc_room_reward_items(5), vec![PLWITOONS_TEAR, HORN_OF_PLUWITOON]);
}

#[test]
fn room_invalid_no_bonus_items() {
    assert!(get_utc_room_reward_items(0).is_empty());
    assert!(get_utc_room_reward_items(6).is_empty());
}

#[test]
fn boss_kill_range_matches_cpp() {
    assert_eq!(UTC_BOSS_KILL_RANGE, 15);
}
