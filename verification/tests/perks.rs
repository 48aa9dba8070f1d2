use ko_game::perks::{
    build_gold_lose_packet, build_perk_error_packet, build_perk_info_packet, build_perk_plus_packet,
    build_perk_reset_packet, build_perk_target_info_packet, perk_plus, perk_reset, PerkAllocation,
    PerkDefinition, PerkResetOutcome, PERK_ERR_MAX_COUNT, PERK_ERR_NOT_FOUND, PERK_ERR_REM_PERKS,
    PERK_ERR_SUCCESS, WIZ_EXT_HOOK,
};

fn allocation(rem: i16) -> PerkAllocation {
    PerkAllocation { levels: [0; 13], rem_perk: rem }
}

#[test]
fn test_allocate_perk_point_success() {
    let mut p = allocation(5);
    assert_eq!(perk_plus(&mut p, 0, Some(5)), PERK_ERR_SUCCESS);
    assert_eq!((p.levels[0], p.rem_perk), (1, 4));
    assert_eq!(perk_plus(&mut p, 0, Some(5)), PERK_ERR_SUCCESS);
    assert_eq!((p.levels[0], p.rem_perk), (2, 3));
}

#[test]
fn test_allocate_perk_point_no_remaining() {
    let mut p = allocation(0);
    assert_eq!(perk_plus(&mut p, 0, Some(5)), PERK_ERR_REM_PERKS);
    assert_eq!(p.levels[0], 0);
}

#[test]
fn test_allocate_perk_point_at_max() {
    let mut p = allocation(5);
    p.levels[4] = 3;
    assert_eq!(perk_plus(&mut p, 4, Some(3)), PERK_ERR_MAX_COUNT);
    assert_eq!((p.levels[4], p.rem_perk), (3, 5));
}

#[test]
fn test_allocate_perk_point_invalid_index() {
    let mut p = allocation(5);
    assert_eq!(perk_plus(&mut p, 13, Some(5)), PERK_ERR_NOT_FOUND);
    assert_eq!(perk_plus(&mut p, 99, Some(5)), PERK_ERR_NOT_FOUND);
    assert_eq!(perk_plus(&mut p, 2, None), PERK_ERR_NOT_FOUND);
    assert_eq!(p.rem_perk, 5);
}

#[test]
fn test_reset_perk_points() {
    let mut p = allocation(1);
    p.levels[0] = 3;
    p.levels[5] = 2;
    p.levels[12] = 4;
    let r = perk_reset(&mut p, 150_000, 100_000);
    assert_eq!(r, PerkResetOutcome::Reset { gold_left: 50_000, rem_perk: 10 });
    assert_eq!(p.levels, [0; 13]);
    assert_eq!(p.rem_perk, 10);
}

#[test]
fn test_reset_perk_points_nothing_allocated() {
    let mut p = allocation(4);
    assert_eq!(perk_reset(&mut p, 150_000, 100_000), PerkResetOutcome::NothingToReset);
    p.levels[1] = 1;
    assert_eq!(perk_reset(&mut p, 99_999, 100_000), PerkResetOutcome::NotEnoughGold);
    assert_eq!(p.levels[1], 1);
}

#[test]
fn points_survive_plus_then_reset() {
    let mut p = allocation(6);
    for i in 0..6u32 {
        assert_eq!(perk_plus(&mut p, i % 3, Some(5)), PERK_ERR_SUCCESS);
    }
    assert_eq!(p.rem_perk, 0);
    let r = perk_reset(&mut p, 100_000, 100_000);
    assert_eq!(r, PerkResetOutcome::Reset { gold_left: 0, rem_perk: 6 });
}

#[test]
fn perk_packets() {
    let p = PerkAllocation { levels: [1, 0, 0, 0, 0, 0, 0, 0, 0, 0, 0, 0, 2], rem_perk: 3 };
    let defs = [PerkDefinition {
        p_index: 0,
        status: true,
        perk_count: 150,
        perk_max: 5,
        description: "Weight".to_string(),
        percentage: false,
    }];
    let pkt = build_perk_info_packet(&p, 100_000, &defs);
    assert_eq!(pkt.opcode, WIZ_EXT_HOOK);
    assert_eq!(&pkt.data[..10], &[0xE3, 0, 3, 0, 0xA0, 0x86, 0x01, 0, 1, 0]);
    // Segment: 4 + 1 + 2 + 2 + (2 + 6) + 1 = 18 bytes.
    assert_eq!(&pkt.data[10..12], &[18, 0]);
    assert_eq!(&pkt.data[12..16], &[0, 0, 0, 0]);
    assert_eq!(pkt.data[16], 1);
    assert_eq!(pkt.data.len(), 12 + 18 + 26);
    assert_eq!(&pkt.data[30..32], &[1, 0]);
    assert_eq!(&pkt.data[54..56], &[2, 0]);
    assert_eq!(build_perk_plus_packet(4, 2, 1).data, vec![0xE3, 1, 3, 4, 0, 0, 0, 2, 0, 1, 0]);
    assert_eq!(build_perk_error_packet(2).data, vec![0xE3, 1, 2]);
    assert_eq!(build_perk_reset_packet(10).data, vec![0xE3, 2, 10, 0]);
    let target = build_perk_target_info_packet(7, &p.levels);
    assert_eq!(target.data.len(), 4 + 26);
    assert_eq!(build_gold_lose_packet(100_000, 50_000).data, vec![2, 0xA0, 0x86, 1, 0, 0x50, 0xC3, 0, 0]);
}

#[test]
fn test_allocate_all_five_levels() {
    let mut p = allocation(10);
    for expected_level in 1..=5i16 {
        assert_eq!(perk_plus(&mut p, 0, Some(5)), PERK_ERR_SUCCESS);
        assert_eq!((p.levels[0], p.rem_perk), (expected_level, 10 - expected_level));
    }
    assert_eq!(perk_plus(&mut p, 0, Some(5)), PERK_ERR_MAX_COUNT);
}

#[test]
fn test_perk_hp_bonus_applied_after_allocate() {
    let mut p = allocation(5);
    assert_eq!(perk_plus(&mut p, 1, Some(5)), PERK_ERR_SUCCESS);
    assert_eq!(p.levels[1], 1, "HP perk level should be 1 after allocation");
}

#[test]
fn test_perk_reset_clears_all_levels() {
    let mut p = allocation(0);
    p.levels[0] = 3;
    p.levels[1] = 2;
    p.levels[11] = 1;
    let r = perk_reset(&mut p, 1_000_000, 0);
    assert_eq!(r, PerkResetOutcome::Reset { gold_left: 1_000_000, rem_perk: 6 });
    assert_eq!(p.levels, [0i16; 13], "all levels should be zero after reset");
    assert_eq!(p.rem_perk, 6, "refunded points = 3 + 2 + 1");
}

#[test]
fn test_perk_weight_bonus_index() {
    let mut p = allocation(3);
    perk_plus(&mut p, 0, Some(5));
    assert_eq!(p.levels[0], 1, "Weight perk at index 0");
}
