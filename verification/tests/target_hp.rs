use ko_game::packet::{Packet, PacketReader};
use ko_game::pet::NPC_BAND;
use ko_game::target_hp::{
    answer_target_hp, build_target_hp_packet, is_npc_band, sees_target_debug, target_hp_values,
    TargetLookup, WIZ_TARGET_HP,
};

#[test]
fn test_npc_target_hp_clamps_to_zero() {
    let negative: i32 = -50;
    assert_eq!(negative.max(0) as u32, 0);
    let positive: i32 = 500;
    assert_eq!(positive.max(0) as u32, 500);
    let zero: i32 = 0;
    assert_eq!(zero.max(0) as u32, 0);
    assert_eq!(target_hp_values(TargetLookup::Npc { template_max_hp: 900, hp: Some(-50) }), Some((900, 0)));
    assert_eq!(target_hp_values(TargetLookup::Npc { template_max_hp: 900, hp: Some(500) }), Some((900, 500)));
    assert_eq!(target_hp_values(TargetLookup::Npc { template_max_hp: 900, hp: None }), Some((900, 900)));
}

#[test]
fn test_dead_target_hp_returns_zero_current() {
    let npc_hp: i32 = 0;
    let clamped = npc_hp.max(0) as u32;
    assert_eq!(clamped, 0, "Dead NPC with 0 HP should return 0");
    let npc_hp: i32 = -1000;
    let clamped = npc_hp.max(0) as u32;
    assert_eq!(clamped, 0, "Overkill NPC with -1000 HP should return 0");
    let player_hp: i32 = 0;
    let as_u32 = player_hp as u32;
    assert_eq!(as_u32, 0, "Dead player with 0 HP should return 0");
    let max_hp: u32 = 5000;
    let current_hp: u32 = 0;
    assert!(max_hp > current_hp, "Dead entity: max_hp should still be positive");
    assert_eq!(target_hp_values(TargetLookup::Bot { max_hp: 5000, hp: -1000 }), Some((5000, 0)));
    assert_eq!(target_hp_values(TargetLookup::Player { max_hp: 5000, hp: 0 }), Some((5000, 0)));
}

#[test]
fn test_zero_target_id_rejected() {
    let target_id: u32 = 0;
    assert_eq!(target_id, 0, "Zero target_id should be rejected");
    let should_reject = target_id == 0;
    assert!(should_reject, "target_id=0 must trigger early return");
    let valid_player_id: u32 = 42;
    assert_ne!(valid_player_id, 0);
    let valid_npc_id: u32 = NPC_BAND + 5;
    assert_ne!(valid_npc_id, 0);
    assert!(answer_target_hp(0, 1, TargetLookup::Player { max_hp: 10, hp: 10 }).is_none());
    assert!(answer_target_hp(valid_player_id, 1, TargetLookup::Player { max_hp: 10, hp: 10 }).is_some());
    assert!(answer_target_hp(valid_npc_id, 1, TargetLookup::Missing).is_none());
}

#[test]
fn test_npc_band_constant() {
    assert_eq!(NPC_BAND, 10000);
}

#[test]
fn test_target_id_classification() {
    let player_id: u32 = 42;
    let npc_id: u32 = NPC_BAND + 100;
    assert!(player_id < NPC_BAND, "Player IDs below NPC_BAND");
    assert!(npc_id >= NPC_BAND, "NPC IDs at or above NPC_BAND");
    assert!(!is_npc_band(player_id));
    assert!(is_npc_band(npc_id));
}

#[test]
fn test_gm_authority_values_for_debug_info() {
    let authority: u8 = 0;
    let is_gm = authority == 0 || authority == 2;
    assert!(is_gm, "authority=0 (GAME_MASTER) should trigger debug info");
    let authority: u8 = 2;
    let is_gm = authority == 0 || authority == 2;
    assert!(is_gm, "authority=2 (GM_USER) should trigger debug info");
    let authority: u8 = 1;
    let is_gm = authority == 0 || authority == 2;
    assert!(!is_gm, "authority=1 (regular player) should NOT get debug info");
    for auth in [3u8, 5, 10, 255] {
        let is_gm = auth == 0 || auth == 2;
        assert!(!is_gm, "authority={auth} should NOT be treated as GM");
        assert!(!sees_target_debug(auth, NPC_BAND + 100));
    }
    let player_target: u32 = 50;
    let npc_target: u32 = NPC_BAND + 100;
    assert!(sees_target_debug(0, npc_target));
    assert!(sees_target_debug(2, npc_target));
    assert!(!sees_target_debug(0, player_target));
}

#[test]
fn target_hp_packet_layout() {
    let pkt = build_target_hp_packet(10042, 1, 500, 250);
    assert_eq!(pkt.opcode, WIZ_TARGET_HP);
    assert_eq!(pkt.data, vec![0x3A, 0x27, 0, 0, 1, 0xF4, 1, 0, 0, 250, 0, 0, 0, 0, 0, 0, 0, 0, 0, 0, 0, 0]);
}


#[test]
fn test_c2s_target_hp_packet_format() {
    let mut pkt = Packet::new(WIZ_TARGET_HP);
    pkt.write_u32(10042);
    pkt.write_u8(1);
    assert_eq!(pkt.opcode, WIZ_TARGET_HP);
    assert_eq!(pkt.data.len(), 5);
    let mut r = PacketReader::new(&pkt.data);
    assert_eq!(r.read_u32(), Some(10042));
    assert_eq!(r.read_u8(), Some(1));
    assert_eq!(r.remaining(), 0);
}

#[test]
fn test_s2c_target_hp_response_format() {
    let pkt = build_target_hp_packet(10042, 1, 5000, 3500);
    assert_eq!(pkt.data.len(), 22);
    let mut r = PacketReader::new(&pkt.data);
    assert_eq!(r.read_u32(), Some(10042));
    assert_eq!(r.read_u8(), Some(1));
    assert_eq!(r.read_u32(), Some(5000));
    assert_eq!(r.read_u32(), Some(3500));
    assert_eq!(r.read_u32(), Some(0));
    assert_eq!(r.read_u32(), Some(0));
    assert_eq!(r.read_u8(), Some(0));
    assert_eq!(r.remaining(), 0);
}

#[test]
fn test_target_hp_opcode_value() {
    assert_eq!(WIZ_TARGET_HP, 0x22);
}

#[test]
fn test_target_hp_c2s_data_length() {
    let mut pkt = Packet::new(WIZ_TARGET_HP);
    pkt.write_u32(42);
    pkt.write_u8(1);
    assert_eq!(pkt.data.len(), 5);
}

#[test]
fn test_target_hp_s2c_data_length() {
    let pkt = build_target_hp_packet(10042, 1, 5000, 3500);
    assert_eq!(pkt.data.len(), 22);
}

#[test]
fn test_target_hp_echo_roundtrip() {
    for echo in [0u8, 1, 127, 255] {
        let pkt = build_target_hp_packet(100, echo, 1000, 500);
        let mut r = PacketReader::new(&pkt.data);
        assert_eq!(r.read_u32(), Some(100));
        assert_eq!(r.read_u8(), Some(echo), "echo={echo} preserved");
    }
}

#[test]
fn test_target_hp_player_hp_u32() {
    let pkt = build_target_hp_packet(42, 0, 25000, 12500);
    let mut r = PacketReader::new(&pkt.data);
    assert_eq!(r.read_u32(), Some(42));
    r.read_u8();
    assert_eq!(r.read_u32(), Some(25000));
    assert_eq!(r.read_u32(), Some(12500));
}

#[test]
fn test_target_hp_trailing_zeros() {
    let pkt = build_target_hp_packet(10001, 1, 8000, 4000);
    let mut r = PacketReader::new(&pkt.data);
    r.read_u32();
    r.read_u8();
    r.read_u32();
    r.read_u32();
    assert_eq!(r.read_u32(), Some(0), "damage always 0");
    assert_eq!(r.read_u32(), Some(0), "reserved u32 always 0");
    assert_eq!(r.read_u8(), Some(0), "reserved u8 always 0");
    assert_eq!(r.remaining(), 0);
}
