use ko_game::region::{INOUT_IN, INOUT_OUT};
use ko_game::speedhack::COMMAND_CAPTAIN;
use ko_game::state_change::{
    build_state_change_packet, is_server_internal_type, qualifies_for_training, state_change, team_colour,
    StateChangeOutcome, StateSession, CLAN_NOTICE_CHAT, TEAM_COLOUR_BLUE, TEAM_COLOUR_NONE, TEAM_COLOUR_RED,
    USER_SITDOWN,
};

fn session(authority: u8, abnormal: u32) -> StateSession {
    StateSession {
        authority,
        fame: 0,
        res_hp_type: 1,
        need_party: 0,
        abnormal_type: abnormal,
        old_abnormal_type: 0,
        total_training_exp: 500,
        last_training_time: 77,
    }
}

const PLAIN: StateChangeOutcome = StateChangeOutcome::Applied { forced_visible: false, gm_inout: None };

#[test]
fn test_gm_visibility_auto_toggle_constants() {
    assert_eq!(5u8, 5u8);
    assert_eq!(1u32, 1u32);
    assert_eq!(0u32, 0u32);
    // An invisible game master is made visible before a transformation.
    let mut gm = session(0, 0);
    assert_eq!(state_change(&mut gm, false, 3, 2), StateChangeOutcome::Applied { forced_visible: true, gm_inout: None });
    assert_eq!(gm.old_abnormal_type, 1);
    assert_eq!(gm.abnormal_type, 2);
}

#[test]
fn test_team_colour_enum_values() {
    let none: u8 = 0;
    let blue: u8 = 1;
    let red: u8 = 2;
    assert_eq!(none, 0);
    assert_eq!(blue, 1);
    assert_eq!(red, 2);
    let buff: u8 = 2;
    let colour = match buff {
        2 => 2u8,
        1 => 1u8,
        _ => 0u8,
    };
    assert_eq!(colour, 2);
    assert_eq!(team_colour(2), TEAM_COLOUR_RED);
    assert_eq!(team_colour(1), TEAM_COLOUR_BLUE);
    assert_eq!(team_colour(9), TEAM_COLOUR_NONE);
}

#[test]
fn test_clan_notice_chat_type_value() {
    assert_eq!(24u8, 24);
    assert_eq!(CLAN_NOTICE_CHAT, 24);
}

#[test]
fn test_server_internal_types_rejected() {
    let server_only_types: [u8; 4] = [6, 7, 8, 11];
    let client_types: [u8; 5] = [1, 2, 3, 4, 5];
    for t in &server_only_types {
        assert!(matches!(*t, 6 | 7 | 8 | 11), "Type {} should be server-internal only", t);
        assert!(is_server_internal_type(*t));
        let mut s = session(0, 1);
        assert_eq!(state_change(&mut s, false, *t, 1), StateChangeOutcome::Ignored);
    }
    for t in &client_types {
        assert!(!matches!(*t, 6 | 7 | 8 | 11), "Type {} should be accepted from clients", t);
        assert!(!is_server_internal_type(*t));
    }
}

#[test]
fn test_training_level_gate() {
    for level in [10u8, 83] {
        assert!(level >= 10, "level {level} qualifies for training");
        assert!(qualifies_for_training(level));
    }
    let low_level: u8 = 9;
    assert!(low_level < 10, "level 9 does not qualify");
    assert!(!qualifies_for_training(low_level));
}

#[test]
fn sit_and_party() {
    let mut s = session(1, 1);
    assert_eq!(state_change(&mut s, false, 1, USER_SITDOWN as u32), PLAIN);
    assert_eq!(s.res_hp_type, USER_SITDOWN);
    assert_eq!(s.total_training_exp, 0);
    assert_eq!(state_change(&mut s, false, 1, 4), StateChangeOutcome::Ignored);
    assert_eq!(state_change(&mut s, false, 2, 0x101), PLAIN);
    assert_eq!(s.need_party, 1);
    let mut dead = session(1, 1);
    assert_eq!(state_change(&mut dead, true, 1, 2), StateChangeOutcome::Ignored);
    assert_eq!(dead.total_training_exp, 500);
}

#[test]
fn gm_only_changes() {
    let mut player = session(1, 1);
    assert_eq!(state_change(&mut player, false, 3, 2), StateChangeOutcome::Ignored);
    assert_eq!(state_change(&mut player, false, 5, 0), StateChangeOutcome::Ignored);
    let mut gm = session(0, 1);
    assert_eq!(state_change(&mut gm, false, 3, 4), StateChangeOutcome::Ignored);
    assert_eq!(state_change(&mut gm, false, 5, 1), StateChangeOutcome::Ignored);
    assert_eq!(state_change(&mut gm, false, 5, 0), StateChangeOutcome::Applied { forced_visible: false, gm_inout: Some(INOUT_OUT) });
    assert_eq!(gm.abnormal_type, 0);
    assert_eq!(state_change(&mut gm, false, 5, 0), StateChangeOutcome::Ignored);
    assert_eq!(state_change(&mut gm, false, 5, 1), StateChangeOutcome::Applied { forced_visible: false, gm_inout: Some(INOUT_IN) });
}

#[test]
fn captains_cannot_greet_or_provoke() {
    let mut captain = session(1, 1);
    captain.fame = COMMAND_CAPTAIN;
    for buff in [1u32, 3, 11, 13] {
        assert_eq!(state_change(&mut captain, false, 4, buff), StateChangeOutcome::Ignored);
    }
    assert_eq!(state_change(&mut captain, false, 4, 14), PLAIN);
    let mut player = session(1, 1);
    assert_eq!(state_change(&mut player, false, 4, 2), PLAIN);
}

#[test]
fn state_change_packet_layout() {
    let pkt = build_state_change_packet(42, 1, 2);
    assert_eq!(pkt.data, vec![42, 0, 0, 0, 1, 2, 0, 0, 0]);
}

#[test]
fn test_state_change_broadcast_format() {
    let pkt = build_state_change_packet(42, 1, 0x02);
    assert_eq!(pkt.opcode, ko_game::regene::WIZ_STATE_CHANGE);
    assert_eq!(pkt.data.len(), 9);
    let mut r = ko_game::packet::PacketReader::new(&pkt.data);
    assert_eq!(r.read_u32(), Some(42));
    assert_eq!(r.read_u8(), Some(1));
    assert_eq!(r.read_u32(), Some(0x02));
    assert_eq!(r.remaining(), 0);
}

#[test]
fn test_state_change_emotion_format() {
    let pkt = build_state_change_packet(100, 4, 1);
    let mut r = ko_game::packet::PacketReader::new(&pkt.data);
    assert_eq!(r.read_u32(), Some(100));
    assert_eq!(r.read_u8(), Some(4));
    assert_eq!(r.read_u32(), Some(1));
    assert_eq!(r.remaining(), 0);
}

#[test]
fn test_state_type_6_party_leader_broadcast() {
    let pkt = build_state_change_packet(10, 6, 1);
    let mut r = ko_game::packet::PacketReader::new(&pkt.data);
    assert_eq!(r.read_u32(), Some(10));
    assert_eq!(r.read_u8(), Some(6));
    assert_eq!(r.read_u32(), Some(1));
}

const WIZ_MINING: u8 = 0x86;

#[test]
fn test_training_start_packet_format() {
    let mut pkt = ko_game::packet::Packet::new(WIZ_MINING);
    pkt.write_u8(9);
    pkt.write_u8(1);
    pkt.write_u16(0);
    pkt.write_bytes(&[0u8; 5]);
    pkt.write_u8(0);
    assert_eq!(pkt.opcode, WIZ_MINING);
    let mut r = ko_game::packet::PacketReader::new(&pkt.data);
    assert_eq!(r.read_u8(), Some(9), "sub = training");
    assert_eq!(r.read_u8(), Some(1), "inner = start");
    assert_eq!(r.read_u16(), Some(0), "npc_id");
    assert_eq!(r.remaining(), 6);
}

#[test]
fn test_training_stop_packet_format() {
    let mut pkt = ko_game::packet::Packet::new(WIZ_MINING);
    pkt.write_u8(9);
    pkt.write_u8(3);
    assert_eq!(pkt.opcode, WIZ_MINING);
    let mut r = ko_game::packet::PacketReader::new(&pkt.data);
    assert_eq!(r.read_u8(), Some(9), "sub = training");
    assert_eq!(r.read_u8(), Some(3), "inner = stop");
    assert_eq!(r.remaining(), 0);
}

#[test]
fn test_captain_blocked_from_emotions() {
    let mut captain = session(1, 1);
    captain.fame = COMMAND_CAPTAIN;
    assert_eq!(captain.fame, 100);
    for emote in [1u32, 2, 3, 11, 12, 13] {
        assert_eq!(state_change(&mut captain, false, 4, emote), StateChangeOutcome::Ignored);
    }
    assert_eq!(state_change(&mut captain, false, 4, 4), PLAIN);
}

#[test]
fn test_state_change_type2_need_party_state() {
    let mut s = session(1, 1);
    assert_eq!(s.need_party, 0);
    assert_eq!(state_change(&mut s, false, 2, 1), PLAIN);
    assert_eq!(s.need_party, 1, "need_party should be set to 1 after Type 2");
}

#[test]
fn test_state_change_type3_gm_abnormal_tracking() {
    let mut gm = session(0, 1);
    assert_eq!(gm.abnormal_type, 1);
    assert_eq!(state_change(&mut gm, false, 3, 5), PLAIN);
    assert_eq!(gm.old_abnormal_type, 1, "old_abnormal_type should be previous value");
    assert_eq!(gm.abnormal_type, 5, "abnormal_type should be updated to new value");
}
