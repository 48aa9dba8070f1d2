use ko_game::inventory::{
    in_no_trade_range, ItemProps, UserItemSlot, HAVE_MAX, ITEM_FLAG_BOUND, ITEM_FLAG_SEALED, ITEM_GOLD,
    ITEM_NO_TRADE_MAX, ITEM_NO_TRADE_MIN, RACE_UNTRADEABLE, SLOT_MAX,
};
use ko_game::packet::PacketReader;
use ko_game::trade::{
    build_exchange_add_result_packet, build_exchange_agree_packet, build_exchange_cancel_packet,
    build_exchange_done_packet, build_exchange_failed_packet, build_exchange_other_add_packet,
    build_exchange_other_decide_packet, build_exchange_request_packet, check_exchange,
    check_execute_exchange, clear_emptied_sources, exchange_add, exchange_add_precheck, exchange_add_item,
    exchange_agree, exchange_cancel, exchange_decide, exchange_request, receive_exchange_item,
    same_account, AddPrecheck, AddResult, AddedOffer, AgreeOutcome, DecideStep, ExchangeItem, IncomingItem,
    ReceivedItem, ReceiverState, RequestOutcome, TradeSide, TraderView, EXCHANGE_ADD, EXCHANGE_AGREE,
    EXCHANGE_CANCEL, EXCHANGE_DECIDE, EXCHANGE_DONE, EXCHANGE_OTHERADD, EXCHANGE_OTHERDECIDE,
    EXCHANGE_REQ, GOLD_POS, TRADE_STATE_DECIDING, TRADE_STATE_NONE, TRADE_STATE_SENDER,
    TRADE_STATE_TARGET, TRADE_STATE_TRADING, WIZ_EXCHANGE,
};

fn trader(sid: u16, name: &str, account: &str, state: u8, partner: Option<u16>) -> TraderView {
    TraderView {
        sid,
        name: name.to_string(),
        account: account.to_string(),
        nation: 1,
        zone: 21,
        level: 60,
        authority: 1,
        dead: false,
        trading: partner.is_some(),
        merchanting: false,
        mining: false,
        fishing: false,
        selling_prep: false,
        buying_prep: false,
        genie_active: false,
        state,
        partner,
    }
}

fn bag(slots: &[(usize, UserItemSlot)]) -> Vec<UserItemSlot> {
    let mut inv = vec![UserItemSlot::empty(); SLOT_MAX + HAVE_MAX];
    for (i, s) in slots {
        inv[*i] = *s;
    }
    inv
}

fn stack(item_id: u32, count: u16) -> UserItemSlot {
    UserItemSlot { item_id, durability: 1000, count, flag: 0, serial_num: 77, expire_time: 0 }
}

fn props(countable: i32) -> Option<ItemProps> {
    Some(ItemProps { kind: 0, race: 0, countable, weight: 10 })
}

#[test]
fn test_trade_state_constants() {
    assert_eq!(TRADE_STATE_NONE, 1);
    assert_eq!(TRADE_STATE_SENDER, 2);
    assert_eq!(TRADE_STATE_TARGET, 3);
    assert_eq!(TRADE_STATE_TRADING, 4);
    assert_eq!(TRADE_STATE_DECIDING, 5);
}

#[test]
fn test_exchange_sub_opcode_constants() {
    assert_eq!(EXCHANGE_REQ, 1);
    assert_eq!(EXCHANGE_AGREE, 2);
    assert_eq!(EXCHANGE_ADD, 3);
    assert_eq!(EXCHANGE_OTHERADD, 4);
    assert_eq!(EXCHANGE_DECIDE, 5);
    assert_eq!(EXCHANGE_OTHERDECIDE, 6);
    assert_eq!(EXCHANGE_DONE, 7);
    assert_eq!(EXCHANGE_CANCEL, 8);
}

#[test]
fn test_item_no_trade_range() {
    assert!((ITEM_NO_TRADE_MIN..=ITEM_NO_TRADE_MAX).contains(&900_000_001));
    assert!((ITEM_NO_TRADE_MIN..=ITEM_NO_TRADE_MAX).contains(&999_999_999));
    assert!(!(ITEM_NO_TRADE_MIN..=ITEM_NO_TRADE_MAX).contains(&100_001));
    assert!(!(ITEM_NO_TRADE_MIN..=ITEM_NO_TRADE_MAX).contains(&ITEM_GOLD));
    assert!(in_no_trade_range(900_000_001));
    assert!(in_no_trade_range(999_999_999));
    assert!(!in_no_trade_range(100_001));
    assert!(!in_no_trade_range(ITEM_GOLD));
}

#[test]
fn test_gold_item_id() {
    assert_eq!(ITEM_GOLD, 900_000_000);
    assert!(!(ITEM_NO_TRADE_MIN..=ITEM_NO_TRADE_MAX).contains(&ITEM_GOLD));
}

#[test]
fn test_trade_state_constants_for_deciding() {
    assert_eq!(TRADE_STATE_DECIDING, 5);
    assert_ne!(TRADE_STATE_DECIDING, TRADE_STATE_TRADING);
    assert_ne!(TRADE_STATE_DECIDING, TRADE_STATE_NONE);
}

#[test]
fn test_expiration_time_blocks_trade() {
    let expire_time: u32 = 1708300800;
    assert!(expire_time > 0, "Non-zero expire_time should block trade");
    let no_expire: u32 = 0;
    assert_eq!(no_expire, 0, "Zero expire_time should allow trade");

    let mut slot = stack(379090000, 5);
    slot.expire_time = expire_time;
    let mut side = TradeSide { gold: 0, inventory: bag(&[(SLOT_MAX, slot)]), exchange: vec![] };
    assert_eq!(exchange_add_item(&mut side, 0, 379090000, 1, props(0)), None);
    side.inventory[SLOT_MAX].expire_time = no_expire;
    assert!(exchange_add_item(&mut side, 0, 379090000, 1, props(0)).is_some());
}

#[test]
fn test_exchange_add_zone_check() {
    let zone1: u16 = 21;
    let zone2: u16 = 22;
    assert_ne!(zone1, zone2, "Zone mismatch blocks exchange_add");
    let me = trader(1, "A", "acc_a", TRADE_STATE_TRADING, Some(2));
    let mut p = trader(2, "B", "acc_b", TRADE_STATE_TRADING, Some(1));
    p.zone = zone2;
    assert_eq!(exchange_add_precheck(&me, Some(&p), false), AddPrecheck::Cancel);
    p.zone = zone1;
    assert_eq!(exchange_add_precheck(&me, Some(&p), false), AddPrecheck::Proceed);
}

#[test]
fn test_logos_grade_limit_constants() {
    let fallback_normal: i16 = 10;
    let fallback_rebirth: i16 = 10;
    assert_eq!(fallback_normal, 10);
    assert_eq!(fallback_rebirth, 10);
}

#[test]
fn test_trade_state_deciding_is_5() {
    assert_eq!(TRADE_STATE_DECIDING, 5);
}

#[test]
fn test_same_account_trade_blocked() {
    let acct_a = "player1";
    let acct_b = "player1";
    assert_eq!(acct_a.to_lowercase(), acct_b.to_lowercase(), "Same account must be blocked");
    assert!(same_account(acct_a, acct_b));
}

#[test]
fn test_different_account_trade_allowed() {
    let acct_a = "player1";
    let acct_b = "player2";
    assert_ne!(acct_a.to_lowercase(), acct_b.to_lowercase(), "Different accounts must be allowed");
    assert!(!same_account(acct_a, acct_b));
}

#[test]
fn test_same_account_case_insensitive() {
    let acct_a = "PlayerOne";
    let acct_b = "playerone";
    assert_eq!(acct_a.to_lowercase(), acct_b.to_lowercase());
    assert!(same_account(acct_a, acct_b));
}

#[test]
fn test_exchange_add_identity_revalidation() {
    let sid: u16 = 1;
    let partner_sid: u16 = 1;
    assert_eq!(sid, partner_sid, "Self-trade must be blocked");

    let my_name = "Warrior1";
    let partner_name = "Warrior1";
    assert_eq!(my_name, partner_name, "Same-name trade must be blocked");

    let my_account = "Account1";
    let partner_account = "ACCOUNT1";
    assert_eq!(
        my_account.to_lowercase(),
        partner_account.to_lowercase(),
        "Same-account (case-insensitive) trade must be blocked"
    );

    let sid2: u16 = 1;
    let partner_sid2: u16 = 2;
    let my_name2 = "Warrior1";
    let partner_name2 = "Mage2";
    let my_account2 = "account_a";
    let partner_account2 = "account_b";
    assert_ne!(sid2, partner_sid2);
    assert_ne!(my_name2, partner_name2);
    assert_ne!(my_account2.to_lowercase(), partner_account2.to_lowercase());

    // The same checks through the library.
    let me = trader(1, my_name, my_account, TRADE_STATE_TRADING, Some(2));
    let same_name = trader(2, partner_name, "other", TRADE_STATE_TRADING, Some(1));
    assert_eq!(exchange_add_precheck(&me, Some(&same_name), false), AddPrecheck::Cancel);
    let same_acct = trader(2, "Other", partner_account, TRADE_STATE_TRADING, Some(1));
    assert_eq!(exchange_add_precheck(&me, Some(&same_acct), false), AddPrecheck::Cancel);
    let me2 = trader(sid2, my_name2, my_account2, TRADE_STATE_TRADING, Some(partner_sid2));
    let p2 = trader(partner_sid2, partner_name2, partner_account2, TRADE_STATE_TRADING, Some(sid2));
    assert_eq!(exchange_add_precheck(&me2, Some(&p2), false), AddPrecheck::Proceed);
}

#[test]
fn test_exchange_client_vs_server_opcodes() {
    let client_ops = [EXCHANGE_REQ, EXCHANGE_AGREE, EXCHANGE_ADD, EXCHANGE_DECIDE, EXCHANGE_CANCEL];
    assert_eq!(client_ops.len(), 5);
    let server_ops = [EXCHANGE_OTHERADD, EXCHANGE_OTHERDECIDE, EXCHANGE_DONE];
    assert_eq!(server_ops.len(), 3);
    assert_eq!(client_ops.len() + server_ops.len(), 8);
}

#[test]
fn test_trade_state_progression() {
    assert_eq!(TRADE_STATE_NONE, 1);
    assert_eq!(TRADE_STATE_SENDER, 2);
    assert_eq!(TRADE_STATE_TARGET, 3);
    assert_eq!(TRADE_STATE_TRADING, 4);
    assert_eq!(TRADE_STATE_DECIDING, 5);
    assert!(TRADE_STATE_NONE < TRADE_STATE_SENDER);
    assert!(TRADE_STATE_TRADING < TRADE_STATE_DECIDING);
}

#[test]
fn test_exchange_cancel_highest_subopcode() {
    assert_eq!(EXCHANGE_CANCEL, 8);
    assert!(EXCHANGE_CANCEL > EXCHANGE_DONE);
    assert!(EXCHANGE_CANCEL > EXCHANGE_OTHERDECIDE);
    assert_eq!(EXCHANGE_CANCEL - EXCHANGE_DECIDE, 3);
}

#[test]
fn test_race_untradeable_constant() {
    assert_eq!(RACE_UNTRADEABLE, 20);
    assert!(RACE_UNTRADEABLE > 0);
}

#[test]
fn test_exchange_item_struct_fields() {
    let item = ExchangeItem {
        item_id: 379090000,
        count: 5,
        durability: 1000,
        serial_num: 12345,
        src_pos: 14,
        dst_pos: 0,
    };
    assert_eq!(item.item_id, 379090000);
    assert_eq!(item.count, 5);
    assert_eq!(item.src_pos, SLOT_MAX as u8);
    assert_ne!(item.src_pos, item.dst_pos);
}

// ── Request, agree, decide ──────────────────────────────────────────────

#[test]
fn request_sent_between_free_players() {
    let me = trader(1, "A", "acc_a", TRADE_STATE_NONE, None);
    let t = trader(2, "B", "acc_b", TRADE_STATE_NONE, None);
    assert_eq!(exchange_request(&me, 2, Some(&t), false, 1), RequestOutcome::Send);
}

#[test]
fn request_refusals() {
    let me = trader(1, "A", "acc_a", TRADE_STATE_NONE, None);
    let t = trader(2, "B", "acc_b", TRADE_STATE_NONE, None);
    // Unknown target, self, game master, other zone, same account.
    assert_eq!(exchange_request(&me, 2, None, false, 1), RequestOutcome::Refuse);
    assert_eq!(exchange_request(&me, 1, Some(&t), false, 1), RequestOutcome::Refuse);
    let mut gm = trader(2, "B", "acc_b", TRADE_STATE_NONE, None);
    gm.authority = 0;
    assert_eq!(exchange_request(&me, 2, Some(&gm), false, 1), RequestOutcome::Refuse);
    let mut far = trader(2, "B", "acc_b", TRADE_STATE_NONE, None);
    far.zone = 1;
    assert_eq!(exchange_request(&me, 2, Some(&far), false, 1), RequestOutcome::Refuse);
    let alt = trader(2, "B", "ACC_A", TRADE_STATE_NONE, None);
    assert_eq!(exchange_request(&me, 2, Some(&alt), false, 1), RequestOutcome::Refuse);
    // Other nation only where the zone allows it.
    let mut foreign = trader(2, "B", "acc_b", TRADE_STATE_NONE, None);
    foreign.nation = 2;
    assert_eq!(exchange_request(&me, 2, Some(&foreign), false, 1), RequestOutcome::Refuse);
    assert_eq!(exchange_request(&me, 2, Some(&foreign), true, 1), RequestOutcome::Send);
    // Busy target, low level.
    let mut genie = trader(2, "B", "acc_b", TRADE_STATE_NONE, None);
    genie.genie_active = true;
    assert_eq!(exchange_request(&me, 2, Some(&genie), false, 1), RequestOutcome::Refuse);
    assert_eq!(exchange_request(&me, 2, Some(&t), false, 61), RequestOutcome::Refuse);
}

#[test]
fn request_while_trading_cancels_current() {
    let me = trader(1, "A", "acc_a", TRADE_STATE_TRADING, Some(3));
    let t = trader(2, "B", "acc_b", TRADE_STATE_NONE, None);
    assert_eq!(exchange_request(&me, 2, Some(&t), false, 1), RequestOutcome::CancelCurrent);
}

#[test]
fn agree_accept_and_decline() {
    let me = trader(2, "B", "acc_b", TRADE_STATE_TARGET, Some(1));
    let sender = trader(1, "A", "acc_a", TRADE_STATE_SENDER, Some(2));
    assert_eq!(exchange_agree(&me, Some(&sender), false, 1), AgreeOutcome::Accept);
    assert_eq!(exchange_agree(&me, Some(&sender), false, 0), AgreeOutcome::Decline);
    assert_eq!(exchange_agree(&trader(2, "B", "acc_b", TRADE_STATE_NONE, None), None, false, 1), AgreeOutcome::Ignore);
}

#[test]
fn agree_by_sender_is_refused() {
    let me = trader(1, "A", "acc_a", TRADE_STATE_SENDER, Some(2));
    let other = trader(2, "B", "acc_b", TRADE_STATE_TARGET, Some(1));
    assert_eq!(exchange_agree(&me, Some(&other), false, 1), AgreeOutcome::Refuse);
}

#[test]
fn agree_aborts_on_bad_partner() {
    let me = trader(2, "B", "acc_b", TRADE_STATE_TARGET, Some(1));
    let mut dead = trader(1, "A", "acc_a", TRADE_STATE_SENDER, Some(2));
    dead.dead = true;
    assert_eq!(exchange_agree(&me, Some(&dead), false, 1), AgreeOutcome::Abort);
    let mut far = trader(1, "A", "acc_a", TRADE_STATE_SENDER, Some(2));
    far.zone = 30;
    assert_eq!(exchange_agree(&me, Some(&far), false, 1), AgreeOutcome::Abort);
    let same = trader(1, "A", "Acc_B", TRADE_STATE_SENDER, Some(2));
    assert_eq!(exchange_agree(&me, Some(&same), false, 1), AgreeOutcome::Abort);
}

#[test]
fn decide_waits_then_settles() {
    let me = trader(1, "A", "acc_a", TRADE_STATE_TRADING, Some(2));
    let p = trader(2, "B", "acc_b", TRADE_STATE_TRADING, Some(1));
    assert_eq!(exchange_decide(&me, Some(&p)), DecideStep::AwaitPartner);
    let p_decided = trader(2, "B", "acc_b", TRADE_STATE_DECIDING, Some(1));
    assert_eq!(exchange_decide(&me, Some(&p_decided)), DecideStep::Settle);
    let me_not = trader(1, "A", "acc_a", TRADE_STATE_DECIDING, Some(2));
    assert_eq!(exchange_decide(&me_not, Some(&p_decided)), DecideStep::Ignore);
    let mut mining = trader(2, "B", "acc_b", TRADE_STATE_DECIDING, Some(1));
    mining.mining = true;
    assert_eq!(exchange_decide(&me, Some(&mining)), DecideStep::Ignore);
}

#[test]
fn cancel_plan() {
    let none = exchange_cancel(TRADE_STATE_NONE, Some(TRADE_STATE_TRADING));
    assert!(!none.cancel_me && !none.cancel_partner);
    let both = exchange_cancel(TRADE_STATE_TRADING, Some(TRADE_STATE_TRADING));
    assert!(both.cancel_me && both.cancel_partner);
    let me_only = exchange_cancel(TRADE_STATE_TRADING, Some(TRADE_STATE_NONE));
    assert!(me_only.cancel_me && !me_only.cancel_partner);
}

// ── Adding to the window ────────────────────────────────────────────────

#[test]
fn gold_offer_moves_gold_and_merges() {
    let mut side = TradeSide { gold: 100_000, inventory: bag(&[]), exchange: vec![] };
    let a = exchange_add_item(&mut side, GOLD_POS, ITEM_GOLD, 30_000, None).unwrap();
    assert_eq!(a, AddedOffer { durability: 0, serial_num: 0, new_entry: true });
    assert_eq!(side.gold, 70_000);
    assert_eq!(side.exchange.len(), 1);
    assert_eq!(side.exchange[0].count, 30_000);
    assert_eq!(side.exchange[0].src_pos, 255);
    let b = exchange_add_item(&mut side, GOLD_POS, ITEM_GOLD, 5_000, None).unwrap();
    assert!(!b.new_entry);
    assert_eq!(side.gold, 65_000);
    assert_eq!(side.exchange.len(), 1);
    assert_eq!(side.exchange[0].count, 35_000);
}

#[test]
fn gold_offer_refusals() {
    let mut side = TradeSide { gold: 1_000, inventory: bag(&[]), exchange: vec![] };
    assert_eq!(exchange_add_item(&mut side, 3, ITEM_GOLD, 10, None), None);
    assert_eq!(exchange_add_item(&mut side, GOLD_POS, ITEM_GOLD, 1_001, None), None);
    assert_eq!(exchange_add_item(&mut side, GOLD_POS, ITEM_GOLD, 0, None), None);
    assert_eq!(side.gold, 1_000);
    assert!(side.exchange.is_empty());
}

#[test]
fn item_offer_takes_from_bag() {
    let mut side = TradeSide { gold: 0, inventory: bag(&[(SLOT_MAX + 2, stack(379090000, 5))]), exchange: vec![] };
    let a = exchange_add_item(&mut side, 2, 379090000, 3, props(1)).unwrap();
    assert_eq!(a, AddedOffer { durability: 1000, serial_num: 77, new_entry: true });
    assert_eq!(side.inventory[SLOT_MAX + 2].count, 2);
    assert_eq!(side.exchange[0].src_pos, (SLOT_MAX + 2) as u8);
    // The rest of the stack merges into the same entry and empties the slot.
    let b = exchange_add_item(&mut side, 2, 379090000, 2, props(1)).unwrap();
    assert!(!b.new_entry);
    assert_eq!(side.exchange.len(), 1);
    assert_eq!(side.exchange[0].count, 5);
    assert_eq!(side.inventory[SLOT_MAX + 2], UserItemSlot::empty());
}

#[test]
fn item_offer_refusals() {
    let mut sealed = stack(379090000, 5);
    sealed.flag = ITEM_FLAG_SEALED;
    let mut bound = stack(379090001, 5);
    bound.flag = ITEM_FLAG_BOUND;
    let mut side = TradeSide {
        gold: 0,
        inventory: bag(&[(SLOT_MAX, sealed), (SLOT_MAX + 1, bound), (SLOT_MAX + 2, stack(100_001, 5))]),
        exchange: vec![],
    };
    assert_eq!(exchange_add_item(&mut side, 0, 379090000, 1, props(0)), None);
    assert_eq!(exchange_add_item(&mut side, 1, 379090001, 1, props(0)), None);
    // Wrong item, too many, no-trade range, untradeable race, unknown item, bad position.
    assert_eq!(exchange_add_item(&mut side, 2, 100_002, 1, props(0)), None);
    assert_eq!(exchange_add_item(&mut side, 2, 100_001, 6, props(0)), None);
    assert_eq!(exchange_add_item(&mut side, 2, 900_000_005, 1, props(0)), None);
    assert_eq!(
        exchange_add_item(&mut side, 2, 100_001, 1, Some(ItemProps { kind: 0, race: 20, countable: 0, weight: 1 })),
        None
    );
    assert_eq!(exchange_add_item(&mut side, 2, 100_001, 1, None), None);
    assert_eq!(exchange_add_item(&mut side, 28, 100_001, 1, props(0)), None);
    assert!(side.exchange.is_empty());
    assert_eq!(side.inventory[SLOT_MAX + 2].count, 5);
}

#[test]
fn window_holds_twelve_items_plus_gold() {
    let mut slots = Vec::new();
    for i in 0..14 {
        slots.push((SLOT_MAX + i, stack(200_000 + i as u32, 1)));
    }
    // Twelve items fill a window without gold; gold cannot come after.
    let mut side = TradeSide { gold: 10, inventory: bag(&slots), exchange: vec![] };
    for i in 0..12u8 {
        assert!(exchange_add_item(&mut side, i, 200_000 + i as u32, 1, props(0)).is_some());
    }
    assert_eq!(exchange_add_item(&mut side, 12, 200_012, 1, props(0)), None);
    assert_eq!(exchange_add_item(&mut side, GOLD_POS, ITEM_GOLD, 10, None), None);
    // With gold offered first, twelve items still fit beside it.
    let mut side = TradeSide { gold: 10, inventory: bag(&slots), exchange: vec![] };
    assert!(exchange_add_item(&mut side, GOLD_POS, ITEM_GOLD, 10, None).is_some());
    for i in 0..12u8 {
        assert!(exchange_add_item(&mut side, i, 200_000 + i as u32, 1, props(0)).is_some());
    }
    assert_eq!(side.exchange.len(), 13);
    assert_eq!(exchange_add_item(&mut side, 12, 200_012, 1, props(0)), None);
}

#[test]
fn add_precheck_and_item_together() {
    let me = trader(1, "A", "acc_a", TRADE_STATE_TRADING, Some(2));
    let p = trader(2, "B", "acc_b", TRADE_STATE_DECIDING, Some(1));
    let mut side = TradeSide { gold: 500, inventory: bag(&[]), exchange: vec![] };
    let r = exchange_add(&me, Some(&p), false, &mut side, GOLD_POS, ITEM_GOLD, 100, None);
    assert_eq!(r, AddResult::Added(AddedOffer { durability: 0, serial_num: 0, new_entry: true }));
    let mut busy = trader(1, "A", "acc_a", TRADE_STATE_TRADING, Some(2));
    busy.fishing = true;
    assert_eq!(exchange_add(&busy, Some(&p), false, &mut side, GOLD_POS, ITEM_GOLD, 100, None), AddResult::Failed);
    let idle = trader(2, "B", "acc_b", TRADE_STATE_NONE, Some(1));
    assert_eq!(exchange_add(&me, Some(&idle), false, &mut side, GOLD_POS, ITEM_GOLD, 100, None), AddResult::Failed);
    assert_eq!(exchange_add(&me, None, false, &mut side, GOLD_POS, ITEM_GOLD, 100, None), AddResult::Ignored);
    assert_eq!(side.gold, 400);
}

// ── Settlement ──────────────────────────────────────────────────────────

fn receiver() -> ReceiverState {
    ReceiverState {
        has_partner: true,
        dead: false,
        trading: true,
        gold: Some(1_000),
        free_slots: 2,
        item_weight: 50,
        max_weight: 100,
    }
}

fn incoming(item_id: u32, count: u32, weight: u32) -> IncomingItem {
    IncomingItem {
        item: ExchangeItem { item_id, count, durability: 100, serial_num: 9, src_pos: 14, dst_pos: 0 },
        props: Some(ItemProps { kind: 0, race: 0, countable: 0, weight }),
        dst_slot: Some(20),
        src_item_id: Some(item_id),
        dst_item_id: 0,
    }
}

#[test]
fn check_exchange_weight_slots_and_gold() {
    let r = receiver();
    assert!(check_exchange(&r, &[incoming(1, 1, 20), incoming(2, 1, 30)]));
    assert!(!check_exchange(&r, &[incoming(1, 1, 20), incoming(2, 1, 31)]));
    assert!(!check_exchange(&r, &[incoming(1, 1, 1), incoming(2, 1, 1), incoming(3, 1, 1)]));
    assert!(check_exchange(&r, &[incoming(ITEM_GOLD, 2_099_999_000, 0)]));
    assert!(!check_exchange(&r, &[incoming(ITEM_GOLD, 2_099_999_001, 0)]));
    let mut unknown = incoming(5, 1, 1);
    unknown.props = None;
    assert!(!check_exchange(&r, &[unknown]));
    let mut dead = receiver();
    dead.dead = true;
    assert!(!check_exchange(&dead, &[]));
}

#[test]
fn check_execute_exchange_placement() {
    let me = trader(1, "A", "acc_a", TRADE_STATE_DECIDING, Some(2));
    let p = trader(2, "B", "acc_b", TRADE_STATE_DECIDING, Some(1));
    assert!(check_execute_exchange(&me, Some(&p), false, &[incoming(7, 1, 1)]));
    let trading = trader(1, "A", "acc_a", TRADE_STATE_TRADING, Some(2));
    assert!(!check_execute_exchange(&trading, Some(&p), false, &[]));
    let mut far = trader(2, "B", "acc_b", TRADE_STATE_DECIDING, Some(1));
    far.zone = 22;
    assert!(!check_execute_exchange(&me, Some(&far), false, &[]));
    let mut occupied_unique = incoming(7, 1, 1);
    occupied_unique.props = Some(ItemProps { kind: 255, race: 0, countable: 0, weight: 1 });
    occupied_unique.dst_item_id = 7;
    assert!(!check_execute_exchange(&me, Some(&p), false, &[occupied_unique]));
    let mut other_item = incoming(7, 1, 1);
    other_item.dst_item_id = 8;
    assert!(!check_execute_exchange(&me, Some(&p), false, &[other_item]));
    let mut moved = incoming(7, 1, 1);
    moved.src_item_id = Some(0);
    assert!(!check_execute_exchange(&me, Some(&p), false, &[moved]));
}

#[test]
fn received_items_land_in_slots() {
    let mut inv = bag(&[(20, stack(500, 9_998))]);
    let it = ExchangeItem { item_id: 500, count: 5, durability: 3, serial_num: 4, src_pos: 14, dst_pos: 0 };
    let r = receive_exchange_item(&mut inv, 20, &it, 1);
    assert_eq!(inv[20].count, 9_999);
    assert_eq!(inv[20].serial_num, 77);
    assert_eq!(r, ReceivedItem { dst_pos: 6, item_id: 500, count: 5, durability: 3, serial_num: 4 });
    let single = ExchangeItem { item_id: 600, count: 3, durability: 8, serial_num: 9, src_pos: 15, dst_pos: 0 };
    let r2 = receive_exchange_item(&mut inv, 21, &single, 0);
    assert_eq!(inv[21].item_id, 600);
    assert_eq!(inv[21].count, 1);
    assert_eq!(inv[21].durability, 8);
    assert_eq!(inv[21].serial_num, 9);
    assert_eq!(r2.count, 1);
}

#[test]
fn emptied_sources_cleared() {
    let mut emptied = stack(700, 0);
    emptied.durability = 5;
    let mut inv = bag(&[(14, emptied), (15, stack(701, 2))]);
    let items = [
        ExchangeItem { item_id: 700, count: 1, durability: 5, serial_num: 0, src_pos: 14, dst_pos: 0 },
        ExchangeItem { item_id: 701, count: 1, durability: 5, serial_num: 0, src_pos: 15, dst_pos: 0 },
    ];
    clear_emptied_sources(&mut inv, &items);
    assert_eq!(inv[14], UserItemSlot::empty());
    assert_eq!(inv[15].count, 2);
}

// ── Packets ─────────────────────────────────────────────────────────────

#[test]
fn exchange_packets() {
    let req = build_exchange_request_packet(42);
    assert_eq!(req.opcode, WIZ_EXCHANGE);
    assert_eq!(req.data, vec![1, 42, 0, 0, 0]);
    assert_eq!(build_exchange_agree_packet(true).data, vec![2, 1, 0]);
    assert_eq!(build_exchange_agree_packet(false).data, vec![2, 0, 0]);
    assert_eq!(build_exchange_add_result_packet(true).data, vec![3, 1]);
    assert_eq!(build_exchange_add_result_packet(false).data, vec![3, 0]);
    assert_eq!(build_exchange_other_decide_packet().data, vec![6]);
    assert_eq!(build_exchange_failed_packet().data, vec![7, 0]);
    assert_eq!(build_exchange_cancel_packet().data, vec![8]);

    let merged = build_exchange_other_add_packet(200_001, 10, 500, false, &[9, 9]);
    let mut r = PacketReader::new(&merged.data);
    assert_eq!(r.read_u8(), Some(EXCHANGE_OTHERADD));
    assert_eq!(r.read_u32(), Some(200_001));
    assert_eq!(r.read_u32(), Some(10));
    assert_eq!(r.read_u16(), Some(500));
    assert_eq!(r.read_u32(), Some(0));
    assert_eq!(r.remaining(), 0);
    let fresh = build_exchange_other_add_packet(200_001, 10, 500, true, &[9, 9]);
    assert_eq!(&fresh.data[11..], &[9, 9]);
}

#[test]
fn exchange_done_packet_layout() {
    let received = [
        ReceivedItem { dst_pos: 3, item_id: 100_001, count: 5, durability: 1000, serial_num: 0 },
        ReceivedItem { dst_pos: 7, item_id: 200_002, count: 1, durability: 500, serial_num: 0 },
    ];
    let blocks = vec![vec![0, 0, 0, 0], vec![0, 0, 0, 0]];
    let pkt = build_exchange_done_packet(50_000, &received, &blocks);
    let mut r = PacketReader::new(&pkt.data);
    assert_eq!(r.read_u8(), Some(EXCHANGE_DONE));
    assert_eq!(r.read_u8(), Some(1));
    assert_eq!(r.read_u32(), Some(50_000));
    assert_eq!(r.read_u16(), Some(2));
    assert_eq!(r.read_u8(), Some(3));
    assert_eq!(r.read_u32(), Some(100_001));
    assert_eq!(r.read_u16(), Some(5));
    assert_eq!(r.read_u16(), Some(1000));
    assert_eq!(r.read_u8(), Some(0));
    assert_eq!(r.read_u32(), Some(0));
    assert_eq!(r.read_u8(), Some(7));
    assert_eq!(r.read_u32(), Some(200_002));
    assert_eq!(r.read_u16(), Some(1));
    assert_eq!(r.read_u16(), Some(500));
    assert_eq!(r.read_u8(), Some(0));
    assert_eq!(r.read_u32(), Some(0));
    assert_eq!(r.remaining(), 0);
}

#[test]
fn inventory_refresh_lists_every_bag_slot() {
    let mut s = stack(379006000, 3);
    s.expire_time = 0x01020304;
    let slots = vec![s, UserItemSlot::empty()];
    let blocks = vec![vec![0, 0, 0, 0], vec![9]];
    let pkt = ko_game::trade::build_inventory_refresh_packet(&slots, &blocks);
    assert_eq!(pkt.opcode, ko_game::trade::WIZ_ITEM_MOVE);
    let mut expected = vec![2, 1];
    expected.extend(379006000u32.to_le_bytes());
    expected.extend(1000u16.to_le_bytes());
    expected.extend(3u16.to_le_bytes());
    expected.extend([0, 0, 0]);
    expected.extend([0, 0, 0, 0]);
    expected.extend([4, 3, 2, 1]);
    expected.extend([0; 4]);
    expected.extend([0, 0, 0, 0, 0, 0, 0]);
    expected.push(9);
    expected.extend([0; 4]);
    assert_eq!(pkt.data, expected);
}

fn exchange_pkt() -> ko_game::packet::Packet {
    ko_game::packet::Packet::new(ko_game::trade::WIZ_EXCHANGE)
}

#[test]
fn test_exchange_req_packet_format() {
    let pkt = ko_game::trade::build_exchange_request_packet(42);
    assert_eq!(pkt.opcode, ko_game::trade::WIZ_EXCHANGE);
    let mut manual = exchange_pkt();
    manual.write_u8(ko_game::trade::EXCHANGE_REQ);
    manual.write_u32(42);
    assert_eq!(manual.data.len(), 5);
    let mut r = PacketReader::new(&manual.data);
    assert_eq!(r.read_u8(), Some(ko_game::trade::EXCHANGE_REQ));
    assert_eq!(r.read_u32(), Some(42));
    assert_eq!(r.remaining(), 0);
    let mut r = PacketReader::new(&pkt.data);
    assert_eq!(r.read_u8(), Some(ko_game::trade::EXCHANGE_REQ));
}

#[test]
fn test_exchange_agree_packet_format() {
    let pkt = ko_game::trade::build_exchange_agree_packet(true);
    let mut r = PacketReader::new(&pkt.data);
    assert_eq!(r.read_u8(), Some(ko_game::trade::EXCHANGE_AGREE));
    assert_eq!(r.read_u16(), Some(1));
    assert_eq!(r.remaining(), 0);
}

#[test]
fn test_exchange_agree_decline_format() {
    let pkt = ko_game::trade::build_exchange_agree_packet(false);
    let mut r = PacketReader::new(&pkt.data);
    assert_eq!(r.read_u8(), Some(ko_game::trade::EXCHANGE_AGREE));
    assert_eq!(r.read_u16(), Some(0));
    assert_eq!(r.remaining(), 0);
}

#[test]
fn test_exchange_add_client_packet() {
    let mut pkt = exchange_pkt();
    pkt.write_u8(ko_game::trade::EXCHANGE_ADD);
    pkt.write_u8(5);
    pkt.write_u32(100_001);
    pkt.write_u32(3);
    let mut r = PacketReader::new(&pkt.data);
    assert_eq!(r.read_u8(), Some(ko_game::trade::EXCHANGE_ADD));
    assert_eq!(r.read_u8(), Some(5));
    assert_eq!(r.read_u32(), Some(100_001));
    assert_eq!(r.read_u32(), Some(3));
    assert_eq!(r.remaining(), 0);
}

#[test]
fn test_exchange_otheradd_packet_format() {
    let mut pkt = exchange_pkt();
    pkt.write_u8(ko_game::trade::EXCHANGE_OTHERADD);
    pkt.write_u32(200_001);
    pkt.write_u32(10);
    pkt.write_u16(500);
    pkt.write_u32(0);
    let mut r = PacketReader::new(&pkt.data);
    assert_eq!(r.read_u8(), Some(ko_game::trade::EXCHANGE_OTHERADD));
    assert_eq!(r.read_u32(), Some(200_001));
    assert_eq!(r.read_u32(), Some(10));
    assert_eq!(r.read_u16(), Some(500));
    assert_eq!(r.read_u32(), Some(0));
    assert_eq!(r.remaining(), 0);
}

#[test]
fn test_exchange_done_success_packet() {
    let received = [
        ko_game::trade::ReceivedItem { dst_pos: 3, item_id: 100_001, count: 5, durability: 1000, serial_num: 1 },
        ko_game::trade::ReceivedItem { dst_pos: 7, item_id: 200_002, count: 1, durability: 500, serial_num: 2 },
    ];
    let blocks = vec![vec![0u8, 0, 0, 0], vec![0u8, 0, 0, 0]];
    let pkt = ko_game::trade::build_exchange_done_packet(50_000, &received, &blocks);
    let mut r = PacketReader::new(&pkt.data);
    assert_eq!(r.read_u8(), Some(ko_game::trade::EXCHANGE_DONE));
    assert_eq!(r.read_u8(), Some(1));
    assert_eq!(r.read_u32(), Some(50_000));
    assert_eq!(r.read_u16(), Some(2));
    assert_eq!(r.read_u8(), Some(3));
    assert_eq!(r.read_u32(), Some(100_001));
    assert_eq!(r.read_u16(), Some(5));
    assert_eq!(r.read_u16(), Some(1000));
    assert_eq!(r.read_u8(), Some(0));
    assert_eq!(r.read_u32(), Some(0));
    assert_eq!(r.read_u8(), Some(7));
    assert_eq!(r.read_u32(), Some(200_002));
    assert_eq!(r.read_u16(), Some(1));
    assert_eq!(r.read_u16(), Some(500));
    assert_eq!(r.read_u8(), Some(0));
    assert_eq!(r.read_u32(), Some(0));
    assert_eq!(r.remaining(), 0);
}

#[test]
fn test_exchange_done_failure_packet() {
    let pkt = ko_game::trade::build_exchange_failed_packet();
    let mut r = PacketReader::new(&pkt.data);
    assert_eq!(r.read_u8(), Some(ko_game::trade::EXCHANGE_DONE));
    assert_eq!(r.read_u8(), Some(0));
    assert_eq!(r.remaining(), 0);
}

#[test]
fn test_exchange_cancel_packet_format() {
    let pkt = ko_game::trade::build_exchange_cancel_packet();
    assert_eq!(pkt.data.len(), 1);
    let mut r = PacketReader::new(&pkt.data);
    assert_eq!(r.read_u8(), Some(ko_game::trade::EXCHANGE_CANCEL));
    assert_eq!(r.remaining(), 0);
}

#[test]
fn test_exchange_gold_add_pos() {
    let mut pkt = exchange_pkt();
    pkt.write_u8(ko_game::trade::EXCHANGE_ADD);
    pkt.write_u8(255);
    pkt.write_u32(ITEM_GOLD);
    pkt.write_u32(10_000);
    let mut r = PacketReader::new(&pkt.data);
    assert_eq!(r.read_u8(), Some(ko_game::trade::EXCHANGE_ADD));
    let pos = r.read_u8().unwrap();
    let item_id = r.read_u32().unwrap();
    let count = r.read_u32().unwrap();
    assert_eq!(pos, 255);
    assert_eq!(item_id, ITEM_GOLD);
    assert_eq!(count, 10_000);
}

#[test]
fn test_check_execute_exchange_requires_deciding_state() {
    let me = trader(1, "Player1", "acc1", TRADE_STATE_TRADING, Some(2));
    let p = trader(2, "Player2", "acc2", TRADE_STATE_TRADING, Some(1));
    assert!(!check_execute_exchange(&me, Some(&p), false, &[]));
    let me = trader(1, "Player1", "acc1", TRADE_STATE_DECIDING, Some(2));
    let p = trader(2, "Player2", "acc2", TRADE_STATE_DECIDING, Some(1));
    assert!(check_execute_exchange(&me, Some(&p), false, &[]));
}

#[test]
fn test_check_execute_exchange_rejects_cross_zone() {
    let me = trader(1, "Player1", "acc1", TRADE_STATE_DECIDING, Some(2));
    let mut p = trader(2, "Player2", "acc2", TRADE_STATE_DECIDING, Some(1));
    p.zone = 22;
    assert!(!check_execute_exchange(&me, Some(&p), false, &[]));
}

#[test]
fn test_exchange_decide_has_double_validation() {
    let me = trader(1, "P1", "acc1", TRADE_STATE_DECIDING, Some(2));
    let p = trader(2, "P2", "acc2", TRADE_STATE_DECIDING, Some(1));
    assert!(check_exchange(&receiver(), &[]));
    assert!(check_execute_exchange(&me, Some(&p), false, &[]));
}

#[test]
fn test_exchange_agree_sender_cannot_accept() {
    let sender = trader(1, "Sender", "acc1", TRADE_STATE_SENDER, Some(2));
    let target = trader(2, "Target", "acc2", TRADE_STATE_TARGET, Some(1));
    assert_eq!(ko_game::trade::exchange_agree(&sender, Some(&target), false, 1), ko_game::trade::AgreeOutcome::Refuse);
    assert_eq!(ko_game::trade::exchange_agree(&target, Some(&sender), false, 1), ko_game::trade::AgreeOutcome::Accept);
}

#[test]
fn test_exchange_agree_blocks_different_zones() {
    let sender = trader(1, "Sender", "acc1", TRADE_STATE_SENDER, Some(2));
    let mut target = trader(2, "Target", "acc2", TRADE_STATE_TARGET, Some(1));
    target.zone = 22;
    assert_eq!(ko_game::trade::exchange_agree(&target, Some(&sender), false, 1), ko_game::trade::AgreeOutcome::Abort);
}

#[test]
fn test_exchange_deciding_state_allows_partner_add() {
    let me = trader(2, "Player2", "acc2", TRADE_STATE_TRADING, Some(1));
    let partner = trader(1, "Player1", "acc1", TRADE_STATE_DECIDING, Some(2));
    assert_eq!(exchange_add_precheck(&me, Some(&partner), false), AddPrecheck::Proceed);
}

#[test]
fn test_exchange_add_nation_revalidation() {
    let me = trader(1, "KarusPlayer", "acc1", TRADE_STATE_TRADING, Some(2));
    let mut partner = trader(2, "ElmoPlayer", "acc2", TRADE_STATE_TRADING, Some(1));
    partner.nation = 2;
    assert_ne!(me.nation, partner.nation, "Nations must differ for this test");
    assert_eq!(exchange_add_precheck(&me, Some(&partner), false), AddPrecheck::Cancel);
    assert_eq!(exchange_add_precheck(&me, Some(&partner), true), AddPrecheck::Proceed);
}

// ── Giving back and settling ────────────────────────────────────────────

use ko_game::trade::{give_items_back, reset_trade, settle_trade, SettleCheck, SettleOutcome, TradeStatus};

#[test]
fn test_integration_trade_gold_add_and_cancel_returns() {
    let mut side = TradeSide { gold: 100_000, inventory: bag(&[]), exchange: vec![] };
    let mut status1 = TradeStatus { state: TRADE_STATE_TRADING, partner: Some(2) };
    let mut status2 = TradeStatus { state: TRADE_STATE_TRADING, partner: Some(1) };
    let added = exchange_add_item(&mut side, 255, ITEM_GOLD, 30_000, None);
    assert!(added.is_some());
    assert_eq!(side.gold, 70_000);
    assert_eq!(side.exchange.len(), 1);
    assert_eq!(side.exchange[0].item_id, ITEM_GOLD);
    assert_eq!(side.exchange[0].count, 30_000);
    give_items_back(&mut side);
    reset_trade(&mut status1);
    reset_trade(&mut status2);
    assert_eq!(side.gold, 100_000);
    assert!(side.exchange.is_empty());
    assert_eq!(status1, TradeStatus { state: TRADE_STATE_NONE, partner: None });
    assert_eq!(status2, TradeStatus { state: TRADE_STATE_NONE, partner: None });
}

#[test]
fn test_exchange_give_items_back_full_stack_restore() {
    let test_item_id: u32 = 379090000;
    let slot = UserItemSlot {
        item_id: test_item_id,
        durability: 1000,
        count: 5,
        flag: 0,
        serial_num: 12345,
        expire_time: 0,
    };
    let mut side = TradeSide { gold: 100_000, inventory: bag(&[(SLOT_MAX, slot)]), exchange: vec![] };
    assert!(exchange_add_item(&mut side, 0, test_item_id, 5, props(1)).is_some());
    assert_eq!(side.inventory[SLOT_MAX].item_id, 0, "slot should be empty after full trade");
    give_items_back(&mut side);
    let slot_after = side.inventory[SLOT_MAX];
    assert_eq!(slot_after.item_id, test_item_id, "item_id should be restored");
    assert_eq!(slot_after.count, 5, "count should be restored");
    assert_eq!(slot_after.durability, 1000, "durability should be restored");
    assert_eq!(slot_after.serial_num, 12345, "serial_num should be restored");
}

#[test]
fn give_back_adds_to_a_remaining_stack_and_skips_a_taken_slot() {
    let mut side = TradeSide { gold: 0, inventory: bag(&[(SLOT_MAX + 1, stack(500, 5))]), exchange: vec![] };
    assert!(exchange_add_item(&mut side, 1, 500, 2, props(1)).is_some());
    assert_eq!(side.inventory[SLOT_MAX + 1].count, 3);
    let mut taken = side.inventory.clone();
    taken[SLOT_MAX + 1] = stack(999, 1);
    let mut other = TradeSide { gold: 0, inventory: taken, exchange: side.exchange.clone() };
    give_items_back(&mut side);
    assert_eq!(side.inventory[SLOT_MAX + 1], stack(500, 5));
    give_items_back(&mut other);
    assert_eq!(other.inventory[SLOT_MAX + 1], stack(999, 1));
    assert!(other.exchange.is_empty());
}

fn deciding(sid: u16, partner: u16) -> TraderView {
    trader(sid, if sid == 1 { "A" } else { "B" }, if sid == 1 { "acc_a" } else { "acc_b" }, TRADE_STATE_DECIDING, Some(partner))
}

fn recv_with(gold: u32) -> ReceiverState {
    ReceiverState {
        has_partner: true,
        dead: false,
        trading: true,
        gold: Some(gold),
        free_slots: 10,
        item_weight: 0,
        max_weight: 1_000,
    }
}

fn arrive(e: ExchangeItem, countable: i32, dst: usize, giver: &[UserItemSlot], receiver: &[UserItemSlot]) -> IncomingItem {
    let gold = e.item_id == ITEM_GOLD;
    IncomingItem {
        item: e,
        props: if gold { None } else { props(countable) },
        dst_slot: if gold { None } else { Some(dst) },
        src_item_id: if gold { None } else { Some(giver[e.src_pos as usize].item_id) },
        dst_item_id: if gold { 0 } else { receiver[dst].item_id },
    }
}

fn two_sides() -> (TradeSide, TradeSide) {
    let mut a = TradeSide { gold: 100_000, inventory: bag(&[(SLOT_MAX + 1, stack(500, 5))]), exchange: vec![] };
    let mut b = TradeSide { gold: 50_000, inventory: bag(&[(SLOT_MAX + 2, stack(601, 3))]), exchange: vec![] };
    assert!(exchange_add_item(&mut a, GOLD_POS, ITEM_GOLD, 30_000, None).is_some());
    assert!(exchange_add_item(&mut a, 1, 500, 2, props(1)).is_some());
    assert!(exchange_add_item(&mut b, 2, 601, 1, props(1)).is_some());
    (a, b)
}

fn checks(a: &TradeSide, b: &TradeSide, a_view: TraderView, b_view: TraderView) -> (SettleCheck, SettleCheck) {
    let a_in: Vec<IncomingItem> = b.exchange.iter().map(|e| arrive(*e, 1, 20, &b.inventory, &a.inventory)).collect();
    let b_in: Vec<IncomingItem> = a.exchange.iter().map(|e| arrive(*e, 1, 21, &a.inventory, &b.inventory)).collect();
    (
        SettleCheck { view: a_view, recv: recv_with(a.gold), incoming: a_in },
        SettleCheck { view: b_view, recv: recv_with(b.gold), incoming: b_in },
    )
}

#[test]
fn settled_trade_moves_gold_and_items() {
    let (mut a, mut b) = two_sides();
    assert_eq!(a.gold, 70_000);
    let (ac, bc) = checks(&a, &b, deciding(1, 2), deciding(2, 1));
    let mut sa = TradeStatus { state: TRADE_STATE_DECIDING, partner: Some(2) };
    let mut sb = TradeStatus { state: TRADE_STATE_DECIDING, partner: Some(1) };
    let out = settle_trade(&mut a, &mut b, &mut sa, &mut sb, &ac, &bc, false);
    match out {
        SettleOutcome::Done { a_received, b_received } => {
            assert_eq!(a_received, vec![ReceivedItem { dst_pos: 6, item_id: 601, count: 1, durability: 1000, serial_num: 77 }]);
            assert_eq!(b_received, vec![ReceivedItem { dst_pos: 7, item_id: 500, count: 2, durability: 1000, serial_num: 77 }]);
        },
        SettleOutcome::Failed { .. } => panic!("the trade should settle"),
    }
    assert_eq!(a.gold, 70_000);
    assert_eq!(b.gold, 80_000);
    // the purses hold what they held plus the windows' gold
    assert_eq!(a.gold + b.gold, 70_000 + 50_000 + 30_000);
    assert_eq!(a.inventory[20], stack(601, 1));
    assert_eq!(a.inventory[SLOT_MAX + 1], stack(500, 3));
    assert_eq!(b.inventory[21], stack(500, 2));
    assert_eq!(b.inventory[SLOT_MAX + 2], stack(601, 2));
    assert!(a.exchange.is_empty() && b.exchange.is_empty());
    assert_eq!(sa, TradeStatus { state: TRADE_STATE_NONE, partner: None });
    assert_eq!(sb, TradeStatus { state: TRADE_STATE_NONE, partner: None });
}

#[test]
fn failed_settlement_gives_each_offer_back() {
    let (mut a, mut b) = two_sides();
    let mut other_nation = deciding(2, 1);
    other_nation.nation = 2;
    let (ac, bc) = checks(&a, &b, deciding(1, 2), other_nation);
    let mut sa = TradeStatus { state: TRADE_STATE_DECIDING, partner: Some(2) };
    let mut sb = TradeStatus { state: TRADE_STATE_DECIDING, partner: Some(1) };
    let out = settle_trade(&mut a, &mut b, &mut sa, &mut sb, &ac, &bc, false);
    match out {
        SettleOutcome::Failed { packet } => {
            assert_eq!(packet.opcode, WIZ_EXCHANGE);
            assert_eq!(packet.data, vec![EXCHANGE_DONE, 0]);
        },
        SettleOutcome::Done { .. } => panic!("the nations differ"),
    }
    assert_eq!(a.gold, 100_000);
    assert_eq!(b.gold, 50_000);
    assert_eq!(a.inventory[SLOT_MAX + 1], stack(500, 5));
    assert_eq!(b.inventory[SLOT_MAX + 2], stack(601, 3));
    assert!(a.exchange.is_empty() && b.exchange.is_empty());
    assert_eq!(sa, TradeStatus { state: TRADE_STATE_NONE, partner: None });
    assert_eq!(sb, TradeStatus { state: TRADE_STATE_NONE, partner: None });
}

#[test]
fn gold_offer_reports_its_effect_through_exchange_add() {
    let me = trader(1, "A", "acc_a", TRADE_STATE_TRADING, Some(2));
    let p = trader(2, "B", "acc_b", TRADE_STATE_TRADING, Some(1));
    let mut side = TradeSide { gold: 1_000, inventory: bag(&[]), exchange: vec![] };
    let r = exchange_add(&me, Some(&p), false, &mut side, GOLD_POS, ITEM_GOLD, 400, None);
    assert_eq!(r, AddResult::Added(AddedOffer { durability: 0, serial_num: 0, new_entry: true }));
    assert_eq!(side.gold, 600);
    assert_eq!(side.exchange[0].src_pos, GOLD_POS);
    assert_eq!(side.exchange[0].count, 400);
}

#[test]
fn several_offers_given_back_restore_the_trader() {
    let start_inv = bag(&[(SLOT_MAX + 1, stack(500, 5)), (SLOT_MAX + 2, stack(600, 1)), (SLOT_MAX + 3, stack(700, 9))]);
    let mut side = TradeSide { gold: 1_000, inventory: start_inv.clone(), exchange: vec![] };
    assert!(exchange_add_item(&mut side, GOLD_POS, ITEM_GOLD, 100, None).is_some());
    assert!(exchange_add_item(&mut side, 1, 500, 2, props(1)).is_some());
    assert!(exchange_add_item(&mut side, 2, 600, 1, props(0)).is_some());
    assert!(exchange_add_item(&mut side, GOLD_POS, ITEM_GOLD, 50, None).is_some());
    assert!(exchange_add_item(&mut side, 1, 500, 3, props(1)).is_some());
    assert!(exchange_add_item(&mut side, 3, 700, 4, props(1)).is_some());
    assert_eq!(side.gold, 850);
    assert_eq!(side.inventory[SLOT_MAX + 1], UserItemSlot::empty());
    assert_eq!(side.inventory[SLOT_MAX + 2], UserItemSlot::empty());
    assert_eq!(side.inventory[SLOT_MAX + 3].count, 5);
    assert_eq!(side.exchange.len(), 4);
    give_items_back(&mut side);
    assert_eq!(side.gold, 1_000);
    assert_eq!(side.inventory, start_inv);
}
