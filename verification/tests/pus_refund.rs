use std::collections::HashMap;

use ko_game::inventory::UserItemSlot;
use ko_game::pus_refund::{
    build_cleared_slot_packet, build_refund_error_packet, build_refund_list_packet,
    build_refund_success_packet, collect_refundable, item_return, refund_error_code, register_purchase,
    PurchaseRow, PusRefundEntry, RefundBook, ReturnOutcome, EXT_SUB_PUS_REFUND, REFUND_COOLDOWN_SECS,
    REFUND_WINDOW_SECS, SUBOP_IRETURN, SUBOP_ITEMNOTFOUND, SUBOP_ITEMRETURNSUCCESS, SUBOP_ITEMUSED,
    SUBOP_LISTADD, SUBOP_LISTSEND, SUBOP_NOTINVENTORY, SUBOP_PROCESTIME, SUBOP_TIMEEXPIRED, WIZ_EXT_HOOK,
};

fn entry(item_id: u32, count: u16, expires: u64, buy_type: u8) -> PusRefundEntry {
    PusRefundEntry { item_id, item_price: 500, item_count: count, item_duration: 0, expired_time: expires, buy_type }
}

fn stack(item_id: u32, count: u16) -> UserItemSlot {
    UserItemSlot { item_id, durability: 10, count, flag: 0, serial_num: 0, expire_time: 0 }
}

#[test]
fn test_refund_cooldown() {
    assert_eq!(REFUND_COOLDOWN_SECS, 5);
}

#[test]
fn test_refund_window() {
    assert_eq!(REFUND_WINDOW_SECS, 3600);
}

#[test]
fn test_subop_values() {
    assert_eq!(SUBOP_IRETURN, 0);
    assert_eq!(SUBOP_LISTSEND, 1);
    assert_eq!(SUBOP_ITEMNOTFOUND, 2);
    assert_eq!(SUBOP_TIMEEXPIRED, 3);
    assert_eq!(SUBOP_PROCESTIME, 4);
    assert_eq!(SUBOP_NOTINVENTORY, 5);
    assert_eq!(SUBOP_ITEMUSED, 6);
    assert_eq!(SUBOP_ITEMRETURNSUCCESS, 7);
    assert_eq!(SUBOP_LISTADD, 8);
}

#[test]
fn register_then_return_once() {
    let mut book = RefundBook { entries: HashMap::new(), last_refund_time: 0 };
    let pkt = register_purchase(&mut book, 77, entry(900, 3, 5000, 0));
    assert_eq!(pkt.opcode, WIZ_EXT_HOOK);
    assert_eq!(&pkt.data[..2], &[EXT_SUB_PUS_REFUND, SUBOP_LISTADD]);
    assert_eq!(pkt.data.len(), 2 + 8 + 4 + 2 + 4 + 2 + 4 + 1);
    let mut inv = vec![UserItemSlot::empty(); 42];
    inv[20] = stack(900, 3);
    let r = item_return(&mut book, &mut inv, 77, 1000);
    assert_eq!(r, ReturnOutcome::Returned { pos: 6, item_id: 900, knight_cash: 500, tl: 0 });
    assert_eq!(inv[20].item_id, 0);
    assert_eq!(inv[20].count, 0);
    assert!(book.entries.is_empty());
    assert_eq!(item_return(&mut book, &mut inv, 77, 1010), ReturnOutcome::NotFound);
}

#[test]
fn return_refusals() {
    let mut book = RefundBook { entries: HashMap::new(), last_refund_time: 0 };
    book.entries.insert(1, entry(900, 3, 2000, 1));
    let mut inv = vec![UserItemSlot::empty(); 42];
    assert_eq!(item_return(&mut book, &mut inv, 1, 100), ReturnOutcome::NotInInventory);
    assert_eq!(book.last_refund_time, 100);
    // A second try within five seconds is refused and does not restart the clock.
    assert_eq!(item_return(&mut book, &mut inv, 1, 104), ReturnOutcome::TooSoon);
    assert_eq!(book.last_refund_time, 100);
    inv[15] = stack(900, 2);
    assert_eq!(item_return(&mut book, &mut inv, 1, 105), ReturnOutcome::Used);
    inv[15] = stack(900, 3);
    assert_eq!(item_return(&mut book, &mut inv, 1, 2001), ReturnOutcome::Expired);
    assert_eq!(item_return(&mut book, &mut inv, 1, 3000), ReturnOutcome::Expired);
    let r = item_return(&mut book, &mut inv, 1, 1990);
    assert_eq!(r, ReturnOutcome::TooSoon);
    let mut book2 = RefundBook { entries: HashMap::new(), last_refund_time: 0 };
    book2.entries.insert(1, entry(900, 3, 2000, 1));
    assert_eq!(
        item_return(&mut book2, &mut inv, 1, 1990),
        ReturnOutcome::Returned { pos: 1, item_id: 900, knight_cash: 0, tl: 500 }
    );
    assert_eq!(refund_error_code(ReturnOutcome::TooSoon), Some(SUBOP_PROCESTIME));
    assert_eq!(refund_error_code(ReturnOutcome::Used), Some(SUBOP_ITEMUSED));
    assert_eq!(refund_error_code(ReturnOutcome::Returned { pos: 1, item_id: 1, knight_cash: 0, tl: 0 }), None);
}

#[test]
fn refundable_rows_on_entry() {
    let rows = [
        PurchaseRow { mserial: 1, buying_time: 1000, item_id: 5, item_price: 10, item_count: 1, item_duration: 0, buy_type: 0 },
        PurchaseRow { mserial: 2, buying_time: 100, item_id: 6, item_price: 20, item_count: 2, item_duration: 7, buy_type: 1 },
    ];
    let (map, list) = collect_refundable(&rows, 4000);
    assert_eq!(list.len(), 1);
    assert_eq!(list[0].0, 1);
    assert_eq!(list[0].1.expired_time, 4600);
    assert!(map.contains_key(&1));
    assert!(!map.contains_key(&2));
    let pkt = build_refund_list_packet(&list);
    assert_eq!(&pkt.data[..4], &[EXT_SUB_PUS_REFUND, SUBOP_LISTSEND, 1, 0]);
    assert_eq!(pkt.data.len(), 4 + 20);
}

#[test]
fn refund_packets() {
    assert_eq!(build_refund_error_packet(SUBOP_ITEMNOTFOUND).data, vec![0xD4, 2]);
    let ok = build_refund_success_packet(123456, 900001);
    assert_eq!(ok.data[1], SUBOP_ITEMRETURNSUCCESS);
    assert_eq!(u64::from_le_bytes(ok.data[2..10].try_into().unwrap()), 123456);
    assert_eq!(u32::from_le_bytes(ok.data[10..14].try_into().unwrap()), 900001);
    let cleared = build_cleared_slot_packet(6);
    assert_eq!(cleared.data.len(), 2 + 1 + 1 + 4 + 4 + 1 + 2 + 4 + 4);
    assert_eq!(cleared.data[3], 6);
}

#[test]
fn test_build_error_packet() {
    let pkt = build_refund_error_packet(SUBOP_ITEMNOTFOUND);
    assert_eq!(pkt.opcode, ko_game::pus_refund::WIZ_EXT_HOOK);
    assert_eq!(pkt.data[0], EXT_SUB_PUS_REFUND);
    assert_eq!(pkt.data[1], SUBOP_ITEMNOTFOUND);
}

#[test]
fn test_build_success_packet() {
    let pkt = build_refund_success_packet(123456, 900001);
    assert_eq!(pkt.data[0], EXT_SUB_PUS_REFUND);
    assert_eq!(pkt.data[1], SUBOP_ITEMRETURNSUCCESS);
    let serial = u64::from_le_bytes([
        pkt.data[2], pkt.data[3], pkt.data[4], pkt.data[5], pkt.data[6], pkt.data[7], pkt.data[8], pkt.data[9],
    ]);
    assert_eq!(serial, 123456);
    let item_id = u32::from_le_bytes([pkt.data[10], pkt.data[11], pkt.data[12], pkt.data[13]]);
    assert_eq!(item_id, 900001);
}

#[test]
fn test_build_refund_list_empty() {
    let pkt = build_refund_list_packet(&[]);
    assert_eq!(pkt.data[0], EXT_SUB_PUS_REFUND);
    assert_eq!(pkt.data[1], ko_game::pus_refund::SUBOP_LISTSEND);
    let count = u16::from_le_bytes([pkt.data[2], pkt.data[3]]);
    assert_eq!(count, 0);
}

#[test]
fn test_build_refund_list_one_entry() {
    let entry = PusRefundEntry {
        item_id: 100001,
        item_price: 350,
        item_count: 1,
        item_duration: 0,
        expired_time: 1700000000,
        buy_type: 0,
    };
    let pkt = build_refund_list_packet(&[(999, entry)]);
    assert_eq!(pkt.data[1], ko_game::pus_refund::SUBOP_LISTSEND);
    let count = u16::from_le_bytes([pkt.data[2], pkt.data[3]]);
    assert_eq!(count, 1);
}

#[test]
fn test_build_listadd_packet() {
    let entry = PusRefundEntry {
        item_id: 200001,
        item_price: 500,
        item_count: 3,
        item_duration: 7,
        expired_time: 1700003600,
        buy_type: 1,
    };
    let pkt = ko_game::pus_refund::build_listadd_packet(42, &entry);
    assert_eq!(pkt.data[0], EXT_SUB_PUS_REFUND);
    assert_eq!(pkt.data[1], ko_game::pus_refund::SUBOP_LISTADD);
    let last_byte = *pkt.data.last().unwrap();
    assert_eq!(last_byte, 1);
}

#[test]
fn test_error_packet_data_length() {
    for code in [
        SUBOP_ITEMNOTFOUND,
        ko_game::pus_refund::SUBOP_TIMEEXPIRED,
        ko_game::pus_refund::SUBOP_PROCESTIME,
        ko_game::pus_refund::SUBOP_NOTINVENTORY,
        SUBOP_ITEMUSED,
    ] {
        let pkt = build_refund_error_packet(code);
        assert_eq!(pkt.data.len(), 2);
    }
}

#[test]
fn test_success_packet_data_length() {
    let pkt = build_refund_success_packet(999, 800001);
    assert_eq!(pkt.data.len(), 14);
}

#[test]
fn test_refund_list_entry_size() {
    let e1 = PusRefundEntry { item_id: 100, item_price: 200, item_count: 1, item_duration: 0, expired_time: 1700000000, buy_type: 0 };
    let e2 = PusRefundEntry { item_id: 300, item_price: 400, item_count: 2, item_duration: 7, expired_time: 1700003600, buy_type: 1 };
    let pkt = build_refund_list_packet(&[(1, e1), (2, e2)]);
    assert_eq!(pkt.data.len(), 44);
}

#[test]
fn test_listadd_packet_data_length() {
    let entry = PusRefundEntry { item_id: 500, item_price: 350, item_count: 1, item_duration: 0, expired_time: 1700000000, buy_type: 0 };
    let pkt = ko_game::pus_refund::build_listadd_packet(12345, &entry);
    assert_eq!(pkt.data.len(), 27);
}

#[test]
fn test_ireturn_c2s_format() {
    let mut pkt = ko_game::packet::Packet::new(ko_game::pus_refund::WIZ_EXT_HOOK);
    pkt.write_u8(EXT_SUB_PUS_REFUND);
    pkt.write_u8(SUBOP_IRETURN);
    pkt.write_u64(9876543210);
    pkt.write_u8(5);
    let mut r = ko_game::packet::PacketReader::new(&pkt.data);
    assert_eq!(r.read_u8(), Some(EXT_SUB_PUS_REFUND));
    assert_eq!(r.read_u8(), Some(0));
    let lo = r.read_u32().unwrap() as u64;
    let hi = r.read_u32().unwrap() as u64;
    assert_eq!(lo | (hi << 32), 9876543210);
    assert_eq!(r.read_u8(), Some(5));
    assert_eq!(r.remaining(), 0);
}

#[test]
fn return_searches_the_bag_only() {
    let mut book = RefundBook { entries: HashMap::new(), last_refund_time: 0 };
    book.entries.insert(9, entry(900, 3, 5000, 0));
    let mut inv = vec![UserItemSlot::empty(); 42];
    // an equipped copy is ignored
    inv[3] = stack(900, 3);
    assert_eq!(item_return(&mut book, &mut inv, 9, 100), ReturnOutcome::NotInInventory);
    inv[14 + 5] = stack(900, 3);
    let r = item_return(&mut book, &mut inv, 9, 200);
    assert_eq!(r, ReturnOutcome::Returned { pos: 5, item_id: 900, knight_cash: 500, tl: 0 });
    assert_eq!(inv[3].item_id, 900);
    assert_eq!(inv[19].item_id, 0);
    assert_eq!(build_cleared_slot_packet(5).data[3], 5);
}
