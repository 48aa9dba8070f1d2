//! Cash-shop refunds (WIZ_EXT_HOOK 0xE9, sub-opcode 0xD4): for an hour after
//! a purchase the untouched item can be handed back for its price. A
//! session keeps its refundable purchases by serial; a return is refused
//! within five seconds of the last attempt, for an unknown serial, after
//! the hour, when the item is gone or its stack has changed.
use vstd::prelude::*;
use std::collections::HashMap;
use crate::packet::{Packet, u8_le, u16_le, u32_le, u64_le};
use crate::inventory::{UserItemSlot, SLOT_MAX, HAVE_MAX};

verus! {

broadcast use vstd::std_specs::hash::group_hash_axioms;

pub const WIZ_EXT_HOOK: u8 = 0xE9;
pub const WIZ_ITEM_COUNT_CHANGE: u8 = 0x3D;
pub const EXT_SUB_PUS_REFUND: u8 = 0xD4;

/// Seconds between two refund attempts.
pub const REFUND_COOLDOWN_SECS: u64 = 5;
/// Seconds after a purchase during which it can be refunded.
pub const REFUND_WINDOW_SECS: u64 = 3600;

pub const SUBOP_IRETURN: u8 = 0;
pub const SUBOP_LISTSEND: u8 = 1;
pub const SUBOP_ITEMNOTFOUND: u8 = 2;
pub const SUBOP_TIMEEXPIRED: u8 = 3;
pub const SUBOP_PROCESTIME: u8 = 4;
pub const SUBOP_NOTINVENTORY: u8 = 5;
pub const SUBOP_ITEMUSED: u8 = 6;
pub const SUBOP_ITEMRETURNSUCCESS: u8 = 7;
pub const SUBOP_LISTADD: u8 = 8;

/// A refundable purchase.
#[derive(Clone, Copy, Debug, PartialEq, Eq, Structural)]
pub struct PusRefundEntry {
    pub item_id: u32,
    /// Price paid.
    pub item_price: u32,
    pub item_count: u16,
    /// Duration in days, 0 for permanent.
    pub item_duration: u16,
    /// When the refund window closes (seconds since the epoch).
    pub expired_time: u64,
    /// 0 paid in knight cash, 1 in TL.
    pub buy_type: u8,
}

/// A session's refundable purchases by serial, and its last refund attempt.
pub struct RefundBook {
    pub entries: HashMap<u64, PusRefundEntry>,
    pub last_refund_time: u64,
}

/// Records a new refundable purchase and gives the list-add packet that
/// tells the client of it: `[u8 0xD4][u8 8][u64 serial][u32 item][u16 count]
/// [u32 price][u16 duration][u32 expiry][u8 buy type]`.
pub fn register_purchase(book: &mut RefundBook, serial: u64, entry: PusRefundEntry) -> (pkt: Packet)
    ensures
        final(book).entries@ == old(book).entries@.insert(serial, entry),
        final(book).last_refund_time == old(book).last_refund_time,
        pkt.opcode == WIZ_EXT_HOOK,
        pkt.data@ == listadd_bytes(serial, entry),
{
    let pkt = build_listadd_packet(serial, &entry);
    book.entries.insert(serial, entry);
    pkt
}

/// A stored purchase.
#[derive(Clone, Copy, Debug, PartialEq, Eq, Structural)]
pub struct PurchaseRow {
    pub mserial: i64,
    pub buying_time: i64,
    pub item_id: i32,
    pub item_price: i32,
    pub item_count: i32,
    pub item_duration: i32,
    pub buy_type: i32,
}

/// The refund entry of a stored purchase: its window closes an hour after
/// it was bought.
pub open spec fn spec_row_entry(row: PurchaseRow) -> PusRefundEntry {
    PusRefundEntry {
        item_id: row.item_id as u32,
        item_price: row.item_price as u32,
        item_count: row.item_count as u16,
        item_duration: row.item_duration as u16,
        expired_time: (row.buying_time as u64 + REFUND_WINDOW_SECS) as u64,
        buy_type: row.buy_type as u8,
    }
}

/// The purchase can still be refunded at `now`.
pub open spec fn spec_row_open(row: PurchaseRow, now: u64) -> bool {
    now <= row.buying_time as u64 + REFUND_WINDOW_SECS
}

/// The refundable purchases among the stored rows, in order.
pub open spec fn open_rows(rows: Seq<PurchaseRow>, now: u64) -> Seq<(u64, PusRefundEntry)>
    decreases rows.len(),
{
    if rows.len() == 0 {
        Seq::empty()
    } else {
        let r = rows.last();
        open_rows(rows.drop_last(), now) + if spec_row_open(r, now) {
            seq![(r.mserial as u64, spec_row_entry(r))]
        } else {
            Seq::empty()
        }
    }
}

/// The refund map built from the stored rows: each open purchase under its
/// serial (a later row replacing an earlier one of the same serial).
pub open spec fn open_rows_map(rows: Seq<PurchaseRow>, now: u64) -> Map<u64, PusRefundEntry>
    decreases rows.len(),
{
    if rows.len() == 0 {
        Map::empty()
    } else {
        let r = rows.last();
        let m = open_rows_map(rows.drop_last(), now);
        if spec_row_open(r, now) {
            m.insert(r.mserial as u64, spec_row_entry(r))
        } else {
            m
        }
    }
}

/// On game entry: the purchases still refundable at `now`, as a map for the
/// session and as a list for the client.
pub fn collect_refundable(rows: &[PurchaseRow], now: u64) -> (r: (HashMap<u64, PusRefundEntry>, Vec<(u64, PusRefundEntry)>))
    requires
        forall|i: int| 0 <= i < rows@.len() ==> #[trigger] rows@[i].buying_time as u64 + REFUND_WINDOW_SECS <= u64::MAX,
    ensures
        r.0@ == open_rows_map(rows@, now),
        r.1@ == open_rows(rows@, now),
{
    let mut map: HashMap<u64, PusRefundEntry> = HashMap::new();
    let mut list: Vec<(u64, PusRefundEntry)> = Vec::new();
    let mut i: usize = 0;
    while i < rows.len()
        invariant
            i <= rows@.len(),
            forall|j: int| 0 <= j < rows@.len() ==> #[trigger] rows@[j].buying_time as u64 + REFUND_WINDOW_SECS <= u64::MAX,
            map@ == open_rows_map(rows@.subrange(0, i as int), now),
            list@ == open_rows(rows@.subrange(0, i as int), now),
        decreases rows@.len() - i,
    {
        let row = rows[i];
        proof {
            let next = rows@.subrange(0, i as int + 1);
            assert(next.drop_last() == rows@.subrange(0, i as int));
            assert(next.last() == row);
        }
        let serial = row.mserial as u64;
        let expired_time: u64 = row.buying_time as u64 + REFUND_WINDOW_SECS;
        if now <= expired_time {
            let entry = PusRefundEntry {
                item_id: row.item_id as u32,
                item_price: row.item_price as u32,
                item_count: row.item_count as u16,
                item_duration: row.item_duration as u16,
                expired_time,
                buy_type: row.buy_type as u8,
            };
            map.insert(serial, entry);
            list.push((serial, entry));
        }
        i = i + 1;
    }
    assert(rows@.subrange(0, rows@.len() as int) == rows@);
    (map, list)
}

/// What an item-return request led to.
#[derive(Clone, Copy, Debug, PartialEq, Eq, Structural)]
pub enum ReturnOutcome {
    /// Within the cooldown of the last attempt.
    TooSoon,
    /// No refundable purchase with that serial.
    NotFound,
    /// Its hour has passed.
    Expired,
    /// No stack of the item in the inventory.
    NotInInventory,
    /// The stack's count differs from what was bought.
    Used,
    /// Returned: the bag position (counted from the first bag slot) that
    /// was cleared, the item, and the refund in knight cash and in TL.
    Returned { pos: u8, item_id: u32, knight_cash: i32, tl: i32 },
}

/// A bag slot (`SLOT_MAX` up to `SLOT_MAX + HAVE_MAX`) holding some of the item.
pub open spec fn is_bag_stack(inv: Seq<UserItemSlot>, item_id: u32, i: int) -> bool {
    &&& SLOT_MAX <= i < SLOT_MAX + HAVE_MAX
    &&& i < inv.len()
    &&& inv[i].item_id == item_id && inv[i].count > 0
}

/// The first bag slot holding some of the item.
pub open spec fn is_first_stack(inv: Seq<UserItemSlot>, item_id: u32, i: int) -> bool {
    &&& is_bag_stack(inv, item_id, i)
    &&& forall|j: int| SLOT_MAX <= j < i ==> !is_bag_stack(inv, item_id, j)
}

pub open spec fn has_stack(inv: Seq<UserItemSlot>, item_id: u32) -> bool {
    exists|i: int| is_bag_stack(inv, item_id, i)
}

fn find_stack(inv: &Vec<UserItemSlot>, item_id: u32) -> (r: Option<usize>)
    ensures
        r is Some ==> is_first_stack(inv@, item_id, r->0 as int),
        r is None ==> !has_stack(inv@, item_id),
{
    let end: usize = SLOT_MAX + HAVE_MAX;
    let mut i: usize = SLOT_MAX;
    while i < end && i < inv.len()
        invariant
            SLOT_MAX <= i <= end,
            end == SLOT_MAX + HAVE_MAX,
            forall|j: int| SLOT_MAX <= j < i ==> !is_bag_stack(inv@, item_id, j),
        decreases end - i,
    {
        if inv[i].item_id == item_id && inv[i].count > 0 {
            return Some(i);
        }
        i = i + 1;
    }
    proof {
        assert forall|j: int| !is_bag_stack(inv@, item_id, j) by {
            if SLOT_MAX <= j < i {
            }
        }
    }
    None
}

/// Item return for purchase `serial` at time `now`. Any attempt after the
/// cooldown restarts it. A successful return empties the item's first
/// stack (item, count and durability to 0), forgets the purchase, and
/// refunds its price in the currency it was paid in. Only the bag slots
/// are searched, and the position reported is counted from the first bag
/// slot.
pub fn item_return(book: &mut RefundBook, inventory: &mut Vec<UserItemSlot>, serial: u64, now: u64) -> (r: ReturnOutcome)
    requires
        old(book).last_refund_time <= u64::MAX - REFUND_COOLDOWN_SECS,
    ensures
        old(book).last_refund_time + REFUND_COOLDOWN_SECS > now ==> r == ReturnOutcome::TooSoon
            && final(book).last_refund_time == old(book).last_refund_time,
        old(book).last_refund_time + REFUND_COOLDOWN_SECS <= now ==> final(book).last_refund_time == now && {
            let m = old(book).entries@;
            if !m.contains_key(serial) {
                r == ReturnOutcome::NotFound
            } else if now > m[serial].expired_time {
                r == ReturnOutcome::Expired
            } else if !has_stack(old(inventory)@, m[serial].item_id) {
                r == ReturnOutcome::NotInInventory
            } else {
                let e = m[serial];
                let i = choose|i: int| is_first_stack(old(inventory)@, e.item_id, i);
                let s = old(inventory)@[i];
                if s.count != e.item_count {
                    r == ReturnOutcome::Used
                } else {
                    &&& r == ReturnOutcome::Returned {
                        pos: (i - SLOT_MAX) as u8,
                        item_id: e.item_id,
                        knight_cash: if e.buy_type == 0 { e.item_price as i32 } else { 0 },
                        tl: if e.buy_type == 1 { e.item_price as i32 } else { 0 },
                    }
                    &&& final(inventory)@ == old(inventory)@.update(
                        i,
                        UserItemSlot { item_id: 0, count: 0, durability: 0, ..s },
                    )
                    &&& final(book).entries@ == m.remove(serial)
                }
            }
        },
        !(r is Returned) ==> final(inventory)@ == old(inventory)@ && final(book).entries@ == old(book).entries@,
{
    if book.last_refund_time + REFUND_COOLDOWN_SECS > now {
        return ReturnOutcome::TooSoon;
    }
    book.last_refund_time = now;
    let entry = match book.entries.get(&serial) {
        Some(e) => *e,
        None => return ReturnOutcome::NotFound,
    };
    if now > entry.expired_time {
        return ReturnOutcome::Expired;
    }
    let slot_idx = match find_stack(inventory, entry.item_id) {
        Some(i) => i,
        None => return ReturnOutcome::NotInInventory,
    };
    proof {
        let k = choose|k: int| is_first_stack(old(inventory)@, entry.item_id, k);
        lemma_first_stack_unique(old(inventory)@, entry.item_id, k, slot_idx as int);
    }
    let s = inventory[slot_idx];
    if s.count != entry.item_count {
        return ReturnOutcome::Used;
    }
    inventory.set(slot_idx, UserItemSlot { item_id: 0, count: 0, durability: 0, ..s });
    let knight_cash: i32 = if entry.buy_type == 0 { entry.item_price as i32 } else { 0 };
    let tl: i32 = if entry.buy_type == 1 { entry.item_price as i32 } else { 0 };
    book.entries.remove(&serial);
    ReturnOutcome::Returned { pos: (slot_idx - SLOT_MAX) as u8, item_id: entry.item_id, knight_cash, tl }
}

proof fn lemma_first_stack_unique(inv: Seq<UserItemSlot>, item_id: u32, i: int, j: int)
    requires
        is_first_stack(inv, item_id, i),
        is_first_stack(inv, item_id, j),
    ensures
        i == j,
{
    if i < j {
        assert(is_bag_stack(inv, item_id, i));
    } else if j < i {
        assert(is_bag_stack(inv, item_id, j));
    }
}

/// A purchase can be handed back only once: once returned, its serial is
/// no longer refundable, so the next attempt is answered "not found".
pub proof fn lemma_returned_purchase_is_gone(before: Map<u64, PusRefundEntry>, serial: u64)
    ensures
        !before.remove(serial).contains_key(serial),
{
}

/// Refund error: `[u8 0xD4][u8 code]`.
pub fn build_refund_error_packet(code: u8) -> (pkt: Packet)
    ensures
        pkt.opcode == WIZ_EXT_HOOK,
        pkt.data@ == u8_le(EXT_SUB_PUS_REFUND) + u8_le(code),
{
    let mut pkt = Packet::new(WIZ_EXT_HOOK);
    pkt.write_u8(EXT_SUB_PUS_REFUND);
    pkt.write_u8(code);
    pkt
}

/// The answer the client gets for an outcome other than a return.
pub fn refund_error_code(r: ReturnOutcome) -> (code: Option<u8>)
    ensures
        code == match r {
            ReturnOutcome::TooSoon => Some(SUBOP_PROCESTIME),
            ReturnOutcome::NotFound => Some(SUBOP_ITEMNOTFOUND),
            ReturnOutcome::Expired => Some(SUBOP_TIMEEXPIRED),
            ReturnOutcome::NotInInventory => Some(SUBOP_NOTINVENTORY),
            ReturnOutcome::Used => Some(SUBOP_ITEMUSED),
            ReturnOutcome::Returned { .. } => None,
        },
{
    match r {
        ReturnOutcome::TooSoon => Some(SUBOP_PROCESTIME),
        ReturnOutcome::NotFound => Some(SUBOP_ITEMNOTFOUND),
        ReturnOutcome::Expired => Some(SUBOP_TIMEEXPIRED),
        ReturnOutcome::NotInInventory => Some(SUBOP_NOTINVENTORY),
        ReturnOutcome::Used => Some(SUBOP_ITEMUSED),
        ReturnOutcome::Returned { .. } => None,
    }
}

pub open spec fn refund_list_entries_bytes(entries: Seq<(u64, PusRefundEntry)>) -> Seq<u8>
    decreases entries.len(),
{
    if entries.len() == 0 {
        Seq::empty()
    } else {
        let (serial, e) = entries.last();
        refund_list_entries_bytes(entries.drop_last()) + u64_le(serial) + u32_le(e.item_id) + u32_le(e.item_price)
            + u32_le((e.expired_time % 0x1_0000_0000) as u32)
    }
}

/// The refund list sent on game entry: `[u8 0xD4][u8 1][u16 n]`, then per
/// purchase `[u64 serial][u32 item][u32 price][u32 expiry]`.
pub fn build_refund_list_packet(entries: &[(u64, PusRefundEntry)]) -> (pkt: Packet)
    ensures
        pkt.opcode == WIZ_EXT_HOOK,
        pkt.data@ == u8_le(EXT_SUB_PUS_REFUND) + u8_le(SUBOP_LISTSEND) + u16_le((entries@.len() % 65536) as u16)
            + refund_list_entries_bytes(entries@),
{
    let mut pkt = Packet::new(WIZ_EXT_HOOK);
    pkt.write_u8(EXT_SUB_PUS_REFUND);
    assert(pkt.data@ =~= u8_le(EXT_SUB_PUS_REFUND));
    pkt.write_u8(SUBOP_LISTSEND);
    pkt.write_u16((entries.len() % 65536) as u16);
    let ghost head = pkt.data@;
    let mut i: usize = 0;
    while i < entries.len()
        invariant
            i <= entries@.len(),
            pkt.opcode == WIZ_EXT_HOOK,
            pkt.data@ == head + refund_list_entries_bytes(entries@.subrange(0, i as int)),
        decreases entries@.len() - i,
    {
        let (serial, e) = entries[i];
        pkt.write_u64(serial);
        pkt.write_u32(e.item_id);
        pkt.write_u32(e.item_price);
        pkt.write_u32((e.expired_time % 0x1_0000_0000) as u32);
        proof {
            let next = entries@.subrange(0, i as int + 1);
            assert(next.drop_last() == entries@.subrange(0, i as int));
            assert(next.last() == entries@[i as int]);
        }
        i = i + 1;
    }
    assert(entries@.subrange(0, entries@.len() as int) == entries@);
    pkt
}

pub open spec fn listadd_bytes(serial: u64, e: PusRefundEntry) -> Seq<u8> {
    u8_le(EXT_SUB_PUS_REFUND) + u8_le(SUBOP_LISTADD) + u64_le(serial) + u32_le(e.item_id) + u16_le(e.item_count)
        + u32_le(e.item_price) + u16_le(e.item_duration) + u32_le((e.expired_time % 0x1_0000_0000) as u32)
        + u8_le(e.buy_type)
}

pub fn build_listadd_packet(serial: u64, e: &PusRefundEntry) -> (pkt: Packet)
    ensures
        pkt.opcode == WIZ_EXT_HOOK,
        pkt.data@ == listadd_bytes(serial, *e),
{
    let mut pkt = Packet::new(WIZ_EXT_HOOK);
    pkt.write_u8(EXT_SUB_PUS_REFUND);
    pkt.write_u8(SUBOP_LISTADD);
    pkt.write_u64(serial);
    pkt.write_u32(e.item_id);
    pkt.write_u16(e.item_count);
    pkt.write_u32(e.item_price);
    pkt.write_u16(e.item_duration);
    pkt.write_u32((e.expired_time % 0x1_0000_0000) as u32);
    pkt.write_u8(e.buy_type);
    pkt
}

/// Return succeeded: `[u8 0xD4][u8 7][u64 serial][u32 item]`.
pub fn build_refund_success_packet(serial: u64, item_id: u32) -> (pkt: Packet)
    ensures
        pkt.opcode == WIZ_EXT_HOOK,
        pkt.data@ == u8_le(EXT_SUB_PUS_REFUND) + u8_le(SUBOP_ITEMRETURNSUCCESS) + u64_le(serial) + u32_le(item_id),
{
    let mut pkt = Packet::new(WIZ_EXT_HOOK);
    pkt.write_u8(EXT_SUB_PUS_REFUND);
    pkt.write_u8(SUBOP_ITEMRETURNSUCCESS);
    pkt.write_u64(serial);
    pkt.write_u32(item_id);
    pkt
}

/// The emptied slot, for the client's inventory: `[u16 1][u8 1][u8 bag
/// position][u32 0][u32 0][u8 0][u16 0][u32 0][u32 0]`.
pub fn build_cleared_slot_packet(pos: u8) -> (pkt: Packet)
    ensures
        pkt.opcode == WIZ_ITEM_COUNT_CHANGE,
        pkt.data@ == u16_le(1) + u8_le(1) + u8_le(pos) + u32_le(0) + u32_le(0) + u8_le(0) + u16_le(0)
            + u32_le(0) + u32_le(0),
{
    let mut pkt = Packet::new(WIZ_ITEM_COUNT_CHANGE);
    pkt.write_u16(1);
    pkt.write_u8(1);
    pkt.write_u8(pos);
    pkt.write_u32(0);
    pkt.write_u32(0);
    pkt.write_u8(0);
    pkt.write_u16(0);
    pkt.write_u32(0);
    pkt.write_u32(0);
    pkt
}

} // verus!
