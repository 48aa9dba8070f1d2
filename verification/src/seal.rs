//! Item sealing (WIZ_SEAL 0x95): sealing an item while remembering its
//! binding, unsealing back to that binding, counting sealed items, and the
//! seal packets.
use vstd::prelude::*;
use crate::packet::{Packet, PacketReader, u16_le, u32_le, le_u32_value, le_u16_value};
use crate::inventory::{SLOT_MAX, HAVE_MAX, ITEM_FLAG_BOUND, ITEM_FLAG_NONE, ITEM_FLAG_NOT_BOUND, ITEM_FLAG_SEALED};

verus! {

pub const WIZ_SEAL: u8 = 0x95;

/// Seal NPC whose answers carry a result the client shows.
pub const SEAL_NPC_RESULT: i32 = 12401;
/// Seal NPCs the client only acknowledges.
pub const SEAL_NPC_TYPE_A: i32 = 12385;
pub const SEAL_NPC_TYPE_B: i32 = 12387;
pub const SEAL_NPC_TYPE_C: i32 = 16385;

pub const SUB_TOGGLE: u8 = 0x02;
pub const SUB_UNSEAL: u8 = 0x03;
pub const SUB_DOUBLE: u8 = 0x04;
pub const SUB_SCROLL: u8 = 0x09;
pub const SUB_FULL_REQUEST: u8 = 0x63;
pub const SUB_ZONE_SYNC: u8 = 0x65;

pub const RESULT_SEAL: u16 = 1;
pub const RESULT_UNSEAL: u16 = 2;
pub const RESULT_BREAK: u16 = 3;
pub const RESULT_OTHER: u16 = 4;

/// An inventory slot as sealing sees it.
#[derive(Clone, Copy, Debug, PartialEq, Eq, Structural)]
pub struct SealSlot {
    pub item_id: u32,
    pub count: u16,
    pub flag: u8,
    /// The flag a sealed item had before it was sealed.
    pub original_flag: u8,
    pub serial_num: u64,
}

/// The flag an unsealed item gets back: its binding if it had one, else none.
pub open spec fn spec_restored_flag(original: u8) -> u8 {
    if original == ITEM_FLAG_NOT_BOUND || original == ITEM_FLAG_BOUND { original } else { ITEM_FLAG_NONE }
}

pub fn restored_flag(original: u8) -> (r: u8)
    ensures
        r == spec_restored_flag(original),
{
    if original == ITEM_FLAG_NOT_BOUND || original == ITEM_FLAG_BOUND { original } else { ITEM_FLAG_NONE }
}

/// The slot can be unsealed: it holds the named item, sealed.
pub open spec fn spec_unsealable(inv: Seq<SealSlot>, at: int, item_id: u32) -> bool {
    0 <= at < inv.len() && inv[at].item_id == item_id && inv[at].flag == ITEM_FLAG_SEALED
}

/// The slot after unsealing.
pub open spec fn spec_unsealed(s: SealSlot) -> SealSlot {
    SealSlot { flag: spec_restored_flag(s.original_flag), original_flag: 0, ..s }
}

/// Unseals the item at bag position `slot_pos` if it is `item_id` and
/// sealed: its binding comes back and the remembered flag is cleared.
pub fn unseal_one(inv: &mut Vec<SealSlot>, slot_pos: u8, item_id: u32) -> (ok: bool)
    ensures
        ok == spec_unsealable(old(inv)@, SLOT_MAX + slot_pos, item_id),
        ok ==> final(inv)@ == old(inv)@.update(SLOT_MAX + slot_pos, spec_unsealed(old(inv)@[SLOT_MAX + slot_pos])),
        !ok ==> final(inv)@ == old(inv)@,
{
    let at: usize = SLOT_MAX + slot_pos as usize;
    if at < inv.len() && inv[at].item_id == item_id && inv[at].flag == ITEM_FLAG_SEALED {
        let s = inv[at];
        inv.set(at, SealSlot { flag: restored_flag(s.original_flag), original_flag: 0, ..s });
        true
    } else {
        false
    }
}

/// The `i`-th (bag position, item) pair of an UNSEAL body.
pub open spec fn unseal_pair_at(body: Seq<u8>, i: int) -> (u8, u32) {
    let at = 2 + 5 * i;
    (body[at], le_u32_value(body[at + 1], body[at + 2], body[at + 3], body[at + 4]))
}

/// The `i`-th pair is whole, inside the bag and names an item.
pub open spec fn unseal_pair_ok(body: Seq<u8>, i: int) -> bool {
    &&& 2 + 5 * i + 5 <= body.len()
    &&& (unseal_pair_at(body, i).0 as int) < HAVE_MAX
    &&& unseal_pair_at(body, i).1 != 0
}

/// How many pairs an UNSEAL body asks for, at most the bag size: its
/// leading `u16` count, none when the count is cut short.
pub open spec fn unseal_limit(body: Seq<u8>) -> int {
    if body.len() < 2 {
        0
    } else if le_u16_value(body[0], body[1]) < HAVE_MAX {
        le_u16_value(body[0], body[1]) as int
    } else {
        HAVE_MAX as int
    }
}

/// The unseal requests of an UNSEAL packet body: `[u16 count]` then up to
/// `min(count, 28)` pairs `[u8 bag position][u32 item]`, reading stopping
/// at the first pair that is cut short, outside the bag, or of item 0.
pub fn parse_unseal_requests(body: &[u8]) -> (r: Vec<(u8, u32)>)
    ensures
        r@.len() <= HAVE_MAX,
        r@.len() <= unseal_limit(body@),
        r@.len() < unseal_limit(body@) ==> !unseal_pair_ok(body@, r@.len() as int),
        forall|i: int| 0 <= i < r@.len() ==> #[trigger] r@[i] == unseal_pair_at(body@, i),
        forall|i: int| 0 <= i < r@.len() ==> #[trigger] unseal_pair_ok(body@, i),
{
    let mut rd = PacketReader::new(body);
    let count: u16 = match rd.read_u16() {
        Some(c) => c,
        None => 0,
    };
    let limit: u16 = if count < HAVE_MAX as u16 { count } else { HAVE_MAX as u16 };
    let mut out: Vec<(u8, u32)> = Vec::new();
    let mut k: u16 = 0;
    let mut stop = false;
    while k < limit && !stop
        invariant
            k <= limit <= HAVE_MAX,
            limit == unseal_limit(body@),
            stop ==> !unseal_pair_ok(body@, k as int),
            rd.data@ == body@,
            !stop && limit > 0 ==> rd.pos == 2 + 5 * k,
            out@.len() == k,
            forall|i: int| 0 <= i < out@.len() ==> #[trigger] out@[i] == unseal_pair_at(body@, i) && unseal_pair_ok(body@, i),
        decreases limit - k, if stop { 0int } else { 1int },
    {
        let pos_read = rd.read_u8();
        match pos_read {
            None => {
                stop = true;
            },
            Some(pos) => {
                if pos as usize >= HAVE_MAX {
                    stop = true;
                } else {
                    match rd.read_u32() {
                        None => {
                            stop = true;
                        },
                        Some(item) => {
                            if item == 0 {
                                proof {
                                    assert(unseal_pair_at(body@, k as int).1 == item);
                                }
                                stop = true;
                            } else {
                                proof {
                                    assert(unseal_pair_at(body@, k as int) == (pos, item));
                                }
                                out.push((pos, item));
                                k = k + 1;
                            }
                        },
                    }
                }
            },
        }
    }
    assert forall|i: int| 0 <= i < out@.len() implies #[trigger] unseal_pair_ok(body@, i) by {
        assert(out@[i] == unseal_pair_at(body@, i));
    }
    out
}

/// The inventory after unsealing each request in turn, and how many were
/// unsealed.
pub open spec fn spec_unseal_all(inv: Seq<SealSlot>, reqs: Seq<(u8, u32)>) -> (Seq<SealSlot>, nat)
    decreases reqs.len(),
{
    if reqs.len() == 0 {
        (inv, 0)
    } else {
        let (prev, n) = spec_unseal_all(inv, reqs.drop_last());
        let (pos, item) = reqs.last();
        let at = SLOT_MAX + pos;
        if spec_unsealable(prev, at, item) {
            (prev.update(at, spec_unsealed(prev[at])), n + 1)
        } else {
            (prev, n)
        }
    }
}

proof fn lemma_unseal_all_bound(inv: Seq<SealSlot>, reqs: Seq<(u8, u32)>)
    ensures
        spec_unseal_all(inv, reqs).1 <= reqs.len(),
    decreases reqs.len(),
{
    if reqs.len() > 0 {
        lemma_unseal_all_bound(inv, reqs.drop_last());
    }
}

/// UNSEAL: unseals each requested item that qualifies, in order; returns
/// how many were unsealed.
pub fn unseal_items(inv: &mut Vec<SealSlot>, requests: &[(u8, u32)]) -> (n: u16)
    requires
        requests@.len() <= HAVE_MAX,
    ensures
        (final(inv)@, n as nat) == spec_unseal_all(old(inv)@, requests@),
{
    let mut n: u16 = 0;
    let mut i: usize = 0;
    while i < requests.len()
        invariant
            i <= requests@.len() <= HAVE_MAX,
            (inv@, n as nat) == spec_unseal_all(old(inv)@, requests@.subrange(0, i as int)),
        decreases requests@.len() - i,
    {
        proof {
            let next = requests@.subrange(0, i as int + 1);
            assert(next.drop_last() == requests@.subrange(0, i as int));
            lemma_unseal_all_bound(old(inv)@, requests@.subrange(0, i as int));
        }
        let (pos, item) = requests[i];
        if unseal_one(inv, pos, item) {
            n = n + 1;
        }
        i = i + 1;
    }
    assert(requests@.subrange(0, requests@.len() as int) == requests@);
    n
}

/// The slot can be sealed: it holds the named item, not sealed, with a
/// count and a serial.
pub open spec fn spec_sealable(inv: Seq<SealSlot>, at: int, item_id: u32) -> bool {
    0 <= at < inv.len() && inv[at].item_id == item_id && inv[at].flag != ITEM_FLAG_SEALED && inv[at].count > 0
        && inv[at].serial_num != 0
}

/// DOUBLE: seals the item at bag position `slot_pos`, remembering its flag
/// (so a bound item stays bound under the seal). Refused for a position
/// outside the bag, item 0, or a slot that does not qualify.
pub fn double_seal(inv: &mut Vec<SealSlot>, slot_pos: u8, item_id: u32) -> (ok: bool)
    ensures
        ok == ((slot_pos as int) < HAVE_MAX && item_id != 0 && spec_sealable(old(inv)@, SLOT_MAX + slot_pos, item_id)),
        ok ==> {
            let at = SLOT_MAX + slot_pos;
            let s = old(inv)@[at];
            final(inv)@ == old(inv)@.update(at, SealSlot { original_flag: s.flag, flag: ITEM_FLAG_SEALED, ..s })
        },
        !ok ==> final(inv)@ == old(inv)@,
{
    if slot_pos as usize >= HAVE_MAX || item_id == 0 {
        return false;
    }
    let at: usize = SLOT_MAX + slot_pos as usize;
    if at < inv.len() && inv[at].item_id == item_id && inv[at].flag != ITEM_FLAG_SEALED && inv[at].count > 0
        && inv[at].serial_num != 0 {
        let s = inv[at];
        inv.set(at, SealSlot { original_flag: s.flag, flag: ITEM_FLAG_SEALED, ..s });
        true
    } else {
        false
    }
}

/// Sealing then unsealing gives an item its binding back: a bound or
/// not-bound item returns to that flag, anything else to no flag.
pub proof fn lemma_seal_then_unseal_restores_binding(s: SealSlot)
    requires
        s.flag != ITEM_FLAG_SEALED,
    ensures
        spec_unsealed(SealSlot { original_flag: s.flag, flag: ITEM_FLAG_SEALED, ..s }).flag == spec_restored_flag(
            s.flag,
        ),
        (s.flag == ITEM_FLAG_BOUND || s.flag == ITEM_FLAG_NOT_BOUND) ==> spec_unsealed(
            SealSlot { original_flag: s.flag, flag: ITEM_FLAG_SEALED, ..s },
        ).flag == s.flag,
        spec_unsealed(SealSlot { original_flag: s.flag, flag: ITEM_FLAG_SEALED, ..s }).item_id == s.item_id,
{
}

pub open spec fn sealed_count_spec(inv: Seq<SealSlot>) -> int
    decreases inv.len(),
{
    if inv.len() == 0 {
        0
    } else {
        sealed_count_spec(inv.drop_last()) + if inv.last().flag == ITEM_FLAG_SEALED { 1int } else { 0int }
    }
}

proof fn lemma_sealed_count_bound(inv: Seq<SealSlot>)
    ensures
        0 <= sealed_count_spec(inv) <= inv.len(),
    decreases inv.len(),
{
    if inv.len() > 0 {
        lemma_sealed_count_bound(inv.drop_last());
    }
}

/// Number of sealed slots (for the scroll view).
pub fn sealed_count(inv: &[SealSlot]) -> (n: usize)
    ensures
        n == sealed_count_spec(inv@),
{
    let mut n: usize = 0;
    let mut i: usize = 0;
    while i < inv.len()
        invariant
            i <= inv@.len(),
            n == sealed_count_spec(inv@.subrange(0, i as int)),
        decreases inv@.len() - i,
    {
        proof {
            let next = inv@.subrange(0, i as int + 1);
            assert(next.drop_last() == inv@.subrange(0, i as int));
            lemma_sealed_count_bound(inv@.subrange(0, i as int));
        }
        if inv[i].flag == ITEM_FLAG_SEALED {
            n = n + 1;
        }
        i = i + 1;
    }
    assert(inv@.subrange(0, inv@.len() as int) == inv@);
    n
}

/// What the database stores of a slot after a seal change.
#[derive(Clone, Copy, Debug, PartialEq, Eq, Structural)]
pub struct SealSaveRecord {
    pub slot_index: i16,
    pub item_id: i32,
    pub count: i16,
    pub flag: i16,
    pub original_flag: i16,
    pub serial_num: i64,
}

/// The row saved for inventory slot `slot_idx`.
pub fn seal_save_record(slot_idx: usize, s: &SealSlot) -> (r: SealSaveRecord)
    ensures
        r == (SealSaveRecord {
            slot_index: slot_idx as i16,
            item_id: s.item_id as i32,
            count: s.count as i16,
            flag: s.flag as i16,
            original_flag: s.original_flag as i16,
            serial_num: s.serial_num as i64,
        }),
{
    SealSaveRecord {
        slot_index: slot_idx as i16,
        item_id: s.item_id as i32,
        count: s.count as i16,
        flag: s.flag as i16,
        original_flag: s.original_flag as i16,
        serial_num: s.serial_num as i64,
    }
}

/// Acknowledgement by a seal NPC: `[i32 npc]`.
pub fn build_npc_ack(npc_id: i32) -> (pkt: Packet)
    ensures
        pkt.opcode == WIZ_SEAL,
        pkt.data@ == u32_le(npc_id as u32),
{
    let mut pkt = Packet::new(WIZ_SEAL);
    pkt.write_i32(npc_id);
    pkt
}

/// A seal result: `[i32 12401][u16 result][u16 operation][u16 n][n bytes of
/// item name][i32 a][i32 b][i32 item]`.
pub fn build_seal_result(result_type: u16, operation: u16, item_name: &[u8], field_a: i32, field_b: i32, item_num: i32) -> (pkt: Packet)
    ensures
        pkt.opcode == WIZ_SEAL,
        pkt.data@ == u32_le(SEAL_NPC_RESULT as u32) + u16_le(result_type) + u16_le(operation) + u16_le(
            (item_name@.len() % 65536) as u16,
        ) + item_name@ + u32_le(field_a as u32) + u32_le(field_b as u32) + u32_le(item_num as u32),
{
    let mut pkt = Packet::new(WIZ_SEAL);
    pkt.write_i32(SEAL_NPC_RESULT);
    assert(pkt.data@ =~= u32_le(SEAL_NPC_RESULT as u32));
    pkt.write_u16(result_type);
    pkt.write_u16(operation);
    pkt.write_u16((item_name.len() % 65536) as u16);
    pkt.write_bytes(item_name);
    pkt.write_i32(field_a);
    pkt.write_i32(field_b);
    pkt.write_i32(item_num);
    pkt
}

} // verus!
