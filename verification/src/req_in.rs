//! Requests for the details of nearby NPCs (WIZ_REQ_NPCIN 0x1D) and users
//! (WIZ_REQ_USERIN 0x16): reading the requested IDs, which IDs qualify,
//! and assembling the answer, which holds at most 100 entries and stops
//! growing once it reaches 60000 bytes.
use vstd::prelude::*;
use crate::packet::{Packet, PacketReader, u8_le, u16_le, u32_le, le_u16_value, le_u32_value};
use crate::pet::NPC_BAND;

verus! {

pub const WIZ_REQ_USERIN: u8 = 0x16;
pub const WIZ_REQ_NPCIN: u8 = 0x1D;

/// Most entries in one answer.
pub const MAX_SEND_NPCID: u16 = 100;
pub const MAX_SEND_USERID: u16 = 100;
/// Highest NPC ID that may be asked about.
pub const INVALID_BAND: u32 = 60000;
/// Most IDs read from one request.
pub const MAX_REQUEST_IDS: u16 = 1000;
/// Size at which an answer stops growing.
pub const RESPONSE_SIZE_LIMIT: usize = 60000;

/// The number of IDs a request announces, capped at 1000 (0 if absent).
pub open spec fn spec_requested_count(data: Seq<u8>) -> int {
    if data.len() < 2 {
        0
    } else {
        let c = le_u16_value(data[0], data[1]) as int;
        if c > 1000 { 1000 } else { c }
    }
}

/// The `i`-th requested ID.
pub open spec fn spec_requested_id(data: Seq<u8>, i: int) -> u32 {
    le_u32_value(data[2 + 4 * i], data[3 + 4 * i], data[4 + 4 * i], data[5 + 4 * i])
}

/// How many IDs are read: as many as announced, or as the payload holds.
pub open spec fn spec_ids_read(data: Seq<u8>) -> int {
    let c = spec_requested_count(data);
    let fit = if data.len() < 2 { 0 } else { (data.len() - 2) / 4 };
    if c < fit { c } else { fit }
}

/// The IDs of a request: `[u16 count]` then that many `[u32 id]`, the count
/// capped at 1000, reading stopping where the payload ends.
pub fn parse_id_request(data: &[u8]) -> (ids: Vec<u32>)
    ensures
        ids@.len() == spec_ids_read(data@),
        forall|i: int| 0 <= i < ids@.len() ==> #[trigger] ids@[i] == spec_requested_id(data@, i),
{
    let mut r = PacketReader::new(data);
    let mut count: u16 = match r.read_u16() {
        Some(c) => c,
        None => 0,
    };
    if count > MAX_REQUEST_IDS {
        count = MAX_REQUEST_IDS;
    }
    let mut ids: Vec<u32> = Vec::new();
    let mut k: u16 = 0;
    while k < count
        invariant
            k <= count,
            count == spec_requested_count(data@),
            r.data@ == data@,
            data@.len() >= 2 ==> r.pos == 2 + 4 * k,
            data@.len() < 2 ==> count == 0,
            ids@.len() == k,
            k <= spec_ids_read(data@),
            forall|i: int| 0 <= i < k ==> #[trigger] ids@[i] == spec_requested_id(data@, i),
        decreases count - k,
    {
        match r.read_u32() {
            Some(id) => {
                ids.push(id);
                k = k + 1;
            },
            None => {
                assert(spec_ids_read(data@) == k) by {
                    assert((data@.len() - 2) / 4 <= k);
                }
                return ids;
            },
        }
    }
    ids
}

/// An NPC ID that may be asked about: from `NPC_BAND` to `INVALID_BAND`.
pub fn npc_id_in_band(id: u32) -> (r: bool)
    ensures
        r == (NPC_BAND <= id <= INVALID_BAND),
{
    NPC_BAND <= id && id <= INVALID_BAND
}

/// A user ID that may be asked about: below `NPC_BAND` and not oneself.
pub fn user_id_requestable(id: u32, my_sid: u16) -> (r: bool)
    ensures
        r == (id < NPC_BAND && id != my_sid as u32),
{
    id < NPC_BAND && id != my_sid as u32
}

/// One NPC's entry: `[u32 id]` and its info block.
pub fn npc_in_entry(id: u32, info: &[u8]) -> (v: Vec<u8>)
    ensures
        v@ == u32_le(id) + info@,
{
    let mut p = Packet::new(WIZ_REQ_NPCIN);
    p.write_u32(id);
    assert(p.data@ =~= u32_le(id));
    p.write_bytes(info);
    p.data
}

/// One user's entry: `[u8 0][u32 session]` and the user-info block.
pub fn user_in_entry(sid: u16, info: &[u8]) -> (v: Vec<u8>)
    ensures
        v@ == u8_le(0) + u32_le(sid as u32) + info@,
{
    let mut p = Packet::new(WIZ_REQ_USERIN);
    p.write_u8(0);
    assert(p.data@ =~= u8_le(0));
    p.write_u32(sid as u32);
    p.write_bytes(info);
    p.data
}

pub open spec fn entries_bytes(es: Seq<Vec<u8>>) -> Seq<u8>
    decreases es.len(),
{
    if es.len() == 0 {
        Seq::empty()
    } else {
        entries_bytes(es.drop_last()) + es.last()@
    }
}

/// How many of the entries an answer holds, counting from entry `i` with
/// the answer `size` bytes long so far: each entry is added, and the answer
/// is closed once it holds 100 or has reached 60000 bytes.
pub open spec fn entries_taken(es: Seq<Vec<u8>>, i: nat, size: int) -> nat
    decreases es.len() - i,
{
    if i >= es.len() {
        i
    } else {
        let grown = size + es[i as int]@.len();
        if i + 1 >= 100 || grown >= 60000 {
            i + 1
        } else {
            entries_taken(es, i + 1, grown)
        }
    }
}

proof fn lemma_entries_taken_bounds(es: Seq<Vec<u8>>, i: nat, size: int)
    requires
        i <= es.len(),
    ensures
        i <= entries_taken(es, i, size) <= es.len(),
        i < 100 ==> entries_taken(es, i, size) <= 100,
    decreases es.len() - i,
{
    if i < es.len() {
        let grown = size + es[i as int]@.len();
        if !(i + 1 >= 100 || grown >= 60000) {
            lemma_entries_taken_bounds(es, i + 1, grown);
        }
    }
}

/// The answer to a request, or `None` when no entry qualifies: `[u16 n]`
/// and the first `n` entries, `n` as `entries_taken` says.
pub fn assemble_in_response(opcode: u8, entries: &[Vec<u8>]) -> (r: Option<Packet>)
    ensures
        entries@.len() == 0 <==> r is None,
        r is Some ==> {
            let n = entries_taken(entries@, 0, 2);
            &&& r->0.opcode == opcode
            &&& r->0.data@ == u16_le(n as u16) + entries_bytes(entries@.subrange(0, n as int))
        },
{
    if entries.len() == 0 {
        return None;
    }
    let mut pkt = Packet::new(opcode);
    pkt.write_u16(0);
    let mut i: usize = 0;
    let mut done = false;
    while i < entries.len() && !done
        invariant
            i <= entries@.len(),
            pkt.opcode == opcode,
            pkt.data@.len() >= 2,
            pkt.data@.subrange(2, pkt.data@.len() as int) == entries_bytes(entries@.subrange(0, i as int)),
            !done ==> i < 100 && entries_taken(entries@, 0, 2) == entries_taken(entries@, i as nat, pkt.data@.len() as int),
            done ==> entries_taken(entries@, 0, 2) == i && i <= 100,
        decreases entries@.len() - i,
    {
        let ghost before = pkt.data@;
        pkt.write_bytes(entries[i].as_slice());
        proof {
            let next = entries@.subrange(0, i as int + 1);
            assert(next.drop_last() == entries@.subrange(0, i as int));
            assert(next.last() == entries@[i as int]);
            assert(pkt.data@.subrange(2, pkt.data@.len() as int) =~= before.subrange(2, before.len() as int)
                + entries@[i as int]@);
        }
        i = i + 1;
        if i >= 100 || pkt.data.len() >= RESPONSE_SIZE_LIMIT {
            done = true;
        }
    }
    proof {
        if !done {
            lemma_entries_taken_bounds(entries@, i as nat, pkt.data@.len() as int);
        }
    }
    let n: u16 = i as u16;
    pkt.put_u16_at(0, n);
    proof {
        assert(pkt.data@ =~= u16_le(n) + entries_bytes(entries@.subrange(0, i as int)));
    }
    Some(pkt)
}

} // verus!
