//! The toll (WIZ_PREMIUM2 0xAC): the server offers a tax, the
//! player confirms, and the pending tax is taken from the player's gold.
use vstd::prelude::*;
use crate::packet::{Packet, u8_le, u32_le};
use crate::perks::{build_gold_lose_packet, GOLD_CHANGE_LOSE, WIZ_GOLD_CHANGE};

verus! {

pub const WIZ_PREMIUM2: u8 = 0xAC;

/// Shows the panel with a value.
pub const SUB_INIT: u8 = 1;
/// A dialog; from the client, the confirmation.
pub const SUB_RESPONSE: u8 = 2;

/// Item and gold dialog.
pub const RESPONSE_ITEM_GOLD: u8 = 0;
/// First message dialog.
pub const RESPONSE_MSG_1: u8 = 1;
/// Second message dialog.
pub const RESPONSE_MSG_2: u8 = 2;

/// `[u8 1][i32 value]`.
pub fn build_init(value: i32) -> (pkt: Packet)
    ensures
        pkt.opcode == WIZ_PREMIUM2,
        pkt.data@ == u8_le(SUB_INIT) + u32_le(value as u32),
{
    let mut pkt = Packet::new(WIZ_PREMIUM2);
    pkt.write_u8(SUB_INIT);
    pkt.write_i32(value);
    pkt
}

/// `[u8 2][u8 0][i32 item][i32 gold]`.
pub fn build_item_gold(item_id: i32, gold_amount: i32) -> (pkt: Packet)
    ensures
        pkt.opcode == WIZ_PREMIUM2,
        pkt.data@ == u8_le(SUB_RESPONSE) + u8_le(RESPONSE_ITEM_GOLD) + u32_le(item_id as u32) + u32_le(
            gold_amount as u32,
        ),
{
    let mut pkt = Packet::new(WIZ_PREMIUM2);
    pkt.write_u8(SUB_RESPONSE);
    pkt.write_u8(RESPONSE_ITEM_GOLD);
    pkt.write_i32(item_id);
    pkt.write_i32(gold_amount);
    pkt
}

/// `[u8 2][u8 1]`.
pub fn build_msg_1() -> (pkt: Packet)
    ensures
        pkt.opcode == WIZ_PREMIUM2,
        pkt.data@ == u8_le(SUB_RESPONSE) + u8_le(RESPONSE_MSG_1),
{
    let mut pkt = Packet::new(WIZ_PREMIUM2);
    pkt.write_u8(SUB_RESPONSE);
    pkt.write_u8(RESPONSE_MSG_1);
    pkt
}

/// `[u8 2][u8 2]`.
pub fn build_msg_2() -> (pkt: Packet)
    ensures
        pkt.opcode == WIZ_PREMIUM2,
        pkt.data@ == u8_le(SUB_RESPONSE) + u8_le(RESPONSE_MSG_2),
{
    let mut pkt = Packet::new(WIZ_PREMIUM2);
    pkt.write_u8(SUB_RESPONSE);
    pkt.write_u8(RESPONSE_MSG_2);
    pkt
}

/// Offers a tax: a tax of zero is no offer; any other becomes the pending
/// tax and the panel shows it.
pub fn initiate_gate_tax(pending_gate_tax: &mut u32, tax_amount: u32) -> (r: Option<Packet>)
    ensures
        tax_amount == 0 ==> r is None && *final(pending_gate_tax) == *old(pending_gate_tax),
        tax_amount != 0 ==> *final(pending_gate_tax) == tax_amount && r is Some && r->0.opcode == WIZ_PREMIUM2
            && r->0.data@ == u8_le(SUB_INIT) + u32_le(tax_amount as i32 as u32),
{
    if tax_amount == 0 {
        return None;
    }
    *pending_gate_tax = tax_amount;
    Some(build_init(tax_amount as i32))
}

/// The gold left after a confirmation with this pending tax and gold: the
/// tax is taken when it is due and the gold covers it.
pub open spec fn gold_after_confirm(pending: u32, gold: u32) -> u32 {
    if pending != 0 && gold >= pending {
        (gold - pending) as u32
    } else {
        gold
    }
}

/// The answers to a confirmation, each an opcode and a payload.
pub open spec fn confirm_answers(pending: u32, gold: u32) -> Seq<(u8, Seq<u8>)> {
    if pending == 0 {
        seq![(WIZ_PREMIUM2, u8_le(SUB_RESPONSE) + u8_le(RESPONSE_MSG_1))]
    } else if gold < pending {
        seq![(WIZ_PREMIUM2, u8_le(SUB_RESPONSE) + u8_le(RESPONSE_MSG_2))]
    } else {
        seq![
            (WIZ_GOLD_CHANGE, u8_le(GOLD_CHANGE_LOSE) + u32_le(pending) + u32_le((gold - pending) as u32)),
            (WIZ_PREMIUM2, u8_le(SUB_RESPONSE) + u8_le(RESPONSE_MSG_1)),
        ]
    }
}

/// The packets as opcode and payload pairs.
pub open spec fn packet_views(pkts: Seq<Packet>) -> Seq<(u8, Seq<u8>)> {
    pkts.map_values(|p: Packet| (p.opcode, p.data@))
}

/// A request from the client. Only the confirmation (`[u8 2]`) from a player
/// in the game does anything: the pending tax is cleared; with none pending
/// the first message answers; when the gold does not cover it the second
/// message answers and the gold stays; else the tax is taken from the gold,
/// the gold change is sent and then the first message.
pub fn handle_premium2(in_game: bool, data: &[u8], pending_gate_tax: &mut u32, gold: &mut u32) -> (r: Vec<Packet>)
    ensures
        !(in_game && data@.len() > 0 && data@[0] == SUB_RESPONSE) ==> r@.len() == 0 && *final(pending_gate_tax)
            == *old(pending_gate_tax) && *final(gold) == *old(gold),
        in_game && data@.len() > 0 && data@[0] == SUB_RESPONSE ==> {
            &&& *final(pending_gate_tax) == 0
            &&& *final(gold) == gold_after_confirm(*old(pending_gate_tax), *old(gold))
            &&& packet_views(r@) == confirm_answers(*old(pending_gate_tax), *old(gold))
        },
{
    let mut out: Vec<Packet> = Vec::new();
    if !in_game || data.len() == 0 || data[0] != SUB_RESPONSE {
        proof {
            assert(packet_views(out@) =~= Seq::<(u8, Seq<u8>)>::empty());
        }
        return out;
    }
    let tax = *pending_gate_tax;
    *pending_gate_tax = 0;
    if tax == 0 {
        out.push(build_msg_1());
    } else if *gold < tax {
        out.push(build_msg_2());
    } else {
        let new_gold = *gold - tax;
        *gold = new_gold;
        out.push(build_gold_lose_packet(tax, new_gold));
        out.push(build_msg_1());
    }
    proof {
        assert(packet_views(out@) =~= confirm_answers(tax, *old(gold)));
    }
    out
}

/// A tax is taken once: the gold lost in a confirmation is the pending tax
/// or nothing, and a second confirmation, with the tax cleared, takes
/// nothing more.
pub proof fn lemma_gate_tax_taken_once(pending: u32, gold: u32)
    ensures
        gold_after_confirm(pending, gold) == gold || gold_after_confirm(pending, gold) + pending == gold,
        gold_after_confirm(0, gold_after_confirm(pending, gold)) == gold_after_confirm(pending, gold),
        gold_after_confirm(pending, gold) <= gold,
{
}

} // verus!
