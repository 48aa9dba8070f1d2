//! Manes Survival (WIZ_SURVIVAL 0xD0): registration, the score panel, the
//! skill and potion choices, and the event packets.
use vstd::prelude::*;
use crate::packet::{Packet, u8_le, u16_le};

verus! {

pub const WIZ_SURVIVAL: u8 = 0xD0;
pub const CATEGORY_REGISTRATION: u8 = 1;
pub const REG_OPEN: u8 = 1;
pub const REG_APPLY: u8 = 2;
pub const ACTION_APPLY: u16 = 1;
pub const ACTION_CANCEL: u16 = 2;
pub const CATEGORY_EVENT: u8 = 2;
pub const EVENT_START: u8 = 1;
pub const EVENT_PROGRESS: u8 = 2;
pub const EVENT_SCORE: u8 = 3;
pub const CATEGORY_SKILL: u8 = 6;
pub const SKILL_OPEN: u8 = 1;
pub const SELECTION_SUBMIT: u8 = 2;
pub const SKILL_COMPLETE: u8 = 5;
pub const SKILL_RESULT_FAILURE: u8 = 0;
pub const SELECTION_LIST_SKILL: u8 = 1;
pub const SELECTION_LIST_POTION: u8 = 2;
pub const REGISTRATION_DURATION_SECONDS: u16 = 600;
pub const EVENT_DURATION_SECONDS: u16 = 1_200;

/// Registration window: `[u8 1][u8 1][u16 seconds left][u16 participants]`.
pub fn build_registration_open(remaining_seconds: u16, participant_count: u16) -> (pkt: Packet)
    ensures
        pkt.opcode == WIZ_SURVIVAL,
        pkt.data@ == u8_le(CATEGORY_REGISTRATION) + u8_le(REG_OPEN) + u16_le(remaining_seconds) + u16_le(
            participant_count,
        ),
{
    let mut pkt = Packet::new(WIZ_SURVIVAL);
    pkt.write_u8(CATEGORY_REGISTRATION);
    pkt.write_u8(REG_OPEN);
    pkt.write_u16(remaining_seconds);
    pkt.write_u16(participant_count);
    pkt
}

/// Registration answer: `[u8 1][u8 2][i16 result]`, and the participant
/// count after a successful application (result 1).
pub fn build_registration_result(result: i16, participant_count: u16) -> (pkt: Packet)
    ensures
        pkt.opcode == WIZ_SURVIVAL,
        pkt.data@ == u8_le(CATEGORY_REGISTRATION) + u8_le(REG_APPLY) + u16_le(result as u16) + if result == 1 {
            u16_le(participant_count)
        } else {
            Seq::empty()
        },
{
    let mut pkt = Packet::new(WIZ_SURVIVAL);
    pkt.write_u8(CATEGORY_REGISTRATION);
    pkt.write_u8(REG_APPLY);
    pkt.write_u16(result as u16);
    if result == 1 {
        pkt.write_u16(participant_count);
    } else {
        assert(pkt.data@ =~= pkt.data@ + Seq::<u8>::empty());
    }
    pkt
}

/// Event start: `[u8 2][u8 1][u8 setting][u16 seconds][u16 exp][u16 max exp][u8 level]`.
pub fn build_event_start(
    survival_setting: u8,
    remaining_seconds: u16,
    survival_exp: u16,
    survival_max_exp: u16,
    survival_level: u8,
) -> (pkt: Packet)
    ensures
        pkt.opcode == WIZ_SURVIVAL,
        pkt.data@ == u8_le(CATEGORY_EVENT) + u8_le(EVENT_START) + u8_le(survival_setting) + u16_le(remaining_seconds)
            + u16_le(survival_exp) + u16_le(survival_max_exp) + u8_le(survival_level),
{
    let mut pkt = Packet::new(WIZ_SURVIVAL);
    pkt.write_u8(CATEGORY_EVENT);
    pkt.write_u8(EVENT_START);
    pkt.write_u8(survival_setting);
    pkt.write_u16(remaining_seconds);
    pkt.write_u16(survival_exp);
    pkt.write_u16(survival_max_exp);
    pkt.write_u8(survival_level);
    pkt
}

/// Progress update without resetting the skill bar: `[u8 2][u8 2][u16 exp][u16 max exp][u8 level]`.
pub fn build_event_progress(survival_exp: u16, survival_max_exp: u16, survival_level: u8) -> (pkt: Packet)
    ensures
        pkt.opcode == WIZ_SURVIVAL,
        pkt.data@ == u8_le(CATEGORY_EVENT) + u8_le(EVENT_PROGRESS) + u16_le(survival_exp) + u16_le(survival_max_exp)
            + u8_le(survival_level),
{
    let mut pkt = Packet::new(WIZ_SURVIVAL);
    pkt.write_u8(CATEGORY_EVENT);
    pkt.write_u8(EVENT_PROGRESS);
    pkt.write_u16(survival_exp);
    pkt.write_u16(survival_max_exp);
    pkt.write_u8(survival_level);
    pkt
}

/// Score panel: `[u8 2][u8 3][u16 score]`.
pub fn build_event_score(score: u16) -> (pkt: Packet)
    ensures
        pkt.opcode == WIZ_SURVIVAL,
        pkt.data@ == u8_le(CATEGORY_EVENT) + u8_le(EVENT_SCORE) + u16_le(score),
{
    let mut pkt = Packet::new(WIZ_SURVIVAL);
    pkt.write_u8(CATEGORY_EVENT);
    pkt.write_u8(EVENT_SCORE);
    pkt.write_u16(score);
    pkt
}

pub open spec fn u16_list_bytes(ids: Seq<u16>) -> Seq<u8>
    decreases ids.len(),
{
    if ids.len() == 0 {
        Seq::empty()
    } else {
        u16_list_bytes(ids.drop_last()) + u16_le(ids.last())
    }
}

fn write_u16_list(pkt: &mut Packet, ids: &[u16])
    ensures
        final(pkt).opcode == old(pkt).opcode,
        final(pkt).data@ == old(pkt).data@ + u16_list_bytes(ids@),
{
    let ghost start = pkt.data@;
    let mut i: usize = 0;
    while i < ids.len()
        invariant
            i <= ids@.len(),
            pkt.opcode == old(pkt).opcode,
            start == old(pkt).data@,
            pkt.data@ == start + u16_list_bytes(ids@.subrange(0, i as int)),
        decreases ids@.len() - i,
    {
        pkt.write_u16(ids[i]);
        proof {
            let next = ids@.subrange(0, i as int + 1);
            assert(next.drop_last() == ids@.subrange(0, i as int));
        }
        i = i + 1;
    }
    assert(ids@.subrange(0, ids@.len() as int) == ids@);
}

/// Skill choice window: `[u8 6][u8 1][u8 n]` and the skill IDs, then
/// `[u8 m]` and the potion IDs (each count taken modulo 256).
pub fn build_skill_selection_open(skill_choices: &[u16], potion_choices: &[u16]) -> (pkt: Packet)
    ensures
        pkt.opcode == WIZ_SURVIVAL,
        pkt.data@ == u8_le(CATEGORY_SKILL) + u8_le(SKILL_OPEN) + u8_le((skill_choices@.len() % 256) as u8)
            + u16_list_bytes(skill_choices@) + u8_le((potion_choices@.len() % 256) as u8) + u16_list_bytes(
            potion_choices@,
        ),
{
    let mut pkt = Packet::new(WIZ_SURVIVAL);
    pkt.write_u8(CATEGORY_SKILL);
    assert(pkt.data@ =~= u8_le(CATEGORY_SKILL));
    pkt.write_u8(SKILL_OPEN);
    pkt.write_u8((skill_choices.len() % 256) as u8);
    write_u16_list(&mut pkt, skill_choices);
    pkt.write_u8((potion_choices.len() % 256) as u8);
    write_u16_list(&mut pkt, potion_choices);
    pkt
}

/// Skill choice confirmed: `[u8 6][u8 5][i16 result]`.
pub fn build_skill_selection_result(result: i16) -> (pkt: Packet)
    ensures
        pkt.opcode == WIZ_SURVIVAL,
        pkt.data@ == u8_le(CATEGORY_SKILL) + u8_le(SKILL_COMPLETE) + u16_le(result as u16),
{
    let mut pkt = Packet::new(WIZ_SURVIVAL);
    pkt.write_u8(CATEGORY_SKILL);
    pkt.write_u8(SKILL_COMPLETE);
    pkt.write_u16(result as u16);
    pkt
}

/// List selection answered: `[u8 6][u8 2][u8 list][i16 result]`.
pub fn build_selection_submit_result(list_type: u8, result: i16) -> (pkt: Packet)
    ensures
        pkt.opcode == WIZ_SURVIVAL,
        pkt.data@ == u8_le(CATEGORY_SKILL) + u8_le(SELECTION_SUBMIT) + u8_le(list_type) + u16_le(result as u16),
{
    let mut pkt = Packet::new(WIZ_SURVIVAL);
    pkt.write_u8(CATEGORY_SKILL);
    pkt.write_u8(SELECTION_SUBMIT);
    pkt.write_u8(list_type);
    pkt.write_u16(result as u16);
    pkt
}

/// Seconds left of the registration window after `elapsed_seconds`
/// (nothing left once it is over).
pub open spec fn spec_registration_remaining(elapsed_seconds: u32) -> int {
    let e = if elapsed_seconds > u16::MAX { u16::MAX as int } else { elapsed_seconds as int };
    if e >= REGISTRATION_DURATION_SECONDS { 0 } else { REGISTRATION_DURATION_SECONDS - e }
}

/// The registration window everyone is sent: seconds left after
/// `elapsed_seconds`, and the participant count (capped at 65535).
pub fn broadcast_registration_status(elapsed_seconds: u32, participants: usize) -> (pkt: Packet)
    ensures
        pkt.opcode == WIZ_SURVIVAL,
        pkt.data@ == u8_le(CATEGORY_REGISTRATION) + u8_le(REG_OPEN) + u16_le(
            spec_registration_remaining(elapsed_seconds) as u16,
        ) + u16_le(if participants > u16::MAX { u16::MAX } else { participants as u16 }),
{
    let elapsed: u16 = if elapsed_seconds > 65535 { 65535 } else { elapsed_seconds as u16 };
    let remaining: u16 = if elapsed >= REGISTRATION_DURATION_SECONDS { 0 } else { REGISTRATION_DURATION_SECONDS - elapsed };
    let count: u16 = if participants > 65535 { 65535 } else { participants as u16 };
    build_registration_open(remaining, count)
}

/// The score shown for a Manes level: 20 per level above the first.
pub fn survival_score(level: u8) -> (r: u16)
    ensures
        r == (if level == 0 { 0 } else { (level - 1) * 20 }),
{
    let above: u16 = if level == 0 { 0 } else { (level - 1) as u16 };
    above * 20
}

/// The registration answer: 1 for an application taken, -1 for one
/// refused, 2 for a cancellation; nothing for any other action.
pub fn registration_result(action: u16, registered: bool) -> (r: Option<i16>)
    ensures
        r == if action == ACTION_APPLY {
            Some(if registered { 1i16 } else { -1i16 })
        } else if action == ACTION_CANCEL {
            Some(2i16)
        } else {
            None::<i16>
        },
{
    if action == ACTION_APPLY {
        Some(if registered { 1 } else { -1 })
    } else if action == ACTION_CANCEL {
        Some(2)
    } else {
        None
    }
}

/// A skill selection may complete: the state is not failure, nothing
/// follows the skill ID, and the skill was offered.
pub fn skill_completion_valid(requested_state: u8, no_trailing_data: bool, offered: bool) -> (r: bool)
    ensures
        r == (requested_state != SKILL_RESULT_FAILURE && no_trailing_data && offered),
{
    requested_state != SKILL_RESULT_FAILURE && no_trailing_data && offered
}

/// A potion may be bought from the choice list: it is the potion list,
/// nothing follows the ID, the potion was offered and is for sale, and
/// the player has the gold (the weight check and payment follow).
pub fn potion_purchase_allowed(
    list_type: u8,
    no_trailing_data: bool,
    offered: bool,
    price: Option<u32>,
    gold: Option<u32>,
) -> (r: bool)
    ensures
        r == (list_type == SELECTION_LIST_POTION && no_trailing_data && offered && price is Some && gold is Some
            && gold->0 >= price->0),
{
    let valid_request = list_type == SELECTION_LIST_POTION && no_trailing_data && offered && price.is_some();
    match (price, gold) {
        (Some(p), Some(g)) => valid_request && g >= p,
        _ => false,
    }
}


/// The price is taken for a potion: the purchase is allowed, the potion's
/// weight fits, and the purse covers the price.
pub open spec fn spec_potion_paid(allowed: bool, weight_ok: bool, gold: u32, price: u32) -> bool {
    allowed && weight_ok && gold >= price
}

/// First step of a potion purchase: takes the price from the purse when the
/// purchase is allowed, the weight fits and the gold suffices; says whether
/// it did. The item is to be given next, then `potion_purchase_finish`.
pub fn potion_purchase_pay(gold: &mut u32, allowed: bool, weight_ok: bool, price: u32) -> (paid: bool)
    ensures
        paid == spec_potion_paid(allowed, weight_ok, *old(gold), price),
        paid ==> *final(gold) == *old(gold) - price,
        !paid ==> *final(gold) == *old(gold),
{
    if allowed && weight_ok && *gold >= price {
        *gold = *gold - price;
        true
    } else {
        false
    }
}

/// The purse after the delivery of a paid potion: unchanged when the item
/// was given, else the price back (with a ceiling at `u32::MAX`).
pub open spec fn spec_after_delivery(gold: u32, price: u32, given: bool) -> u32 {
    if given {
        gold
    } else if gold + price > u32::MAX {
        u32::MAX
    } else {
        (gold + price) as u32
    }
}

/// Last step of a paid potion purchase: when the item could not be given
/// the price is refunded. Returns the submit result the client is sent:
/// 1 for a delivered potion, 0 for a refunded one.
pub fn potion_purchase_finish(gold: &mut u32, price: u32, given: bool) -> (result: i16)
    ensures
        *final(gold) == spec_after_delivery(*old(gold), price, given),
        result == if given { 1i16 } else { 0i16 },
{
    if given {
        1
    } else {
        *gold = (*gold).saturating_add(price);
        0
    }
}

/// A paid potion that cannot be given leaves the purse as it was before
/// the purchase.
pub proof fn lemma_undelivered_potion_refunded(gold: u32, price: u32, allowed: bool, weight_ok: bool)
    requires
        spec_potion_paid(allowed, weight_ok, gold, price),
    ensures
        spec_after_delivery((gold - price) as u32, price, false) == gold,
{
}

} // verus!
