//! Player-to-player trade (WIZ_EXCHANGE 0x30).
//!
//! The request, agree, add and decide steps are decisions over the two
//! traders' state; adding an item or gold changes one side's gold, bag and
//! trade window; before items change hands two checks run on each receiver;
//! and each received item lands in a bag slot.
use vstd::prelude::*;
use crate::packet::{Packet, u8_le, u16_le, u32_le};
use crate::inventory::{
    UserItemSlot, ItemProps, empty_slot, spec_in_no_trade_range, in_no_trade_range, SLOT_MAX,
    HAVE_MAX, ITEMCOUNT_MAX, ITEM_KIND_UNIQUE, ITEM_GOLD, RACE_UNTRADEABLE, COIN_MAX,
    ITEM_FLAG_RENTED, ITEM_FLAG_SEALED, ITEM_FLAG_BOUND, ITEM_FLAG_DUPLICATE,
};

verus! {

pub const WIZ_EXCHANGE: u8 = 0x30;

pub const EXCHANGE_REQ: u8 = 1;
pub const EXCHANGE_AGREE: u8 = 2;
pub const EXCHANGE_ADD: u8 = 3;
pub const EXCHANGE_OTHERADD: u8 = 4;
pub const EXCHANGE_DECIDE: u8 = 5;
pub const EXCHANGE_OTHERDECIDE: u8 = 6;
pub const EXCHANGE_DONE: u8 = 7;
pub const EXCHANGE_CANCEL: u8 = 8;

pub const TRADE_STATE_NONE: u8 = 1;
pub const TRADE_STATE_SENDER: u8 = 2;
pub const TRADE_STATE_TARGET: u8 = 3;
pub const TRADE_STATE_TRADING: u8 = 4;
pub const TRADE_STATE_DECIDING: u8 = 5;

/// Bag position the client sends when it offers gold.
pub const GOLD_POS: u8 = 255;

/// One entry of a trade window.
#[derive(Clone, Copy, Debug, PartialEq, Eq, Structural)]
pub struct ExchangeItem {
    pub item_id: u32,
    pub count: u32,
    pub durability: i16,
    pub serial_num: u64,
    pub src_pos: u8,
    pub dst_pos: u8,
}

/// One trader, as the exchange handlers read them.
pub struct TraderView {
    pub sid: u16,
    pub name: String,
    pub account: String,
    pub nation: u8,
    pub zone: u16,
    pub level: u8,
    pub authority: u8,
    pub dead: bool,
    pub trading: bool,
    pub merchanting: bool,
    pub mining: bool,
    pub fishing: bool,
    pub selling_prep: bool,
    pub buying_prep: bool,
    pub genie_active: bool,
    /// Trade state (`TRADE_STATE_*`).
    pub state: u8,
    /// The session this trader exchanges with, if any.
    pub partner: Option<u16>,
}

/// Unicode lower-case mapping of a string, as `str::to_lowercase` computes it.
pub uninterp spec fn lowercase_chars(s: Seq<char>) -> Seq<char>;

/// Calls `str::to_lowercase`. Its result is named, not restated: it is the
/// Unicode lower-case mapping of the argument, which depends on nothing else.
#[verifier::external_body]
fn to_lowercase(s: &str) -> (r: String)
    ensures
        r@ == lowercase_chars(s@),
{
    s.to_lowercase()
}

/// Two characters belong to one account: the first account name is set and
/// both agree once lower-cased.
pub open spec fn spec_same_account(mine: Seq<char>, theirs: Seq<char>) -> bool {
    mine.len() > 0 && lowercase_chars(mine) == lowercase_chars(theirs)
}

/// Whether a trade would be between two characters of one account
/// (compared without regard to case). An unset first account never matches.
pub fn same_account(mine: &str, theirs: &str) -> (r: bool)
    ensures
        r == spec_same_account(mine@, theirs@),
{
    if mine.is_empty() {
        return false;
    }
    let a = to_lowercase(mine);
    let b = to_lowercase(theirs);
    a == b
}

/// Busy with something that rules trading out (dead not included).
pub open spec fn spec_busy(t: TraderView) -> bool {
    t.mining || t.fishing || t.merchanting || t.selling_prep || t.buying_prep
}

fn busy(t: &TraderView) -> (r: bool)
    ensures
        r == spec_busy(*t),
{
    t.mining || t.fishing || t.merchanting || t.selling_prep || t.buying_prep
}

/// What an EXCHANGE_REQ leads to.
#[derive(Clone, Copy, Debug, PartialEq, Eq, Structural)]
pub enum RequestOutcome {
    /// The requester was already trading: that trade is cancelled instead.
    CancelCurrent,
    /// The request is refused with EXCHANGE_CANCEL.
    Refuse,
    /// Both sides enter the request states and the target is asked.
    Send,
}

pub open spec fn spec_request_outcome(
    me: TraderView,
    target_id: u16,
    target: Option<TraderView>,
    cross_nation_ok: bool,
    trade_level: i16,
) -> RequestOutcome {
    if me.trading {
        RequestOutcome::CancelCurrent
    } else {
        match target {
            None => RequestOutcome::Refuse,
            Some(t) => {
                if target_id == me.sid || t.authority == 0 || t.name@ == me.name@ || t.zone
                    != me.zone {
                    RequestOutcome::Refuse
                } else if spec_same_account(me.account@, t.account@) {
                    RequestOutcome::Refuse
                } else if me.nation != t.nation && !cross_nation_ok {
                    RequestOutcome::Refuse
                } else if t.dead || t.trading || spec_busy(t) || t.genie_active {
                    RequestOutcome::Refuse
                } else if (me.level as i16) < trade_level {
                    RequestOutcome::Refuse
                } else {
                    RequestOutcome::Send
                }
            },
        }
    }
}

/// EXCHANGE_REQ: whether `me` may ask `target_id` (looked up as `target`) to
/// trade. `cross_nation_ok` is whether the zone allows trade across nations;
/// `trade_level` is the server's minimum trade level. Game masters
/// (authority 0), oneself, another zone, one's own account, a busy or dead
/// target and a level below the minimum are refused.
pub fn exchange_request(
    me: &TraderView,
    target_id: u16,
    target: Option<&TraderView>,
    cross_nation_ok: bool,
    trade_level: i16,
) -> (r: RequestOutcome)
    ensures
        r == spec_request_outcome(
            *me,
            target_id,
opt_view(target),
            cross_nation_ok,
            trade_level,
        ),
{
    if me.trading {
        return RequestOutcome::CancelCurrent;
    }
    let t = match target {
        None => return RequestOutcome::Refuse,
        Some(t) => t,
    };
    if target_id == me.sid || t.authority == 0 || t.name == me.name || t.zone != me.zone {
        return RequestOutcome::Refuse;
    }
    if same_account(me.account.as_str(), t.account.as_str()) {
        return RequestOutcome::Refuse;
    }
    if me.nation != t.nation && !cross_nation_ok {
        return RequestOutcome::Refuse;
    }
    if t.dead || t.trading || busy(t) || t.genie_active {
        return RequestOutcome::Refuse;
    }
    if (me.level as i16) < trade_level {
        return RequestOutcome::Refuse;
    }
    RequestOutcome::Send
}

/// What an EXCHANGE_AGREE leads to.
#[derive(Clone, Copy, Debug, PartialEq, Eq, Structural)]
pub enum AgreeOutcome {
    /// No partner: nothing happens.
    Ignore,
    /// Not the side that was asked: EXCHANGE_CANCEL, states kept.
    Refuse,
    /// Both trades are reset and EXCHANGE_CANCEL is sent.
    Abort,
    /// The request is declined: both reset, the sender told.
    Decline,
    /// The request is accepted: both enter the trading state.
    Accept,
}

pub open spec fn spec_agree_outcome(
    me: TraderView,
    partner: Option<TraderView>,
    cross_nation_ok: bool,
    accepted: u8,
) -> AgreeOutcome {
    match partner {
        None => AgreeOutcome::Ignore,
        Some(p) => {
            if me.state != TRADE_STATE_TARGET {
                AgreeOutcome::Refuse
            } else if p.state != TRADE_STATE_SENDER || p.dead {
                AgreeOutcome::Abort
            } else if me.zone != p.zone || p.partner != Some(me.sid) || spec_busy(p) {
                AgreeOutcome::Abort
            } else if spec_same_account(me.account@, p.account@) {
                AgreeOutcome::Abort
            } else if me.nation != p.nation && !cross_nation_ok {
                AgreeOutcome::Abort
            } else if accepted == 0 {
                AgreeOutcome::Decline
            } else {
                AgreeOutcome::Accept
            }
        },
    }
}

/// Converts an optional reference to an optional value, for contracts.
pub open spec fn opt_view(t: Option<&TraderView>) -> Option<TraderView> {
    match t {
        Some(v) => Some(*v),
        None => None,
    }
}

/// EXCHANGE_AGREE: the asked side accepts (`accepted != 0`) or declines.
/// `partner` is the view of `me.partner`, present exactly when that is set.
/// The partner must still be the requesting side, alive, in the same zone,
/// paired with `me`, not busy, of another account, and of the same nation
/// unless the zone allows otherwise.
pub fn exchange_agree(
    me: &TraderView,
    partner: Option<&TraderView>,
    cross_nation_ok: bool,
    accepted: u8,
) -> (r: AgreeOutcome)
    ensures
        r == spec_agree_outcome(*me, opt_view(partner), cross_nation_ok, accepted),
{
    let p = match partner {
        None => return AgreeOutcome::Ignore,
        Some(p) => p,
    };
    if me.state != TRADE_STATE_TARGET {
        return AgreeOutcome::Refuse;
    }
    if p.state != TRADE_STATE_SENDER || p.dead {
        return AgreeOutcome::Abort;
    }
    if me.zone != p.zone || p.partner != Some(me.sid) || busy(p) {
        return AgreeOutcome::Abort;
    }
    if same_account(me.account.as_str(), p.account.as_str()) {
        return AgreeOutcome::Abort;
    }
    if me.nation != p.nation && !cross_nation_ok {
        return AgreeOutcome::Abort;
    }
    if accepted == 0 {
        AgreeOutcome::Decline
    } else {
        AgreeOutcome::Accept
    }
}

/// Whether EXCHANGE_ADD may go on to the item itself.
#[derive(Clone, Copy, Debug, PartialEq, Eq, Structural)]
pub enum AddPrecheck {
    /// No partner: nothing happens.
    Ignore,
    /// EXCHANGE_ADD failure is sent.
    Fail,
    /// The whole trade is cancelled.
    Cancel,
    /// The item may be looked at.
    Proceed,
}

pub open spec fn spec_add_precheck(me: TraderView, partner: Option<TraderView>, cross_nation_ok: bool) -> AddPrecheck {
    if me.mining || me.fishing || me.merchanting || me.selling_prep {
        AddPrecheck::Fail
    } else {
        match partner {
            None => AddPrecheck::Ignore,
            Some(p) => {
                if me.state != TRADE_STATE_TRADING {
                    AddPrecheck::Fail
                } else if me.zone != p.zone || p.partner != Some(me.sid) || p.dead || spec_busy(p) {
                    AddPrecheck::Cancel
                } else if me.nation != p.nation && !cross_nation_ok {
                    AddPrecheck::Cancel
                } else if me.sid == p.sid || me.name@ == p.name@ || spec_same_account(
                    me.account@,
                    p.account@,
                ) {
                    AddPrecheck::Cancel
                } else if p.state != TRADE_STATE_TRADING && p.state != TRADE_STATE_DECIDING {
                    AddPrecheck::Fail
                } else {
                    AddPrecheck::Proceed
                }
            },
        }
    }
}

/// EXCHANGE_ADD, first part: the traders' state. `partner` is the view of
/// `me.partner`, present exactly when that is set. A partner that is gone
/// elsewhere, dead, busy, of another nation where that is not allowed, or
/// the same character or account cancels the trade; a partner may still be
/// trading or already deciding.
pub fn exchange_add_precheck(me: &TraderView, partner: Option<&TraderView>, cross_nation_ok: bool) -> (r: AddPrecheck)
    ensures
        r == spec_add_precheck(*me, opt_view(partner), cross_nation_ok),
{
    if me.mining || me.fishing || me.merchanting || me.selling_prep {
        return AddPrecheck::Fail;
    }
    let p = match partner {
        None => return AddPrecheck::Ignore,
        Some(p) => p,
    };
    if me.state != TRADE_STATE_TRADING {
        return AddPrecheck::Fail;
    }
    if me.zone != p.zone || p.partner != Some(me.sid) || p.dead || busy(p) {
        return AddPrecheck::Cancel;
    }
    if me.nation != p.nation && !cross_nation_ok {
        return AddPrecheck::Cancel;
    }
    if me.sid == p.sid || me.name == p.name || same_account(me.account.as_str(), p.account.as_str()) {
        return AddPrecheck::Cancel;
    }
    if p.state != TRADE_STATE_TRADING && p.state != TRADE_STATE_DECIDING {
        return AddPrecheck::Fail;
    }
    AddPrecheck::Proceed
}

/// One trader's gold, inventory (equipment slots, then the bag) and trade window.
pub struct TradeSide {
    pub gold: u32,
    pub inventory: Vec<UserItemSlot>,
    pub exchange: Vec<ExchangeItem>,
}

/// Whether the item itself may be offered: a count and an ID; gold only
/// from the gold position; anything else from a bag slot, outside the
/// no-trade range, a count (as 16 bits) under the stack limit, listed in the
/// item table, neither untradeable by race nor of countable kind 2.
pub open spec fn spec_offer_acceptable(pos: u8, item_id: u32, count: u32, props: Option<ItemProps>) -> bool {
    &&& count != 0 && item_id != 0
    &&& item_id == ITEM_GOLD ==> pos == GOLD_POS
    &&& item_id != ITEM_GOLD ==> {
        &&& (pos as int) < HAVE_MAX
        &&& !spec_in_no_trade_range(item_id)
        &&& count % 65536 < ITEMCOUNT_MAX
        &&& props is Some
        &&& props->0.race != RACE_UNTRADEABLE
        &&& props->0.countable != 2
    }
}

/// The window already holds an entry for the item.
pub open spec fn has_entry(s: Seq<ExchangeItem>, item_id: u32) -> bool {
    exists|i: int| 0 <= i < s.len() && s[i].item_id == item_id
}

/// `i` is the first entry of the window for the item.
pub open spec fn is_first_entry(s: Seq<ExchangeItem>, item_id: u32, i: int) -> bool {
    &&& 0 <= i < s.len()
    &&& s[i].item_id == item_id
    &&& forall|j: int| 0 <= j < i ==> s[j].item_id != item_id
}

/// The window is full: twelve items, plus one more place for gold.
pub open spec fn window_full(s: Seq<ExchangeItem>) -> bool {
    s.len() >= if has_entry(s, ITEM_GOLD) { 13int } else { 12int }
}

/// First entry of the window for the item, if any.
pub fn find_entry(s: &Vec<ExchangeItem>, item_id: u32) -> (r: Option<usize>)
    ensures
        r is Some ==> is_first_entry(s@, item_id, r->0 as int),
        r is None ==> !has_entry(s@, item_id),
{
    let mut i: usize = 0;
    while i < s.len()
        invariant
            i <= s@.len(),
            forall|j: int| 0 <= j < i ==> s@[j].item_id != item_id,
        decreases s@.len() - i,
    {
        if s[i].item_id == item_id {
            return Some(i);
        }
        i = i + 1;
    }
    None
}

/// A bag slot's state forbids trading it: rented, sealed, bound or
/// duplicated (compared exactly, not as bits), or with an expiry time.
pub open spec fn spec_slot_locked(s: UserItemSlot) -> bool {
    s.flag == ITEM_FLAG_RENTED || s.flag == ITEM_FLAG_SEALED || s.flag == ITEM_FLAG_BOUND || s.flag
        == ITEM_FLAG_DUPLICATE || s.expire_time > 0
}

/// The window with `count` more of the item: added to its first entry when
/// `merge` and one exists, else a new entry appended.
pub open spec fn window_after_add(s: Seq<ExchangeItem>, merge: bool, entry: ExchangeItem) -> Seq<ExchangeItem> {
    if merge && has_entry(s, entry.item_id) {
        let i = choose|i: int| is_first_entry(s, entry.item_id, i);
        s.update(i, ExchangeItem { count: (s[i].count + entry.count) as u32, ..s[i] })
    } else {
        s.push(entry)
    }
}

/// The bag slot after `taken` of its stack left for the window.
pub open spec fn slot_after_take(s: UserItemSlot, taken: u16) -> UserItemSlot {
    if s.count - taken == 0 {
        empty_slot()
    } else {
        UserItemSlot { count: (s.count - taken) as u16, ..s }
    }
}

/// What an accepted offer put in the window.
#[derive(Clone, Copy, Debug, PartialEq, Eq, Structural)]
pub struct AddedOffer {
    pub durability: i16,
    pub serial_num: u64,
    /// A new window entry was made (not merged into one).
    pub new_entry: bool,
}

/// The side's state leaves room for the offer.
pub open spec fn spec_offer_fits(side_gold: u32, inv: Seq<UserItemSlot>, window: Seq<ExchangeItem>, pos: u8, item_id: u32, count: u32) -> bool {
    &&& !window_full(window)
    &&& item_id == ITEM_GOLD ==> count <= side_gold
    &&& item_id != ITEM_GOLD ==> {
        let at = SLOT_MAX + pos;
        &&& at < inv.len()
        &&& inv[at].item_id == item_id
        &&& inv[at].count >= count % 65536
        &&& inv[at].count != 0
        &&& !spec_slot_locked(inv[at])
    }
}

proof fn lemma_first_entry_unique(s: Seq<ExchangeItem>, item_id: u32, i: int, j: int)
    requires
        is_first_entry(s, item_id, i),
        is_first_entry(s, item_id, j),
    ensures
        i == j,
{
    if i < j {
        assert(s[i].item_id != item_id);
    } else if j < i {
        assert(s[j].item_id != item_id);
    }
}

/// Adds the entry's count to entry `found` of the window, or appends the
/// entry when there is none; says whether it appended.
fn merge_or_push(window: &mut Vec<ExchangeItem>, found: Option<usize>, entry: ExchangeItem) -> (appended: bool)
    requires
        found is Some ==> is_first_entry(old(window)@, entry.item_id, found->0 as int)
            && old(window)@[found->0 as int].count + entry.count <= u32::MAX,
    ensures
        appended == found is None,
        found is None ==> final(window)@ == old(window)@.push(entry),
        found is Some ==> final(window)@ == window_after_add(old(window)@, true, entry),
{
    match found {
        None => {
            window.push(entry);
            true
        },
        Some(i) => {
            let e = window[i];
            window.set(i, ExchangeItem { count: e.count + entry.count, ..e });
            proof {
                let k = choose|k: int| is_first_entry(old(window)@, entry.item_id, k);
                lemma_first_entry_unique(old(window)@, entry.item_id, k, i as int);
            }
            false
        },
    }
}

/// One offer made to the trade window.
#[derive(Clone, Copy, Debug, PartialEq, Eq, Structural)]
pub struct TradeOffer {
    pub pos: u8,
    pub item_id: u32,
    pub count: u32,
    pub props: Option<ItemProps>,
}

/// A side's gold, inventory and window after one offer, as
/// `exchange_add_item` makes it: unchanged when the offer is refused.
pub open spec fn offer_step(st: (u32, Seq<UserItemSlot>, Seq<ExchangeItem>), o: TradeOffer) -> (
    u32,
    Seq<UserItemSlot>,
    Seq<ExchangeItem>,
) {
    if !(spec_offer_acceptable(o.pos, o.item_id, o.count, o.props) && spec_offer_fits(
        st.0,
        st.1,
        st.2,
        o.pos,
        o.item_id,
        o.count,
    )) {
        st
    } else if o.item_id == ITEM_GOLD {
        (
            (st.0 - o.count) as u32,
            st.1,
            window_after_add(
                st.2,
                true,
                ExchangeItem { item_id: o.item_id, count: o.count, durability: 0, serial_num: 0, src_pos: GOLD_POS, dst_pos: 0 },
            ),
        )
    } else {
        let at = SLOT_MAX + o.pos;
        let slot = st.1[at];
        (
            st.0,
            st.1.update(at, slot_after_take(slot, (o.count % 65536) as u16)),
            window_after_add(
                st.2,
                o.props->0.countable > 0,
                ExchangeItem {
                    item_id: o.item_id,
                    count: o.count,
                    durability: slot.durability,
                    serial_num: slot.serial_num,
                    src_pos: at as u8,
                    dst_pos: 0,
                },
            ),
        )
    }
}

/// A side's gold, inventory and window after a sequence of offers.
pub open spec fn offers_applied(st: (u32, Seq<UserItemSlot>, Seq<ExchangeItem>), offers: Seq<TradeOffer>) -> (
    u32,
    Seq<UserItemSlot>,
    Seq<ExchangeItem>,
)
    decreases offers.len(),
{
    if offers.len() == 0 {
        st
    } else {
        offer_step(offers_applied(st, offers.drop_last()), offers.last())
    }
}

/// EXCHANGE_ADD, second part: one offer of `count` of `item_id` from bag
/// position `pos` (or gold from `GOLD_POS`), with the item table's `props`.
/// On success gold leaves the purse or the count leaves the bag slot (an
/// emptied slot is cleared), and the window gets the item: gold, and
/// countable items, merge into their first entry; the rest get a new entry
/// that remembers the bag slot, durability and serial. On failure nothing
/// changes. `count` is taken from the bag as 16 bits but kept whole in the
/// window.
pub fn exchange_add_item(side: &mut TradeSide, pos: u8, item_id: u32, count: u32, props: Option<ItemProps>) -> (r: Option<AddedOffer>)
    requires
        forall|i: int|
            0 <= i < old(side).exchange@.len() && old(side).exchange@[i].item_id == item_id
                ==> old(side).exchange@[i].count + count <= u32::MAX,
    ensures
        r is Some <==> spec_offer_acceptable(pos, item_id, count, props) && spec_offer_fits(
            old(side).gold,
            old(side).inventory@,
            old(side).exchange@,
            pos,
            item_id,
            count,
        ),
        r is None ==> final(side).gold == old(side).gold && final(side).inventory@ == old(side).inventory@
            && final(side).exchange@ == old(side).exchange@,
        r is Some && item_id == ITEM_GOLD ==> {
            &&& final(side).gold == old(side).gold - count
            &&& final(side).inventory@ == old(side).inventory@
            &&& final(side).exchange@ == window_after_add(
                old(side).exchange@,
                true,
                ExchangeItem { item_id, count, durability: 0, serial_num: 0, src_pos: GOLD_POS, dst_pos: 0 },
            )
            &&& r->0 == AddedOffer { durability: 0, serial_num: 0, new_entry: !has_entry(old(side).exchange@, ITEM_GOLD) }
        },
        r is Some && item_id != ITEM_GOLD ==> {
            let at = SLOT_MAX + pos;
            let slot = old(side).inventory@[at];
            let merge = props->0.countable > 0;
            &&& final(side).gold == old(side).gold
            &&& final(side).inventory@ == old(side).inventory@.update(at, slot_after_take(slot, (count % 65536) as u16))
            &&& final(side).exchange@ == window_after_add(
                old(side).exchange@,
                merge,
                ExchangeItem {
                    item_id,
                    count,
                    durability: slot.durability,
                    serial_num: slot.serial_num,
                    src_pos: at as u8,
                    dst_pos: 0,
                },
            )
            &&& r->0 == AddedOffer {
                durability: slot.durability,
                serial_num: slot.serial_num,
                new_entry: !(merge && has_entry(old(side).exchange@, item_id)),
            }
        },
        (final(side).gold, final(side).inventory@, final(side).exchange@) == offer_step(
            (old(side).gold, old(side).inventory@, old(side).exchange@),
            TradeOffer { pos, item_id, count, props },
        ),
{
    // The offer itself.
    if count == 0 || item_id == 0 {
        return None;
    }
    if item_id == ITEM_GOLD && pos != GOLD_POS {
        return None;
    }
    if item_id != ITEM_GOLD {
        if pos as usize >= HAVE_MAX {
            return None;
        }
        if in_no_trade_range(item_id) {
            return None;
        }
        if (count % 65536) as u16 >= ITEMCOUNT_MAX {
            return None;
        }
        match props {
            None => return None,
            Some(p) => {
                if p.race == RACE_UNTRADEABLE || p.countable == 2 {
                    return None;
                }
            },
        }
    }
    // Room in the window.
    let has_gold = find_entry(&side.exchange, ITEM_GOLD).is_some();
    let max_items: usize = if has_gold { 13 } else { 12 };
    if side.exchange.len() >= max_items {
        return None;
    }
    if item_id == ITEM_GOLD {
        if count > side.gold {
            return None;
        }
        let entry = ExchangeItem { item_id, count, durability: 0, serial_num: 0, src_pos: GOLD_POS, dst_pos: 0 };
        let found = find_entry(&side.exchange, ITEM_GOLD);
        let new_entry = merge_or_push(&mut side.exchange, found, entry);
        side.gold = side.gold - count;
        Some(AddedOffer { durability: 0, serial_num: 0, new_entry })
    } else {
        let at: usize = SLOT_MAX + pos as usize;
        if at >= side.inventory.len() {
            return None;
        }
        let slot = side.inventory[at];
        let taken: u16 = (count % 65536) as u16;
        if slot.item_id != item_id || slot.count < taken || slot.count == 0 {
            return None;
        }
        if slot.flag == ITEM_FLAG_RENTED || slot.flag == ITEM_FLAG_SEALED || slot.flag == ITEM_FLAG_BOUND
            || slot.flag == ITEM_FLAG_DUPLICATE || slot.expire_time > 0 {
            return None;
        }
        let countable = match props {
            Some(p) => p.countable,
            None => 0,
        };
        let found = if countable > 0 {
            find_entry(&side.exchange, item_id)
        } else {
            None
        };
        let entry = ExchangeItem {
            item_id,
            count,
            durability: slot.durability,
            serial_num: slot.serial_num,
            src_pos: at as u8,
            dst_pos: 0,
        };
        let new_entry = merge_or_push(&mut side.exchange, found, entry);
        let left: u16 = slot.count - taken;
        let new_slot = if left == 0 {
            UserItemSlot::empty()
        } else {
            UserItemSlot { count: left, ..slot }
        };
        side.inventory.set(at, new_slot);
        Some(AddedOffer { durability: slot.durability, serial_num: slot.serial_num, new_entry })
    }
}

/// What EXCHANGE_ADD leads to.
#[derive(Clone, Copy, Debug, PartialEq, Eq, Structural)]
pub enum AddResult {
    Ignored,
    /// The whole trade is cancelled.
    Cancelled,
    /// EXCHANGE_ADD failure is sent; nothing changed.
    Failed,
    /// EXCHANGE_ADD success is sent and the partner is shown the item.
    Added(AddedOffer),
}

/// EXCHANGE_ADD: the check of the traders' state, then the offer itself.
/// `side` changes only when the result is `Added`, and then exactly as
/// `exchange_add_item` states: gold leaves the purse into the gold entry
/// (appended with the gold position as source when there is none), or the
/// count leaves the bag slot into the window.
pub fn exchange_add(
    me: &TraderView,
    partner: Option<&TraderView>,
    cross_nation_ok: bool,
    side: &mut TradeSide,
    pos: u8,
    item_id: u32,
    count: u32,
    props: Option<ItemProps>,
) -> (r: AddResult)
    requires
        forall|i: int|
            0 <= i < old(side).exchange@.len() && old(side).exchange@[i].item_id == item_id
                ==> old(side).exchange@[i].count + count <= u32::MAX,
    ensures
        spec_add_precheck(*me, opt_view(partner), cross_nation_ok) == AddPrecheck::Ignore <==> r == AddResult::Ignored,
        spec_add_precheck(*me, opt_view(partner), cross_nation_ok) == AddPrecheck::Cancel <==> r == AddResult::Cancelled,
        r is Added <==> spec_add_precheck(*me, opt_view(partner), cross_nation_ok) == AddPrecheck::Proceed
            && spec_offer_acceptable(pos, item_id, count, props)
            && spec_offer_fits(old(side).gold, old(side).inventory@, old(side).exchange@, pos, item_id, count),
        !(r is Added) ==> final(side).gold == old(side).gold && final(side).inventory@ == old(side).inventory@
            && final(side).exchange@ == old(side).exchange@,
        r is Added && item_id == ITEM_GOLD ==> {
            &&& final(side).gold == old(side).gold - count
            &&& final(side).inventory@ == old(side).inventory@
            &&& final(side).exchange@ == window_after_add(
                old(side).exchange@,
                true,
                ExchangeItem { item_id, count, durability: 0, serial_num: 0, src_pos: GOLD_POS, dst_pos: 0 },
            )
            &&& r->0 == AddedOffer { durability: 0, serial_num: 0, new_entry: !has_entry(old(side).exchange@, ITEM_GOLD) }
        },
        r is Added && item_id != ITEM_GOLD ==> {
            let at = SLOT_MAX + pos;
            let slot = old(side).inventory@[at];
            let merge = props->0.countable > 0;
            &&& final(side).gold == old(side).gold
            &&& final(side).inventory@ == old(side).inventory@.update(at, slot_after_take(slot, (count % 65536) as u16))
            &&& final(side).exchange@ == window_after_add(
                old(side).exchange@,
                merge,
                ExchangeItem {
                    item_id,
                    count,
                    durability: slot.durability,
                    serial_num: slot.serial_num,
                    src_pos: at as u8,
                    dst_pos: 0,
                },
            )
            &&& r->0 == AddedOffer {
                durability: slot.durability,
                serial_num: slot.serial_num,
                new_entry: !(merge && has_entry(old(side).exchange@, item_id)),
            }
        },
{
    match exchange_add_precheck(me, partner, cross_nation_ok) {
        AddPrecheck::Ignore => AddResult::Ignored,
        AddPrecheck::Cancel => AddResult::Cancelled,
        AddPrecheck::Fail => AddResult::Failed,
        AddPrecheck::Proceed => match exchange_add_item(side, pos, item_id, count, props) {
            Some(a) => AddResult::Added(a),
            None => AddResult::Failed,
        },
    }
}

/// What EXCHANGE_DECIDE leads to.
#[derive(Clone, Copy, Debug, PartialEq, Eq, Structural)]
pub enum DecideStep {
    /// Nothing happens.
    Ignore,
    /// This side now decides; the partner is told (EXCHANGE_OTHERDECIDE).
    AwaitPartner,
    /// Both have decided: the checks run and the items change hands.
    Settle,
}

pub open spec fn spec_decide_step(me: TraderView, partner: Option<TraderView>) -> DecideStep {
    if me.state != TRADE_STATE_TRADING {
        DecideStep::Ignore
    } else {
        match partner {
            None => DecideStep::Ignore,
            Some(p) => {
                if me.zone != p.zone || p.partner != Some(me.sid) || p.dead || p.mining || p.merchanting {
                    DecideStep::Ignore
                } else if p.state != TRADE_STATE_DECIDING && p.state != TRADE_STATE_TRADING {
                    DecideStep::Ignore
                } else if p.state != TRADE_STATE_DECIDING {
                    DecideStep::AwaitPartner
                } else {
                    DecideStep::Settle
                }
            },
        }
    }
}

/// EXCHANGE_DECIDE: the first side to decide waits for the other; the
/// second settles the trade. `partner` is the view of `me.partner`.
pub fn exchange_decide(me: &TraderView, partner: Option<&TraderView>) -> (r: DecideStep)
    ensures
        r == spec_decide_step(*me, opt_view(partner)),
{
    if me.state != TRADE_STATE_TRADING {
        return DecideStep::Ignore;
    }
    let p = match partner {
        None => return DecideStep::Ignore,
        Some(p) => p,
    };
    if me.zone != p.zone || p.partner != Some(me.sid) || p.dead || p.mining || p.merchanting {
        return DecideStep::Ignore;
    }
    if p.state != TRADE_STATE_DECIDING && p.state != TRADE_STATE_TRADING {
        return DecideStep::Ignore;
    }
    if p.state != TRADE_STATE_DECIDING {
        DecideStep::AwaitPartner
    } else {
        DecideStep::Settle
    }
}

/// A receiver's state as the first settlement check reads it.
#[derive(Clone, Copy, Debug, PartialEq, Eq, Structural)]
pub struct ReceiverState {
    pub has_partner: bool,
    pub dead: bool,
    pub trading: bool,
    /// The receiver's gold, if their character is known.
    pub gold: Option<u32>,
    pub free_slots: u8,
    pub item_weight: u32,
    pub max_weight: u32,
}

/// One entry of the partner's window, with what the world says of it for
/// this receiver.
#[derive(Clone, Copy, Debug, PartialEq, Eq, Structural)]
pub struct IncomingItem {
    pub item: ExchangeItem,
    /// The item table's entry, if listed.
    pub props: Option<ItemProps>,
    /// Where the item would go in the receiver's inventory, if anywhere.
    pub dst_slot: Option<usize>,
    /// The item now at the entry's source slot in the partner's inventory.
    pub src_item_id: Option<u32>,
    /// The item now in the destination slot (0 when empty or none).
    pub dst_item_id: u32,
}

pub open spec fn sat_u32(x: int) -> int {
    if x > u32::MAX { u32::MAX as int } else { x }
}

/// Weight (added up with a ceiling at `u32::MAX`) and number of the non-gold
/// items, or `None` when gold would overflow the purse or an item is not
/// in the item table.
pub open spec fn scan_incoming(items: Seq<IncomingItem>, gold: Option<u32>) -> Option<(int, int)>
    decreases items.len(),
{
    if items.len() == 0 {
        Some((0, 0))
    } else {
        match scan_incoming(items.drop_last(), gold) {
            None => None,
            Some(acc) => {
                let it = items.last();
                if it.item.item_id == ITEM_GOLD {
                    match gold {
                        None => None,
                        Some(g) => if g + it.item.count > COIN_MAX { None } else { Some(acc) },
                    }
                } else {
                    match it.props {
                        None => None,
                        Some(p) => Some((sat_u32(acc.0 + p.weight), acc.1 + 1)),
                    }
                }
            },
        }
    }
}

pub open spec fn spec_check_exchange(recv: ReceiverState, items: Seq<IncomingItem>) -> bool {
    &&& recv.has_partner
    &&& !recv.dead && recv.trading
    &&& match scan_incoming(items, recv.gold) {
        None => false,
        Some(acc) => acc.1 <= recv.free_slots && acc.0 + recv.item_weight <= recv.max_weight,
    }
}

/// First settlement check: the receiver can take what the partner offers.
/// Gold must fit under the purse limit; every item must be in the item
/// table; the items need as many free bag slots; and their weight must fit
/// under the receiver's limit.
pub fn check_exchange(recv: &ReceiverState, items: &[IncomingItem]) -> (r: bool)
    requires
        items@.len() <= 255,
    ensures
        r == spec_check_exchange(*recv, items@),
{
    if !recv.has_partner {
        return false;
    }
    if recv.dead || !recv.trading {
        return false;
    }
    let mut total_weight: u32 = 0;
    let mut item_count: u8 = 0;
    let mut i: usize = 0;
    while i < items.len()
        invariant
            i <= items@.len() <= 255,
            scan_incoming(items@.subrange(0, i as int), recv.gold) == Some((total_weight as int, item_count as int)),
            item_count <= i,
        decreases items@.len() - i,
    {
        let it = items[i];
        proof {
            assert(items@.subrange(0, i as int + 1).drop_last() == items@.subrange(0, i as int));
        }
        if it.item.item_id == ITEM_GOLD {
            match recv.gold {
                None => {
                    proof { lemma_scan_none_stays(items@, recv.gold, i as int + 1); }
                    return false;
                },
                Some(g) => {
                    if (g as u64) + (it.item.count as u64) > COIN_MAX as u64 {
                        proof { lemma_scan_none_stays(items@, recv.gold, i as int + 1); }
                        return false;
                    }
                },
            }
        } else {
            match it.props {
                None => {
                    proof { lemma_scan_none_stays(items@, recv.gold, i as int + 1); }
                    return false;
                },
                Some(p) => {
                    total_weight = total_weight.saturating_add(p.weight);
                    item_count = item_count + 1;
                },
            }
        }
        i = i + 1;
    }
    proof {
        assert(items@.subrange(0, items@.len() as int) == items@);
    }
    if item_count > recv.free_slots {
        return false;
    }
    (total_weight as u64) + (recv.item_weight as u64) <= recv.max_weight as u64
}

/// Once a prefix fails the scan, every longer prefix fails too.
proof fn lemma_scan_none_stays(items: Seq<IncomingItem>, gold: Option<u32>, k: int)
    requires
        0 <= k <= items.len(),
        scan_incoming(items.subrange(0, k), gold) is None,
    ensures
        scan_incoming(items, gold) is None,
    decreases items.len() - k,
{
    if k < items.len() {
        assert(items.subrange(0, k + 1).drop_last() == items.subrange(0, k));
        lemma_scan_none_stays(items, gold, k + 1);
    } else {
        assert(items.subrange(0, k) == items);
    }
}

/// The incoming entry can be placed: gold always; an item must be in the
/// item table, have a destination in the inventory, still be at its source
/// slot, and the destination must be empty or hold the same item (and be
/// empty for a unique item).
pub open spec fn spec_placeable(it: IncomingItem) -> bool {
    it.item.item_id == ITEM_GOLD || {
        &&& it.props is Some
        &&& it.dst_slot is Some && it.dst_slot->0 < SLOT_MAX + HAVE_MAX
        &&& it.src_item_id == Some(it.item.item_id)
        &&& !(it.props->0.kind == ITEM_KIND_UNIQUE && it.dst_item_id != 0)
        &&& (it.dst_item_id == it.item.item_id || it.dst_item_id == 0)
    }
}

fn placeable(it: &IncomingItem) -> (r: bool)
    ensures
        r == spec_placeable(*it),
{
    if it.item.item_id == ITEM_GOLD {
        return true;
    }
    let props = match it.props {
        None => return false,
        Some(props) => props,
    };
    match it.dst_slot {
        Some(d) => {
            if d >= SLOT_MAX + HAVE_MAX {
                return false;
            }
        },
        None => return false,
    }
    match it.src_item_id {
        Some(src) => {
            if src != it.item.item_id {
                return false;
            }
        },
        None => return false,
    }
    if props.kind == ITEM_KIND_UNIQUE && it.dst_item_id != 0 {
        return false;
    }
    it.dst_item_id == it.item.item_id || it.dst_item_id == 0
}

pub open spec fn spec_check_execute_exchange(
    me: TraderView,
    partner: Option<TraderView>,
    cross_nation_ok: bool,
    items: Seq<IncomingItem>,
) -> bool {
    &&& me.state == TRADE_STATE_DECIDING
    &&& me.trading && !spec_busy(me)
    &&& partner is Some
    &&& {
        let p = partner->0;
        &&& p.partner == Some(me.sid)
        &&& p.zone == me.zone
        &&& !spec_busy(p)
        &&& (me.nation != p.nation ==> cross_nation_ok)
    }
    &&& forall|i: int| 0 <= i < items.len() ==> #[trigger] spec_placeable(items[i])
}

/// Second settlement check, run by the side that receives `items` (the
/// partner's window): `me` must be deciding and free, the partner paired
/// with `me` in the same zone and free, the nations compatible, and every
/// item placeable. `partner` is the view of `me.partner`.
pub fn check_execute_exchange(
    me: &TraderView,
    partner: Option<&TraderView>,
    cross_nation_ok: bool,
    items: &[IncomingItem],
) -> (r: bool)
    ensures
        r == spec_check_execute_exchange(*me, opt_view(partner), cross_nation_ok, items@),
{
    if me.state != TRADE_STATE_DECIDING {
        return false;
    }
    if !me.trading || busy(me) {
        return false;
    }
    let p = match partner {
        None => return false,
        Some(p) => p,
    };
    if p.partner != Some(me.sid) || p.zone != me.zone || busy(p) {
        return false;
    }
    if me.nation != p.nation && !cross_nation_ok {
        return false;
    }
    let mut i: usize = 0;
    while i < items.len()
        invariant
            i <= items@.len(),
            forall|j: int| 0 <= j < i ==> #[trigger] spec_placeable(items@[j]),
        decreases items@.len() - i,
    {
        if !placeable(&items[i]) {
            assert(!spec_placeable(items@[i as int]));
            return false;
        }
        i = i + 1;
    }
    true
}

/// One item as its receiver gets it, for EXCHANGE_DONE.
#[derive(Clone, Copy, Debug, PartialEq, Eq, Structural)]
pub struct ReceivedItem {
    /// Bag position (inventory slot less the equipment slots).
    pub dst_pos: u8,
    pub item_id: u32,
    pub count: u16,
    pub durability: i16,
    pub serial_num: u64,
}

/// The destination slot after the item lands in it: the item's ID; its
/// count added to the stack up to the limit, or exactly 1 for items that
/// do not stack; and the item's durability and serial when the slot was
/// empty.
pub open spec fn slot_after_receive(slot: UserItemSlot, item: ExchangeItem, countable: i32) -> UserItemSlot {
    let stacked = if slot.count + item.count % 65536 > ITEMCOUNT_MAX {
        ITEMCOUNT_MAX
    } else {
        (slot.count + item.count % 65536) as u16
    };
    UserItemSlot {
        item_id: item.item_id,
        count: if countable == 0 { 1u16 } else { stacked },
        durability: if slot.item_id == 0 { item.durability } else { slot.durability },
        serial_num: if slot.item_id == 0 { item.serial_num } else { slot.serial_num },
        ..slot
    }
}

/// Puts one received (non-gold) item into inventory slot `slot`, found for
/// it by the inventory, and says what the receiver is told of it. A slot
/// past the inventory's end leaves the inventory as it is. The stack is
/// added up in full before the limit applies, so a sum past 16 bits is
/// also capped at the limit.
pub fn receive_exchange_item(inv: &mut Vec<UserItemSlot>, slot: usize, item: &ExchangeItem, countable: i32) -> (r: ReceivedItem)
    requires
        SLOT_MAX <= slot,
    ensures
        slot < old(inv)@.len() ==> final(inv)@ == old(inv)@.update(
            slot as int,
            slot_after_receive(old(inv)@[slot as int], *item, countable),
        ),
        slot >= old(inv)@.len() ==> final(inv)@ == old(inv)@,
        r == (ReceivedItem {
            dst_pos: (slot - SLOT_MAX) as u8,
            item_id: item.item_id,
            count: if countable == 0 { 1u16 } else { (item.count % 65536) as u16 },
            durability: item.durability,
            serial_num: item.serial_num,
        }),
{
    if slot < inv.len() {
        let old_slot = inv[slot];
        let added: u32 = item.count % 65536;
        let sum: u32 = old_slot.count as u32 + added;
        let stacked: u16 = if sum > ITEMCOUNT_MAX as u32 { ITEMCOUNT_MAX } else { sum as u16 };
        let is_new = old_slot.item_id == 0;
        let new_slot = UserItemSlot {
            item_id: item.item_id,
            count: if countable == 0 { 1 } else { stacked },
            durability: if is_new { item.durability } else { old_slot.durability },
            serial_num: if is_new { item.serial_num } else { old_slot.serial_num },
            ..old_slot
        };
        inv.set(slot, new_slot);
    }
    let final_count: u16 = if countable == 0 { 1 } else { (item.count % 65536) as u16 };
    ReceivedItem {
        dst_pos: (slot - SLOT_MAX) as u8,
        item_id: item.item_id,
        count: final_count,
        durability: item.durability,
        serial_num: item.serial_num,
    }
}

/// Some non-gold window entry came from inventory slot `k`.
pub open spec fn is_item_source(items: Seq<ExchangeItem>, k: int) -> bool {
    exists|i: int| 0 <= i < items.len() && items[i].item_id != ITEM_GOLD && items[i].src_pos == k
}

/// After the exchange, clears the giver's source slots of non-gold entries
/// whose stack has run out.
pub fn clear_emptied_sources(inv: &mut Vec<UserItemSlot>, items: &[ExchangeItem])
    ensures
        final(inv)@.len() == old(inv)@.len(),
        forall|k: int|
            0 <= k < old(inv)@.len() ==> #[trigger] final(inv)@[k] == if is_item_source(items@, k)
                && old(inv)@[k].count == 0 {
                empty_slot()
            } else {
                old(inv)@[k]
            },
{
    let ghost start = inv@;
    let mut i: usize = 0;
    while i < items.len()
        invariant
            i <= items@.len(),
            inv@.len() == start.len(),
            forall|k: int|
                0 <= k < start.len() ==> #[trigger] inv@[k] == if is_item_source(items@.subrange(0, i as int), k)
                    && start[k].count == 0 {
                    empty_slot()
                } else {
                    start[k]
                },
        decreases items@.len() - i,
    {
        let it = items[i];
        let pos = it.src_pos as usize;
        if it.item_id != ITEM_GOLD && pos < inv.len() && inv[pos].count == 0 {
            inv.set(pos, UserItemSlot::empty());
        }
        proof {
            let next = items@.subrange(0, i as int + 1);
            assert forall|k: int| 0 <= k < start.len() implies #[trigger] inv@[k] == (if is_item_source(next, k)
                && start[k].count == 0 {
                empty_slot()
            } else {
                start[k]
            }) by {
                let prev = items@.subrange(0, i as int);
                if is_item_source(prev, k) {
                    let w = choose|w: int| 0 <= w < prev.len() && prev[w].item_id != ITEM_GOLD && prev[w].src_pos == k;
                    assert(next[w] == prev[w]);
                }
                if is_item_source(next, k) && !is_item_source(prev, k) {
                    let w = choose|w: int| 0 <= w < next.len() && next[w].item_id != ITEM_GOLD && next[w].src_pos == k;
                    if w < i {
                        assert(prev[w] == next[w]);
                    }
                }
                if it.item_id != ITEM_GOLD && it.src_pos == k {
                    assert(next[i as int] == it);
                }
            }
        }
        i = i + 1;
    }
    proof {
        assert(items@.subrange(0, items@.len() as int) == items@);
    }
}

/// What EXCHANGE_CANCEL does on each side.
#[derive(Clone, Copy, Debug, PartialEq, Eq, Structural)]
pub struct CancelPlan {
    /// Return this side's window, reset it and tell it.
    pub cancel_me: bool,
    /// Return the partner's window, reset it and tell it.
    pub cancel_partner: bool,
}

/// EXCHANGE_CANCEL: a side that is not trading does nothing; otherwise it is
/// cancelled, and so is its partner if still in a trade.
pub fn exchange_cancel(my_state: u8, partner_state: Option<u8>) -> (r: CancelPlan)
    ensures
        r.cancel_me == (my_state != TRADE_STATE_NONE),
        r.cancel_partner == (my_state != TRADE_STATE_NONE && partner_state is Some && partner_state->0
            != TRADE_STATE_NONE),
{
    if my_state == TRADE_STATE_NONE {
        return CancelPlan { cancel_me: false, cancel_partner: false };
    }
    let cancel_partner = match partner_state {
        Some(st) => st != TRADE_STATE_NONE,
        None => false,
    };
    CancelPlan { cancel_me: true, cancel_partner }
}

/// EXCHANGE_REQ to the target: `[u8 1][u32 requester]`.
pub fn build_exchange_request_packet(requester: u16) -> (pkt: Packet)
    ensures
        pkt.opcode == WIZ_EXCHANGE,
        pkt.data@ == u8_le(EXCHANGE_REQ) + u32_le(requester as u32),
{
    let mut pkt = Packet::new(WIZ_EXCHANGE);
    pkt.write_u8(EXCHANGE_REQ);
    pkt.write_u32(requester as u32);
    pkt
}

/// EXCHANGE_AGREE to the requester: `[u8 2][u16 1 accepted / 0 declined]`.
pub fn build_exchange_agree_packet(accepted: bool) -> (pkt: Packet)
    ensures
        pkt.opcode == WIZ_EXCHANGE,
        pkt.data@ == u8_le(EXCHANGE_AGREE) + u16_le(if accepted { 1u16 } else { 0u16 }),
{
    let mut pkt = Packet::new(WIZ_EXCHANGE);
    pkt.write_u8(EXCHANGE_AGREE);
    pkt.write_u16(if accepted { 1 } else { 0 });
    pkt
}

/// EXCHANGE_ADD answer: `[u8 3][u8 1 success / 0 failure]`.
pub fn build_exchange_add_result_packet(success: bool) -> (pkt: Packet)
    ensures
        pkt.opcode == WIZ_EXCHANGE,
        pkt.data@ == u8_le(EXCHANGE_ADD) + u8_le(if success { 1u8 } else { 0u8 }),
{
    let mut pkt = Packet::new(WIZ_EXCHANGE);
    pkt.write_u8(EXCHANGE_ADD);
    pkt.write_u8(if success { 1 } else { 0 });
    pkt
}

/// EXCHANGE_OTHERADD to the partner: `[u8 4][u32 item][u32 count]
/// [u16 durability]`, then the unique-item block for a new entry, or
/// `[u32 0]` when the count merged into an existing one.
pub fn build_exchange_other_add_packet(item_id: u32, count: u32, durability: i16, new_entry: bool, unique_info: &[u8]) -> (pkt: Packet)
    ensures
        pkt.opcode == WIZ_EXCHANGE,
        pkt.data@ == u8_le(EXCHANGE_OTHERADD) + u32_le(item_id) + u32_le(count) + u16_le(durability as u16)
            + if new_entry { unique_info@ } else { u32_le(0) },
{
    let mut pkt = Packet::new(WIZ_EXCHANGE);
    pkt.write_u8(EXCHANGE_OTHERADD);
    pkt.write_u32(item_id);
    pkt.write_u32(count);
    pkt.write_u16(durability as u16);
    if new_entry {
        pkt.write_bytes(unique_info);
    } else {
        pkt.write_u32(0);
    }
    pkt
}

/// EXCHANGE_OTHERDECIDE to the partner: `[u8 6]`.
pub fn build_exchange_other_decide_packet() -> (pkt: Packet)
    ensures
        pkt.opcode == WIZ_EXCHANGE,
        pkt.data@ == u8_le(EXCHANGE_OTHERDECIDE),
{
    let mut pkt = Packet::new(WIZ_EXCHANGE);
    pkt.write_u8(EXCHANGE_OTHERDECIDE);
    pkt
}

/// EXCHANGE_CANCEL: `[u8 8]`.
pub fn build_exchange_cancel_packet() -> (pkt: Packet)
    ensures
        pkt.opcode == WIZ_EXCHANGE,
        pkt.data@ == u8_le(EXCHANGE_CANCEL),
{
    let mut pkt = Packet::new(WIZ_EXCHANGE);
    pkt.write_u8(EXCHANGE_CANCEL);
    pkt
}

/// EXCHANGE_DONE for a failed settlement: `[u8 7][u8 0]`.
pub fn build_exchange_failed_packet() -> (pkt: Packet)
    ensures
        pkt.opcode == WIZ_EXCHANGE,
        pkt.data@ == u8_le(EXCHANGE_DONE) + u8_le(0),
{
    let mut pkt = Packet::new(WIZ_EXCHANGE);
    pkt.write_u8(EXCHANGE_DONE);
    pkt.write_u8(0);
    pkt
}

/// Bytes of one received item in EXCHANGE_DONE, before its unique-item block.
pub open spec fn received_item_bytes(it: ReceivedItem) -> Seq<u8> {
    u8_le(it.dst_pos) + u32_le(it.item_id) + u16_le(it.count) + u16_le(it.durability as u16) + u8_le(0)
}

/// The received items one after another, each followed by its block.
pub open spec fn received_items_bytes(items: Seq<ReceivedItem>, blocks: Seq<Vec<u8>>) -> Seq<u8>
    decreases items.len(),
{
    if items.len() == 0 {
        Seq::empty()
    } else {
        received_items_bytes(items.drop_last(), blocks) + received_item_bytes(items.last())
            + blocks[items.len() - 1]@
    }
}

/// EXCHANGE_DONE for a settled trade: `[u8 7][u8 1][u32 gold][u16 n]`, then
/// per received item `[u8 pos][u32 item][u16 count][u16 durability][u8 0]`
/// and its unique-item block (`blocks[i]` for `received[i]`).
pub fn build_exchange_done_packet(gold: u32, received: &[ReceivedItem], blocks: &[Vec<u8>]) -> (pkt: Packet)
    requires
        blocks@.len() == received@.len(),
    ensures
        pkt.opcode == WIZ_EXCHANGE,
        pkt.data@ == u8_le(EXCHANGE_DONE) + u8_le(1) + u32_le(gold) + u16_le((received@.len() % 65536) as u16)
            + received_items_bytes(received@, blocks@),
{
    let mut pkt = Packet::new(WIZ_EXCHANGE);
    pkt.write_u8(EXCHANGE_DONE);
    pkt.write_u8(1);
    pkt.write_u32(gold);
    pkt.write_u16((received.len() % 65536) as u16);
    let ghost head = pkt.data@;
    let mut i: usize = 0;
    while i < received.len()
        invariant
            i <= received@.len() == blocks@.len(),
            pkt.opcode == WIZ_EXCHANGE,
            pkt.data@ == head + received_items_bytes(received@.subrange(0, i as int), blocks@),
        decreases received@.len() - i,
    {
        let it = received[i];
        pkt.write_u8(it.dst_pos);
        pkt.write_u32(it.item_id);
        pkt.write_u16(it.count);
        pkt.write_u16(it.durability as u16);
        pkt.write_u8(0);
        pkt.write_bytes(blocks[i].as_slice());
        proof {
            let next = received@.subrange(0, i as int + 1);
            assert(next.drop_last() == received@.subrange(0, i as int));
            assert(next.last() == it);
            assert(pkt.data@ == head + received_items_bytes(next, blocks@));
        }
        i = i + 1;
    }
    proof {
        assert(received@.subrange(0, received@.len() as int) == received@);
    }
    pkt
}

/// Total count of the item over all window entries.
pub open spec fn window_total(s: Seq<ExchangeItem>, item_id: u32) -> int
    decreases s.len(),
{
    if s.len() == 0 {
        0
    } else {
        window_total(s.drop_last(), item_id) + if s.last().item_id == item_id { s.last().count as int } else { 0 }
    }
}

proof fn lemma_window_total_update(s: Seq<ExchangeItem>, i: int, e: ExchangeItem, item_id: u32)
    requires
        0 <= i < s.len(),
        s[i].item_id == e.item_id,
    ensures
        window_total(s.update(i, e), item_id) == window_total(s, item_id) + if e.item_id == item_id {
            e.count - s[i].count
        } else {
            0
        },
    decreases s.len(),
{
    let t = s.update(i, e);
    if i == s.len() - 1 {
        assert(t.drop_last() == s.drop_last());
    } else {
        assert(t.drop_last() == s.drop_last().update(i, e));
        lemma_window_total_update(s.drop_last(), i, e, item_id);
    }
}

/// A window within its limit: twelve items, thirteen entries once gold is in.
pub open spec fn window_within_limit(s: Seq<ExchangeItem>) -> bool {
    s.len() <= if has_entry(s, ITEM_GOLD) { 13int } else { 12int }
}

/// An accepted offer keeps the window within its limit: the window was not
/// full, and gold only ever adds its one extra place.
pub proof fn lemma_add_keeps_window_limit(s: Seq<ExchangeItem>, merge: bool, entry: ExchangeItem)
    requires
        !window_full(s),
    ensures
        window_within_limit(window_after_add(s, merge, entry)),
{
    let t = window_after_add(s, merge, entry);
    if merge && has_entry(s, entry.item_id) {
        let w = choose|w: int| 0 <= w < s.len() && s[w].item_id == entry.item_id;
        lemma_first_entry_exists(s, entry.item_id, w);
        let i = choose|i: int| is_first_entry(s, entry.item_id, i);
        assert(t.len() == s.len());
        if has_entry(s, ITEM_GOLD) {
            let g = choose|g: int| 0 <= g < s.len() && s[g].item_id == ITEM_GOLD;
            assert(t[g].item_id == ITEM_GOLD);
        }
    } else {
        if has_entry(s, ITEM_GOLD) {
            let g = choose|g: int| 0 <= g < s.len() && s[g].item_id == ITEM_GOLD;
            assert(t[g] == s[g]);
        }
    }
}

/// Adding to the window raises the item's window total by exactly the
/// entry's count, whether it merges or appends.
pub proof fn lemma_add_raises_window_total(s: Seq<ExchangeItem>, merge: bool, entry: ExchangeItem)
    requires
        merge && has_entry(s, entry.item_id) ==> {
            let i = choose|i: int| is_first_entry(s, entry.item_id, i);
            s[i].count + entry.count <= u32::MAX
        },
    ensures
        window_total(window_after_add(s, merge, entry), entry.item_id) == window_total(s, entry.item_id)
            + entry.count,
{
    if merge && has_entry(s, entry.item_id) {
        let w = choose|w: int| 0 <= w < s.len() && s[w].item_id == entry.item_id;
        lemma_first_entry_exists(s, entry.item_id, w);
        let i = choose|i: int| is_first_entry(s, entry.item_id, i);
        lemma_window_total_update(
            s,
            i,
            ExchangeItem { count: (s[i].count + entry.count) as u32, ..s[i] },
            entry.item_id,
        );
    } else {
        assert(s.push(entry).drop_last() == s);
    }
}

proof fn lemma_first_entry_exists(s: Seq<ExchangeItem>, item_id: u32, w: int)
    requires
        0 <= w < s.len(),
        s[w].item_id == item_id,
    ensures
        exists|i: int| is_first_entry(s, item_id, i),
    decreases w,
{
    if exists|j: int| 0 <= j < w && s[j].item_id == item_id {
        let j = choose|j: int| 0 <= j < w && s[j].item_id == item_id;
        lemma_first_entry_exists(s, item_id, j);
    } else {
        assert(is_first_entry(s, item_id, w));
    }
}

/// Offering gold moves it from the purse into the window: purse plus window
/// gold is the same before and after an accepted gold offer.
pub proof fn lemma_gold_offer_conserves_gold(old_gold: u32, s: Seq<ExchangeItem>, count: u32)
    requires
        count <= old_gold,
        forall|i: int| 0 <= i < s.len() && s[i].item_id == ITEM_GOLD ==> s[i].count + count <= u32::MAX,
    ensures
        (old_gold - count) + window_total(
            window_after_add(
                s,
                true,
                ExchangeItem { item_id: ITEM_GOLD, count, durability: 0, serial_num: 0, src_pos: GOLD_POS, dst_pos: 0 },
            ),
            ITEM_GOLD,
        ) == old_gold + window_total(s, ITEM_GOLD),
{
    let e = ExchangeItem { item_id: ITEM_GOLD, count, durability: 0, serial_num: 0, src_pos: GOLD_POS, dst_pos: 0 };
    if has_entry(s, ITEM_GOLD) {
        let w = choose|w: int| 0 <= w < s.len() && s[w].item_id == ITEM_GOLD;
        lemma_first_entry_exists(s, ITEM_GOLD, w);
    }
    lemma_add_raises_window_total(s, true, e);
}

pub const WIZ_ITEM_MOVE: u8 = 0x1F;

/// One bag slot in the inventory refresh, before its unique-item block.
pub open spec fn refresh_slot_bytes(slot: UserItemSlot) -> Seq<u8> {
    u32_le(slot.item_id) + u16_le(slot.durability as u16) + u16_le(slot.count) + u8_le(slot.flag) + u16_le(0)
}

/// The bag slots one after another, each with its block and expiry.
pub open spec fn refresh_slots_bytes(slots: Seq<UserItemSlot>, blocks: Seq<Vec<u8>>) -> Seq<u8>
    decreases slots.len(),
{
    if slots.len() == 0 {
        Seq::empty()
    } else {
        refresh_slots_bytes(slots.drop_last(), blocks) + refresh_slot_bytes(slots.last()) + blocks[slots.len() - 1]@
            + u32_le(slots.last().expire_time)
    }
}

/// The whole-bag refresh sent after a cancelled trade (WIZ_ITEM_MOVE):
/// `[u8 2][u8 1]`, then per bag slot `[u32 item][u16 durability][u16 count]
/// [u8 flag][u16 0]`, its unique-item block (`blocks[i]` for `slots[i]`)
/// and `[u32 expiry]`.
pub fn build_inventory_refresh_packet(slots: &[UserItemSlot], blocks: &[Vec<u8>]) -> (pkt: Packet)
    requires
        blocks@.len() == slots@.len(),
    ensures
        pkt.opcode == WIZ_ITEM_MOVE,
        pkt.data@ == u8_le(2) + u8_le(1) + refresh_slots_bytes(slots@, blocks@),
{
    let mut pkt = Packet::new(WIZ_ITEM_MOVE);
    pkt.write_u8(2);
    pkt.write_u8(1);
    let ghost head = pkt.data@;
    let mut i: usize = 0;
    while i < slots.len()
        invariant
            i <= slots@.len() == blocks@.len(),
            pkt.opcode == WIZ_ITEM_MOVE,
            head == u8_le(2) + u8_le(1),
            pkt.data@ == head + refresh_slots_bytes(slots@.subrange(0, i as int), blocks@),
        decreases slots@.len() - i,
    {
        let slot = slots[i];
        pkt.write_u32(slot.item_id);
        pkt.write_u16(slot.durability as u16);
        pkt.write_u16(slot.count);
        pkt.write_u8(slot.flag);
        pkt.write_u16(0);
        pkt.write_bytes(blocks[i].as_slice());
        pkt.write_u32(slot.expire_time);
        proof {
            let next = slots@.subrange(0, i as int + 1);
            assert(next.drop_last() == slots@.subrange(0, i as int));
            assert(next.last() == slot);
            assert(pkt.data@ == head + refresh_slots_bytes(next, blocks@));
        }
        i = i + 1;
    }
    proof {
        assert(slots@.subrange(0, slots@.len() as int) == slots@);
    }
    pkt
}


/// `a + b` with a ceiling at `u32::MAX`.
pub open spec fn sat_add_u32(a: u32, b: u32) -> u32 {
    if a + b > u32::MAX { u32::MAX } else { (a + b) as u32 }
}

/// `a + b` with a ceiling at `u16::MAX`.
pub open spec fn sat_add_u16(a: u16, b: u16) -> u16 {
    if a + b > u16::MAX { u16::MAX } else { (a + b) as u16 }
}

/// A bag slot after a window entry taken from it comes back: added to the
/// stack still there, or rebuilt from the entry when the slot was emptied;
/// a slot that now holds another item keeps it.
pub open spec fn slot_give_back(s: UserItemSlot, e: ExchangeItem) -> UserItemSlot {
    if s.item_id == e.item_id {
        UserItemSlot { count: sat_add_u16(s.count, (e.count % 65536) as u16), ..s }
    } else if s.item_id == 0 {
        UserItemSlot {
            item_id: e.item_id,
            count: (e.count % 65536) as u16,
            durability: e.durability,
            serial_num: e.serial_num,
            ..empty_slot()
        }
    } else {
        s
    }
}

/// Gold and inventory after one window entry goes back to its owner: gold
/// back to the purse; an item back onto its source slot as
/// `slot_give_back` says; an item whose source slot lies past the
/// inventory is not put back.
pub open spec fn give_back_one(st: (u32, Seq<UserItemSlot>), e: ExchangeItem) -> (u32, Seq<UserItemSlot>) {
    if e.item_id == ITEM_GOLD {
        (sat_add_u32(st.0, e.count), st.1)
    } else if (e.src_pos as int) < st.1.len() {
        (st.0, st.1.update(e.src_pos as int, slot_give_back(st.1[e.src_pos as int], e)))
    } else {
        st
    }
}

/// Gold and inventory after the whole window goes back, entry by entry.
pub open spec fn give_back_all(gold: u32, inv: Seq<UserItemSlot>, items: Seq<ExchangeItem>) -> (u32, Seq<UserItemSlot>)
    decreases items.len(),
{
    if items.len() == 0 {
        (gold, inv)
    } else {
        give_back_one(give_back_all(gold, inv, items.drop_last()), items.last())
    }
}

/// Gives a cancelled or failed trade's window back to its owner and empties
/// the window.
pub fn give_items_back(side: &mut TradeSide)
    ensures
        (final(side).gold, final(side).inventory@) == give_back_all(old(side).gold, old(side).inventory@, old(side).exchange@),
        final(side).exchange@.len() == 0,
{
    let mut i: usize = 0;
    while i < side.exchange.len()
        invariant
            i <= side.exchange@.len(),
            side.exchange@ == old(side).exchange@,
            (side.gold, side.inventory@) == give_back_all(old(side).gold, old(side).inventory@, side.exchange@.subrange(0, i as int)),
        decreases side.exchange@.len() - i,
    {
        let e = side.exchange[i];
        proof {
            assert(side.exchange@.subrange(0, i as int + 1).drop_last() == side.exchange@.subrange(0, i as int));
        }
        if e.item_id == ITEM_GOLD {
            side.gold = side.gold.saturating_add(e.count);
        } else {
            let p = e.src_pos as usize;
            if p < side.inventory.len() {
                let s = side.inventory[p];
                if s.item_id == e.item_id {
                    let back: u16 = (e.count % 65536) as u16;
                    side.inventory.set(p, UserItemSlot { count: s.count.saturating_add(back), ..s });
                } else if s.item_id == 0 {
                    let e2 = UserItemSlot::empty();
                    side.inventory.set(
                        p,
                        UserItemSlot {
                            item_id: e.item_id,
                            count: (e.count % 65536) as u16,
                            durability: e.durability,
                            serial_num: e.serial_num,
                            ..e2
                        },
                    );
                }
            }
        }
        i = i + 1;
    }
    proof {
        assert(side.exchange@.subrange(0, side.exchange@.len() as int) == side.exchange@);
    }
    side.exchange = Vec::new();
}

/// An offer accepted into an empty window and given straight back leaves
/// the trader's gold and inventory as they were. A whole stack comes back
/// rebuilt from the window entry, which keeps no flag, so this is stated for
/// a whole stack whose slot had no flag.
pub proof fn lemma_offer_given_back(gold: u32, inv: Seq<UserItemSlot>, pos: u8, item_id: u32, count: u32, props: Option<ItemProps>)
    requires
        spec_offer_acceptable(pos, item_id, count, props),
        spec_offer_fits(gold, inv, Seq::empty(), pos, item_id, count),
        item_id != ITEM_GOLD ==> inv[SLOT_MAX + pos].count > count % 65536 || inv[SLOT_MAX + pos].flag == 0,
    ensures
        item_id == ITEM_GOLD ==> give_back_all(
            (gold - count) as u32,
            inv,
            window_after_add(
                Seq::empty(),
                true,
                ExchangeItem { item_id, count, durability: 0, serial_num: 0, src_pos: GOLD_POS, dst_pos: 0 },
            ),
        ) == (gold, inv),
        item_id != ITEM_GOLD ==> {
            let at = SLOT_MAX + pos;
            let slot = inv[at];
            give_back_all(
                gold,
                inv.update(at, slot_after_take(slot, (count % 65536) as u16)),
                window_after_add(
                    Seq::empty(),
                    props->0.countable > 0,
                    ExchangeItem {
                        item_id,
                        count,
                        durability: slot.durability,
                        serial_num: slot.serial_num,
                        src_pos: at as u8,
                        dst_pos: 0,
                    },
                ),
            ) == (gold, inv)
        },
{
    let empty = Seq::<ExchangeItem>::empty();
    assert(!has_entry(empty, item_id));
    if item_id == ITEM_GOLD {
        let e = ExchangeItem { item_id, count, durability: 0, serial_num: 0, src_pos: GOLD_POS, dst_pos: 0 };
        let w = window_after_add(empty, true, e);
        assert(w == seq![e]);
        assert(w.drop_last() == empty);
        assert(give_back_all((gold - count) as u32, inv, empty) == ((gold - count) as u32, inv));
        assert(give_back_all((gold - count) as u32, inv, w) == give_back_one(((gold - count) as u32, inv), e));
    } else {
        let at = SLOT_MAX + pos;
        let slot = inv[at];
        let t = (count % 65536) as u16;
        let e = ExchangeItem {
            item_id,
            count,
            durability: slot.durability,
            serial_num: slot.serial_num,
            src_pos: at as u8,
            dst_pos: 0,
        };
        let w = window_after_add(empty, props->0.countable > 0, e);
        assert(w == seq![e]);
        assert(w.drop_last() == empty);
        let inv2 = inv.update(at, slot_after_take(slot, t));
        assert(e.src_pos as int == at);
        assert(give_back_all(gold, inv2, empty) == (gold, inv2));
        assert(give_back_all(gold, inv2, w) == give_back_one((gold, inv2), e));
        if slot.count - t == 0 {
            assert(inv2.update(at, UserItemSlot {
                item_id: e.item_id,
                count: (e.count % 65536) as u16,
                durability: e.durability,
                serial_num: e.serial_num,
                ..empty_slot()
            }) =~= inv);
        } else {
            assert(inv2.update(at, UserItemSlot { count: sat_add_u16(inv2[at].count, t), ..inv2[at] }) =~= inv);
        }
    }
}

/// A trader's trade state and partner.
#[derive(Clone, Copy, Debug, PartialEq, Eq, Structural)]
pub struct TradeStatus {
    /// `TRADE_STATE_*`.
    pub state: u8,
    pub partner: Option<u16>,
}

/// Takes a trader out of the trade: no trade state, no partner.
pub fn reset_trade(status: &mut TradeStatus)
    ensures
        *final(status) == (TradeStatus { state: TRADE_STATE_NONE, partner: None }),
{
    *status = TradeStatus { state: TRADE_STATE_NONE, partner: None };
}

/// What one side's settlement checks read: the side as a trader (after it
/// has decided), as a receiver, and the partner's window as this side would
/// receive it, entry for entry.
pub struct SettleCheck {
    pub view: TraderView,
    pub recv: ReceiverState,
    pub incoming: Vec<IncomingItem>,
}

/// Both sides pass both checks, each check run by each side.
pub open spec fn spec_settle_checks(a: SettleCheck, b: SettleCheck, cross_nation_ok: bool) -> bool {
    &&& spec_check_exchange(a.recv, a.incoming@)
    &&& spec_check_exchange(b.recv, b.incoming@)
    &&& spec_check_execute_exchange(a.view, Some(b.view), cross_nation_ok, a.incoming@)
    &&& spec_check_execute_exchange(b.view, Some(a.view), cross_nation_ok, b.incoming@)
}

/// The item table's countable value, 0 when the item is not listed.
pub open spec fn countable_of(props: Option<ItemProps>) -> i32 {
    match props {
        Some(p) => p.countable,
        None => 0,
    }
}

/// What the receiver is told of an item that lands in slot `d`.
pub open spec fn received_entry(it: IncomingItem, d: usize) -> ReceivedItem {
    ReceivedItem {
        dst_pos: (d - SLOT_MAX) as u8,
        item_id: it.item.item_id,
        count: if countable_of(it.props) == 0 { 1u16 } else { (it.item.count % 65536) as u16 },
        durability: it.item.durability,
        serial_num: it.item.serial_num,
    }
}

/// Gold, inventory and list of received items after one entry of the
/// partner's window reaches the receiver: gold into the purse; an item into
/// its destination slot; an item with no destination is skipped.
pub open spec fn receive_one(
    st: (u32, Seq<UserItemSlot>, Seq<ReceivedItem>),
    it: IncomingItem,
) -> (u32, Seq<UserItemSlot>, Seq<ReceivedItem>) {
    if it.item.item_id == ITEM_GOLD {
        (sat_add_u32(st.0, it.item.count), st.1, st.2)
    } else {
        match it.dst_slot {
            None => st,
            Some(d) => (
                st.0,
                if (d as int) < st.1.len() {
                    st.1.update(d as int, slot_after_receive(st.1[d as int], it.item, countable_of(it.props)))
                } else {
                    st.1
                },
                st.2.push(received_entry(it, d)),
            ),
        }
    }
}

/// The receiver's state after the partner's whole window, entry by entry.
pub open spec fn receive_all(gold: u32, inv: Seq<UserItemSlot>, items: Seq<IncomingItem>) -> (
    u32,
    Seq<UserItemSlot>,
    Seq<ReceivedItem>,
)
    decreases items.len(),
{
    if items.len() == 0 {
        (gold, inv, Seq::empty())
    } else {
        receive_one(receive_all(gold, inv, items.drop_last()), items.last())
    }
}

/// Every item with a destination goes to a bag slot.
pub open spec fn destinations_in_bag(items: Seq<IncomingItem>) -> bool {
    forall|i: int|
        0 <= i < items.len() && items[i].item.item_id != ITEM_GOLD && items[i].dst_slot is Some
            ==> SLOT_MAX <= #[trigger] items[i].dst_slot->0
}

/// The giver's inventory once the source slots of its window whose stack
/// ran out are cleared.
pub open spec fn cleared_sources(inv: Seq<UserItemSlot>, items: Seq<ExchangeItem>) -> Seq<UserItemSlot> {
    Seq::new(inv.len(), |k: int| if is_item_source(items, k) && inv[k].count == 0 { empty_slot() } else { inv[k] })
}

/// Hands the partner's window to the receiver, entry by entry, and lists
/// the items it received. Each item's destination slot is the one the
/// inventory picked for it.
pub fn receive_window(gold: &mut u32, inv: &mut Vec<UserItemSlot>, items: &[IncomingItem]) -> (r: Vec<ReceivedItem>)
    requires
        destinations_in_bag(items@),
    ensures
        (*final(gold), final(inv)@, r@) == receive_all(*old(gold), old(inv)@, items@),
{
    let mut received: Vec<ReceivedItem> = Vec::new();
    let mut i: usize = 0;
    while i < items.len()
        invariant
            i <= items@.len(),
            destinations_in_bag(items@),
            (*gold, inv@, received@) == receive_all(*old(gold), old(inv)@, items@.subrange(0, i as int)),
        decreases items@.len() - i,
    {
        let it = items[i];
        proof {
            assert(items@.subrange(0, i as int + 1).drop_last() == items@.subrange(0, i as int));
        }
        if it.item.item_id == ITEM_GOLD {
            *gold = (*gold).saturating_add(it.item.count);
        } else {
            match it.dst_slot {
                None => {},
                Some(d) => {
                    assert(SLOT_MAX <= items@[i as int].dst_slot->0);
                    let countable = match it.props {
                        Some(p) => p.countable,
                        None => 0,
                    };
                    let got = receive_exchange_item(inv, d, &it.item, countable);
                    received.push(got);
                },
            }
        }
        i = i + 1;
    }
    proof {
        assert(items@.subrange(0, items@.len() as int) == items@);
    }
    received
}

/// How a settled trade ended.
pub enum SettleOutcome {
    /// A check failed: both sides are sent this EXCHANGE_DONE failure and
    /// got their own offers back.
    Failed { packet: Packet },
    /// The items changed hands: what each side received, for its
    /// EXCHANGE_DONE success packet.
    Done { a_received: Vec<ReceivedItem>, b_received: Vec<ReceivedItem> },
}

/// EXCHANGE_DECIDE once both sides have decided. Both sides' checks run;
/// if one fails, both are told the trade failed and each window goes back
/// to its owner. Otherwise each side receives the other's window (gold into
/// the purse, items into their destination slots), then each giver's source
/// slots whose stack ran out are cleared. Either way both windows end empty
/// and both traders leave the trade with no partner.
pub fn settle_trade(
    a: &mut TradeSide,
    b: &mut TradeSide,
    a_status: &mut TradeStatus,
    b_status: &mut TradeStatus,
    a_check: &SettleCheck,
    b_check: &SettleCheck,
    cross_nation_ok: bool,
) -> (r: SettleOutcome)
    requires
        incoming_entries(a_check.incoming@) == old(b).exchange@,
        incoming_entries(b_check.incoming@) == old(a).exchange@,
        old(a).exchange@.len() <= 255 && old(b).exchange@.len() <= 255,
        spec_settle_checks(*a_check, *b_check, cross_nation_ok) ==> destinations_in_bag(a_check.incoming@)
            && destinations_in_bag(b_check.incoming@),
    ensures
        r is Failed <==> !spec_settle_checks(*a_check, *b_check, cross_nation_ok),
        r matches SettleOutcome::Failed { packet } ==> packet.opcode == WIZ_EXCHANGE && packet.data@ == u8_le(
            EXCHANGE_DONE,
        ) + u8_le(0),
        r is Failed ==> (final(a).gold, final(a).inventory@) == give_back_all(old(a).gold, old(a).inventory@, old(a).exchange@)
            && (final(b).gold, final(b).inventory@) == give_back_all(old(b).gold, old(b).inventory@, old(b).exchange@),
        r matches SettleOutcome::Done { a_received, b_received } ==> {
            let ra = receive_all(old(a).gold, old(a).inventory@, a_check.incoming@);
            let rb = receive_all(old(b).gold, old(b).inventory@, b_check.incoming@);
            &&& final(a).gold == ra.0
            &&& final(a).inventory@ == cleared_sources(ra.1, old(a).exchange@)
            &&& a_received@ == ra.2
            &&& final(b).gold == rb.0
            &&& final(b).inventory@ == cleared_sources(rb.1, old(b).exchange@)
            &&& b_received@ == rb.2
        },
        final(a).exchange@.len() == 0 && final(b).exchange@.len() == 0,
        *final(a_status) == (TradeStatus { state: TRADE_STATE_NONE, partner: None }),
        *final(b_status) == (TradeStatus { state: TRADE_STATE_NONE, partner: None }),
{
    let passed = check_exchange(&a_check.recv, a_check.incoming.as_slice())
        && check_exchange(&b_check.recv, b_check.incoming.as_slice())
        && check_execute_exchange(&a_check.view, Some(&b_check.view), cross_nation_ok, a_check.incoming.as_slice())
        && check_execute_exchange(&b_check.view, Some(&a_check.view), cross_nation_ok, b_check.incoming.as_slice());
    reset_trade(a_status);
    reset_trade(b_status);
    if !passed {
        give_items_back(a);
        give_items_back(b);
        return SettleOutcome::Failed { packet: build_exchange_failed_packet() };
    }
    let a_received = receive_window(&mut a.gold, &mut a.inventory, a_check.incoming.as_slice());
    let b_received = receive_window(&mut b.gold, &mut b.inventory, b_check.incoming.as_slice());
    let ghost ra_inv = b.inventory@;
    clear_emptied_sources(&mut b.inventory, b.exchange.as_slice());
    assert(b.inventory@ =~= cleared_sources(ra_inv, old(b).exchange@));
    let ghost aa_inv = a.inventory@;
    clear_emptied_sources(&mut a.inventory, a.exchange.as_slice());
    assert(a.inventory@ =~= cleared_sources(aa_inv, old(a).exchange@));
    a.exchange = Vec::new();
    b.exchange = Vec::new();
    SettleOutcome::Done { a_received, b_received }
}


/// The window entries of the partner's window as the receiver sees them.
pub open spec fn incoming_entries(items: Seq<IncomingItem>) -> Seq<ExchangeItem> {
    items.map_values(|it: IncomingItem| it.item)
}

/// A window given back returns exactly its gold to the purse (short of the
/// purse's 32-bit ceiling), and the gold does not depend on the inventory.
pub proof fn lemma_give_back_returns_window_gold(gold: u32, inv: Seq<UserItemSlot>, items: Seq<ExchangeItem>)
    requires
        gold + window_total(items, ITEM_GOLD) <= u32::MAX,
    ensures
        give_back_all(gold, inv, items).0 == gold + window_total(items, ITEM_GOLD),
    decreases items.len(),
{
    if items.len() > 0 {
        lemma_window_total_nonneg(items.drop_last(), ITEM_GOLD);
        lemma_window_total_nonneg(items, ITEM_GOLD);
        lemma_give_back_returns_window_gold(gold, inv, items.drop_last());
    }
}

/// A received window credits exactly the gold it holds (short of the
/// purse's 32-bit ceiling).
pub proof fn lemma_receive_credits_window_gold(gold: u32, inv: Seq<UserItemSlot>, items: Seq<IncomingItem>)
    requires
        gold + window_total(incoming_entries(items), ITEM_GOLD) <= u32::MAX,
    ensures
        receive_all(gold, inv, items).0 == gold + window_total(incoming_entries(items), ITEM_GOLD),
    decreases items.len(),
{
    if items.len() > 0 {
        let e = incoming_entries(items);
        assert(incoming_entries(items.drop_last()) == e.drop_last());
        lemma_window_total_nonneg(e.drop_last(), ITEM_GOLD);
        lemma_window_total_nonneg(e, ITEM_GOLD);
        lemma_receive_credits_window_gold(gold, inv, items.drop_last());
    }
}

proof fn lemma_window_total_nonneg(s: Seq<ExchangeItem>, item_id: u32)
    ensures
        window_total(s, item_id) >= 0,
    decreases s.len(),
{
    if s.len() > 0 {
        lemma_window_total_nonneg(s.drop_last(), item_id);
    }
}

/// A settled trade keeps the gold of both traders together: the two purses
/// afterwards hold what they held before plus the gold of both windows
/// (short of a purse's 32-bit ceiling).
pub proof fn lemma_settlement_conserves_gold(
    a_gold: u32,
    b_gold: u32,
    a_inv: Seq<UserItemSlot>,
    b_inv: Seq<UserItemSlot>,
    a_window: Seq<ExchangeItem>,
    b_window: Seq<ExchangeItem>,
    a_in: Seq<IncomingItem>,
    b_in: Seq<IncomingItem>,
)
    requires
        incoming_entries(a_in) == b_window,
        incoming_entries(b_in) == a_window,
        a_gold + window_total(b_window, ITEM_GOLD) <= u32::MAX,
        b_gold + window_total(a_window, ITEM_GOLD) <= u32::MAX,
    ensures
        receive_all(a_gold, a_inv, a_in).0 + receive_all(b_gold, b_inv, b_in).0 == a_gold + b_gold + window_total(
            a_window,
            ITEM_GOLD,
        ) + window_total(b_window, ITEM_GOLD),
{
    lemma_receive_credits_window_gold(a_gold, a_inv, a_in);
    lemma_receive_credits_window_gold(b_gold, b_inv, b_in);
}


/// What a window entry took from bag slot `k`, as the slot counts it.
pub open spec fn entry_take(e: ExchangeItem, k: int) -> int {
    if e.item_id != ITEM_GOLD && e.src_pos as int == k {
        (e.count % 65536) as int
    } else {
        0
    }
}

/// What the window's entries took from bag slot `k` altogether.
pub open spec fn taken_from(w: Seq<ExchangeItem>, k: int) -> int
    decreases w.len(),
{
    if w.len() == 0 {
        0
    } else {
        taken_from(w.drop_last(), k) + entry_take(w.last(), k)
    }
}

/// Bag slot `k`, starting as `s`, after each entry of the window taken from
/// it comes back, in window order.
pub open spec fn slot_fold(s: UserItemSlot, w: Seq<ExchangeItem>, k: int) -> UserItemSlot
    decreases w.len(),
{
    if w.len() == 0 {
        s
    } else {
        let before = slot_fold(s, w.drop_last(), k);
        let e = w.last();
        if e.item_id != ITEM_GOLD && e.src_pos as int == k {
            slot_give_back(before, e)
        } else {
            before
        }
    }
}

/// Offers of one item carry the item table's one entry for it, and a
/// countable item is offered from one bag position only.
pub open spec fn offers_consistent(offers: Seq<TradeOffer>) -> bool {
    forall|i: int, j: int|
        0 <= i < offers.len() && 0 <= j < offers.len() && #[trigger] offers[i].item_id == #[trigger] offers[j].item_id
            && offers[i].item_id != ITEM_GOLD ==> offers[i].props == offers[j].props && (offers[i].props is Some
            && offers[i].props->0.countable > 0 ==> offers[i].pos == offers[j].pos)
}

/// Any sequence of offers into an empty window, given back, leaves the
/// trader's gold and inventory as they were before the first offer. An
/// emptied slot comes back rebuilt from the window, which keeps no flag, so
/// this is stated where every slot the offers emptied had none; and a
/// countable item goes back to the slot of its first offer, so this is
/// stated where each countable item is offered from one position.
pub proof fn lemma_offers_given_back(gold: u32, inv: Seq<UserItemSlot>, offers: Seq<TradeOffer>)
    requires
        offers_consistent(offers),
        forall|k: int|
            0 <= k < inv.len() && #[trigger] offers_applied((gold, inv, Seq::empty()), offers).1[k] == empty_slot()
                ==> inv[k].flag == 0,
    ensures
        ({
            let st = offers_applied((gold, inv, Seq::empty()), offers);
            give_back_all(st.0, st.1, st.2) == (gold, inv)
        }),
{
    lemma_prefix_kept(gold, inv, offers, offers.len() as int);
    assert(offers.subrange(0, offers.len() as int) == offers);
    let st = offers_applied((gold, inv, Seq::empty()), offers);
    lemma_window_total_nonneg(st.2, ITEM_GOLD);
    lemma_give_back_returns_window_gold(st.0, st.1, st.2);
    let back = give_back_all(st.0, st.1, st.2).1;
    assert forall|k: int| 0 <= k < inv.len() implies #[trigger] back[k] == inv[k] by {
        lemma_give_back_slot(st.0, st.1, st.2, k);
        lemma_slot_comes_back(inv, offers, gold, st, k);
    }
    lemma_give_back_slot_len(st.0, st.1, st.2);
    assert(back =~= inv);
}

/// The kept state: purse plus window gold is the starting gold; each item
/// entry came from a bag slot holding that item (with its durability and
/// serial), and a countable item's entries from the position it is offered
/// from; and each bag slot is its start less what the window took from it,
/// or emptied with all of it in the window.
spec fn kept(gold0: u32, inv0: Seq<UserItemSlot>, offers: Seq<TradeOffer>, st: (u32, Seq<UserItemSlot>, Seq<ExchangeItem>)) -> bool {
    &&& st.0 + window_total(st.2, ITEM_GOLD) == gold0
    &&& st.1.len() == inv0.len()
    &&& forall|i: int| 0 <= i < st.2.len() && st.2[i].item_id != ITEM_GOLD ==> entry_origin(inv0, offers, #[trigger] st.2[i])
    &&& forall|k: int| 0 <= k < inv0.len() ==> slot_accounted(inv0[k], #[trigger] st.1[k], taken_from(st.2, k), is_item_source(st.2, k))
}

spec fn entry_origin(inv0: Seq<UserItemSlot>, offers: Seq<TradeOffer>, e: ExchangeItem) -> bool {
    &&& (e.src_pos as int) < inv0.len()
    &&& e.item_id != 0
    &&& inv0[e.src_pos as int].item_id == e.item_id
    &&& inv0[e.src_pos as int].durability == e.durability
    &&& inv0[e.src_pos as int].serial_num == e.serial_num
    &&& forall|j: int|
        0 <= j < offers.len() && #[trigger] offers[j].item_id == e.item_id && offers[j].props is Some
            && offers[j].props->0.countable > 0 ==> e.src_pos as int == SLOT_MAX + offers[j].pos
}

spec fn slot_accounted(orig: UserItemSlot, cur: UserItemSlot, taken: int, has_source: bool) -> bool {
    ||| cur == (UserItemSlot { count: cur.count, ..orig }) && orig.count == cur.count + taken
    ||| cur == empty_slot() && orig.count == taken && has_source && orig.expire_time == 0 && orig.item_id != 0
}

proof fn lemma_prefix_kept(gold: u32, inv: Seq<UserItemSlot>, offers: Seq<TradeOffer>, n: int)
    requires
        0 <= n <= offers.len(),
        offers_consistent(offers),
    ensures
        kept(gold, inv, offers, offers_applied((gold, inv, Seq::empty()), offers.subrange(0, n))),
    decreases n,
{
    let pre = offers.subrange(0, n);
    if n == 0 {
        let st = (gold, inv, Seq::<ExchangeItem>::empty());
        assert(offers_applied((gold, inv, Seq::empty()), pre) == st);
        assert forall|k: int| 0 <= k < inv.len() implies slot_accounted(inv[k], #[trigger] st.1[k], taken_from(st.2, k), is_item_source(st.2, k)) by {
            assert(st.1[k] == (UserItemSlot { count: st.1[k].count, ..inv[k] }));
        }
    } else {
        lemma_prefix_kept(gold, inv, offers, n - 1);
        assert(pre.drop_last() == offers.subrange(0, n - 1));
        assert(pre.last() == offers[n - 1]);
        lemma_offer_keeps(gold, inv, offers, n - 1, offers_applied((gold, inv, Seq::empty()), offers.subrange(0, n - 1)));
    }
}

/// An entry's count is part of its item's window total.
proof fn lemma_entry_within_total(s: Seq<ExchangeItem>, i: int, item_id: u32)
    requires
        0 <= i < s.len(),
        s[i].item_id == item_id,
    ensures
        s[i].count <= window_total(s, item_id),
    decreases s.len(),
{
    if i < s.len() - 1 {
        lemma_entry_within_total(s.drop_last(), i, item_id);
    } else {
        lemma_window_total_nonneg(s.drop_last(), item_id);
    }
}

proof fn lemma_taken_nonneg(w: Seq<ExchangeItem>, k: int)
    ensures
        taken_from(w, k) >= 0,
    decreases w.len(),
{
    if w.len() > 0 {
        lemma_taken_nonneg(w.drop_last(), k);
    }
}

proof fn lemma_entry_within_taken(w: Seq<ExchangeItem>, i: int, k: int)
    requires
        0 <= i < w.len(),
    ensures
        entry_take(w[i], k) <= taken_from(w, k),
    decreases w.len(),
{
    if i < w.len() - 1 {
        lemma_entry_within_taken(w.drop_last(), i, k);
        assert(w.drop_last()[i] == w[i]);
    } else {
        lemma_taken_nonneg(w.drop_last(), k);
    }
}

proof fn lemma_taken_update(w: Seq<ExchangeItem>, i: int, e: ExchangeItem, k: int)
    requires
        0 <= i < w.len(),
    ensures
        taken_from(w.update(i, e), k) == taken_from(w, k) - entry_take(w[i], k) + entry_take(e, k),
    decreases w.len(),
{
    let t = w.update(i, e);
    if i == w.len() - 1 {
        assert(t.drop_last() == w.drop_last());
    } else {
        assert(t.drop_last() == w.drop_last().update(i, e));
        lemma_taken_update(w.drop_last(), i, e, k);
    }
}

/// Adding the counts of two merged offers in 32 bits keeps what they took
/// as 16-bit counts, while that stays under 65536.
proof fn lemma_merge_take(a: u32, b: u32)
    requires
        a % 65536 + b % 65536 < 65536,
    ensures
        ((a + b) as u32) % 65536 == a % 65536 + b % 65536,
{
    assert(((a + b) as u32) % 65536 == a % 65536 + b % 65536) by (bit_vector)
        requires
            a % 65536 + b % 65536 < 65536,
    ;
}

proof fn lemma_give_back_slot_len(g: u32, inv: Seq<UserItemSlot>, w: Seq<ExchangeItem>)
    ensures
        give_back_all(g, inv, w).1.len() == inv.len(),
    decreases w.len(),
{
    if w.len() > 0 {
        lemma_give_back_slot_len(g, inv, w.drop_last());
    }
}

proof fn lemma_give_back_slot(g: u32, inv: Seq<UserItemSlot>, w: Seq<ExchangeItem>, k: int)
    requires
        0 <= k < inv.len(),
    ensures
        give_back_all(g, inv, w).1[k] == slot_fold(inv[k], w, k),
    decreases w.len(),
{
    if w.len() > 0 {
        lemma_give_back_slot(g, inv, w.drop_last(), k);
        lemma_give_back_slot_len(g, inv, w.drop_last());
    }
}

/// Every window entry taken from slot `k` is of item `b`, with its
/// durability and serial.
spec fn entries_of_slot(w: Seq<ExchangeItem>, k: int, b: UserItemSlot) -> bool {
    forall|i: int|
        0 <= i < w.len() && w[i].item_id != ITEM_GOLD && w[i].src_pos as int == k ==> #[trigger] w[i].item_id
            == b.item_id && w[i].durability == b.durability && w[i].serial_num == b.serial_num
}

proof fn lemma_fold_stack(b: UserItemSlot, c: int, w: Seq<ExchangeItem>, k: int)
    requires
        entries_of_slot(w, k, b),
        0 <= c,
        c + taken_from(w, k) <= u16::MAX,
    ensures
        slot_fold(UserItemSlot { count: c as u16, ..b }, w, k) == (UserItemSlot { count: (c + taken_from(w, k)) as u16, ..b }),
    decreases w.len(),
{
    if w.len() > 0 {
        let d = w.drop_last();
        lemma_taken_nonneg(d, k);
        assert(entries_of_slot(d, k, b)) by {
            assert forall|i: int| 0 <= i < d.len() && d[i].item_id != ITEM_GOLD && d[i].src_pos as int == k implies #[trigger] d[i].item_id
                == b.item_id && d[i].durability == b.durability && d[i].serial_num == b.serial_num by {
                assert(d[i] == w[i]);
            }
        }
        lemma_fold_stack(b, c, d, k);
        let e = w.last();
        if e.item_id != ITEM_GOLD && e.src_pos as int == k {
            assert(w[w.len() - 1] == e);
        }
    }
}

proof fn lemma_fold_empty(b: UserItemSlot, w: Seq<ExchangeItem>, k: int)
    requires
        entries_of_slot(w, k, b),
        b.item_id != 0,
        taken_from(w, k) <= u16::MAX,
    ensures
        slot_fold(empty_slot(), w, k) == if is_item_source(w, k) {
            UserItemSlot {
                item_id: b.item_id,
                count: taken_from(w, k) as u16,
                durability: b.durability,
                serial_num: b.serial_num,
                flag: 0,
                expire_time: 0,
            }
        } else {
            empty_slot()
        },
    decreases w.len(),
{
    if w.len() > 0 {
        let d = w.drop_last();
        let e = w.last();
        lemma_taken_nonneg(d, k);
        assert(entries_of_slot(d, k, b)) by {
            assert forall|i: int| 0 <= i < d.len() && d[i].item_id != ITEM_GOLD && d[i].src_pos as int == k implies #[trigger] d[i].item_id
                == b.item_id && d[i].durability == b.durability && d[i].serial_num == b.serial_num by {
                assert(d[i] == w[i]);
            }
        }
        lemma_fold_empty(b, d, k);
        let from_k = e.item_id != ITEM_GOLD && e.src_pos as int == k;
        if !is_item_source(d, k) {
            lemma_no_source_takes_nothing(d, k);
        }
        if from_k {
            assert(w[w.len() - 1] == e);
            assert(is_item_source(w, k));
        }
        if is_item_source(d, k) {
            let x = choose|x: int| 0 <= x < d.len() && d[x].item_id != ITEM_GOLD && d[x].src_pos == k;
            assert(w[x] == d[x]);
            assert(is_item_source(w, k));
        }
        if is_item_source(w, k) && !from_k {
            let x = choose|x: int| 0 <= x < w.len() && w[x].item_id != ITEM_GOLD && w[x].src_pos == k;
            assert(x < d.len());
            assert(d[x] == w[x]);
        }
    }
}

proof fn lemma_no_source_takes_nothing(w: Seq<ExchangeItem>, k: int)
    requires
        !is_item_source(w, k),
    ensures
        taken_from(w, k) == 0,
    decreases w.len(),
{
    if w.len() > 0 {
        let d = w.drop_last();
        if is_item_source(d, k) {
            let x = choose|x: int| 0 <= x < d.len() && d[x].item_id != ITEM_GOLD && d[x].src_pos == k;
            assert(w[x] == d[x]);
        }
        lemma_no_source_takes_nothing(d, k);
        if w.last().item_id != ITEM_GOLD && w.last().src_pos as int == k {
            assert(w[w.len() - 1] == w.last());
        }
    }
}

/// At the end, each slot given back is the slot as it was at the start.
proof fn lemma_slot_comes_back(
    inv: Seq<UserItemSlot>,
    offers: Seq<TradeOffer>,
    gold0: u32,
    st: (u32, Seq<UserItemSlot>, Seq<ExchangeItem>),
    k: int,
)
    requires
        kept(gold0, inv, offers, st),
        0 <= k < inv.len(),
        st.1[k] == empty_slot() ==> inv[k].flag == 0,
    ensures
        slot_fold(st.1[k], st.2, k) == inv[k],
{
    let b = inv[k];
    let w = st.2;
    assert(entries_of_slot(w, k, b)) by {
        assert forall|i: int| 0 <= i < w.len() && w[i].item_id != ITEM_GOLD && w[i].src_pos as int == k implies #[trigger] w[i].item_id
            == b.item_id && w[i].durability == b.durability && w[i].serial_num == b.serial_num by {
            assert(entry_origin(inv, offers, w[i]));
        }
    }
    lemma_taken_nonneg(w, k);
    let cur = st.1[k];
    assert(slot_accounted(b, cur, taken_from(w, k), is_item_source(w, k)));
    if cur == (UserItemSlot { count: cur.count, ..b }) && b.count == cur.count + taken_from(w, k) {
        lemma_fold_stack(b, cur.count as int, w, k);
        assert(b == (UserItemSlot { count: (cur.count + taken_from(w, k)) as u16, ..b }));
    } else {
        lemma_fold_empty(b, w, k);
    }
}

proof fn lemma_offer_keeps(
    gold0: u32,
    inv0: Seq<UserItemSlot>,
    offers: Seq<TradeOffer>,
    n: int,
    st: (u32, Seq<UserItemSlot>, Seq<ExchangeItem>),
)
    requires
        kept(gold0, inv0, offers, st),
        0 <= n < offers.len(),
        offers_consistent(offers),
    ensures
        kept(gold0, inv0, offers, offer_step(st, offers[n])),
{
    let o = offers[n];
    let w = st.2;
    if !(spec_offer_acceptable(o.pos, o.item_id, o.count, o.props) && spec_offer_fits(st.0, st.1, st.2, o.pos, o.item_id, o.count)) {
        return;
    }
    lemma_window_total_nonneg(w, ITEM_GOLD);
    if o.item_id == ITEM_GOLD {
        let e = ExchangeItem { item_id: o.item_id, count: o.count, durability: 0, serial_num: 0, src_pos: GOLD_POS, dst_pos: 0 };
        assert forall|i: int| 0 <= i < w.len() && w[i].item_id == ITEM_GOLD implies w[i].count + o.count <= u32::MAX by {
            lemma_entry_within_total(w, i, ITEM_GOLD);
        }
        lemma_gold_offer_conserves_gold(st.0, w, o.count);
        let w2 = window_after_add(w, true, e);
        if has_entry(w, ITEM_GOLD) {
            let x = choose|x: int| 0 <= x < w.len() && w[x].item_id == ITEM_GOLD;
            lemma_first_entry_exists(w, ITEM_GOLD, x);
            let i = choose|i: int| is_first_entry(w, ITEM_GOLD, i);
            let ne = ExchangeItem { count: (w[i].count + e.count) as u32, ..w[i] };
            assert(w2 == w.update(i, ne));
            assert forall|k: int| 0 <= k < inv0.len() implies slot_accounted(
                inv0[k],
                #[trigger] st.1[k],
                taken_from(w2, k),
                is_item_source(w2, k),
            ) by {
                assert(slot_accounted(inv0[k], st.1[k], taken_from(w, k), is_item_source(w, k)));
                lemma_taken_update(w, i, ne, k);
                if is_item_source(w, k) {
                    let y = choose|y: int| 0 <= y < w.len() && w[y].item_id != ITEM_GOLD && w[y].src_pos == k;
                    assert(w2[y] == w[y]);
                }
                if is_item_source(w2, k) {
                    let y = choose|y: int| 0 <= y < w2.len() && w2[y].item_id != ITEM_GOLD && w2[y].src_pos == k;
                    assert(w2[y] == w[y]);
                }
            }
            assert forall|j: int| 0 <= j < w2.len() && w2[j].item_id != ITEM_GOLD implies entry_origin(inv0, offers, #[trigger] w2[j]) by {
                assert(w2[j] == w[j]);
            }
        } else {
            assert(w2 == w.push(e));
            assert forall|k: int| 0 <= k < inv0.len() implies slot_accounted(
                inv0[k],
                #[trigger] st.1[k],
                taken_from(w2, k),
                is_item_source(w2, k),
            ) by {
                assert(slot_accounted(inv0[k], st.1[k], taken_from(w, k), is_item_source(w, k)));
                assert(w2.drop_last() == w);
                if is_item_source(w, k) {
                    let y = choose|y: int| 0 <= y < w.len() && w[y].item_id != ITEM_GOLD && w[y].src_pos == k;
                    assert(w2[y] == w[y]);
                }
                if is_item_source(w2, k) {
                    let y = choose|y: int| 0 <= y < w2.len() && w2[y].item_id != ITEM_GOLD && w2[y].src_pos == k;
                    assert(w2[y] == w[y]);
                }
            }
            assert forall|j: int| 0 <= j < w2.len() && w2[j].item_id != ITEM_GOLD implies entry_origin(inv0, offers, #[trigger] w2[j]) by {
                assert(w2[j] == w[j]);
            }
        }
    } else {
        let at = SLOT_MAX + o.pos;
        let slot = st.1[at];
        let t = (o.count % 65536) as u16;
        let merge = o.props->0.countable > 0;
        let e = ExchangeItem {
            item_id: o.item_id,
            count: o.count,
            durability: slot.durability,
            serial_num: slot.serial_num,
            src_pos: at as u8,
            dst_pos: 0,
        };
        let w2 = window_after_add(w, merge, e);
        let inv2 = st.1.update(at, slot_after_take(slot, t));
        assert(offer_step(st, o) == (st.0, inv2, w2));
        let tk = taken_from(w, at);
        assert(slot_accounted(inv0[at], st.1[at], tk, is_item_source(w, at)));
        assert(slot == (UserItemSlot { count: slot.count, ..inv0[at] }) && inv0[at].count == slot.count + tk);
        assert(e.src_pos as int == at);
        lemma_taken_nonneg(w, at);
        if merge && has_entry(w, o.item_id) {
            let x = choose|x: int| 0 <= x < w.len() && w[x].item_id == o.item_id;
            lemma_first_entry_exists(w, o.item_id, x);
            let i = choose|i: int| is_first_entry(w, o.item_id, i);
            let ne = ExchangeItem { count: (w[i].count + e.count) as u32, ..w[i] };
            assert(w2 == w.update(i, ne));
            assert(entry_origin(inv0, offers, w[i]));
            assert(offers[n].item_id == w[i].item_id);
            assert(w[i].src_pos as int == at);
            lemma_entry_within_taken(w, i, at);
            lemma_merge_take(w[i].count, o.count);
            assert(entry_take(ne, at) == entry_take(w[i], at) + t);
            lemma_window_total_update(w, i, ne, ITEM_GOLD);
            assert forall|k: int| 0 <= k < inv0.len() implies slot_accounted(
                inv0[k],
                #[trigger] inv2[k],
                taken_from(w2, k),
                is_item_source(w2, k),
            ) by {
                assert(slot_accounted(inv0[k], st.1[k], taken_from(w, k), is_item_source(w, k)));
                lemma_taken_update(w, i, ne, k);
                if is_item_source(w, k) {
                    let y = choose|y: int| 0 <= y < w.len() && w[y].item_id != ITEM_GOLD && w[y].src_pos == k;
                    if y == i {
                        assert(w2[i] == ne);
                    } else {
                        assert(w2[y] == w[y]);
                    }
                }
                if is_item_source(w2, k) {
                    let y = choose|y: int| 0 <= y < w2.len() && w2[y].item_id != ITEM_GOLD && w2[y].src_pos == k;
                    if y == i {
                        assert(w[i].src_pos == ne.src_pos);
                    } else {
                        assert(w2[y] == w[y]);
                    }
                }
                if k == at {
                    assert(is_item_source(w, at));
                }
            }
            assert forall|j: int| 0 <= j < w2.len() && w2[j].item_id != ITEM_GOLD implies entry_origin(inv0, offers, #[trigger] w2[j]) by {
                if j == i {
                    assert(w2[j] == ne);
                    assert(entry_origin(inv0, offers, w[i]));
                } else {
                    assert(w2[j] == w[j]);
                }
            }
        } else {
            assert(w2 == w.push(e));
            assert(w2.drop_last() == w);
            assert(w2.last() == e);
            assert(entry_origin(inv0, offers, e)) by {
                assert forall|j: int|
                    0 <= j < offers.len() && #[trigger] offers[j].item_id == e.item_id && offers[j].props is Some
                        && offers[j].props->0.countable > 0 implies e.src_pos as int == SLOT_MAX + offers[j].pos by {
                    assert(offers[j].item_id == offers[n].item_id);
                }
            }
            assert forall|k: int| 0 <= k < inv0.len() implies slot_accounted(
                inv0[k],
                #[trigger] inv2[k],
                taken_from(w2, k),
                is_item_source(w2, k),
            ) by {
                assert(slot_accounted(inv0[k], st.1[k], taken_from(w, k), is_item_source(w, k)));
                if is_item_source(w, k) {
                    let y = choose|y: int| 0 <= y < w.len() && w[y].item_id != ITEM_GOLD && w[y].src_pos == k;
                    assert(w2[y] == w[y]);
                }
                if is_item_source(w2, k) && k != at {
                    let y = choose|y: int| 0 <= y < w2.len() && w2[y].item_id != ITEM_GOLD && w2[y].src_pos == k;
                    assert(w2[y] == w[y]);
                }
                if k == at {
                    assert(w2[w.len() as int] == e);
                }
            }
            assert forall|j: int| 0 <= j < w2.len() && w2[j].item_id != ITEM_GOLD implies entry_origin(inv0, offers, #[trigger] w2[j]) by {
                if j < w.len() {
                    assert(w2[j] == w[j]);
                }
            }
        }
    }
}


/// A trade request is sent exactly when nobody involved is already in a
/// trade or otherwise busy and every rule admits it: the requester is not
/// trading and meets the level; the target exists, is another living,
/// non-GM character in the same zone, on another account, of the same
/// nation unless the zone allows otherwise, not trading, not busy and
/// without the genie. In particular a player already in a trade is never
/// asked into a second one.
pub proof fn lemma_request_sent_only_to_free_target(
    me: TraderView,
    target_id: u16,
    target: Option<TraderView>,
    cross_nation_ok: bool,
    trade_level: i16,
)
    ensures
        spec_request_outcome(me, target_id, target, cross_nation_ok, trade_level) == RequestOutcome::Send <==> {
            &&& !me.trading
            &&& target is Some
            &&& {
                let t = target->Some_0;
                &&& target_id != me.sid
                &&& t.authority != 0
                &&& t.name@ != me.name@
                &&& t.zone == me.zone
                &&& !(me.account@.len() > 0 && lowercase_chars(me.account@) == lowercase_chars(t.account@))
                &&& (me.nation == t.nation || cross_nation_ok)
                &&& !t.dead && !t.trading && !t.genie_active
                &&& !t.mining && !t.fishing && !t.merchanting && !t.selling_prep && !t.buying_prep
                &&& me.level as i16 >= trade_level
            }
        },
        me.trading ==> spec_request_outcome(me, target_id, target, cross_nation_ok, trade_level)
            == RequestOutcome::CancelCurrent,
        target matches Some(t) && t.trading ==> spec_request_outcome(me, target_id, target, cross_nation_ok, trade_level)
            != RequestOutcome::Send,
{
}

} // verus!
