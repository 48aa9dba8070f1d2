//! Inventory layout and item constants shared by the trade, seal and pet rules.
use vstd::prelude::*;

verus! {

/// Number of equipment slots; the bag starts right after them.
pub const SLOT_MAX: usize = 14;
/// Number of bag slots.
pub const HAVE_MAX: usize = 28;
/// Largest stack a slot may hold.
pub const ITEMCOUNT_MAX: u16 = 9999;
/// Item kind of unique items, which never stack onto an occupied slot.
pub const ITEM_KIND_UNIQUE: i32 = 255;

/// Item ID standing for gold in trade and merchant lists.
pub const ITEM_GOLD: u32 = 900_000_000;
/// Lowest item ID of the range that can never be traded.
pub const ITEM_NO_TRADE_MIN: u32 = 900_000_001;
/// Highest item ID of the range that can never be traded.
pub const ITEM_NO_TRADE_MAX: u32 = 999_999_999;
/// Item race value marking an item as untradeable.
pub const RACE_UNTRADEABLE: i32 = 20;
/// Most gold a character may carry.
pub const COIN_MAX: u32 = 2_100_000_000;

pub const ITEM_FLAG_NONE: u8 = 0;
pub const ITEM_FLAG_RENTED: u8 = 1;
pub const ITEM_FLAG_DUPLICATE: u8 = 3;
pub const ITEM_FLAG_SEALED: u8 = 4;
pub const ITEM_FLAG_NOT_BOUND: u8 = 7;
pub const ITEM_FLAG_BOUND: u8 = 8;

/// One inventory slot.
#[derive(Clone, Copy, Debug, PartialEq, Eq, Structural)]
pub struct UserItemSlot {
    pub item_id: u32,
    pub durability: i16,
    pub count: u16,
    pub flag: u8,
    pub serial_num: u64,
    pub expire_time: u32,
}

/// The empty slot.
pub open spec fn empty_slot() -> UserItemSlot {
    UserItemSlot { item_id: 0, durability: 0, count: 0, flag: 0, serial_num: 0, expire_time: 0 }
}

impl UserItemSlot {
    /// An empty slot: no item, no count, no flag.
    pub fn empty() -> (s: UserItemSlot)
        ensures
            s == empty_slot(),
    {
        UserItemSlot { item_id: 0, durability: 0, count: 0, flag: 0, serial_num: 0, expire_time: 0 }
    }
}

/// What the item table says of an item, each absent column read as 0.
#[derive(Clone, Copy, Debug, PartialEq, Eq, Structural)]
pub struct ItemProps {
    pub kind: i32,
    pub race: i32,
    pub countable: i32,
    pub weight: u32,
}

/// Whether the ID lies in the never-tradeable range.
pub open spec fn spec_in_no_trade_range(item_id: u32) -> bool {
    ITEM_NO_TRADE_MIN <= item_id <= ITEM_NO_TRADE_MAX
}

/// Whether the ID lies in the never-tradeable range.
pub fn in_no_trade_range(item_id: u32) -> (r: bool)
    ensures
        r == spec_in_no_trade_range(item_id),
{
    ITEM_NO_TRADE_MIN <= item_id && item_id <= ITEM_NO_TRADE_MAX
}

} // verus!
