//! NPC dialog menus (WIZ_SELECT_MSG 0x55): the menu sent to a player, and
//! the choice that comes back, which names the quest event to run.
use vstd::prelude::*;
use crate::packet::{Packet, PacketReader, u8_le, u32_le, sbyte_string};
use vstd::string::StringSliceAdditionalSpecFns;

verus! {

pub const WIZ_SELECT_MSG: u8 = 0x55;

/// Number of menu buttons.
pub const MAX_MESSAGE_EVENT: usize = 12;

/// The flag of menus whose "no reward" answer picks the first button with
/// the button's number as the reward.
pub const SELECT_FLAG_REWARD_BY_BUTTON: u8 = 5;

/// A player's open dialog: its flag, the event behind each button (-1 for
/// none), the last reward chosen and the quest helper that opened it.
pub struct SelectMsgState {
    pub flag: u8,
    pub events: [i32; 12],
    pub selected_reward: i8,
    pub quest_helper_id: u32,
}

/// No button leads anywhere.
pub open spec fn events_cleared(e: Seq<i32>) -> bool {
    e.len() == 12 && forall|i: int| 0 <= i < 12 ==> #[trigger] e[i] == -1
}

/// A choice as the client sends it: `[u8 button][u8 n][n bytes of script
/// name][i8 reward]`, the reward -1 when absent.
pub open spec fn spec_parse_choice(data: Seq<u8>) -> Option<(u8, i8)> {
    if data.len() < 2 || data.len() < 2 + data[1] {
        None
    } else {
        let at = 2 + data[1];
        Some((data[0], if data.len() > at { data[at] as i8 } else { -1i8 }))
    }
}

/// Reads a menu choice: the button and the reward (-1 when absent); `None`
/// when the button or the script name is cut short.
pub fn parse_choice(data: &[u8]) -> (r: Option<(u8, i8)>)
    ensures
        r == spec_parse_choice(data@),
{
    let mut rd = PacketReader::new(data);
    let menu_id = match rd.read_u8() {
        Some(v) => v,
        None => return None,
    };
    let len = match rd.read_u8() {
        Some(v) => v,
        None => return None,
    };
    if data.len() - 2 < len as usize {
        return None;
    }
    let at: usize = 2 + len as usize;
    let reward: i8 = if data.len() > at { data[at] as i8 } else { -1 };
    Some((menu_id, reward))
}

/// The button and reward that count: with a "no reward" answer to a menu
/// of flag 5, the first button, with the chosen button's number as reward.
pub open spec fn spec_effective_choice(menu_id: u8, reward: i8, flag: u8) -> (u8, i8) {
    if reward == -1 && flag == SELECT_FLAG_REWARD_BY_BUTTON {
        (0u8, menu_id as i8)
    } else {
        (menu_id, reward)
    }
}

pub fn effective_choice(menu_id: u8, reward: i8, flag: u8) -> (r: (u8, i8))
    ensures
        r == spec_effective_choice(menu_id, reward, flag),
{
    if reward == -1 && flag == SELECT_FLAG_REWARD_BY_BUTTON {
        (0, menu_id as i8)
    } else {
        (menu_id, reward)
    }
}

/// A player's choice in the open dialog. A busy or dead player is ignored.
/// Otherwise the dialog closes (every button cleared); a valid button of a
/// dialog opened by a quest helper records the reward and returns the
/// button's event and the reward, when the button leads to one.
pub fn recv_select_msg(st: &mut SelectMsgState, busy: bool, menu_id: u8, reward: i8) -> (r: Option<(i32, i8)>)
    ensures
        busy ==> r is None && final(st).events@ == old(st).events@ && final(st).selected_reward == old(
            st,
        ).selected_reward,
        !busy ==> events_cleared(final(st).events@),
        !busy && (menu_id >= 12 || old(st).quest_helper_id == 0) ==> r is None && final(st).selected_reward
            == old(st).selected_reward,
        !busy && menu_id < 12 && old(st).quest_helper_id != 0 ==> {
            let (m, w) = spec_effective_choice(menu_id, reward, old(st).flag);
            let ev = old(st).events@[m as int];
            &&& final(st).selected_reward == w
            &&& r == if ev < 0 { None::<(i32, i8)> } else { Some((ev, w)) }
        },
        final(st).flag == old(st).flag,
        final(st).quest_helper_id == old(st).quest_helper_id,
{
    if busy {
        return None;
    }
    if menu_id as usize >= MAX_MESSAGE_EVENT || st.quest_helper_id == 0 {
        st.events = [-1i32; 12];
        assert(events_cleared(st.events@));
        return None;
    }
    let (m, w) = effective_choice(menu_id, reward, st.flag);
    let ev = st.events[m as usize];
    st.selected_reward = w;
    st.events = [-1i32; 12];
    assert(events_cleared(st.events@));
    if ev < 0 {
        None
    } else {
        Some((ev, w))
    }
}

pub open spec fn i32_list_bytes(v: Seq<i32>) -> Seq<u8>
    decreases v.len(),
{
    if v.len() == 0 {
        Seq::empty()
    } else {
        i32_list_bytes(v.drop_last()) + u32_le(v.last() as u32)
    }
}

/// Opens a dialog: the menu packet `[u32 event NPC][u8 flag][i32 quest]
/// [i32 header text][12 x i32 button texts]` and the script name with an
/// 8-bit length; the dialog remembers the flag and each button's event.
pub fn send_select_msg(
    st: &mut SelectMsgState,
    event_sid: u32,
    flag: u8,
    quest_id: i32,
    header_text: i32,
    button_texts: &[i32; 12],
    button_events: &[i32; 12],
    lua_filename: &str,
) -> (pkt: Packet)
    ensures
        pkt.opcode == WIZ_SELECT_MSG,
        pkt.data@ == u32_le(event_sid) + u8_le(flag) + u32_le(quest_id as u32) + u32_le(header_text as u32)
            + i32_list_bytes(button_texts@) + sbyte_string(lua_filename.spec_bytes()),
        final(st).flag == flag,
        final(st).events@ == button_events@,
        final(st).selected_reward == old(st).selected_reward,
        final(st).quest_helper_id == old(st).quest_helper_id,
{
    let mut pkt = Packet::new(WIZ_SELECT_MSG);
    pkt.write_u32(event_sid);
    assert(pkt.data@ =~= u32_le(event_sid));
    pkt.write_u8(flag);
    pkt.write_i32(quest_id);
    pkt.write_i32(header_text);
    let ghost head = pkt.data@;
    let mut i: usize = 0;
    while i < 12
        invariant
            i <= 12,
            button_texts@.len() == 12,
            pkt.opcode == WIZ_SELECT_MSG,
            pkt.data@ == head + i32_list_bytes(button_texts@.subrange(0, i as int)),
        decreases 12 - i,
    {
        pkt.write_i32(button_texts[i]);
        proof {
            let next = button_texts@.subrange(0, i as int + 1);
            assert(next.drop_last() == button_texts@.subrange(0, i as int));
        }
        i = i + 1;
    }
    assert(button_texts@.subrange(0, 12) == button_texts@);
    pkt.write_sbyte_string(lua_filename);
    st.flag = flag;
    st.events = *button_events;
    pkt
}

} // verus!
