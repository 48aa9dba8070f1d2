//! State changes a player asks for (WIZ_STATE_CHANGE 0x29): sitting and
//! standing, looking for a party, a game master's transformation and
//! visibility, and emotes; what each changes and what the region is told.
use vstd::prelude::*;
use crate::packet::{Packet, u8_le, u32_le};
use crate::regene::WIZ_STATE_CHANGE;
use crate::region::{INOUT_IN, INOUT_OUT};
use crate::speedhack::COMMAND_CAPTAIN;

verus! {

pub const USER_STANDING: u8 = 0x01;
pub const USER_SITDOWN: u8 = 0x02;
pub const USER_DEAD: u8 = 0x03;
pub const USER_MONUMENT: u8 = 0x06;

pub const STATE_CHANGE_SIT_STAND: u8 = 1;
pub const STATE_CHANGE_PARTY: u8 = 2;
pub const STATE_CHANGE_ABNORMAL_TYPE: u8 = 3;
pub const STATE_CHANGE_EMOTION: u8 = 4;
pub const STATE_CHANGE_GM_VISIBILITY: u8 = 5;

/// Team colours.
pub const TEAM_COLOUR_NONE: u8 = 0;
pub const TEAM_COLOUR_BLUE: u8 = 1;
pub const TEAM_COLOUR_RED: u8 = 2;

/// Chat type of a clan notice.
pub const CLAN_NOTICE_CHAT: u8 = 24;

/// Lowest level that earns training experience while sitting.
pub const TRAINING_MIN_LEVEL: u8 = 10;

/// What a state change reads and writes of a session.
#[derive(Clone, Copy, Debug, PartialEq, Eq, Structural)]
pub struct StateSession {
    pub authority: u8,
    pub fame: u8,
    pub res_hp_type: u8,
    pub need_party: u8,
    pub abnormal_type: u32,
    pub old_abnormal_type: u32,
    pub total_training_exp: u64,
    pub last_training_time: u64,
}

/// What a request led to.
#[derive(Clone, Copy, Debug, PartialEq, Eq, Structural)]
pub enum StateChangeOutcome {
    /// Refused: nothing changes and nothing is sent.
    Ignored,
    /// Applied and echoed to the region, the player included.
    /// `forced_visible`: an invisible game master was first made visible
    /// (and shown to the region); `gm_inout`: the in-out type that shows or
    /// hides a game master to the others.
    Applied { forced_visible: bool, gm_inout: Option<u8> },
}

/// Whether the request is accepted (by type: 1 sit, stand or monument;
/// 2 any; 3 a game master's transformation to 1, 2, 3 or 5; 4 any emote,
/// but no greeting or provocation from a command captain; 5 a game master
/// switching visibility to a new state; nothing else).
pub open spec fn spec_state_change_allowed(s: StateSession, b_type: u8, n_buff: u32) -> bool {
    let buff = (n_buff % 256) as u8;
    if b_type == 1 {
        buff == USER_STANDING || buff == USER_SITDOWN || buff == USER_MONUMENT
    } else if b_type == 2 {
        true
    } else if b_type == 3 {
        s.authority == 0 && (n_buff == 1 || n_buff == 5 || n_buff == 2 || n_buff == 3)
    } else if b_type == 4 {
        !(((1 <= buff <= 3) || (11 <= buff <= 13)) && s.fame == COMMAND_CAPTAIN)
    } else if b_type == 5 {
        s.authority == 0 && !((buff == 0 && s.abnormal_type == 0) || (buff == 1 && s.abnormal_type == 1))
    } else {
        false
    }
}

/// The session after an accepted request.
pub open spec fn spec_state_after(s: StateSession, b_type: u8, n_buff: u32) -> StateSession {
    let buff = (n_buff % 256) as u8;
    let base = StateSession { total_training_exp: 0, last_training_time: 0, ..s };
    if b_type == 1 {
        StateSession { res_hp_type: buff, ..base }
    } else if b_type == 2 {
        StateSession { need_party: buff, ..base }
    } else if b_type == 3 {
        let visible = if s.abnormal_type == 0 { 1u32 } else { s.abnormal_type };
        StateSession { old_abnormal_type: visible, abnormal_type: n_buff, ..base }
    } else if b_type == 5 {
        StateSession { abnormal_type: n_buff, ..base }
    } else {
        base
    }
}

/// A state change request of type `b_type` with value `n_buff` (whose low
/// byte is the "buff"). A dead player changes nothing. An accepted request
/// resets the training counters and applies its change; the region is then
/// told `[u32 session][u8 type][u32 value]`.
pub fn state_change(s: &mut StateSession, dead: bool, b_type: u8, n_buff: u32) -> (r: StateChangeOutcome)
    ensures
        dead || !spec_state_change_allowed(*old(s), b_type, n_buff) ==> r == StateChangeOutcome::Ignored
            && *final(s) == *old(s),
        !dead && spec_state_change_allowed(*old(s), b_type, n_buff) ==> {
            &&& *final(s) == spec_state_after(*old(s), b_type, n_buff)
            &&& r == StateChangeOutcome::Applied {
                forced_visible: b_type == 3 && old(s).abnormal_type == 0,
                gm_inout: if b_type == STATE_CHANGE_GM_VISIBILITY {
                    Some(if n_buff == 0 { INOUT_OUT } else { INOUT_IN })
                } else {
                    None
                },
            }
        },
{
    if dead {
        return StateChangeOutcome::Ignored;
    }
    let buff: u8 = (n_buff % 256) as u8;
    let mut forced_visible = false;
    if b_type == 1 {
        if buff != USER_STANDING && buff != USER_SITDOWN && buff != USER_MONUMENT {
            return StateChangeOutcome::Ignored;
        }
    } else if b_type == 2 {
    } else if b_type == 3 {
        if s.authority != 0 || (n_buff != 1 && n_buff != 5 && n_buff != 2 && n_buff != 3) {
            return StateChangeOutcome::Ignored;
        }
        if s.abnormal_type == 0 {
            s.abnormal_type = 1;
            forced_visible = true;
        }
    } else if b_type == 4 {
        if ((1 <= buff && buff <= 3) || (11 <= buff && buff <= 13)) && s.fame == COMMAND_CAPTAIN {
            return StateChangeOutcome::Ignored;
        }
    } else if b_type == 5 {
        if s.authority != 0 {
            return StateChangeOutcome::Ignored;
        }
        if (buff == 0 && s.abnormal_type == 0) || (buff == 1 && s.abnormal_type == 1) {
            return StateChangeOutcome::Ignored;
        }
    } else {
        return StateChangeOutcome::Ignored;
    }
    s.total_training_exp = 0;
    s.last_training_time = 0;
    if b_type == 1 {
        s.res_hp_type = buff;
    }
    if b_type == 2 {
        s.need_party = buff;
    }
    if b_type == 3 {
        s.old_abnormal_type = s.abnormal_type;
        s.abnormal_type = n_buff;
    }
    if b_type == STATE_CHANGE_GM_VISIBILITY {
        s.abnormal_type = n_buff;
    }
    let gm_inout = if b_type == STATE_CHANGE_GM_VISIBILITY {
        Some(if n_buff == 0 { INOUT_OUT } else { INOUT_IN })
    } else {
        None
    };
    StateChangeOutcome::Applied { forced_visible, gm_inout }
}

/// Types the client may never set (party leader, invisibility, beginner
/// quest, team colour): only the server does.
pub fn is_server_internal_type(b_type: u8) -> (r: bool)
    ensures
        r == (b_type == 6 || b_type == 7 || b_type == 8 || b_type == 11),
{
    b_type == 6 || b_type == 7 || b_type == 8 || b_type == 11
}

/// The team colour of an event value: red for 2, blue for 1, else none.
pub fn team_colour(buff: u8) -> (r: u8)
    ensures
        r == if buff == 2 { TEAM_COLOUR_RED } else if buff == 1 { TEAM_COLOUR_BLUE } else { TEAM_COLOUR_NONE },
{
    if buff == 2 {
        TEAM_COLOUR_RED
    } else if buff == 1 {
        TEAM_COLOUR_BLUE
    } else {
        TEAM_COLOUR_NONE
    }
}

/// Sitting earns training experience from level 10 on.
pub fn qualifies_for_training(level: u8) -> (r: bool)
    ensures
        r == (level >= TRAINING_MIN_LEVEL),
{
    level >= TRAINING_MIN_LEVEL
}

/// The region's notice: `[u32 session][u8 type][u32 value]`.
pub fn build_state_change_packet(sid: u16, b_type: u8, n_buff: u32) -> (pkt: Packet)
    ensures
        pkt.opcode == WIZ_STATE_CHANGE,
        pkt.data@ == u32_le(sid as u32) + u8_le(b_type) + u32_le(n_buff),
{
    let mut pkt = Packet::new(WIZ_STATE_CHANGE);
    pkt.write_u32(sid as u32);
    pkt.write_u8(b_type);
    pkt.write_u32(n_buff);
    pkt
}

/// A game master's visibility switch takes effect once: asking again for
/// the state now in force is refused.
pub proof fn lemma_gm_visibility_toggle_once(s: StateSession, n_buff: u32)
    requires
        n_buff == 0 || n_buff == 1,
        spec_state_change_allowed(s, STATE_CHANGE_GM_VISIBILITY, n_buff),
    ensures
        !spec_state_change_allowed(spec_state_after(s, STATE_CHANGE_GM_VISIBILITY, n_buff), STATE_CHANGE_GM_VISIBILITY, n_buff),
{
}


/// Any living player may stand up, sit down or take the monument pose
/// (type 1 with values 1, 2 and 6), and the request sets exactly that pose;
/// no other type-1 value is taken. A player who sits down can always stand
/// up again.
pub proof fn lemma_sit_and_stand_always_allowed(s: StateSession, n_buff: u32)
    ensures
        n_buff % 256 == 1 || n_buff % 256 == 2 || n_buff % 256 == 6 ==> spec_state_change_allowed(s, 1, n_buff)
            && spec_state_after(s, 1, n_buff).res_hp_type == n_buff % 256,
        !(n_buff % 256 == 1 || n_buff % 256 == 2 || n_buff % 256 == 6) ==> !spec_state_change_allowed(s, 1, n_buff),
        spec_state_change_allowed(spec_state_after(s, 1, 2), 1, 1) && spec_state_after(
            spec_state_after(s, 1, 2),
            1,
            1,
        ).res_hp_type == 1,
{
}


/// Who may do what: anyone may set a party need (type 2), which is then
/// the low byte of the value; only a game master (authority 0) transforms
/// (type 3) or switches visibility (type 5); everyone but a command captain
/// may greet or provoke (emotes 1 to 3 and 11 to 13; a command captain has fame 100), and other emotes are
/// open to all; types past 5 and type 0 are never taken. Whatever is
/// accepted resets the training counters.
pub proof fn lemma_state_change_permissions(s: StateSession, b_type: u8, n_buff: u32)
    ensures
        spec_state_change_allowed(s, 2, n_buff) && spec_state_after(s, 2, n_buff).need_party == n_buff % 256,
        (b_type == 3 || b_type == 5) && s.authority != 0 ==> !spec_state_change_allowed(s, b_type, n_buff),
        s.authority == 0 && (n_buff == 1 || n_buff == 2 || n_buff == 3 || n_buff == 5) ==> spec_state_change_allowed(
            s,
            3,
            n_buff,
        ) && spec_state_after(s, 3, n_buff).abnormal_type == n_buff,
        s.fame != 100 ==> spec_state_change_allowed(s, 4, n_buff),
        !(1 <= n_buff % 256 <= 3 || 11 <= n_buff % 256 <= 13) ==> spec_state_change_allowed(s, 4, n_buff),
        b_type == 0 || b_type > 5 ==> !spec_state_change_allowed(s, b_type, n_buff),
        spec_state_change_allowed(s, b_type, n_buff) ==> spec_state_after(s, b_type, n_buff).total_training_exp == 0
            && spec_state_after(s, b_type, n_buff).last_training_time == 0,
{
}

} // verus!
