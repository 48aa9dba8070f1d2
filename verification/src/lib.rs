//! Game-server rules for a Knight Online style MMORPG: packet encoding and the
//! decisions behind the client request handlers.
pub mod packet;
pub mod inventory;
pub mod under_castle;
pub mod stats;
pub mod quest;
pub mod rank;
pub mod regene;
pub mod trade;
pub mod clock;
pub mod region;
pub mod pet;
pub mod perks;
pub mod pus_refund;
pub mod speedhack;
pub mod stealth;
pub mod survival;
pub mod req_in;
pub mod target_hp;
pub mod select_msg;
pub mod seal;
pub mod state_change;
pub mod territory;
pub mod terrain;
pub mod room;
pub mod premium2;
pub mod server_change;
