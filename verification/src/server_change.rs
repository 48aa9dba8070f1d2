//! Server transfer (WIZ_SERVERCHANGE 0x46): the packet that sends a client
//! to another server, or keeps it where it is.
use vstd::prelude::*;
use crate::packet::{Packet, u8_le, u16_le, sbyte_string};
use vstd::string::StringSliceAdditionalSpecFns;

verus! {

pub const WIZ_SERVERCHANGE: u8 = 0x46;

/// `[sbyte ip][u16 port][u8 init][u16 zone][u8 nation]`.
pub fn build_server_change(ip: &str, port: u16, init_flag: u8, zone_id: u16, nation: u8) -> (pkt: Packet)
    ensures
        pkt.opcode == WIZ_SERVERCHANGE,
        pkt.data@ == sbyte_string(ip.spec_bytes()) + u16_le(port) + u8_le(init_flag) + u16_le(zone_id) + u8_le(
            nation,
        ),
{
    let mut pkt = Packet::new(WIZ_SERVERCHANGE);
    pkt.write_sbyte_string(ip);
    pkt.write_u16(port);
    pkt.write_u8(init_flag);
    pkt.write_u16(zone_id);
    pkt.write_u8(nation);
    pkt
}

/// `[u8 0]`: the transfer is refused and the client stays.
pub fn build_server_busy() -> (pkt: Packet)
    ensures
        pkt.opcode == WIZ_SERVERCHANGE,
        pkt.data@ == u8_le(0),
{
    let mut pkt = Packet::new(WIZ_SERVERCHANGE);
    pkt.write_u8(0);
    pkt
}

} // verus!
