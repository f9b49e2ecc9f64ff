use vstd::prelude::*;

use crate::packet::be16;

verus! {

/// Size of an Ethernet II header: two MAC addresses and the EtherType.
pub const ETHERNET_HEADER_LEN: usize = 14;

/// The EtherType that marks a PROFINET frame.
pub const PROFINET_ETHERTYPE: u16 = 0x8892;

/// Whether a whole Ethernet frame carries PROFINET.
pub open spec fn is_profinet_frame(frame: Seq<u8>) -> bool {
    frame.len() >= ETHERNET_HEADER_LEN && be16(frame[12], frame[13]) == PROFINET_ETHERTYPE
}

/// The PROFINET payload of an Ethernet frame, or `None` when the frame is too short
/// for its header or carries another EtherType.
pub fn profinet_payload(frame: &[u8]) -> (r: Option<&[u8]>)
    ensures
        r is Some <==> is_profinet_frame(frame@),
        r matches Some(p) ==> p@ == frame@.subrange(ETHERNET_HEADER_LEN as int, frame@.len() as int),
{
    if frame.len() < ETHERNET_HEADER_LEN {
        return None;
    }
    let ethertype = crate::packet::read_u16_be(frame, 12);
    if ethertype != PROFINET_ETHERTYPE {
        return None;
    }
    Some(&frame[ETHERNET_HEADER_LEN..frame.len()])
}

} // verus!
