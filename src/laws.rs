use vstd::prelude::*;
use vstd::utf8::{encode_utf8, encode_utf8_decode_utf8, encode_utf8_valid_utf8, valid_utf8};

use crate::error::ProfinetPacketError;
use crate::frame_id::{frame_id_of, FrameId};
use crate::packet::{
    agrees, be16, be32, block_fits, block_length, block_remaining, decode, name_bytes,
    raw_frame_id, PacketModel, HEADER_LEN,
};

verus! {

/// Every buffer shorter than the fixed header is rejected as too short, with its length.
pub proof fn lemma_short_buffer_rejected(data: Seq<u8>)
    requires
        data.len() < HEADER_LEN,
    ensures
        decode(data) == Err::<PacketModel, ProfinetPacketError>(
            ProfinetPacketError::PacketTooShort(data.len() as usize),
        ),
{
}

/// A full-length buffer whose first two bytes hold a value outside every frame-identifier
/// class is rejected with that value.
pub proof fn lemma_unknown_frame_id_rejected(data: Seq<u8>, value: u16)
    requires
        data.len() >= HEADER_LEN,
        be16(data[0], data[1]) == value,
        !(0xC000 <= value <= 0xF7FF),
        !(0xF800 <= value <= 0xFBFF),
        value != 0xFEFD,
        value != 0xFEFE,
        value != 0xFEFF,
    ensures
        decode(data) == Err::<PacketModel, ProfinetPacketError>(
            ProfinetPacketError::UnknownFrameId(value),
        ),
{
}

/// A valid fixed header that declares more name bytes than the buffer holds is rejected
/// as a bad block length, with the number of bytes from the block start.
pub proof fn lemma_truncated_block_rejected(data: Seq<u8>)
    requires
        data.len() >= HEADER_LEN,
        frame_id_of(raw_frame_id(data)) is Some,
        HEADER_LEN + block_length(data) > data.len(),
    ensures
        decode(data) == Err::<PacketModel, ProfinetPacketError>(
            ProfinetPacketError::InvalidDcpBlockLength(block_remaining(data) as usize),
        ),
{
}

/// A valid header whose declared name bytes are present but not UTF-8 is rejected as a bad name.
pub proof fn lemma_bad_name_rejected(data: Seq<u8>)
    requires
        data.len() >= HEADER_LEN,
        frame_id_of(raw_frame_id(data)) is Some,
        block_fits(data),
        !valid_utf8(name_bytes(data)),
    ensures
        decode(data) == Err::<PacketModel, ProfinetPacketError>(
            ProfinetPacketError::InvalidNameOfStation,
        ),
{
}

/// The wire value that stands for a frame-identifier class: the first value of its range.
pub open spec fn frame_id_value(id: FrameId) -> u16 {
    match id {
        FrameId::Unicast => 0xC000,
        FrameId::Multicast => 0xF800,
        FrameId::GetReqSetReqGetRespSetResp => 0xFEFD,
        FrameId::IdentifyReq => 0xFEFE,
        FrameId::IdentifyResp => 0xFEFF,
    }
}

/// The two big-endian bytes of a `u16`.
pub open spec fn u16_bytes(v: u16) -> Seq<u8> {
    seq![(v / 0x100) as u8, (v % 0x100) as u8]
}

/// The four big-endian bytes of a `u32`.
pub open spec fn u32_bytes(v: u32) -> Seq<u8> {
    seq![
        (v / 0x100_0000) as u8,
        (v / 0x1_0000 % 0x100) as u8,
        (v / 0x100 % 0x100) as u8,
        (v % 0x100) as u8,
    ]
}

/// The wire form of a packet: the fixed header field by field, then the UTF-8 encoded name.
pub open spec fn encode(m: PacketModel) -> Seq<u8> {
    let h = m.header;
    u16_bytes(frame_id_value(h.frame_id)) + seq![h.service_id, h.service_type] + u32_bytes(h.xid)
        + u16_bytes(h.response_delay) + u16_bytes(h.dcp_data_length) + seq![h.option, h.suboption]
        + u16_bytes(h.dcp_block_length) + encode_utf8(m.name_of_station)
}

/// A packet whose block length is the byte length of its encoded name, as every decoded packet's is.
pub open spec fn consistent(m: PacketModel) -> bool {
    encode_utf8(m.name_of_station).len() == m.header.dcp_block_length
}

proof fn lemma_u16_bytes(v: u16)
    ensures
        u16_bytes(v).len() == 2,
        be16(u16_bytes(v)[0], u16_bytes(v)[1]) == v,
{
}

proof fn lemma_u32_bytes(v: u32)
    ensures
        u32_bytes(v).len() == 4,
        be32(u32_bytes(v)[0], u32_bytes(v)[1], u32_bytes(v)[2], u32_bytes(v)[3]) == v,
{
}

/// Decoding the wire form of a consistent packet gives back that packet, field for field.
pub proof fn lemma_round_trip(m: PacketModel)
    requires
        consistent(m),
    ensures
        decode(encode(m)) == Ok::<PacketModel, ProfinetPacketError>(m),
{
    let h = m.header;
    let data = encode(m);
    let name = encode_utf8(m.name_of_station);
    lemma_u16_bytes(frame_id_value(h.frame_id));
    lemma_u32_bytes(h.xid);
    lemma_u16_bytes(h.response_delay);
    lemma_u16_bytes(h.dcp_data_length);
    lemma_u16_bytes(h.dcp_block_length);
    assert(data.len() == HEADER_LEN + name.len());
    assert(raw_frame_id(data) == frame_id_value(h.frame_id));
    assert(frame_id_of(raw_frame_id(data)) == Some(h.frame_id));
    assert(block_length(data) == h.dcp_block_length);
    assert(name_bytes(data) =~= name);
    encode_utf8_valid_utf8(m.name_of_station);
    encode_utf8_decode_utf8(m.name_of_station);
    assert(data[2] == h.service_id);
    assert(data[12] == h.option);
    match decode(data) {
        Ok(d) => {
            assert(d.header == h);
            assert(d.name_of_station == m.name_of_station);
        },
        Err(_) => {},
    }
}

/// Two decodings of the same buffer agree: both succeed with equal packets, or both fail
/// with the same error.
pub proof fn lemma_decode_repeatable(
    data: Seq<u8>,
    first: Result<crate::packet::ProfinetPacket, ProfinetPacketError>,
    second: Result<crate::packet::ProfinetPacket, ProfinetPacketError>,
)
    requires
        agrees(first, decode(data)),
        agrees(second, decode(data)),
    ensures
        match (first, second) {
            (Ok(p), Ok(q)) => p@ == q@,
            (Err(e), Err(f)) => e == f,
            _ => false,
        },
{
}

} // verus!
