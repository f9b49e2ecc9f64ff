use vstd::prelude::*;
use vstd::utf8::{decode_utf8, valid_utf8};

use crate::error::ProfinetPacketError;
use crate::frame_id::{frame_id_of, FrameId};
use crate::text::str_from_utf8;

verus! {

/// Size of the fixed header that precedes the name of station.
pub const HEADER_LEN: usize = 16;

/// Offset of the DCP block (option, suboption, block length, data).
pub const BLOCK_OFFSET: usize = 12;

/// Size of the DCP block's own header: option, suboption and the 2-byte length.
pub const BLOCK_HEADER_LEN: usize = 4;

/// The big-endian value of two bytes.
pub open spec fn be16(hi: u8, lo: u8) -> u16 {
    (hi as int * 0x100 + lo as int) as u16
}

/// The big-endian value of four bytes.
pub open spec fn be32(b0: u8, b1: u8, b2: u8, b3: u8) -> u32 {
    (b0 as int * 0x100_0000 + b1 as int * 0x1_0000 + b2 as int * 0x100 + b3 as int) as u32
}

/// Reads a big-endian `u16` at `at`.
pub fn read_u16_be(data: &[u8], at: usize) -> (r: u16)
    requires
        at + 2 <= data@.len(),
    ensures
        r == be16(data@[at as int], data@[at + 1]),
{
    data[at] as u16 * 0x100 + data[at + 1] as u16
}

/// Reads a big-endian `u32` at `at`.
pub fn read_u32_be(data: &[u8], at: usize) -> (r: u32)
    requires
        at + 4 <= data@.len(),
    ensures
        r == be32(data@[at as int], data@[at + 1], data@[at + 2], data@[at + 3]),
{
    data[at] as u32 * 0x100_0000 + data[at + 1] as u32 * 0x1_0000 + data[at + 2] as u32 * 0x100
        + data[at + 3] as u32
}

/// The fixed-offset fields that precede the name of station, as the model of a packet holds them.
pub struct DcpHeader {
    pub frame_id: FrameId,
    pub service_id: u8,
    pub service_type: u8,
    pub xid: u32,
    pub response_delay: u16,
    pub dcp_data_length: u16,
    pub option: u8,
    pub suboption: u8,
    pub dcp_block_length: u16,
}

/// The abstract content of a decoded packet: its header and the station name as text.
pub struct PacketModel {
    pub header: DcpHeader,
    pub name_of_station: Seq<char>,
}

/// A decoded DCP Identify frame; the station name borrows from the input buffer.
#[derive(Debug, Clone, PartialEq, Eq, Hash)]
pub struct ProfinetPacket<'a> {
    pub frame_id: FrameId,
    pub service_id: u8,
    pub service_type: u8,
    pub xid: u32,
    pub response_delay: u16,
    pub dcp_data_length: u16,
    pub option: u8,
    pub suboption: u8,
    pub dcp_block_length: u16,
    pub name_of_station: &'a str,
}

impl<'a> ProfinetPacket<'a> {
    /// The fixed fields of this packet.
    pub open spec fn header(&self) -> DcpHeader {
        DcpHeader {
            frame_id: self.frame_id,
            service_id: self.service_id,
            service_type: self.service_type,
            xid: self.xid,
            response_delay: self.response_delay,
            dcp_data_length: self.dcp_data_length,
            option: self.option,
            suboption: self.suboption,
            dcp_block_length: self.dcp_block_length,
        }
    }
}

/// An empty record: unicast class, zero fields and an empty name.
impl<'a> Default for ProfinetPacket<'a> {
    fn default() -> (r: ProfinetPacket<'a>)
        ensures
            r.frame_id == FrameId::Unicast,
            r.service_id == 0 && r.service_type == 0 && r.xid == 0,
            r.response_delay == 0 && r.dcp_data_length == 0,
            r.option == 0 && r.suboption == 0 && r.dcp_block_length == 0,
            r.name_of_station@.len() == 0,
    {
        proof {
            reveal_strlit("");
        }
        ProfinetPacket {
            frame_id: FrameId::Unicast,
            service_id: 0,
            service_type: 0,
            xid: 0,
            response_delay: 0,
            dcp_data_length: 0,
            option: 0,
            suboption: 0,
            dcp_block_length: 0,
            name_of_station: "",
        }
    }
}

impl<'a> View for ProfinetPacket<'a> {
    type V = PacketModel;

    open spec fn view(&self) -> PacketModel {
        PacketModel { header: self.header(), name_of_station: self.name_of_station@ }
    }
}

/// The raw frame identifier at the start of the buffer.
pub open spec fn raw_frame_id(data: Seq<u8>) -> u16
    recommends
        data.len() >= 2,
{
    be16(data[0], data[1])
}

/// The declared length of the name of station.
pub open spec fn block_length(data: Seq<u8>) -> u16
    recommends
        data.len() >= 16,
{
    be16(data[14], data[15])
}

/// The number of bytes from the start of the DCP block to the end of the buffer.
pub open spec fn block_remaining(data: Seq<u8>) -> int {
    data.len() - BLOCK_OFFSET
}

/// Whether the whole declared name of station lies inside the buffer.
pub open spec fn block_fits(data: Seq<u8>) -> bool {
    block_remaining(data) >= BLOCK_HEADER_LEN + block_length(data)
}

/// The bytes that hold the name of station.
pub open spec fn name_bytes(data: Seq<u8>) -> Seq<u8>
    recommends
        data.len() >= 16,
        block_fits(data),
{
    data.subrange(HEADER_LEN as int, HEADER_LEN + block_length(data))
}

/// The fixed fields read from a buffer whose frame identifier is known.
pub open spec fn header_of(data: Seq<u8>) -> DcpHeader
    recommends
        data.len() >= 16,
        frame_id_of(raw_frame_id(data)) is Some,
{
    DcpHeader {
        frame_id: frame_id_of(raw_frame_id(data))->Some_0,
        service_id: data[2],
        service_type: data[3],
        xid: be32(data[4], data[5], data[6], data[7]),
        response_delay: be16(data[8], data[9]),
        dcp_data_length: be16(data[10], data[11]),
        option: data[12],
        suboption: data[13],
        dcp_block_length: block_length(data),
    }
}

/// What decoding a buffer yields: each check in order, the first that fails decides the error.
pub open spec fn decode(data: Seq<u8>) -> Result<PacketModel, ProfinetPacketError> {
    if data.len() < HEADER_LEN {
        Err(ProfinetPacketError::PacketTooShort(data.len() as usize))
    } else if frame_id_of(raw_frame_id(data)) is None {
        Err(ProfinetPacketError::UnknownFrameId(raw_frame_id(data)))
    } else if !block_fits(data) {
        Err(ProfinetPacketError::InvalidDcpBlockLength(block_remaining(data) as usize))
    } else if !valid_utf8(name_bytes(data)) {
        Err(ProfinetPacketError::InvalidNameOfStation)
    } else {
        Ok(PacketModel { header: header_of(data), name_of_station: decode_utf8(name_bytes(data)) })
    }
}

/// Whether a decoding result agrees with the model: the same error, or a packet whose view is the model's.
pub open spec fn agrees(
    r: Result<ProfinetPacket, ProfinetPacketError>,
    m: Result<PacketModel, ProfinetPacketError>,
) -> bool {
    match r {
        Ok(p) => m matches Ok(v) && p@ == v,
        Err(e) => m == Err::<PacketModel, ProfinetPacketError>(e),
    }
}

/// Rejects a buffer shorter than the fixed header.
pub fn validate_packet_length(data: &[u8]) -> (r: Result<(), ProfinetPacketError>)
    ensures
        r == (if data@.len() < HEADER_LEN {
            Err(ProfinetPacketError::PacketTooShort(data@.len() as usize))
        } else {
            Ok(())
        }),
{
    if data.len() < HEADER_LEN {
        Err(ProfinetPacketError::PacketTooShort(data.len()))
    } else {
        Ok(())
    }
}

/// Reads the frame identifier and classifies it.
pub fn validate_frame_id(data: &[u8]) -> (r: Result<FrameId, ProfinetPacketError>)
    requires
        data@.len() >= 2,
    ensures
        r == (match frame_id_of(raw_frame_id(data@)) {
            Some(id) => Ok(id),
            None => Err(ProfinetPacketError::UnknownFrameId(raw_frame_id(data@))),
        }),
{
    let value = read_u16_be(data, 0);
    match FrameId::from_u16(value) {
        Some(id) => Ok(id),
        None => Err(ProfinetPacketError::UnknownFrameId(value)),
    }
}

/// Checks that the buffer holds the fixed header and the DCP block's own header.
pub fn validate_dcp_block(data: &[u8]) -> (r: Result<(), ProfinetPacketError>)
    ensures
        r == (if data@.len() < HEADER_LEN {
            Err(ProfinetPacketError::PacketTooShort(data@.len() as usize))
        } else if block_remaining(data@) < BLOCK_HEADER_LEN {
            Err(ProfinetPacketError::InvalidDcpBlockLength(block_remaining(data@) as usize))
        } else {
            Ok(())
        }),
{
    if data.len() < HEADER_LEN {
        return Err(ProfinetPacketError::PacketTooShort(data.len()));
    }
    let remaining = data.len() - BLOCK_OFFSET;
    if remaining < BLOCK_HEADER_LEN {
        return Err(ProfinetPacketError::InvalidDcpBlockLength(remaining));
    }
    Ok(())
}

/// Takes the name of station out of the DCP block, as text that borrows from `data`.
pub fn extract_name_of_station<'a>(data: &'a [u8]) -> (r: Result<&'a str, ProfinetPacketError>)
    requires
        data@.len() >= HEADER_LEN,
    ensures
        !block_fits(data@) ==> r == Err::<&str, ProfinetPacketError>(
            ProfinetPacketError::InvalidDcpBlockLength(block_remaining(data@) as usize),
        ),
        block_fits(data@) && !valid_utf8(name_bytes(data@)) ==> r == Err::<&str, ProfinetPacketError>(
            ProfinetPacketError::InvalidNameOfStation,
        ),
        block_fits(data@) && valid_utf8(name_bytes(data@)) ==> (r matches Ok(s) && s@ == decode_utf8(
            name_bytes(data@),
        )),
{
    let remaining = data.len() - BLOCK_OFFSET;
    let len = read_u16_be(data, 14) as usize;
    if remaining < BLOCK_HEADER_LEN + len {
        return Err(ProfinetPacketError::InvalidDcpBlockLength(remaining));
    }
    let bytes = &data[HEADER_LEN..HEADER_LEN + len];
    assert(bytes@ == name_bytes(data@));
    match str_from_utf8(bytes) {
        Ok(s) => Ok(s),
        Err(_) => Err(ProfinetPacketError::InvalidNameOfStation),
    }
}

impl<'a> ProfinetPacket<'a> {
    /// Decodes a DCP Identify payload, the bytes that follow the Ethernet header.
    pub fn try_from(data: &'a [u8]) -> (r: Result<ProfinetPacket<'a>, ProfinetPacketError>)
        ensures
            agrees(r, decode(data@)),
    {
        validate_packet_length(data)?;
        let frame_id = validate_frame_id(data)?;
        validate_dcp_block(data)?;

        let service_id = data[2];
        let service_type = data[3];
        let xid = read_u32_be(data, 4);
        let response_delay = read_u16_be(data, 8);
        let dcp_data_length = read_u16_be(data, 10);

        let option = data[12];
        let suboption = data[13];
        let dcp_block_length = read_u16_be(data, 14);

        let name_of_station = extract_name_of_station(data)?;

        Ok(ProfinetPacket {
            frame_id,
            service_id,
            service_type,
            xid,
            response_delay,
            dcp_data_length,
            option,
            suboption,
            dcp_block_length,
            name_of_station,
        })
    }
}

} // verus!
