use vstd::prelude::*;

verus! {

/// Why a buffer was rejected by the decoder.
#[derive(Debug, Clone, Copy, PartialEq, Eq, Structural)]
pub enum ProfinetPacketError {
    /// The buffer is shorter than the fixed header; holds the length found.
    PacketTooShort(usize),
    /// The frame identifier falls in no known class; holds the raw value.
    UnknownFrameId(u16),
    /// Fewer bytes follow the block start than the block needs; holds the count found.
    InvalidDcpBlockLength(usize),
    /// The name-of-station bytes are not well-formed UTF-8.
    InvalidNameOfStation,
}

} // verus!
