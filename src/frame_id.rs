use vstd::prelude::*;

verus! {

/// Classification of the 16-bit frame identifier that opens a PROFINET frame.
#[derive(Debug, Clone, Copy, PartialEq, Eq, Structural, Hash)]
pub enum FrameId {
    Unicast,
    Multicast,
    GetReqSetReqGetRespSetResp,
    IdentifyReq,
    IdentifyResp,
}

/// The class of a raw frame identifier, or `None` when it falls in no known range.
pub open spec fn frame_id_of(value: u16) -> Option<FrameId> {
    if 0xC000 <= value <= 0xF7FF {
        Some(FrameId::Unicast)
    } else if 0xF800 <= value <= 0xFBFF {
        Some(FrameId::Multicast)
    } else if value == 0xFEFD {
        Some(FrameId::GetReqSetReqGetRespSetResp)
    } else if value == 0xFEFE {
        Some(FrameId::IdentifyReq)
    } else if value == 0xFEFF {
        Some(FrameId::IdentifyResp)
    } else {
        None
    }
}

impl FrameId {
    /// Classifies a raw frame identifier by its numeric range.
    pub fn from_u16(value: u16) -> (r: Option<FrameId>)
        ensures
            r == frame_id_of(value),
    {
        match value {
            0xC000..=0xF7FF => Some(FrameId::Unicast),
            0xF800..=0xFBFF => Some(FrameId::Multicast),
            0xFEFD => Some(FrameId::GetReqSetReqGetRespSetResp),
            0xFEFE => Some(FrameId::IdentifyReq),
            0xFEFF => Some(FrameId::IdentifyResp),
            _ => None,
        }
    }
}

/// A placeholder value that exists before classification; decoding never yields it by itself.
impl Default for FrameId {
    fn default() -> (r: FrameId)
        ensures
            r == FrameId::Unicast,
    {
        FrameId::Unicast
    }
}

} // verus!
