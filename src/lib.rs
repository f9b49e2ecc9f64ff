//! Decoder for PROFINET DCP Identify frames: turns the payload that follows
//! an Ethernet header (EtherType 0x8892) into a validated record.

pub mod error;
pub mod ethernet;
pub mod frame_id;
pub mod laws;
pub mod packet;
mod text;

pub use error::ProfinetPacketError;
pub use frame_id::FrameId;
pub use packet::ProfinetPacket;
