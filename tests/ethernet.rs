use profinet_rt::ethernet::{profinet_payload, PROFINET_ETHERTYPE};

#[test]
fn profinet_frame_yields_its_payload() {
    let mut frame = vec![0u8; 12];
    frame.extend_from_slice(&PROFINET_ETHERTYPE.to_be_bytes());
    frame.extend_from_slice(&[0xFE, 0xFE, 0x05]);
    assert_eq!(profinet_payload(&frame), Some(&[0xFE, 0xFE, 0x05][..]));
}

#[test]
fn header_only_frame_yields_empty_payload() {
    let mut frame = vec![0u8; 12];
    frame.extend_from_slice(&[0x88, 0x92]);
    assert_eq!(profinet_payload(&frame), Some(&[][..]));
}

#[test]
fn other_ethertype_or_short_frame_yields_nothing() {
    let mut frame = vec![0u8; 12];
    frame.extend_from_slice(&[0x08, 0x00, 0xFE, 0xFE]);
    assert_eq!(profinet_payload(&frame), None);
    assert_eq!(profinet_payload(&[0x88, 0x92]), None);
    assert_eq!(profinet_payload(&frame[..13]), None);
}

#[test]
fn hex_dump_frame_decodes() {
    let frame = hex::decode(
        "010ecf000000000e8cd3e37f8892fefe0500030004880001000c02020007706e2d696f2d3200cccc00000000000000000000000000000000",
    )
    .unwrap();
    let payload = profinet_payload(&frame).unwrap();
    let packet = profinet_rt::ProfinetPacket::try_from(payload).unwrap();
    assert_eq!(packet.frame_id, profinet_rt::FrameId::IdentifyReq);
    assert_eq!(packet.xid, 0x03000488);
    assert_eq!(packet.name_of_station, "pn-io-2");
}
