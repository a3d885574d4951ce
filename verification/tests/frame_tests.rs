use tuck::frame::{
    Frame, FrameBuilder, FrameError, FrameHeader, CI144_MAGIC, FRAME_TYPE_CONTROL, FRAME_TYPE_DATA, HEADER_SIZE,
    PFP_SIZE, PRESENT_PFP, PRESENT_SAP, SAP_SIZE,
};

#[test]
fn test_header_parse_valid() {
    let data = [0xCF, 0x14, 0x00, 0x01, 0x00, 0x01, PRESENT_PFP, 0x00];
    let header = FrameHeader::parse(&data).unwrap();
    assert!(header.is_valid_magic());
    assert_eq!(header.frame_type, FRAME_TYPE_DATA);
    assert_eq!(header.seq, 1);
    assert!(header.has_pfp());
    assert!(!header.has_sap());
}

#[test]
fn test_header_parse_invalid_magic() {
    let data = [0x00, 0x00, 0x00, 0x01, 0x00, 0x00, 0x00, 0x00];
    let result = FrameHeader::parse(&data);
    assert!(matches!(result, Err(FrameError::InvalidMagic { .. })));
}

#[test]
fn test_header_parse_too_short() {
    let data = [0xCF, 0x14, 0x00];
    let result = FrameHeader::parse(&data);
    assert!(matches!(result, Err(FrameError::TooShort { .. })));
}

#[test]
fn test_header_to_bytes_roundtrip() {
    let header = FrameHeader {
        magic: CI144_MAGIC,
        flags: 0xAB,
        frame_type: FRAME_TYPE_DATA,
        seq: 12345,
        present: PRESENT_PFP | PRESENT_SAP,
        payload_len: 42,
    };
    let bytes = header.to_bytes();
    let parsed = FrameHeader::parse(&bytes).unwrap();
    assert_eq!(parsed, header);
}

#[test]
fn test_frame_parse_with_pfp() {
    let pfp = [0xCF, 0x14, 0b00_01_10_11, 0b1_1_1_00000];
    let frame_bytes = FrameBuilder::new().with_seq(42).with_pfp(pfp).with_payload(vec![1, 2, 3]).build();
    let frame = Frame::parse(&frame_bytes).unwrap();
    assert_eq!(frame.header.seq, 42);
    assert!(frame.pfp.is_some());
    assert_eq!(frame.pfp.unwrap(), &pfp);
    assert_eq!(frame.payload, &[1, 2, 3]);
    assert_eq!(frame.total_size(), HEADER_SIZE + PFP_SIZE + 3);
}

#[test]
fn test_frame_parse_with_pfp_and_sap() {
    let pfp = [0xCF, 0x14, 0x00, 0x00];
    let sap = [0u8; SAP_SIZE];
    let frame_bytes = FrameBuilder::new().with_pfp(pfp).with_sap(sap).with_payload(vec![4, 5, 6]).build();
    let frame = Frame::parse(&frame_bytes).unwrap();
    assert!(frame.pfp.is_some());
    assert!(frame.sap.is_some());
    assert_eq!(frame.sap.unwrap().len(), SAP_SIZE);
    assert_eq!(frame.payload, &[4, 5, 6]);
    assert_eq!(frame.total_size(), HEADER_SIZE + PFP_SIZE + SAP_SIZE + 3);
}

#[test]
fn test_frame_parse_no_pfp() {
    let frame_bytes = FrameBuilder::new().with_payload(vec![7, 8, 9]).build();
    let frame = Frame::parse(&frame_bytes).unwrap();
    assert!(frame.pfp.is_none());
    assert!(frame.sap.is_none());
    assert_eq!(frame.payload, &[7, 8, 9]);
}

#[test]
fn test_frame_extract_pfp() {
    let pfp = [0xCF, 0x14, 0b10_11_00_01, 0b0_1_0_00000];
    let frame_bytes = FrameBuilder::new().with_pfp(pfp).build();
    let frame = Frame::parse(&frame_bytes).unwrap();
    let extracted = frame.extract_pfp().unwrap();
    assert_eq!(extracted, &pfp);
}

#[test]
fn test_frame_extract_pfp_not_present() {
    let frame_bytes = FrameBuilder::new().build();
    let frame = Frame::parse(&frame_bytes).unwrap();
    let result = frame.extract_pfp();
    assert!(matches!(result, Err(FrameError::PfpNotPresent)));
}

#[test]
fn test_frame_parse_too_short() {
    let data = [0xCF, 0x14, 0x00];
    let result = Frame::parse(&data);
    assert!(matches!(result, Err(FrameError::TooShort { .. })));
}

#[test]
fn test_frame_parse_truncated_pfp() {
    let mut data = vec![0u8; HEADER_SIZE + 2];
    data[0..2].copy_from_slice(&CI144_MAGIC);
    data[6] = PRESENT_PFP;
    let result = Frame::parse(&data);
    assert!(matches!(result, Err(FrameError::TruncatedPfp { .. })));
}

#[test]
fn test_frame_is_data_frame() {
    let frame_bytes = FrameBuilder::new().with_frame_type(FRAME_TYPE_DATA).build();
    let frame = Frame::parse(&frame_bytes).unwrap();
    assert!(frame.is_data_frame());
    assert!(!frame.is_control_frame());
}

#[test]
fn test_frame_is_control_frame() {
    let frame_bytes = FrameBuilder::new().with_frame_type(FRAME_TYPE_CONTROL).build();
    let frame = Frame::parse(&frame_bytes).unwrap();
    assert!(frame.is_control_frame());
    assert!(!frame.is_data_frame());
}

#[test]
fn test_frame_builder_default() {
    let builder = FrameBuilder::default();
    let bytes = builder.build();
    assert_eq!(bytes.len(), HEADER_SIZE);
    let frame = Frame::parse(&bytes).unwrap();
    assert!(frame.header.is_valid_magic());
    assert_eq!(frame.header.frame_type, FRAME_TYPE_DATA);
    assert!(frame.pfp.is_none());
}

#[test]
fn test_frame_zero_copy_no_allocation() {
    let pfp = [0xCF, 0x14, 0x00, 0x00];
    let frame_bytes = FrameBuilder::new().with_pfp(pfp).with_payload(vec![1, 2, 3, 4, 5]).build();
    let frame = Frame::parse(&frame_bytes).unwrap();
    let base_addr = frame_bytes.as_ptr() as usize;
    let pfp_addr = frame.pfp.unwrap().as_ptr() as usize;
    let payload_addr = frame.payload.as_ptr() as usize;
    assert_eq!(pfp_addr, base_addr + HEADER_SIZE);
    assert_eq!(payload_addr, base_addr + HEADER_SIZE + PFP_SIZE);
}

#[test]
fn test_frame_large_payload() {
    let payload = vec![0xABu8; 1024];
    let frame_bytes = FrameBuilder::new().with_pfp([0xCF, 0x14, 0x00, 0x00]).with_payload(payload.clone()).build();
    let frame = Frame::parse(&frame_bytes).unwrap();
    assert_eq!(frame.payload.len(), 1024);
    assert_eq!(frame.payload, &payload);
    assert_eq!(frame.total_size(), HEADER_SIZE + PFP_SIZE + 1024);
}

#[test]
fn frame_truncated_sap_reports_offset() {
    let mut data = vec![0u8; HEADER_SIZE + PFP_SIZE + 10];
    data[0..2].copy_from_slice(&CI144_MAGIC);
    data[6] = PRESENT_PFP | PRESENT_SAP;
    let result = Frame::parse(&data);
    assert_eq!(result.err(), Some(FrameError::TruncatedSap { offset: 12, available: 10 }));
}

#[test]
fn builder_clone_and_sections_round_trip() {
    let base = FrameBuilder::new().with_seq(7).with_frame_type(FRAME_TYPE_CONTROL).with_payload(vec![1, 2, 3]);
    let with_pfp = base.clone().with_pfp([0xCF, 0x14, 0x02, 0x05]);
    let bytes0 = base.build();
    let bytes = with_pfp.build();
    let f0 = Frame::parse(&bytes0).unwrap();
    let f = Frame::parse(&bytes).unwrap();
    assert!(f.header.has_pfp());
    assert_eq!(f.pfp, Some(&[0xCF, 0x14, 0x02, 0x05][..]));
    assert_eq!(f.sap, f0.sap);
    assert_eq!(f.payload, f0.payload);
    assert_eq!(f.header.seq, 7);
    assert_eq!(f.header.frame_type, FRAME_TYPE_CONTROL);
    assert_eq!(f.total_size(), bytes.len());
    assert_eq!(f0.total_size(), bytes0.len());
}
