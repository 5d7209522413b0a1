use cxl_discovery::cedt::{
    CEDT, CEDTStructureHeader, CEDTStructureType, CXLFixedMemoryWindowStructure,
    CXLHostBridgeStructure,
};
use cxl_discovery::cxl::{Cedt, CedtStructureType};
use cxl_discovery::tables::SDT_HEADER_LEN;
use cxl_discovery::{CxlError, PhysFrameRange};

fn chbs(uid: u32, cxl_version: u32, base: u64, length: u64) -> Vec<u8> {
    let mut v = vec![0u8, 0, 0x20, 0];
    v.extend_from_slice(&uid.to_le_bytes());
    v.extend_from_slice(&cxl_version.to_le_bytes());
    v.extend_from_slice(&0u32.to_le_bytes());
    v.extend_from_slice(&base.to_le_bytes());
    v.extend_from_slice(&length.to_le_bytes());
    v
}

fn cfmws(base_hpa: u64, window_size: u64, eniw: u8, targets: &[u32]) -> Vec<u8> {
    let len = (0x24 + 4 * targets.len()) as u16;
    let mut v = vec![1u8, 0, (len & 0xFF) as u8, (len >> 8) as u8];
    v.extend_from_slice(&0u32.to_le_bytes());
    v.extend_from_slice(&base_hpa.to_le_bytes());
    v.extend_from_slice(&window_size.to_le_bytes());
    v.push(eniw);
    v.push(0); // interleave arithmetic
    v.extend_from_slice(&0u16.to_le_bytes());
    v.extend_from_slice(&256u32.to_le_bytes()); // granularity
    v.extend_from_slice(&3u16.to_le_bytes()); // restrictions
    v.extend_from_slice(&9u16.to_le_bytes()); // qtg id
    for t in targets {
        v.extend_from_slice(&t.to_le_bytes());
    }
    v
}

fn table(records: &[Vec<u8>]) -> Vec<u8> {
    let mut t = vec![0u8; SDT_HEADER_LEN];
    for r in records {
        t.extend_from_slice(r);
    }
    let len = t.len() as u32;
    t[4..8].copy_from_slice(&len.to_le_bytes());
    t
}

#[test]
fn cedt_new_checks_declared_length() {
    let mut t = table(&[]);
    t[4] = 35; // declared length no longer matches the bytes held
    assert!(CEDT::new(t).is_err());
    assert!(CEDT::new(vec![0u8; 10]).is_err());
    assert!(CEDT::new(table(&[])).is_ok());
}

#[test]
fn cedt_structures_keep_unknown_tags() {
    let unknown = vec![0x77u8, 0, 6, 0, 0xAA, 0xBB];
    let t = table(&[chbs(1, 2, 0x1000, 0x2000), unknown]);
    let cedt = CEDT::new(t).unwrap();
    let headers = cedt.get_structures().unwrap();
    assert_eq!(headers.len(), 2);
    assert_eq!(headers[0], CEDTStructureHeader { typ: 0, record_length: 0x20 });
    assert_eq!(headers[1], CEDTStructureHeader { typ: 0x77, record_length: 6 });
}

#[test]
fn host_bridge_fields_decode() {
    let t = table(&[
        cfmws(0x1_0000_0000, 0x1000_0000, 0, &[7]),
        chbs(5, 0x10001, 0xE000_0000, 0x10000),
    ]);
    let cedt = CEDT::new(t).unwrap();
    let bridges = cedt.get_host_bridge_structures().unwrap();
    assert_eq!(bridges.len(), 1);
    let hb = bridges[0];
    assert_eq!(hb.header.typ, 0);
    assert_eq!(hb.header.record_length, 0x20);
    assert_eq!(hb.uid, 5);
    assert_eq!(hb.cxl_version, 0x10001);
    assert_eq!(hb.base, 0xE000_0000);
    assert_eq!(hb.length, 0x10000);
}

#[test]
fn memory_window_fields_and_targets_decode() {
    let t = table(&[chbs(1, 2, 0x1000, 0x2000), cfmws(0x2_0000_0000, 0x2000_0000, 1, &[4, 9])]);
    let cedt = CEDT::new(t).unwrap();
    let windows = cedt.get_mem_win_structures().unwrap();
    assert_eq!(windows.len(), 1);
    let w = &windows[0];
    assert_eq!(w.header.typ, 1);
    assert_eq!(w.base_hpa, 0x2_0000_0000);
    assert_eq!(w.window_size, 0x2000_0000);
    assert_eq!(w.encoded_nr_of_interleave_ways, 1);
    assert_eq!(w.host_bridge_interleave_granularity, 256);
    assert_eq!(w.window_restrictions, 3);
    assert_eq!(w.qtg_id, 9);
    assert_eq!(w.interleave_targets(), &vec![4u32, 9u32]);
}

#[test]
fn short_host_bridge_record_is_malformed() {
    let short = vec![0u8, 0, 8, 0, 1, 2, 3, 4]; // tag 0 but only 8 bytes long
    let t = table(&[short]);
    let cedt = CEDT::new(t).unwrap();
    assert_eq!(cedt.get_host_bridge_structures(), Err(CxlError::MalformedRecord));
}

fn window_with(eniw: u8) -> CXLFixedMemoryWindowStructure {
    CXLFixedMemoryWindowStructure {
        header: CEDTStructureHeader { typ: 1, record_length: 0x24 },
        base_hpa: 0,
        window_size: 0,
        encoded_nr_of_interleave_ways: eniw,
        interleave_arithmetic: 0,
        host_bridge_interleave_granularity: 0,
        window_restrictions: 0,
        qtg_id: 0,
        interleave_target_list: vec![],
    }
}

#[test]
fn niw_round_trips_known_encodings() {
    assert_eq!(window_with(0).niw(), 1);
    assert_eq!(window_with(3).niw(), 8);
    assert_eq!(window_with(8).niw(), 3);
    assert_eq!(window_with(9).niw(), 6);
}

#[test]
fn memory_window_validity_checks_length_equation() {
    let mut w = window_with(0);
    w.header.record_length = 0x24 + 4; // one interleave way
    assert!(w.is_valid());
    w.header.record_length = 0x24; // no room for the one target
    assert!(!w.is_valid());
    w.header.record_length = 0x24 + 4;
    w.base_hpa = 0x81; // fails the alignment test
    assert!(!w.is_valid());
    w.base_hpa = 0;
    w.encoded_nr_of_interleave_ways = 64; // encoding out of range
    assert!(!w.is_valid());
}

#[test]
fn host_bridge_validity_is_exact_length() {
    let mut hb = CXLHostBridgeStructure {
        header: CEDTStructureHeader { typ: 0, record_length: 0x20 },
        uid: 0,
        cxl_version: 0,
        base: 0,
        length: 0,
    };
    assert!(hb.is_valid());
    hb.header.record_length = 0x24;
    assert!(!hb.is_valid());
}

#[test]
fn frame_range_covers_whole_frames() {
    let hb = CXLHostBridgeStructure {
        header: CEDTStructureHeader { typ: 0, record_length: 0x20 },
        uid: 0,
        cxl_version: 0,
        base: 0x10000,
        length: 0x2800, // two whole frames and a tail
    };
    assert_eq!(
        hb.as_phys_frame_range(),
        Ok(PhysFrameRange { start: 0x10000, end: 0x10000 + 0x2000 })
    );
}

#[test]
fn unaligned_base_is_rejected() {
    let hb = CXLHostBridgeStructure {
        header: CEDTStructureHeader { typ: 0, record_length: 0x20 },
        uid: 0,
        cxl_version: 0,
        base: 0x10010,
        length: 0x1000,
    };
    assert_eq!(hb.as_phys_frame_range(), Err(CxlError::UnalignedAddress));
}

#[test]
fn structure_type_tags_round_trip() {
    let kinds = [
        CEDTStructureType::CXLHostBridgeStructure,
        CEDTStructureType::CXLFixedMemoryWindowStructure,
        CEDTStructureType::CXLXORInterleaveMathStructure,
        CEDTStructureType::RCECDownstreamPortAssociationStructure,
        CEDTStructureType::CXLSystemDescriptionStructure,
    ];
    for k in kinds {
        assert_eq!(CEDTStructureType::from_tag(k.tag()), Some(k));
    }
    assert_eq!(CEDTStructureType::from_tag(5), None);
}

#[test]
fn classification_walks_and_validates() {
    let t = table(&[chbs(5, 2, 0x1000, 0x2000), cfmws(0x1000_0000, 0x1000_0000, 0, &[7])]);
    let cedt = Cedt::new(t).unwrap();
    let structures = cedt.get_structure_headers().unwrap();
    assert_eq!(structures.len(), 2);
    match &structures[0] {
        CedtStructureType::CHBS(s) => {
            assert_eq!(s.uid, 5);
            assert!(structures[0].is_valid());
            assert_eq!(structures[0].record_length(), 0x20);
        },
        other => panic!("expected a host bridge, found {:?}", other),
    }
    match &structures[1] {
        CedtStructureType::CFMWS(w) => {
            assert_eq!(w.interleave_target_list, vec![7]);
            assert!(structures[1].is_valid());
            assert_eq!(structures[1].record_length(), 0x28);
        },
        other => panic!("expected a memory window, found {:?}", other),
    }
}

#[test]
fn classification_rejects_invalid_memory_window() {
    // Declared length leaves room for a target that the length equation
    // does not allow for this encoding.
    let bad = cfmws(0x1000_0000, 0x1000_0000, 1, &[7]); // eniw 1 needs 2 targets
    let t = table(&[bad]);
    let cedt = Cedt::new(t).unwrap();
    assert_eq!(cedt.get_structure_headers(), Err(CxlError::MalformedRecord));
}
