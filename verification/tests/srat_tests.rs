use cxl_discovery::srat::{
    DeviceHandleAcpi, DeviceHandlePci, MemoryAffinityStructure, SratStructure,
    SratStructureHeader, init, SRAT,
};
use cxl_discovery::tables::SDT_HEADER_LEN;
use cxl_discovery::{CxlError, PhysFrameRange};

fn memory_affinity(
    domain: u32,
    base_low: u32,
    base_high: u32,
    len_low: u32,
    len_high: u32,
    flags: u32,
) -> Vec<u8> {
    let mut v = vec![1u8, 0, 42, 0];
    v.extend_from_slice(&domain.to_le_bytes());
    v.extend_from_slice(&0u16.to_le_bytes());
    v.extend_from_slice(&base_low.to_le_bytes());
    v.extend_from_slice(&base_high.to_le_bytes());
    v.extend_from_slice(&len_low.to_le_bytes());
    v.extend_from_slice(&len_high.to_le_bytes());
    v.extend_from_slice(&0u32.to_le_bytes());
    v.extend_from_slice(&flags.to_le_bytes());
    v.extend_from_slice(&0u64.to_le_bytes());
    v
}

fn gicc(domain: u32, uid: u32, flags: u32, clock: u32) -> Vec<u8> {
    let mut v = vec![3u8, 0, 20, 0];
    v.extend_from_slice(&domain.to_le_bytes());
    v.extend_from_slice(&uid.to_le_bytes());
    v.extend_from_slice(&flags.to_le_bytes());
    v.extend_from_slice(&clock.to_le_bytes());
    v
}

fn table(records: &[Vec<u8>]) -> Vec<u8> {
    let mut t = vec![0u8; SDT_HEADER_LEN];
    for r in records {
        t.extend_from_slice(r);
    }
    let len = t.len() as u32;
    t[4..8].copy_from_slice(&len.to_le_bytes());
    t
}

#[test]
fn memory_structures_decode() {
    let t = table(&[
        gicc(1, 2, 3, 4),
        memory_affinity(7, 0x0, 0x1, 0x8000_0000, 0x0, 5),
    ]);
    let srat = SRAT::new(t).unwrap();
    let mems = srat.get_memory_structures().unwrap();
    assert_eq!(mems.len(), 1);
    let m = mems[0];
    assert_eq!(m.proximility_domain, 7);
    assert_eq!(m.base_addr_low, 0);
    assert_eq!(m.base_addr_high, 1);
    assert_eq!(m.length_low, 0x8000_0000);
    assert_eq!(m.length_high, 0);
    assert_eq!(m.flags, 5);
}

#[test]
fn split_halves_reconstruct() {
    let m = MemoryAffinityStructure {
        header: SratStructureHeader { typ: 1, typ_2: 0, length: 42 },
        proximility_domain: 0,
        base_addr_low: 0x0,
        base_addr_high: 0x1,
        length_low: 0x2000,
        length_high: 0x0,
        flags: 0,
    };
    assert_eq!(m.base_addr(), 0x1_0000_0000);
    assert_eq!(m.length(), 0x2000);
    assert_eq!(
        m.as_phys_frame_range(),
        Ok(PhysFrameRange { start: 0x1_0000_0000, end: 0x1_0000_0000 + 0x2000 })
    );
}

#[test]
fn unaligned_memory_affinity_base_is_rejected() {
    let m = MemoryAffinityStructure {
        header: SratStructureHeader { typ: 1, typ_2: 0, length: 42 },
        proximility_domain: 0,
        base_addr_low: 0x10,
        base_addr_high: 0,
        length_low: 0x1000,
        length_high: 0,
        flags: 0,
    };
    assert_eq!(m.as_phys_frame_range(), Err(CxlError::UnalignedAddress));
}

#[test]
fn init_classifies_every_record() {
    let unknown = vec![0x42u8, 0, 5, 0, 0xCC];
    let t = table(&[gicc(1, 2, 3, 4), memory_affinity(7, 0, 0, 0x1000, 0, 1), unknown]);
    let srat = SRAT::new(t).unwrap();
    let structures = init(&srat).unwrap();
    assert_eq!(structures.len(), 3);
    match structures[0] {
        SratStructure::Gicc(g) => {
            assert_eq!(g.proximity_domain, 1);
            assert_eq!(g.acpi_processor_uid, 2);
            assert_eq!(g.flags, 3);
            assert_eq!(g.clock_domain, 4);
        },
        other => panic!("expected a GICC record, found {:?}", other),
    }
    match structures[1] {
        SratStructure::Memory(m) => assert_eq!(m.proximility_domain, 7),
        other => panic!("expected a memory record, found {:?}", other),
    }
    match structures[2] {
        SratStructure::Unknown(h) => {
            assert_eq!(h.typ, 0x42);
            assert_eq!(h.length, 5);
        },
        other => panic!("expected an unknown record, found {:?}", other),
    }
}

#[test]
fn init_rejects_short_known_record() {
    let short_memory = vec![1u8, 0, 8, 0, 0, 0, 0, 0]; // tag 1 but 8 bytes
    let t = table(&[short_memory]);
    let srat = SRAT::new(t).unwrap();
    assert_eq!(init(&srat), Err(CxlError::MalformedRecord));
}

#[test]
fn srat_structures_report_headers() {
    let t = table(&[gicc(1, 2, 3, 4)]);
    let srat = SRAT::new(t).unwrap();
    let headers = srat.get_structures().unwrap();
    assert_eq!(headers, vec![SratStructureHeader { typ: 3, typ_2: 0, length: 20 }]);
}

#[test]
fn device_handles_split() {
    let handle: u128 = 0x0000_0000_CAFE_F00D_1122_3344_5566_7788;
    let acpi = DeviceHandleAcpi::decode(handle);
    assert_eq!(acpi.acpi_hid, 0x1122_3344_5566_7788);
    assert_eq!(acpi.acpi_uid, 0xCAFE_F00D);
    let pci = DeviceHandlePci::decode(handle);
    assert_eq!(pci.pci_segment, 0x7788);
    assert_eq!(pci.pci_bdf_nr, 0x5566);
}
