use cxl_discovery::dvsec::{
    read_capabilities, read_extended_capabilities, link_speed, print_capabilities,
    print_dvsec_capability, setup_memory_range, Capability, CxlDvsec, CxlDvsecForDevice,
    CxlDvsecForPort, ExtendedCapability, PciCapabilityAddress, RegisterBlock, RegisterLocator,
};
use cxl_discovery::pci::{ConfigAccess, ConfigImage, PciAddress};

fn addr() -> PciAddress {
    PciAddress::new(0x8000, 0, 1, 0)
}

/// One legacy capability entry word: id in the low byte, next pointer in
/// the second byte.
fn cap_entry(id: u8, next: u8) -> u32 {
    id as u32 | ((next as u32) << 8)
}

/// One extended capability entry word: 16-bit id, version, 12-bit next.
fn ext_entry(id: u16, version: u8, next: u16) -> u32 {
    id as u32 | ((version as u32) << 16) | ((next as u32) << 20)
}

#[test]
fn capability_chain_visits_both_entries_and_stops() {
    let mut img = ConfigImage::new();
    let a = addr();
    img.set(a, 0x34, 0x50); // capabilities pointer
    img.set(a, 0x50, cap_entry(0x10, 0x40));
    img.set(a, 0x40, cap_entry(0x01, 0));
    let caps = read_capabilities(&img, a);
    assert_eq!(
        caps,
        vec![
            Capability { id: 0x10, offset: 0x50 },
            Capability { id: 0x01, offset: 0x40 },
        ]
    );
}

#[test]
fn capability_chain_of_absent_pointer_is_empty() {
    let mut img = ConfigImage::new();
    let a = addr();
    img.set(a, 0x34, 0);
    assert!(read_capabilities(&img, a).is_empty());
}

#[test]
fn capability_chain_cycle_is_cut_off() {
    let mut img = ConfigImage::new();
    let a = addr();
    img.set(a, 0x34, 0x40);
    img.set(a, 0x40, cap_entry(0x10, 0x40)); // points back at itself
    let caps = read_capabilities(&img, a);
    assert_eq!(caps.len(), 1024); // the fuel bound, not an endless loop
}

#[test]
fn extended_chain_decodes_entries() {
    let mut img = ConfigImage::new();
    let a = addr();
    img.set(a, 0x100, ext_entry(0x23, 1, 0x140));
    img.set(a, 0x140, ext_entry(0x01, 2, 0));
    let caps = read_extended_capabilities(&img, a);
    assert_eq!(
        caps,
        vec![
            ExtendedCapability { id: 0x23, version: 1, offset: 0x100 },
            ExtendedCapability { id: 0x01, version: 2, offset: 0x140 },
        ]
    );
}

fn locator_at(img: &mut ConfigImage, a: PciAddress, off: u16) {
    img.set(a, off + 8, 0x8); // DVSEC id: register locator
    // Block 1: BAR 2, component registers (block id 1), offset 0x10000.
    img.set(a, off + 0x0C, 0x2 | (0x1 << 8) | 0x0001_0000);
    img.set(a, off + 0x10, 0x0);
    // Block 2 empty.
    img.set(a, off + 0x14, 0x0);
    img.set(a, off + 0x18, 0x0);
    // Block 3: BAR 0, CPMU registers (block id 3), offset 0x2_0000_0000.
    img.set(a, off + 0x1C, 0x0 | (0x3 << 8));
    img.set(a, off + 0x20, 0x2);
}

#[test]
fn register_locator_parses_and_skips_empty_blocks() {
    let mut img = ConfigImage::new();
    let a = addr();
    locator_at(&mut img, a, 0x100);
    let parsed = CxlDvsec::parse(PciCapabilityAddress { address: a, offset: 0x100 }, &img);
    match parsed {
        Some(CxlDvsec::RegisterLocator(v)) => {
            assert_eq!(v.register_block_1_offset(), 0x10000);
            assert_eq!(v.register_block_3_offset(), 0x2_0000_0000);
            assert_eq!(
                v.blocks(),
                vec![
                    RegisterBlock { bir: 2, block_id: 1, offset: 0x10000 },
                    RegisterBlock { bir: 0, block_id: 3, offset: 0x2_0000_0000 },
                ]
            );
        },
        other => panic!("expected a register locator, found {:?}", other),
    }
}

#[test]
fn dvsec_id_comes_from_low_sixteen_bits() {
    let mut img = ConfigImage::new();
    let a = addr();
    // High bits of the header word must not leak into the id.
    img.set(a, 0x100 + 8, 0xABCD_0009);
    let parsed = CxlDvsec::parse(PciCapabilityAddress { address: a, offset: 0x100 }, &img);
    assert_eq!(parsed, Some(CxlDvsec::MLD));
}

#[test]
fn device_dvsec_ranges_decode() {
    let mut img = ConfigImage::new();
    let a = addr();
    let off = 0x100u16;
    img.set(a, off + 8, 0x0); // DVSEC id: device
    img.set(a, off + 0x18, 0x0); // range 1 size high
    img.set(a, off + 0x1C, 0xF000_0002); // range 1 size low, memory active
    img.set(a, off + 0x20, 0x1); // range 1 base high
    img.set(a, off + 0x24, 0xE000_0000); // range 1 base low
    img.set(a, off + 0x28, 0x0);
    img.set(a, off + 0x2C, 0x0);
    img.set(a, off + 0x30, 0x0);
    img.set(a, off + 0x34, 0x0);
    let parsed = CxlDvsec::parse(PciCapabilityAddress { address: a, offset: off }, &img);
    match parsed {
        Some(CxlDvsec::Device(d)) => {
            let r1 = d.range_1();
            assert_eq!(r1.base, 0x1_E000_0000);
            assert_eq!(r1.size, 0xF000_0000);
            assert!(d.range_1_memory_active());
            let r2 = d.range_2();
            assert_eq!(r2.base, 0);
            assert_eq!(r2.size, 0);
        },
        other => panic!("expected a device DVSEC, found {:?}", other),
    }
}

fn device_with(size_low: u32, base_high: u32, base_low: u32) -> CxlDvsecForDevice {
    CxlDvsecForDevice {
        range_1_size_high: 0,
        range_1_size_low: size_low,
        range_1_base_high: base_high,
        range_1_base_low: base_low,
        range_2_size_high: 0,
        range_2_size_low: 0,
        range_2_base_high: 0,
        range_2_base_low: 0,
    }
}

#[test]
fn setup_memory_range_claims_only_active_unset_ranges() {
    // Memory active and base still zero: the range needs a base.
    let needs = device_with(0x2, 0, 0);
    assert_eq!(setup_memory_range(&needs, 0x40_0000_0000), Some((0, 0x40)));
    // Memory active but base already programmed: nothing to do.
    let set = device_with(0x2, 0x1, 0);
    assert_eq!(setup_memory_range(&set, 0x40_0000_0000), None);
    // Memory not active: nothing to do.
    let inactive = device_with(0x0, 0, 0);
    assert_eq!(setup_memory_range(&inactive, 0x40_0000_0000), None);
}

#[test]
fn port_dvsec_rcrb_fields() {
    let port = CxlDvsecForPort { cxl_rcrb_base_low: 0xDEAD_B001, cxl_rcrb_base_high: 0x1 };
    assert!(port.is_cxl_rcrb_enabled());
    assert_eq!(port.get_cxl_rcrb_base(), 0x1_DEAD_B000);
    let disabled = CxlDvsecForPort { cxl_rcrb_base_low: 0xDEAD_B000, cxl_rcrb_base_high: 0x1 };
    assert!(!disabled.is_cxl_rcrb_enabled());
}

#[test]
fn link_speed_reads_status_register() {
    let mut img = ConfigImage::new();
    let a = addr();
    img.set(a, 0x50 + 0x10, 0x0003_0000); // current link speed 3
    assert_eq!(link_speed(&img, a, 0x50), 3);
}

#[test]
fn dvsec_report_line_counts() {
    let device = CxlDvsec::Device(device_with(0, 0, 0));
    assert_eq!(print_dvsec_capability(&device).len(), 2);
    let port = CxlDvsec::Port(CxlDvsecForPort { cxl_rcrb_base_low: 0, cxl_rcrb_base_high: 0 });
    assert_eq!(print_dvsec_capability(&port).len(), 1);
    let locator = CxlDvsec::RegisterLocator(RegisterLocator {
        register_block_1_low: 0x1 << 8,
        register_block_1_high: 0,
        register_block_2_low: 0,
        register_block_2_high: 0,
        register_block_3_low: 0,
        register_block_3_high: 0,
    });
    assert_eq!(print_dvsec_capability(&locator).len(), 2);
    assert_eq!(print_dvsec_capability(&CxlDvsec::Unknown).len(), 1);
    assert_eq!(CxlDvsec::Unknown.kind_name(), "Unknown");
    assert_eq!(device.kind_name(), "Device");
}

#[test]
fn capability_report_has_one_line_per_entry() {
    let mut img = ConfigImage::new();
    let a = addr();
    img.set(a, 0x34, 0x50);
    img.set(a, 0x50, cap_entry(0x10, 0x40));
    img.set(a, 0x50 + 0x10, 0x0002_0000);
    img.set(a, 0x40, cap_entry(0x01, 0));
    img.set(a, 0x100, ext_entry(0x23, 1, 0x140));
    locator_at(&mut img, a, 0x100);
    img.set(a, 0x100, ext_entry(0x23, 1, 0x140)); // locator_at overwrote nothing at 0x100
    img.set(a, 0x140, ext_entry(0x01, 2, 0));
    let lines = print_capabilities(&img, a);
    assert_eq!(lines.len(), 4);
}
