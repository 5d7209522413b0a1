use cxl_discovery::component::{
    CXLAbstractCapabilitiesHeader, CXLCapability, CXLCapabilityHeader, CXLCapabilityIterator,
    CXLHDMDecoderCapabilityRegister, CXLHDMDecoderGlobalControlRegister,
    GeneralCXLCapabilityHeader, HDMDecorderReg, HdmDecoderCapability, LinkReg,
    RCHDownstreamPortRCRB, RegisterImage, RegisterRegion,
};

/// Builds one capability-array entry word: id, version, byte offset.
fn entry(id: u16, version: u8, offset: u16) -> u32 {
    id as u32 | ((version as u32) << 16) | ((offset as u32) << 20)
}

/// Builds the array header word with the given entry count.
fn array_header(count: u8) -> u32 {
    1u32 | ((count as u32) << 24)
}

#[test]
fn header_words_decode() {
    let h = CXLCapabilityHeader { bits: array_header(3) | (0x2 << 16) | (0x1 << 20) };
    assert_eq!(h.cxl_capability_id(), 1);
    assert_eq!(h.cxl_capability_version(), 2);
    assert_eq!(h.cxl_cache_mem_version(), 1);
    assert_eq!(h.get_len(), 3);

    let g = GeneralCXLCapabilityHeader { bits: entry(5, 1, 0x100) };
    assert_eq!(g.get_type(), 5);
    assert_eq!(g.get_version(), 1);
    assert_eq!(g.get_pointer(), 0x100);

    let a = CXLAbstractCapabilitiesHeader { bits: entry(4, 2, 0x80) };
    assert_eq!(a.id(), 4);
    assert_eq!(a.version(), 2);
    assert_eq!(a.offset(), 0x80);
}

#[test]
fn iterator_visits_every_entry_and_stops() {
    let region = RegisterImage::new(vec![
        array_header(2),
        entry(0x4, 1, 0x40), // link capability
        entry(0x5, 2, 0x80), // HDM decoder capability
    ]);
    let mut it = CXLCapabilityIterator::new(&region).unwrap();
    assert_eq!(it.next(&region), Some(CXLCapability::Link(LinkReg { offset: 0x40 })));
    assert_eq!(
        it.next(&region),
        Some(CXLCapability::HDMDecorder(HDMDecorderReg { version: 2, offset: 0x80 }))
    );
    assert_eq!(it.next(&region), None);
    assert_eq!(it.next(&region), None);
}

#[test]
fn capability_parse_keeps_unknown_ids() {
    let header = CXLAbstractCapabilitiesHeader { bits: entry(0x42, 3, 0x10) };
    assert_eq!(CXLCapability::parse(&header), Some(CXLCapability::Unknown { id: 0x42, version: 3 }));
    let null = CXLAbstractCapabilitiesHeader { bits: entry(0, 0, 0) };
    assert_eq!(CXLCapability::parse(&null), Some(CXLCapability::Null));
}

#[test]
fn read_cxl_capabilities_collects_in_order() {
    let region = RegisterImage::new(vec![
        array_header(2),
        entry(0x1, 1, 0),
        entry(0x2, 1, 0x20),
    ]);
    let caps = cxl_discovery::component::read_cxl_capabilities(&region);
    assert_eq!(caps.len(), 2);
    assert_eq!(caps[0], CXLCapability::CXL);
    assert!(matches!(caps[1], CXLCapability::RAS(_)));
}

#[test]
fn decoder_count_encodings() {
    let counts: [(u32, u8); 5] = [(0x0, 1), (0x1, 2), (0x4, 8), (0xc, 32), (0xd, 0)];
    for (encoded, expected) in counts {
        let cap = HdmDecoderCapability { register: encoded, global_control: 0 };
        assert_eq!(cap.decoder_count(), expected);
    }
}

#[test]
fn decoder_entries_read_from_region() {
    // Capability block at word index 0: one decoder (encoding 0).
    let mut regs = vec![0u32; 4];
    regs[0] = 0x0; // decoder count encoding 0 -> one decoder
    regs[1] = 0x2; // global control: decoders enabled
    // Entry 0 at word index 4.
    regs.extend_from_slice(&[
        0xF000_0000, // base low
        0x1,         // base high
        0xE000_0000, // size low
        0x0,         // size high
        0x400,       // control
        0x3,         // target low
        0x0,         // target high
        0x0,
    ]);
    let region = RegisterImage::new(regs);
    let cap = HdmDecoderCapability::read_from(&region, 0);
    assert_eq!(cap.register, 0);
    assert_eq!(cap.global_control, 2);
    let ctrl = CXLHDMDecoderGlobalControlRegister { bits: cap.global_control };
    assert!(ctrl.hdm_decoder_enable());
    assert!(!ctrl.cxl_capability_id());
    let decoders = cap.decoders(&region, 0);
    assert_eq!(decoders.len(), 1);
    let d = decoders[0];
    assert_eq!(d.base(), 0x1_F000_0000);
    assert_eq!(d.size(), 0xE000_0000);
    assert_eq!(d.control, 0x400);
    assert_eq!(d.target_low, 3);
}

#[test]
fn decoder_register_bit_fields() {
    let reg = CXLHDMDecoderCapabilityRegister { bits: 0x0000_0053 };
    assert_eq!(reg.decoder_count(), 0x3);
    assert_eq!(reg.target_count(), 0x5);
}

#[test]
fn hdm_entry_masks_low_halves() {
    // Bits below the 256 MiB boundary of the low halves carry no address.
    let region = RegisterImage::new(vec![
        0x0,
        0x0,
        0x0,
        0x0,
        0xFFFF_FFFF, // base low: only the top four bits survive
        0x2,
        0x1234_5678, // size low
        0x0,
        0x0,
        0x0,
        0x0,
        0x0,
    ]);
    let cap = HdmDecoderCapability::read_from(&region, 0);
    let decoders = cap.decoders(&region, 0);
    assert_eq!(decoders[0].base(), 0x2_F000_0000);
    assert_eq!(decoders[0].size(), 0x1000_0000);
}

#[test]
fn downstream_port_registers_split() {
    let r = RCHDownstreamPortRCRB::from_regs(
        0x0ABC_D123, // null cap 0xD123, version 3? low nibble of 16..20
        0x5678_9ABC, // status 0x5678, command 0x9ABC
        0x11223344,  // class code 0x112233, revision 0x44
        0x0077_0055, // header type 0x77, cache line size 0x55
        0xAAAA_BBBB, // bar0 low
        0x0000_0001, // bar0 high
    );
    assert_eq!(r.null_extended_capability, 0xD123);
    assert_eq!(r.version, 0xC);
    assert_eq!(r.next_capability_offset, 0x0AB);
    assert_eq!(r.command, 0x9ABC);
    assert_eq!(r.status, 0x5678);
    assert_eq!(r.revision_id, 0x44);
    assert_eq!(r.class_code, 0x112233);
    assert_eq!(r.cache_line_size, 0x55);
    assert_eq!(r.header_type, 0x77);
    assert_eq!(r.bar0, 0x1_AAAA_BBBB);
}

#[test]
fn downstream_port_reads_from_region() {
    let regs = vec![0x0001_0000u32, 0, 0, 0, 0xDEAD_0000, 0x2];
    let region = RegisterImage::new(regs);
    let r = RCHDownstreamPortRCRB::from_base(&region, 0);
    assert_eq!(r.bar0, 0x2_DEAD_0000);
    // Reads past the image answer all-ones, like a faulted MMIO read.
    assert_eq!(region.read_reg(100), 0xFFFF_FFFF);
}
