use cxl_discovery::pci::{
    ConfigAccess, ConfigImage, ConfigurationSpace, PciAddress, PciBus, PciDevice,
};

fn addr(bus: u8, device: u8, function: u8) -> PciAddress {
    PciAddress::new(0x8000, bus, device, function)
}

/// Places a present function with the given ids and header-type byte.
fn place_function(img: &mut ConfigImage, a: PciAddress, vendor: u16, device: u16, header: u8) {
    img.set(a, 0, (device as u32) << 16 | vendor as u32);
    img.set(a, 0x0C, (header as u32) << 16);
}

/// Places a bridge whose secondary bus is `secondary`.
fn place_bridge(img: &mut ConfigImage, a: PciAddress, secondary: u8) {
    place_function(img, a, 0x8086, 0x1234, 0x01);
    img.set(a, 0x18, (secondary as u32) << 8);
}

#[test]
fn physical_address_formula() {
    let ecam_base = 0xB000_0000u64;
    let space = ConfigurationSpace::new(ecam_base);
    let a = addr(1, 2, 3);
    assert_eq!(
        space.physical_address_with_offset(a, 0x10),
        ecam_base + (1 << 20) + (2 << 15) + (3 << 12) + 0x10
    );
}

#[test]
fn empty_config_space_reads_all_ones() {
    let img = ConfigImage::new();
    assert_eq!(img.read(addr(0, 0, 0), 0), 0xFFFF_FFFF);
}

#[test]
fn config_image_set_overrides() {
    let mut img = ConfigImage::new();
    let a = addr(0, 3, 0);
    img.set(a, 8, 17);
    img.set(a, 8, 99);
    assert_eq!(img.read(a, 8), 99);
    assert_eq!(img.read(a, 12), 0xFFFF_FFFF);
}

#[test]
fn scan_finds_endpoint_behind_bridge() {
    let mut img = ConfigImage::new();
    place_bridge(&mut img, addr(0, 0, 0), 5);
    place_function(&mut img, addr(5, 3, 0), 0x8086, 0x0D93, 0x00);
    let bus = PciBus::scan(&img);
    assert_eq!(
        bus.devices,
        vec![PciDevice { address: addr(5, 3, 0), vendor_id: 0x8086, device_id: 0x0D93 }]
    );
}

#[test]
fn scan_records_multi_function_device_up_to_first_gap() {
    let mut img = ConfigImage::new();
    // Function 0 carries the multi-function bit (0x80).
    place_function(&mut img, addr(0, 4, 0), 0x1AF4, 0x1000, 0x80);
    place_function(&mut img, addr(0, 4, 1), 0x1AF4, 0x1001, 0x00);
    // Function 2 is absent: the scan treats the gap as the end of the list.
    place_function(&mut img, addr(0, 4, 3), 0x1AF4, 0x1003, 0x00);
    let bus = PciBus::scan(&img);
    assert_eq!(
        bus.devices,
        vec![
            PciDevice { address: addr(0, 4, 0), vendor_id: 0x1AF4, device_id: 0x1000 },
            PciDevice { address: addr(0, 4, 1), vendor_id: 0x1AF4, device_id: 0x1001 },
        ]
    );
}

#[test]
fn scan_by_nr_starts_on_that_bus() {
    let mut img = ConfigImage::new();
    place_function(&mut img, addr(7, 0, 0), 0xABCD, 0x0001, 0x00);
    let bus = PciBus::scan_by_nr(7, &img);
    assert_eq!(bus.devices.len(), 1);
    assert_eq!(bus.devices[0].address, addr(7, 0, 0));
}

#[test]
fn scanned_addresses_are_well_formed() {
    let mut img = ConfigImage::new();
    place_bridge(&mut img, addr(0, 0, 0), 9);
    place_function(&mut img, addr(0, 31, 0), 0x8086, 0x0001, 0x00);
    place_function(&mut img, addr(9, 1, 0), 0x8086, 0x0002, 0x80);
    place_function(&mut img, addr(9, 1, 1), 0x8086, 0x0003, 0x00);
    let bus = PciBus::scan(&img);
    assert_eq!(bus.devices.len(), 3);
    for d in &bus.devices {
        assert!(d.address.device < 32);
        assert!(d.address.function < 8);
    }
}

#[test]
fn search_by_ids_on_empty_list_is_empty() {
    let img = ConfigImage::new();
    let bus = PciBus { devices: Vec::new() };
    assert!(bus.search_by_ids(&img, 0x8086, 0x0D93).is_empty());
}

#[test]
fn search_by_ids_finds_matching_devices() {
    let mut img = ConfigImage::new();
    place_function(&mut img, addr(0, 1, 0), 0x8086, 0x0D93, 0x00);
    place_function(&mut img, addr(0, 2, 0), 0x1AF4, 0x1000, 0x00);
    let bus = PciBus::scan(&img);
    assert_eq!(bus.devices.len(), 2);
    let found = bus.search_by_ids(&img, 0x8086, 0x0D93);
    assert_eq!(found.len(), 1);
    assert_eq!(found[0].address, addr(0, 1, 0));
    assert!(bus.search_by_ids(&img, 0x8086, 0xFFFF).is_empty());
}

#[test]
fn search_by_class_reads_live_class_codes() {
    let mut img = ConfigImage::new();
    let a = addr(0, 1, 0);
    place_function(&mut img, a, 0x8086, 0x0D93, 0x00);
    // revision 2, interface 0, sub class 0x02, base class 0x05
    img.set(a, 0x08, 0x0502_0002);
    let bus = PciBus::scan(&img);
    let found = bus.search_by_class(&img, 0x05, 0x02);
    assert_eq!(found.len(), 1);
    assert!(bus.search_by_class(&img, 0x06, 0x02).is_empty());
}

#[test]
fn dump_functions_read_registers() {
    let mut img = ConfigImage::new();
    let a = addr(0, 1, 0);
    place_function(&mut img, a, 0x8086, 0x0D93, 0x00);
    img.set(a, 0x04, 0x0010_0006); // status 0x0010, command 0x0006
    img.set(a, 0x2C, 0x00AA_00BB); // subsystem 0x00AA, subsystem vendor 0x00BB
    let bus = PciBus::scan(&img);
    assert_eq!(bus.dump_devices(&img), vec![(0x00AA, 0x00BB)]);
    assert_eq!(bus.dump_devices_status_registers(&img), vec![0x0010]);
    assert_eq!(bus.dump_devices_command_registers(&img), vec![0x0006]);
}
