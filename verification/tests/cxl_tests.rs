use cxl_discovery::arbmux::{arb_mux, vlsm, vlsm_state};
use cxl_discovery::cedt::CEDT;
use cxl_discovery::cxl::{
    format_hex_to_buf, init, print_bus_devices, print_bus_devices_command,
    print_bus_devices_status,
};
use cxl_discovery::pci::{ConfigImage, PciAddress};
use cxl_discovery::tables::SDT_HEADER_LEN;

fn chbs(uid: u32, base: u64, length: u64) -> Vec<u8> {
    let mut v = vec![0u8, 0, 0x20, 0];
    v.extend_from_slice(&uid.to_le_bytes());
    v.extend_from_slice(&1u32.to_le_bytes());
    v.extend_from_slice(&0u32.to_le_bytes());
    v.extend_from_slice(&base.to_le_bytes());
    v.extend_from_slice(&length.to_le_bytes());
    v
}

fn table(records: &[Vec<u8>]) -> Vec<u8> {
    let mut t = vec![0u8; SDT_HEADER_LEN];
    for r in records {
        t.extend_from_slice(r);
    }
    let len = t.len() as u32;
    t[4..8].copy_from_slice(&len.to_le_bytes());
    t
}

fn place_function(img: &mut ConfigImage, a: PciAddress, vendor: u16, device: u16, header: u8) {
    img.set(a, 0, (device as u32) << 16 | vendor as u32);
    img.set(a, 0x0C, (header as u32) << 16);
}

#[test]
fn init_scans_one_bus_per_host_bridge() {
    let cedt = CEDT::new(table(&[chbs(5, 0xE000_0000, 0x10000)])).unwrap();
    let mut img = ConfigImage::new();
    let dev = PciAddress::new(0x8000, 5, 3, 0);
    place_function(&mut img, dev, 0x8086, 0x0D93, 0x00);
    let buses = init(&cedt, &img).unwrap();
    assert_eq!(buses.len(), 1);
    assert_eq!(buses[0].devices.len(), 1);
    assert_eq!(buses[0].devices[0].address, dev);
    assert_eq!(buses[0].devices[0].vendor_id, 0x8086);
}

#[test]
fn device_reports_have_one_line_per_device() {
    let mut img = ConfigImage::new();
    place_function(&mut img, PciAddress::new(0x8000, 0, 1, 0), 0x8086, 0x0D93, 0x00);
    place_function(&mut img, PciAddress::new(0x8000, 0, 2, 0), 0x1AF4, 0x1000, 0x00);
    let bus = cxl_discovery::pci::PciBus::scan(&img);
    assert_eq!(print_bus_devices(&bus, &img).len(), 2);
    assert_eq!(print_bus_devices_status(&bus, &img).len(), 2);
    assert_eq!(print_bus_devices_command(&bus, &img).len(), 2);
}

#[test]
fn hex_formatter_writes_digits_in_place() {
    let mut buf = vec![b'.'; 12];
    let written = format_hex_to_buf(&mut buf, 2, 0x1a2b, 4);
    assert_eq!(written, 4);
    assert_eq!(&buf, b"..1a2b......");
    let written = format_hex_to_buf(&mut buf, 8, 0xFF, 2);
    assert_eq!(written, 2);
    assert_eq!(&buf, b"..1a2b..ff..");
}

#[test]
fn hex_formatter_keeps_leading_zeros() {
    let mut buf = vec![b'x'; 8];
    format_hex_to_buf(&mut buf, 0, 0x7, 8);
    assert_eq!(&buf, b"00000007");
}

#[test]
fn state_changes_are_declined() {
    assert!(!vlsm::try_state_change(vlsm_state::Active));
    assert!(!vlsm::try_state_change(vlsm_state::Reset));
}

#[test]
fn combined_state_prefers_the_most_active_link() {
    let mut mux = arb_mux {
        connected_links: vec![
            vlsm { id: 0, current_state: vlsm_state::L1_2 },
            vlsm { id: 1, current_state: vlsm_state::Active },
            vlsm { id: 2, current_state: vlsm_state::SleepL2 },
        ],
        nr_connected_links: 3,
        combined_state_to_send: vlsm_state::Reset,
        is_upstream: true,
    };
    mux.calc_combined_state_to_send();
    assert_eq!(mux.combined_state_to_send, vlsm_state::Active);
}

#[test]
fn combined_state_of_reset_links_defers() {
    let mut mux = arb_mux {
        connected_links: vec![
            vlsm { id: 0, current_state: vlsm_state::Reset },
            vlsm { id: 1, current_state: vlsm_state::L1_3 },
        ],
        nr_connected_links: 2,
        combined_state_to_send: vlsm_state::Reset,
        is_upstream: false,
    };
    mux.calc_combined_state_to_send();
    assert_eq!(mux.combined_state_to_send, vlsm_state::L1_3);
}
