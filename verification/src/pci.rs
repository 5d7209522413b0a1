//! PCI configuration space and the recursive bus scanner.
//!
//! Configuration space is reached through the `ConfigAccess` trait: the
//! scanner and the capability walkers are verified against its contract
//! for every implementation.  `ConfigImage` is a table-backed
//! implementation for synthetic topologies; a kernel supplies one backed
//! by the memory-mapped ECAM window.

use vstd::arithmetic::power2::lemma2_to64;
use vstd::bits::lemma_u64_shl_is_mul;
use vstd::prelude::*;

verus! {

/// A configuration-space location: segment, bus, device and function.
#[derive(Clone, Copy, Debug, PartialEq, Eq, Structural)]
pub struct PciAddress {
    pub segment: u16,
    pub bus: u8,
    pub device: u8,
    pub function: u8,
}

impl PciAddress {
    /// Device and function numbers fit their five- and three-bit fields.
    pub open spec fn wf(self) -> bool {
        &&& self.device < 32
        &&& self.function < 8
    }

    /// Builds an address from its four parts.
    pub fn new(segment: u16, bus: u8, device: u8, function: u8) -> (r: PciAddress)
        requires
            device < 32,
            function < 8,
        ensures
            r == (PciAddress { segment, bus, device, function }),
            r.wf(),
    {
        PciAddress { segment, bus, device, function }
    }
}

/// The vendor-id field a read of an absent function returns.
pub const INVALID_VENDOR: u16 = 0xFFFF;

/// Read access to PCI configuration space.
///
/// An implementation decides what a 32-bit read of `(address, offset)`
/// returns; the contract only ties the executable read to that decision, so
/// everything proved over this trait holds for any implementation.  The
/// bus's "no device" answer is the all-ones word, whose vendor-id field is
/// `INVALID_VENDOR`.
pub trait ConfigAccess {
    /// The 32-bit word this configuration space holds at `(address, offset)`.
    /// The default stands in for implementations that live outside
    /// the verifier's view; every implementation verified here overrides it.
    open spec fn read_spec(&self, address: PciAddress, offset: u16) -> u32 {
        0
    }

    /// Performs one volatile 32-bit read.
    fn read(&self, address: PciAddress, offset: u16) -> (r: u32)
        ensures
            r == self.read_spec(address, offset),
    ;
}

/// The vendor id of the function at `addr`.
pub open spec fn spec_vendor_id<A: ConfigAccess>(a: &A, addr: PciAddress) -> u16 {
    (a.read_spec(addr, 0) & 0xFFFF) as u16
}

/// The device id of the function at `addr`.
pub open spec fn spec_device_id<A: ConfigAccess>(a: &A, addr: PciAddress) -> u16 {
    ((a.read_spec(addr, 0) >> 16) & 0xFFFF) as u16
}

/// The header-type byte of the function at `addr`, multi-function bit
/// included.
pub open spec fn spec_header_byte<A: ConfigAccess>(a: &A, addr: PciAddress) -> u32 {
    (a.read_spec(addr, 0x0C) >> 16) & 0xFF
}

/// Whether the function's header declares further functions on the device.
pub open spec fn spec_multi_function<A: ConfigAccess>(a: &A, addr: PciAddress) -> bool {
    spec_header_byte(a, addr) & 0x80 != 0
}

/// Whether the function is a PCI-to-PCI bridge.
pub open spec fn spec_is_bridge<A: ConfigAccess>(a: &A, addr: PciAddress) -> bool {
    spec_header_byte(a, addr) & 0x7F == 1
}

/// The secondary bus number in a bridge's header.
pub open spec fn spec_secondary_bus<A: ConfigAccess>(a: &A, addr: PciAddress) -> u8 {
    ((a.read_spec(addr, 0x18) >> 8) & 0xFF) as u8
}

/// The subsystem id and subsystem vendor id of an endpoint.
pub open spec fn spec_subsystem<A: ConfigAccess>(a: &A, addr: PciAddress) -> (u16, u16) {
    (
        ((a.read_spec(addr, 0x2C) >> 16) & 0xFFFF) as u16,
        (a.read_spec(addr, 0x2C) & 0xFFFF) as u16,
    )
}

/// The status register of a function.
pub open spec fn spec_status<A: ConfigAccess>(a: &A, addr: PciAddress) -> u16 {
    ((a.read_spec(addr, 0x04) >> 16) & 0xFFFF) as u16
}

/// The command register of a function.
pub open spec fn spec_command<A: ConfigAccess>(a: &A, addr: PciAddress) -> u16 {
    (a.read_spec(addr, 0x04) & 0xFFFF) as u16
}

/// The revision, base class, sub class and interface of a function.
pub open spec fn spec_revision_and_class<A: ConfigAccess>(a: &A, addr: PciAddress) -> (
    u8,
    u8,
    u8,
    u8,
) {
    (
        (a.read_spec(addr, 0x08) & 0xFF) as u8,
        ((a.read_spec(addr, 0x08) >> 24) & 0xFF) as u8,
        ((a.read_spec(addr, 0x08) >> 16) & 0xFF) as u8,
        ((a.read_spec(addr, 0x08) >> 8) & 0xFF) as u8,
    )
}

/// Reads the vendor id of the function at `addr`.
pub fn vendor_id<A: ConfigAccess>(access: &A, addr: PciAddress) -> (r: u16)
    ensures
        r == spec_vendor_id(access, addr),
{
    (access.read(addr, 0) & 0xFFFF) as u16
}

/// Reads the device id of the function at `addr`.
pub fn device_id<A: ConfigAccess>(access: &A, addr: PciAddress) -> (r: u16)
    ensures
        r == spec_device_id(access, addr),
{
    ((access.read(addr, 0) >> 16) & 0xFFFF) as u16
}

/// Reads the header-type byte of the function at `addr`.
pub fn header_byte<A: ConfigAccess>(access: &A, addr: PciAddress) -> (r: u32)
    ensures
        r == spec_header_byte(access, addr),
{
    (access.read(addr, 0x0C) >> 16) & 0xFF
}

/// Reads the secondary bus number out of a bridge's header.
pub fn secondary_bus<A: ConfigAccess>(access: &A, addr: PciAddress) -> (r: u8)
    ensures
        r == spec_secondary_bus(access, addr),
{
    ((access.read(addr, 0x18) >> 8) & 0xFF) as u8
}

/// One discovered endpoint: where it answers and the ids read when it was
/// found.
#[derive(Clone, Copy, Debug, PartialEq, Eq, Structural)]
pub struct PciDevice {
    pub address: PciAddress,
    pub vendor_id: u16,
    pub device_id: u16,
}

/// How many buses a single scan may descend through: the 8-bit bus-number
/// space bounds every conformant topology's depth.
pub const SCAN_FUEL: u32 = 256;

/// The devices found on `bus`: for every device slot, the endpoints of the
/// device's present functions, bridges followed into their secondary bus.
pub open spec fn spec_scan_bus<A: ConfigAccess>(a: &A, segment: u16, bus: u8, fuel: nat)
    -> Seq<PciDevice>
    decreases fuel, 4nat, 0nat,
{
    spec_scan_devices(a, segment, bus, 0, fuel)
}

/// The devices found in slots `dev..32` of `bus`.
pub open spec fn spec_scan_devices<A: ConfigAccess>(
    a: &A,
    segment: u16,
    bus: u8,
    dev: int,
    fuel: nat,
) -> Seq<PciDevice>
    decreases fuel, 3nat, 32 - dev,
{
    if dev < 0 || dev >= 32 {
        Seq::empty()
    } else {
        spec_check_device(a, segment, bus, dev, fuel) + spec_scan_devices(
            a,
            segment,
            bus,
            dev + 1,
            fuel,
        )
    }
}

/// The devices found in one slot: nothing when function 0 is absent;
/// otherwise function 0 and, for a multi-function device, functions 1..8
/// up to the first absent one.
pub open spec fn spec_check_device<A: ConfigAccess>(
    a: &A,
    segment: u16,
    bus: u8,
    dev: int,
    fuel: nat,
) -> Seq<PciDevice>
    decreases fuel, 2nat, 9nat,
{
    if dev < 0 || dev >= 32 {
        Seq::empty()
    } else {
        let addr0 = PciAddress { segment, bus, device: dev as u8, function: 0 };
        if spec_vendor_id(a, addr0) == INVALID_VENDOR {
            Seq::empty()
        } else {
            spec_check_function(a, addr0, fuel) + if spec_multi_function(a, addr0) {
                spec_check_functions(a, segment, bus, dev, 1, fuel)
            } else {
                Seq::empty()
            }
        }
    }
}

/// The devices found in functions `f..8` of a multi-function device; the
/// first absent function ends the list.
pub open spec fn spec_check_functions<A: ConfigAccess>(
    a: &A,
    segment: u16,
    bus: u8,
    dev: int,
    f: int,
    fuel: nat,
) -> Seq<PciDevice>
    decreases fuel, 2nat, 8 - f,
{
    if dev < 0 || dev >= 32 || f < 1 || f >= 8 {
        Seq::empty()
    } else {
        let addr = PciAddress { segment, bus, device: dev as u8, function: f as u8 };
        if spec_vendor_id(a, addr) == INVALID_VENDOR {
            Seq::empty()
        } else {
            spec_check_function(a, addr, fuel) + spec_check_functions(
                a,
                segment,
                bus,
                dev,
                f + 1,
                fuel,
            )
        }
    }
}

/// The devices contributed by one present function: a bridge is followed
/// into its secondary bus, anything else is recorded as an endpoint.
pub open spec fn spec_check_function<A: ConfigAccess>(a: &A, addr: PciAddress, fuel: nat)
    -> Seq<PciDevice>
    decreases fuel, 1nat, 0nat,
{
    if spec_is_bridge(a, addr) {
        if fuel > 0 {
            spec_scan_bus(a, 0x8000, spec_secondary_bus(a, addr), (fuel - 1) as nat)
        } else {
            Seq::empty()
        }
    } else {
        seq![
            PciDevice {
                address: addr,
                vendor_id: spec_vendor_id(a, addr),
                device_id: spec_device_id(a, addr),
            },
        ]
    }
}

/// A scanned bus: the flat list of endpoints discovered under it.
pub struct PciBus {
    pub devices: Vec<PciDevice>,
}

/// Law: every device a scan reports answers at a well-formed address —
/// its device number fits five bits and its function number three — no
/// matter what the configuration space returns.
pub proof fn lemma_scan_bus_addresses_wf<A: ConfigAccess>(
    a: &A,
    segment: u16,
    bus: u8,
    fuel: nat,
)
    ensures
        forall|i: int|
            0 <= i < spec_scan_bus(a, segment, bus, fuel).len() ==> (#[trigger] spec_scan_bus(
                a,
                segment,
                bus,
                fuel,
            )[i]).address.wf(),
    decreases fuel, 4nat, 0nat,
{
    lemma_scan_devices_addresses_wf(a, segment, bus, 0, fuel);
    let s = spec_scan_bus(a, segment, bus, fuel);
    assert forall|i: int| 0 <= i < s.len() implies (#[trigger] s[i]).address.wf() by {
        assert(s[i] == spec_scan_devices(a, segment, bus, 0, fuel)[i]);
    }
}

proof fn lemma_scan_devices_addresses_wf<A: ConfigAccess>(
    a: &A,
    segment: u16,
    bus: u8,
    dev: int,
    fuel: nat,
)
    ensures
        forall|i: int|
            0 <= i < spec_scan_devices(a, segment, bus, dev, fuel).len() ==> (
            #[trigger] spec_scan_devices(a, segment, bus, dev, fuel)[i]).address.wf(),
    decreases fuel, 3nat, 32 - dev,
{
    if dev < 0 || dev >= 32 {
    } else {
        lemma_check_device_addresses_wf(a, segment, bus, dev, fuel);
        lemma_scan_devices_addresses_wf(a, segment, bus, dev + 1, fuel);
        let head = spec_check_device(a, segment, bus, dev, fuel);
        let tail = spec_scan_devices(a, segment, bus, dev + 1, fuel);
        let s = spec_scan_devices(a, segment, bus, dev, fuel);
        assert forall|i: int| 0 <= i < s.len() implies (#[trigger] s[i]).address.wf() by {
            if i < head.len() {
                assert(s[i] == head[i]);
            } else {
                assert(s[i] == tail[i - head.len()]);
            }
        }
    }
}

proof fn lemma_check_device_addresses_wf<A: ConfigAccess>(
    a: &A,
    segment: u16,
    bus: u8,
    dev: int,
    fuel: nat,
)
    ensures
        forall|i: int|
            0 <= i < spec_check_device(a, segment, bus, dev, fuel).len() ==> (
            #[trigger] spec_check_device(a, segment, bus, dev, fuel)[i]).address.wf(),
    decreases fuel, 2nat, 9nat,
{
    if dev < 0 || dev >= 32 {
    } else {
        let addr0 = PciAddress { segment, bus, device: dev as u8, function: 0 };
        if spec_vendor_id(a, addr0) == INVALID_VENDOR {
        } else {
            lemma_check_function_addresses_wf(a, addr0, fuel);
            let head = spec_check_function(a, addr0, fuel);
            let tail = if spec_multi_function(a, addr0) {
                spec_check_functions(a, segment, bus, dev, 1, fuel)
            } else {
                Seq::empty()
            };
            if spec_multi_function(a, addr0) {
                lemma_check_functions_addresses_wf(a, segment, bus, dev, 1, fuel);
            }
            let s = spec_check_device(a, segment, bus, dev, fuel);
            assert forall|i: int| 0 <= i < s.len() implies (#[trigger] s[i]).address.wf() by {
                if i < head.len() {
                    assert(s[i] == head[i]);
                } else {
                    assert(s[i] == tail[i - head.len()]);
                }
            }
        }
    }
}

proof fn lemma_check_functions_addresses_wf<A: ConfigAccess>(
    a: &A,
    segment: u16,
    bus: u8,
    dev: int,
    f: int,
    fuel: nat,
)
    ensures
        forall|i: int|
            0 <= i < spec_check_functions(a, segment, bus, dev, f, fuel).len() ==> (
            #[trigger] spec_check_functions(a, segment, bus, dev, f, fuel)[i]).address.wf(),
    decreases fuel, 2nat, 8 - f,
{
    if dev < 0 || dev >= 32 || f < 1 || f >= 8 {
    } else {
        let addr = PciAddress { segment, bus, device: dev as u8, function: f as u8 };
        if spec_vendor_id(a, addr) == INVALID_VENDOR {
        } else {
            lemma_check_function_addresses_wf(a, addr, fuel);
            lemma_check_functions_addresses_wf(a, segment, bus, dev, f + 1, fuel);
            let head = spec_check_function(a, addr, fuel);
            let tail = spec_check_functions(a, segment, bus, dev, f + 1, fuel);
            let s = spec_check_functions(a, segment, bus, dev, f, fuel);
            assert forall|i: int| 0 <= i < s.len() implies (#[trigger] s[i]).address.wf() by {
                if i < head.len() {
                    assert(s[i] == head[i]);
                } else {
                    assert(s[i] == tail[i - head.len()]);
                }
            }
        }
    }
}

proof fn lemma_check_function_addresses_wf<A: ConfigAccess>(a: &A, addr: PciAddress, fuel: nat)
    requires
        addr.wf(),
    ensures
        forall|i: int|
            0 <= i < spec_check_function(a, addr, fuel).len() ==> (#[trigger] spec_check_function(
                a,
                addr,
                fuel,
            )[i]).address.wf(),
    decreases fuel, 1nat, 0nat,
{
    let s = spec_check_function(a, addr, fuel);
    if spec_is_bridge(a, addr) {
        if fuel > 0 {
            lemma_scan_bus_addresses_wf(a, 0x8000, spec_secondary_bus(a, addr), (fuel - 1) as nat);
            assert forall|i: int| 0 <= i < s.len() implies (#[trigger] s[i]).address.wf() by {
                assert(s[i] == spec_scan_bus(
                    a,
                    0x8000,
                    spec_secondary_bus(a, addr),
                    (fuel - 1) as nat,
                )[i]);
            }
        }
    } else {
        assert(s[0].address == addr);
    }
}

fn check_function_rec<A: ConfigAccess>(
    access: &A,
    addr: PciAddress,
    fuel: u32,
    devices: &mut Vec<PciDevice>,
)
    requires
        addr.wf(),
    ensures
        final(devices)@ == old(devices)@ + spec_check_function(access, addr, fuel as nat),
    decreases fuel, 1nat, 0nat,
{
    let hdr = header_byte(access, addr);
    if hdr & 0x7F == 1 {
        if fuel == 0 {
            proof {
                assert(devices@ + Seq::<PciDevice>::empty() =~= devices@);
            }
            return ;
        }
        let secondary = secondary_bus(access, addr);
        scan_bus_rec(access, 0x8000, secondary, fuel - 1, devices);
    } else {
        let v = vendor_id(access, addr);
        let d = device_id(access, addr);
        let dev = PciDevice { address: addr, vendor_id: v, device_id: d };
        proof {
            assert(devices@.push(dev) =~= devices@ + seq![dev]);
        }
        devices.push(dev);
    }
}

fn check_functions_rec<A: ConfigAccess>(
    access: &A,
    segment: u16,
    bus: u8,
    device: u8,
    f: u8,
    fuel: u32,
    devices: &mut Vec<PciDevice>,
)
    requires
        device < 32,
        1 <= f <= 8,
    ensures
        final(devices)@ == old(devices)@ + spec_check_functions(
            access,
            segment,
            bus,
            device as int,
            f as int,
            fuel as nat,
        ),
    decreases fuel, 2nat, 8 - f,
{
    if f >= 8 {
        proof {
            assert(devices@ + Seq::<PciDevice>::empty() =~= devices@);
        }
        return ;
    }
    let addr = PciAddress { segment, bus, device, function: f };
    if vendor_id(access, addr) == INVALID_VENDOR {
        proof {
            assert(devices@ + Seq::<PciDevice>::empty() =~= devices@);
        }
        return ;
    }
    let ghost before = devices@;
    check_function_rec(access, addr, fuel, devices);
    check_functions_rec(access, segment, bus, device, f + 1, fuel, devices);
    proof {
        assert((before + spec_check_function(access, addr, fuel as nat)) + spec_check_functions(
            access,
            segment,
            bus,
            device as int,
            f as int + 1,
            fuel as nat,
        ) =~= before + (spec_check_function(access, addr, fuel as nat) + spec_check_functions(
            access,
            segment,
            bus,
            device as int,
            f as int + 1,
            fuel as nat,
        )));
    }
}

fn check_device_rec<A: ConfigAccess>(
    access: &A,
    segment: u16,
    bus: u8,
    device: u8,
    fuel: u32,
    devices: &mut Vec<PciDevice>,
)
    requires
        device < 32,
    ensures
        final(devices)@ == old(devices)@ + spec_check_device(
            access,
            segment,
            bus,
            device as int,
            fuel as nat,
        ),
    decreases fuel, 2nat, 9nat,
{
    let addr0 = PciAddress { segment, bus, device, function: 0 };
    if vendor_id(access, addr0) == INVALID_VENDOR {
        proof {
            assert(devices@ + Seq::<PciDevice>::empty() =~= devices@);
        }
        return ;
    }
    let ghost before = devices@;
    check_function_rec(access, addr0, fuel, devices);
    let multi = header_byte(access, addr0) & 0x80 != 0;
    if multi {
        check_functions_rec(access, segment, bus, device, 1, fuel, devices);
        proof {
            assert((before + spec_check_function(access, addr0, fuel as nat))
                + spec_check_functions(
                access,
                segment,
                bus,
                device as int,
                1,
                fuel as nat,
            ) =~= before + (spec_check_function(access, addr0, fuel as nat)
                + spec_check_functions(access, segment, bus, device as int, 1, fuel as nat)));
        }
    } else {
        proof {
            assert(devices@ + Seq::<PciDevice>::empty() =~= devices@);
        }
    }
}

fn scan_bus_rec<A: ConfigAccess>(
    access: &A,
    segment: u16,
    bus: u8,
    fuel: u32,
    devices: &mut Vec<PciDevice>,
)
    ensures
        final(devices)@ == old(devices)@ + spec_scan_bus(access, segment, bus, fuel as nat),
    decreases fuel, 4nat, 0nat,
{
    let ghost orig = devices@;
    let mut dev: u8 = 0;
    while dev < 32
        invariant
            dev <= 32,
            orig + spec_scan_devices(access, segment, bus, 0, fuel as nat) == devices@
                + spec_scan_devices(access, segment, bus, dev as int, fuel as nat),
        decreases 32 - dev,
    {
        let ghost before = devices@;
        check_device_rec(access, segment, bus, dev, fuel, devices);
        proof {
            assert((before + spec_check_device(access, segment, bus, dev as int, fuel as nat))
                + spec_scan_devices(access, segment, bus, dev as int + 1, fuel as nat) =~= before
                + (spec_check_device(access, segment, bus, dev as int, fuel as nat)
                + spec_scan_devices(access, segment, bus, dev as int + 1, fuel as nat)));
        }
        dev = dev + 1;
    }
    proof {
        assert(devices@ + Seq::<PciDevice>::empty() =~= devices@);
    }
}

impl PciBus {
    /// Scans the root bus, following every bridge, and returns the flat
    /// device list.
    pub fn scan<A: ConfigAccess>(access: &A) -> (r: PciBus)
        ensures
            r.devices@ == spec_scan_bus(access, 0x8000, 0, SCAN_FUEL as nat),
    {
        Self::scan_by_nr(0, access)
    }

    /// Scans the given bus, following every bridge, and returns the flat
    /// device list.
    pub fn scan_by_nr<A: ConfigAccess>(bus_nr: u8, access: &A) -> (r: PciBus)
        ensures
            r.devices@ == spec_scan_bus(access, 0x8000, bus_nr, SCAN_FUEL as nat),
    {
        let mut devices: Vec<PciDevice> = Vec::new();
        scan_bus_rec(access, 0x8000, bus_nr, SCAN_FUEL, &mut devices);
        proof {
            assert(Seq::<PciDevice>::empty() + spec_scan_bus(
                access,
                0x8000,
                bus_nr,
                SCAN_FUEL as nat,
            ) =~= spec_scan_bus(access, 0x8000, bus_nr, SCAN_FUEL as nat));
        }
        PciBus { devices }
    }

    /// The devices whose live vendor and device ids equal the requested
    /// pair; an empty device list yields an empty answer.
    pub fn search_by_ids<A: ConfigAccess>(
        &self,
        access: &A,
        vendor_id: u16,
        device_id: u16,
    ) -> (r: Vec<PciDevice>)
        ensures
            r@ == self.devices@.filter(
                |d: PciDevice|
                    spec_vendor_id(access, d.address) == vendor_id && spec_device_id(
                        access,
                        d.address,
                    ) == device_id,
            ),
    {
        let ghost pred = |d: PciDevice|
            spec_vendor_id(access, d.address) == vendor_id && spec_device_id(access, d.address)
                == device_id;
        let mut out: Vec<PciDevice> = Vec::new();
        let mut i: usize = 0;
        proof {
            reveal_with_fuel(Seq::<PciDevice>::filter, 1);
            assert(self.devices@.take(0) =~= Seq::<PciDevice>::empty());
        }
        while i < self.devices.len()
            invariant
                i <= self.devices@.len(),
                out@ == self.devices@.take(i as int).filter(pred),
                pred == (|d: PciDevice|
                    spec_vendor_id(access, d.address) == vendor_id && spec_device_id(
                        access,
                        d.address,
                    ) == device_id),
            decreases self.devices@.len() - i,
        {
            let d = self.devices[i];
            let v = vendor_id_of(access, d);
            let id = device_id_of(access, d);
            proof {
                reveal_with_fuel(Seq::<PciDevice>::filter, 1);
                let taken = self.devices@.take(i as int + 1);
                assert(taken.drop_last() =~= self.devices@.take(i as int));
                assert(taken.last() == d);
            }
            if v == vendor_id && id == device_id {
                out.push(d);
            }
            i = i + 1;
        }
        proof {
            assert(self.devices@.take(self.devices@.len() as int) =~= self.devices@);
        }
        out
    }

    /// The devices whose live base class and sub class equal the requested
    /// pair.
    pub fn search_by_class<A: ConfigAccess>(
        &self,
        access: &A,
        base_class: u8,
        sub_class: u8,
    ) -> (r: Vec<PciDevice>)
        ensures
            r@ == self.devices@.filter(
                |d: PciDevice|
                    spec_revision_and_class(access, d.address).1 == base_class
                        && spec_revision_and_class(access, d.address).2 == sub_class,
            ),
    {
        let ghost pred = |d: PciDevice|
            spec_revision_and_class(access, d.address).1 == base_class && spec_revision_and_class(
                access,
                d.address,
            ).2 == sub_class;
        let mut out: Vec<PciDevice> = Vec::new();
        let mut i: usize = 0;
        proof {
            reveal_with_fuel(Seq::<PciDevice>::filter, 1);
            assert(self.devices@.take(0) =~= Seq::<PciDevice>::empty());
        }
        while i < self.devices.len()
            invariant
                i <= self.devices@.len(),
                out@ == self.devices@.take(i as int).filter(pred),
                pred == (|d: PciDevice|
                    spec_revision_and_class(access, d.address).1 == base_class
                        && spec_revision_and_class(access, d.address).2 == sub_class),
            decreases self.devices@.len() - i,
        {
            let d = self.devices[i];
            let field = access.read(d.address, 0x08);
            let base = ((field >> 24) & 0xFF) as u8;
            let sub = ((field >> 16) & 0xFF) as u8;
            proof {
                reveal_with_fuel(Seq::<PciDevice>::filter, 1);
                let taken = self.devices@.take(i as int + 1);
                assert(taken.drop_last() =~= self.devices@.take(i as int));
                assert(taken.last() == d);
            }
            if base == base_class && sub == sub_class {
                out.push(d);
            }
            i = i + 1;
        }
        proof {
            assert(self.devices@.take(self.devices@.len() as int) =~= self.devices@);
        }
        out
    }

    /// Reads each discovered device's subsystem id and subsystem vendor id.
    pub fn dump_devices<A: ConfigAccess>(&self, access: &A) -> (r: Vec<(u16, u16)>)
        ensures
            r@.len() == self.devices@.len(),
            forall|i: int|
                0 <= i < r@.len() ==> r@[i] == spec_subsystem(
                    access,
                    (#[trigger] self.devices@[i]).address,
                ),
    {
        let mut out: Vec<(u16, u16)> = Vec::new();
        let mut i: usize = 0;
        while i < self.devices.len()
            invariant
                i <= self.devices@.len(),
                out@.len() == i,
                forall|j: int|
                    0 <= j < i ==> out@[j] == spec_subsystem(
                        access,
                        (#[trigger] self.devices@[j]).address,
                    ),
            decreases self.devices@.len() - i,
        {
            let d = self.devices[i];
            let data = access.read(d.address, 0x2C);
            out.push((((data >> 16) & 0xFFFF) as u16, (data & 0xFFFF) as u16));
            i = i + 1;
        }
        out
    }

    /// Reads each discovered device's status register.
    pub fn dump_devices_status_registers<A: ConfigAccess>(&self, access: &A) -> (r: Vec<u16>)
        ensures
            r@.len() == self.devices@.len(),
            forall|i: int|
                0 <= i < r@.len() ==> r@[i] == spec_status(
                    access,
                    (#[trigger] self.devices@[i]).address,
                ),
    {
        let mut out: Vec<u16> = Vec::new();
        let mut i: usize = 0;
        while i < self.devices.len()
            invariant
                i <= self.devices@.len(),
                out@.len() == i,
                forall|j: int|
                    0 <= j < i ==> out@[j] == spec_status(
                        access,
                        (#[trigger] self.devices@[j]).address,
                    ),
            decreases self.devices@.len() - i,
        {
            let d = self.devices[i];
            let data = access.read(d.address, 0x04);
            out.push(((data >> 16) & 0xFFFF) as u16);
            i = i + 1;
        }
        out
    }

    /// Reads each discovered device's command register.
    pub fn dump_devices_command_registers<A: ConfigAccess>(&self, access: &A) -> (r: Vec<u16>)
        ensures
            r@.len() == self.devices@.len(),
            forall|i: int|
                0 <= i < r@.len() ==> r@[i] == spec_command(
                    access,
                    (#[trigger] self.devices@[i]).address,
                ),
    {
        let mut out: Vec<u16> = Vec::new();
        let mut i: usize = 0;
        while i < self.devices.len()
            invariant
                i <= self.devices@.len(),
                out@.len() == i,
                forall|j: int|
                    0 <= j < i ==> out@[j] == spec_command(
                        access,
                        (#[trigger] self.devices@[j]).address,
                    ),
            decreases self.devices@.len() - i,
        {
            let d = self.devices[i];
            let data = access.read(d.address, 0x04);
            out.push((data & 0xFFFF) as u16);
            i = i + 1;
        }
        out
    }
}

/// Reads the live vendor id of a discovered device.
fn vendor_id_of<A: ConfigAccess>(access: &A, d: PciDevice) -> (r: u16)
    ensures
        r == spec_vendor_id(access, d.address),
{
    vendor_id(access, d.address)
}

/// Reads the live device id of a discovered device.
fn device_id_of<A: ConfigAccess>(access: &A, d: PciDevice) -> (r: u16)
    ensures
        r == spec_device_id(access, d.address),
{
    device_id(access, d.address)
}

/// The memory-mapped enhanced-configuration (ECAM) window: a physical base
/// address from which every function's 4 KiB register page is reached.
pub struct ConfigurationSpace {
    base_address: u64,
}

impl ConfigurationSpace {
    /// The mapped base address.
    pub closed spec fn spec_base(&self) -> u64 {
        self.base_address
    }

    /// Wraps an already-mapped ECAM base address.
    pub fn new(base_address: u64) -> (r: ConfigurationSpace)
        ensures
            r.spec_base() == base_address,
    {
        ConfigurationSpace { base_address }
    }

    /// The physical address of register `offset` of the function at
    /// `address`: `base + (bus << 20) + (device << 15) + (function << 12)
    /// + offset`.
    pub fn physical_address_with_offset(&self, address: PciAddress, offset: u16) -> (r: u64)
        requires
            address.wf(),
            self.spec_base() + 0x1001_0000 <= u64::MAX,
        ensures
            r == self.spec_base() + ((address.bus as u64) << 20) + ((address.device as u64) << 15)
                + ((address.function as u64) << 12) + offset,
    {
        proof {
            lemma2_to64();
            lemma_u64_shl_is_mul(address.bus as u64, 20);
            lemma_u64_shl_is_mul(address.device as u64, 15);
            lemma_u64_shl_is_mul(address.function as u64, 12);
        }
        self.base_address + ((address.bus as u64) << 20) + ((address.device as u64) << 15) + (
        (address.function as u64) << 12) + offset as u64
    }
}

/// One remembered configuration-space word of a synthetic topology.
#[derive(Clone, Copy, Debug, PartialEq, Eq, Structural)]
pub struct ConfigEntry {
    pub address: PciAddress,
    pub offset: u16,
    pub value: u32,
}

/// The value an entry list holds for `(addr, offset)`: the most recently
/// set entry wins, and locations never set read as the bus's all-ones
/// "no device" answer.
pub open spec fn spec_lookup(entries: Seq<ConfigEntry>, addr: PciAddress, offset: u16) -> u32
    decreases entries.len(),
{
    if entries.len() == 0 {
        0xFFFF_FFFF
    } else if entries[0].address == addr && entries[0].offset == offset {
        entries[0].value
    } else {
        spec_lookup(entries.drop_first(), addr, offset)
    }
}

/// A table-backed configuration space: synthetic topologies for tests and
/// for exercising the scanner without hardware.
pub struct ConfigImage {
    entries: Vec<ConfigEntry>,
}

impl ConfigImage {
    /// The remembered words.
    pub closed spec fn entries_view(&self) -> Seq<ConfigEntry> {
        self.entries@
    }

    /// An image where every read answers all-ones.
    pub fn new() -> (r: ConfigImage)
        ensures
            r.entries_view() =~= Seq::<ConfigEntry>::empty(),
    {
        ConfigImage { entries: Vec::new() }
    }

    /// Sets the 32-bit word read at `(addr, offset)`.
    pub fn set(&mut self, addr: PciAddress, offset: u16, value: u32)
        ensures
            final(self).entries_view() == seq![ConfigEntry { address: addr, offset, value }]
                + old(self).entries_view(),
    {
        let e = ConfigEntry { address: addr, offset, value };
        self.entries.insert(0, e);
        proof {
            assert(self.entries@ =~= seq![e] + old(self).entries_view());
        }
    }
}

impl ConfigAccess for ConfigImage {
    open spec fn read_spec(&self, address: PciAddress, offset: u16) -> u32 {
        spec_lookup(self.entries_view(), address, offset)
    }

    fn read(&self, address: PciAddress, offset: u16) -> (r: u32)
        ensures
            r == self.read_spec(address, offset),
    {
        proof {
            assert(self.entries@.skip(0) =~= self.entries@);
        }
        let mut i: usize = 0;
        while i < self.entries.len()
            invariant
                i <= self.entries@.len(),
                spec_lookup(self.entries@, address, offset) == spec_lookup(
                    self.entries@.skip(i as int),
                    address,
                    offset,
                ),
            decreases self.entries@.len() - i,
        {
            let e = self.entries[i];
            proof {
                assert(self.entries@.skip(i as int)[0] == self.entries@[i as int]);
                assert(self.entries@.skip(i as int).drop_first() =~= self.entries@.skip(
                    i as int + 1,
                ));
            }
            if e.address == address && e.offset == offset {
                return e.value;
            }
            i = i + 1;
        }
        proof {
            assert(self.entries@.skip(self.entries@.len() as int) =~= Seq::<ConfigEntry>::empty());
        }
        0xFFFF_FFFF
    }
}

} // verus!
