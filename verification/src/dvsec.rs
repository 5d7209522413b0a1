//! PCI capability lists and the CXL designated vendor-specific extended
//! capability (DVSEC).
//!
//! Two linked-list protocols live in configuration space: the legacy
//! capability list inside the first 256 bytes, with byte-sized ids and
//! next pointers, and the extended capability list from offset 0x100,
//! with 16-bit ids and 12-bit next pointers.  Both are zero-terminated;
//! a fuel bound keeps the walk finite even over a corrupted chain.
//!
//! An extended capability with id 0x23 is a CXL DVSEC; a second tag
//! selects the concrete register layout, decoded here field by field.

use vstd::prelude::*;

use crate::bits::{get_bit_u32, get_bits_u32};
use crate::pci::{ConfigAccess, PciAddress};

verus! {

/// One entry of the legacy capability list.
#[derive(Clone, Copy, Debug, PartialEq, Eq, Structural)]
pub struct Capability {
    pub id: u8,
    pub offset: u16,
}

/// One entry of the extended capability list.
#[derive(Clone, Copy, Debug, PartialEq, Eq, Structural)]
pub struct ExtendedCapability {
    pub id: u16,
    pub version: u8,
    pub offset: u16,
}

/// Longest chain either walker follows: one entry per remaining dword of
/// the 4 KiB configuration space bounds every well-formed chain.
pub const CAP_WALK_FUEL: u32 = 1024;

/// The legacy capability entries reached from `off`: each entry's low byte
/// is its id and its second byte points at the next entry; a zero pointer
/// ends the list.
pub open spec fn spec_capability_chain<A: ConfigAccess>(
    a: &A,
    addr: PciAddress,
    off: u16,
    fuel: nat,
) -> Seq<Capability>
    decreases fuel,
{
    if off == 0 || fuel == 0 {
        Seq::empty()
    } else {
        let reg = a.read_spec(addr, off);
        seq![Capability { id: (reg & 0xFF) as u8, offset: off }] + spec_capability_chain(
            a,
            addr,
            ((reg >> 8) & 0xFF) as u16,
            (fuel - 1) as nat,
        )
    }
}

/// The extended capability entries reached from `off`: 16-bit id, 4-bit
/// version and a 12-bit pointer to the next entry; a zero pointer ends the
/// list.
pub open spec fn spec_extended_capability_chain<A: ConfigAccess>(
    a: &A,
    addr: PciAddress,
    off: u16,
    fuel: nat,
) -> Seq<ExtendedCapability>
    decreases fuel,
{
    if off == 0 || fuel == 0 {
        Seq::empty()
    } else {
        let reg = a.read_spec(addr, off);
        seq![
            ExtendedCapability {
                id: (reg & 0xFFFF) as u16,
                version: ((reg >> 16) & 0xF) as u8,
                offset: off,
            },
        ] + spec_extended_capability_chain(
            a,
            addr,
            ((reg >> 20) & 0xFFF) as u16,
            (fuel - 1) as nat,
        )
    }
}

/// Walks the legacy capability list of the function at `addr`, starting at
/// the offset stored in the capabilities-pointer register, and returns
/// every visited entry in chain order.
pub fn read_capabilities<A: ConfigAccess>(access: &A, addr: PciAddress) -> (r: Vec<Capability>)
    ensures
        r@ == spec_capability_chain(
            access,
            addr,
            (access.read_spec(addr, 0x34) & 0xFF) as u16,
            CAP_WALK_FUEL as nat,
        ),
{
    let start = (access.read(addr, 0x34) & 0xFF) as u16;
    let mut out: Vec<Capability> = Vec::new();
    let mut off: u16 = start;
    let mut fuel: u32 = CAP_WALK_FUEL;
    proof {
        assert(Seq::<Capability>::empty() + spec_capability_chain(
            access,
            addr,
            start,
            CAP_WALK_FUEL as nat,
        ) =~= spec_capability_chain(access, addr, start, CAP_WALK_FUEL as nat));
    }
    loop
        invariant
            out@ + spec_capability_chain(access, addr, off, fuel as nat) == spec_capability_chain(
                access,
                addr,
                start,
                CAP_WALK_FUEL as nat,
            ),
            start == (access.read_spec(addr, 0x34) & 0xFF) as u16,
        decreases fuel,
    {
        if off == 0 || fuel == 0 {
            proof {
                assert(out@ + Seq::<Capability>::empty() =~= out@);
            }
            return out;
        }
        let reg = access.read(addr, off);
        let cap = Capability { id: (reg & 0xFF) as u8, offset: off };
        let next = ((reg >> 8) & 0xFF) as u16;
        proof {
            assert((out@ + (seq![cap] + spec_capability_chain(
                access,
                addr,
                next,
                (fuel - 1) as nat,
            ))) =~= (out@.push(cap) + spec_capability_chain(
                access,
                addr,
                next,
                (fuel - 1) as nat,
            )));
        }
        out.push(cap);
        off = next;
        fuel = fuel - 1;
    }
}

/// Where the extended capability list starts in configuration space.
pub const EXTENDED_CAPABILITIES_START: u16 = 0x100;

/// Walks the extended capability list of the function at `addr`, starting
/// at offset 0x100, and returns every visited entry in chain order.
pub fn read_extended_capabilities<A: ConfigAccess>(access: &A, addr: PciAddress) -> (r: Vec<
    ExtendedCapability,
>)
    ensures
        r@ == spec_extended_capability_chain(
            access,
            addr,
            EXTENDED_CAPABILITIES_START,
            CAP_WALK_FUEL as nat,
        ),
{
    let mut out: Vec<ExtendedCapability> = Vec::new();
    let mut off: u16 = EXTENDED_CAPABILITIES_START;
    let mut fuel: u32 = CAP_WALK_FUEL;
    proof {
        assert(Seq::<ExtendedCapability>::empty() + spec_extended_capability_chain(
            access,
            addr,
            EXTENDED_CAPABILITIES_START,
            CAP_WALK_FUEL as nat,
        ) =~= spec_extended_capability_chain(
            access,
            addr,
            EXTENDED_CAPABILITIES_START,
            CAP_WALK_FUEL as nat,
        ));
    }
    loop
        invariant
            out@ + spec_extended_capability_chain(access, addr, off, fuel as nat)
                == spec_extended_capability_chain(
                access,
                addr,
                EXTENDED_CAPABILITIES_START,
                CAP_WALK_FUEL as nat,
            ),
        decreases fuel,
    {
        if off == 0 || fuel == 0 {
            proof {
                assert(out@ + Seq::<ExtendedCapability>::empty() =~= out@);
            }
            return out;
        }
        let reg = access.read(addr, off);
        let cap = ExtendedCapability {
            id: (reg & 0xFFFF) as u16,
            version: ((reg >> 16) & 0xF) as u8,
            offset: off,
        };
        let next = ((reg >> 20) & 0xFFF) as u16;
        proof {
            assert((out@ + (seq![cap] + spec_extended_capability_chain(
                access,
                addr,
                next,
                (fuel - 1) as nat,
            ))) =~= (out@.push(cap) + spec_extended_capability_chain(
                access,
                addr,
                next,
                (fuel - 1) as nat,
            )));
        }
        out.push(cap);
        off = next;
        fuel = fuel - 1;
    }
}

/// A capability's place in configuration space: the function it belongs
/// to and the byte offset of its header.
#[derive(Clone, Copy, Debug, PartialEq, Eq, Structural)]
pub struct PciCapabilityAddress {
    pub address: PciAddress,
    pub offset: u16,
}

/// A host-managed device memory range: its decoded base and size.
#[derive(Clone, Copy, Debug, PartialEq, Eq, Structural)]
pub struct HdmRange {
    pub base: u64,
    pub size: u64,
}

/// The CXL DVSEC for devices: the four range registers of each of the two
/// HDM ranges, as read from configuration space.
#[derive(Clone, Copy, Debug, PartialEq, Eq, Structural)]
pub struct CxlDvsecForDevice {
    pub range_1_size_high: u32,
    pub range_1_size_low: u32,
    pub range_1_base_high: u32,
    pub range_1_base_low: u32,
    pub range_2_size_high: u32,
    pub range_2_size_low: u32,
    pub range_2_base_high: u32,
    pub range_2_base_low: u32,
}

/// The device DVSEC whose header sits at `(addr, off)`.
pub open spec fn spec_dvsec_device_at<A: ConfigAccess>(a: &A, addr: PciAddress, off: u16)
    -> CxlDvsecForDevice
    recommends
        off + 0x34 <= u16::MAX,
{
    CxlDvsecForDevice {
        range_1_size_high: a.read_spec(addr, (off + 0x18) as u16),
        range_1_size_low: a.read_spec(addr, (off + 0x1C) as u16),
        range_1_base_high: a.read_spec(addr, (off + 0x20) as u16),
        range_1_base_low: a.read_spec(addr, (off + 0x24) as u16),
        range_2_size_high: a.read_spec(addr, (off + 0x28) as u16),
        range_2_size_low: a.read_spec(addr, (off + 0x2C) as u16),
        range_2_base_high: a.read_spec(addr, (off + 0x30) as u16),
        range_2_base_low: a.read_spec(addr, (off + 0x34) as u16),
    }
}

impl CxlDvsecForDevice {
    /// The first HDM range: base and size are 256 MiB aligned, so only
    /// the top four bits of each low half carry information.
    pub fn range_1(&self) -> (r: HdmRange)
        ensures
            r.base == ((self.range_1_base_high as u64) << 32 | ((self.range_1_base_low
                & 0xF000_0000) as u64)),
            r.size == ((self.range_1_size_high as u64) << 32 | ((self.range_1_size_low
                & 0xF000_0000) as u64)),
    {
        HdmRange {
            base: (self.range_1_base_high as u64) << 32 | ((self.range_1_base_low & 0xF000_0000)
                as u64),
            size: (self.range_1_size_high as u64) << 32 | ((self.range_1_size_low & 0xF000_0000)
                as u64),
        }
    }

    /// The second HDM range, under the same convention.
    pub fn range_2(&self) -> (r: HdmRange)
        ensures
            r.base == ((self.range_2_base_high as u64) << 32 | ((self.range_2_base_low
                & 0xF000_0000) as u64)),
            r.size == ((self.range_2_size_high as u64) << 32 | ((self.range_2_size_low
                & 0xF000_0000) as u64)),
    {
        HdmRange {
            base: (self.range_2_base_high as u64) << 32 | ((self.range_2_base_low & 0xF000_0000)
                as u64),
            size: (self.range_2_size_high as u64) << 32 | ((self.range_2_size_low & 0xF000_0000)
                as u64),
        }
    }

    /// Whether the first range's memory-active bit is set.
    pub fn range_1_memory_active(&self) -> (r: bool)
        ensures
            r == ((self.range_1_size_low >> 1) & 1 == 1),
    {
        get_bit_u32(self.range_1_size_low, 1)
    }
}

/// Decides whether an HDM range must be claimed: a device that reports its
/// first range as memory-active while its base is still zero needs a base
/// address programmed.  Returns the low and high register words to write,
/// split from `next_free_base`, or `None` when nothing is to be done.
///
/// Writing the returned words claims the physical window that starts at
/// `next_free_base`: the caller must own that address range exclusively,
/// since nothing here coordinates with an allocator.
pub fn setup_memory_range(device: &CxlDvsecForDevice, next_free_base: u64) -> (r: Option<
    (u32, u32),
>)
    ensures
        r is Some <==> ((device.range_1_size_low >> 1) & 1 == 1) && ((device.range_1_base_high
            as u64) << 32 | ((device.range_1_base_low & 0xF000_0000) as u64)) == 0,
        r matches Some((low, high)) ==> low == next_free_base as u32 && high == (next_free_base
            >> 32) as u32,
{
    if device.range_1_memory_active() && device.range_1().base == 0 {
        Some((#[verifier::truncate] (next_free_base as u32), (next_free_base >> 32) as u32))
    } else {
        None
    }
}

/// The CXL DVSEC for ports: the two words of the root complex register
/// block base.
#[derive(Clone, Copy, Debug, PartialEq, Eq, Structural)]
pub struct CxlDvsecForPort {
    pub cxl_rcrb_base_low: u32,
    pub cxl_rcrb_base_high: u32,
}

/// The port DVSEC whose header sits at `(addr, off)`.
pub open spec fn spec_dvsec_port_at<A: ConfigAccess>(a: &A, addr: PciAddress, off: u16)
    -> CxlDvsecForPort
    recommends
        off + 0x24 <= u16::MAX,
{
    CxlDvsecForPort {
        cxl_rcrb_base_low: a.read_spec(addr, (off + 0x20) as u16),
        cxl_rcrb_base_high: a.read_spec(addr, (off + 0x24) as u16),
    }
}

impl CxlDvsecForPort {
    /// Whether the RCRB base is valid: bit 0 of its low word.
    pub fn is_cxl_rcrb_enabled(&self) -> (r: bool)
        ensures
            r == (self.cxl_rcrb_base_low & 1 == 1),
    {
        let b = get_bit_u32(self.cxl_rcrb_base_low, 0);
        proof {
            let v = self.cxl_rcrb_base_low;
            assert(((v >> 0) & 1) == (v & 1)) by (bit_vector);
        }
        b
    }

    /// The RCRB base address: the high word over the 4 KiB-aligned part of
    /// the low word.
    pub fn get_cxl_rcrb_base(&self) -> (r: u64)
        ensures
            r == ((self.cxl_rcrb_base_high as u64) << 32 | ((self.cxl_rcrb_base_low & 0xFFFF_F000)
                as u64)),
    {
        (self.cxl_rcrb_base_high as u64) << 32 | ((self.cxl_rcrb_base_low & 0xFFFF_F000) as u64)
    }
}

/// The CXL DVSEC for flex bus ports: capability, control and status words.
#[derive(Clone, Copy, Debug, PartialEq, Eq, Structural)]
pub struct CxlDvsecFlexBus {
    pub capability: u16,
    pub control: u16,
    pub status: u16,
    pub received_modified_ts_data_phase_1: u32,
    pub cap_2: u32,
    pub control_2: u32,
    pub status_2: u32,
}

/// The flex-bus DVSEC whose header sits at `(addr, off)`.
pub open spec fn spec_dvsec_flex_bus_at<A: ConfigAccess>(a: &A, addr: PciAddress, off: u16)
    -> CxlDvsecFlexBus
    recommends
        off + 0x1C <= u16::MAX,
{
    CxlDvsecFlexBus {
        capability: ((a.read_spec(addr, (off + 0x08) as u16) >> 16) & 0xFFFF) as u16,
        control: (a.read_spec(addr, (off + 0x0C) as u16) & 0xFFFF) as u16,
        status: ((a.read_spec(addr, (off + 0x0C) as u16) >> 16) & 0xFFFF) as u16,
        received_modified_ts_data_phase_1: a.read_spec(addr, (off + 0x10) as u16),
        cap_2: a.read_spec(addr, (off + 0x14) as u16),
        control_2: a.read_spec(addr, (off + 0x18) as u16),
        status_2: a.read_spec(addr, (off + 0x1C) as u16),
    }
}

/// The register locator DVSEC: three (low, high) register-block words.
#[derive(Clone, Copy, Debug, PartialEq, Eq, Structural)]
pub struct RegisterLocator {
    pub register_block_1_low: u32,
    pub register_block_1_high: u32,
    pub register_block_2_low: u32,
    pub register_block_2_high: u32,
    pub register_block_3_low: u32,
    pub register_block_3_high: u32,
}

/// The register locator whose header sits at `(addr, off)`.
pub open spec fn spec_register_locator_at<A: ConfigAccess>(a: &A, addr: PciAddress, off: u16)
    -> RegisterLocator
    recommends
        off + 0x20 <= u16::MAX,
{
    RegisterLocator {
        register_block_1_low: a.read_spec(addr, (off + 0x0C) as u16),
        register_block_1_high: a.read_spec(addr, (off + 0x10) as u16),
        register_block_2_low: a.read_spec(addr, (off + 0x14) as u16),
        register_block_2_high: a.read_spec(addr, (off + 0x18) as u16),
        register_block_3_low: a.read_spec(addr, (off + 0x1C) as u16),
        register_block_3_high: a.read_spec(addr, (off + 0x20) as u16),
    }
}

/// One register block named by a register locator: which BAR it lives in,
/// what kind of block it is, and its 64 KiB-aligned offset in that BAR.
#[derive(Clone, Copy, Debug, PartialEq, Eq, Structural)]
pub struct RegisterBlock {
    pub bir: u8,
    pub block_id: u8,
    pub offset: u64,
}

/// The block described by one (low, high) register pair.
pub open spec fn spec_register_block(low: u32, high: u32) -> RegisterBlock {
    RegisterBlock {
        bir: (low & 0x7) as u8,
        block_id: ((low >> 8) & 0xFF) as u8,
        offset: ((high as u64) << 32 | ((low & 0xFFFF_0000) as u64)) as u64,
    }
}

/// The non-empty blocks of a register locator, in register order: an entry
/// whose block-id field is zero marks an unused slot.
pub open spec fn spec_register_blocks(v: RegisterLocator) -> Seq<RegisterBlock> {
    (if ((v.register_block_1_low >> 8) & 0xFF) != 0 {
        seq![spec_register_block(v.register_block_1_low, v.register_block_1_high)]
    } else {
        Seq::empty()
    }) + (if ((v.register_block_2_low >> 8) & 0xFF) != 0 {
        seq![spec_register_block(v.register_block_2_low, v.register_block_2_high)]
    } else {
        Seq::empty()
    }) + (if ((v.register_block_3_low >> 8) & 0xFF) != 0 {
        seq![spec_register_block(v.register_block_3_low, v.register_block_3_high)]
    } else {
        Seq::empty()
    })
}

impl RegisterLocator {
    /// The offset named by the first register block.
    pub fn register_block_1_offset(&self) -> (r: u64)
        ensures
            r == ((self.register_block_1_high as u64) << 32 | ((self.register_block_1_low
                & 0xFFFF_0000) as u64)),
    {
        (self.register_block_1_high as u64) << 32 | ((self.register_block_1_low & 0xFFFF_0000)
            as u64)
    }

    /// The offset named by the second register block.
    pub fn register_block_2_offset(&self) -> (r: u64)
        ensures
            r == ((self.register_block_2_high as u64) << 32 | ((self.register_block_2_low
                & 0xFFFF_0000) as u64)),
    {
        (self.register_block_2_high as u64) << 32 | ((self.register_block_2_low & 0xFFFF_0000)
            as u64)
    }

    /// The offset named by the third register block.
    pub fn register_block_3_offset(&self) -> (r: u64)
        ensures
            r == ((self.register_block_3_high as u64) << 32 | ((self.register_block_3_low
                & 0xFFFF_0000) as u64)),
    {
        (self.register_block_3_high as u64) << 32 | ((self.register_block_3_low & 0xFFFF_0000)
            as u64)
    }

    /// The register blocks that are in use, in register order.
    pub fn blocks(&self) -> (r: Vec<RegisterBlock>)
        ensures
            r@ == spec_register_blocks(*self),
    {
        let mut out: Vec<RegisterBlock> = Vec::new();
        if ((self.register_block_1_low >> 8) & 0xFF) != 0 {
            out.push(
                RegisterBlock {
                    bir: (self.register_block_1_low & 0x7) as u8,
                    block_id: ((self.register_block_1_low >> 8) & 0xFF) as u8,
                    offset: self.register_block_1_offset(),
                },
            );
        }
        if ((self.register_block_2_low >> 8) & 0xFF) != 0 {
            out.push(
                RegisterBlock {
                    bir: (self.register_block_2_low & 0x7) as u8,
                    block_id: ((self.register_block_2_low >> 8) & 0xFF) as u8,
                    offset: self.register_block_2_offset(),
                },
            );
        }
        if ((self.register_block_3_low >> 8) & 0xFF) != 0 {
            out.push(
                RegisterBlock {
                    bir: (self.register_block_3_low & 0x7) as u8,
                    block_id: ((self.register_block_3_low >> 8) & 0xFF) as u8,
                    offset: self.register_block_3_offset(),
                },
            );
        }
        proof {
            assert(out@ =~= spec_register_blocks(*self));
        }
        out
    }
}

/// One decoded CXL DVSEC.  Tags whose layout the decoder does not read are
/// kept as bare variants; a tag outside the specification is `Unknown`,
/// reported and never fatal.
#[derive(Clone, Copy, Debug, PartialEq, Eq, Structural)]
pub enum CxlDvsec {
    Device(CxlDvsecForDevice),
    NonCXLFunctions,
    Port(CxlDvsecForPort),
    GPFPort,
    GPFDevice,
    GPFFlexBus(CxlDvsecFlexBus),
    RegisterLocator(RegisterLocator),
    MLD,
    CXLDeviceTestCapabilityAdvertisement,
    Unknown,
}

/// The DVSEC id stored in the second header word of the capability at
/// `(addr, off)`.
pub open spec fn spec_dvsec_id<A: ConfigAccess>(a: &A, addr: PciAddress, off: u16) -> u32
    recommends
        off + 8 <= u16::MAX,
{
    a.read_spec(addr, (off + 8) as u16) & 0xFFFF
}

/// The decoded DVSEC whose extended-capability header sits at `address`.
pub open spec fn spec_parse_dvsec<A: ConfigAccess>(a: &A, address: PciCapabilityAddress)
    -> CxlDvsec
    recommends
        address.offset + 0x34 <= u16::MAX,
{
    let id = spec_dvsec_id(a, address.address, address.offset);
    if id == 0x0 {
        CxlDvsec::Device(spec_dvsec_device_at(a, address.address, address.offset))
    } else if id == 0x2 {
        CxlDvsec::NonCXLFunctions
    } else if id == 0x3 {
        CxlDvsec::Port(spec_dvsec_port_at(a, address.address, address.offset))
    } else if id == 0x4 {
        CxlDvsec::GPFPort
    } else if id == 0x5 {
        CxlDvsec::GPFDevice
    } else if id == 0x7 {
        CxlDvsec::GPFFlexBus(spec_dvsec_flex_bus_at(a, address.address, address.offset))
    } else if id == 0x8 {
        CxlDvsec::RegisterLocator(spec_register_locator_at(a, address.address, address.offset))
    } else if id == 0x9 {
        CxlDvsec::MLD
    } else if id == 0xA {
        CxlDvsec::CXLDeviceTestCapabilityAdvertisement
    } else {
        CxlDvsec::Unknown
    }
}

impl CxlDvsec {
    /// Reads the DVSEC id of the capability at `address` and decodes the
    /// register layout that id selects.
    pub fn parse<A: ConfigAccess>(address: PciCapabilityAddress, access: &A) -> (r: Option<
        CxlDvsec,
    >)
        requires
            address.offset + 0x34 <= u16::MAX,
        ensures
            r == Some(spec_parse_dvsec(access, address)),
    {
        let addr = address.address;
        let off = address.offset;
        let data = access.read(addr, off + 8);
        let id = get_bits_u32(data, 0, 16);
        proof {
            assert((data >> 0) & (((1u32 << 16) - 1) as u32) == data & 0xFFFF) by (bit_vector);
        }
        if id == 0x0 {
            Some(
                CxlDvsec::Device(
                    CxlDvsecForDevice {
                        range_1_size_high: access.read(addr, off + 0x18),
                        range_1_size_low: access.read(addr, off + 0x1C),
                        range_1_base_high: access.read(addr, off + 0x20),
                        range_1_base_low: access.read(addr, off + 0x24),
                        range_2_size_high: access.read(addr, off + 0x28),
                        range_2_size_low: access.read(addr, off + 0x2C),
                        range_2_base_high: access.read(addr, off + 0x30),
                        range_2_base_low: access.read(addr, off + 0x34),
                    },
                ),
            )
        } else if id == 0x2 {
            Some(CxlDvsec::NonCXLFunctions)
        } else if id == 0x3 {
            Some(
                CxlDvsec::Port(
                    CxlDvsecForPort {
                        cxl_rcrb_base_low: access.read(addr, off + 0x20),
                        cxl_rcrb_base_high: access.read(addr, off + 0x24),
                    },
                ),
            )
        } else if id == 0x4 {
            Some(CxlDvsec::GPFPort)
        } else if id == 0x5 {
            Some(CxlDvsec::GPFDevice)
        } else if id == 0x7 {
            let cap_reg = access.read(addr, off + 0x08);
            let ctl_reg = access.read(addr, off + 0x0C);
            Some(
                CxlDvsec::GPFFlexBus(
                    CxlDvsecFlexBus {
                        capability: ((cap_reg >> 16) & 0xFFFF) as u16,
                        control: (ctl_reg & 0xFFFF) as u16,
                        status: ((ctl_reg >> 16) & 0xFFFF) as u16,
                        received_modified_ts_data_phase_1: access.read(addr, off + 0x10),
                        cap_2: access.read(addr, off + 0x14),
                        control_2: access.read(addr, off + 0x18),
                        status_2: access.read(addr, off + 0x1C),
                    },
                ),
            )
        } else if id == 0x8 {
            Some(
                CxlDvsec::RegisterLocator(
                    RegisterLocator {
                        register_block_1_low: access.read(addr, off + 0x0C),
                        register_block_1_high: access.read(addr, off + 0x10),
                        register_block_2_low: access.read(addr, off + 0x14),
                        register_block_2_high: access.read(addr, off + 0x18),
                        register_block_3_low: access.read(addr, off + 0x1C),
                        register_block_3_high: access.read(addr, off + 0x20),
                    },
                ),
            )
        } else if id == 0x9 {
            Some(CxlDvsec::MLD)
        } else if id == 0xA {
            Some(CxlDvsec::CXLDeviceTestCapabilityAdvertisement)
        } else {
            Some(CxlDvsec::Unknown)
        }
    }
}

/// Reads the negotiated link speed out of the link status and control
/// register of the PCI Express capability at `offset`.
pub fn link_speed<A: ConfigAccess>(access: &A, addr: PciAddress, offset: u16) -> (r: u8)
    requires
        offset + 0x10 <= u16::MAX,
    ensures
        r == ((access.read_spec(addr, (offset + 0x10) as u16) >> 16) & 0xF) as u8,
{
    ((access.read(addr, offset + 0x10) >> 16) & 0xF) as u8
}

/// Relies on std's `format!` macro: renders a PCI Express capability line.
#[verifier::external_body]
fn fmt_pci_capability_line(offset: u16, speed: u8) -> (r: String) {
    format!("PCI capability offset {:#x}, current speed={}", offset, speed)
}

/// Relies on std's `format!` macro: renders an unrecognised capability.
#[verifier::external_body]
fn fmt_unknown_capability_line(id: u16, offset: u16) -> (r: String) {
    format!("unknown capability id={:#x}, offset={:#x}", id, offset)
}

/// Renders one line for the PCI Express capability at `offset` with the
/// link speed currently negotiated.
pub fn print_pci_capability<A: ConfigAccess>(
    address: PciAddress,
    offset: u16,
    access: &A,
) -> (r: String)
    requires
        offset + 0x10 <= u16::MAX,
{
    let speed = link_speed(access, address, offset);
    fmt_pci_capability_line(offset, speed)
}

impl CxlDvsec {
    /// The name of the decoded DVSEC kind.
    pub fn kind_name(&self) -> (r: &'static str)
        ensures
            match self {
                CxlDvsec::Device(_) => r@ == "Device"@,
                CxlDvsec::NonCXLFunctions => r@ == "NonCXLFunctions"@,
                CxlDvsec::Port(_) => r@ == "Port"@,
                CxlDvsec::GPFPort => r@ == "GPFPort"@,
                CxlDvsec::GPFDevice => r@ == "GPFDevice"@,
                CxlDvsec::GPFFlexBus(_) => r@ == "GPFFlexBus"@,
                CxlDvsec::RegisterLocator(_) => r@ == "RegisterLocator"@,
                CxlDvsec::MLD => r@ == "MLD"@,
                CxlDvsec::CXLDeviceTestCapabilityAdvertisement => r@
                    == "CXLDeviceTestCapabilityAdvertisement"@,
                CxlDvsec::Unknown => r@ == "Unknown"@,
            },
    {
        match self {
            CxlDvsec::Device(_) => "Device",
            CxlDvsec::NonCXLFunctions => "NonCXLFunctions",
            CxlDvsec::Port(_) => "Port",
            CxlDvsec::GPFPort => "GPFPort",
            CxlDvsec::GPFDevice => "GPFDevice",
            CxlDvsec::GPFFlexBus(_) => "GPFFlexBus",
            CxlDvsec::RegisterLocator(_) => "RegisterLocator",
            CxlDvsec::MLD => "MLD",
            CxlDvsec::CXLDeviceTestCapabilityAdvertisement => {
                "CXLDeviceTestCapabilityAdvertisement"
            },
            CxlDvsec::Unknown => "Unknown",
        }
    }
}

/// Relies on std's `format!` macro: renders one HDM range.
#[verifier::external_body]
fn fmt_hdm_range_line(which: u8, base: u64, size: u64) -> (r: String) {
    format!("CXL DVSEC for device: range {} {:#018x}[{:#x}]", which, base, size)
}

/// Relies on std's `format!` macro: renders a port's RCRB base.
#[verifier::external_body]
fn fmt_port_line(rcrb_base: u64) -> (r: String) {
    format!("CXL DVSEC for port: rcrb_base={:#018x}", rcrb_base)
}

/// Relies on std's `format!` macro: renders flex-bus words.
#[verifier::external_body]
fn fmt_flex_bus_line(capability: u16, control: u16, status: u16) -> (r: String) {
    format!(
        "CXL GPF flex bus: capability={:#06x}, control={:#06x}, status={:#06x}",
        capability,
        control,
        status,
    )
}

/// Relies on std's `format!` macro: renders one register block.
#[verifier::external_body]
fn fmt_register_block_line(bir: u8, block_id: u8, offset: u64) -> (r: String) {
    format!("BAR {}: block id {:#x} [{:#018x}]", bir, block_id, offset)
}

/// Relies on std's `format!` macro: renders a bare DVSEC kind name.
#[verifier::external_body]
fn fmt_dvsec_kind_line(kind: &str) -> (r: String) {
    format!("CXL DVSEC {}", kind)
}

/// Renders a report of one decoded DVSEC: both ranges for a device, the
/// RCRB base for a port, the main words for a flex bus, one line per
/// in-use register block after a heading for a register locator, and the
/// kind name for everything else.
pub fn print_dvsec_capability(dvsec: &CxlDvsec) -> (r: Vec<String>)
    ensures
        r@.len() == match dvsec {
            CxlDvsec::Device(_) => 2int,
            CxlDvsec::Port(_) => 1int,
            CxlDvsec::GPFFlexBus(_) => 1int,
            CxlDvsec::RegisterLocator(v) => 1 + spec_register_blocks(*v).len() as int,
            _ => 1int,
        },
{
    let mut lines: Vec<String> = Vec::new();
    match dvsec {
        CxlDvsec::Device(v) => {
            let r1 = v.range_1();
            let r2 = v.range_2();
            lines.push(fmt_hdm_range_line(1, r1.base, r1.size));
            lines.push(fmt_hdm_range_line(2, r2.base, r2.size));
        },
        CxlDvsec::Port(v) => {
            lines.push(fmt_port_line(v.get_cxl_rcrb_base()));
        },
        CxlDvsec::GPFFlexBus(v) => {
            lines.push(fmt_flex_bus_line(v.capability, v.control, v.status));
        },
        CxlDvsec::RegisterLocator(v) => {
            lines.push(fmt_dvsec_kind_line(dvsec.kind_name()));
            let blocks = v.blocks();
            let mut i: usize = 0;
            while i < blocks.len()
                invariant
                    i <= blocks@.len(),
                    blocks@.len() == spec_register_blocks(*v).len(),
                    lines@.len() == 1 + i,
                decreases blocks@.len() - i,
            {
                let b = blocks[i];
                lines.push(fmt_register_block_line(b.bir, b.block_id, b.offset));
                i = i + 1;
            }
        },
        _ => {
            lines.push(fmt_dvsec_kind_line(dvsec.kind_name()));
        },
    }
    lines
}

/// Renders one line per capability of the function at `addr`: its legacy
/// capability list first, then its extended capability list, each entry
/// described by what the decoder makes of it.
pub fn print_capabilities<A: ConfigAccess>(access: &A, addr: PciAddress) -> (r: Vec<String>)
    ensures
        r@.len() == spec_capability_chain(
            access,
            addr,
            (access.read_spec(addr, 0x34) & 0xFF) as u16,
            CAP_WALK_FUEL as nat,
        ).len() + spec_extended_capability_chain(
            access,
            addr,
            EXTENDED_CAPABILITIES_START,
            CAP_WALK_FUEL as nat,
        ).len(),
{
    let caps = read_capabilities(access, addr);
    let ext_caps = read_extended_capabilities(access, addr);
    let mut lines: Vec<String> = Vec::new();
    let mut i: usize = 0;
    while i < caps.len()
        invariant
            i <= caps@.len(),
            lines@.len() == i,
        decreases caps@.len() - i,
    {
        let c = caps[i];
        if c.id == 0x10 && c.offset <= 0xFFEF {
            lines.push(print_pci_capability(addr, c.offset, access));
        } else {
            lines.push(fmt_unknown_capability_line(c.id as u16, c.offset));
        }
        i = i + 1;
    }
    let mut j: usize = 0;
    while j < ext_caps.len()
        invariant
            j <= ext_caps@.len(),
            lines@.len() == caps@.len() + j,
        decreases ext_caps@.len() - j,
    {
        let c = ext_caps[j];
        if c.id == 0x23 && c.offset <= 0xFFCB {
            let parsed = CxlDvsec::parse(
                PciCapabilityAddress { address: addr, offset: c.offset },
                access,
            );
            match parsed {
                Some(dvsec) => {
                    lines.push(fmt_dvsec_kind_line(dvsec.kind_name()));
                },
                None => {
                    lines.push(fmt_unknown_capability_line(c.id, c.offset));
                },
            }
        } else {
            lines.push(fmt_unknown_capability_line(c.id, c.offset));
        }
        j = j + 1;
    }
    lines
}

} // verus!
