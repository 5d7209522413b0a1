//! CXL component registers: the CXL.cachemem capability array and the HDM
//! decoder register blocks that live behind it.
//!
//! Unlike the firmware tables and the PCI capability lists, this chain is
//! not length-chained: a header at the start of the region gives an entry
//! count, entries sit at a fixed four-byte stride, and each entry points
//! at its register block by an absolute byte offset from the region base.
//!
//! The region itself is reached through the `RegisterRegion` trait, one
//! aligned 32-bit word per read; `RegisterImage` is a memory-backed
//! implementation for synthetic register blocks.

use vstd::prelude::*;

verus! {

/// Read access to a memory-mapped register region, indexed by 32-bit word.
///
/// An implementation decides what word sits at each index; the contract
/// only ties the executable read to that decision, so everything proved
/// over this trait holds for any implementation.
pub trait RegisterRegion {
    /// The 32-bit word this region holds at word index `index`.
    /// The default stands in for implementations that live outside
    /// the verifier's view; every implementation verified here overrides it.
    open spec fn reg_spec(&self, index: int) -> u32 {
        0
    }

    /// Performs one aligned volatile 32-bit read.
    fn read_reg(&self, index: usize) -> (r: u32)
        ensures
            r == self.reg_spec(index as int),
    ;
}

/// A memory-backed register region: synthetic register blocks for tests.
/// Words outside the image read as all-ones, like a faulted MMIO read.
pub struct RegisterImage {
    regs: Vec<u32>,
}

impl RegisterImage {
    /// The words held by the image.
    pub closed spec fn regs_view(&self) -> Seq<u32> {
        self.regs@
    }

    /// Wraps a word image.
    pub fn new(regs: Vec<u32>) -> (r: RegisterImage)
        ensures
            r.regs_view() == regs@,
    {
        RegisterImage { regs }
    }
}

impl RegisterRegion for RegisterImage {
    open spec fn reg_spec(&self, index: int) -> u32 {
        if 0 <= index < self.regs_view().len() {
            self.regs_view()[index]
        } else {
            0xFFFF_FFFF
        }
    }

    fn read_reg(&self, index: usize) -> (r: u32)
        ensures
            r == self.reg_spec(index as int),
    {
        if index < self.regs.len() {
            self.regs[index]
        } else {
            0xFFFF_FFFF
        }
    }
}

/// The header word that opens the CXL.cachemem capability array: a
/// capability id, two version fields, and the entry count of the array.
#[derive(Clone, Copy, Debug, PartialEq, Eq, Structural)]
pub struct CXLCapabilityHeader {
    pub bits: u32,
}

impl CXLCapabilityHeader {
    /// The capability id in the low sixteen bits.
    pub fn cxl_capability_id(&self) -> (r: u16)
        ensures
            r == (self.bits & 0xFFFF) as u16,
    {
        (self.bits & 0xFFFF) as u16
    }

    /// The capability version field.
    pub fn cxl_capability_version(&self) -> (r: u8)
        ensures
            r == ((self.bits >> 16) & 0xF) as u8,
    {
        ((self.bits >> 16) & 0xF) as u8
    }

    /// The CXL.cachemem version field.
    pub fn cxl_cache_mem_version(&self) -> (r: u8)
        ensures
            r == ((self.bits >> 20) & 0xF) as u8,
    {
        ((self.bits >> 20) & 0xF) as u8
    }

    /// The number of entries that follow the header.
    pub fn get_len(&self) -> (r: usize)
        ensures
            r == ((self.bits >> 24) & 0xFF) as usize,
    {
        ((self.bits >> 24) & 0xFF) as usize
    }
}

/// One entry of the capability array: a capability id, a version, and the
/// absolute byte offset of its register block from the region base.
#[derive(Clone, Copy, Debug, PartialEq, Eq, Structural)]
pub struct GeneralCXLCapabilityHeader {
    pub bits: u32,
}

impl GeneralCXLCapabilityHeader {
    /// The capability id in the low sixteen bits.
    pub fn get_type(&self) -> (r: usize)
        ensures
            r == (self.bits & 0xFFFF) as usize,
    {
        (self.bits & 0xFFFF) as usize
    }

    /// The version field.
    pub fn get_version(&self) -> (r: u8)
        ensures
            r == ((self.bits >> 16) & 0xF) as u8,
    {
        ((self.bits >> 16) & 0xF) as u8
    }

    /// The absolute byte offset of the capability's register block.
    pub fn get_pointer(&self) -> (r: usize)
        ensures
            r == ((self.bits >> 20) & 0xFFF) as usize,
    {
        ((self.bits >> 20) & 0xFFF) as usize
    }
}

/// The same entry word under the name the capability walker uses.
#[derive(Clone, Copy, Debug, PartialEq, Eq, Structural)]
pub struct CXLAbstractCapabilitiesHeader {
    pub bits: u32,
}

impl CXLAbstractCapabilitiesHeader {
    /// The capability id in the low sixteen bits.
    pub fn id(&self) -> (r: u16)
        ensures
            r == (self.bits & 0xFFFF) as u16,
    {
        (self.bits & 0xFFFF) as u16
    }

    /// The version field.
    pub fn version(&self) -> (r: u8)
        ensures
            r == ((self.bits >> 16) & 0xF) as u8,
    {
        ((self.bits >> 16) & 0xF) as u8
    }

    /// The absolute byte offset of the capability's register block.
    pub fn offset(&self) -> (r: u16)
        ensures
            r == ((self.bits >> 20) & 0xFFF) as u16,
    {
        ((self.bits >> 20) & 0xFFF) as u16
    }
}

/// RAS capability register block.
#[derive(Clone, Copy, Debug, PartialEq, Eq, Structural)]
pub struct RASReg {}

/// Security capability register block.
#[derive(Clone, Copy, Debug, PartialEq, Eq, Structural)]
pub struct SecurityReg {}

/// Link capability register block: the byte offset of its registers.
#[derive(Clone, Copy, Debug, PartialEq, Eq, Structural)]
pub struct LinkReg {
    pub offset: u16,
}

/// HDM decoder capability register block: its version and the byte offset
/// of its registers.
#[derive(Clone, Copy, Debug, PartialEq, Eq, Structural)]
pub struct HDMDecorderReg {
    pub version: u8,
    pub offset: u16,
}

/// Extended security capability register block.
#[derive(Clone, Copy, Debug, PartialEq, Eq, Structural)]
pub struct ExtendedSecurtiyReg {
    pub offset: u16,
}

/// IDE capability register block.
#[derive(Clone, Copy, Debug, PartialEq, Eq, Structural)]
pub struct IDEReg {}

/// Snoop filter capability register block.
#[derive(Clone, Copy, Debug, PartialEq, Eq, Structural)]
pub struct SnoopFilterReg {}

/// Timeout and isolation capability register block.
#[derive(Clone, Copy, Debug, PartialEq, Eq, Structural)]
pub struct TimeoutAndIsolationReg {}

/// CXL.cachemem extended register capability block.
#[derive(Clone, Copy, Debug, PartialEq, Eq, Structural)]
pub struct CacheMemExtendedRegisterReg {}

/// BI route table capability register block.
#[derive(Clone, Copy, Debug, PartialEq, Eq, Structural)]
pub struct BIRouteTableReg {}

/// BI decoder capability register block.
#[derive(Clone, Copy, Debug, PartialEq, Eq, Structural)]
pub struct BIDecoderReg {}

/// Cache id route table capability register block.
#[derive(Clone, Copy, Debug, PartialEq, Eq, Structural)]
pub struct CacheIdRouteTableReg {}

/// Cache id decoder capability register block.
#[derive(Clone, Copy, Debug, PartialEq, Eq, Structural)]
pub struct CacheIdDecoderReg {}

/// Extended HDM decoder capability register block.
#[derive(Clone, Copy, Debug, PartialEq, Eq, Structural)]
pub struct ExtendedHDMDecoderReg {}

/// Extended metadata capability register block.
#[derive(Clone, Copy, Debug, PartialEq, Eq, Structural)]
pub struct ExtendedMetaDataReg {}

/// One classified entry of the CXL.cachemem capability array.  Ids that
/// the decoder does not recognise are retained with their id and version:
/// new hardware introduces new extension ids and they must be reportable,
/// never fatal.
#[derive(Clone, Copy, Debug, PartialEq, Eq, Structural)]
pub enum CXLCapability {
    Null,
    CXL,
    RAS(RASReg),
    Security(SecurityReg),
    Link(LinkReg),
    HDMDecorder(HDMDecorderReg),
    ExtendedSecurtiy(ExtendedSecurtiyReg),
    IDE(IDEReg),
    SnoopFilter(SnoopFilterReg),
    TimeoutAndIsolation(TimeoutAndIsolationReg),
    CacheMemExtendedRegister(CacheMemExtendedRegisterReg),
    BIRouteTable(BIRouteTableReg),
    BIDecoder(BIDecoderReg),
    CacheIdRouteTable(CacheIdRouteTableReg),
    CacheIdDecoder(CacheIdDecoderReg),
    ExtendedHDMDecoder(ExtendedHDMDecoderReg),
    ExtendedMetaData(ExtendedMetaDataReg),
    Unknown { id: u16, version: u8 },
}

/// The classification of one capability-array entry word.
pub open spec fn spec_parse_capability(bits: u32) -> CXLCapability {
    let id = (bits & 0xFFFF) as u16;
    let version = ((bits >> 16) & 0xF) as u8;
    let offset = ((bits >> 20) & 0xFFF) as u16;
    if id == 0x0 {
        CXLCapability::Null
    } else if id == 0x1 {
        CXLCapability::CXL
    } else if id == 0x2 {
        CXLCapability::RAS(RASReg {})
    } else if id == 0x3 {
        CXLCapability::Security(SecurityReg {})
    } else if id == 0x4 {
        CXLCapability::Link(LinkReg { offset })
    } else if id == 0x5 {
        CXLCapability::HDMDecorder(HDMDecorderReg { version, offset })
    } else if id == 0x6 {
        CXLCapability::ExtendedSecurtiy(ExtendedSecurtiyReg { offset })
    } else if id == 0x7 {
        CXLCapability::IDE(IDEReg {})
    } else if id == 0x8 {
        CXLCapability::SnoopFilter(SnoopFilterReg {})
    } else if id == 0x9 {
        CXLCapability::TimeoutAndIsolation(TimeoutAndIsolationReg {})
    } else if id == 0xa {
        CXLCapability::CacheMemExtendedRegister(CacheMemExtendedRegisterReg {})
    } else if id == 0xb {
        CXLCapability::BIRouteTable(BIRouteTableReg {})
    } else if id == 0xc {
        CXLCapability::BIDecoder(BIDecoderReg {})
    } else if id == 0xd {
        CXLCapability::CacheIdRouteTable(CacheIdRouteTableReg {})
    } else if id == 0xe {
        CXLCapability::CacheIdDecoder(CacheIdDecoderReg {})
    } else if id == 0xf {
        CXLCapability::ExtendedHDMDecoder(ExtendedHDMDecoderReg {})
    } else if id == 0x10 {
        CXLCapability::ExtendedMetaData(ExtendedMetaDataReg {})
    } else {
        CXLCapability::Unknown { id, version }
    }
}

impl CXLCapability {
    /// Classifies one capability-array entry word.
    pub fn parse(header: &CXLAbstractCapabilitiesHeader) -> (r: Option<CXLCapability>)
        ensures
            r == Some(spec_parse_capability(header.bits)),
    {
        let id = header.id();
        let version = header.version();
        let offset = header.offset();
        if id == 0x0 {
            Some(CXLCapability::Null)
        } else if id == 0x1 {
            Some(CXLCapability::CXL)
        } else if id == 0x2 {
            Some(CXLCapability::RAS(RASReg {}))
        } else if id == 0x3 {
            Some(CXLCapability::Security(SecurityReg {}))
        } else if id == 0x4 {
            Some(CXLCapability::Link(LinkReg { offset }))
        } else if id == 0x5 {
            Some(CXLCapability::HDMDecorder(HDMDecorderReg { version, offset }))
        } else if id == 0x6 {
            Some(CXLCapability::ExtendedSecurtiy(ExtendedSecurtiyReg { offset }))
        } else if id == 0x7 {
            Some(CXLCapability::IDE(IDEReg {}))
        } else if id == 0x8 {
            Some(CXLCapability::SnoopFilter(SnoopFilterReg {}))
        } else if id == 0x9 {
            Some(CXLCapability::TimeoutAndIsolation(TimeoutAndIsolationReg {}))
        } else if id == 0xa {
            Some(CXLCapability::CacheMemExtendedRegister(CacheMemExtendedRegisterReg {}))
        } else if id == 0xb {
            Some(CXLCapability::BIRouteTable(BIRouteTableReg {}))
        } else if id == 0xc {
            Some(CXLCapability::BIDecoder(BIDecoderReg {}))
        } else if id == 0xd {
            Some(CXLCapability::CacheIdRouteTable(CacheIdRouteTableReg {}))
        } else if id == 0xe {
            Some(CXLCapability::CacheIdDecoder(CacheIdDecoderReg {}))
        } else if id == 0xf {
            Some(CXLCapability::ExtendedHDMDecoder(ExtendedHDMDecoderReg {}))
        } else if id == 0x10 {
            Some(CXLCapability::ExtendedMetaData(ExtendedMetaDataReg {}))
        } else {
            Some(CXLCapability::Unknown { id, version })
        }
    }
}

/// A cursor over the capability array: the next entry index and the entry
/// count announced by the header word.
#[derive(Clone, Copy, Debug, PartialEq, Eq, Structural)]
pub struct CXLCapabilityIterator {
    pub offset: u16,
    pub size: u8,
}

impl CXLCapabilityIterator {
    /// Starts a walk over the capability array at the base of `region`:
    /// the first entry sits one word after the header, and the header's
    /// array-size field says how many entries follow.
    pub fn new<R: RegisterRegion>(region: &R) -> (r: Option<CXLCapabilityIterator>)
        ensures
            r == Some(
                CXLCapabilityIterator {
                    offset: 1u16,
                    size: ((region.reg_spec(0) >> 24) & 0xFF) as u8,
                },
            ),
    {
        let header = CXLCapabilityHeader { bits: region.read_reg(0) };
        let size = ((header.bits >> 24) & 0xFF) as u8;
        Some(CXLCapabilityIterator { offset: 1, size })
    }

    /// Classifies the next entry and advances, or reports the end of the
    /// array and stays put.
    pub fn next<R: RegisterRegion>(&mut self, region: &R) -> (r: Option<CXLCapability>)
        ensures
            old(self).offset > old(self).size ==> r is None && *final(self) == *old(self),
            old(self).offset <= old(self).size ==> {
                &&& r == Some(
                    spec_parse_capability(region.reg_spec(old(self).offset as int)),
                )
                &&& final(self).offset == old(self).offset + 1
                &&& final(self).size == old(self).size
            },
    {
        if self.offset > self.size as u16 {
            return None;
        }
        let data = CXLAbstractCapabilitiesHeader { bits: region.read_reg(self.offset as usize) };
        let result = CXLCapability::parse(&data);
        self.offset = self.offset + 1;
        result
    }
}

/// The classified entries at indices `i..=size` of the capability array.
pub open spec fn spec_capabilities_from<R: RegisterRegion>(region: &R, i: int, size: int) -> Seq<
    CXLCapability,
>
    decreases size + 1 - i,
{
    if i < 0 || i > size {
        Seq::empty()
    } else {
        seq![spec_parse_capability(region.reg_spec(i))] + spec_capabilities_from(
            region,
            i + 1,
            size,
        )
    }
}

/// Walks the whole capability array and classifies every entry, in array
/// order.
pub fn read_cxl_capabilities<R: RegisterRegion>(region: &R) -> (r: Vec<CXLCapability>)
    ensures
        r@ == spec_capabilities_from(
            region,
            1,
            (((region.reg_spec(0) >> 24) & 0xFF) as u8) as int,
        ),
{
    let ghost size = (((region.reg_spec(0) >> 24) & 0xFF) as u8) as int;
    let mut it = match CXLCapabilityIterator::new(region) {
        Some(it) => it,
        None => {
            return Vec::new();
        },
    };
    let mut out: Vec<CXLCapability> = Vec::new();
    proof {
        assert(Seq::<CXLCapability>::empty() + spec_capabilities_from(region, 1, size)
            =~= spec_capabilities_from(region, 1, size));
    }
    loop
        invariant
            size == (((region.reg_spec(0) >> 24) & 0xFF) as u8) as int,
            1 <= it.offset,
            it.offset <= it.size + 1,
            it.size == size,
            out@ + spec_capabilities_from(region, it.offset as int, size)
                == spec_capabilities_from(region, 1, size),
        decreases it.size + 1 - it.offset,
    {
        let ghost before = it.offset as int;
        match it.next(region) {
            Some(cap) => {
                proof {
                    assert((out@ + spec_capabilities_from(region, before, size)) =~= (out@.push(
                        cap,
                    ) + spec_capabilities_from(region, before + 1, size)));
                }
                out.push(cap);
            },
            None => {
                proof {
                    assert(spec_capabilities_from(region, before, size)
                        =~= Seq::<CXLCapability>::empty());
                    assert(out@ + Seq::<CXLCapability>::empty() =~= out@);
                }
                return out;
            },
        }
    }
}

/// The bit fields of the HDM decoder capability register.
#[derive(Clone, Copy, Debug, PartialEq, Eq, Structural)]
pub struct CXLHDMDecoderCapabilityRegister {
    pub bits: u32,
}

impl CXLHDMDecoderCapabilityRegister {
    /// The encoded decoder count in the low four bits.
    pub fn decoder_count(&self) -> (r: usize)
        ensures
            r == (self.bits & 0xF) as usize,
    {
        (self.bits & 0xF) as usize
    }

    /// The encoded target count.
    pub fn target_count(&self) -> (r: usize)
        ensures
            r == ((self.bits >> 4) & 0xF) as usize,
    {
        ((self.bits >> 4) & 0xF) as usize
    }
}

/// The bit fields of the HDM decoder global control register.
#[derive(Clone, Copy, Debug, PartialEq, Eq, Structural)]
pub struct CXLHDMDecoderGlobalControlRegister {
    pub bits: u32,
}

impl CXLHDMDecoderGlobalControlRegister {
    /// The capability-id bit.
    pub fn cxl_capability_id(&self) -> (r: bool)
        ensures
            r == (self.bits & 1 == 1),
    {
        self.bits & 1 == 1
    }

    /// Whether the HDM decoders are enabled.
    pub fn hdm_decoder_enable(&self) -> (r: bool)
        ensures
            r == ((self.bits >> 1) & 1 == 1),
    {
        (self.bits >> 1) & 1 == 1
    }
}

/// The number of decoders a decoder-count encoding denotes.
pub open spec fn spec_decoder_count(encoded: u32) -> u8 {
    if encoded == 0x0 {
        1
    } else if encoded == 0x1 {
        2
    } else if encoded == 0x2 {
        4
    } else if encoded == 0x3 {
        6
    } else if encoded == 0x4 {
        8
    } else if encoded == 0x5 {
        10
    } else if encoded == 0x6 {
        12
    } else if encoded == 0x7 {
        14
    } else if encoded == 0x8 {
        16
    } else if encoded == 0x9 {
        20
    } else if encoded == 0xa {
        24
    } else if encoded == 0xb {
        28
    } else if encoded == 0xc {
        32
    } else {
        0
    }
}

/// The first two words of the HDM decoder capability block.
#[derive(Clone, Copy, Debug, PartialEq, Eq, Structural)]
pub struct HdmDecoderCapability {
    pub register: u32,
    pub global_control: u32,
}

/// Word span of the fixed part of the HDM decoder capability block.
pub const HDM_CAPABILITY_WORDS: usize = 4;

/// Word span of one HDM decoder entry.
pub const HDM_DECODER_ENTRY_WORDS: usize = 8;

/// One HDM decoder register entry: base, size and target list, each split
/// into 32-bit halves, plus the control word.
#[derive(Clone, Copy, Debug, PartialEq, Eq, Structural)]
pub struct HdmDecoderEntry {
    pub base_low: u32,
    pub base_high: u32,
    pub size_low: u32,
    pub size_high: u32,
    pub control: u32,
    pub target_low: u32,
    pub target_high: u32,
}

impl HdmDecoderEntry {
    /// The decoded base address: the high half over the aligned part of
    /// the low half (bases are 256 MiB aligned, so only the top four bits
    /// of the low half carry address).
    pub fn base(&self) -> (r: u64)
        ensures
            r == ((self.base_high as u64) << 32 | ((self.base_low & 0xF000_0000) as u64)),
    {
        (self.base_high as u64) << 32 | ((self.base_low & 0xF000_0000) as u64)
    }

    /// The decoded size, under the same 256 MiB-aligned convention.
    pub fn size(&self) -> (r: u64)
        ensures
            r == ((self.size_high as u64) << 32 | ((self.size_low & 0xF000_0000) as u64)),
    {
        (self.size_high as u64) << 32 | ((self.size_low & 0xF000_0000) as u64)
    }
}

/// The decoder entry whose seven words start at word index `base`.
pub open spec fn spec_hdm_entry_at<R: RegisterRegion>(region: &R, base: int) -> HdmDecoderEntry {
    HdmDecoderEntry {
        base_low: region.reg_spec(base),
        base_high: region.reg_spec(base + 1),
        size_low: region.reg_spec(base + 2),
        size_high: region.reg_spec(base + 3),
        control: region.reg_spec(base + 4),
        target_low: region.reg_spec(base + 5),
        target_high: region.reg_spec(base + 6),
    }
}

impl HdmDecoderCapability {
    /// Reads the two capability words at word index `index` of the region.
    pub fn read_from<R: RegisterRegion>(region: &R, index: usize) -> (r: HdmDecoderCapability)
        requires
            index + 1 <= usize::MAX,
        ensures
            r.register == region.reg_spec(index as int),
            r.global_control == region.reg_spec(index as int + 1),
    {
        HdmDecoderCapability {
            register: region.read_reg(index),
            global_control: region.read_reg(index + 1),
        }
    }

    /// The number of decoder entries the capability announces.
    pub fn decoder_count(&self) -> (r: u8)
        ensures
            r == spec_decoder_count(self.register & 0xF),
    {
        let encoded = self.register & 0xF;
        if encoded == 0x0 {
            1
        } else if encoded == 0x1 {
            2
        } else if encoded == 0x2 {
            4
        } else if encoded == 0x3 {
            6
        } else if encoded == 0x4 {
            8
        } else if encoded == 0x5 {
            10
        } else if encoded == 0x6 {
            12
        } else if encoded == 0x7 {
            14
        } else if encoded == 0x8 {
            16
        } else if encoded == 0x9 {
            20
        } else if encoded == 0xa {
            24
        } else if encoded == 0xb {
            28
        } else if encoded == 0xc {
            32
        } else {
            0
        }
    }

    /// Reads the decoder entries that follow a capability block at word
    /// index `index`: as many fixed-size entries as the capability
    /// announces, each one 0x20 bytes after the last.
    pub fn decoders<R: RegisterRegion>(&self, region: &R, index: usize) -> (r: Vec<
        HdmDecoderEntry,
    >)
        requires
            index + HDM_CAPABILITY_WORDS + 32 * HDM_DECODER_ENTRY_WORDS <= usize::MAX,
        ensures
            r@.len() == spec_decoder_count(self.register & 0xF),
            forall|i: int|
                0 <= i < r@.len() ==> r@[i] == spec_hdm_entry_at(
                    region,
                    index + HDM_CAPABILITY_WORDS + i * HDM_DECODER_ENTRY_WORDS,
                ),
    {
        let count = self.decoder_count() as usize;
        let mut out: Vec<HdmDecoderEntry> = Vec::new();
        let mut i: usize = 0;
        while i < count
            invariant
                i <= count,
                count == spec_decoder_count(self.register & 0xF),
                count <= 32,
                index + HDM_CAPABILITY_WORDS + 32 * HDM_DECODER_ENTRY_WORDS <= usize::MAX,
                out@.len() == i,
                forall|j: int|
                    0 <= j < i ==> out@[j] == spec_hdm_entry_at(
                        region,
                        index + HDM_CAPABILITY_WORDS + j * HDM_DECODER_ENTRY_WORDS,
                    ),
            decreases count - i,
        {
            let base = index + HDM_CAPABILITY_WORDS + i * HDM_DECODER_ENTRY_WORDS;
            let e = HdmDecoderEntry {
                base_low: region.read_reg(base),
                base_high: region.read_reg(base + 1),
                size_low: region.read_reg(base + 2),
                size_high: region.read_reg(base + 3),
                control: region.read_reg(base + 4),
                target_low: region.read_reg(base + 5),
                target_high: region.read_reg(base + 6),
            };
            out.push(e);
            i = i + 1;
        }
        out
    }
}

/// The registers a root-complex-host downstream port exposes at the start
/// of its root complex register block.
#[derive(Clone, Copy, Debug, PartialEq, Eq, Structural)]
pub struct RCHDownstreamPortRCRB {
    pub null_extended_capability: u16,
    pub version: u8,
    pub next_capability_offset: u16,
    pub command: u16,
    pub status: u16,
    pub revision_id: u8,
    pub class_code: u32,
    pub cache_line_size: u8,
    pub header_type: u8,
    pub bar0: u64,
}

impl RCHDownstreamPortRCRB {
    /// Splits the first six words of a downstream port's register block
    /// into its fields.
    pub fn from_regs(reg0: u32, reg1: u32, reg2: u32, reg3: u32, reg4: u32, reg5: u32) -> (r:
        RCHDownstreamPortRCRB)
        ensures
            r.null_extended_capability == (reg0 & 0xFFFF) as u16,
            r.version == ((reg0 >> 16) & 0xF) as u8,
            r.next_capability_offset == ((reg0 >> 20) & 0xFFF) as u16,
            r.command == (reg1 & 0xFFFF) as u16,
            r.status == ((reg1 >> 16) & 0xFFFF) as u16,
            r.revision_id == (reg2 & 0xFF) as u8,
            r.class_code == reg2 >> 8,
            r.cache_line_size == (reg3 & 0xFF) as u8,
            r.header_type == ((reg3 >> 16) & 0xFF) as u8,
            r.bar0 == ((reg5 as u64) << 32 | (reg4 as u64)),
    {
        RCHDownstreamPortRCRB {
            null_extended_capability: (reg0 & 0xFFFF) as u16,
            version: ((reg0 >> 16) & 0xF) as u8,
            next_capability_offset: ((reg0 >> 20) & 0xFFF) as u16,
            command: (reg1 & 0xFFFF) as u16,
            status: ((reg1 >> 16) & 0xFFFF) as u16,
            revision_id: (reg2 & 0xFF) as u8,
            class_code: reg2 >> 8,
            cache_line_size: (reg3 & 0xFF) as u8,
            header_type: ((reg3 >> 16) & 0xFF) as u8,
            bar0: (reg5 as u64) << 32 | (reg4 as u64),
        }
    }

    /// Reads the six words at word index `index` of a mapped register
    /// block and splits them into fields.
    pub fn from_base<R: RegisterRegion>(region: &R, index: usize) -> (r: RCHDownstreamPortRCRB)
        requires
            index + 6 <= usize::MAX,
        ensures
            r == Self::spec_from_base(region, index as int),
    {
        Self::from_regs(
            region.read_reg(index),
            region.read_reg(index + 1),
            region.read_reg(index + 2),
            region.read_reg(index + 3),
            region.read_reg(index + 4),
            region.read_reg(index + 5),
        )
    }

    /// The decoded form of the six words at word index `index`.
    pub open spec fn spec_from_base<R: RegisterRegion>(region: &R, index: int)
        -> RCHDownstreamPortRCRB {
        let reg0 = region.reg_spec(index);
        let reg1 = region.reg_spec(index + 1);
        let reg2 = region.reg_spec(index + 2);
        let reg3 = region.reg_spec(index + 3);
        let reg4 = region.reg_spec(index + 4);
        let reg5 = region.reg_spec(index + 5);
        RCHDownstreamPortRCRB {
            null_extended_capability: (reg0 & 0xFFFF) as u16,
            version: ((reg0 >> 16) & 0xF) as u8,
            next_capability_offset: ((reg0 >> 20) & 0xFFF) as u16,
            command: (reg1 & 0xFFFF) as u16,
            status: ((reg1 >> 16) & 0xFFFF) as u16,
            revision_id: (reg2 & 0xFF) as u8,
            class_code: reg2 >> 8,
            cache_line_size: (reg3 & 0xFF) as u8,
            header_type: ((reg3 >> 16) & 0xFF) as u8,
            bar0: ((reg5 as u64) << 32 | (reg4 as u64)) as u64,
        }
    }
}

} // verus!
