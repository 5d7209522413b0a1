//! The Static Resource Affinity Table.
//!
//! The SRAT enumerates proximity domains for processors and memory.  It is
//! walked with the same fixed-record algorithm as the CEDT but carries its
//! own record taxonomy.  Only parsing and address reconstruction are
//! provided here; wiring the memory-affinity ranges into the memory mapper
//! is left to the caller.

use vstd::prelude::*;

use crate::bytes::{le16_at, le32_at, le64_at, read_u8, read_u16, read_u32, read_u64};
use crate::tables::{
    lemma_walk_bounds, rec_in_bounds, spec_walk, table_wf, walk, RawRecord, SdtHeader,
    SDT_HEADER_LEN,
};
use crate::{frame_range, CxlError, PhysFrameRange, PAGE_SIZE};

verus! {

/// The Static Resource Affinity Table, held as its raw bytes.
pub struct SRAT {
    bytes: Vec<u8>,
}

/// The four bytes that open every SRAT record.
#[derive(Clone, Copy, Debug, PartialEq, Eq, Structural)]
pub struct SratStructureHeader {
    /// Raw type tag; unknown kinds remain representable and skippable.
    pub typ: u8,
    /// Second header byte (reserved by the record formats).
    pub typ_2: u8,
    /// Declared byte span of the whole record.
    pub length: u16,
}

/// The record header stored at byte offset `off` of the table.
pub open spec fn spec_srat_header_at(t: Seq<u8>, off: int) -> SratStructureHeader {
    SratStructureHeader { typ: t[off], typ_2: t[off + 1], length: le16_at(t, off + 2) }
}

/// The fixed fields that open the table itself, as the firmware lays them
/// out: the system description header followed by twelve reserved bytes.
#[derive(Clone, Copy, Debug, PartialEq, Eq, Structural)]
pub struct SratFormat {
    pub signature: u32,
    pub length: u32,
    pub revision: u8,
    pub checksum: u8,
    pub oem_table_id: u64,
    pub oem_revision: u32,
    pub creator_id: u32,
    pub creator_revision: u32,
}

impl SratFormat {
    /// Copies the table-opening fields out of the raw bytes.
    pub fn decode(bytes: &Vec<u8>) -> (r: SratFormat)
        requires
            bytes@.len() >= SDT_HEADER_LEN,
        ensures
            r.signature == le32_at(bytes@, 0),
            r.length == le32_at(bytes@, 4),
            r.revision == bytes@[8],
            r.checksum == bytes@[9],
            r.oem_table_id == le64_at(bytes@, 16),
            r.oem_revision == le32_at(bytes@, 24),
            r.creator_id == le32_at(bytes@, 28),
            r.creator_revision == le32_at(bytes@, 32),
    {
        assert(SDT_HEADER_LEN <= bytes.len());
        SratFormat {
            signature: read_u32(bytes, 0),
            length: read_u32(bytes, 4),
            revision: read_u8(bytes, 8),
            checksum: read_u8(bytes, 9),
            oem_table_id: read_u64(bytes, 16),
            oem_revision: read_u32(bytes, 24),
            creator_id: read_u32(bytes, 28),
            creator_revision: read_u32(bytes, 32),
        }
    }
}

/// Processor Local APIC/SAPIC Affinity Structure: tag 0.
#[derive(Clone, Copy, Debug, PartialEq)]
pub struct ProcessorLocalApicAffinityStructure {
    pub header: SratStructureHeader,
    pub proximility_domain: u8,
    pub apic_id: u8,
    pub flags: u32,
    pub local_sapic_eid: u8,
    pub proximility_domain_2: [u8; 3],
    pub clock_domain: u32,
}

/// Byte span a processor-affinity record must cover.
pub const APIC_AFFINITY_LEN: usize = 18;

/// Field-by-field meaning of a decoded processor-affinity record.
pub open spec fn apic_affinity_matches(
    t: Seq<u8>,
    off: int,
    v: ProcessorLocalApicAffinityStructure,
) -> bool {
    &&& v.header == spec_srat_header_at(t, off)
    &&& v.proximility_domain == t[off + 4]
    &&& v.apic_id == t[off + 5]
    &&& v.flags == le32_at(t, off + 6)
    &&& v.local_sapic_eid == t[off + 10]
    &&& v.proximility_domain_2@ == t.subrange(off + 11, off + 14)
    &&& v.clock_domain == le32_at(t, off + 14)
}

/// Memory Affinity Structure: tag 1.  The 64-bit base and length arrive
/// split into 32-bit halves to keep the packed record aligned.
#[derive(Clone, Copy, Debug, PartialEq, Eq, Structural)]
pub struct MemoryAffinityStructure {
    pub header: SratStructureHeader,
    pub proximility_domain: u32,
    pub base_addr_low: u32,
    pub base_addr_high: u32,
    pub length_low: u32,
    pub length_high: u32,
    pub flags: u32,
}

/// Byte span a memory-affinity record must cover.
pub const MEMORY_AFFINITY_LEN: usize = 42;

/// The memory-affinity record stored at byte offset `off`.
pub open spec fn spec_memory_affinity_at(t: Seq<u8>, off: int) -> MemoryAffinityStructure {
    MemoryAffinityStructure {
        header: spec_srat_header_at(t, off),
        proximility_domain: le32_at(t, off + 4),
        base_addr_low: le32_at(t, off + 10),
        base_addr_high: le32_at(t, off + 14),
        length_low: le32_at(t, off + 18),
        length_high: le32_at(t, off + 22),
        flags: le32_at(t, off + 30),
    }
}

/// Processor Local x2APIC Affinity Structure: tag 2.
#[derive(Clone, Copy, Debug, PartialEq, Eq, Structural)]
pub struct ProcessorLocalX2apicAffinityStructure {
    pub header: SratStructureHeader,
    pub proximity_domain: u32,
    pub x2apic_id: u32,
    pub flags: u32,
    pub clock_domain: u32,
}

/// Byte span an x2APIC-affinity record must cover.
pub const X2APIC_AFFINITY_LEN: usize = 26;

/// The x2APIC-affinity record stored at byte offset `off`.
pub open spec fn spec_x2apic_affinity_at(t: Seq<u8>, off: int)
    -> ProcessorLocalX2apicAffinityStructure {
    ProcessorLocalX2apicAffinityStructure {
        header: spec_srat_header_at(t, off),
        proximity_domain: le32_at(t, off + 6),
        x2apic_id: le32_at(t, off + 10),
        flags: le32_at(t, off + 14),
        clock_domain: le32_at(t, off + 18),
    }
}

/// GICC Affinity Structure: tag 3.
#[derive(Clone, Copy, Debug, PartialEq, Eq, Structural)]
pub struct GiccAffinityStructure {
    pub header: SratStructureHeader,
    pub proximity_domain: u32,
    pub acpi_processor_uid: u32,
    pub flags: u32,
    pub clock_domain: u32,
}

/// Byte span a GICC-affinity record must cover.
pub const GICC_AFFINITY_LEN: usize = 20;

/// The GICC-affinity record stored at byte offset `off`.
pub open spec fn spec_gicc_affinity_at(t: Seq<u8>, off: int) -> GiccAffinityStructure {
    GiccAffinityStructure {
        header: spec_srat_header_at(t, off),
        proximity_domain: le32_at(t, off + 4),
        acpi_processor_uid: le32_at(t, off + 8),
        flags: le32_at(t, off + 12),
        clock_domain: le32_at(t, off + 16),
    }
}

/// Architecture-Specific Affinity Structure: tag 4.
#[derive(Clone, Copy, Debug, PartialEq, Eq, Structural)]
pub struct ArchitectureSpecificAffinityStructure {
    pub header: SratStructureHeader,
    pub proximity_domain: u32,
    pub its_id: u32,
}

/// Byte span an architecture-specific affinity record must cover.
pub const ARCH_AFFINITY_LEN: usize = 14;

/// The architecture-specific affinity record stored at byte offset `off`.
pub open spec fn spec_arch_affinity_at(t: Seq<u8>, off: int)
    -> ArchitectureSpecificAffinityStructure {
    ArchitectureSpecificAffinityStructure {
        header: spec_srat_header_at(t, off),
        proximity_domain: le32_at(t, off + 4),
        its_id: le32_at(t, off + 10),
    }
}

/// Generic Initiator Affinity Structure: tag 5.
#[derive(Clone, Copy, Debug, PartialEq, Eq, Structural)]
pub struct GenericInitiatorAffinityStructure {
    pub header: SratStructureHeader,
    pub device_handle_type: u8,
    pub proximity_domain: u32,
    pub device_handle: u128,
    pub flags: u32,
}

/// Byte span a generic-initiator affinity record must cover.
pub const GENERIC_INITIATOR_LEN: usize = 34;

/// The generic-initiator record stored at byte offset `off`.
pub open spec fn spec_generic_initiator_at(t: Seq<u8>, off: int)
    -> GenericInitiatorAffinityStructure {
    GenericInitiatorAffinityStructure {
        header: spec_srat_header_at(t, off),
        device_handle_type: t[off + 5],
        proximity_domain: le32_at(t, off + 6),
        device_handle: (le64_at(t, off + 10) + le64_at(t, off + 18) * 0x1_0000_0000_0000_0000)
            as u128,
        flags: le32_at(t, off + 26),
    }
}

/// A generic-initiator device handle read as an ACPI handle.
#[derive(Clone, Copy, Debug, PartialEq, Eq, Structural)]
pub struct DeviceHandleAcpi {
    pub acpi_hid: u64,
    pub acpi_uid: u32,
}

impl DeviceHandleAcpi {
    /// Splits the 16-byte device handle into its ACPI hardware id and uid.
    pub fn decode(handle: u128) -> (r: DeviceHandleAcpi)
        ensures
            r.acpi_hid == (handle % 0x1_0000_0000_0000_0000) as u64,
            r.acpi_uid == ((handle / 0x1_0000_0000_0000_0000) % 0x1_0000_0000) as u32,
    {
        DeviceHandleAcpi {
            acpi_hid: (handle % 0x1_0000_0000_0000_0000) as u64,
            acpi_uid: ((handle / 0x1_0000_0000_0000_0000) % 0x1_0000_0000) as u32,
        }
    }
}

/// A generic-initiator device handle read as a PCI handle.
#[derive(Clone, Copy, Debug, PartialEq, Eq, Structural)]
pub struct DeviceHandlePci {
    pub pci_segment: u16,
    pub pci_bdf_nr: u16,
}

impl DeviceHandlePci {
    /// Splits the 16-byte device handle into its PCI segment and the
    /// bus/device/function number.
    pub fn decode(handle: u128) -> (r: DeviceHandlePci)
        ensures
            r.pci_segment == (handle % 0x1_0000) as u16,
            r.pci_bdf_nr == ((handle / 0x1_0000) % 0x1_0000) as u16,
    {
        DeviceHandlePci {
            pci_segment: (handle % 0x1_0000) as u16,
            pci_bdf_nr: ((handle / 0x1_0000) % 0x1_0000) as u16,
        }
    }
}

/// One classified SRAT record.  A record whose tag no variant claims is
/// retained with its header so that nothing is dropped silently.
#[derive(Clone, Copy, Debug, PartialEq)]
pub enum SratStructure {
    ProcessorLocalApic(ProcessorLocalApicAffinityStructure),
    Memory(MemoryAffinityStructure),
    ProcessorLocalX2apic(ProcessorLocalX2apicAffinityStructure),
    Gicc(GiccAffinityStructure),
    ArchitectureSpecific(ArchitectureSpecificAffinityStructure),
    GenericInitiator(GenericInitiatorAffinityStructure),
    Unknown(SratStructureHeader),
}

/// Smallest record span under which a tag's fixed fields can be decoded;
/// unknown tags only need their four header bytes.
pub open spec fn spec_srat_min_len(tag: u8) -> int {
    if tag == 0 {
        APIC_AFFINITY_LEN as int
    } else if tag == 1 {
        MEMORY_AFFINITY_LEN as int
    } else if tag == 2 {
        X2APIC_AFFINITY_LEN as int
    } else if tag == 3 {
        GICC_AFFINITY_LEN as int
    } else if tag == 4 {
        ARCH_AFFINITY_LEN as int
    } else if tag == 5 {
        GENERIC_INITIATOR_LEN as int
    } else {
        4
    }
}

/// The classified form of the record starting at `off`.
pub open spec fn spec_srat_classify_at(t: Seq<u8>, off: int, tag: u8) -> SratStructure {
    if tag == 0 {
        SratStructure::ProcessorLocalApic(
            ProcessorLocalApicAffinityStructure {
                header: spec_srat_header_at(t, off),
                proximility_domain: t[off + 4],
                apic_id: t[off + 5],
                flags: le32_at(t, off + 6),
                local_sapic_eid: t[off + 10],
                proximility_domain_2: [t[off + 11], t[off + 12], t[off + 13]],
                clock_domain: le32_at(t, off + 14),
            },
        )
    } else if tag == 1 {
        SratStructure::Memory(spec_memory_affinity_at(t, off))
    } else if tag == 2 {
        SratStructure::ProcessorLocalX2apic(spec_x2apic_affinity_at(t, off))
    } else if tag == 3 {
        SratStructure::Gicc(spec_gicc_affinity_at(t, off))
    } else if tag == 4 {
        SratStructure::ArchitectureSpecific(spec_arch_affinity_at(t, off))
    } else if tag == 5 {
        SratStructure::GenericInitiator(spec_generic_initiator_at(t, off))
    } else {
        SratStructure::Unknown(spec_srat_header_at(t, off))
    }
}

/// The classification of a run of records, or `None` when a record is too
/// short for the fixed fields its tag promises.
pub open spec fn spec_srat_classify(t: Seq<u8>, recs: Seq<RawRecord>) -> Option<
    Seq<SratStructure>,
>
    decreases recs.len(),
{
    if recs.len() == 0 {
        Some(Seq::empty())
    } else if recs[0].length < spec_srat_min_len(recs[0].typ) {
        None
    } else {
        match spec_srat_classify(t, recs.drop_first()) {
            Some(rest) => Some(
                seq![spec_srat_classify_at(t, recs[0].offset as int, recs[0].typ)] + rest,
            ),
            None => None,
        }
    }
}

/// The memory-affinity records of a run: every record tagged 1, decoded in
/// layout order, or `None` when one is shorter than its fixed fields.
pub open spec fn spec_memory_structures(t: Seq<u8>, recs: Seq<RawRecord>) -> Option<
    Seq<MemoryAffinityStructure>,
>
    decreases recs.len(),
{
    if recs.len() == 0 {
        Some(Seq::empty())
    } else if recs[0].typ == 1 {
        if recs[0].length < MEMORY_AFFINITY_LEN {
            None
        } else {
            match spec_memory_structures(t, recs.drop_first()) {
                Some(rest) => Some(
                    seq![spec_memory_affinity_at(t, recs[0].offset as int)] + rest,
                ),
                None => None,
            }
        }
    } else {
        spec_memory_structures(t, recs.drop_first())
    }
}

/// Copies the fields of a memory-affinity record out of the table bytes.
fn decode_memory_affinity(bytes: &Vec<u8>, off: usize) -> (r: MemoryAffinityStructure)
    requires
        off + MEMORY_AFFINITY_LEN <= bytes@.len(),
    ensures
        r == spec_memory_affinity_at(bytes@, off as int),
{
    assert(off + MEMORY_AFFINITY_LEN <= bytes.len());
    MemoryAffinityStructure {
        header: SratStructureHeader {
            typ: read_u8(bytes, off),
            typ_2: read_u8(bytes, off + 1),
            length: read_u16(bytes, off + 2),
        },
        proximility_domain: read_u32(bytes, off + 4),
        base_addr_low: read_u32(bytes, off + 10),
        base_addr_high: read_u32(bytes, off + 14),
        length_low: read_u32(bytes, off + 18),
        length_high: read_u32(bytes, off + 22),
        flags: read_u32(bytes, off + 30),
    }
}

/// Copies the fields of the record at `off` into its classified form.
fn decode_srat_structure(bytes: &Vec<u8>, off: usize, tag: u8) -> (r: SratStructure)
    requires
        off + spec_srat_min_len(tag) <= bytes@.len(),
        off + 4 <= bytes@.len(),
    ensures
        r == spec_srat_classify_at(bytes@, off as int, tag),
{
    assert(off + spec_srat_min_len(tag) <= bytes.len());
    let header = SratStructureHeader {
        typ: read_u8(bytes, off),
        typ_2: read_u8(bytes, off + 1),
        length: read_u16(bytes, off + 2),
    };
    if tag == 0 {
        let r = ProcessorLocalApicAffinityStructure {
            header,
            proximility_domain: read_u8(bytes, off + 4),
            apic_id: read_u8(bytes, off + 5),
            flags: read_u32(bytes, off + 6),
            local_sapic_eid: read_u8(bytes, off + 10),
            proximility_domain_2: [
                read_u8(bytes, off + 11),
                read_u8(bytes, off + 12),
                read_u8(bytes, off + 13),
            ],
            clock_domain: read_u32(bytes, off + 14),
        };
        SratStructure::ProcessorLocalApic(r)
    } else if tag == 1 {
        SratStructure::Memory(decode_memory_affinity(bytes, off))
    } else if tag == 2 {
        SratStructure::ProcessorLocalX2apic(
            ProcessorLocalX2apicAffinityStructure {
                header,
                proximity_domain: read_u32(bytes, off + 6),
                x2apic_id: read_u32(bytes, off + 10),
                flags: read_u32(bytes, off + 14),
                clock_domain: read_u32(bytes, off + 18),
            },
        )
    } else if tag == 3 {
        SratStructure::Gicc(
            GiccAffinityStructure {
                header,
                proximity_domain: read_u32(bytes, off + 4),
                acpi_processor_uid: read_u32(bytes, off + 8),
                flags: read_u32(bytes, off + 12),
                clock_domain: read_u32(bytes, off + 16),
            },
        )
    } else if tag == 4 {
        SratStructure::ArchitectureSpecific(
            ArchitectureSpecificAffinityStructure {
                header,
                proximity_domain: read_u32(bytes, off + 4),
                its_id: read_u32(bytes, off + 10),
            },
        )
    } else if tag == 5 {
        let lo = read_u64(bytes, off + 10);
        let hi = read_u64(bytes, off + 18);
        SratStructure::GenericInitiator(
            GenericInitiatorAffinityStructure {
                header,
                device_handle_type: read_u8(bytes, off + 5),
                proximity_domain: read_u32(bytes, off + 6),
                device_handle: lo as u128 + (hi as u128) * 0x1_0000_0000_0000_0000,
                flags: read_u32(bytes, off + 26),
            },
        )
    } else {
        SratStructure::Unknown(header)
    }
}

impl View for SRAT {
    type V = Seq<u8>;

    closed spec fn view(&self) -> Seq<u8> {
        self.bytes@
    }
}

impl SRAT {
    /// The table is usable once its declared length matches the bytes held.
    pub open spec fn wf(&self) -> bool {
        table_wf(self@)
    }

    /// Takes ownership of a table blob after checking that the declared
    /// length in its header equals the number of bytes present.
    pub fn new(bytes: Vec<u8>) -> (r: Result<SRAT, CxlError>)
        ensures
            match r {
                Ok(c) => c@ == bytes@ && c.wf(),
                Err(e) => e == CxlError::MalformedRecord && !table_wf(bytes@),
            },
    {
        if bytes.len() < SDT_HEADER_LEN {
            return Err(CxlError::MalformedRecord);
        }
        let declared = read_u32(&bytes, 4);
        if declared as usize != bytes.len() {
            return Err(CxlError::MalformedRecord);
        }
        Ok(SRAT { bytes })
    }

    /// Decodes the system description header that opens the table.
    pub fn header(&self) -> (r: SdtHeader)
        requires
            self.wf(),
        ensures
            r.matches(self@),
    {
        SdtHeader::decode(&self.bytes)
    }

    /// Walks the records that follow the table header and returns their
    /// record headers, every record in layout order and none dropped.
    pub fn get_structures(&self) -> (r: Result<Vec<SratStructureHeader>, CxlError>)
        requires
            self.wf(),
        ensures
            match r {
                Ok(v) => {
                    &&& spec_walk(self@, SDT_HEADER_LEN as int) is Some
                    &&& v@.len() == spec_walk(self@, SDT_HEADER_LEN as int).unwrap().len()
                    &&& forall|i: int|
                        0 <= i < v@.len() ==> v@[i] == spec_srat_header_at(
                            self@,
                            (#[trigger] spec_walk(self@, SDT_HEADER_LEN as int).unwrap()[i]).offset
                                as int,
                        )
                },
                Err(e) => {
                    &&& spec_walk(self@, SDT_HEADER_LEN as int) is None
                    &&& e == CxlError::MalformedRecord
                },
            },
    {
        let records = match walk(&self.bytes, SDT_HEADER_LEN) {
            Ok(records) => records,
            Err(e) => {
                return Err(e);
            },
        };
        proof {
            lemma_walk_bounds(self@, SDT_HEADER_LEN as int);
        }
        let ghost recs = records@;
        proof {
            assert forall|j: int| 0 <= j < recs.len() implies rec_in_bounds(
                self@,
                #[trigger] recs[j],
            ) by {
                assert(recs[j] == spec_walk(self@, SDT_HEADER_LEN as int).unwrap()[j]);
            }
        }
        let mut out: Vec<SratStructureHeader> = Vec::new();
        let mut i: usize = 0;
        while i < records.len()
            invariant
                i <= recs.len(),
                records@ == recs,
                self@ == self.bytes@,
                spec_walk(self@, SDT_HEADER_LEN as int) == Some(recs),
                forall|j: int| 0 <= j < recs.len() ==> rec_in_bounds(self@, #[trigger] recs[j]),
                out@.len() == i,
                forall|j: int|
                    0 <= j < i ==> out@[j] == spec_srat_header_at(
                        self@,
                        (#[trigger] recs[j]).offset as int,
                    ),
            decreases recs.len() - i,
        {
            let rec = records[i];
            proof {
                assert(rec_in_bounds(self@, recs[i as int]));
            }
            assert(rec.offset + 4 <= self.bytes.len());
            let h = SratStructureHeader {
                typ: read_u8(&self.bytes, rec.offset),
                typ_2: read_u8(&self.bytes, rec.offset + 1),
                length: read_u16(&self.bytes, rec.offset + 2),
            };
            out.push(h);
            i = i + 1;
        }
        Ok(out)
    }

    /// Walks the table and decodes every memory-affinity record, in layout
    /// order.  Fails when the table itself is malformed or a memory record
    /// is too short for its fixed fields.
    pub fn get_memory_structures(&self) -> (r: Result<Vec<MemoryAffinityStructure>, CxlError>)
        requires
            self.wf(),
        ensures
            match r {
                Ok(v) => {
                    &&& spec_walk(self@, SDT_HEADER_LEN as int) is Some
                    &&& spec_memory_structures(
                        self@,
                        spec_walk(self@, SDT_HEADER_LEN as int).unwrap(),
                    ) == Some(v@)
                },
                Err(e) => {
                    &&& e == CxlError::MalformedRecord
                    &&& {
                        ||| spec_walk(self@, SDT_HEADER_LEN as int) is None
                        ||| spec_memory_structures(
                            self@,
                            spec_walk(self@, SDT_HEADER_LEN as int).unwrap(),
                        ) is None
                    }
                },
            },
    {
        let records = match walk(&self.bytes, SDT_HEADER_LEN) {
            Ok(records) => records,
            Err(e) => {
                return Err(e);
            },
        };
        proof {
            lemma_walk_bounds(self@, SDT_HEADER_LEN as int);
        }
        let ghost recs = records@;
        proof {
            assert forall|j: int| 0 <= j < recs.len() implies rec_in_bounds(
                self@,
                #[trigger] recs[j],
            ) by {
                assert(recs[j] == spec_walk(self@, SDT_HEADER_LEN as int).unwrap()[j]);
            }
            assert(recs.skip(0) =~= recs);
            match spec_memory_structures(self@, recs) {
                Some(rest) => {
                    assert(Seq::<MemoryAffinityStructure>::empty() + rest =~= rest);
                },
                None => {},
            }
        }
        let mut out: Vec<MemoryAffinityStructure> = Vec::new();
        let mut i: usize = 0;
        while i < records.len()
            invariant
                i <= recs.len(),
                records@ == recs,
                self@ == self.bytes@,
                spec_walk(self@, SDT_HEADER_LEN as int) == Some(recs),
                forall|j: int| 0 <= j < recs.len() ==> rec_in_bounds(self@, #[trigger] recs[j]),
                match spec_memory_structures(self@, recs.skip(i as int)) {
                    Some(rest) => spec_memory_structures(self@, recs) == Some(out@ + rest),
                    None => spec_memory_structures(self@, recs) is None,
                },
            decreases recs.len() - i,
        {
            let rec = records[i];
            proof {
                assert(recs.skip(i as int).drop_first() =~= recs.skip(i as int + 1));
                assert(recs.skip(i as int)[0] == recs[i as int]);
            }
            if rec.typ == 1 {
                if rec.length < MEMORY_AFFINITY_LEN as u16 {
                    return Err(CxlError::MalformedRecord);
                }
                let s = decode_memory_affinity(&self.bytes, rec.offset);
                proof {
                    match spec_memory_structures(self@, recs.skip(i as int + 1)) {
                        Some(rest) => {
                            assert((out@ + (seq![s] + rest)) =~= (out@.push(s) + rest));
                        },
                        None => {},
                    }
                }
                out.push(s);
            }
            i = i + 1;
        }
        proof {
            assert(recs.skip(recs.len() as int) =~= Seq::<RawRecord>::empty());
            assert(out@ + Seq::<MemoryAffinityStructure>::empty() =~= out@);
        }
        Ok(out)
    }
}

impl MemoryAffinityStructure {
    /// The 64-bit base address, reconstructed from its split halves.
    pub fn base_addr(&self) -> (r: u64)
        ensures
            r == (self.base_addr_high as u64) << 32 | (self.base_addr_low as u64),
    {
        (self.base_addr_high as u64) << 32 | (self.base_addr_low as u64)
    }

    /// The 64-bit range length, reconstructed from its split halves.
    pub fn length(&self) -> (r: u64)
        ensures
            r == (self.length_high as u64) << 32 | (self.length_low as u64),
    {
        (self.length_high as u64) << 32 | (self.length_low as u64)
    }

    /// The physical window described by this record, in whole frames.
    pub fn as_phys_frame_range(&self) -> (r: Result<PhysFrameRange, CxlError>)
        requires
            ((self.base_addr_high as u64) << 32 | (self.base_addr_low as u64)) + (
            (self.length_high as u64) << 32 | (self.length_low as u64)) <= u64::MAX,
        ensures
            r is Ok <==> ((self.base_addr_high as u64) << 32 | (self.base_addr_low as u64))
                % PAGE_SIZE == 0,
            r matches Ok(pr) ==> {
                let base = (self.base_addr_high as u64) << 32 | (self.base_addr_low as u64);
                let len = (self.length_high as u64) << 32 | (self.length_low as u64);
                pr == (PhysFrameRange {
                    start: base,
                    end: (base + (len / PAGE_SIZE) * PAGE_SIZE) as u64,
                })
            },
            r matches Err(e) ==> e == CxlError::UnalignedAddress,
    {
        let base = self.base_addr();
        let len = self.length();
        frame_range(base, len)
    }
}

/// Parses the whole table into classified records: the typed view for each
/// known tag, the bare record header for unknown ones, nothing dropped.
/// Fails when the table is malformed or a known-tag record is too short
/// for its fixed fields.
pub fn init(srat: &SRAT) -> (r: Result<Vec<SratStructure>, CxlError>)
    requires
        srat.wf(),
    ensures
        match r {
            Ok(v) => {
                &&& spec_walk(srat@, SDT_HEADER_LEN as int) is Some
                &&& spec_srat_classify(
                    srat@,
                    spec_walk(srat@, SDT_HEADER_LEN as int).unwrap(),
                ) == Some(v@)
            },
            Err(e) => {
                &&& e == CxlError::MalformedRecord
                &&& {
                    ||| spec_walk(srat@, SDT_HEADER_LEN as int) is None
                    ||| spec_srat_classify(
                        srat@,
                        spec_walk(srat@, SDT_HEADER_LEN as int).unwrap(),
                    ) is None
                }
            },
        },
{
    let records = match walk(&srat.bytes, SDT_HEADER_LEN) {
        Ok(records) => records,
        Err(e) => {
            return Err(e);
        },
    };
    proof {
        lemma_walk_bounds(srat@, SDT_HEADER_LEN as int);
    }
    let ghost recs = records@;
    proof {
        assert forall|j: int| 0 <= j < recs.len() implies rec_in_bounds(
            srat@,
            #[trigger] recs[j],
        ) by {
            assert(recs[j] == spec_walk(srat@, SDT_HEADER_LEN as int).unwrap()[j]);
        }
        assert(recs.skip(0) =~= recs);
        match spec_srat_classify(srat@, recs) {
            Some(rest) => {
                assert(Seq::<SratStructure>::empty() + rest =~= rest);
            },
            None => {},
        }
    }
    let mut out: Vec<SratStructure> = Vec::new();
    let mut i: usize = 0;
    while i < records.len()
        invariant
            i <= recs.len(),
            records@ == recs,
            spec_walk(srat@, SDT_HEADER_LEN as int) == Some(recs),
            srat@ == srat.bytes@,
            forall|j: int| 0 <= j < recs.len() ==> rec_in_bounds(srat@, #[trigger] recs[j]),
            match spec_srat_classify(srat@, recs.skip(i as int)) {
                Some(rest) => spec_srat_classify(srat@, recs) == Some(out@ + rest),
                None => spec_srat_classify(srat@, recs) is None,
            },
        decreases recs.len() - i,
    {
        let rec = records[i];
        proof {
            assert(recs.skip(i as int).drop_first() =~= recs.skip(i as int + 1));
            assert(recs.skip(i as int)[0] == recs[i as int]);
        }
        let min_len = srat_min_len(rec.typ);
        if (rec.length as usize) < min_len {
            return Err(CxlError::MalformedRecord);
        }
        let s = decode_srat_structure(&srat.bytes, rec.offset, rec.typ);
        proof {
            match spec_srat_classify(srat@, recs.skip(i as int + 1)) {
                Some(rest) => {
                    assert((out@ + (seq![s] + rest)) =~= (out@.push(s) + rest));
                },
                None => {},
            }
        }
        out.push(s);
        i = i + 1;
    }
    proof {
        assert(recs.skip(recs.len() as int) =~= Seq::<RawRecord>::empty());
        assert(out@ + Seq::<SratStructure>::empty() =~= out@);
    }
    Ok(out)
}

/// Exec form of the per-tag minimum record span.
fn srat_min_len(tag: u8) -> (r: usize)
    ensures
        r == spec_srat_min_len(tag),
{
    if tag == 0 {
        APIC_AFFINITY_LEN
    } else if tag == 1 {
        MEMORY_AFFINITY_LEN
    } else if tag == 2 {
        X2APIC_AFFINITY_LEN
    } else if tag == 3 {
        GICC_AFFINITY_LEN
    } else if tag == 4 {
        ARCH_AFFINITY_LEN
    } else if tag == 5 {
        GENERIC_INITIATOR_LEN
    } else {
        4
    }
}

} // verus!
