//! The CXL Early Discovery Table.
//!
//! The CEDT is an ACPI table whose records describe the platform's CXL
//! host bridges and fixed memory windows.  The table is held as its raw
//! bytes; every typed view below is produced by an explicit, bounds-checked
//! decode at documented field offsets, never by overlaying a structure on
//! the buffer.

use vstd::arithmetic::power2::{lemma2_to64, lemma_pow2_strictly_increases, pow2};
use vstd::bits::lemma_u32_shl_is_mul;
use vstd::prelude::*;

use crate::bytes::{le16_at, le32_at, le64_at, read_u8, read_u16, read_u32, read_u64};
use crate::tables::{
    lemma_walk_bounds, spec_walk, table_wf, walk, RawRecord, SdtHeader, SDT_HEADER_LEN,
};
use crate::{frame_range, CxlError, PhysFrameRange, PAGE_SIZE};

verus! {

/// The CXL Early Discovery Table, held as the raw bytes handed over by the
/// firmware-table lookup service.
pub struct CEDT {
    bytes: Vec<u8>,
}

/// Tags of the record kinds that the CEDT defines.
#[derive(Clone, Copy, Debug, PartialEq, Eq, Structural)]
pub enum CEDTStructureType {
    CXLHostBridgeStructure,
    CXLFixedMemoryWindowStructure,
    CXLXORInterleaveMathStructure,
    RCECDownstreamPortAssociationStructure,
    CXLSystemDescriptionStructure,
}

impl CEDTStructureType {
    /// The type tag stored in a record header for this kind.
    pub open spec fn spec_tag(self) -> u8 {
        match self {
            CEDTStructureType::CXLHostBridgeStructure => 0,
            CEDTStructureType::CXLFixedMemoryWindowStructure => 1,
            CEDTStructureType::CXLXORInterleaveMathStructure => 2,
            CEDTStructureType::RCECDownstreamPortAssociationStructure => 3,
            CEDTStructureType::CXLSystemDescriptionStructure => 4,
        }
    }

    /// The record kind a type tag denotes, if any.
    pub open spec fn spec_from_tag(tag: u8) -> Option<CEDTStructureType> {
        if tag == 0 {
            Some(CEDTStructureType::CXLHostBridgeStructure)
        } else if tag == 1 {
            Some(CEDTStructureType::CXLFixedMemoryWindowStructure)
        } else if tag == 2 {
            Some(CEDTStructureType::CXLXORInterleaveMathStructure)
        } else if tag == 3 {
            Some(CEDTStructureType::RCECDownstreamPortAssociationStructure)
        } else if tag == 4 {
            Some(CEDTStructureType::CXLSystemDescriptionStructure)
        } else {
            None
        }
    }

    /// Returns the type tag of this record kind.
    pub fn tag(&self) -> (r: u8)
        ensures
            r == self.spec_tag(),
    {
        match self {
            CEDTStructureType::CXLHostBridgeStructure => 0,
            CEDTStructureType::CXLFixedMemoryWindowStructure => 1,
            CEDTStructureType::CXLXORInterleaveMathStructure => 2,
            CEDTStructureType::RCECDownstreamPortAssociationStructure => 3,
            CEDTStructureType::CXLSystemDescriptionStructure => 4,
        }
    }

    /// Classifies a type tag; unknown tags stay unclassified rather than
    /// aborting enumeration.
    pub fn from_tag(tag: u8) -> (r: Option<CEDTStructureType>)
        ensures
            r == Self::spec_from_tag(tag),
    {
        if tag == 0 {
            Some(CEDTStructureType::CXLHostBridgeStructure)
        } else if tag == 1 {
            Some(CEDTStructureType::CXLFixedMemoryWindowStructure)
        } else if tag == 2 {
            Some(CEDTStructureType::CXLXORInterleaveMathStructure)
        } else if tag == 3 {
            Some(CEDTStructureType::RCECDownstreamPortAssociationStructure)
        } else if tag == 4 {
            Some(CEDTStructureType::CXLSystemDescriptionStructure)
        } else {
            None
        }
    }
}

/// The four header bytes that open every CEDT record.
#[derive(Clone, Copy, Debug, PartialEq, Eq, Structural)]
pub struct CEDTStructureHeader {
    /// Raw type tag; kept as the stored byte so that unknown kinds remain
    /// representable and skippable.
    pub typ: u8,
    /// Declared byte span of the whole record.
    pub record_length: u16,
}

/// The record header carried by a walked record.
pub open spec fn spec_header_of(r: RawRecord) -> CEDTStructureHeader {
    CEDTStructureHeader { typ: r.typ, record_length: r.length }
}

/// CXL Host Bridge Structure: tag 0, fixed length 0x20.
#[derive(Clone, Copy, Debug, PartialEq, Eq, Structural)]
pub struct CXLHostBridgeStructure {
    pub header: CEDTStructureHeader,
    pub uid: u32,
    pub cxl_version: u32,
    pub base: u64,
    pub length: u64,
}

/// Byte span a host-bridge record must cover for its fields to be read.
pub const CHBS_LEN: usize = 0x20;

/// The host-bridge record stored at byte offset `off` of the table.
pub open spec fn spec_chbs_at(t: Seq<u8>, off: int) -> CXLHostBridgeStructure {
    CXLHostBridgeStructure {
        header: CEDTStructureHeader { typ: t[off], record_length: le16_at(t, off + 2) },
        uid: le32_at(t, off + 4),
        cxl_version: le32_at(t, off + 8),
        base: le64_at(t, off + 16),
        length: le64_at(t, off + 24),
    }
}

/// CXL Fixed Memory Window Structure: tag 1, fixed part of 0x24 bytes
/// followed by one 32-bit interleave target per interleave way.
#[derive(Clone, Debug, PartialEq)]
pub struct CXLFixedMemoryWindowStructure {
    pub header: CEDTStructureHeader,
    pub base_hpa: u64,
    pub window_size: u64,
    pub encoded_nr_of_interleave_ways: u8,
    pub interleave_arithmetic: u8,
    pub host_bridge_interleave_granularity: u32,
    pub window_restrictions: u16,
    pub qtg_id: u16,
    /// The trailing target list, as many whole 32-bit entries as the
    /// declared record length leaves room for.
    pub interleave_target_list: Vec<u32>,
}

/// Fixed part of a memory-window record, before the target list.
pub const CFMWS_FIXED_LEN: usize = 0x24;

/// Field-by-field meaning of a decoded memory-window record in terms of
/// the table bytes at offset `off`.
pub open spec fn cfmws_matches(t: Seq<u8>, off: int, v: CXLFixedMemoryWindowStructure) -> bool {
    &&& v.header == (CEDTStructureHeader { typ: t[off], record_length: le16_at(t, off + 2) })
    &&& v.base_hpa == le64_at(t, off + 8)
    &&& v.window_size == le64_at(t, off + 16)
    &&& v.encoded_nr_of_interleave_ways == t[off + 24]
    &&& v.interleave_arithmetic == t[off + 25]
    &&& v.host_bridge_interleave_granularity == le32_at(t, off + 28)
    &&& v.window_restrictions == le16_at(t, off + 32)
    &&& v.qtg_id == le16_at(t, off + 34)
    &&& v.interleave_target_list@ == Seq::new(
        ((le16_at(t, off + 2) - CFMWS_FIXED_LEN) / 4) as nat,
        |k: int| le32_at(t, off + CFMWS_FIXED_LEN + 4 * k),
    )
}

/// CXL XOR Interleave Math Structure: tag 2, a count of bitmap entries
/// followed by 64-bit xormap entries.
#[derive(Clone, Debug, PartialEq)]
pub struct CXLXORInterleaveMathStructure {
    pub header: CEDTStructureHeader,
    pub nr_of_bitmap_entries: u8,
    pub xormap_list: Vec<u64>,
}

/// Fixed part of a XOR-interleave-math record, before the xormap list.
pub const CXIMS_FIXED_LEN: usize = 8;

/// Field-by-field meaning of a decoded XOR-interleave-math record.
pub open spec fn cxims_matches(t: Seq<u8>, off: int, v: CXLXORInterleaveMathStructure) -> bool {
    &&& v.header == (CEDTStructureHeader { typ: t[off], record_length: le16_at(t, off + 2) })
    &&& v.nr_of_bitmap_entries == t[off + 6]
    &&& v.xormap_list@ == Seq::new(
        ((le16_at(t, off + 2) - CXIMS_FIXED_LEN) / 8) as nat,
        |k: int| le64_at(t, off + CXIMS_FIXED_LEN + 8 * k),
    )
}

/// RCEC Downstream Port Association Structure: tag 3.
#[derive(Clone, Copy, Debug, PartialEq, Eq, Structural)]
pub struct RCECDownstreamPortAssociationStructure {
    pub header: CEDTStructureHeader,
    pub rcec_segment_nr: u16,
    pub rcec_bdf: u16,
    pub protocol_type: u16,
    pub base_addr: u64,
}

/// Byte span an RCEC-association record must cover.
pub const RDPAS_LEN: usize = 18;

/// The RCEC-association record stored at byte offset `off`.
pub open spec fn spec_rdpas_at(t: Seq<u8>, off: int) -> RCECDownstreamPortAssociationStructure {
    RCECDownstreamPortAssociationStructure {
        header: CEDTStructureHeader { typ: t[off], record_length: le16_at(t, off + 2) },
        rcec_segment_nr: le16_at(t, off + 4),
        rcec_bdf: le16_at(t, off + 6),
        protocol_type: le16_at(t, off + 8),
        base_addr: le64_at(t, off + 10),
    }
}

/// CXL System Description Structure: tag 4.
#[derive(Clone, Copy, Debug, PartialEq, Eq, Structural)]
pub struct CXLSystemDescriptionStructure {
    pub header: CEDTStructureHeader,
    pub system_capabilities: u16,
}

/// Byte span a system-description record must cover.
pub const CSDS_LEN: usize = 8;

/// The system-description record stored at byte offset `off`.
pub open spec fn spec_csds_at(t: Seq<u8>, off: int) -> CXLSystemDescriptionStructure {
    CXLSystemDescriptionStructure {
        header: CEDTStructureHeader { typ: t[off], record_length: le16_at(t, off + 2) },
        system_capabilities: le16_at(t, off + 4),
    }
}

impl View for CEDT {
    type V = Seq<u8>;

    closed spec fn view(&self) -> Seq<u8> {
        self.bytes@
    }
}

impl CEDT {
    /// The table is usable once its declared length matches the bytes held.
    pub open spec fn wf(&self) -> bool {
        table_wf(self@)
    }

    /// Takes ownership of a table blob after checking that the declared
    /// length in its header equals the number of bytes present.
    pub fn new(bytes: Vec<u8>) -> (r: Result<CEDT, CxlError>)
        ensures
            match r {
                Ok(c) => c@ == bytes@ && c.wf(),
                Err(e) => e == CxlError::MalformedRecord && !table_wf(bytes@),
            },
    {
        if bytes.len() < SDT_HEADER_LEN {
            return Err(CxlError::MalformedRecord);
        }
        let declared = read_u32(&bytes, 4);
        if declared as usize != bytes.len() {
            return Err(CxlError::MalformedRecord);
        }
        Ok(CEDT { bytes })
    }

    /// Decodes the system description header that opens the table.
    pub fn header(&self) -> (r: SdtHeader)
        requires
            self.wf(),
        ensures
            r.matches(self@),
    {
        SdtHeader::decode(&self.bytes)
    }

    /// Walks the records that follow the table header and returns their
    /// record headers, every record in layout order and none dropped.
    pub fn get_structures(&self) -> (r: Result<Vec<CEDTStructureHeader>, CxlError>)
        requires
            self.wf(),
        ensures
            match r {
                Ok(v) => {
                    &&& spec_walk(self@, SDT_HEADER_LEN as int) is Some
                    &&& v@.len() == spec_walk(self@, SDT_HEADER_LEN as int).unwrap().len()
                    &&& forall|i: int|
                        0 <= i < v@.len() ==> v@[i] == spec_header_of(
                            #[trigger] spec_walk(self@, SDT_HEADER_LEN as int).unwrap()[i],
                        )
                },
                Err(e) => {
                    &&& spec_walk(self@, SDT_HEADER_LEN as int) is None
                    &&& e == CxlError::MalformedRecord
                },
            },
    {
        let records = match walk(&self.bytes, SDT_HEADER_LEN) {
            Ok(records) => records,
            Err(e) => {
                return Err(e);
            },
        };
        let mut out: Vec<CEDTStructureHeader> = Vec::new();
        let mut i: usize = 0;
        while i < records.len()
            invariant
                i <= records@.len(),
                out@.len() == i,
                forall|j: int|
                    0 <= j < i ==> out@[j] == spec_header_of(#[trigger] records@[j]),
            decreases records@.len() - i,
        {
            let rec = records[i];
            out.push(CEDTStructureHeader { typ: rec.typ, record_length: rec.length });
            i = i + 1;
        }
        Ok(out)
    }
}

/// Copies the fields of a host-bridge record out of the table bytes.
pub(crate) fn decode_chbs(bytes: &Vec<u8>, off: usize) -> (r: CXLHostBridgeStructure)
    requires
        off + CHBS_LEN <= bytes@.len(),
    ensures
        r == spec_chbs_at(bytes@, off as int),
{
    assert(off + CHBS_LEN <= bytes.len());
    CXLHostBridgeStructure {
        header: CEDTStructureHeader {
            typ: read_u8(bytes, off),
            record_length: read_u16(bytes, off + 2),
        },
        uid: read_u32(bytes, off + 4),
        cxl_version: read_u32(bytes, off + 8),
        base: read_u64(bytes, off + 16),
        length: read_u64(bytes, off + 24),
    }
}

/// Copies the fields of a memory-window record out of the table bytes,
/// including as many trailing interleave targets as the declared record
/// length holds.
pub(crate) fn decode_cfmws(bytes: &Vec<u8>, off: usize, len: u16) -> (r:
    CXLFixedMemoryWindowStructure)
    requires
        CFMWS_FIXED_LEN <= len,
        le16_at(bytes@, off as int + 2) == len,
        off + len <= bytes@.len(),
    ensures
        cfmws_matches(bytes@, off as int, r),
{
    assert(off + len <= bytes.len());
    let count = (len as usize - CFMWS_FIXED_LEN) / 4;
    let mut targets: Vec<u32> = Vec::new();
    let mut k: usize = 0;
    while k < count
        invariant
            k <= count,
            count == (len - CFMWS_FIXED_LEN) as int / 4,
            CFMWS_FIXED_LEN <= len,
            le16_at(bytes@, off as int + 2) == len,
            off + len <= bytes.len(),
            targets@.len() == k,
            forall|j: int|
                0 <= j < k ==> targets@[j] == le32_at(bytes@, off + CFMWS_FIXED_LEN + 4 * j),
        decreases count - k,
    {
        targets.push(read_u32(bytes, off + CFMWS_FIXED_LEN + 4 * k));
        k = k + 1;
    }
    proof {
        assert(targets@ =~= Seq::new(
            ((le16_at(bytes@, off as int + 2) - CFMWS_FIXED_LEN) / 4) as nat,
            |j: int| le32_at(bytes@, off + CFMWS_FIXED_LEN + 4 * j),
        ));
    }
    CXLFixedMemoryWindowStructure {
        header: CEDTStructureHeader {
            typ: read_u8(bytes, off),
            record_length: read_u16(bytes, off + 2),
        },
        base_hpa: read_u64(bytes, off + 8),
        window_size: read_u64(bytes, off + 16),
        encoded_nr_of_interleave_ways: read_u8(bytes, off + 24),
        interleave_arithmetic: read_u8(bytes, off + 25),
        host_bridge_interleave_granularity: read_u32(bytes, off + 28),
        window_restrictions: read_u16(bytes, off + 32),
        qtg_id: read_u16(bytes, off + 34),
        interleave_target_list: targets,
    }
}

/// Copies the fields of a XOR-interleave-math record out of the table
/// bytes, including the trailing xormap entries.
pub(crate) fn decode_cxims(bytes: &Vec<u8>, off: usize, len: u16) -> (r:
    CXLXORInterleaveMathStructure)
    requires
        CXIMS_FIXED_LEN <= len,
        le16_at(bytes@, off as int + 2) == len,
        off + len <= bytes@.len(),
    ensures
        cxims_matches(bytes@, off as int, r),
{
    assert(off + len <= bytes.len());
    let count = (len as usize - CXIMS_FIXED_LEN) / 8;
    let mut xormaps: Vec<u64> = Vec::new();
    let mut k: usize = 0;
    while k < count
        invariant
            k <= count,
            count == (len - CXIMS_FIXED_LEN) as int / 8,
            CXIMS_FIXED_LEN <= len,
            le16_at(bytes@, off as int + 2) == len,
            off + len <= bytes.len(),
            xormaps@.len() == k,
            forall|j: int|
                0 <= j < k ==> xormaps@[j] == le64_at(bytes@, off + CXIMS_FIXED_LEN + 8 * j),
        decreases count - k,
    {
        xormaps.push(read_u64(bytes, off + CXIMS_FIXED_LEN + 8 * k));
        k = k + 1;
    }
    proof {
        assert(xormaps@ =~= Seq::new(
            ((le16_at(bytes@, off as int + 2) - CXIMS_FIXED_LEN) / 8) as nat,
            |j: int| le64_at(bytes@, off + CXIMS_FIXED_LEN + 8 * j),
        ));
    }
    CXLXORInterleaveMathStructure {
        header: CEDTStructureHeader {
            typ: read_u8(bytes, off),
            record_length: read_u16(bytes, off + 2),
        },
        nr_of_bitmap_entries: read_u8(bytes, off + 6),
        xormap_list: xormaps,
    }
}

/// Copies the fields of an RCEC-association record out of the table bytes.
pub(crate) fn decode_rdpas(bytes: &Vec<u8>, off: usize) -> (r:
    RCECDownstreamPortAssociationStructure)
    requires
        off + RDPAS_LEN <= bytes@.len(),
    ensures
        r == spec_rdpas_at(bytes@, off as int),
{
    assert(off + RDPAS_LEN <= bytes.len());
    RCECDownstreamPortAssociationStructure {
        header: CEDTStructureHeader {
            typ: read_u8(bytes, off),
            record_length: read_u16(bytes, off + 2),
        },
        rcec_segment_nr: read_u16(bytes, off + 4),
        rcec_bdf: read_u16(bytes, off + 6),
        protocol_type: read_u16(bytes, off + 8),
        base_addr: read_u64(bytes, off + 10),
    }
}

/// Copies the fields of a system-description record out of the table bytes.
pub(crate) fn decode_csds(bytes: &Vec<u8>, off: usize) -> (r: CXLSystemDescriptionStructure)
    requires
        off + CSDS_LEN <= bytes@.len(),
    ensures
        r == spec_csds_at(bytes@, off as int),
{
    assert(off + CSDS_LEN <= bytes.len());
    CXLSystemDescriptionStructure {
        header: CEDTStructureHeader {
            typ: read_u8(bytes, off),
            record_length: read_u16(bytes, off + 2),
        },
        system_capabilities: read_u16(bytes, off + 4),
    }
}

/// The host bridges named by a run of records: every record tagged 0,
/// decoded in layout order, or `None` when such a record is shorter than
/// the fixed host-bridge record size.
pub open spec fn spec_host_bridges(t: Seq<u8>, recs: Seq<RawRecord>) -> Option<
    Seq<CXLHostBridgeStructure>,
>
    decreases recs.len(),
{
    if recs.len() == 0 {
        Some(Seq::empty())
    } else if recs[0].typ == 0 {
        if recs[0].length < CHBS_LEN {
            None
        } else {
            match spec_host_bridges(t, recs.drop_first()) {
                Some(rest) => Some(seq![spec_chbs_at(t, recs[0].offset as int)] + rest),
                None => None,
            }
        }
    } else {
        spec_host_bridges(t, recs.drop_first())
    }
}

/// Every memory-window record of a run is long enough to decode.
pub open spec fn mem_windows_decodable(recs: Seq<RawRecord>) -> bool {
    forall|i: int|
        0 <= i < recs.len() ==> ((#[trigger] recs[i]).typ == 1 ==> recs[i].length
            >= CFMWS_FIXED_LEN)
}

/// `out` holds exactly the decoded form of every record of `recs` tagged 1,
/// in layout order.
pub open spec fn mem_windows_match(
    t: Seq<u8>,
    recs: Seq<RawRecord>,
    out: Seq<CXLFixedMemoryWindowStructure>,
) -> bool
    decreases recs.len(),
{
    if recs.len() == 0 {
        out.len() == 0
    } else if recs[0].typ == 1 {
        &&& out.len() >= 1
        &&& cfmws_matches(t, recs[0].offset as int, out[0])
        &&& mem_windows_match(t, recs.drop_first(), out.drop_first())
    } else {
        mem_windows_match(t, recs.drop_first(), out)
    }
}

proof fn lemma_mem_windows_push_window(
    t: Seq<u8>,
    recs: Seq<RawRecord>,
    out: Seq<CXLFixedMemoryWindowStructure>,
    rec: RawRecord,
    w: CXLFixedMemoryWindowStructure,
)
    requires
        mem_windows_match(t, recs, out),
        rec.typ == 1,
        cfmws_matches(t, rec.offset as int, w),
    ensures
        mem_windows_match(t, recs.push(rec), out.push(w)),
    decreases recs.len(),
{
    let recs2 = recs.push(rec);
    let out2 = out.push(w);
    if recs.len() == 0 {
        assert(recs2[0] == rec);
        assert(out2[0] == w);
        assert(recs2.drop_first() =~= Seq::<RawRecord>::empty());
        assert(out2.drop_first() =~= out);
        assert(mem_windows_match(t, recs2.drop_first(), out2.drop_first()));
    } else {
        assert(recs2[0] == recs[0]);
        assert(recs2.drop_first() =~= recs.drop_first().push(rec));
        if recs[0].typ == 1 {
            assert(out2[0] == out[0]);
            assert(out2.drop_first() =~= out.drop_first().push(w));
            lemma_mem_windows_push_window(t, recs.drop_first(), out.drop_first(), rec, w);
        } else {
            lemma_mem_windows_push_window(t, recs.drop_first(), out, rec, w);
        }
    }
}

proof fn lemma_mem_windows_push_other(
    t: Seq<u8>,
    recs: Seq<RawRecord>,
    out: Seq<CXLFixedMemoryWindowStructure>,
    rec: RawRecord,
)
    requires
        mem_windows_match(t, recs, out),
        rec.typ != 1,
    ensures
        mem_windows_match(t, recs.push(rec), out),
    decreases recs.len(),
{
    let recs2 = recs.push(rec);
    if recs.len() == 0 {
        assert(recs2[0] == rec);
        assert(recs2.drop_first() =~= recs);
    } else {
        assert(recs2[0] == recs[0]);
        assert(recs2.drop_first() =~= recs.drop_first().push(rec));
        if recs[0].typ == 1 {
            lemma_mem_windows_push_other(t, recs.drop_first(), out.drop_first(), rec);
        } else {
            lemma_mem_windows_push_other(t, recs.drop_first(), out, rec);
        }
    }
}

impl CEDT {
    /// Walks the table and decodes every host-bridge record, in layout
    /// order.  Fails when the table itself is malformed or a host-bridge
    /// record is too short for its fixed fields.
    pub fn get_host_bridge_structures(&self) -> (r: Result<
        Vec<CXLHostBridgeStructure>,
        CxlError,
    >)
        requires
            self.wf(),
        ensures
            match r {
                Ok(v) => {
                    &&& spec_walk(self@, SDT_HEADER_LEN as int) is Some
                    &&& spec_host_bridges(
                        self@,
                        spec_walk(self@, SDT_HEADER_LEN as int).unwrap(),
                    ) == Some(v@)
                },
                Err(e) => {
                    &&& e == CxlError::MalformedRecord
                    &&& {
                        ||| spec_walk(self@, SDT_HEADER_LEN as int) is None
                        ||| spec_host_bridges(
                            self@,
                            spec_walk(self@, SDT_HEADER_LEN as int).unwrap(),
                        ) is None
                    }
                },
            },
    {
        let records = match walk(&self.bytes, SDT_HEADER_LEN) {
            Ok(records) => records,
            Err(e) => {
                return Err(e);
            },
        };
        proof {
            lemma_walk_bounds(self@, SDT_HEADER_LEN as int);
        }
        let ghost recs = records@;
        proof {
            assert forall|j: int| 0 <= j < recs.len() implies crate::tables::rec_in_bounds(
                self@,
                #[trigger] recs[j],
            ) by {
                assert(recs[j] == spec_walk(self@, SDT_HEADER_LEN as int).unwrap()[j]);
            }
            assert(recs.skip(0) =~= recs);
            match spec_host_bridges(self@, recs) {
                Some(rest) => {
                    assert(Seq::<CXLHostBridgeStructure>::empty() + rest =~= rest);
                },
                None => {},
            }
        }
        let mut out: Vec<CXLHostBridgeStructure> = Vec::new();
        let mut i: usize = 0;
        while i < records.len()
            invariant
                i <= recs.len(),
                records@ == recs,
                self@ == self.bytes@,
                spec_walk(self@, SDT_HEADER_LEN as int) == Some(recs),
                forall|j: int|
                    0 <= j < recs.len() ==> crate::tables::rec_in_bounds(
                        self@,
                        #[trigger] recs[j],
                    ),
                match spec_host_bridges(self@, recs.skip(i as int)) {
                    Some(rest) => spec_host_bridges(self@, recs) == Some(out@ + rest),
                    None => spec_host_bridges(self@, recs) is None,
                },
            decreases recs.len() - i,
        {
            let rec = records[i];
            proof {
                assert(recs.skip(i as int).drop_first() =~= recs.skip(i as int + 1));
                assert(recs.skip(i as int)[0] == recs[i as int]);
            }
            if rec.typ == 0 {
                if rec.length < CHBS_LEN as u16 {
                    return Err(CxlError::MalformedRecord);
                }
                let s = decode_chbs(&self.bytes, rec.offset);
                proof {
                    match spec_host_bridges(self@, recs.skip(i as int + 1)) {
                        Some(rest) => {
                            assert((out@ + (seq![s] + rest)) =~= (out@.push(s) + rest));
                        },
                        None => {},
                    }
                }
                out.push(s);
            }
            i = i + 1;
        }
        proof {
            assert(recs.skip(recs.len() as int) =~= Seq::<RawRecord>::empty());
            assert(out@ + Seq::<CXLHostBridgeStructure>::empty() =~= out@);
        }
        Ok(out)
    }

    /// Walks the table and decodes every fixed-memory-window record, in
    /// layout order.  Fails when the table itself is malformed or a
    /// memory-window record is too short for its fixed fields.
    pub fn get_mem_win_structures(&self) -> (r: Result<
        Vec<CXLFixedMemoryWindowStructure>,
        CxlError,
    >)
        requires
            self.wf(),
        ensures
            match r {
                Ok(v) => {
                    &&& spec_walk(self@, SDT_HEADER_LEN as int) is Some
                    &&& mem_windows_decodable(spec_walk(self@, SDT_HEADER_LEN as int).unwrap())
                    &&& mem_windows_match(
                        self@,
                        spec_walk(self@, SDT_HEADER_LEN as int).unwrap(),
                        v@,
                    )
                },
                Err(e) => {
                    &&& e == CxlError::MalformedRecord
                    &&& {
                        ||| spec_walk(self@, SDT_HEADER_LEN as int) is None
                        ||| !mem_windows_decodable(
                            spec_walk(self@, SDT_HEADER_LEN as int).unwrap(),
                        )
                    }
                },
            },
    {
        let records = match walk(&self.bytes, SDT_HEADER_LEN) {
            Ok(records) => records,
            Err(e) => {
                return Err(e);
            },
        };
        proof {
            lemma_walk_bounds(self@, SDT_HEADER_LEN as int);
        }
        let ghost recs = records@;
        proof {
            assert forall|j: int| 0 <= j < recs.len() implies crate::tables::rec_in_bounds(
                self@,
                #[trigger] recs[j],
            ) by {
                assert(recs[j] == spec_walk(self@, SDT_HEADER_LEN as int).unwrap()[j]);
            }
            assert(recs.take(0) =~= Seq::<RawRecord>::empty());
        }
        let mut out: Vec<CXLFixedMemoryWindowStructure> = Vec::new();
        let mut i: usize = 0;
        while i < records.len()
            invariant
                i <= recs.len(),
                records@ == recs,
                self@ == self.bytes@,
                spec_walk(self@, SDT_HEADER_LEN as int) == Some(recs),
                forall|j: int|
                    0 <= j < recs.len() ==> crate::tables::rec_in_bounds(
                        self@,
                        #[trigger] recs[j],
                    ),
                forall|j: int|
                    0 <= j < i ==> ((#[trigger] recs[j]).typ == 1 ==> recs[j].length
                        >= CFMWS_FIXED_LEN),
                mem_windows_match(self@, recs.take(i as int), out@),
            decreases recs.len() - i,
        {
            let rec = records[i];
            proof {
                assert(recs.take(i as int).push(recs[i as int]) =~= recs.take(i as int + 1));
            }
            if rec.typ == 1 {
                if rec.length < CFMWS_FIXED_LEN as u16 {
                    return Err(CxlError::MalformedRecord);
                }
                let w = decode_cfmws(&self.bytes, rec.offset, rec.length);
                proof {
                    lemma_mem_windows_push_window(self@, recs.take(i as int), out@, rec, w);
                }
                out.push(w);
            } else {
                proof {
                    lemma_mem_windows_push_other(self@, recs.take(i as int), out@, rec);
                }
            }
            i = i + 1;
        }
        proof {
            assert(recs.take(recs.len() as int) =~= recs);
        }
        Ok(out)
    }
}

/// Number of interleave ways encoded by `eniw`: a power of two for
/// encodings below 8, three times a power of two from 8 up.
pub open spec fn spec_niw(eniw: u8) -> nat {
    if eniw < 8 {
        pow2(eniw as nat)
    } else {
        3 * pow2((eniw - 8) as nat)
    }
}

/// A memory-window record is valid when its declared length equals the
/// fixed part plus four bytes per interleave way and base and size pass
/// the alignment test.
pub open spec fn spec_cfmws_valid(v: CXLFixedMemoryWindowStructure) -> bool {
    &&& v.encoded_nr_of_interleave_ways <= 38
    &&& v.header.record_length == CFMWS_FIXED_LEN + 4 * spec_niw(v.encoded_nr_of_interleave_ways)
    &&& (v.base_hpa % 256) * 1024 * 1024 == 0
    &&& (v.window_size % 256) * 1024 * 1024 == 0
}

impl CXLHostBridgeStructure {
    /// A host-bridge record is valid exactly when its declared length is
    /// the fixed host-bridge record size.
    pub fn is_valid(&self) -> (r: bool)
        ensures
            r == (self.header.record_length == CHBS_LEN),
    {
        self.header.record_length as usize == CHBS_LEN
    }

    /// The physical window claimed by this host bridge, in whole frames.
    pub fn as_phys_frame_range(&self) -> (r: Result<PhysFrameRange, CxlError>)
        requires
            self.base + self.length <= u64::MAX,
        ensures
            r is Ok <==> self.base % PAGE_SIZE == 0,
            r matches Ok(pr) ==> pr == (PhysFrameRange {
                start: self.base,
                end: (self.base + (self.length / PAGE_SIZE) * PAGE_SIZE) as u64,
            }),
            r matches Err(e) ==> e == CxlError::UnalignedAddress,
    {
        frame_range(self.base, self.length)
    }
}

impl CXLFixedMemoryWindowStructure {
    /// Decodes the number of interleave ways: `2^eniw` below 8, else
    /// `3 * 2^(eniw - 8)`.
    ///
    /// Encodings above 38 would not fit the result in 32 bits and are
    /// ruled out by the caller (they never satisfy a record's length
    /// equation either).
    pub fn niw(&self) -> (r: u32)
        requires
            self.encoded_nr_of_interleave_ways <= 38,
        ensures
            r == spec_niw(self.encoded_nr_of_interleave_ways),
    {
        let e = self.encoded_nr_of_interleave_ways;
        if e < 8 {
            proof {
                lemma2_to64();
                if e < 7 {
                    lemma_pow2_strictly_increases(e as nat, 7);
                }
                lemma_u32_shl_is_mul(1, e as u32);
            }
            1u32 << (e as u32)
        } else {
            let s = e - 8;
            proof {
                lemma2_to64();
                if s < 30 {
                    lemma_pow2_strictly_increases(s as nat, 30);
                }
                assert(3 * pow2(s as nat) <= 3 * pow2(30)) by (nonlinear_arith)
                    requires pow2(s as nat) <= pow2(30),
                ;
                lemma_u32_shl_is_mul(3, s as u32);
            }
            3u32 << (s as u32)
        }
    }

    /// A memory-window record is valid when its declared length equals the
    /// fixed part plus four bytes per interleave way and both the window
    /// base and size pass the coarse alignment test.
    pub fn is_valid(&self) -> (r: bool)
        ensures
            r == spec_cfmws_valid(*self),
    {
        if self.encoded_nr_of_interleave_ways > 38 {
            return false;
        }
        let ways = self.niw();
        proof {
            lemma2_to64();
            if self.encoded_nr_of_interleave_ways < 8 {
                if self.encoded_nr_of_interleave_ways < 7 {
                    lemma_pow2_strictly_increases(self.encoded_nr_of_interleave_ways as nat, 7);
                }
            } else {
                let s = (self.encoded_nr_of_interleave_ways - 8) as nat;
                if s < 30 {
                    lemma_pow2_strictly_increases(s, 30);
                }
                assert(3 * pow2(s) <= 3 * pow2(30)) by (nonlinear_arith)
                    requires pow2(s) <= pow2(30),
                ;
            }
        }
        self.header.record_length as u64 == CFMWS_FIXED_LEN as u64 + 4 * (ways as u64)
            && (self.base_hpa % 256) * 1024 * 1024 == 0
            && (self.window_size % 256) * 1024 * 1024 == 0
    }

    /// The physical window described by this record, in whole frames.
    pub fn as_phys_frame_range(&self) -> (r: Result<PhysFrameRange, CxlError>)
        requires
            self.base_hpa + self.window_size <= u64::MAX,
        ensures
            r is Ok <==> self.base_hpa % PAGE_SIZE == 0,
            r matches Ok(pr) ==> pr == (PhysFrameRange {
                start: self.base_hpa,
                end: (self.base_hpa + (self.window_size / PAGE_SIZE) * PAGE_SIZE) as u64,
            }),
            r matches Err(e) ==> e == CxlError::UnalignedAddress,
    {
        frame_range(self.base_hpa, self.window_size)
    }

    /// The decoded trailing interleave-target list.
    pub fn interleave_targets(&self) -> (r: &Vec<u32>)
        ensures
            r@ == self.interleave_target_list@,
    {
        &self.interleave_target_list
    }
}

} // verus!
