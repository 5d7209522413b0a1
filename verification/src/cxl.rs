//! CXL discovery: classification of the early-discovery table's records
//! and the boot-time walk that scans one PCI bus per host bridge.
//!
//! This module also renders human-readable reports of what was found; the
//! values behind every line come from the verified walkers and decoders.

use vstd::arithmetic::div_mod::lemma_div_denominator;
use vstd::arithmetic::power::{lemma_pow0, lemma_pow1, lemma_pow_adds, lemma_pow_positive, pow};
use vstd::prelude::*;

use crate::cedt::{
    cfmws_matches, cxims_matches, decode_cfmws, decode_chbs, decode_csds, decode_cxims,
    decode_rdpas, spec_cfmws_valid, spec_chbs_at, spec_csds_at, spec_host_bridges, spec_niw,
    spec_rdpas_at, CEDT, CFMWS_FIXED_LEN, CHBS_LEN, CSDS_LEN, CXIMS_FIXED_LEN,
    CXLFixedMemoryWindowStructure, CXLHostBridgeStructure, CXLSystemDescriptionStructure,
    CXLXORInterleaveMathStructure, RCECDownstreamPortAssociationStructure, RDPAS_LEN,
};
use crate::bytes::{le16_at, le64_at};
use crate::pci::{ConfigAccess, PciBus, SCAN_FUEL, spec_scan_bus};
use crate::tables::{
    lemma_walk_bounds, rec_in_bounds, spec_walk, table_wf, walk, RawRecord, SDT_HEADER_LEN,
};
use crate::CxlError;

verus! {

/// The early-discovery table, held for record-level classification.
pub struct Cedt {
    bytes: Vec<u8>,
}

/// One classified and validated CEDT record.
#[derive(Clone, Debug, PartialEq)]
pub enum CedtStructureType {
    CHBS(CXLHostBridgeStructure),
    CFMWS(CXLFixedMemoryWindowStructure),
    CXIMS(CXLXORInterleaveMathStructure),
    RDPAS(RCECDownstreamPortAssociationStructure),
    CSDS(CXLSystemDescriptionStructure),
}

impl CedtStructureType {
    /// The declared byte span of the classified record.
    pub fn record_length(&self) -> (r: usize)
        ensures
            r == self.spec_record_length(),
    {
        match self {
            CedtStructureType::CHBS(s) => s.header.record_length as usize,
            CedtStructureType::CFMWS(s) => s.header.record_length as usize,
            CedtStructureType::CXIMS(s) => s.header.record_length as usize,
            CedtStructureType::RDPAS(s) => s.header.record_length as usize,
            CedtStructureType::CSDS(s) => s.header.record_length as usize,
        }
    }

    /// The declared byte span of the classified record.
    pub open spec fn spec_record_length(&self) -> int {
        match self {
            CedtStructureType::CHBS(s) => s.header.record_length as int,
            CedtStructureType::CFMWS(s) => s.header.record_length as int,
            CedtStructureType::CXIMS(s) => s.header.record_length as int,
            CedtStructureType::RDPAS(s) => s.header.record_length as int,
            CedtStructureType::CSDS(s) => s.header.record_length as int,
        }
    }

    /// Validity of a classified record.
    ///
    /// A host bridge must span exactly its fixed size and a memory window
    /// must satisfy its length equation; the other three kinds carry no
    /// further constraint beyond having decoded, so they count as valid.
    pub open spec fn spec_is_valid(&self) -> bool {
        match self {
            CedtStructureType::CHBS(s) => s.header.record_length == CHBS_LEN,
            CedtStructureType::CFMWS(s) => spec_cfmws_valid(*s),
            CedtStructureType::CXIMS(_) => true,
            CedtStructureType::RDPAS(_) => true,
            CedtStructureType::CSDS(_) => true,
        }
    }

    /// Checks the classified record's validity.
    pub fn is_valid(&self) -> (r: bool)
        ensures
            r == self.spec_is_valid(),
    {
        match self {
            CedtStructureType::CHBS(s) => s.is_valid(),
            CedtStructureType::CFMWS(s) => s.is_valid(),
            CedtStructureType::CXIMS(_) => true,
            CedtStructureType::RDPAS(_) => true,
            CedtStructureType::CSDS(_) => true,
        }
    }
}

/// Smallest record span under which a known tag's fixed fields decode.
pub open spec fn spec_cedt_min_len(tag: u8) -> int {
    if tag == 0 {
        CHBS_LEN as int
    } else if tag == 1 {
        CFMWS_FIXED_LEN as int
    } else if tag == 2 {
        CXIMS_FIXED_LEN as int
    } else if tag == 3 {
        RDPAS_LEN as int
    } else {
        CSDS_LEN as int
    }
}

/// `s` is the decoded form of the record `rec` names in `t`.
pub open spec fn structure_matches(t: Seq<u8>, rec: RawRecord, s: CedtStructureType) -> bool {
    if rec.typ == 0 {
        s == CedtStructureType::CHBS(spec_chbs_at(t, rec.offset as int))
    } else if rec.typ == 1 {
        s matches CedtStructureType::CFMWS(w) && cfmws_matches(t, rec.offset as int, w)
    } else if rec.typ == 2 {
        s matches CedtStructureType::CXIMS(w) && cxims_matches(t, rec.offset as int, w)
    } else if rec.typ == 3 {
        s == CedtStructureType::RDPAS(spec_rdpas_at(t, rec.offset as int))
    } else if rec.typ == 4 {
        s == CedtStructureType::CSDS(spec_csds_at(t, rec.offset as int))
    } else {
        false
    }
}

/// Every known-tag record of the run decodes and validates: it spans at
/// least its fixed fields, a host bridge spans exactly its fixed size, and
/// a memory window satisfies its length equation.
pub open spec fn cedt_structures_ok(t: Seq<u8>, recs: Seq<RawRecord>) -> bool {
    forall|i: int|
        0 <= i < recs.len() ==> {
            let r = #[trigger] recs[i];
            &&& (r.typ <= 4 ==> r.length >= spec_cedt_min_len(r.typ))
            &&& (r.typ == 0 ==> r.length == CHBS_LEN)
            &&& (r.typ == 1 ==> spec_cfmws_valid_at(t, r.offset as int))
        }
}

/// Validity of the memory-window record at `off`, read off the raw bytes.
pub open spec fn spec_cfmws_valid_at(t: Seq<u8>, off: int) -> bool {
    let eniw = t[off + 24];
    &&& eniw <= 38
    &&& le16_at(t, off + 2) == CFMWS_FIXED_LEN + 4 * spec_niw(eniw)
    &&& (le64_at(t, off + 8) % 256) * 1024 * 1024 == 0
    &&& (le64_at(t, off + 16) % 256) * 1024 * 1024 == 0
}

/// `out` holds exactly the classified form of every known-tag record of
/// `recs`, in layout order; records with unknown tags are walked past and
/// stay reachable through the record-header view.
pub open spec fn cedt_structures_match(
    t: Seq<u8>,
    recs: Seq<RawRecord>,
    out: Seq<CedtStructureType>,
) -> bool
    decreases recs.len(),
{
    if recs.len() == 0 {
        out.len() == 0
    } else if recs[0].typ <= 4 {
        &&& out.len() >= 1
        &&& structure_matches(t, recs[0], out[0])
        &&& cedt_structures_match(t, recs.drop_first(), out.drop_first())
    } else {
        cedt_structures_match(t, recs.drop_first(), out)
    }
}

proof fn lemma_cedt_push_known(
    t: Seq<u8>,
    recs: Seq<RawRecord>,
    out: Seq<CedtStructureType>,
    rec: RawRecord,
    s: CedtStructureType,
)
    requires
        cedt_structures_match(t, recs, out),
        rec.typ <= 4,
        structure_matches(t, rec, s),
    ensures
        cedt_structures_match(t, recs.push(rec), out.push(s)),
    decreases recs.len(),
{
    let recs2 = recs.push(rec);
    let out2 = out.push(s);
    if recs.len() == 0 {
        assert(recs2[0] == rec);
        assert(out2[0] == s);
        assert(recs2.drop_first() =~= recs);
        assert(out2.drop_first() =~= out);
    } else {
        assert(recs2[0] == recs[0]);
        assert(recs2.drop_first() =~= recs.drop_first().push(rec));
        if recs[0].typ <= 4 {
            assert(out2[0] == out[0]);
            assert(out2.drop_first() =~= out.drop_first().push(s));
            lemma_cedt_push_known(t, recs.drop_first(), out.drop_first(), rec, s);
        } else {
            lemma_cedt_push_known(t, recs.drop_first(), out, rec, s);
        }
    }
}

proof fn lemma_cedt_push_unknown(
    t: Seq<u8>,
    recs: Seq<RawRecord>,
    out: Seq<CedtStructureType>,
    rec: RawRecord,
)
    requires
        cedt_structures_match(t, recs, out),
        rec.typ > 4,
    ensures
        cedt_structures_match(t, recs.push(rec), out),
    decreases recs.len(),
{
    let recs2 = recs.push(rec);
    if recs.len() == 0 {
        assert(recs2[0] == rec);
        assert(recs2.drop_first() =~= recs);
    } else {
        assert(recs2[0] == recs[0]);
        assert(recs2.drop_first() =~= recs.drop_first().push(rec));
        if recs[0].typ <= 4 {
            lemma_cedt_push_unknown(t, recs.drop_first(), out.drop_first(), rec);
        } else {
            lemma_cedt_push_unknown(t, recs.drop_first(), out, rec);
        }
    }
}

impl View for Cedt {
    type V = Seq<u8>;

    closed spec fn view(&self) -> Seq<u8> {
        self.bytes@
    }
}

impl Cedt {
    /// The table is usable once its declared length matches the bytes held.
    pub open spec fn wf(&self) -> bool {
        table_wf(self@)
    }

    /// Takes ownership of a table blob after checking that the declared
    /// length in its header equals the number of bytes present.
    pub fn new(bytes: Vec<u8>) -> (r: Result<Cedt, CxlError>)
        ensures
            match r {
                Ok(c) => c@ == bytes@ && c.wf(),
                Err(e) => e == CxlError::MalformedRecord && !table_wf(bytes@),
            },
    {
        if bytes.len() < SDT_HEADER_LEN {
            return Err(CxlError::MalformedRecord);
        }
        let declared = crate::bytes::read_u32(&bytes, 4);
        if declared as usize != bytes.len() {
            return Err(CxlError::MalformedRecord);
        }
        Ok(Cedt { bytes })
    }

    /// Walks the table, classifies every known-tag record and checks its
    /// validity; unknown tags are skipped over by their declared length
    /// and nothing past a record is lost.  Fails when the table or any
    /// known-tag record is malformed.
    pub fn get_structure_headers(&self) -> (r: Result<Vec<CedtStructureType>, CxlError>)
        requires
            self.wf(),
        ensures
            match r {
                Ok(v) => {
                    &&& spec_walk(self@, SDT_HEADER_LEN as int) is Some
                    &&& cedt_structures_ok(self@, spec_walk(self@, SDT_HEADER_LEN as int).unwrap())
                    &&& cedt_structures_match(
                        self@,
                        spec_walk(self@, SDT_HEADER_LEN as int).unwrap(),
                        v@,
                    )
                },
                Err(e) => {
                    &&& e == CxlError::MalformedRecord
                    &&& {
                        ||| spec_walk(self@, SDT_HEADER_LEN as int) is None
                        ||| !cedt_structures_ok(
                            self@,
                            spec_walk(self@, SDT_HEADER_LEN as int).unwrap(),
                        )
                    }
                },
            },
    {
        let records = match walk(&self.bytes, SDT_HEADER_LEN) {
            Ok(records) => records,
            Err(e) => {
                return Err(e);
            },
        };
        proof {
            lemma_walk_bounds(self@, SDT_HEADER_LEN as int);
        }
        let ghost recs = records@;
        proof {
            assert forall|j: int| 0 <= j < recs.len() implies rec_in_bounds(
                self@,
                #[trigger] recs[j],
            ) by {
                assert(recs[j] == spec_walk(self@, SDT_HEADER_LEN as int).unwrap()[j]);
            }
            assert(recs.take(0) =~= Seq::<RawRecord>::empty());
        }
        let mut out: Vec<CedtStructureType> = Vec::new();
        let mut i: usize = 0;
        while i < records.len()
            invariant
                i <= recs.len(),
                records@ == recs,
                self@ == self.bytes@,
                spec_walk(self@, SDT_HEADER_LEN as int) == Some(recs),
                forall|j: int| 0 <= j < recs.len() ==> rec_in_bounds(self@, #[trigger] recs[j]),
                forall|j: int|
                    0 <= j < i ==> {
                        let r = #[trigger] recs[j];
                        &&& (r.typ <= 4 ==> r.length >= spec_cedt_min_len(r.typ))
                        &&& (r.typ == 0 ==> r.length == CHBS_LEN)
                        &&& (r.typ == 1 ==> spec_cfmws_valid_at(self@, r.offset as int))
                    },
                cedt_structures_match(self@, recs.take(i as int), out@),
            decreases recs.len() - i,
        {
            let rec = records[i];
            proof {
                assert(recs.take(i as int).push(recs[i as int]) =~= recs.take(i as int + 1));
            }
            if rec.typ == 0 {
                if rec.length as usize != CHBS_LEN {
                    return Err(CxlError::MalformedRecord);
                }
                let s = decode_chbs(&self.bytes, rec.offset);
                let v = CedtStructureType::CHBS(s);
                proof {
                    lemma_cedt_push_known(self@, recs.take(i as int), out@, rec, v);
                }
                out.push(v);
            } else if rec.typ == 1 {
                if (rec.length as usize) < CFMWS_FIXED_LEN {
                    return Err(CxlError::MalformedRecord);
                }
                let w = decode_cfmws(&self.bytes, rec.offset, rec.length);
                if !w.is_valid() {
                    return Err(CxlError::MalformedRecord);
                }
                let v = CedtStructureType::CFMWS(w);
                proof {
                    lemma_cedt_push_known(self@, recs.take(i as int), out@, rec, v);
                }
                out.push(v);
            } else if rec.typ == 2 {
                if (rec.length as usize) < CXIMS_FIXED_LEN {
                    return Err(CxlError::MalformedRecord);
                }
                let w = decode_cxims(&self.bytes, rec.offset, rec.length);
                let v = CedtStructureType::CXIMS(w);
                proof {
                    lemma_cedt_push_known(self@, recs.take(i as int), out@, rec, v);
                }
                out.push(v);
            } else if rec.typ == 3 {
                if (rec.length as usize) < RDPAS_LEN {
                    return Err(CxlError::MalformedRecord);
                }
                let s = decode_rdpas(&self.bytes, rec.offset);
                let v = CedtStructureType::RDPAS(s);
                proof {
                    lemma_cedt_push_known(self@, recs.take(i as int), out@, rec, v);
                }
                out.push(v);
            } else if rec.typ == 4 {
                if (rec.length as usize) < CSDS_LEN {
                    return Err(CxlError::MalformedRecord);
                }
                let s = decode_csds(&self.bytes, rec.offset);
                let v = CedtStructureType::CSDS(s);
                proof {
                    lemma_cedt_push_known(self@, recs.take(i as int), out@, rec, v);
                }
                out.push(v);
            } else {
                proof {
                    lemma_cedt_push_unknown(self@, recs.take(i as int), out@, rec);
                }
            }
            i = i + 1;
        }
        proof {
            assert(recs.take(recs.len() as int) =~= recs);
        }
        Ok(out)
    }
}

/// Discovers the CXL topology that a checked early-discovery table names:
/// every host-bridge record's bus is scanned, in table order, one scanned
/// bus per host bridge.
pub fn init<A: ConfigAccess>(cedt: &CEDT, access: &A) -> (r: Result<Vec<PciBus>, CxlError>)
    requires
        cedt.wf(),
    ensures
        match r {
            Ok(buses) => {
                &&& spec_walk(cedt@, SDT_HEADER_LEN as int) is Some
                &&& spec_host_bridges(
                    cedt@,
                    spec_walk(cedt@, SDT_HEADER_LEN as int).unwrap(),
                ) is Some
                &&& {
                    let hbs = spec_host_bridges(
                        cedt@,
                        spec_walk(cedt@, SDT_HEADER_LEN as int).unwrap(),
                    ).unwrap();
                    &&& buses@.len() == hbs.len()
                    &&& forall|i: int|
                        0 <= i < hbs.len() ==> (#[trigger] buses@[i]).devices@ == spec_scan_bus(
                            access,
                            0x8000,
                            hbs[i].uid as u8,
                            SCAN_FUEL as nat,
                        )
                }
            },
            Err(e) => {
                &&& e == CxlError::MalformedRecord
                &&& {
                    ||| spec_walk(cedt@, SDT_HEADER_LEN as int) is None
                    ||| spec_host_bridges(
                        cedt@,
                        spec_walk(cedt@, SDT_HEADER_LEN as int).unwrap(),
                    ) is None
                }
            },
        },
{
    let bridges = match cedt.get_host_bridge_structures() {
        Ok(bridges) => bridges,
        Err(e) => {
            return Err(e);
        },
    };
    let ghost hbs = bridges@;
    let mut buses: Vec<PciBus> = Vec::new();
    let mut i: usize = 0;
    while i < bridges.len()
        invariant
            i <= hbs.len(),
            bridges@ == hbs,
            buses@.len() == i,
            forall|j: int|
                0 <= j < i ==> (#[trigger] buses@[j]).devices@ == spec_scan_bus(
                    access,
                    0x8000,
                    hbs[j].uid as u8,
                    SCAN_FUEL as nat,
                ),
        decreases hbs.len() - i,
    {
        let hb = &bridges[i];
        let bus = PciBus::scan_by_nr(#[verifier::truncate] (hb.uid as u8), access);
        buses.push(bus);
        i = i + 1;
    }
    Ok(buses)
}

/// Relies on std's `format!` macro: renders one device's subsystem line.
#[verifier::external_body]
fn fmt_subsystem_line(subsystem_id: u16, subsystem_vendor_id: u16) -> (r: String) {
    format!(
        "endpoint: subsystem {:#06x}, subsystem vendor {:#06x}",
        subsystem_id,
        subsystem_vendor_id,
    )
}

/// Relies on std's `format!` macro: renders one device's status line.
#[verifier::external_body]
fn fmt_status_line(status: u16) -> (r: String) {
    format!("endpoint: status {:#06x}", status)
}

/// Relies on std's `format!` macro: renders one device's command line.
#[verifier::external_body]
fn fmt_command_line(command: u16) -> (r: String) {
    format!("endpoint: command {:#06x}", command)
}

/// Renders one line per discovered device with its subsystem id and
/// subsystem vendor id, in discovery order.
pub fn print_bus_devices<A: ConfigAccess>(bus: &PciBus, access: &A) -> (r: Vec<String>)
    ensures
        r@.len() == bus.devices@.len(),
{
    let data = bus.dump_devices(access);
    let mut lines: Vec<String> = Vec::new();
    let mut i: usize = 0;
    while i < data.len()
        invariant
            i <= data@.len(),
            data@.len() == bus.devices@.len(),
            lines@.len() == i,
        decreases data@.len() - i,
    {
        let (subsystem_id, subsystem_vendor_id) = data[i];
        lines.push(fmt_subsystem_line(subsystem_id, subsystem_vendor_id));
        i = i + 1;
    }
    lines
}

/// Renders one line per discovered device with its status register, in
/// discovery order.
pub fn print_bus_devices_status<A: ConfigAccess>(bus: &PciBus, access: &A) -> (r: Vec<String>)
    ensures
        r@.len() == bus.devices@.len(),
{
    let data = bus.dump_devices_status_registers(access);
    let mut lines: Vec<String> = Vec::new();
    let mut i: usize = 0;
    while i < data.len()
        invariant
            i <= data@.len(),
            data@.len() == bus.devices@.len(),
            lines@.len() == i,
        decreases data@.len() - i,
    {
        lines.push(fmt_status_line(data[i]));
        i = i + 1;
    }
    lines
}

/// Renders one line per discovered device with its command register, in
/// discovery order.
pub fn print_bus_devices_command<A: ConfigAccess>(bus: &PciBus, access: &A) -> (r: Vec<String>)
    ensures
        r@.len() == bus.devices@.len(),
{
    let data = bus.dump_devices_command_registers(access);
    let mut lines: Vec<String> = Vec::new();
    let mut i: usize = 0;
    while i < data.len()
        invariant
            i <= data@.len(),
            data@.len() == bus.devices@.len(),
            lines@.len() == i,
        decreases data@.len() - i,
    {
        lines.push(fmt_command_line(data[i]));
        i = i + 1;
    }
    lines
}

/// The ASCII character for one hexadecimal digit.
pub open spec fn spec_hex_digit(n: int) -> u8 {
    if n < 10 {
        (48 + n) as u8
    } else {
        (87 + n) as u8
    }
}

/// The ASCII character for one hexadecimal nibble.
fn hex_digit(n: usize) -> (r: u8)
    requires
        n < 16,
    ensures
        r == spec_hex_digit(n as int),
{
    if n < 10 {
        48 + n as u8
    } else {
        87 + n as u8
    }
}

/// Writes the low `width` hexadecimal digits of `value` into `buf` at
/// `pos`, most significant digit first, leaving every other byte alone,
/// and returns how many bytes were written.
pub fn format_hex_to_buf(buf: &mut Vec<u8>, pos: usize, value: usize, width: usize) -> (r: usize)
    requires
        pos + width <= old(buf)@.len(),
    ensures
        r == width,
        final(buf)@.len() == old(buf)@.len(),
        forall|k: int|
            0 <= k < old(buf)@.len() && !(pos <= k < pos + width) ==> final(buf)@[k] == old(
                buf,
            )@[k],
        forall|i: int|
            0 <= i < width ==> final(buf)@[pos + width - 1 - i] == spec_hex_digit(
                (value as int / #[trigger] pow(16, i as nat)) % 16,
            ),
{
    let mut v = value;
    let mut i: usize = 0;
    proof {
        lemma_pow0(16);
    }
    while i < width
        invariant
            i <= width,
            pos + width <= buf@.len(),
            buf@.len() == old(buf)@.len(),
            v == value as int / pow(16, i as nat),
            forall|k: int|
                0 <= k < old(buf)@.len() && !(pos <= k < pos + width) ==> buf@[k] == old(
                    buf,
                )@[k],
            forall|j: int|
                0 <= j < i ==> buf@[pos + width - 1 - j] == spec_hex_digit(
                    (value as int / #[trigger] pow(16, j as nat)) % 16,
                ),
        decreases width - i,
    {
        proof {
            lemma_pow_positive(16, i as nat);
        }
        let d = hex_digit(v % 16);
        assert(pos + width <= buf.len());
        let idx = pos + width - 1 - i;
        buf[idx] = d;
        proof {
            lemma_div_denominator(value as int, pow(16, i as nat), 16);
            lemma_pow_adds(16, i as nat, 1);
            lemma_pow1(16);
        }
        v = v / 16;
        i = i + 1;
    }
    width
}

} // verus!
