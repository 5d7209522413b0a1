//! The fixed-record-table walker.
//!
//! ACPI description tables (CEDT, SRAT) share one shape: a 36-byte system
//! description header followed by a run of self-describing records.  Every
//! record starts with `(type_tag: u8, reserved: u8, record_length: u16)`,
//! and the next record begins exactly `record_length` bytes after the
//! current one.  A record whose declared length is zero or runs past the
//! table end makes the whole table malformed: enumeration stops with an
//! error instead of looping or reading out of bounds.

use vstd::prelude::*;

use crate::CxlError;
use crate::bytes::{le16_at, le32_at, le64_at, read_u8, read_u16, read_u32, read_u64};

verus! {

/// Byte length of the common ACPI system description table header.
pub const SDT_HEADER_LEN: usize = 36;

/// A table blob is plausible when it is long enough for its own header and
/// its declared length equals the number of bytes actually present.
pub open spec fn table_wf(s: Seq<u8>) -> bool {
    &&& s.len() >= SDT_HEADER_LEN
    &&& le32_at(s, 4) == s.len()
}

/// The common header that opens every ACPI system description table.
#[derive(Clone, Copy, Debug)]
pub struct SdtHeader {
    pub signature: [u8; 4],
    pub length: u32,
    pub revision: u8,
    pub checksum: u8,
    pub oem_id: [u8; 6],
    pub oem_table_id: u64,
    pub oem_revision: u32,
    pub creator_id: u32,
    pub creator_revision: u32,
}

impl SdtHeader {
    /// Field-by-field meaning of a decoded header in terms of the table bytes.
    pub open spec fn matches(self, s: Seq<u8>) -> bool {
        &&& self.signature@ == s.subrange(0, 4)
        &&& self.length == le32_at(s, 4)
        &&& self.revision == s[8]
        &&& self.checksum == s[9]
        &&& self.oem_id@ == s.subrange(10, 16)
        &&& self.oem_table_id == le64_at(s, 16)
        &&& self.oem_revision == le32_at(s, 24)
        &&& self.creator_id == le32_at(s, 28)
        &&& self.creator_revision == le32_at(s, 32)
    }

    /// Copies the header fields out of the first 36 bytes of a table.
    pub fn decode(bytes: &Vec<u8>) -> (r: SdtHeader)
        requires
            bytes@.len() >= SDT_HEADER_LEN,
        ensures
            r.matches(bytes@),
    {
        let signature = [
            read_u8(bytes, 0),
            read_u8(bytes, 1),
            read_u8(bytes, 2),
            read_u8(bytes, 3),
        ];
        let oem_id = [
            read_u8(bytes, 10),
            read_u8(bytes, 11),
            read_u8(bytes, 12),
            read_u8(bytes, 13),
            read_u8(bytes, 14),
            read_u8(bytes, 15),
        ];
        let r = SdtHeader {
            signature,
            length: read_u32(bytes, 4),
            revision: read_u8(bytes, 8),
            checksum: read_u8(bytes, 9),
            oem_id,
            oem_table_id: read_u64(bytes, 16),
            oem_revision: read_u32(bytes, 24),
            creator_id: read_u32(bytes, 28),
            creator_revision: read_u32(bytes, 32),
        };
        proof {
            assert(r.signature@ =~= bytes@.subrange(0, 4));
            assert(r.oem_id@ =~= bytes@.subrange(10, 16));
        }
        r
    }
}

/// Checks that a blob handed back by the firmware-table lookup service
/// really carries the requested four-byte signature; a mismatch means the
/// requested table is absent.
pub fn check_signature(bytes: &Vec<u8>, expected: &[u8; 4]) -> (r: Result<(), CxlError>)
    ensures
        r is Ok <==> bytes@.len() >= 4 && bytes@.subrange(0, 4) =~= expected@,
        r matches Err(e) ==> e == CxlError::TableNotFound,
{
    if bytes.len() < 4 {
        return Err(CxlError::TableNotFound);
    }
    let ok = bytes[0] == expected[0] && bytes[1] == expected[1] && bytes[2] == expected[2]
        && bytes[3] == expected[3];
    proof {
        if ok {
            assert(bytes@.subrange(0, 4) =~= expected@);
        } else {
            assert(!(bytes@.subrange(0, 4) =~= expected@)) by {
                if bytes@.subrange(0, 4) =~= expected@ {
                    assert(bytes@[0] == expected@[0]);
                    assert(bytes@[1] == expected@[1]);
                    assert(bytes@[2] == expected@[2]);
                    assert(bytes@[3] == expected@[3]);
                }
            }
        }
    }
    if ok {
        Ok(())
    } else {
        Err(CxlError::TableNotFound)
    }
}

/// A view of one variable-length record inside a table: where it starts,
/// its type tag, and its declared byte length.
#[derive(Clone, Copy, Debug, PartialEq, Eq, Structural)]
pub struct RawRecord {
    pub offset: usize,
    pub typ: u8,
    pub length: u16,
}

/// The records of `t` from byte offset `off` to the table end, or `None`
/// when a record header does not fit in the remaining bytes, a declared
/// length is zero, or a record runs past the end of the table.
pub open spec fn spec_walk(t: Seq<u8>, off: int) -> Option<Seq<RawRecord>>
    decreases t.len() - off,
{
    if off < 0 {
        None
    } else if off == t.len() {
        Some(Seq::empty())
    } else if off + 4 > t.len() {
        None
    } else {
        let l = le16_at(t, off + 2) as int;
        if l == 0 || off + l > t.len() {
            None
        } else {
            match spec_walk(t, off + l) {
                Some(rest) => Some(
                    seq![
                        RawRecord {
                            offset: off as usize,
                            typ: t[off],
                            length: le16_at(t, off + 2),
                        },
                    ] + rest,
                ),
                None => None,
            }
        }
    }
}

/// The sum of the declared lengths of a run of records.
pub open spec fn sum_lengths(rs: Seq<RawRecord>) -> int
    decreases rs.len(),
{
    if rs.len() == 0 {
        0
    } else {
        rs[0].length + sum_lengths(rs.drop_first())
    }
}

/// Enumerates the records that follow the first `header_len` bytes of
/// `table`.  Returns every record in layout order, or `MalformedRecord`
/// as soon as a declared length is zero or would run past the table end.
pub fn walk(table: &Vec<u8>, header_len: usize) -> (r: Result<Vec<RawRecord>, CxlError>)
    ensures
        match r {
            Ok(records) => spec_walk(table@, header_len as int) == Some(records@),
            Err(e) => {
                &&& spec_walk(table@, header_len as int) is None
                &&& e == CxlError::MalformedRecord
            },
        },
{
    let n = table.len();
    let mut records: Vec<RawRecord> = Vec::new();
    let mut cur: usize = header_len;
    if cur > n {
        return Err(CxlError::MalformedRecord);
    }
    loop
        invariant
            cur <= n,
            n == table@.len(),
            match spec_walk(table@, cur as int) {
                Some(rest) => spec_walk(table@, header_len as int) == Some(records@ + rest),
                None => spec_walk(table@, header_len as int) is None,
            },
        decreases n - cur,
    {
        if cur == n {
            proof {
                assert(records@ + Seq::<RawRecord>::empty() =~= records@);
            }
            return Ok(records);
        }
        if n - cur < 4 {
            return Err(CxlError::MalformedRecord);
        }
        let l = read_u16(table, cur + 2) as usize;
        if l == 0 || l > n - cur {
            return Err(CxlError::MalformedRecord);
        }
        let typ = read_u8(table, cur);
        let rec = RawRecord { offset: cur, typ, length: l as u16 };
        proof {
            let t = table@;
            match spec_walk(t, cur + l) {
                Some(tail) => {
                    assert(spec_walk(t, cur as int) == Some(seq![rec] + tail));
                    assert((records@ + (seq![rec] + tail)) =~= (records@.push(rec) + tail));
                },
                None => {
                    assert(spec_walk(t, cur as int) is None);
                },
            }
        }
        records.push(rec);
        cur = cur + l;
    }
}

/// Law: whenever a table walks successfully, the declared lengths of the
/// records it yields sum to exactly the table length minus the walk's
/// starting offset — no byte is skipped and none is counted twice.
pub proof fn lemma_walk_sum_lengths(t: Seq<u8>, off: int)
    requires
        0 <= off <= t.len(),
        spec_walk(t, off) is Some,
    ensures
        sum_lengths(spec_walk(t, off).unwrap()) == t.len() - off,
    decreases t.len() - off,
{
    let recs = spec_walk(t, off).unwrap();
    if off == t.len() {
    } else {
        let l = le16_at(t, off + 2) as int;
        lemma_walk_sum_lengths(t, off + l);
        let rest = spec_walk(t, off + l).unwrap();
        assert(recs.drop_first() =~= rest);
    }
}

/// A record view that lies inside the table, spans at least one byte, and
/// carries the tag and length stored at its offset.
pub open spec fn rec_in_bounds(t: Seq<u8>, r: RawRecord) -> bool {
    &&& r.offset + 4 <= t.len()
    &&& 1 <= r.length
    &&& r.offset + r.length <= t.len()
    &&& r.typ == t[r.offset as int]
    &&& r.length == le16_at(t, r.offset + 2)
}

/// Every record reported by a successful walk lies inside the table, is at
/// least one byte long, and carries the tag and length stored at its offset.
pub proof fn lemma_walk_bounds(t: Seq<u8>, off: int)
    requires
        0 <= off,
        t.len() <= usize::MAX,
        spec_walk(t, off) is Some,
    ensures
        forall|i: int|
            0 <= i < spec_walk(t, off).unwrap().len() ==> rec_in_bounds(
                t,
                #[trigger] spec_walk(t, off).unwrap()[i],
            ),
    decreases t.len() - off,
{
    let recs = spec_walk(t, off).unwrap();
    if off == t.len() {
    } else {
        let l = le16_at(t, off + 2) as int;
        let rest = spec_walk(t, off + l).unwrap();
        lemma_walk_bounds(t, off + l);
        assert forall|i: int| 0 <= i < recs.len() implies rec_in_bounds(
            t,
            #[trigger] recs[i],
        ) by {
            if i > 0 {
                assert(recs[i] == rest[i - 1]);
            }
        }
    }
}

/// A stand-alone record image is well formed when it is at least as long
/// as the record header and its declared length equals its actual length.
pub open spec fn wf_record_blob(b: Seq<u8>) -> bool {
    &&& 4 <= b.len() <= 0xFFFF
    &&& le16_at(b, 2) == b.len()
}

/// The concatenation of a run of record images.
pub open spec fn concat_all(bs: Seq<Seq<u8>>) -> Seq<u8>
    decreases bs.len(),
{
    if bs.len() == 0 {
        Seq::empty()
    } else {
        bs[0] + concat_all(bs.drop_first())
    }
}

/// Law: a table built as a header followed by `N` well-formed records
/// walks to exactly those `N` records, in layout order, and the declared
/// lengths sum to the table length minus the header length.
pub proof fn lemma_walk_well_formed(t: Seq<u8>, off: int, blobs: Seq<Seq<u8>>)
    requires
        0 <= off <= t.len() <= usize::MAX,
        forall|i: int| 0 <= i < blobs.len() ==> wf_record_blob(#[trigger] blobs[i]),
        t.subrange(off, t.len() as int) == concat_all(blobs),
    ensures
        spec_walk(t, off) is Some,
        spec_walk(t, off).unwrap().len() == blobs.len(),
        forall|i: int|
            0 <= i < blobs.len() ==> {
                let r = #[trigger] spec_walk(t, off).unwrap()[i];
                &&& r.length == blobs[i].len()
                &&& r.typ == blobs[i][0]
            },
        sum_lengths(spec_walk(t, off).unwrap()) == t.len() - off,
    decreases blobs.len(),
{
    let tail = t.subrange(off, t.len() as int);
    if blobs.len() == 0 {
        assert(tail.len() == 0);
        assert(off == t.len());
    } else {
        let b0 = blobs[0];
        let l = b0.len() as int;
        let rest_cat = concat_all(blobs.drop_first());
        assert(tail == b0 + rest_cat);
        assert(tail.len() == l + rest_cat.len());
        assert(off + l <= t.len());
        assert forall|k: int| 0 <= k < l implies t[off + k] == b0[k] by {
            assert(tail[k] == b0[k]);
        }
        assert(le16_at(t, off + 2) == le16_at(b0, 2));
        assert(t[off] == b0[0]);
        assert(t.subrange(off + l, t.len() as int) =~= rest_cat) by {
            assert forall|k: int| 0 <= k < rest_cat.len() implies t.subrange(
                off + l,
                t.len() as int,
            )[k] == rest_cat[k] by {
                assert(tail[l + k] == (b0 + rest_cat)[l + k]);
            }
        }
        lemma_walk_well_formed(t, off + l, blobs.drop_first());
        let rec = RawRecord { offset: off as usize, typ: t[off], length: le16_at(t, off + 2) };
        let rest = spec_walk(t, off + l).unwrap();
        assert(spec_walk(t, off) == Some(seq![rec] + rest));
        let all = seq![rec] + rest;
        assert((seq![rec] + rest).drop_first() =~= rest);
        assert forall|i: int| 0 <= i < blobs.len() implies {
            let r = #[trigger] spec_walk(t, off).unwrap()[i];
            &&& r.length == blobs[i].len()
            &&& r.typ == blobs[i][0]
        } by {
            if i > 0 {
                assert(all[i] == rest[i - 1]);
                assert(blobs[i] == blobs.drop_first()[i - 1]);
            }
        }
    }
}

/// Law: a table whose records are well formed up to some point and then
/// carry a declared length that is zero or runs past the table end walks
/// to `None`: enumeration aborts at the malformed record.
pub proof fn lemma_walk_malformed(t: Seq<u8>, off: int, blobs: Seq<Seq<u8>>, m: int)
    requires
        0 <= off <= m <= t.len() <= usize::MAX,
        forall|i: int| 0 <= i < blobs.len() ==> wf_record_blob(#[trigger] blobs[i]),
        t.subrange(off, m) == concat_all(blobs),
        m < t.len(),
        m + 4 > t.len() || le16_at(t, m + 2) == 0 || m + le16_at(t, m + 2) > t.len(),
    ensures
        spec_walk(t, off) is None,
    decreases blobs.len(),
{
    if blobs.len() == 0 {
        assert(t.subrange(off, m).len() == 0);
        assert(off == m);
    } else {
        let b0 = blobs[0];
        let l = b0.len() as int;
        let prefix = t.subrange(off, m);
        let rest_cat = concat_all(blobs.drop_first());
        assert(prefix == b0 + rest_cat);
        assert(prefix.len() == l + rest_cat.len());
        assert(off + l <= m);
        assert forall|k: int| 0 <= k < l implies t[off + k] == b0[k] by {
            assert(prefix[k] == b0[k]);
        }
        assert(le16_at(t, off + 2) == le16_at(b0, 2));
        assert(t.subrange(off + l, m) =~= rest_cat) by {
            assert forall|k: int| 0 <= k < rest_cat.len() implies t.subrange(off + l, m)[k]
                == rest_cat[k] by {
                assert(prefix[l + k] == (b0 + rest_cat)[l + k]);
            }
        }
        lemma_walk_malformed(t, off + l, blobs.drop_first(), m);
    }
}

} // verus!
