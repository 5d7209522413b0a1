use cxl_discovery::tables::{check_signature, walk, SdtHeader, SDT_HEADER_LEN};
use cxl_discovery::CxlError;

fn record(typ: u8, body: &[u8]) -> Vec<u8> {
    let len = (4 + body.len()) as u16;
    let mut v = vec![typ, 0, (len & 0xFF) as u8, (len >> 8) as u8];
    v.extend_from_slice(body);
    v
}

fn table(records: &[Vec<u8>]) -> Vec<u8> {
    let mut t = vec![0u8; SDT_HEADER_LEN];
    for r in records {
        t.extend_from_slice(r);
    }
    let len = t.len() as u32;
    t[4..8].copy_from_slice(&len.to_le_bytes());
    t
}

#[test]
fn walk_yields_records_in_layout_order() {
    let r1 = record(7, &[1, 2, 3, 4]);
    let r2 = record(9, &[5, 6]);
    let t = table(&[r1, r2]);
    let records = walk(&t, SDT_HEADER_LEN).unwrap();
    assert_eq!(records.len(), 2);
    assert_eq!(records[0].offset, 36);
    assert_eq!(records[0].typ, 7);
    assert_eq!(records[0].length, 8);
    assert_eq!(records[1].offset, 44);
    assert_eq!(records[1].typ, 9);
    assert_eq!(records[1].length, 6);
    let sum: usize = records.iter().map(|r| r.length as usize).sum();
    assert_eq!(sum, t.len() - SDT_HEADER_LEN);
}

#[test]
fn walk_of_bare_header_is_empty() {
    let t = table(&[]);
    let records = walk(&t, SDT_HEADER_LEN).unwrap();
    assert!(records.is_empty());
}

#[test]
fn walk_rejects_zero_length_record() {
    let good = record(7, &[1, 2, 3, 4]);
    let bad = vec![3u8, 0, 0, 0]; // declared length zero
    let t = table(&[good, bad]);
    assert_eq!(walk(&t, SDT_HEADER_LEN), Err(CxlError::MalformedRecord));
}

#[test]
fn walk_rejects_record_past_table_end() {
    let mut bad = record(3, &[1, 2, 3, 4]);
    bad[2] = 0xFF; // declared length far beyond the bytes present
    let t = table(&[bad]);
    assert_eq!(walk(&t, SDT_HEADER_LEN), Err(CxlError::MalformedRecord));
}

#[test]
fn walk_rejects_truncated_record_header() {
    let mut t = table(&[]);
    t.extend_from_slice(&[1, 0]); // two stray bytes: no room for a header
    let len = t.len() as u32;
    t[4..8].copy_from_slice(&len.to_le_bytes());
    assert_eq!(walk(&t, SDT_HEADER_LEN), Err(CxlError::MalformedRecord));
}

#[test]
fn walk_rejects_header_longer_than_table() {
    let t = vec![0u8; 8];
    assert_eq!(walk(&t, SDT_HEADER_LEN), Err(CxlError::MalformedRecord));
}

#[test]
fn signature_mismatch_means_table_not_found() {
    let mut t = vec![0u8; SDT_HEADER_LEN];
    t[0..4].copy_from_slice(b"SRAT");
    assert_eq!(check_signature(&t, b"SRAT"), Ok(()));
    assert_eq!(check_signature(&t, b"CEDT"), Err(CxlError::TableNotFound));
    assert_eq!(check_signature(&vec![1, 2], b"CEDT"), Err(CxlError::TableNotFound));
}

#[test]
fn sdt_header_fields_decode() {
    let mut t = vec![0u8; SDT_HEADER_LEN];
    t[0..4].copy_from_slice(b"CEDT");
    t[4..8].copy_from_slice(&36u32.to_le_bytes());
    t[8] = 2; // revision
    t[9] = 0xAB; // checksum
    t[10..16].copy_from_slice(b"OEMIDX");
    t[16..24].copy_from_slice(&0x1122_3344_5566_7788u64.to_le_bytes());
    t[24..28].copy_from_slice(&7u32.to_le_bytes());
    t[28..32].copy_from_slice(&0xDEAD_BEEFu32.to_le_bytes());
    t[32..36].copy_from_slice(&3u32.to_le_bytes());
    let h: SdtHeader = SdtHeader::decode(&t);
    assert_eq!(&h.signature, b"CEDT");
    assert_eq!(h.length, 36);
    assert_eq!(h.revision, 2);
    assert_eq!(h.checksum, 0xAB);
    assert_eq!(&h.oem_id, b"OEMIDX");
    assert_eq!(h.oem_table_id, 0x1122_3344_5566_7788);
    assert_eq!(h.oem_revision, 7);
    assert_eq!(h.creator_id, 0xDEAD_BEEF);
    assert_eq!(h.creator_revision, 3);
}
