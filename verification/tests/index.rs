use ffxiv_archive::error::FfxivError;
use ffxiv_archive::sqpack::{crc32, SqPackIndexFile, SqPackIndexTableEntry};

fn push_le32(out: &mut Vec<u8>, v: u32) {
    out.extend_from_slice(&v.to_le_bytes());
}

fn push_le64(out: &mut Vec<u8>, v: u64) {
    out.extend_from_slice(&v.to_le_bytes());
}

/// Builds one physical index file: pack header (platform 0, own size 24),
/// secondary header pointing at a table right after it.
fn build_index1(entries: &[(u64, u64)]) -> Vec<u8> {
    let mut b = Vec::new();
    push_le64(&mut b, 0x00506153_00506153); // magic, ignored
    push_le32(&mut b, 0); // platform: Win32
    push_le32(&mut b, 24); // pack header's own size
    push_le32(&mut b, 1); // version
    push_le32(&mut b, 2); // pack type
    push_le32(&mut b, 16); // secondary header size
    push_le32(&mut b, 0); // type
    push_le32(&mut b, 40); // entry table offset
    push_le32(&mut b, (entries.len() * 16) as u32); // entry table byte size
    for (hash, data) in entries {
        push_le64(&mut b, *hash);
        push_le64(&mut b, *data);
    }
    b
}

fn build_index2(entries: &[(u32, u32)]) -> Vec<u8> {
    let mut b = Vec::new();
    push_le64(&mut b, 0x00506153_00506153);
    push_le32(&mut b, 0);
    push_le32(&mut b, 24);
    push_le32(&mut b, 1);
    push_le32(&mut b, 2);
    push_le32(&mut b, 16);
    push_le32(&mut b, 0);
    push_le32(&mut b, 40);
    push_le32(&mut b, (entries.len() * 8) as u32);
    for (hash, data) in entries {
        push_le32(&mut b, *hash);
        push_le32(&mut b, *data);
    }
    b
}

#[test]
fn format1_record_unpacking() {
    // data = 0x20: shifted right once -> 0x10; id = low 3 bits = 0;
    // offset = (0x10 & !7) << 4 = 0x100.
    let b1 = build_index1(&[(0x1234, 0x20)]);
    let b2 = build_index2(&[]);
    let idx = SqPackIndexFile::from_bytes(&b1, &b2).unwrap();
    let e = idx.entry_by_hash(0x1234).unwrap();
    assert_eq!(e.hash, 0x1234);
    assert_eq!(e.data_file_id, 0);
    assert_eq!(e.offset, 0x100);
}

#[test]
fn format1_data_file_id_mask() {
    // data = 0x0F: shifted -> 0x07; id = 7; offset = 0.
    let b1 = build_index1(&[(0x1, 0x0F)]);
    let b2 = build_index2(&[]);
    let idx = SqPackIndexFile::from_bytes(&b1, &b2).unwrap();
    let e = idx.entry_by_hash(0x1).unwrap();
    assert_eq!(e.data_file_id, 7);
    assert_eq!(e.offset, 0);
}

#[test]
fn format2_record_unpacking() {
    // data = 0x4C: shifted -> 0x26; id = 0x26 & 0b1110 = 6;
    // offset = (0x26 & !7) << 4 = 0x20 << 4 = 0x200.
    let b1 = build_index1(&[]);
    let b2 = build_index2(&[(0x77, 0x4C)]);
    let idx = SqPackIndexFile::from_bytes(&b1, &b2).unwrap();
    let e = idx.entry_by_hash(0x77).unwrap();
    assert_eq!(e.hash, 0x77);
    assert_eq!(e.data_file_id, 6);
    assert_eq!(e.offset, 0x200);
}

#[test]
fn merge_prefers_format1_on_collision() {
    // The same hash holds different entries in the two tables; the merged
    // store must resolve it to the format-1 entry.
    let b1 = build_index1(&[(0x1234, 0x20)]); // offset 0x100
    let b2 = build_index2(&[(0x1234, 0x40), (0x9999, 0x40)]); // offset 0x200
    let idx = SqPackIndexFile::from_bytes(&b1, &b2).unwrap();
    let e = idx.entry_by_hash(0x1234).unwrap();
    assert_eq!(e.offset, 0x100, "format-1 entry must win the merge");
    // A hash only format 2 has still resolves.
    let e2 = idx.entry_by_hash(0x9999).unwrap();
    assert_eq!(e2.offset, 0x200);
}

#[test]
fn lookup_falls_back_to_full_path_hash() {
    // The index holds only the full-path hash of this path, not the
    // composite (directory, file) hash.
    let full = crc32("exd/somefile.exh") as u32;
    let b1 = build_index1(&[]);
    let b2 = build_index2(&[(full, 0x20)]);
    let idx = SqPackIndexFile::from_bytes(&b1, &b2).unwrap();
    let e = idx.entry_from_path("exd/somefile.exh").expect("full-path hash entry found");
    assert_eq!(e.hash, full as u64);
}

#[test]
fn lookup_prefers_composite_hash() {
    let dir = crc32("exd") as u64;
    let file = crc32("somefile.exh") as u64;
    let composite = (dir << 32) | file;
    let full = crc32("exd/somefile.exh");
    let b1 = build_index1(&[(composite, 0x20)]); // offset 0x100
    let b2 = build_index2(&[(full, 0x40)]); // offset 0x200
    let idx = SqPackIndexFile::from_bytes(&b1, &b2).unwrap();
    let e = idx.entry_from_path("exd/somefile.exh").unwrap();
    assert_eq!(e.offset, 0x100, "composite hash is consulted first");
}

#[test]
fn lookup_on_absent_path_returns_none() {
    let b1 = build_index1(&[(0x1, 0x20)]);
    let b2 = build_index2(&[]);
    let idx = SqPackIndexFile::from_bytes(&b1, &b2).unwrap();
    assert!(idx.entry_from_path("exd/not_there.exh").is_none());
    assert!(idx.entry_from_path("no_slash").is_none());
}

#[test]
fn unknown_platform_tag_is_an_error() {
    let mut b1 = build_index1(&[]);
    b1[8] = 9; // platform tag out of range
    let b2 = build_index2(&[]);
    assert_eq!(SqPackIndexFile::from_bytes(&b1, &b2).unwrap_err(), FfxivError::UnknownPlatform);
}

#[test]
fn truncated_index_is_an_error() {
    let b2 = build_index2(&[]);
    assert_eq!(SqPackIndexFile::from_bytes(&[1, 2, 3], &b2).unwrap_err(), FfxivError::Truncated);
    // A table byte-size that runs past the end of the file.
    let mut b1 = build_index1(&[(0x1, 0x20)]);
    b1.truncate(48); // half an entry
    assert_eq!(SqPackIndexFile::from_bytes(&b1, &b2).unwrap_err(), FfxivError::Truncated);
}

#[test]
fn entry_fields_are_copyable_values() {
    let e = SqPackIndexTableEntry { hash: 5, data_file_id: 1, offset: 64 };
    let f = e;
    assert_eq!(e, f);
}
