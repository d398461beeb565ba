use std::io::Write;

use ffxiv_archive::error::FfxivError;
use ffxiv_archive::ffxiv_file::{FfxivFile, FileType};
use ffxiv_archive::sqpack::SqPackIndexTableEntry;

fn push_le32(out: &mut Vec<u8>, v: u32) {
    out.extend_from_slice(&v.to_le_bytes());
}

fn deflate(data: &[u8]) -> Vec<u8> {
    let mut enc = flate2::write::DeflateEncoder::new(Vec::new(), flate2::Compression::default());
    enc.write_all(data).unwrap();
    enc.finish().unwrap()
}

/// Builds a `Standard` container at buffer offset 0 whose blocks hold the
/// given plaintexts.  `order` gives, for each descriptor slot, which
/// physical block it points at, so block-table order and physical layout can
/// differ.
fn build_container(parts: &[&[u8]], order: &[usize]) -> Vec<u8> {
    let compressed: Vec<Vec<u8>> = parts.iter().map(|p| deflate(p)).collect();
    // Physical placement in `order` sequence.
    let mut phys_off = vec![0u32; parts.len()];
    let mut cursor = 0u32;
    for &slot in order {
        phys_off[slot] = cursor;
        cursor += 16 + compressed[slot].len() as u32;
    }
    let header_size = 24 + 8 * parts.len() as u32;
    let mut b = Vec::new();
    push_le32(&mut b, header_size); // container header's own size
    push_le32(&mut b, 2); // Standard
    push_le32(&mut b, parts.iter().map(|p| p.len() as u32).sum()); // declared size
    push_le32(&mut b, 0); // unused
    push_le32(&mut b, 0); // unused
    push_le32(&mut b, parts.len() as u32); // block count
    for i in 0..parts.len() {
        push_le32(&mut b, phys_off[i]); // offset within blocks region
        b.extend_from_slice(&0u16.to_le_bytes());
        b.extend_from_slice(&0u16.to_le_bytes());
    }
    // Blocks region, in physical order.
    for &slot in order {
        assert_eq!(b.len() as u32, header_size + phys_off[slot]);
        push_le32(&mut b, 16);
        push_le32(&mut b, 0);
        push_le32(&mut b, compressed[slot].len() as u32);
        push_le32(&mut b, parts[slot].len() as u32);
        b.extend_from_slice(&compressed[slot]);
    }
    b
}

fn entry_at(offset: u32) -> SqPackIndexTableEntry {
    SqPackIndexTableEntry { hash: 0, data_file_id: 0, offset }
}

#[test]
fn reconstruct_concatenates_blocks_in_table_order() {
    // Physical layout deliberately scrambled: descriptor offsets are not
    // monotonically increasing, yet table order must govern assembly.
    let data = build_container(&[b"first-", b"second-", b"third"], &[1, 2, 0]);
    let f = FfxivFile::from_bytes(&data, "test/path", &entry_at(0)).unwrap();
    assert_eq!(f.contents().as_slice(), b"first-second-third");
    assert_eq!(f.file_name(), "test/path");
}

#[test]
fn reconstruct_single_block() {
    let data = build_container(&[b"hello world"], &[0]);
    let f = FfxivFile::from_bytes(&data, "p", &entry_at(0)).unwrap();
    assert_eq!(f.contents().as_slice(), b"hello world");
}

#[test]
fn reconstruct_at_nonzero_offset() {
    let container = build_container(&[b"xyz"], &[0]);
    let mut data = vec![0u8; 128];
    data.extend_from_slice(&container);
    let f = FfxivFile::from_bytes(&data, "p", &entry_at(128)).unwrap();
    assert_eq!(f.contents().as_slice(), b"xyz");
}

#[test]
fn non_standard_container_is_unsupported() {
    let mut data = build_container(&[b"x"], &[0]);
    data[4] = 3; // Model
    assert_eq!(
        FfxivFile::from_bytes(&data, "p", &entry_at(0)).unwrap_err(),
        FfxivError::UnsupportedFileType
    );
}

#[test]
fn unrecognized_file_type_tag_is_an_error() {
    let mut data = build_container(&[b"x"], &[0]);
    data[4] = 9;
    assert_eq!(
        FfxivFile::from_bytes(&data, "p", &entry_at(0)).unwrap_err(),
        FfxivError::UnknownFileType
    );
}

#[test]
fn truncated_container_is_an_error() {
    assert_eq!(
        FfxivFile::from_bytes(&[1, 2, 3], "p", &entry_at(0)).unwrap_err(),
        FfxivError::Truncated
    );
    let data = build_container(&[b"x"], &[0]);
    assert_eq!(
        FfxivFile::from_bytes(&data, "p", &entry_at(4096)).unwrap_err(),
        FfxivError::Truncated
    );
    // Compressed payload cut off.
    let mut cut = build_container(&[b"some longer plaintext body"], &[0]);
    cut.truncate(cut.len() - 4);
    assert_eq!(
        FfxivFile::from_bytes(&cut, "p", &entry_at(0)).unwrap_err(),
        FfxivError::Truncated
    );
}

#[test]
fn corrupt_deflate_stream_is_an_error() {
    let mut data = build_container(&[b"abcdefgh"], &[0]);
    // Overwrite the compressed payload with garbage of the same length.
    let payload_start = data.len() - deflate(b"abcdefgh").len();
    for byte in &mut data[payload_start..] {
        *byte = 0xFF;
    }
    assert_eq!(
        FfxivFile::from_bytes(&data, "p", &entry_at(0)).unwrap_err(),
        FfxivError::CorruptStream
    );
}

#[test]
fn file_type_codes() {
    assert_eq!(FileType::from_code(1).unwrap(), FileType::Empty);
    assert_eq!(FileType::from_code(2).unwrap(), FileType::Standard);
    assert_eq!(FileType::from_code(3).unwrap(), FileType::Model);
    assert_eq!(FileType::from_code(4).unwrap(), FileType::Texture);
    assert_eq!(FileType::from_code(0).unwrap_err(), FfxivError::UnknownFileType);
    assert_eq!(FileType::from_code(5).unwrap_err(), FfxivError::UnknownFileType);
}
