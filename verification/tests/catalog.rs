use ffxiv_archive::error::FfxivError;
use ffxiv_archive::exh::ExcelHeaderFile;
use ffxiv_archive::ffxiv_file::FfxivFile;
use ffxiv_archive::ffxiv_library::{
    choose_language_suffix, collect_table_rows, dat_rel_path, exd_page_path, exh_path,
    index_rel_path, FfxivLibrary,
};
use ffxiv_archive::file_key::{Category, FileKey, Repository};

fn push_be16(out: &mut Vec<u8>, v: u16) {
    out.extend_from_slice(&v.to_be_bytes());
}

fn push_be32(out: &mut Vec<u8>, v: u32) {
    out.extend_from_slice(&v.to_be_bytes());
}

fn push_le32(out: &mut Vec<u8>, v: u32) {
    out.extend_from_slice(&v.to_le_bytes());
}

/// Same schema shape as the table tests: data offset 8, one UInt16 column,
/// one page, English.
fn build_exh() -> Vec<u8> {
    let mut b = Vec::new();
    push_be32(&mut b, 0x45584846);
    push_be16(&mut b, 3);
    push_be16(&mut b, 8); // data offset
    push_be16(&mut b, 1); // columns
    push_be16(&mut b, 2); // pages
    push_be16(&mut b, 1); // languages
    push_be16(&mut b, 0);
    b.push(0);
    b.push(1);
    push_be16(&mut b, 0);
    push_be32(&mut b, 2);
    push_be32(&mut b, 0);
    push_be32(&mut b, 0);
    push_be16(&mut b, 0x5); // UInt16 @ 0
    push_be16(&mut b, 0);
    push_be32(&mut b, 0); // page 0: [0, 1]
    push_be32(&mut b, 1);
    push_be32(&mut b, 2); // page 1: [2, 1]
    push_be32(&mut b, 1);
    b.extend_from_slice(&2u16.to_le_bytes());
    b
}

/// One row (given id) whose single UInt16 cell holds `value`.
fn build_exd(row_id: u32, value: u16) -> Vec<u8> {
    let mut b = Vec::new();
    push_be32(&mut b, 0x45584446);
    push_be16(&mut b, 2);
    push_be16(&mut b, 0);
    push_be32(&mut b, 8);
    for _ in 0..10 {
        push_be16(&mut b, 0);
    }
    push_be32(&mut b, row_id);
    push_be32(&mut b, 40);
    push_be32(&mut b, 14);
    push_be16(&mut b, 1);
    push_be16(&mut b, value);
    b.extend_from_slice(&[0u8; 6]);
    b
}

fn build_index1(entries: &[(u64, u64)]) -> Vec<u8> {
    let mut b = Vec::new();
    b.extend_from_slice(&[0u8; 8]);
    push_le32(&mut b, 0);
    push_le32(&mut b, 24);
    push_le32(&mut b, 1);
    push_le32(&mut b, 2);
    push_le32(&mut b, 16);
    push_le32(&mut b, 0);
    push_le32(&mut b, 40);
    push_le32(&mut b, (entries.len() * 16) as u32);
    for (hash, data) in entries {
        b.extend_from_slice(&hash.to_le_bytes());
        b.extend_from_slice(&data.to_le_bytes());
    }
    b
}

fn excel_key() -> FileKey {
    FileKey { category: Category::ExcelData, repository: Repository(0) }
}

#[test]
fn file_key_classification() {
    assert_eq!(FileKey::new("exd/item.exh").unwrap(), excel_key());
    assert_eq!(
        FileKey::new("bg/ex2/terrain.dat").unwrap(),
        FileKey { category: Category::Bg, repository: Repository(2) }
    );
    // A second segment that names no repository falls back to the base one.
    assert_eq!(
        FileKey::new("chara/monster/m0001.model").unwrap(),
        FileKey { category: Category::Character, repository: Repository(0) }
    );
    assert_eq!(FileKey::new("nonsense/item.exh").unwrap_err(), FfxivError::UnknownCategory);
    assert_eq!(FileKey::new("noslash").unwrap_err(), FfxivError::UnknownCategory);
}

#[test]
fn physical_path_construction() {
    let key = excel_key();
    assert_eq!(index_rel_path(&key), b"ffxiv/0a0000.win32.index".to_vec());
    assert_eq!(dat_rel_path(&key, 0), b"ffxiv/0a0000.win32.dat0".to_vec());
    assert_eq!(dat_rel_path(&key, 12), b"ffxiv/0a0000.win32.dat12".to_vec());
    let key2 = FileKey { category: Category::Bg, repository: Repository(3) };
    assert_eq!(index_rel_path(&key2), b"ex3/020300.win32.index".to_vec());
}

#[test]
fn table_asset_paths() {
    assert_eq!(exh_path("exd/item"), b"exd/item.exh".to_vec());
    assert_eq!(exd_page_path("exd/item", 0, "_en"), b"exd/item_0_en.exd".to_vec());
    assert_eq!(exd_page_path("exd/item", 500, ""), b"exd/item_500.exd".to_vec());
}

#[test]
fn language_suffix_prefers_english() {
    let exh = ExcelHeaderFile::from_bytes(&build_exh()).unwrap();
    assert_eq!(choose_language_suffix(&exh), "_en");
    // Without English the no-language suffix is used.
    let mut b = build_exh();
    let n = b.len();
    b[n - 2] = 0; // language code: none
    let exh2 = ExcelHeaderFile::from_bytes(&b).unwrap();
    assert_eq!(choose_language_suffix(&exh2), "");
}

#[test]
fn catalog_loads_and_resolves() {
    let dir = ffxiv_archive::sqpack::crc32("exd") as u64;
    let file = ffxiv_archive::sqpack::crc32("item.exh") as u64;
    let composite = (dir << 32) | file;
    let b1 = build_index1(&[(composite, 0x20)]);
    let b2 = {
        let mut b = Vec::new();
        b.extend_from_slice(&[0u8; 8]);
        push_le32(&mut b, 0);
        push_le32(&mut b, 24);
        push_le32(&mut b, 1);
        push_le32(&mut b, 2);
        push_le32(&mut b, 16);
        push_le32(&mut b, 0);
        push_le32(&mut b, 40);
        push_le32(&mut b, 0);
        b
    };
    let key = excel_key();
    let mut lib = FfxivLibrary::new();
    assert!(!lib.has_index(&key));
    assert_eq!(
        lib.entry_for_path(&key, "exd/item.exh").unwrap_err(),
        FfxivError::NotFound,
        "an unloaded index resolves nothing"
    );
    lib.load_index(&key, &b1, &b2).unwrap();
    assert!(lib.has_index(&key));
    let entry = lib.entry_for_path(&key, "exd/item.exh").unwrap();
    assert_eq!(entry.offset, 0x100);
    assert_eq!(
        lib.entry_for_path(&key, "exd/other.exh").unwrap_err(),
        FfxivError::NotFound
    );
}

#[test]
fn catalog_rejects_bad_index_bytes() {
    let mut lib = FfxivLibrary::new();
    let key = excel_key();
    assert_eq!(lib.load_index(&key, &[1, 2], &[3, 4]).unwrap_err(), FfxivError::Truncated);
    assert!(!lib.has_index(&key));
}

#[test]
fn table_rows_skip_missing_pages() {
    // The schema declares pages [0, 2]; the English page exists for page 0
    // but not for page 2.  The query must return page 0's rows without
    // raising.
    let exh = ExcelHeaderFile::from_bytes(&build_exh()).unwrap();
    let page0 = FfxivFile::new("exd/item_0_en.exd".to_string(), build_exd(0, 41));
    let pages = vec![Some(page0), None];
    let rows = collect_table_rows(&exh, pages).unwrap();
    assert_eq!(rows.len(), 1);
    assert_eq!(rows[0].row_info().row_id, 0);
    assert_eq!(rows[0].cells()[0], ffxiv_archive::exd::ExcelDataType::U64(41));
}

#[test]
fn table_rows_concatenate_pages_in_order() {
    let exh = ExcelHeaderFile::from_bytes(&build_exh()).unwrap();
    let pages = vec![
        Some(FfxivFile::new("p0".to_string(), build_exd(0, 10))),
        Some(FfxivFile::new("p1".to_string(), build_exd(2, 20))),
    ];
    let rows = collect_table_rows(&exh, pages).unwrap();
    assert_eq!(rows.len(), 2);
    assert_eq!(rows[0].row_info().row_id, 0);
    assert_eq!(rows[1].row_info().row_id, 2);
}

#[test]
fn undecodable_fetched_page_fails_the_query() {
    let exh = ExcelHeaderFile::from_bytes(&build_exh()).unwrap();
    let pages = vec![Some(FfxivFile::new("bad".to_string(), vec![1, 2, 3]))];
    assert_eq!(collect_table_rows(&exh, pages).unwrap_err(), FfxivError::Truncated);
}

#[test]
fn error_descriptions_are_stable() {
    assert_eq!(FfxivError::NotFound.describe(), "NotFound");
    assert_eq!(FfxivError::InvalidMagic.describe(), "InvalidMagic");
}
