use ffxiv_archive::error::FfxivError;
use ffxiv_archive::exd::{read_cell_data, ExcelDataFile, ExcelDataType};
use ffxiv_archive::exh::{
    ExcelColumn, ExcelColumnDataType, ExcelHeaderFile, ExcelLanguage, ExcelVariant,
};

fn push_be16(out: &mut Vec<u8>, v: u16) {
    out.extend_from_slice(&v.to_be_bytes());
}

fn push_be32(out: &mut Vec<u8>, v: u32) {
    out.extend_from_slice(&v.to_be_bytes());
}

/// A schema asset: data offset 8; columns UInt16@0, PackedBool0@2, Text@4;
/// one page [0, 1]; language English.
fn build_exh() -> Vec<u8> {
    let mut b = Vec::new();
    push_be32(&mut b, 0x45584846); // magic
    push_be16(&mut b, 3); // version
    push_be16(&mut b, 8); // data offset
    push_be16(&mut b, 3); // column count
    push_be16(&mut b, 1); // page count
    push_be16(&mut b, 1); // language count
    push_be16(&mut b, 0);
    b.push(0);
    b.push(1); // variant: Default
    push_be16(&mut b, 0);
    push_be32(&mut b, 1); // row count
    push_be32(&mut b, 0);
    push_be32(&mut b, 0);
    // columns
    push_be16(&mut b, 0x5); // UInt16
    push_be16(&mut b, 0);
    push_be16(&mut b, 0x19); // PackedBool0
    push_be16(&mut b, 2);
    push_be16(&mut b, 0x0); // Text
    push_be16(&mut b, 4);
    // pages
    push_be32(&mut b, 0);
    push_be32(&mut b, 1);
    // languages (little-endian)
    b.extend_from_slice(&2u16.to_le_bytes()); // English
    b
}

/// A data page with one row (id 1) matching `build_exh`'s schema:
/// UInt16 = 258, packed byte = 0b101, text "hi".
fn build_exd() -> Vec<u8> {
    let mut b = Vec::new();
    push_be32(&mut b, 0x45584446); // magic
    push_be16(&mut b, 2); // version
    push_be16(&mut b, 0);
    push_be32(&mut b, 8); // row directory byte size: one row
    for _ in 0..10 {
        push_be16(&mut b, 0); // reserved
    }
    assert_eq!(b.len(), 32);
    push_be32(&mut b, 1); // row id
    push_be32(&mut b, 40); // row offset
    assert_eq!(b.len(), 40);
    push_be32(&mut b, 14); // sub-header: row byte size
    push_be16(&mut b, 1); // sub-header: sub-row count
    // fixed region (8 bytes) at 46
    push_be16(&mut b, 258);
    b.push(0b0000_0101);
    b.push(0);
    push_be32(&mut b, 0); // text offset, relative to region end (54)
    // string blob
    b.extend_from_slice(b"hi\0");
    b
}

#[test]
fn schema_decodes() {
    let f = ExcelHeaderFile::from_bytes(&build_exh()).unwrap();
    assert_eq!(f.header.data_offset, 8);
    assert_eq!(f.header.column_count, 3);
    assert_eq!(f.header.page_count, 1);
    assert_eq!(f.header.language_count, 1);
    assert_eq!(f.header.variant, ExcelVariant::Default);
    assert_eq!(f.header.row_count, 1);
    assert_eq!(f.columns.len(), 3);
    assert_eq!(f.columns[0].data_type, ExcelColumnDataType::UInt16);
    assert_eq!(f.columns[1], ExcelColumn { data_type: ExcelColumnDataType::PackedBool0, offset: 2 });
    assert_eq!(f.columns[2].data_type, ExcelColumnDataType::Text);
    assert_eq!(f.pages.len(), 1);
    assert_eq!(f.pages[0].start_row_id, 0);
    assert_eq!(f.pages[0].row_count, 1);
    assert_eq!(f.languages, vec![ExcelLanguage::English]);
}

#[test]
fn schema_bad_magic() {
    let mut b = build_exh();
    b[0] = 0x00;
    assert_eq!(ExcelHeaderFile::from_bytes(&b).unwrap_err(), FfxivError::InvalidMagic);
}

#[test]
fn schema_unknown_variant() {
    let mut b = build_exh();
    b[17] = 7;
    assert_eq!(ExcelHeaderFile::from_bytes(&b).unwrap_err(), FfxivError::UnknownVariant);
}

#[test]
fn schema_unknown_column_type() {
    let mut b = build_exh();
    b[33] = 0x21; // first column's type code becomes 0x21
    assert_eq!(ExcelHeaderFile::from_bytes(&b).unwrap_err(), FfxivError::UnknownColumnType);
}

#[test]
fn schema_unknown_language() {
    let mut b = build_exh();
    let n = b.len();
    b[n - 2] = 9; // language code (little-endian low byte)
    assert_eq!(ExcelHeaderFile::from_bytes(&b).unwrap_err(), FfxivError::UnknownLanguage);
}

#[test]
fn schema_truncated() {
    assert_eq!(ExcelHeaderFile::from_bytes(&[0x45, 0x58]).unwrap_err(), FfxivError::Truncated);
    let b = build_exh();
    assert_eq!(ExcelHeaderFile::from_bytes(&b[..40]).unwrap_err(), FfxivError::Truncated);
}

#[test]
fn language_suffixes() {
    assert_eq!(ExcelLanguage::NoLanguage.as_country_code(), "");
    assert_eq!(ExcelLanguage::Japanese.as_country_code(), "_jp");
    assert_eq!(ExcelLanguage::English.as_country_code(), "_en");
    assert_eq!(ExcelLanguage::German.as_country_code(), "_de");
    assert_eq!(ExcelLanguage::French.as_country_code(), "_fr");
    assert_eq!(ExcelLanguage::ChineseSimplified.as_country_code(), "_ch");
    assert_eq!(ExcelLanguage::ChineseTraditional.as_country_code(), "_ch");
    assert_eq!(ExcelLanguage::Korean.as_country_code(), "_kr");
}

#[test]
fn data_page_decodes_row() {
    let exh = ExcelHeaderFile::from_bytes(&build_exh()).unwrap();
    let exd = ExcelDataFile::from_bytes(&build_exd(), &exh).unwrap();
    let rows = exd.into_inner();
    assert_eq!(rows.len(), 1);
    assert_eq!(rows[0].row_info().row_id, 1);
    let cells = rows[0].cells();
    assert_eq!(cells.len(), 3);
    assert_eq!(cells[0], ExcelDataType::U64(258));
    assert_eq!(cells[1], ExcelDataType::U64(1));
    assert_eq!(cells[2], ExcelDataType::Text("hi".to_string()));
}

#[test]
fn data_page_bad_magic() {
    let exh = ExcelHeaderFile::from_bytes(&build_exh()).unwrap();
    let mut b = build_exd();
    b[0] = 0;
    assert_eq!(ExcelDataFile::from_bytes(&b, &exh).unwrap_err(), FfxivError::InvalidMagic);
}

fn col(data_type: ExcelColumnDataType, offset: u16) -> ExcelColumn {
    ExcelColumn { data_type, offset }
}

#[test]
fn packed_bools_share_one_byte() {
    // Bit pattern 0b00000101: bits 0 and 2 set.
    let b = [0b0000_0101u8];
    let expected = [1u64, 0, 1, 0, 0, 0, 0, 0];
    let types = [
        ExcelColumnDataType::PackedBool0,
        ExcelColumnDataType::PackedBool1,
        ExcelColumnDataType::PackedBool2,
        ExcelColumnDataType::PackedBool3,
        ExcelColumnDataType::PackedBool4,
        ExcelColumnDataType::PackedBool5,
        ExcelColumnDataType::PackedBool6,
        ExcelColumnDataType::PackedBool7,
    ];
    for i in 0..8 {
        let c = read_cell_data(&b, 0, 1, &col(types[i], 0)).unwrap();
        assert_eq!(c, ExcelDataType::U64(expected[i]), "packed bit {}", i);
    }
}

#[test]
fn text_cell_reads_to_zero_terminator() {
    // Offset word 0 at the column; the region ends at 4, where a 5-byte run
    // is followed by a zero byte.
    let mut b = vec![0, 0, 0, 0];
    b.extend_from_slice(b"earth\0trailing");
    let c = read_cell_data(&b, 0, 4, &col(ExcelColumnDataType::Text, 0)).unwrap();
    assert_eq!(c, ExcelDataType::Text("earth".to_string()));
}

#[test]
fn text_cell_invalid_utf8_is_an_error() {
    let b = vec![0, 0, 0, 0, 0xC3, 0x28, 0];
    assert_eq!(
        read_cell_data(&b, 0, 4, &col(ExcelColumnDataType::Text, 0)).unwrap_err(),
        FfxivError::InvalidUtf8
    );
}

#[test]
fn text_cell_without_terminator_is_truncated() {
    let b = vec![0, 0, 0, 0, b'x', b'y'];
    assert_eq!(
        read_cell_data(&b, 0, 4, &col(ExcelColumnDataType::Text, 0)).unwrap_err(),
        FfxivError::Truncated
    );
}

#[test]
fn integer_cells_sign_extend() {
    let b = [0xFFu8, 0xFE, 0x80, 0x00, 0x01, 0x02, 0x03, 0x04];
    assert_eq!(
        read_cell_data(&b, 0, 8, &col(ExcelColumnDataType::Int8, 0)).unwrap(),
        ExcelDataType::I64(-1)
    );
    assert_eq!(
        read_cell_data(&b, 0, 8, &col(ExcelColumnDataType::Int16, 0)).unwrap(),
        ExcelDataType::I64(-2)
    );
    assert_eq!(
        read_cell_data(&b, 0, 8, &col(ExcelColumnDataType::Int32, 0)).unwrap(),
        ExcelDataType::I64(-98304) // 0xFFFE8000 as a signed 32-bit value
    );
    assert_eq!(
        read_cell_data(&b, 0, 8, &col(ExcelColumnDataType::Int64, 0)).unwrap(),
        ExcelDataType::I64(i64::from_be_bytes(b))
    );
    assert_eq!(
        read_cell_data(&b, 0, 8, &col(ExcelColumnDataType::UInt8, 0)).unwrap(),
        ExcelDataType::U64(0xFF)
    );
    assert_eq!(
        read_cell_data(&b, 0, 8, &col(ExcelColumnDataType::UInt16, 0)).unwrap(),
        ExcelDataType::U64(0xFFFE)
    );
    assert_eq!(
        read_cell_data(&b, 0, 8, &col(ExcelColumnDataType::UInt32, 0)).unwrap(),
        ExcelDataType::U64(0xFFFE8000)
    );
    assert_eq!(
        read_cell_data(&b, 0, 8, &col(ExcelColumnDataType::UInt64, 0)).unwrap(),
        ExcelDataType::U64(u64::from_be_bytes(b))
    );
    assert_eq!(
        read_cell_data(&b, 0, 8, &col(ExcelColumnDataType::Bool, 0)).unwrap(),
        ExcelDataType::U64(0xFF)
    );
}

#[test]
fn float_cell_keeps_ieee_bits() {
    let bits = 1.5f32.to_bits();
    let b = bits.to_be_bytes();
    assert_eq!(
        read_cell_data(&b, 0, 4, &col(ExcelColumnDataType::Float32, 0)).unwrap(),
        ExcelDataType::F32Bits(bits)
    );
    assert_eq!(f32::from_bits(bits), 1.5f32);
}

#[test]
fn column_type_codes() {
    assert_eq!(ExcelColumnDataType::from_code(0x0).unwrap(), ExcelColumnDataType::Text);
    assert_eq!(ExcelColumnDataType::from_code(0x9).unwrap(), ExcelColumnDataType::Float32);
    assert_eq!(ExcelColumnDataType::from_code(0x20).unwrap(), ExcelColumnDataType::PackedBool7);
    assert_eq!(ExcelColumnDataType::from_code(0x8).unwrap_err(), FfxivError::UnknownColumnType);
    assert_eq!(ExcelColumnDataType::from_code(0x21).unwrap_err(), FfxivError::UnknownColumnType);
}
