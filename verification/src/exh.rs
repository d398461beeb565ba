//! The table-schema decoder.
//!
//! A schema asset describes a columnar table: the byte size of each row's
//! fixed-field region, the typed columns and their offsets inside that
//! region, the row pages the table is split into, and the language variants
//! the table's data pages exist in.  All multi-byte schema fields are
//! big-endian except the stored language codes, which are little-endian.

use vstd::prelude::*;
use crate::bytes::{be16, be32, le16, read_be16, read_be32, read_le16};
use crate::error::FfxivError;

verus! {

/// The magic tag a schema asset must start with.
pub open spec fn spec_exh_magic() -> u32 {
    0x45584846
}

/// The typed interpretations a column can declare.  The eight packed-boolean
/// variants share a stored byte and test bits 0 through 7 of it.
#[derive(Debug, Clone, Copy, PartialEq, Eq, Structural)]
pub enum ExcelColumnDataType {
    Text,
    Bool,
    Int8,
    UInt8,
    Int16,
    UInt16,
    Int32,
    UInt32,
    Float32,
    Int64,
    UInt64,
    PackedBool0,
    PackedBool1,
    PackedBool2,
    PackedBool3,
    PackedBool4,
    PackedBool5,
    PackedBool6,
    PackedBool7,
}

/// The column data type a stored type code names, if any.
pub open spec fn spec_column_type(code: u16) -> Option<ExcelColumnDataType> {
    if code == 0x0 {
        Some(ExcelColumnDataType::Text)
    } else if code == 0x1 {
        Some(ExcelColumnDataType::Bool)
    } else if code == 0x2 {
        Some(ExcelColumnDataType::Int8)
    } else if code == 0x3 {
        Some(ExcelColumnDataType::UInt8)
    } else if code == 0x4 {
        Some(ExcelColumnDataType::Int16)
    } else if code == 0x5 {
        Some(ExcelColumnDataType::UInt16)
    } else if code == 0x6 {
        Some(ExcelColumnDataType::Int32)
    } else if code == 0x7 {
        Some(ExcelColumnDataType::UInt32)
    } else if code == 0x9 {
        Some(ExcelColumnDataType::Float32)
    } else if code == 0xA {
        Some(ExcelColumnDataType::Int64)
    } else if code == 0xB {
        Some(ExcelColumnDataType::UInt64)
    } else if code == 0x19 {
        Some(ExcelColumnDataType::PackedBool0)
    } else if code == 0x1A {
        Some(ExcelColumnDataType::PackedBool1)
    } else if code == 0x1B {
        Some(ExcelColumnDataType::PackedBool2)
    } else if code == 0x1C {
        Some(ExcelColumnDataType::PackedBool3)
    } else if code == 0x1D {
        Some(ExcelColumnDataType::PackedBool4)
    } else if code == 0x1E {
        Some(ExcelColumnDataType::PackedBool5)
    } else if code == 0x1F {
        Some(ExcelColumnDataType::PackedBool6)
    } else if code == 0x20 {
        Some(ExcelColumnDataType::PackedBool7)
    } else {
        None
    }
}

impl ExcelColumnDataType {
    /// Maps a stored type code; an unrecognized code is an error, never a
    /// panic.
    pub fn from_code(code: u16) -> (r: Result<ExcelColumnDataType, FfxivError>)
        ensures
            match r {
                Ok(t) => spec_column_type(code) == Some(t),
                Err(e) => e == FfxivError::UnknownColumnType && spec_column_type(code) is None,
            },
    {
        match code {
            0x0 => Ok(ExcelColumnDataType::Text),
            0x1 => Ok(ExcelColumnDataType::Bool),
            0x2 => Ok(ExcelColumnDataType::Int8),
            0x3 => Ok(ExcelColumnDataType::UInt8),
            0x4 => Ok(ExcelColumnDataType::Int16),
            0x5 => Ok(ExcelColumnDataType::UInt16),
            0x6 => Ok(ExcelColumnDataType::Int32),
            0x7 => Ok(ExcelColumnDataType::UInt32),
            0x9 => Ok(ExcelColumnDataType::Float32),
            0xA => Ok(ExcelColumnDataType::Int64),
            0xB => Ok(ExcelColumnDataType::UInt64),
            0x19 => Ok(ExcelColumnDataType::PackedBool0),
            0x1A => Ok(ExcelColumnDataType::PackedBool1),
            0x1B => Ok(ExcelColumnDataType::PackedBool2),
            0x1C => Ok(ExcelColumnDataType::PackedBool3),
            0x1D => Ok(ExcelColumnDataType::PackedBool4),
            0x1E => Ok(ExcelColumnDataType::PackedBool5),
            0x1F => Ok(ExcelColumnDataType::PackedBool6),
            0x20 => Ok(ExcelColumnDataType::PackedBool7),
            _ => Err(FfxivError::UnknownColumnType),
        }
    }
}

/// One column: its declared type and its byte offset within a row's
/// fixed-field region.
#[derive(Debug, Clone, Copy, PartialEq, Eq, Structural)]
pub struct ExcelColumn {
    pub data_type: ExcelColumnDataType,
    pub offset: u16,
}

/// One row page: the first row id it holds and how many rows it spans.
#[derive(Debug, Clone, Copy, PartialEq, Eq, Structural)]
pub struct ExcelPageInfo {
    pub start_row_id: u32,
    pub row_count: u32,
}

/// The table layout variants a schema can declare.
#[derive(Debug, Clone, Copy, PartialEq, Eq, Structural)]
pub enum ExcelVariant {
    Default,
    SubRows,
}

/// The languages a table's data pages can exist in.
#[derive(Debug, Clone, Copy, PartialEq, Eq, Structural)]
pub enum ExcelLanguage {
    NoLanguage,
    Japanese,
    English,
    German,
    French,
    ChineseSimplified,
    ChineseTraditional,
    Korean,
}

/// The language a stored code names, if any.
pub open spec fn spec_language(code: u16) -> Option<ExcelLanguage> {
    if code == 0 {
        Some(ExcelLanguage::NoLanguage)
    } else if code == 1 {
        Some(ExcelLanguage::Japanese)
    } else if code == 2 {
        Some(ExcelLanguage::English)
    } else if code == 3 {
        Some(ExcelLanguage::German)
    } else if code == 4 {
        Some(ExcelLanguage::French)
    } else if code == 5 {
        Some(ExcelLanguage::ChineseSimplified)
    } else if code == 6 {
        Some(ExcelLanguage::ChineseTraditional)
    } else if code == 7 {
        Some(ExcelLanguage::Korean)
    } else {
        None
    }
}

/// The file-name suffix a language's data pages carry.
pub open spec fn spec_country_code(l: ExcelLanguage) -> Seq<char> {
    match l {
        ExcelLanguage::NoLanguage => ""@,
        ExcelLanguage::Japanese => "_jp"@,
        ExcelLanguage::English => "_en"@,
        ExcelLanguage::German => "_de"@,
        ExcelLanguage::French => "_fr"@,
        ExcelLanguage::ChineseSimplified => "_ch"@,
        ExcelLanguage::ChineseTraditional => "_ch"@,
        ExcelLanguage::Korean => "_kr"@,
    }
}

impl ExcelLanguage {
    /// Maps a stored language code; an unrecognized code is an error, never
    /// a panic.
    pub fn from_code(code: u16) -> (r: Result<ExcelLanguage, FfxivError>)
        ensures
            match r {
                Ok(l) => spec_language(code) == Some(l),
                Err(e) => e == FfxivError::UnknownLanguage && spec_language(code) is None,
            },
    {
        match code {
            0 => Ok(ExcelLanguage::NoLanguage),
            1 => Ok(ExcelLanguage::Japanese),
            2 => Ok(ExcelLanguage::English),
            3 => Ok(ExcelLanguage::German),
            4 => Ok(ExcelLanguage::French),
            5 => Ok(ExcelLanguage::ChineseSimplified),
            6 => Ok(ExcelLanguage::ChineseTraditional),
            7 => Ok(ExcelLanguage::Korean),
            _ => Err(FfxivError::UnknownLanguage),
        }
    }

    /// The file-name suffix this language's data pages carry (empty for the
    /// no-language tag).
    pub fn as_country_code(&self) -> (r: &'static str)
        ensures
            r@ == spec_country_code(*self),
    {
        match *self {
            ExcelLanguage::NoLanguage => "",
            ExcelLanguage::Japanese => "_jp",
            ExcelLanguage::English => "_en",
            ExcelLanguage::German => "_de",
            ExcelLanguage::French => "_fr",
            ExcelLanguage::ChineseSimplified => "_ch",
            ExcelLanguage::ChineseTraditional => "_ch",
            ExcelLanguage::Korean => "_kr",
        }
    }
}

/// The fixed part of a schema: sizes, counts, variant and row count.
#[derive(Debug, Clone, Copy, PartialEq, Eq, Structural)]
pub struct ExcelHeader {
    /// Byte size of each row's fixed-field region.
    pub data_offset: u16,
    pub column_count: u16,
    pub page_count: u16,
    pub language_count: u16,
    pub variant: ExcelVariant,
    pub row_count: u32,
}

/// The mathematical content of a decoded schema asset.
pub struct ExhModel {
    pub header: ExcelHeader,
    pub columns: Seq<ExcelColumn>,
    pub pages: Seq<ExcelPageInfo>,
    pub languages: Seq<ExcelLanguage>,
}

/// The first `n` column descriptors of the table at `off` (4 bytes each:
/// big-endian type code, big-endian offset); the first unrecognized type
/// code's error wins.
pub open spec fn spec_parse_columns(b: Seq<u8>, off: int, n: int) -> Result<
    Seq<ExcelColumn>,
    FfxivError,
>
    decreases n,
{
    if n <= 0 {
        Ok(Seq::empty())
    } else {
        match spec_parse_columns(b, off, n - 1) {
            Err(e) => Err(e),
            Ok(pre) => match spec_column_type(be16(b, off + 4 * (n - 1))) {
                None => Err(FfxivError::UnknownColumnType),
                Some(t) => Ok(
                    pre.push(
                        ExcelColumn { data_type: t, offset: be16(b, off + 4 * (n - 1) + 2) },
                    ),
                ),
            },
        }
    }
}

/// The `n` page descriptors of the table at `off` (8 bytes each, big-endian
/// start row id and row count).
pub open spec fn spec_parse_pages(b: Seq<u8>, off: int, n: int) -> Seq<ExcelPageInfo> {
    Seq::new(
        n as nat,
        |i: int|
            ExcelPageInfo {
                start_row_id: be32(b, off + 8 * i),
                row_count: be32(b, off + 8 * i + 4),
            },
    )
}

/// The first `n` language codes of the table at `off` (2 bytes each,
/// little-endian); the first unrecognized code's error wins.
pub open spec fn spec_parse_languages(b: Seq<u8>, off: int, n: int) -> Result<
    Seq<ExcelLanguage>,
    FfxivError,
>
    decreases n,
{
    if n <= 0 {
        Ok(Seq::empty())
    } else {
        match spec_parse_languages(b, off, n - 1) {
            Err(e) => Err(e),
            Ok(pre) => match spec_language(le16(b, off + 2 * (n - 1))) {
                None => Err(FfxivError::UnknownLanguage),
                Some(l) => Ok(pre.push(l)),
            },
        }
    }
}

/// The schema a schema asset's bytes decode to: magic tag, fixed header
/// (with its variant tag), then the column, page and language tables laid
/// out back to back after the 32-byte header.
pub open spec fn spec_parse_exh(b: Seq<u8>) -> Result<ExhModel, FfxivError> {
    if b.len() < 4 {
        Err(FfxivError::Truncated)
    } else if be32(b, 0) != spec_exh_magic() {
        Err(FfxivError::InvalidMagic)
    } else if b.len() < 32 {
        Err(FfxivError::Truncated)
    } else {
        let cc = be16(b, 8);
        let pc = be16(b, 10);
        let lc = be16(b, 12);
        let variant_code = b[17];
        if variant_code != 1 && variant_code != 2 {
            Err(FfxivError::UnknownVariant)
        } else if 32 + 4 * cc + 8 * pc + 2 * lc > b.len() {
            Err(FfxivError::Truncated)
        } else {
            let variant = if variant_code == 1 {
                ExcelVariant::Default
            } else {
                ExcelVariant::SubRows
            };
            match spec_parse_columns(b, 32, cc as int) {
                Err(e) => Err(e),
                Ok(columns) => match spec_parse_languages(b, 32 + 4 * cc + 8 * pc, lc as int) {
                    Err(e) => Err(e),
                    Ok(languages) => Ok(
                        ExhModel {
                            header: ExcelHeader {
                                data_offset: be16(b, 6),
                                column_count: cc,
                                page_count: pc,
                                language_count: lc,
                                variant,
                                row_count: be32(b, 20),
                            },
                            columns,
                            pages: spec_parse_pages(b, 32 + 4 * cc, pc as int),
                            languages,
                        },
                    ),
                },
            }
        }
    }
}

/// Once a column-table prefix fails, every longer prefix fails the same way.
proof fn lemma_columns_err_persists(b: Seq<u8>, off: int, i: int, n: int)
    requires
        0 <= i <= n,
        spec_parse_columns(b, off, i) is Err,
    ensures
        spec_parse_columns(b, off, n) == spec_parse_columns(b, off, i),
    decreases n - i,
{
    if n > i {
        lemma_columns_err_persists(b, off, i, n - 1);
    }
}

/// Once a language-table prefix fails, every longer prefix fails the same
/// way.
proof fn lemma_languages_err_persists(b: Seq<u8>, off: int, i: int, n: int)
    requires
        0 <= i <= n,
        spec_parse_languages(b, off, i) is Err,
    ensures
        spec_parse_languages(b, off, n) == spec_parse_languages(b, off, i),
    decreases n - i,
{
    if n > i {
        lemma_languages_err_persists(b, off, i, n - 1);
    }
}

/// A decoded schema asset.
#[derive(Debug)]
pub struct ExcelHeaderFile {
    pub header: ExcelHeader,
    pub columns: Vec<ExcelColumn>,
    pub pages: Vec<ExcelPageInfo>,
    pub languages: Vec<ExcelLanguage>,
}

impl View for ExcelHeaderFile {
    type V = ExhModel;

    open spec fn view(&self) -> ExhModel {
        ExhModel {
            header: self.header,
            columns: self.columns@,
            pages: self.pages@,
            languages: self.languages@,
        }
    }
}

impl ExcelHeaderFile {
    /// Decodes a schema asset's bytes.
    #[verifier::loop_isolation(false)]
    pub fn from_bytes(b: &[u8]) -> (r: Result<ExcelHeaderFile, FfxivError>)
        ensures
            match r {
                Ok(f) => spec_parse_exh(b@) == Ok::<_, FfxivError>(f@),
                Err(e) => spec_parse_exh(b@) == Err::<ExhModel, _>(e),
            },
    {
        let n = b.len();
        if n < 4 {
            return Err(FfxivError::Truncated);
        }
        let magic = read_be32(b, 0);
        if magic != 0x45584846 {
            return Err(FfxivError::InvalidMagic);
        }
        if n < 32 {
            return Err(FfxivError::Truncated);
        }
        let data_offset = read_be16(b, 6);
        let cc = read_be16(b, 8);
        let pc = read_be16(b, 10);
        let lc = read_be16(b, 12);
        let variant_code = b[17];
        let variant = if variant_code == 1 {
            ExcelVariant::Default
        } else if variant_code == 2 {
            ExcelVariant::SubRows
        } else {
            return Err(FfxivError::UnknownVariant);
        };
        let row_count = read_be32(b, 20);
        if 32 + 4 * (cc as u64) + 8 * (pc as u64) + 2 * (lc as u64) > n as u64 {
            return Err(FfxivError::Truncated);
        }

        let ccs = cc as usize;
        let mut columns: Vec<ExcelColumn> = Vec::new();
        let mut i: usize = 0;
        while i < ccs
            invariant
                0 <= i <= ccs,
                ccs == cc,
                32 + 4 * ccs <= n == b@.len(),
                spec_parse_columns(b@, 32, i as int) == Ok::<_, FfxivError>(columns@),
            decreases ccs - i,
        {
            let code = read_be16(b, 32 + 4 * i);
            let coff = read_be16(b, 32 + 4 * i + 2);
            match ExcelColumnDataType::from_code(code) {
                Err(e) => {
                    proof {
                        lemma_columns_err_persists(b@, 32, i + 1, ccs as int);
                    }
                    return Err(e);
                },
                Ok(t) => {
                    columns.push(ExcelColumn { data_type: t, offset: coff });
                },
            }
            i += 1;
        }

        let pcs = pc as usize;
        let pages_off = 32 + 4 * ccs;
        let mut pages: Vec<ExcelPageInfo> = Vec::new();
        let mut j: usize = 0;
        while j < pcs
            invariant
                0 <= j <= pcs,
                pcs == pc,
                ccs == cc,
                pages_off == 32 + 4 * ccs,
                pages_off + 8 * pcs <= n == b@.len(),
                pages@ == spec_parse_pages(b@, pages_off as int, pcs as int).take(j as int),
            decreases pcs - j,
        {
            let start_row_id = read_be32(b, pages_off + 8 * j);
            let row_count = read_be32(b, pages_off + 8 * j + 4);
            pages.push(ExcelPageInfo { start_row_id, row_count });
            proof {
                let full = spec_parse_pages(b@, pages_off as int, pcs as int);
                assert(full.take(j + 1 as int) =~= full.take(j as int).push(full[j as int]));
            }
            j += 1;
        }
        proof {
            let full = spec_parse_pages(b@, pages_off as int, pcs as int);
            assert(full.take(pcs as int) =~= full);
        }

        let lcs = lc as usize;
        let langs_off = pages_off + 8 * pcs;
        let mut languages: Vec<ExcelLanguage> = Vec::new();
        let mut k: usize = 0;
        while k < lcs
            invariant
                0 <= k <= lcs,
                lcs == lc,
                langs_off == 32 + 4 * (cc as int) + 8 * (pc as int),
                langs_off + 2 * lcs <= n == b@.len(),
                spec_parse_languages(b@, langs_off as int, k as int) == Ok::<_, FfxivError>(
                    languages@,
                ),
            decreases lcs - k,
        {
            let code = read_le16(b, langs_off + 2 * k);
            match ExcelLanguage::from_code(code) {
                Err(e) => {
                    proof {
                        lemma_languages_err_persists(b@, langs_off as int, k + 1, lcs as int);
                    }
                    return Err(e);
                },
                Ok(l) => {
                    languages.push(l);
                },
            }
            k += 1;
        }

        Ok(
            ExcelHeaderFile {
                header: ExcelHeader {
                    data_offset,
                    column_count: cc,
                    page_count: pc,
                    language_count: lc,
                    variant,
                    row_count,
                },
                columns,
                pages,
                languages,
            },
        )
    }

    /// Decodes the schema held in a reconstructed asset.
    pub fn from_file(file: &crate::ffxiv_file::FfxivFile) -> (r: Result<
        ExcelHeaderFile,
        FfxivError,
    >)
        ensures
            match r {
                Ok(f) => spec_parse_exh(file@) == Ok::<_, FfxivError>(f@),
                Err(e) => spec_parse_exh(file@) == Err::<ExhModel, _>(e),
            },
    {
        ExcelHeaderFile::from_bytes(file.contents().as_slice())
    }

    /// Whether the schema lists `l` among its available languages.
    pub fn has_language(&self, l: ExcelLanguage) -> (r: bool)
        ensures
            r == self@.languages.contains(l),
    {
        let n = self.languages.len();
        let mut i: usize = 0;
        while i < n
            invariant
                0 <= i <= n,
                n == self.languages@.len(),
                forall|j: int| 0 <= j < i ==> self.languages@[j] != l,
            decreases n - i,
        {
            if self.languages[i] == l {
                return true;
            }
            i += 1;
        }
        false
    }
}

} // verus!
