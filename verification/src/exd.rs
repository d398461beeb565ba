//! The table-row decoder.
//!
//! A data-page asset holds a row directory (row id and byte offset per row)
//! followed by row records.  Each row's cells are decoded against the
//! schema's column list: fixed-width big-endian fields, bit-packed booleans
//! sharing a stored byte, and zero-terminated UTF-8 strings addressed
//! relative to the end of the row's fixed-field region.

use vstd::prelude::*;
use vstd::utf8::{decode_utf8, valid_utf8};
use crate::bytes::{be16, be32, be64, read_be16, read_be32, read_be64, sub_vec};
use crate::error::FfxivError;
use crate::exh::{ExcelColumn, ExcelColumnDataType, ExcelHeaderFile};

verus! {

/// The magic tag a data-page asset must start with.
pub open spec fn spec_exd_magic() -> u32 {
    0x45584446
}

/// One row-directory entry: a row id and the byte offset of the row's
/// record inside the page.
#[derive(Debug, Clone, Copy, PartialEq, Eq, Structural)]
pub struct ExcelRowInfo {
    pub row_id: u32,
    pub offset: u32,
}

/// The mathematical content of one decoded cell.
pub enum CellModel {
    /// A decoded UTF-8 text cell.
    Text(Seq<char>),
    /// An unsigned integer or boolean cell widened to 64 bits.
    Unsigned(u64),
    /// A signed integer cell sign-extended to 64 bits.
    Signed(i64),
    /// A 32-bit IEEE-754 cell, kept as its raw big-endian bit pattern.
    FloatBits(u32),
}

/// One decoded cell value.  A 32-bit float cell is carried as its raw
/// IEEE-754 bit pattern; interpreting the bits is left to callers outside
/// this crate.
#[derive(Debug, Clone, PartialEq)]
pub enum ExcelDataType {
    Text(String),
    U64(u64),
    I64(i64),
    F32Bits(u32),
}

impl View for ExcelDataType {
    type V = CellModel;

    open spec fn view(&self) -> CellModel {
        match self {
            ExcelDataType::Text(s) => CellModel::Text(s@),
            ExcelDataType::U64(v) => CellModel::Unsigned(*v),
            ExcelDataType::I64(v) => CellModel::Signed(*v),
            ExcelDataType::F32Bits(v) => CellModel::FloatBits(*v),
        }
    }
}

/// The first index at or after `from` holding a zero byte, if any.
pub open spec fn spec_zero_pos(b: Seq<u8>, from: int) -> Option<int>
    decreases b.len() - from,
{
    if from < 0 || from >= b.len() {
        None
    } else if b[from] == 0 {
        Some(from)
    } else {
        spec_zero_pos(b, from + 1)
    }
}

/// Sign extension of an 8-bit stored value.
pub open spec fn spec_sign8(v: u8) -> i64 {
    if v < 0x80 {
        v as i64
    } else {
        (v - 0x100) as i64
    }
}

/// Sign extension of a 16-bit stored value.
pub open spec fn spec_sign16(v: u16) -> i64 {
    if v < 0x8000 {
        v as i64
    } else {
        (v - 0x10000) as i64
    }
}

/// Sign extension of a 32-bit stored value.
pub open spec fn spec_sign32(v: u32) -> i64 {
    if v < 0x80000000 {
        v as i64
    } else {
        (v - 0x100000000) as i64
    }
}

/// Reinterpretation of a 64-bit stored value as signed.
pub open spec fn spec_sign64(v: u64) -> i64 {
    if v < 0x8000000000000000 {
        v as i64
    } else {
        (v - 0x10000000000000000) as i64
    }
}

/// The stored-byte mask a packed-boolean column tests: bit number equals the
/// distance of its type code from the first packed-boolean code.
pub open spec fn spec_packed_mask(t: ExcelColumnDataType) -> u8 {
    match t {
        ExcelColumnDataType::PackedBool0 => 0x01,
        ExcelColumnDataType::PackedBool1 => 0x02,
        ExcelColumnDataType::PackedBool2 => 0x04,
        ExcelColumnDataType::PackedBool3 => 0x08,
        ExcelColumnDataType::PackedBool4 => 0x10,
        ExcelColumnDataType::PackedBool5 => 0x20,
        ExcelColumnDataType::PackedBool6 => 0x40,
        ExcelColumnDataType::PackedBool7 => 0x80,
        _ => 0,
    }
}

/// Whether a column type is one of the packed-boolean variants.
pub open spec fn spec_is_packed(t: ExcelColumnDataType) -> bool {
    spec_packed_mask(t) != 0
}

/// The value of one cell.  `rs` is where the row's fixed-field region
/// starts, `re` where it ends; a text cell stores a 32-bit offset relative
/// to `re` and its bytes run to the next zero byte.
pub open spec fn spec_cell(b: Seq<u8>, rs: int, re: int, col: ExcelColumn) -> Result<
    CellModel,
    FfxivError,
> {
    let off = rs + col.offset;
    match col.data_type {
        ExcelColumnDataType::Text => {
            if off + 4 > b.len() {
                Err(FfxivError::Truncated)
            } else {
                let s = re + be32(b, off);
                match spec_zero_pos(b, s) {
                    None => Err(FfxivError::Truncated),
                    Some(z) => {
                        let raw = b.subrange(s, z);
                        if valid_utf8(raw) {
                            Ok(CellModel::Text(decode_utf8(raw)))
                        } else {
                            Err(FfxivError::InvalidUtf8)
                        }
                    },
                }
            }
        },
        ExcelColumnDataType::Bool | ExcelColumnDataType::UInt8 => {
            if off + 1 > b.len() {
                Err(FfxivError::Truncated)
            } else {
                Ok(CellModel::Unsigned(b[off] as u64))
            }
        },
        ExcelColumnDataType::UInt16 => {
            if off + 2 > b.len() {
                Err(FfxivError::Truncated)
            } else {
                Ok(CellModel::Unsigned(be16(b, off) as u64))
            }
        },
        ExcelColumnDataType::UInt32 => {
            if off + 4 > b.len() {
                Err(FfxivError::Truncated)
            } else {
                Ok(CellModel::Unsigned(be32(b, off) as u64))
            }
        },
        ExcelColumnDataType::UInt64 => {
            if off + 8 > b.len() {
                Err(FfxivError::Truncated)
            } else {
                Ok(CellModel::Unsigned(be64(b, off)))
            }
        },
        ExcelColumnDataType::Int8 => {
            if off + 1 > b.len() {
                Err(FfxivError::Truncated)
            } else {
                Ok(CellModel::Signed(spec_sign8(b[off])))
            }
        },
        ExcelColumnDataType::Int16 => {
            if off + 2 > b.len() {
                Err(FfxivError::Truncated)
            } else {
                Ok(CellModel::Signed(spec_sign16(be16(b, off))))
            }
        },
        ExcelColumnDataType::Int32 => {
            if off + 4 > b.len() {
                Err(FfxivError::Truncated)
            } else {
                Ok(CellModel::Signed(spec_sign32(be32(b, off))))
            }
        },
        ExcelColumnDataType::Int64 => {
            if off + 8 > b.len() {
                Err(FfxivError::Truncated)
            } else {
                Ok(CellModel::Signed(spec_sign64(be64(b, off))))
            }
        },
        ExcelColumnDataType::Float32 => {
            if off + 4 > b.len() {
                Err(FfxivError::Truncated)
            } else {
                Ok(CellModel::FloatBits(be32(b, off)))
            }
        },
        _ => {
            if off + 1 > b.len() {
                Err(FfxivError::Truncated)
            } else {
                Ok(
                    CellModel::Unsigned(
                        if b[off] & spec_packed_mask(col.data_type) != 0 {
                            1
                        } else {
                            0
                        },
                    ),
                )
            }
        },
    }
}

/// The first `n` cells of a row, in column order; the first failing cell's
/// error wins.
pub open spec fn spec_cells(b: Seq<u8>, rs: int, re: int, cols: Seq<ExcelColumn>, n: int) -> Result<
    Seq<CellModel>,
    FfxivError,
>
    decreases n,
{
    if n <= 0 {
        Ok(Seq::empty())
    } else {
        match spec_cells(b, rs, re, cols, n - 1) {
            Err(e) => Err(e),
            Ok(pre) => match spec_cell(b, rs, re, cols[n - 1]) {
                Err(e) => Err(e),
                Ok(c) => Ok(pre.push(c)),
            },
        }
    }
}

/// Once a cell prefix fails, every longer prefix fails the same way.
proof fn lemma_cells_err_persists(b: Seq<u8>, rs: int, re: int, cols: Seq<ExcelColumn>, i: int, n: int)
    requires
        0 <= i <= n,
        spec_cells(b, rs, re, cols, i) is Err,
    ensures
        spec_cells(b, rs, re, cols, n) == spec_cells(b, rs, re, cols, i),
    decreases n - i,
{
    if n > i {
        lemma_cells_err_persists(b, rs, re, cols, i, n - 1);
    }
}

/// The mathematical content of one decoded row.
pub struct RowModel {
    pub info: ExcelRowInfo,
    pub cells: Seq<CellModel>,
}

/// One decoded row: its directory entry and its cells in column order.
#[derive(Debug)]
pub struct ExcelDataRow {
    cells: Vec<ExcelDataType>,
    info: ExcelRowInfo,
}

impl View for ExcelDataRow {
    type V = RowModel;

    closed spec fn view(&self) -> RowModel {
        RowModel { info: self.info, cells: self.cells@.map_values(|c: ExcelDataType| c@) }
    }
}

/// The row a directory entry points at: six bytes of per-row sub-header
/// (consumed, not retained) precede the fixed-field region, whose size the
/// schema's data offset gives; cells are decoded in column order.
pub open spec fn spec_row(b: Seq<u8>, info: ExcelRowInfo, cols: Seq<ExcelColumn>, data_offset: u16) -> Result<
    RowModel,
    FfxivError,
> {
    let rs = info.offset + 6;
    match spec_cells(b, rs, rs + data_offset, cols, cols.len() as int) {
        Err(e) => Err(e),
        Ok(cells) => Ok(RowModel { info, cells }),
    }
}

/// Scans for the zero byte terminating a text run.
fn find_zero(b: &[u8], from: usize) -> (r: Option<usize>)
    ensures
        match r {
            Some(z) => spec_zero_pos(b@, from as int) == Some(z as int) && from <= z < b@.len()
                && b@[z as int] == 0,
            None => spec_zero_pos(b@, from as int) is None,
        },
{
    let n = b.len();
    if from >= n {
        return None;
    }
    let mut i: usize = from;
    while i < n
        invariant
            from <= i <= n,
            n == b@.len(),
            spec_zero_pos(b@, from as int) == spec_zero_pos(b@, i as int),
        decreases n - i,
    {
        if b[i] == 0 {
            return Some(i);
        }
        i += 1;
    }
    None
}

/// Relies on `String::from_utf8`: it succeeds exactly on valid UTF-8 input
/// and yields the string those bytes encode.
#[verifier::external_body]
fn utf8_to_string(bytes: Vec<u8>) -> (r: Result<String, FfxivError>)
    ensures
        match r {
            Ok(s) => valid_utf8(bytes@) && s@ == decode_utf8(bytes@),
            Err(e) => e == FfxivError::InvalidUtf8 && !valid_utf8(bytes@),
        },
{
    match String::from_utf8(bytes) {
        Ok(s) => Ok(s),
        Err(_) => Err(FfxivError::InvalidUtf8),
    }
}

/// Decodes one cell of a row.  `row_data_start`/`row_data_end` bound the
/// row's fixed-field region inside the page's bytes.
pub fn read_cell_data(
    b: &[u8],
    row_data_start: u64,
    row_data_end: u64,
    excel_column: &ExcelColumn,
) -> (r: Result<ExcelDataType, FfxivError>)
    requires
        row_data_start + excel_column.offset + 8 <= u64::MAX,
        row_data_end + 0x100000000 <= u64::MAX,
    ensures
        match r {
            Ok(c) => spec_cell(b@, row_data_start as int, row_data_end as int, *excel_column)
                == Ok::<_, FfxivError>(c@),
            Err(e) => spec_cell(b@, row_data_start as int, row_data_end as int, *excel_column)
                == Err::<CellModel, _>(e),
        },
{
    let n = b.len();
    let off64 = row_data_start + excel_column.offset as u64;
    match excel_column.data_type {
        ExcelColumnDataType::Text => {
            if off64 + 4 > n as u64 {
                return Err(FfxivError::Truncated);
            }
            let off = off64 as usize;
            let so = read_be32(b, off);
            let s64 = row_data_end + so as u64;
            if s64 >= n as u64 {
                return Err(FfxivError::Truncated);
            }
            let s = s64 as usize;
            match find_zero(b, s) {
                None => Err(FfxivError::Truncated),
                Some(z) => {
                    let raw = sub_vec(b, s, z);
                    match utf8_to_string(raw) {
                        Ok(text) => Ok(ExcelDataType::Text(text)),
                        Err(e) => Err(e),
                    }
                },
            }
        },
        ExcelColumnDataType::Bool | ExcelColumnDataType::UInt8 => {
            if off64 + 1 > n as u64 {
                return Err(FfxivError::Truncated);
            }
            Ok(ExcelDataType::U64(b[off64 as usize] as u64))
        },
        ExcelColumnDataType::UInt16 => {
            if off64 + 2 > n as u64 {
                return Err(FfxivError::Truncated);
            }
            Ok(ExcelDataType::U64(read_be16(b, off64 as usize) as u64))
        },
        ExcelColumnDataType::UInt32 => {
            if off64 + 4 > n as u64 {
                return Err(FfxivError::Truncated);
            }
            Ok(ExcelDataType::U64(read_be32(b, off64 as usize) as u64))
        },
        ExcelColumnDataType::UInt64 => {
            if off64 + 8 > n as u64 {
                return Err(FfxivError::Truncated);
            }
            Ok(ExcelDataType::U64(read_be64(b, off64 as usize)))
        },
        ExcelColumnDataType::Int8 => {
            if off64 + 1 > n as u64 {
                return Err(FfxivError::Truncated);
            }
            let v = b[off64 as usize];
            if v < 0x80 {
                Ok(ExcelDataType::I64(v as i64))
            } else {
                Ok(ExcelDataType::I64(v as i64 - 0x100))
            }
        },
        ExcelColumnDataType::Int16 => {
            if off64 + 2 > n as u64 {
                return Err(FfxivError::Truncated);
            }
            let v = read_be16(b, off64 as usize);
            if v < 0x8000 {
                Ok(ExcelDataType::I64(v as i64))
            } else {
                Ok(ExcelDataType::I64(v as i64 - 0x10000))
            }
        },
        ExcelColumnDataType::Int32 => {
            if off64 + 4 > n as u64 {
                return Err(FfxivError::Truncated);
            }
            let v = read_be32(b, off64 as usize);
            if v < 0x80000000 {
                Ok(ExcelDataType::I64(v as i64))
            } else {
                Ok(ExcelDataType::I64(v as i64 - 0x100000000))
            }
        },
        ExcelColumnDataType::Int64 => {
            if off64 + 8 > n as u64 {
                return Err(FfxivError::Truncated);
            }
            let v = read_be64(b, off64 as usize);
            if v < 0x8000000000000000 {
                Ok(ExcelDataType::I64(v as i64))
            } else {
                Ok(
                    ExcelDataType::I64(
                        ((v - 0x8000000000000000) as i64) - 0x4000000000000000 - 0x4000000000000000,
                    ),
                )
            }
        },
        ExcelColumnDataType::Float32 => {
            if off64 + 4 > n as u64 {
                return Err(FfxivError::Truncated);
            }
            Ok(ExcelDataType::F32Bits(read_be32(b, off64 as usize)))
        },
        _ => {
            if off64 + 1 > n as u64 {
                return Err(FfxivError::Truncated);
            }
            let mask: u8 = match excel_column.data_type {
                ExcelColumnDataType::PackedBool0 => 0x01,
                ExcelColumnDataType::PackedBool1 => 0x02,
                ExcelColumnDataType::PackedBool2 => 0x04,
                ExcelColumnDataType::PackedBool3 => 0x08,
                ExcelColumnDataType::PackedBool4 => 0x10,
                ExcelColumnDataType::PackedBool5 => 0x20,
                ExcelColumnDataType::PackedBool6 => 0x40,
                ExcelColumnDataType::PackedBool7 => 0x80,
                _ => 0,
            };
            let v = b[off64 as usize];
            if v & mask != 0 {
                Ok(ExcelDataType::U64(1))
            } else {
                Ok(ExcelDataType::U64(0))
            }
        },
    }
}

impl ExcelDataRow {
    /// Decodes one row against the schema's columns.
    #[verifier::loop_isolation(false)]
    pub fn from_bytes(
        b: &[u8],
        row_info: ExcelRowInfo,
        column_data: &Vec<ExcelColumn>,
        data_offset: u16,
    ) -> (r: Result<ExcelDataRow, FfxivError>)
        ensures
            match r {
                Ok(row) => spec_row(b@, row_info, column_data@, data_offset) == Ok::<_, FfxivError>(
                    row@,
                ),
                Err(e) => spec_row(b@, row_info, column_data@, data_offset) == Err::<RowModel, _>(
                    e,
                ),
            },
    {
        let rs: u64 = row_info.offset as u64 + 6;
        let re: u64 = rs + data_offset as u64;
        let n = column_data.len();
        let mut cells: Vec<ExcelDataType> = Vec::new();
        proof {
            assert(cells@.map_values(|c: ExcelDataType| c@) =~= Seq::<CellModel>::empty());
        }
        let mut i: usize = 0;
        while i < n
            invariant
                0 <= i <= n,
                spec_cells(b@, rs as int, re as int, column_data@, i as int) == Ok::<_, FfxivError>(
                    cells@.map_values(|c: ExcelDataType| c@),
                ),
            decreases n - i,
        {
            match read_cell_data(b, rs, re, &column_data[i]) {
                Err(e) => {
                    proof {
                        lemma_cells_err_persists(b@, rs as int, re as int, column_data@, i + 1, n as int);
                    }
                    return Err(e);
                },
                Ok(c) => {
                    proof {
                        assert(cells@.push(c).map_values(|x: ExcelDataType| x@) =~= cells@.map_values(
                            |x: ExcelDataType| x@,
                        ).push(c@));
                    }
                    cells.push(c);
                },
            }
            i += 1;
        }
        Ok(ExcelDataRow { cells, info: row_info })
    }

    /// The row's directory entry.
    pub fn row_info(&self) -> (r: &ExcelRowInfo)
        ensures
            *r == self@.info,
    {
        &self.info
    }

    /// The row's cells, in column order.
    pub fn cells(&self) -> (r: &Vec<ExcelDataType>)
        ensures
            r@.map_values(|c: ExcelDataType| c@) == self@.cells,
    {
        &self.cells
    }
}

/// The rows of one data page, in directory order; the first failing row's
/// error wins.
pub open spec fn spec_page_rows(b: Seq<u8>, cols: Seq<ExcelColumn>, data_offset: u16, n: int) -> Result<
    Seq<RowModel>,
    FfxivError,
>
    decreases n,
{
    if n <= 0 {
        Ok(Seq::empty())
    } else {
        match spec_page_rows(b, cols, data_offset, n - 1) {
            Err(e) => Err(e),
            Ok(pre) => {
                let info = ExcelRowInfo {
                    row_id: be32(b, 32 + 8 * (n - 1)),
                    offset: be32(b, 32 + 8 * (n - 1) + 4),
                };
                match spec_row(b, info, cols, data_offset) {
                    Err(e) => Err(e),
                    Ok(row) => Ok(pre.push(row)),
                }
            },
        }
    }
}

/// Once a row prefix fails, every longer prefix fails the same way.
proof fn lemma_rows_err_persists(b: Seq<u8>, cols: Seq<ExcelColumn>, data_offset: u16, i: int, n: int)
    requires
        0 <= i <= n,
        spec_page_rows(b, cols, data_offset, i) is Err,
    ensures
        spec_page_rows(b, cols, data_offset, n) == spec_page_rows(b, cols, data_offset, i),
    decreases n - i,
{
    if n > i {
        lemma_rows_err_persists(b, cols, data_offset, i, n - 1);
    }
}

/// What a data-page asset's bytes decode to against a schema: the magic tag
/// is validated, the row count is the directory's byte size divided by 8,
/// and the directory entries (which start after the 32-byte page header)
/// are decoded in stored order.
pub open spec fn spec_parse_exd(b: Seq<u8>, cols: Seq<ExcelColumn>, data_offset: u16) -> Result<
    Seq<RowModel>,
    FfxivError,
> {
    if b.len() < 4 {
        Err(FfxivError::Truncated)
    } else if be32(b, 0) != spec_exd_magic() {
        Err(FfxivError::InvalidMagic)
    } else if b.len() < 32 {
        Err(FfxivError::Truncated)
    } else {
        let n = be32(b, 8) as int / 8;
        if 32 + 8 * n > b.len() {
            Err(FfxivError::Truncated)
        } else {
            spec_page_rows(b, cols, data_offset, n)
        }
    }
}

/// One decoded data page: its rows in directory order.
#[derive(Debug)]
pub struct ExcelDataFile {
    rows: Vec<ExcelDataRow>,
}

impl View for ExcelDataFile {
    type V = Seq<RowModel>;

    closed spec fn view(&self) -> Seq<RowModel> {
        self.rows@.map_values(|r: ExcelDataRow| r@)
    }
}

impl ExcelDataFile {
    /// Decodes a data page's bytes against its schema.
    #[verifier::loop_isolation(false)]
    pub fn from_bytes(b: &[u8], excel_file: &ExcelHeaderFile) -> (r: Result<
        ExcelDataFile,
        FfxivError,
    >)
        ensures
            match r {
                Ok(f) => spec_parse_exd(
                    b@,
                    excel_file@.columns,
                    excel_file@.header.data_offset,
                ) == Ok::<_, FfxivError>(f@),
                Err(e) => spec_parse_exd(
                    b@,
                    excel_file@.columns,
                    excel_file@.header.data_offset,
                ) == Err::<Seq<RowModel>, _>(e),
            },
    {
        let len = b.len();
        if len < 4 {
            return Err(FfxivError::Truncated);
        }
        let magic = read_be32(b, 0);
        if magic != 0x45584446 {
            return Err(FfxivError::InvalidMagic);
        }
        if len < 32 {
            return Err(FfxivError::Truncated);
        }
        let row_info_size = read_be32(b, 8);
        let n = (row_info_size / 8) as usize;
        if 32 + 8 * (n as u64) > len as u64 {
            return Err(FfxivError::Truncated);
        }
        let data_offset = excel_file.header.data_offset;
        let mut rows: Vec<ExcelDataRow> = Vec::new();
        proof {
            assert(rows@.map_values(|r: ExcelDataRow| r@) =~= Seq::<RowModel>::empty());
        }
        let mut i: usize = 0;
        while i < n
            invariant
                0 <= i <= n,
                spec_page_rows(
                    b@,
                    excel_file@.columns,
                    data_offset,
                    i as int,
                ) == Ok::<_, FfxivError>(rows@.map_values(|r: ExcelDataRow| r@)),
            decreases n - i,
        {
            let info = ExcelRowInfo {
                row_id: read_be32(b, 32 + 8 * i),
                offset: read_be32(b, 32 + 8 * i + 4),
            };
            match ExcelDataRow::from_bytes(b, info, &excel_file.columns, data_offset) {
                Err(e) => {
                    proof {
                        lemma_rows_err_persists(
                            b@,
                            excel_file@.columns,
                            data_offset,
                            i + 1,
                            n as int,
                        );
                    }
                    return Err(e);
                },
                Ok(row) => {
                    proof {
                        assert(rows@.push(row).map_values(|r: ExcelDataRow| r@) =~= rows@.map_values(
                            |r: ExcelDataRow| r@,
                        ).push(row@));
                    }
                    rows.push(row);
                },
            }
            i += 1;
        }
        Ok(ExcelDataFile { rows })
    }

    /// Decodes the data page held in a reconstructed asset.
    pub fn from_file(file: &crate::ffxiv_file::FfxivFile, excel_file: &ExcelHeaderFile) -> (r:
        Result<ExcelDataFile, FfxivError>)
        ensures
            match r {
                Ok(f) => spec_parse_exd(
                    file@,
                    excel_file@.columns,
                    excel_file@.header.data_offset,
                ) == Ok::<_, FfxivError>(f@),
                Err(e) => spec_parse_exd(
                    file@,
                    excel_file@.columns,
                    excel_file@.header.data_offset,
                ) == Err::<Seq<RowModel>, _>(e),
            },
    {
        ExcelDataFile::from_bytes(file.contents().as_slice(), excel_file)
    }

    /// Surrenders the decoded rows.
    pub fn into_inner(self) -> (r: Vec<ExcelDataRow>)
        ensures
            r@.map_values(|x: ExcelDataRow| x@) == self@,
    {
        self.rows
    }
}

} // verus!
