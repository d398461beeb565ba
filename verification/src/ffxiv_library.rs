//! The archive catalog: physical path construction, the per-key index
//! cache, and multi-page table assembly.
//!
//! The catalog owns the merged index tables it has loaded, keyed by
//! (category, repository).  Opening and reading physical files is left to
//! the caller; every decision — which file to open, what its bytes mean,
//! which pages make up a table — is made here.

use std::collections::HashMap;
use vstd::prelude::*;
use vstd::string::StringSliceAdditionalSpecFns;
use crate::bytes::push_bytes;
use crate::error::FfxivError;
use crate::exd::{ExcelDataFile, ExcelDataRow, RowModel, spec_parse_exd};
use crate::exh::{ExcelHeaderFile, ExcelLanguage, ExhModel, spec_country_code};
use crate::ffxiv_file::FfxivFile;
use crate::file_key::{FileKey, spec_category_code};
use crate::sqpack::{SqPackIndexFile, SqPackIndexTableEntry, spec_lookup, spec_merged_index};

verus! {

broadcast use vstd::std_specs::hash::group_hash_axioms;

/// The decimal digits of `n`, most significant first.
pub open spec fn spec_dec_digits(n: int) -> Seq<u8>
    recommends
        n >= 0,
    decreases n,
{
    if n < 10 {
        seq![(48 + if 0 <= n < 10 { n } else { 0 }) as u8]
    } else {
        spec_dec_digits(n / 10).push((48 + n % 10) as u8)
    }
}

/// Appends the decimal digits of `n`.
pub fn push_decimal(n: u32, out: &mut Vec<u8>)
    ensures
        final(out)@ == old(out)@ + spec_dec_digits(n as int),
    decreases n,
{
    if n < 10 {
        out.push(48 + n as u8);
        assert(out@ =~= old(out)@ + spec_dec_digits(n as int));
    } else {
        push_decimal(n / 10, out);
        out.push(48 + (n % 10) as u8);
        assert(out@ =~= old(out)@ + spec_dec_digits(n as int));
    }
}

/// The lowercase hex digit of a value below 16.
pub open spec fn spec_hex_digit(d: int) -> u8 {
    if d < 10 {
        (48 + if 0 <= d { d } else { 0 }) as u8
    } else {
        (87 + if d < 16 { d } else { 0 }) as u8
    }
}

/// The two-hex-digit zero-padded code of a byte.
pub open spec fn spec_hex2(v: int) -> Seq<u8> {
    seq![spec_hex_digit(v / 16), spec_hex_digit(v % 16)]
}

/// Appends the two-hex-digit zero-padded code of `v`.
pub fn push_hex2(v: u8, out: &mut Vec<u8>)
    ensures
        final(out)@ == old(out)@ + spec_hex2(v as int),
{
    let hi = v / 16;
    let lo = v % 16;
    out.push(
        if hi < 10 {
            48 + hi
        } else {
            87 + hi
        },
    );
    out.push(
        if lo < 10 {
            48 + lo
        } else {
            87 + lo
        },
    );
    assert(out@ =~= old(out)@ + spec_hex2(v as int));
}

/// The pack-pair stem of a key inside its repository directory:
/// `<repository-name>/<hex2(category)><hex2(repository)>00.win32`.
pub open spec fn spec_pack_stem(key: FileKey) -> Seq<u8> {
    crate::file_key::spec_repository_name(key.repository.0) + seq![47u8] + spec_hex2(
        spec_category_code(key.category) as int,
    ) + spec_hex2(key.repository.0 as int) + "00.win32".spec_bytes()
}

/// The relative path of a key's format-1 index file (its format-2 sibling
/// appends `2`).
pub open spec fn spec_index_rel_path(key: FileKey) -> Seq<u8> {
    spec_pack_stem(key) + ".index".spec_bytes()
}

/// The relative path of one of a key's data files.
pub open spec fn spec_dat_rel_path(key: FileKey, data_file_id: u32) -> Seq<u8> {
    spec_pack_stem(key) + ".dat".spec_bytes() + spec_dec_digits(data_file_id as int)
}

/// Builds `<repository-name>/<hex2(category)><hex2(repository)>00.win32`.
fn pack_stem(key: &FileKey) -> (r: Vec<u8>)
    ensures
        r@ == spec_pack_stem(*key),
{
    let mut r = key.repository.name_bytes();
    r.push(47);
    let ghost after_slash = r@;
    push_hex2(key.category.code(), &mut r);
    push_hex2(key.repository.0, &mut r);
    push_bytes(&mut r, "00.win32".as_bytes());
    proof {
        assert(after_slash =~= crate::file_key::spec_repository_name(key.repository.0) + seq![
            47u8,
        ]);
        assert(r@ =~= spec_pack_stem(*key));
    }
    r
}

/// Builds the relative path of a key's format-1 index file.
pub fn index_rel_path(key: &FileKey) -> (r: Vec<u8>)
    ensures
        r@ == spec_index_rel_path(*key),
{
    let mut r = pack_stem(key);
    push_bytes(&mut r, ".index".as_bytes());
    r
}

/// Builds the relative path of the data file `entry` points into.
pub fn dat_rel_path(key: &FileKey, data_file_id: u32) -> (r: Vec<u8>)
    ensures
        r@ == spec_dat_rel_path(*key, data_file_id),
{
    let mut r = pack_stem(key);
    push_bytes(&mut r, ".dat".as_bytes());
    let ghost before = r@;
    push_decimal(data_file_id, &mut r);
    proof {
        assert(r@ =~= spec_dat_rel_path(*key, data_file_id));
    }
    r
}

/// The path of a table's schema asset: `<path>.exh`.
pub open spec fn spec_exh_path(p: Seq<u8>) -> Seq<u8> {
    p + ".exh".spec_bytes()
}

/// Builds the path of a table's schema asset.
pub fn exh_path(path: &str) -> (r: Vec<u8>)
    ensures
        r@ == spec_exh_path(path.spec_bytes()),
{
    let mut r: Vec<u8> = Vec::new();
    push_bytes(&mut r, path.as_bytes());
    push_bytes(&mut r, ".exh".as_bytes());
    proof {
        assert(r@ =~= spec_exh_path(path.spec_bytes()));
    }
    r
}

/// The path of one data page: `<path>_<startRowId><suffix>.exd`.
pub open spec fn spec_exd_page_path(p: Seq<u8>, start_row_id: u32, suffix: Seq<u8>) -> Seq<u8> {
    p + "_".spec_bytes() + spec_dec_digits(start_row_id as int) + suffix + ".exd".spec_bytes()
}

/// Builds the path of one data page.
pub fn exd_page_path(path: &str, start_row_id: u32, suffix: &str) -> (r: Vec<u8>)
    ensures
        r@ == spec_exd_page_path(path.spec_bytes(), start_row_id, suffix.spec_bytes()),
{
    let mut r: Vec<u8> = Vec::new();
    push_bytes(&mut r, path.as_bytes());
    push_bytes(&mut r, "_".as_bytes());
    push_decimal(start_row_id, &mut r);
    push_bytes(&mut r, suffix.as_bytes());
    push_bytes(&mut r, ".exd".as_bytes());
    proof {
        assert(r@ =~= spec_exd_page_path(path.spec_bytes(), start_row_id, suffix.spec_bytes()));
    }
    r
}

/// The language suffix a table's pages are fetched under: English when the
/// schema lists it, the no-language suffix otherwise.
pub open spec fn spec_page_suffix(m: ExhModel) -> Seq<char> {
    if m.languages.contains(ExcelLanguage::English) {
        spec_country_code(ExcelLanguage::English)
    } else {
        spec_country_code(ExcelLanguage::NoLanguage)
    }
}

/// Chooses the language suffix a table's pages are fetched under.
pub fn choose_language_suffix(excel_file: &ExcelHeaderFile) -> (r: &'static str)
    ensures
        r@ == spec_page_suffix(excel_file@),
{
    if excel_file.has_language(ExcelLanguage::English) {
        ExcelLanguage::English.as_country_code()
    } else {
        ExcelLanguage::NoLanguage.as_country_code()
    }
}

/// The cache key one (category, repository) pair occupies.
pub open spec fn spec_key_code(key: FileKey) -> u64 {
    (spec_category_code(key.category) * 256 + key.repository.0) as u64
}

/// Computes the cache key of a (category, repository) pair.
pub fn key_code(key: &FileKey) -> (r: u64)
    ensures
        r == spec_key_code(*key),
{
    (key.category.code() as u64) * 256 + key.repository.0 as u64
}

/// The rows of a whole table, assembled from its fetched pages in schema
/// page order.  A page that could not be fetched (`None`) is skipped; a
/// fetched page that fails to decode fails the whole table.
pub open spec fn spec_collect_rows(m: ExhModel, pages: Seq<Option<Seq<u8>>>, n: int) -> Result<
    Seq<RowModel>,
    FfxivError,
>
    decreases n,
{
    if n <= 0 {
        Ok(Seq::empty())
    } else {
        match spec_collect_rows(m, pages, n - 1) {
            Err(e) => Err(e),
            Ok(pre) => match pages[n - 1] {
                None => Ok(pre),
                Some(bytes) => match spec_parse_exd(bytes, m.columns, m.header.data_offset) {
                    Err(e) => Err(e),
                    Ok(rows) => Ok(pre + rows),
                },
            },
        }
    }
}

/// Once a page prefix fails, every longer prefix fails the same way.
proof fn lemma_collect_err_persists(m: ExhModel, pages: Seq<Option<Seq<u8>>>, i: int, n: int)
    requires
        0 <= i <= n,
        spec_collect_rows(m, pages, i) is Err,
    ensures
        spec_collect_rows(m, pages, n) == spec_collect_rows(m, pages, i),
    decreases n - i,
{
    if n > i {
        lemma_collect_err_persists(m, pages, i, n - 1);
    }
}

/// The content of a sequence of fetched pages: each page's bytes, or `None`
/// where the fetch failed.
pub open spec fn spec_pages_view(pages: Seq<Option<FfxivFile>>) -> Seq<Option<Seq<u8>>> {
    pages.map_values(
        |o: Option<FfxivFile>|
            match o {
                Some(f) => Some(f@),
                None => None,
            },
    )
}

/// Decodes and concatenates a table's fetched pages in page order.  A page
/// whose fetch failed (`None`) is skipped without failing the query; a
/// fetched page that does not decode fails the whole query.
#[verifier::loop_isolation(false)]
pub fn collect_table_rows(excel_file: &ExcelHeaderFile, pages: Vec<Option<FfxivFile>>) -> (r:
    Result<Vec<ExcelDataRow>, FfxivError>)
    ensures
        match r {
            Ok(rows) => spec_collect_rows(
                excel_file@,
                spec_pages_view(pages@),
                pages@.len() as int,
            ) == Ok::<_, FfxivError>(rows@.map_values(|x: ExcelDataRow| x@)),
            Err(e) => spec_collect_rows(
                excel_file@,
                spec_pages_view(pages@),
                pages@.len() as int,
            ) == Err::<Seq<RowModel>, _>(e),
        },
{
    let n = pages.len();
    let mut out: Vec<ExcelDataRow> = Vec::new();
    proof {
        assert(out@.map_values(|x: ExcelDataRow| x@) =~= Seq::<RowModel>::empty());
    }
    let mut i: usize = 0;
    while i < n
        invariant
            0 <= i <= n,
            n == pages@.len(),
            spec_collect_rows(excel_file@, spec_pages_view(pages@), i as int) == Ok::<
                _,
                FfxivError,
            >(out@.map_values(|x: ExcelDataRow| x@)),
        decreases n - i,
    {
        match &pages[i] {
            None => {},
            Some(file) => {
                match ExcelDataFile::from_file(file, excel_file) {
                    Err(e) => {
                        proof {
                            lemma_collect_err_persists(
                                excel_file@,
                                spec_pages_view(pages@),
                                i + 1,
                                n as int,
                            );
                        }
                        return Err(e);
                    },
                    Ok(data_file) => {
                        let ghost out_pre = out@.map_values(|x: ExcelDataRow| x@);
                        let mut rows = data_file.into_inner();
                        let ghost rows_view = rows@.map_values(|x: ExcelDataRow| x@);
                        out.append(&mut rows);
                        proof {
                            assert(out@.map_values(|x: ExcelDataRow| x@) =~= out_pre + rows_view);
                        }
                    },
                }
            },
        }
        i += 1;
    }
    Ok(out)
}

/// The archive catalog: the merged index tables loaded so far, keyed by the
/// cache key of their (category, repository) pair.
pub struct FfxivLibrary {
    index_files: HashMap<u64, SqPackIndexFile>,
}

impl View for FfxivLibrary {
    type V = Map<u64, Map<u64, SqPackIndexTableEntry>>;

    closed spec fn view(&self) -> Map<u64, Map<u64, SqPackIndexTableEntry>> {
        self.index_files@.map_values(|f: SqPackIndexFile| f@)
    }
}

impl FfxivLibrary {
    /// A catalog with nothing loaded yet.
    pub fn new() -> (r: FfxivLibrary)
        ensures
            r@ == Map::<u64, Map<u64, SqPackIndexTableEntry>>::empty(),
    {
        let r = FfxivLibrary { index_files: HashMap::new() };
        proof {
            assert(r@ =~= Map::<u64, Map<u64, SqPackIndexTableEntry>>::empty());
        }
        r
    }

    /// Whether the index pair of `key` has been loaded.
    pub fn has_index(&self, key: &FileKey) -> (r: bool)
        ensures
            r == self@.contains_key(spec_key_code(*key)),
    {
        let code = key_code(key);
        self.index_files.contains_key(&code)
    }

    /// Parses and caches the index pair of `key` from the raw bytes of its
    /// two physical files.  On a parse error the catalog is unchanged.
    pub fn load_index(&mut self, key: &FileKey, b1: &[u8], b2: &[u8]) -> (r: Result<
        (),
        FfxivError,
    >)
        ensures
            match r {
                Ok(()) => spec_merged_index(b1@, b2@) is Ok && final(self)@ == old(self)@.insert(
                    spec_key_code(*key),
                    spec_merged_index(b1@, b2@).unwrap(),
                ),
                Err(e) => spec_merged_index(b1@, b2@) == Err::<
                    Map<u64, SqPackIndexTableEntry>,
                    _,
                >(e) && final(self)@ == old(self)@,
            },
    {
        let code = key_code(key);
        match SqPackIndexFile::from_bytes(b1, b2) {
            Err(e) => Err(e),
            Ok(f) => {
                let ghost fv = f@;
                self.index_files.insert(code, f);
                proof {
                    assert(self.index_files@.map_values(|x: SqPackIndexFile| x@)
                        =~= old(self).index_files@.map_values(|x: SqPackIndexFile| x@).insert(
                        spec_key_code(*key),
                        fv,
                    ));
                }
                Ok(())
            },
        }
    }

    /// Resolves a path against the loaded index of `key`: the entry when
    /// the index is loaded and has the path, `NotFound` otherwise.
    pub fn entry_for_path(&self, key: &FileKey, path: &str) -> (r: Result<
        SqPackIndexTableEntry,
        FfxivError,
    >)
        ensures
            r == if self@.contains_key(spec_key_code(*key)) {
                match spec_lookup(self@[spec_key_code(*key)], path.spec_bytes()) {
                    Some(e) => Ok::<SqPackIndexTableEntry, FfxivError>(e),
                    None => Err::<SqPackIndexTableEntry, FfxivError>(FfxivError::NotFound),
                }
            } else {
                Err::<SqPackIndexTableEntry, FfxivError>(FfxivError::NotFound)
            },
    {
        let code = key_code(key);
        match self.index_files.get(&code) {
            None => Err(FfxivError::NotFound),
            Some(index_file) => match index_file.entry_from_path(path) {
                Some(e) => Ok(e),
                None => Err(FfxivError::NotFound),
            },
        }
    }
}

} // verus!
