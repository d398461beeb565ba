//! The hashed index store: path hashing, index-table parsing and lookup.
//!
//! An archive pair stores its entry table in two on-disk formats.  Both are
//! parsed here from their raw bytes into one hash-keyed map, with the wider
//! "format 1" records overriding "format 2" records on hash collisions.

use std::collections::HashMap;
use vstd::prelude::*;
use vstd::string::StringSliceAdditionalSpecFns;
use crate::bytes::{le32, le64, read_le32, read_le64, sub_vec};
use crate::error::FfxivError;

verus! {

broadcast use vstd::std_specs::hash::group_hash_axioms;

/// The platform tag a pack header may carry.
#[derive(Debug, Clone, Copy, PartialEq, Eq, Structural)]
pub enum PlatformId {
    Win32,
    PS3,
    PS4,
}

/// ASCII lowercasing of a byte, leaving every non-uppercase byte alone.
pub open spec fn spec_lower_byte(b: u8) -> u8 {
    if 65 <= b <= 90 {
        (b + 32) as u8
    } else {
        b
    }
}

/// ASCII lowercasing of a byte string.
pub open spec fn spec_lower(s: Seq<u8>) -> Seq<u8> {
    s.map_values(|b: u8| spec_lower_byte(b))
}

/// The reflected CRC-32 checksum (JAMCRC parameters) of a byte string.
/// Its value is a function of the bytes alone; it is left unspecified here
/// and computed by the checksum crate.
pub uninterp spec fn jamcrc_of(s: Seq<u8>) -> u32;

/// The lookup hash of a path fragment: the checksum of its ASCII-lowercased
/// bytes.
pub open spec fn spec_path_hash(s: Seq<u8>) -> u32 {
    jamcrc_of(spec_lower(s))
}

/// Relies on `crc::Crc::<u32>::checksum` with the `CRC_32_JAMCRC` parameter
/// set: the checksum is a pure function of the input bytes.
#[verifier::external_body]
fn jamcrc(bytes: &[u8]) -> (r: u32)
    ensures
        r == jamcrc_of(bytes@),
{
    crc::Crc::<u32>::new(&crc::CRC_32_JAMCRC).checksum(bytes)
}

/// ASCII-lowercases the bytes of a string.
pub fn lower_case_string_bytes(string: &str) -> (r: Vec<u8>)
    ensures
        r@ == spec_lower(string.spec_bytes()),
{
    let b = string.as_bytes();
    lower_bytes(b)
}

/// ASCII-lowercases a byte string.
pub fn lower_bytes(b: &[u8]) -> (r: Vec<u8>)
    ensures
        r@ == spec_lower(b@),
{
    let n = b.len();
    let mut r: Vec<u8> = Vec::new();
    let mut i: usize = 0;
    while i < n
        invariant
            0 <= i <= n,
            n == b@.len(),
            r@.len() == i,
            forall|j: int| 0 <= j < i ==> r@[j] == spec_lower_byte(b@[j]),
        decreases n - i,
    {
        let c = b[i];
        if 65 <= c && c <= 90 {
            r.push(c + 32);
        } else {
            r.push(c);
        }
        i += 1;
    }
    assert(r@ =~= spec_lower(b@));
    r
}

/// The path hash of a string: checksum over the lowercased bytes.
pub fn crc32(string: &str) -> (r: u32)
    ensures
        r == spec_path_hash(string.spec_bytes()),
{
    let lowered = lower_case_string_bytes(string);
    jamcrc(lowered.as_slice())
}

/// The path hash of a byte string.
pub fn crc32_bytes(b: &[u8]) -> (r: u32)
    ensures
        r == spec_path_hash(b@),
{
    let lowered = lower_bytes(b);
    jamcrc(lowered.as_slice())
}

/// Lowercasing twice is the same as lowercasing once, so the path hash never
/// depends on ASCII case: a path and its lowercased form hash identically.
pub proof fn lemma_hash_ignores_case(s: Seq<u8>)
    ensures
        spec_path_hash(spec_lower(s)) == spec_path_hash(s),
{
    assert(spec_lower(spec_lower(s)) =~= spec_lower(s));
}

/// Two byte strings that agree up to ASCII case share one path hash.
pub proof fn lemma_hash_case_insensitive(a: Seq<u8>, b: Seq<u8>)
    requires
        spec_lower(a) == spec_lower(b),
    ensures
        spec_path_hash(a) == spec_path_hash(b),
{
}

/// A byte string together with its lookup hash.
pub struct HashedString {
    /// The path hash of `value`.
    pub hash: u32,
    /// The hashed bytes.
    pub value: Vec<u8>,
}

impl HashedString {
    /// Whether `hash` really is the hash of `value`.
    pub open spec fn wf(&self) -> bool {
        self.hash == spec_path_hash(self.value@)
    }

    /// Hashes a string fragment.
    pub fn new(path: &str) -> (r: HashedString)
        ensures
            r.wf(),
            r.value@ == path.spec_bytes(),
    {
        let value = sub_vec(path.as_bytes(), 0, path.as_bytes().len());
        let hash = crc32_bytes(value.as_slice());
        HashedString { hash, value }
    }

    /// Hashes a byte-string fragment.
    pub fn from_bytes(b: Vec<u8>) -> (r: HashedString)
        ensures
            r.wf(),
            r.value@ == b@,
    {
        let hash = crc32_bytes(b.as_slice());
        HashedString { hash, value: b }
    }
}

/// The last index of `/` in `p`, if any.
pub open spec fn spec_last_slash(p: Seq<u8>) -> Option<int>
    decreases p.len(),
{
    if p.len() == 0 {
        None
    } else if p[p.len() - 1] == 47u8 {
        Some(p.len() - 1)
    } else {
        spec_last_slash(p.drop_last())
    }
}

/// Finds the last `/` in `p`.
pub fn find_last_slash(p: &[u8]) -> (r: Option<usize>)
    ensures
        match r {
            Some(i) => i < p@.len() && spec_last_slash(p@) == Some(i as int),
            None => spec_last_slash(p@) is None,
        },
{
    let mut i: usize = p.len();
    proof {
        assert(p@.subrange(0, p@.len() as int) =~= p@);
    }
    while i > 0
        invariant
            0 <= i <= p@.len(),
            spec_last_slash(p@) == spec_last_slash(p@.subrange(0, i as int)),
        decreases i,
    {
        proof {
            assert(p@.subrange(0, i as int).drop_last() =~= p@.subrange(0, i - 1 as int));
        }
        if p[i - 1] == 47u8 {
            return Some(i - 1);
        }
        i -= 1;
    }
    proof {
        assert(p@.subrange(0, 0) =~= Seq::<u8>::empty());
    }
    None
}

/// The three hashes the index layer is queried with: the directory part, the
/// file-name part, and the whole path.
pub struct Resource {
    pub directory: HashedString,
    pub file: HashedString,
    pub full_hash: HashedString,
}

impl Resource {
    /// Whether the three parts really split and hash `p`.
    pub open spec fn wf_for(&self, p: Seq<u8>) -> bool {
        &&& self.directory.wf()
        &&& self.file.wf()
        &&& self.full_hash.wf()
        &&& self.full_hash.value@ == p
        &&& match spec_last_slash(p) {
            Some(i) => self.directory.value@ == p.subrange(0, i) && self.file.value@ == p.subrange(
                i + 1,
                p.len() as int,
            ),
            None => false,
        }
    }

    /// Splits a path at its last `/` and hashes the directory part, the
    /// file-name part and the whole path.  A path without `/` has no
    /// directory part and resolves to nothing.
    pub fn new(path: &str) -> (r: Option<Resource>)
        ensures
            match r {
                Some(res) => spec_last_slash(path.spec_bytes()) is Some && res.wf_for(
                    path.spec_bytes(),
                ),
                None => spec_last_slash(path.spec_bytes()) is None,
            },
    {
        let p = path.as_bytes();
        let n = p.len();
        match find_last_slash(p) {
            None => None,
            Some(i) => {
                let dir = sub_vec(p, 0, i);
                let file = sub_vec(p, i + 1, n);
                let full = sub_vec(p, 0, n);
                proof {
                    assert(p@.subrange(0, n as int) =~= p@);
                }
                Some(
                    Resource {
                        directory: HashedString::from_bytes(dir),
                        file: HashedString::from_bytes(file),
                        full_hash: HashedString::from_bytes(full),
                    },
                )
            },
        }
    }
}

/// One resolved index entry: where an archived file lives.
#[derive(Debug, Clone, Copy, PartialEq, Eq, Structural)]
pub struct SqPackIndexTableEntry {
    /// The 64-bit lookup hash (composite or full-path).
    pub hash: u64,
    /// Which data file of the pack holds the content.
    pub data_file_id: u32,
    /// Byte offset of the archived file's container inside that data file.
    pub offset: u32,
}

/// Unpacking of a format-1 record's packed second field: the value is shifted
/// right once, its low 3 bits are the data-file id, and the remaining bits,
/// shifted left by 4, are the byte offset.
pub open spec fn spec_unpack1(hash: u64, data: u64) -> SqPackIndexTableEntry {
    let d = data >> 1;
    SqPackIndexTableEntry {
        hash,
        data_file_id: (d & 0b111) as u32,
        offset: ((d & !0x7) as u32) << 4,
    }
}

/// Unpacking of a format-2 record's packed second field: the value is shifted
/// right once, bits 1-3 of the shifted value are the data-file id, and the
/// remaining bits, shifted left by 4, are the byte offset.  The id mask
/// deliberately differs in alignment from format 1's.
pub open spec fn spec_unpack2(hash: u32, data: u32) -> SqPackIndexTableEntry {
    let d = data >> 1;
    SqPackIndexTableEntry { hash: hash as u64, data_file_id: d & 0b1110, offset: (d & !0x7) << 4 }
}

/// The format-1 record (16 bytes, little-endian) stored at `off`.
pub open spec fn spec_entry1(b: Seq<u8>, off: int) -> SqPackIndexTableEntry {
    spec_unpack1(le64(b, off), le64(b, off + 8))
}

/// The format-2 record (8 bytes, little-endian) stored at `off`.
pub open spec fn spec_entry2(b: Seq<u8>, off: int) -> SqPackIndexTableEntry {
    spec_unpack2(le32(b, off), le32(b, off + 4))
}

impl SqPackIndexTableEntry {
    /// Decodes the format-1 record at `off`.
    pub fn from_bytes1(b: &[u8], off: usize) -> (r: SqPackIndexTableEntry)
        requires
            off + 16 <= b@.len(),
        ensures
            r == spec_entry1(b@, off as int),
    {
        let n = b.len();
        let hash = read_le64(b, off);
        let data = read_le64(b, off + 8);
        let d = data >> 1u64;
        SqPackIndexTableEntry {
            hash,
            data_file_id: (d & 0b111) as u32,
            offset: ((d & !0x7) as u32) << 4u32,
        }
    }

    /// Decodes the format-2 record at `off`.
    pub fn from_bytes2(b: &[u8], off: usize) -> (r: SqPackIndexTableEntry)
        requires
            off + 8 <= b@.len(),
        ensures
            r == spec_entry2(b@, off as int),
    {
        let n = b.len();
        let hash = read_le32(b, off);
        let data = read_le32(b, off + 4);
        let d = data >> 1u32;
        SqPackIndexTableEntry { hash: hash as u64, data_file_id: d & 0b1110, offset: (d & !0x7)
            << 4u32 }
    }
}

impl PlatformId {
    /// Maps a pack header's platform tag; an unrecognized tag is an error,
    /// never a panic.
    pub fn from_code(code: u32) -> (r: Result<PlatformId, FfxivError>)
        ensures
            code == 0 ==> r == Ok::<PlatformId, FfxivError>(PlatformId::Win32),
            code == 1 ==> r == Ok::<PlatformId, FfxivError>(PlatformId::PS3),
            code == 2 ==> r == Ok::<PlatformId, FfxivError>(PlatformId::PS4),
            code > 2 ==> r == Err::<PlatformId, FfxivError>(FfxivError::UnknownPlatform),
    {
        match code {
            0 => Ok(PlatformId::Win32),
            1 => Ok(PlatformId::PS3),
            2 => Ok(PlatformId::PS4),
            _ => Err(FfxivError::UnknownPlatform),
        }
    }
}

/// Where an index file's entry table lies: validates the pack header
/// (platform tag, own size), then reads the secondary header's table offset
/// and byte size.
pub open spec fn spec_index_table_bounds(b: Seq<u8>) -> Result<(u32, u32), FfxivError> {
    if b.len() < 24 {
        Err(FfxivError::Truncated)
    } else if le32(b, 8) > 2 {
        Err(FfxivError::UnknownPlatform)
    } else {
        let hsize = le32(b, 12);
        if hsize + 16 > b.len() {
            Err(FfxivError::Truncated)
        } else {
            Ok((le32(b, hsize + 8), le32(b, hsize + 12)))
        }
    }
}

/// Locates the entry table of one physical index file.
pub fn parse_index_table_bounds(b: &[u8]) -> (r: Result<(u32, u32), FfxivError>)
    ensures
        r == spec_index_table_bounds(b@),
{
    let n = b.len();
    if n < 24 {
        return Err(FfxivError::Truncated);
    }
    let platform = read_le32(b, 8);
    let _platform_id = match PlatformId::from_code(platform) {
        Ok(p) => p,
        Err(e) => {
            return Err(e);
        },
    };
    let hsize = read_le32(b, 12);
    if hsize as u64 + 16 > n as u64 {
        return Err(FfxivError::Truncated);
    }
    let hs = hsize as usize;
    let data_off = read_le32(b, hs + 8);
    let data_size = read_le32(b, hs + 12);
    Ok((data_off, data_size))
}

/// The map holding the first `n` format-1 records of the table at `tab`,
/// inserted in record order (later records override earlier ones).
pub open spec fn spec_entries_map1(b: Seq<u8>, tab: int, n: int) -> Map<u64, SqPackIndexTableEntry>
    decreases n,
{
    if n <= 0 {
        Map::empty()
    } else {
        let e = spec_entry1(b, tab + 16 * (n - 1));
        spec_entries_map1(b, tab, n - 1).insert(e.hash, e)
    }
}

/// The map holding the first `n` format-2 records of the table at `tab`.
pub open spec fn spec_entries_map2(b: Seq<u8>, tab: int, n: int) -> Map<u64, SqPackIndexTableEntry>
    decreases n,
{
    if n <= 0 {
        Map::empty()
    } else {
        let e = spec_entry2(b, tab + 8 * (n - 1));
        spec_entries_map2(b, tab, n - 1).insert(e.hash, e)
    }
}

/// The hash map one physical index file decodes to.  The record size is 16
/// bytes for format 1 and 8 bytes for format 2; the record count is the
/// table's byte size divided by the record size.
pub open spec fn spec_parse_index(b: Seq<u8>, fmt1: bool) -> Result<
    Map<u64, SqPackIndexTableEntry>,
    FfxivError,
> {
    match spec_index_table_bounds(b) {
        Err(e) => Err(e),
        Ok(bounds) => {
            let rec: int = if fmt1 {
                16
            } else {
                8
            };
            let n = bounds.1 as int / rec;
            if bounds.0 + n * rec > b.len() {
                Err(FfxivError::Truncated)
            } else if fmt1 {
                Ok(spec_entries_map1(b, bounds.0 as int, n))
            } else {
                Ok(spec_entries_map2(b, bounds.0 as int, n))
            }
        },
    }
}

/// The merged table of an index pair: format-2 entries overlaid by format-1
/// entries, so format 1 wins whenever a hash occurs in both.
pub open spec fn spec_merged_index(b1: Seq<u8>, b2: Seq<u8>) -> Result<
    Map<u64, SqPackIndexTableEntry>,
    FfxivError,
> {
    match spec_parse_index(b1, true) {
        Err(e) => Err(e),
        Ok(m1) => match spec_parse_index(b2, false) {
            Err(e) => Err(e),
            Ok(m2) => Ok(m2.union_prefer_right(m1)),
        },
    }
}

/// On any hash the merged table resolves to the format-1 entry when format 1
/// has that hash, and to the format-2 entry only otherwise; it holds a hash
/// exactly when one of the two tables does.
pub proof fn lemma_format1_wins(b1: Seq<u8>, b2: Seq<u8>, h: u64)
    requires
        spec_merged_index(b1, b2) is Ok,
    ensures
        ({
            let m1 = spec_parse_index(b1, true).unwrap();
            let m2 = spec_parse_index(b2, false).unwrap();
            let m = spec_merged_index(b1, b2).unwrap();
            &&& (m.contains_key(h) <==> m1.contains_key(h) || m2.contains_key(h))
            &&& (m1.contains_key(h) ==> m.contains_key(h) && m[h] == m1[h])
            &&& (!m1.contains_key(h) && m2.contains_key(h) ==> m.contains_key(h) && m[h] == m2[h])
        }),
{
}

/// The merged hash-to-entry table of one archive pair.
#[derive(Debug)]
pub struct SqPackIndexFile {
    entries: HashMap<u64, SqPackIndexTableEntry>,
}

impl View for SqPackIndexFile {
    type V = Map<u64, SqPackIndexTableEntry>;

    closed spec fn view(&self) -> Map<u64, SqPackIndexTableEntry> {
        self.entries@
    }
}

/// What a path resolves to in a merged table: the composite
/// (directory-hash, file-hash) key is consulted first, then the full-path
/// hash; a path without `/` resolves to nothing.
pub open spec fn spec_lookup(m: Map<u64, SqPackIndexTableEntry>, p: Seq<u8>) -> Option<
    SqPackIndexTableEntry,
> {
    match spec_last_slash(p) {
        None => None,
        Some(i) => {
            let h1 = ((spec_path_hash(p.subrange(0, i)) as u64) << 32) | (spec_path_hash(
                p.subrange(i + 1, p.len() as int),
            ) as u64);
            let h2 = spec_path_hash(p) as u64;
            if m.contains_key(h1) {
                Some(m[h1])
            } else if m.contains_key(h2) {
                Some(m[h2])
            } else {
                None
            }
        },
    }
}

impl SqPackIndexFile {
    /// Decodes and merges an index pair from the raw bytes of its two
    /// physical files (format 1 first, then its format-2 sibling).
    pub fn from_bytes(b1: &[u8], b2: &[u8]) -> (r: Result<SqPackIndexFile, FfxivError>)
        ensures
            match r {
                Ok(f) => spec_merged_index(b1@, b2@) == Ok::<_, FfxivError>(f@),
                Err(e) => spec_merged_index(b1@, b2@) == Err::<Map<u64, SqPackIndexTableEntry>,
                    _,
                >(e),
            },
    {
        let len1 = b1.len();
        let len2 = b2.len();
        let bounds1 = match parse_index_table_bounds(b1) {
            Ok(v) => v,
            Err(e) => {
                return Err(e);
            },
        };
        let n1 = (bounds1.1 / 16) as usize;
        if bounds1.0 as u64 + (n1 as u64) * 16 > len1 as u64 {
            return Err(FfxivError::Truncated);
        }
        let bounds2 = match parse_index_table_bounds(b2) {
            Ok(v) => v,
            Err(e) => {
                return Err(e);
            },
        };
        let n2 = (bounds2.1 / 8) as usize;
        if bounds2.0 as u64 + (n2 as u64) * 8 > len2 as u64 {
            return Err(FfxivError::Truncated);
        }

        let tab2 = bounds2.0 as usize;
        let mut entries: HashMap<u64, SqPackIndexTableEntry> = HashMap::new();
        let mut i: usize = 0;
        while i < n2
            invariant
                0 <= i <= n2,
                tab2 + 8 * n2 <= len2 == b2@.len(),
                entries@ == spec_entries_map2(b2@, tab2 as int, i as int),
            decreases n2 - i,
        {
            let e = SqPackIndexTableEntry::from_bytes2(b2, tab2 + 8 * i);
            entries.insert(e.hash, e);
            i += 1;
        }
        let ghost m2 = spec_entries_map2(b2@, tab2 as int, n2 as int);

        let tab1 = bounds1.0 as usize;
        let mut j: usize = 0;
        proof {
            assert(m2.union_prefer_right(spec_entries_map1(b1@, tab1 as int, 0)) =~= m2);
        }
        while j < n1
            invariant
                0 <= j <= n1,
                tab1 + 16 * n1 <= len1 == b1@.len(),
                entries@ == m2.union_prefer_right(spec_entries_map1(b1@, tab1 as int, j as int)),
            decreases n1 - j,
        {
            let e = SqPackIndexTableEntry::from_bytes1(b1, tab1 + 16 * j);
            entries.insert(e.hash, e);
            proof {
                let prev = spec_entries_map1(b1@, tab1 as int, j as int);
                assert(m2.union_prefer_right(prev.insert(e.hash, e)) =~= m2.union_prefer_right(
                    prev,
                ).insert(e.hash, e));
            }
            j += 1;
        }
        Ok(SqPackIndexFile { entries })
    }

    /// The entry stored under a 64-bit hash, if any.
    pub fn entry_by_hash(&self, hash: u64) -> (r: Option<SqPackIndexTableEntry>)
        ensures
            r == if self@.contains_key(hash) {
                Some(self@[hash])
            } else {
                None::<SqPackIndexTableEntry>
            },
    {
        match self.entries.get(&hash) {
            Some(e) => Some(*e),
            None => None,
        }
    }

    /// Resolves a path: composite (directory, file) hash first, then the
    /// full-path hash; `None` when the path is absent or has no `/`.
    pub fn entry_from_path(&self, path: &str) -> (r: Option<SqPackIndexTableEntry>)
        ensures
            r == spec_lookup(self@, path.spec_bytes()),
    {
        match Resource::new(path) {
            None => None,
            Some(res) => {
                let h1: u64 = ((res.directory.hash as u64) << 32u64) | (res.file.hash as u64);
                let h2: u64 = res.full_hash.hash as u64;
                match self.entries.get(&h1) {
                    Some(e) => Some(*e),
                    None => match self.entries.get(&h2) {
                        Some(e) => Some(*e),
                        None => None,
                    },
                }
            },
        }
    }
}

} // verus!
