//! Reconstruction of one archived file from its block-compressed container.
//!
//! An archived file is stored as a container header followed by a table of
//! block descriptors; each descriptor points (relative to the blocks region)
//! at an independently raw-deflate-compressed block.  The file's content is
//! the concatenation of the inflated blocks in table order.

use vstd::prelude::*;
use vstd::string::StringSliceAdditionalSpecFns;
use crate::bytes::{le32, read_le32};
use crate::error::FfxivError;
use crate::sqpack::SqPackIndexTableEntry;

verus! {

/// The container kinds an archived file may declare.  Only `Standard` is
/// handled here; the others are recognized but unsupported.
#[derive(Debug, Clone, Copy, PartialEq, Eq, Structural)]
pub enum FileType {
    Empty,
    Standard,
    Model,
    Texture,
}

impl FileType {
    /// Maps a container header's type tag; an unrecognized tag is an error,
    /// never a panic.
    pub fn from_code(code: u32) -> (r: Result<FileType, FfxivError>)
        ensures
            code == 1 ==> r == Ok::<FileType, FfxivError>(FileType::Empty),
            code == 2 ==> r == Ok::<FileType, FfxivError>(FileType::Standard),
            code == 3 ==> r == Ok::<FileType, FfxivError>(FileType::Model),
            code == 4 ==> r == Ok::<FileType, FfxivError>(FileType::Texture),
            code < 1 || code > 4 ==> r == Err::<FileType, FfxivError>(FfxivError::UnknownFileType),
    {
        match code {
            1 => Ok(FileType::Empty),
            2 => Ok(FileType::Standard),
            3 => Ok(FileType::Model),
            4 => Ok(FileType::Texture),
            _ => Err(FfxivError::UnknownFileType),
        }
    }
}

/// What raw-deflate decompression yields on a byte string, or `None` when
/// the stream is malformed.  Decoding is a pure function of the compressed
/// bytes; its value is left unspecified here and computed by the
/// decompression crate.
pub uninterp spec fn inflate_of(c: Seq<u8>) -> Option<Seq<u8>>;

/// Relies on `flate2::bufread::DeflateDecoder` over an in-memory slice:
/// raw-deflate decoding is a pure function of the compressed bytes, and a
/// malformed stream reports an error instead of bytes.
#[verifier::external_body]
fn inflate(c: &[u8]) -> (r: Result<Vec<u8>, FfxivError>)
    ensures
        match r {
            Ok(v) => inflate_of(c@) == Some(v@),
            Err(e) => e == FfxivError::CorruptStream && inflate_of(c@) is None,
        },
{
    let mut out = Vec::new();
    let mut decoder = flate2::bufread::DeflateDecoder::new(c);
    match std::io::Read::read_to_end(&mut decoder, &mut out) {
        Ok(_) => Ok(out),
        Err(_) => Err(FfxivError::CorruptStream),
    }
}

/// The inflated content of the block whose header lies at `p`: a 16-byte
/// block header whose third and fourth fields give the compressed and
/// declared uncompressed sizes, followed by exactly `compressed size` bytes
/// of raw-deflate data.
pub open spec fn spec_block_at(d: Seq<u8>, p: int) -> Result<Seq<u8>, FfxivError> {
    if p < 0 || p + 16 > d.len() {
        Err(FfxivError::Truncated)
    } else {
        let comp = le32(d, p + 8);
        if p + 16 + comp > d.len() {
            Err(FfxivError::Truncated)
        } else {
            match inflate_of(d.subrange(p + 16, p + 16 + comp)) {
                Some(x) => Ok(x),
                None => Err(FfxivError::CorruptStream),
            }
        }
    }
}

/// The concatenation of the first `n` blocks of the descriptor table at
/// `tab`, each located at `region` plus its descriptor's offset field, in
/// table order; the first failing block's error wins.
pub open spec fn spec_blocks(d: Seq<u8>, region: int, tab: int, n: int) -> Result<
    Seq<u8>,
    FfxivError,
>
    decreases n,
{
    if n <= 0 {
        Ok(Seq::empty())
    } else {
        match spec_blocks(d, region, tab, n - 1) {
            Err(e) => Err(e),
            Ok(pre) => match spec_block_at(d, region + le32(d, tab + 8 * (n - 1))) {
                Err(e) => Err(e),
                Ok(x) => Ok(pre + x),
            },
        }
    }
}

/// Once the blocks up to `i` fail, every longer prefix fails the same way.
proof fn lemma_blocks_err_persists(d: Seq<u8>, region: int, tab: int, i: int, n: int)
    requires
        0 <= i <= n,
        spec_blocks(d, region, tab, i) is Err,
    ensures
        spec_blocks(d, region, tab, n) == spec_blocks(d, region, tab, i),
    decreases n - i,
{
    if n > i {
        lemma_blocks_err_persists(d, region, tab, i, n - 1);
    }
}

/// The reconstructed content of the archived file whose container lies at
/// `off`: the common header is validated (a known, `Standard` file type),
/// the `count` block descriptors are read from right after the 24-byte
/// header, and the blocks are inflated and concatenated in table order.
/// The blocks region begins at `off` plus the header's own size.
pub open spec fn spec_reconstruct(d: Seq<u8>, off: int) -> Result<Seq<u8>, FfxivError> {
    if off + 24 > d.len() {
        Err(FfxivError::Truncated)
    } else {
        let size = le32(d, off);
        let ftype = le32(d, off + 4);
        let count = le32(d, off + 20);
        if ftype < 1 || ftype > 4 {
            Err(FfxivError::UnknownFileType)
        } else if ftype != 2 {
            Err(FfxivError::UnsupportedFileType)
        } else if off + 24 + 8 * count > d.len() {
            Err(FfxivError::Truncated)
        } else {
            spec_blocks(d, off + size, off + 24, count as int)
        }
    }
}

/// One logical asset: its virtual path and its reconstructed bytes.
#[derive(Debug)]
pub struct FfxivFile {
    path: String,
    contents: Vec<u8>,
}

impl View for FfxivFile {
    type V = Seq<u8>;

    closed spec fn view(&self) -> Seq<u8> {
        self.contents@
    }
}

impl FfxivFile {
    /// The virtual path this asset was requested under.
    pub closed spec fn spec_path(&self) -> Seq<char> {
        self.path@
    }

    /// Wraps already-decoded bytes as an asset.
    pub fn new(path: String, contents: Vec<u8>) -> (r: FfxivFile)
        ensures
            r@ == contents@,
            r.spec_path() == path@,
    {
        FfxivFile { path, contents }
    }

    /// The virtual path this asset was requested under.
    pub fn file_name(&self) -> (r: &str)
        ensures
            r@ == self.spec_path(),
    {
        self.path.as_str()
    }

    /// The asset's content.
    pub fn contents(&self) -> (r: &Vec<u8>)
        ensures
            r@ == self@,
    {
        &self.contents
    }

    /// Reconstructs the archived file at `entry.offset` inside a data file's
    /// bytes: validates the container header, then inflates and concatenates
    /// its blocks in descriptor-table order.
    pub fn from_bytes(data: &[u8], path: &str, entry: &SqPackIndexTableEntry) -> (r: Result<
        FfxivFile,
        FfxivError,
    >)
        ensures
            match r {
                Ok(f) => spec_reconstruct(data@, entry.offset as int) == Ok::<_, FfxivError>(f@)
                    && f.spec_path() == path@,
                Err(e) => spec_reconstruct(data@, entry.offset as int) == Err::<Seq<u8>, _>(e),
            },
    {
        let dlen = data.len();
        let off = entry.offset as usize;
        if off as u64 + 24 > dlen as u64 {
            return Err(FfxivError::Truncated);
        }
        let size = read_le32(data, off);
        let ftype = read_le32(data, off + 4);
        let count = read_le32(data, off + 20);
        let file_type = match FileType::from_code(ftype) {
            Ok(t) => t,
            Err(e) => {
                return Err(e);
            },
        };
        match file_type {
            FileType::Standard => {},
            _ => {
                return Err(FfxivError::UnsupportedFileType);
            },
        }
        if off as u64 + 24 + 8 * (count as u64) > dlen as u64 {
            return Err(FfxivError::Truncated);
        }
        let ghost region: int = off + size;
        let tab = off + 24;
        let n = count as usize;
        let mut out: Vec<u8> = Vec::new();
        let mut i: usize = 0;
        while i < n
            invariant
                0 <= i <= n,
                n == count,
                off == entry.offset as usize,
                size == le32(data@, off as int),
                tab == off + 24,
                region == off + size,
                dlen == data@.len(),
                off + 24 + 8 * n <= dlen,
                spec_reconstruct(data@, off as int) == spec_blocks(
                    data@,
                    region,
                    tab as int,
                    n as int,
                ),
                spec_blocks(data@, region, tab as int, i as int) == Ok::<_, FfxivError>(out@),
            decreases n - i,
        {
            let boff = read_le32(data, tab + 8 * i);
            let p64 = off as u64 + size as u64 + boff as u64;
            if p64 + 16 > dlen as u64 {
                proof {
                    lemma_blocks_err_persists(data@, region, tab as int, i + 1, n as int);
                }
                return Err(FfxivError::Truncated);
            }
            let p = p64 as usize;
            let comp = read_le32(data, p + 8);
            if p as u64 + 16 + comp as u64 > dlen as u64 {
                proof {
                    lemma_blocks_err_persists(data@, region, tab as int, i + 1, n as int);
                }
                return Err(FfxivError::Truncated);
            }
            let cstart = p + 16;
            let cend = cstart + comp as usize;
            match inflate(&data[cstart..cend]) {
                Err(e) => {
                    proof {
                        lemma_blocks_err_persists(data@, region, tab as int, i + 1, n as int);
                    }
                    return Err(e);
                },
                Ok(mut x) => {
                    out.append(&mut x);
                },
            }
            i += 1;
        }
        Ok(FfxivFile { path: path.to_owned(), contents: out })
    }
}

} // verus!
