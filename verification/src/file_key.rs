//! Classification of a virtual asset path into a (category, repository) key.
//!
//! The first path segment names one of a fixed set of asset categories; the
//! second segment may name one of up to ten repositories, defaulting to the
//! base repository when absent or unrecognized.

use vstd::prelude::*;
use vstd::string::StringSliceAdditionalSpecFns;
use crate::bytes::bytes_eq;
use crate::error::FfxivError;

verus! {

/// The fixed asset classes an archive is partitioned into.
#[derive(Debug, Clone, Copy, PartialEq, Eq, Hash, Structural)]
pub enum Category {
    Common,
    BgCommon,
    Bg,
    Cutscene,
    Character,
    Shader,
    Ui,
    Sound,
    Vfx,
    UiScript,
    ExcelData,
    GameScript,
    Music,
    SqPackTest,
    Debug,
}

/// The numeric code a category carries in physical file names.
pub open spec fn spec_category_code(c: Category) -> u8 {
    match c {
        Category::Common => 0,
        Category::BgCommon => 1,
        Category::Bg => 2,
        Category::Cutscene => 3,
        Category::Character => 4,
        Category::Shader => 5,
        Category::Ui => 6,
        Category::Sound => 7,
        Category::Vfx => 8,
        Category::UiScript => 9,
        Category::ExcelData => 10,
        Category::GameScript => 11,
        Category::Music => 12,
        Category::SqPackTest => 18,
        Category::Debug => 19,
    }
}

/// The category named by a path's first segment, if any.
pub open spec fn spec_category_of_name(t: Seq<u8>) -> Option<Category> {
    if t == "common".spec_bytes() {
        Some(Category::Common)
    } else if t == "bgcommon".spec_bytes() {
        Some(Category::BgCommon)
    } else if t == "bg".spec_bytes() {
        Some(Category::Bg)
    } else if t == "cut".spec_bytes() {
        Some(Category::Cutscene)
    } else if t == "chara".spec_bytes() {
        Some(Category::Character)
    } else if t == "shader".spec_bytes() {
        Some(Category::Shader)
    } else if t == "ui".spec_bytes() {
        Some(Category::Ui)
    } else if t == "sound".spec_bytes() {
        Some(Category::Sound)
    } else if t == "vfx".spec_bytes() {
        Some(Category::Vfx)
    } else if t == "ui_script".spec_bytes() {
        Some(Category::UiScript)
    } else if t == "exd".spec_bytes() {
        Some(Category::ExcelData)
    } else if t == "game_script".spec_bytes() {
        Some(Category::GameScript)
    } else if t == "music".spec_bytes() {
        Some(Category::Music)
    } else if t == "sqpack_test".spec_bytes() {
        Some(Category::SqPackTest)
    } else if t == "debug".spec_bytes() {
        Some(Category::Debug)
    } else {
        None
    }
}

impl Category {
    /// The numeric code used in physical pack file names.
    pub fn code(&self) -> (r: u8)
        ensures
            r == spec_category_code(*self),
    {
        match *self {
            Category::Common => 0,
            Category::BgCommon => 1,
            Category::Bg => 2,
            Category::Cutscene => 3,
            Category::Character => 4,
            Category::Shader => 5,
            Category::Ui => 6,
            Category::Sound => 7,
            Category::Vfx => 8,
            Category::UiScript => 9,
            Category::ExcelData => 10,
            Category::GameScript => 11,
            Category::Music => 12,
            Category::SqPackTest => 18,
            Category::Debug => 19,
        }
    }

    /// Maps a path segment to its category; an unknown segment is an error,
    /// never a panic.
    pub fn from_name(t: &[u8]) -> (r: Result<Category, FfxivError>)
        ensures
            match r {
                Ok(c) => spec_category_of_name(t@) == Some(c),
                Err(e) => e == FfxivError::UnknownCategory && spec_category_of_name(t@) is None,
            },
    {
        if bytes_eq(t, "common".as_bytes()) {
            Ok(Category::Common)
        } else if bytes_eq(t, "bgcommon".as_bytes()) {
            Ok(Category::BgCommon)
        } else if bytes_eq(t, "bg".as_bytes()) {
            Ok(Category::Bg)
        } else if bytes_eq(t, "cut".as_bytes()) {
            Ok(Category::Cutscene)
        } else if bytes_eq(t, "chara".as_bytes()) {
            Ok(Category::Character)
        } else if bytes_eq(t, "shader".as_bytes()) {
            Ok(Category::Shader)
        } else if bytes_eq(t, "ui".as_bytes()) {
            Ok(Category::Ui)
        } else if bytes_eq(t, "sound".as_bytes()) {
            Ok(Category::Sound)
        } else if bytes_eq(t, "vfx".as_bytes()) {
            Ok(Category::Vfx)
        } else if bytes_eq(t, "ui_script".as_bytes()) {
            Ok(Category::UiScript)
        } else if bytes_eq(t, "exd".as_bytes()) {
            Ok(Category::ExcelData)
        } else if bytes_eq(t, "game_script".as_bytes()) {
            Ok(Category::GameScript)
        } else if bytes_eq(t, "music".as_bytes()) {
            Ok(Category::Music)
        } else if bytes_eq(t, "sqpack_test".as_bytes()) {
            Ok(Category::SqPackTest)
        } else if bytes_eq(t, "debug".as_bytes()) {
            Ok(Category::Debug)
        } else {
            Err(FfxivError::UnknownCategory)
        }
    }
}

/// One of up to ten repositories an archive may be split into; `0` is the
/// base repository.
#[derive(Debug, Clone, Copy, PartialEq, Eq, Hash, Structural)]
pub struct Repository(pub u8);

/// The repository named by a path segment, if any.
pub open spec fn spec_repository_of_name(t: Seq<u8>) -> Option<u8> {
    if t == "ffxiv".spec_bytes() {
        Some(0u8)
    } else if t == "ex1".spec_bytes() {
        Some(1u8)
    } else if t == "ex2".spec_bytes() {
        Some(2u8)
    } else if t == "ex3".spec_bytes() {
        Some(3u8)
    } else if t == "ex4".spec_bytes() {
        Some(4u8)
    } else if t == "ex5".spec_bytes() {
        Some(5u8)
    } else if t == "ex6".spec_bytes() {
        Some(6u8)
    } else if t == "ex7".spec_bytes() {
        Some(7u8)
    } else if t == "ex8".spec_bytes() {
        Some(8u8)
    } else if t == "ex9".spec_bytes() {
        Some(9u8)
    } else {
        None
    }
}

/// The directory name a repository uses on disk.
pub open spec fn spec_repository_name(r: u8) -> Seq<u8> {
    if r == 1 {
        "ex1".spec_bytes()
    } else if r == 2 {
        "ex2".spec_bytes()
    } else if r == 3 {
        "ex3".spec_bytes()
    } else if r == 4 {
        "ex4".spec_bytes()
    } else if r == 5 {
        "ex5".spec_bytes()
    } else if r == 6 {
        "ex6".spec_bytes()
    } else if r == 7 {
        "ex7".spec_bytes()
    } else if r == 8 {
        "ex8".spec_bytes()
    } else if r == 9 {
        "ex9".spec_bytes()
    } else {
        "ffxiv".spec_bytes()
    }
}

impl Repository {
    /// Maps a path segment to a repository; anything unrecognized falls back
    /// to the base repository rather than erroring.
    pub fn from_name(t: &[u8]) -> (r: Repository)
        ensures
            r.0 == match spec_repository_of_name(t@) {
                Some(v) => v,
                None => 0u8,
            },
    {
        if bytes_eq(t, "ffxiv".as_bytes()) {
            Repository(0)
        } else if bytes_eq(t, "ex1".as_bytes()) {
            Repository(1)
        } else if bytes_eq(t, "ex2".as_bytes()) {
            Repository(2)
        } else if bytes_eq(t, "ex3".as_bytes()) {
            Repository(3)
        } else if bytes_eq(t, "ex4".as_bytes()) {
            Repository(4)
        } else if bytes_eq(t, "ex5".as_bytes()) {
            Repository(5)
        } else if bytes_eq(t, "ex6".as_bytes()) {
            Repository(6)
        } else if bytes_eq(t, "ex7".as_bytes()) {
            Repository(7)
        } else if bytes_eq(t, "ex8".as_bytes()) {
            Repository(8)
        } else if bytes_eq(t, "ex9".as_bytes()) {
            Repository(9)
        } else {
            Repository(0)
        }
    }

    /// The directory name this repository uses on disk.
    pub fn name_bytes(&self) -> (r: Vec<u8>)
        ensures
            r@ == spec_repository_name(self.0),
    {
        let s: &str = if self.0 == 1 {
            "ex1"
        } else if self.0 == 2 {
            "ex2"
        } else if self.0 == 3 {
            "ex3"
        } else if self.0 == 4 {
            "ex4"
        } else if self.0 == 5 {
            "ex5"
        } else if self.0 == 6 {
            "ex6"
        } else if self.0 == 7 {
            "ex7"
        } else if self.0 == 8 {
            "ex8"
        } else if self.0 == 9 {
            "ex9"
        } else {
            "ffxiv"
        };
        let mut r: Vec<u8> = Vec::new();
        crate::bytes::push_bytes(&mut r, s.as_bytes());
        assert(r@ =~= s.spec_bytes());
        r
    }
}

/// The first index of `/` in `p`, if any.
pub open spec fn spec_first_slash(p: Seq<u8>, from: int) -> Option<int>
    decreases p.len() - from,
{
    if from < 0 || from >= p.len() {
        None
    } else if p[from] == 47u8 {
        Some(from)
    } else {
        spec_first_slash(p, from + 1)
    }
}

/// Finds the first `/` at or after `from`.
pub fn find_first_slash(p: &[u8], from: usize) -> (r: Option<usize>)
    requires
        from <= p@.len(),
    ensures
        match r {
            Some(i) => from <= i < p@.len() && spec_first_slash(p@, from as int) == Some(i as int),
            None => spec_first_slash(p@, from as int) is None,
        },
{
    let n = p.len();
    let mut i: usize = from;
    while i < n
        invariant
            from <= i <= n,
            n == p@.len(),
            spec_first_slash(p@, from as int) == spec_first_slash(p@, i as int),
        decreases n - i,
    {
        if p[i] == 47u8 {
            return Some(i);
        }
        i += 1;
    }
    None
}

/// What a virtual path classifies into: which index pair to consult.
#[derive(Debug, Clone, Copy, PartialEq, Eq, Hash, Structural)]
pub struct FileKey {
    pub category: Category,
    pub repository: Repository,
}

/// The key a path classifies into: the category is the first segment, the
/// repository the second segment when one exists (falling back to the base
/// repository when it is unrecognized or absent).
pub open spec fn spec_file_key(p: Seq<u8>) -> Result<FileKey, FfxivError> {
    match spec_first_slash(p, 0) {
        None => Err(FfxivError::UnknownCategory),
        Some(i) => match spec_category_of_name(p.subrange(0, i)) {
            None => Err(FfxivError::UnknownCategory),
            Some(cat) => {
                let rest = p.subrange(i + 1, p.len() as int);
                let repo = match spec_first_slash(rest, 0) {
                    None => 0u8,
                    Some(j) => match spec_repository_of_name(rest.subrange(0, j)) {
                        Some(v) => v,
                        None => 0u8,
                    },
                };
                Ok(FileKey { category: cat, repository: Repository(repo) })
            },
        },
    }
}

impl FileKey {
    /// Classifies a virtual path.  The path must start with a known category
    /// segment; a missing or unknown one is an error, never a panic.
    pub fn new(path: &str) -> (r: Result<FileKey, FfxivError>)
        ensures
            r == spec_file_key(path.spec_bytes()),
    {
        let p = path.as_bytes();
        let n = p.len();
        match find_first_slash(p, 0) {
            None => Err(FfxivError::UnknownCategory),
            Some(i) => {
                let cat_tok = crate::bytes::sub_vec(p, 0, i);
                match Category::from_name(cat_tok.as_slice()) {
                    Err(e) => Err(e),
                    Ok(cat) => {
                        let rest = crate::bytes::sub_vec(p, i + 1, n);
                        let repo: Repository = match find_first_slash(rest.as_slice(), 0) {
                            None => Repository(0),
                            Some(j) => {
                                let repo_tok = crate::bytes::sub_vec(rest.as_slice(), 0, j);
                                Repository::from_name(repo_tok.as_slice())
                            },
                        };
                        Ok(FileKey { category: cat, repository: repo })
                    },
                }
            },
        }
    }
}

} // verus!
