//! The code editor's file browser: which directory entries are listed and
//! which files may be opened.
use vstd::prelude::*;
use crate::text::same_text;

verus! {

/// Directories the browser leaves out.
pub open spec fn skipped_dir(name: Seq<char>) -> bool {
    ||| name == "node_modules"@
    ||| name == "target"@
    ||| name == "dist"@
    ||| name == ".git"@
    ||| name == "__pycache__"@
    ||| name == ".next"@
    ||| name == ".nuxt"@
    ||| name == "build"@
}

/// An entry is listed unless its name starts with `.` or it is a directory
/// of build output or dependencies.
pub open spec fn listed_spec(name: Seq<char>, is_dir: bool) -> bool {
    !(name.len() > 0 && name[0] == '.') && !(is_dir && skipped_dir(name))
}

/// Whether a directory entry is listed (see [`listed_spec`]).
pub fn is_listed(name: &str, is_dir: bool) -> (r: bool)
    ensures
        r == listed_spec(name@, is_dir),
{
    let c = crate::text::chars_of(name);
    if c.len() > 0 && c[0] == '.' {
        return false;
    }
    if is_dir {
        let skip = same_text(name, "node_modules") || same_text(name, "target") || same_text(name, "dist")
            || same_text(name, ".git") || same_text(name, "__pycache__") || same_text(name, ".next")
            || same_text(name, ".nuxt") || same_text(name, "build");
        !skip
    } else {
        true
    }
}

/// The largest file the editor opens: 10 MiB.
pub const MAX_OPEN_BYTES: u64 = 10485760;

/// A file of `len` bytes is opened only up to [`MAX_OPEN_BYTES`].
pub fn may_open(len: u64) -> (r: bool)
    ensures
        r == (len <= 10 * 1024 * 1024),
{
    len <= MAX_OPEN_BYTES
}

/// The size shown for an entry: 0 for a directory, else the file's length
/// (0 when it cannot be read).
pub fn entry_size(is_dir: bool, len: Option<u64>) -> (r: u64)
    ensures
        r == (if is_dir { 0 } else { match len { Some(l) => l, None => 0 } }),
{
    if is_dir {
        0
    } else {
        match len {
            Some(l) => l,
            None => 0,
        }
    }
}

} // verus!
