//! The last component of a source file's path.

use vstd::prelude::*;
use vstd::string::StrSliceExecFns;

verus! {

/// Both kinds of path separator count, whatever the platform.
pub open spec fn is_separator(c: char) -> bool {
    c == '/' || c == '\\'
}

/// The index just past the last separator among the first `upto` characters
/// of `path`; 0 where there is none.
pub open spec fn name_start(path: Seq<char>, upto: int) -> int
    decreases upto,
{
    if upto <= 0 {
        0
    } else if is_separator(path[upto - 1]) {
        upto
    } else {
        name_start(path, upto - 1)
    }
}

/// What follows the last separator of `path`: the whole of it where it holds
/// no separator, nothing where it ends in one.
pub open spec fn short_name(path: Seq<char>) -> Seq<char> {
    path.subrange(name_start(path, path.len() as int), path.len() as int)
}

/// `name_start` is the one index that has a separator right before it (or is
/// 0) and none from it on.
pub proof fn lemma_name_start(path: Seq<char>, upto: int)
    requires
        0 <= upto <= path.len(),
    ensures
        0 <= name_start(path, upto) <= upto,
        name_start(path, upto) > 0 ==> is_separator(path[name_start(path, upto) - 1]),
        forall|k: int| name_start(path, upto) <= k < upto ==> !is_separator(path[k]),
    decreases upto,
{
    if upto > 0 && !is_separator(path[upto - 1]) {
        lemma_name_start(path, upto - 1);
    }
}

/// The file name at the end of `filename`, without the directories before it.
pub fn get_short_file_path(filename: &str) -> (short: &str)
    ensures
        short@ == short_name(filename@),
        forall|k: int| 0 <= k < short@.len() ==> !is_separator(#[trigger] short@[k]),
        short@.len() == filename@.len() || is_separator(
            filename@[filename@.len() - short@.len() - 1],
        ),
{
    let total = filename.unicode_len();
    let mut start: usize = 0;
    let mut seen: usize = 0;
    for c in iter: filename.chars()
        invariant
            iter.seq() == filename@,
            total == filename@.len(),
            seen == iter.index(),
            start == name_start(filename@, iter.index()),
    {
        seen = seen + 1;
        if c == '\\' || c == '/' {
            start = seen;
        }
    }
    proof {
        lemma_name_start(filename@, total as int);
    }
    filename.substring_char(start, total)
}

} // verus!
