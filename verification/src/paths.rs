//! Derivation of the package key from a file path.
//!
//! The package key of a file is its parent directory: the characters before
//! the last `/` separator, or `/` itself when that separator is the leading
//! character. A path without any separator has no directory component, and
//! the lone `/` is a root with no parent: neither yields a package key.
//! Paths are compared exactly; no normalization is performed here.

use vstd::prelude::*;
use vstd::string::StrSliceExecFns;

verus! {

/// Index of the last `/` in the path, or -1 when there is none.
pub open spec fn last_separator(path: Seq<char>) -> int
    decreases path.len(),
{
    if path.len() == 0 {
        -1
    } else if path[path.len() - 1] == '/' {
        path.len() - 1
    } else {
        last_separator(path.drop_last())
    }
}

/// The parent directory of a file path, when one can be derived.
pub open spec fn parent_of(path: Seq<char>) -> Option<Seq<char>> {
    let sep = last_separator(path);
    if sep < 0 {
        None
    } else if sep == 0 {
        if path.len() == 1 {
            None
        } else {
            Some(seq!['/'])
        }
    } else {
        Some(path.take(sep))
    }
}

/// A `/` at position `sep` with none after it is the last separator.
proof fn lemma_last_separator_at(path: Seq<char>, sep: int)
    requires
        0 <= sep < path.len(),
        path[sep] == '/',
        forall|k: int| sep < k < path.len() ==> path[k] != '/',
    ensures
        last_separator(path) == sep,
    decreases path.len(),
{
    if sep < path.len() - 1 {
        lemma_last_separator_at(path.drop_last(), sep);
    }
}

/// A path without any `/` has no separator.
proof fn lemma_no_separator(path: Seq<char>)
    requires
        forall|k: int| 0 <= k < path.len() ==> path[k] != '/',
    ensures
        last_separator(path) == -1,
    decreases path.len(),
{
    if path.len() > 0 {
        lemma_no_separator(path.drop_last());
    }
}

/// The parent directory of `path`, or `None` when no package key can be
/// derived from it.
pub fn parent_dir(path: &str) -> (parent: Option<String>)
    ensures
        match parent {
            Some(directory) => parent_of(path@) == Some(directory@),
            None => parent_of(path@) is None,
        },
{
    let length = path.unicode_len();
    let mut i: usize = length;
    while i > 0
        invariant
            i <= length,
            length == path@.len(),
            forall|k: int| i <= k < path@.len() ==> path@[k] != '/',
        decreases i,
    {
        let c = path.get_char(i - 1);
        if c == '/' {
            proof {
                lemma_last_separator_at(path@, i - 1);
            }
            if i - 1 == 0 {
                if length == 1 {
                    return None;
                }
                let root = String::from_str("/");
                proof {
                    reveal_strlit("/");
                    assert(root@ =~= seq!['/']);
                }
                return Some(root);
            }
            let directory = path.substring_char(0, i - 1);
            return Some(directory.to_owned());
        }
        i -= 1;
    }
    proof {
        lemma_no_separator(path@);
    }
    None
}

} // verus!
