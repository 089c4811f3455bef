//! Paths as byte strings whose components are separated by `/`.

use vstd::prelude::*;
use vstd::slice::{slice_subrange, slice_to_vec};

verus! {

/// The byte that separates the components of a path.
pub const SEPARATOR: u8 = 47;

/// The byte that separates a file name from its extension, and that names
/// the current directory when it stands alone.
pub const DOT: u8 = 46;

/// `path` names `dir` itself or something below it. The empty `dir`
/// stands for the directory that all paths are relative to.
pub open spec fn is_under(path: Seq<u8>, dir: Seq<u8>) -> bool {
    &&& dir.len() <= path.len()
    &&& path.subrange(0, dir.len() as int) == dir
    &&& (dir.len() == 0 || dir.len() == path.len() || dir.last() == SEPARATOR || path[dir.len() as int]
        == SEPARATOR)
}

/// Whether `path` names `dir` itself or something below it.
pub fn path_is_under(path: &[u8], dir: &[u8]) -> (under: bool)
    ensures
        under == is_under(path@, dir@),
{
    let n = dir.len();
    if n > path.len() {
        return false;
    }
    let mut i: usize = 0;
    while i < n
        invariant
            0 <= i <= n,
            n == dir@.len(),
            n <= path@.len(),
            forall|j: int| 0 <= j < i ==> path@[j] == dir@[j],
        decreases n - i,
    {
        if path[i] != dir[i] {
            assert(path@.subrange(0, n as int)[i as int] != dir@[i as int]);
            return false;
        }
        i = i + 1;
    }
    assert(path@.subrange(0, n as int) =~= dir@);
    n == 0 || n == path.len() || dir[n - 1] == SEPARATOR || path[n] == SEPARATOR
}

/// `path` without what stands at its end and names nothing: separators
/// and components that are a single dot.
pub open spec fn trimmed(path: Seq<u8>) -> Seq<u8>
    decreases path.len(),
{
    if path.len() > 0 && path.last() == SEPARATOR {
        trimmed(path.drop_last())
    } else if path.len() >= 2 && path.last() == DOT && path[path.len() - 2] == SEPARATOR {
        trimmed(path.drop_last())
    } else {
        path
    }
}

/// The place of the last `byte` in `bytes`, or `-1` where there is none.
pub open spec fn last_index_of(bytes: Seq<u8>, byte: u8) -> int
    decreases bytes.len(),
{
    if bytes.len() == 0 {
        -1
    } else if bytes.last() == byte {
        bytes.len() - 1
    } else {
        last_index_of(bytes.drop_last(), byte)
    }
}

/// The last component of `path`, if it names a file or a directory: what
/// follows the last separator once the end of the path is trimmed. The
/// root, the current directory and the parent directory have no name.
pub open spec fn file_name_of(path: Seq<u8>) -> Option<Seq<u8>> {
    let path = trimmed(path);
    let name = path.subrange(last_index_of(path, SEPARATOR) + 1, path.len() as int);
    if name.len() == 0 || name == seq![DOT] || name == seq![DOT, DOT] {
        None
    } else {
        Some(name)
    }
}

/// `name` without its extension: what stands before its last dot, or all
/// of it where it has no dot but in front.
pub open spec fn stem_of(name: Seq<u8>) -> Seq<u8> {
    let dot = last_index_of(name, DOT);
    if dot <= 0 {
        name
    } else {
        name.subrange(0, dot)
    }
}

/// The file name of `path` without its extension.
pub open spec fn file_stem_of(path: Seq<u8>) -> Option<Seq<u8>> {
    match file_name_of(path) {
        Some(name) => Some(stem_of(name)),
        None => None,
    }
}

/// The extension of `name`: what stands behind its last dot, unless it has
/// no dot but in front.
pub open spec fn extension_in(name: Seq<u8>) -> Option<Seq<u8>> {
    let dot = last_index_of(name, DOT);
    if dot <= 0 {
        None
    } else {
        Some(name.subrange(dot + 1, name.len() as int))
    }
}

/// The extension of the file name of `path`.
pub open spec fn extension_of(path: Seq<u8>) -> Option<Seq<u8>> {
    match file_name_of(path) {
        Some(name) => extension_in(name),
        None => None,
    }
}

/// The last of `byte` is nowhere but where `last_index_of` says.
pub proof fn lemma_last_index_of(bytes: Seq<u8>, byte: u8)
    ensures
        -1 <= last_index_of(bytes, byte) < bytes.len(),
        last_index_of(bytes, byte) >= 0 ==> bytes[last_index_of(bytes, byte)] == byte,
        forall|j: int| last_index_of(bytes, byte) < j < bytes.len() ==> bytes[j] != byte,
    decreases bytes.len(),
{
    if bytes.len() > 0 && bytes.last() != byte {
        lemma_last_index_of(bytes.drop_last(), byte);
        assert forall|j: int| last_index_of(bytes, byte) < j < bytes.len() implies bytes[j]
            != byte by {
            if j < bytes.len() - 1 {
                assert(bytes.drop_last()[j] == bytes[j]);
            }
        }
    }
}

fn find_last(bytes: &[u8], byte: u8) -> (found: Option<usize>)
    ensures
        match found {
            Some(i) => i == last_index_of(bytes@, byte) && i < bytes@.len(),
            None => last_index_of(bytes@, byte) == -1,
        },
{
    let mut i: usize = bytes.len();
    assert(bytes@.take(i as int) =~= bytes@);
    while i > 0
        invariant
            0 <= i <= bytes@.len(),
            last_index_of(bytes@, byte) == last_index_of(bytes@.take(i as int), byte),
        decreases i,
    {
        assert(bytes@.take(i as int).last() == bytes@[i - 1]);
        if bytes[i - 1] == byte {
            return Some(i - 1);
        }
        assert(bytes@.take(i as int).drop_last() =~= bytes@.take(i - 1));
        i = i - 1;
    }
    None
}

fn trim(path: &[u8]) -> (rest: &[u8])
    ensures
        rest@ == trimmed(path@),
{
    let mut end: usize = path.len();
    assert(path@.take(end as int) =~= path@);
    loop
        invariant
            0 <= end <= path@.len(),
            trimmed(path@) == trimmed(path@.take(end as int)),
        ensures
            trimmed(path@) == path@.take(end as int),
        decreases end,
    {
        let ghost prefix = path@.take(end as int);
        if end > 0 && path[end - 1] == SEPARATOR {
            assert(prefix.last() == path@[end - 1]);
            assert(prefix.drop_last() =~= path@.take(end - 1));
            end = end - 1;
        } else if end >= 2 && path[end - 1] == DOT && path[end - 2] == SEPARATOR {
            assert(prefix.last() == path@[end - 1]);
            assert(prefix[prefix.len() - 2] == path@[end - 2]);
            assert(prefix.drop_last() =~= path@.take(end - 1));
            end = end - 1;
        } else {
            if end > 0 {
                assert(prefix.last() == path@[end - 1]);
            }
            if end >= 2 {
                assert(prefix[prefix.len() - 2] == path@[end - 2]);
            }
            break ;
        }
    }
    let rest = slice_subrange(path, 0, end);
    assert(rest@ =~= path@.take(end as int));
    rest
}

fn name_in(path: &[u8]) -> (name: Option<&[u8]>)
    ensures
        match name {
            Some(name) => file_name_of(path@) == Some(name@),
            None => file_name_of(path@) is None,
        },
{
    let rest = trim(path);
    let start: usize = match find_last(rest, SEPARATOR) {
        Some(i) => i + 1,
        None => 0,
    };
    let name = slice_subrange(rest, start, rest.len());
    let nameless = name.len() == 0 || (name.len() == 1 && name[0] == DOT) || (name.len() == 2
        && name[0] == DOT && name[1] == DOT);
    proof {
        if name@.len() == 1 && name@[0] == DOT {
            assert(name@ =~= seq![DOT]);
        }
        if name@.len() == 2 && name@[0] == DOT && name@[1] == DOT {
            assert(name@ =~= seq![DOT, DOT]);
        }
        if name@ == seq![DOT] {
            assert(name@.len() == 1 && name@[0] == DOT);
        }
        if name@ == seq![DOT, DOT] {
            assert(name@.len() == 2 && name@[0] == DOT && name@[1] == DOT);
        }
    }
    if nameless {
        None
    } else {
        Some(name)
    }
}

/// The last component of `path`, if it names a file or a directory.
pub fn file_name(path: &[u8]) -> (name: Option<Vec<u8>>)
    ensures
        match name {
            Some(name) => file_name_of(path@) == Some(name@),
            None => file_name_of(path@) is None,
        },
{
    match name_in(path) {
        Some(name) => Some(slice_to_vec(name)),
        None => None,
    }
}

/// The file name of `path` without its extension, if `path` names a file
/// or a directory.
pub fn file_stem(path: &[u8]) -> (stem: Option<Vec<u8>>)
    ensures
        match stem {
            Some(stem) => file_stem_of(path@) == Some(stem@),
            None => file_stem_of(path@) is None,
        },
{
    match name_in(path) {
        Some(name) => {
            let stem = match find_last(name, DOT) {
                Some(dot) => {
                    if dot == 0 {
                        name
                    } else {
                        slice_subrange(name, 0, dot)
                    }
                },
                None => name,
            };
            Some(slice_to_vec(stem))
        },
        None => None,
    }
}

/// The extension of the file name of `path`, if it has one.
pub fn extension(path: &[u8]) -> (extension: Option<Vec<u8>>)
    ensures
        match extension {
            Some(extension) => extension_of(path@) == Some(extension@),
            None => extension_of(path@) is None,
        },
{
    match name_in(path) {
        Some(name) => {
            let n = name.len();
            match find_last(name, DOT) {
                Some(dot) => {
                    if dot == 0 {
                        None
                    } else {
                        Some(slice_to_vec(slice_subrange(name, dot + 1, n)))
                    }
                },
                None => None,
            }
        },
        None => None,
    }
}

/// Whether `left` and `right` are the same bytes.
pub fn same_bytes(left: &[u8], right: &[u8]) -> (same: bool)
    ensures
        same == (left@ == right@),
{
    if left.len() != right.len() {
        return false;
    }
    let mut i: usize = 0;
    while i < left.len()
        invariant
            0 <= i <= left.len(),
            left@.len() == right@.len(),
            forall|j: int| 0 <= j < i ==> left@[j] == right@[j],
        decreases left.len() - i,
    {
        if left[i] != right[i] {
            return false;
        }
        i = i + 1;
    }
    assert(left@ =~= right@);
    true
}

} // verus!
