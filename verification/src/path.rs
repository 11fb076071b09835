//! Paths as strings of bytes, and what they are made of.

use crate::bytes::{copy_of, same_bytes};
use vstd::prelude::*;
use vstd::slice::slice_subrange;

verus! {

/// `/`.
pub const SLASH: u8 = 0x2f;

/// `.`.
pub const DOT: u8 = 0x2e;

/// The position of the first slash from `at` on, or the end of the text.
pub open spec fn slash_from(text: Seq<u8>, at: int) -> int
    decreases text.len() - at,
{
    if at >= text.len() || text[at] == SLASH {
        at
    } else {
        slash_from(text, at + 1)
    }
}

/// What a path is made of. Two paths are the same when they are made of the same, however
/// they are written: `/a//b/./c/` is `/a/b/c`.
#[verifier::ext_equal]
pub struct PathParts {
    /// The path begins at the root.
    pub root: bool,
    /// The path begins with a `.`, which is not the same as to begin without.
    pub here: bool,
    /// The names that lead on from there.
    pub names: Seq<Seq<u8>>,
}

/// Whether what stands between two slashes leads nowhere.
pub open spec fn leads_nowhere(name: Seq<u8>) -> bool {
    name.len() == 0 || (name.len() == 1 && name[0] == DOT)
}

/// A name, unless it leads nowhere.
pub open spec fn named(name: Seq<u8>) -> Seq<Seq<u8>> {
    if leads_nowhere(name) {
        seq![]
    } else {
        seq![name]
    }
}

/// The names in a path from `from` on, of which the first goes on to `at` at least.
pub open spec fn names_from(path: Seq<u8>, from: int, at: int) -> Seq<Seq<u8>>
    decreases path.len() - at,
{
    if at >= path.len() {
        named(path.subrange(from, at))
    } else if path[at] == SLASH {
        named(path.subrange(from, at)) + names_from(path, at + 1, at + 1)
    } else {
        names_from(path, from, at + 1)
    }
}

/// What a path is made of.
pub open spec fn parts_of(path: Seq<u8>) -> PathParts {
    PathParts {
        root: path.len() > 0 && path[0] == SLASH,
        here: path.len() > 0 && path[0] == DOT && (path.len() == 1 || path[1] == SLASH),
        names: names_from(path, 0, 0),
    }
}

/// A slash at the end of a path changes nothing, unless the path is empty.
pub proof fn law_last_slash_is_ignored(path: Seq<u8>)
    requires
        path.len() > 0,
    ensures
        parts_of(path.push(SLASH)) == parts_of(path),
{
    lemma_last_slash(path, 0, 0);
}

/// A slash at the end of a path adds no name.
proof fn lemma_last_slash(path: Seq<u8>, from: int, at: int)
    requires
        0 <= from <= at <= path.len(),
    ensures
        names_from(path.push(SLASH), from, at) == names_from(path, from, at),
    decreases path.len() - at,
{
    let longer = path.push(SLASH);
    assert(longer.subrange(from, at) =~= path.subrange(from, at));
    if at == path.len() {
        let end = longer.len() as int;
        assert(names_from(longer, end, end) == named(longer.subrange(end, end)));
        assert(names_from(longer, from, at) =~= named(path.subrange(from, at)));
    } else if path[at] == SLASH {
        lemma_last_slash(path, at + 1, at + 1);
    } else {
        lemma_last_slash(path, from, at + 1);
    }
}

/// The contents of some byte strings.
spec fn contents(names: Seq<Vec<u8>>) -> Seq<Seq<u8>> {
    names.map_values(|name: Vec<u8>| name@)
}

/// Adds a name, unless it leads nowhere.
fn add_name(names: &mut Vec<Vec<u8>>, name: &[u8])
    ensures
        contents(final(names)@) == contents(old(names)@) + named(name@),
{
    if name.len() == 0 || (name.len() == 1 && name[0] == DOT) {
        assert(contents(names@) + named(name@) =~= contents(names@));
        return;
    }
    let ghost before = names@;
    names.push(copy_of(name));
    assert(contents(names@) =~= contents(before) + named(name@));
}

/// The names in a path.
fn names_of(path: &[u8]) -> (names: Vec<Vec<u8>>)
    ensures
        contents(names@) == names_from(path@, 0, 0),
{
    let mut names: Vec<Vec<u8>> = Vec::new();
    let mut from: usize = 0;
    let mut at: usize = 0;
    assert(contents(names@) + names_from(path@, 0, 0) =~= names_from(path@, 0, 0));
    while at < path.len()
        invariant
            from <= at <= path@.len(),
            contents(names@) + names_from(path@, from as int, at as int) == names_from(path@, 0, 0),
        decreases path@.len() - at,
    {
        if path[at] == SLASH {
            let ghost before = contents(names@);
            let ghost name = path@.subrange(from as int, at as int);
            add_name(&mut names, slice_subrange(path, from, at));
            from = at + 1;
            assert(before + (named(name) + names_from(path@, from as int, from as int)) =~= (before
                + named(name)) + names_from(path@, from as int, from as int));
        }
        at = at + 1;
    }
    add_name(&mut names, slice_subrange(path, from, at));
    names
}

/// Whether two paths are made of the same.
pub fn same_path(a: &[u8], b: &[u8]) -> (same: bool)
    ensures
        same == (parts_of(a@) == parts_of(b@)),
{
    let a_root = a.len() > 0 && a[0] == SLASH;
    let b_root = b.len() > 0 && b[0] == SLASH;
    let a_here = a.len() > 0 && a[0] == DOT && (a.len() == 1 || a[1] == SLASH);
    let b_here = b.len() > 0 && b[0] == DOT && (b.len() == 1 || b[1] == SLASH);
    if a_root != b_root || a_here != b_here {
        return false;
    }
    let a_names = names_of(a);
    let b_names = names_of(b);
    same_names(&a_names, &b_names)
}

/// Whether two lists of names are the same.
fn same_names(a: &Vec<Vec<u8>>, b: &Vec<Vec<u8>>) -> (same: bool)
    ensures
        same == (contents(a@) == contents(b@)),
{
    if a.len() != b.len() {
        assert(contents(a@).len() != contents(b@).len());
        return false;
    }
    for i in 0..a.len()
        invariant
            a@.len() == b@.len(),
            forall|j: int| 0 <= j < i ==> #[trigger] a@[j]@ == b@[j]@,
    {
        if !same_bytes(a[i].as_slice(), b[i].as_slice()) {
            assert(contents(a@)[i as int] != contents(b@)[i as int]);
            return false;
        }
    }
    assert(contents(a@) =~= contents(b@));
    true
}

} // verus!
