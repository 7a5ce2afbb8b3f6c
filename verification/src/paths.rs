//! Verified path arithmetic on `/`-joined path strings.
//!
//! Every location the cache touches is derived from its two roots by joining
//! path segments with `/`. These functions do that joining, the inverse
//! (splitting a path back into a root and a relative part), and the naming
//! convention for artifact directories, each against an exact specification.

use vstd::prelude::*;
use vstd::string::StrSliceExecFns;
use vstd::string::StringExecFns;

verus! {

/// `base`, a separator, then `tail`.
pub open spec fn joined(base: Seq<char>, tail: Seq<char>) -> Seq<char> {
    base + seq!['/'] + tail
}

/// Whether `p` lies under the directory `base`: it starts with `base`,
/// followed by a separator.
pub open spec fn has_dir_prefix(base: Seq<char>, p: Seq<char>) -> bool {
    &&& p.len() > base.len()
    &&& p.subrange(0, base.len() as int) == base
    &&& p[base.len() as int] == '/'
}

/// The part of `p` after the directory `base` and its separator.
pub open spec fn rel_part(base: Seq<char>, p: Seq<char>) -> Seq<char> {
    p.subrange(base.len() as int + 1, p.len() as int)
}

/// Joining a segment onto a base and splitting it off again are inverses.
pub proof fn lemma_join_then_split(base: Seq<char>, tail: Seq<char>)
    ensures
        has_dir_prefix(base, joined(base, tail)),
        rel_part(base, joined(base, tail)) == tail,
{
    assert(joined(base, tail).subrange(0, base.len() as int) =~= base);
    assert(rel_part(base, joined(base, tail)) =~= tail);
}

/// Appends `tail` to `base` with a separator between them.
pub fn path_join(base: &String, tail: &str) -> (r: String)
    ensures
        r@ == joined(base@, tail@),
{
    let mut r = base.clone();
    r.append("/");
    r.append(tail);
    proof {
        reveal_strlit("/");
        assert(r@ =~= joined(base@, tail@));
    }
    r
}

/// Whether `c` is a decimal digit.
pub open spec fn is_digit_char(c: char) -> bool {
    ('0' as u32) <= (c as u32) && (c as u32) <= ('9' as u32)
}

/// The naming convention for artifact directories: a directory in the cache
/// root belongs to the cache exactly when its name is a non-empty, purely
/// numeric string, the shape of a task hash.
pub open spec fn valid_hash_dir_name(name: Seq<char>) -> bool {
    name.len() > 0 && (forall|i: int| 0 <= i < name.len() ==> is_digit_char(#[trigger] name[i]))
}

/// Decides the artifact-directory naming convention.
pub fn is_valid_hash_dir_name(name: &str) -> (r: bool)
    ensures
        r == valid_hash_dir_name(name@),
{
    let n = name.unicode_len();
    if n == 0 {
        return false;
    }
    let mut i: usize = 0;
    while i < n
        invariant
            0 <= i <= n,
            n == name@.len(),
            forall|j: int| 0 <= j < i ==> is_digit_char(#[trigger] name@[j]),
        decreases n - i,
    {
        let c = name.get_char(i);
        if (c as u32) < ('0' as u32) || (c as u32) > ('9' as u32) {
            return false;
        }
        i += 1;
    }
    true
}

/// Splits `base` and the separator off the front of `p`, or returns `None`
/// exactly when `p` does not lie under the directory `base`.
pub fn strip_dir_prefix(p: &String, base: &String) -> (r: Option<String>)
    ensures
        r is Some <==> has_dir_prefix(base@, p@),
        r matches Some(rel) ==> rel@ == rel_part(base@, p@),
{
    let bn = base.as_str().unicode_len();
    let pn = p.as_str().unicode_len();
    if pn <= bn {
        return None;
    }
    if p.as_str().get_char(bn) != '/' {
        return None;
    }
    let mut i: usize = 0;
    while i < bn
        invariant
            0 <= i <= bn,
            bn == base@.len(),
            pn == p@.len(),
            pn > bn,
            forall|j: int| 0 <= j < i ==> p@[j] == base@[j],
        decreases bn - i,
    {
        if p.as_str().get_char(i) != base.as_str().get_char(i) {
            proof {
                assert(p@.subrange(0, base@.len() as int)[i as int] == p@[i as int]);
            }
            return None;
        }
        i += 1;
    }
    proof {
        assert(p@.subrange(0, base@.len() as int) =~= base@);
    }
    let rel = p.as_str().substring_char(bn + 1, pn);
    Some(rel.to_owned())
}

/// The directory containing `p`: everything before the last separator, or
/// `None` exactly when `p` has no separator at all.
pub fn parent_dir(p: &String) -> (r: Option<String>)
    ensures
        r matches Some(parent) ==> has_dir_prefix(parent@, p@),
        r is None ==> forall|j: int| 0 <= j < p@.len() ==> p@[j] != '/',
{
    let n = p.as_str().unicode_len();
    let mut i: usize = n;
    while i > 0
        invariant
            0 <= i <= n,
            n == p@.len(),
            forall|j: int| i <= j < n ==> p@[j] != '/',
        decreases i,
    {
        let c = p.as_str().get_char(i - 1);
        if c == '/' {
            let parent = p.as_str().substring_char(0, i - 1).to_owned();
            proof {
                assert(p@.subrange(0, i - 1) =~= parent@);
            }
            return Some(parent);
        }
        i -= 1;
    }
    None
}

/// Joins every relative path in `rels` onto `base`.
pub fn join_all(base: &String, rels: &Vec<String>) -> (r: Vec<String>)
    ensures
        r@.len() == rels@.len(),
        forall|i: int| 0 <= i < rels@.len() ==> #[trigger] r@[i]@ == joined(base@, rels@[i]@),
{
    let mut r: Vec<String> = Vec::new();
    let mut i: usize = 0;
    while i < rels.len()
        invariant
            0 <= i <= rels@.len(),
            r@.len() == i,
            forall|j: int| 0 <= j < i ==> #[trigger] r@[j]@ == joined(base@, rels@[j]@),
        decreases rels@.len() - i,
    {
        r.push(path_join(base, rels[i].as_str()));
        i += 1;
    }
    r
}

} // verus!
