//! Paths of sources, as byte strings.
//!
//! A path is a sequence of components separated by `/`. Locating a name
//! against a base gives an absolute path without `.`, `..` or empty
//! components.

use vstd::prelude::*;
use crate::bytes::{copy_bytes, lines_view, prefixed, push_all};

verus! {

pub const SEPARATOR: u8 = 47;

pub const DOT: u8 = 46;

/// The components of `path`: the bytes between its separators. A path of
/// `n` separators has `n + 1` components, some of which may be empty.
pub open spec fn split(path: Seq<u8>) -> Seq<Seq<u8>>
    decreases path.len(),
{
    if path.len() == 0 {
        seq![Seq::<u8>::empty()]
    } else {
        let before = split(path.drop_last());
        if path.last() == SEPARATOR {
            before.push(Seq::<u8>::empty())
        } else {
            before.drop_last().push(before.last().push(path.last()))
        }
    }
}

/// The components that remain once `.` and empty components are dropped and
/// each `..` has removed the component before it. At the root, `..` stays at
/// the root.
pub open spec fn resolved(components: Seq<Seq<u8>>) -> Seq<Seq<u8>>
    decreases components.len(),
{
    if components.len() == 0 {
        Seq::<Seq<u8>>::empty()
    } else {
        let before = resolved(components.drop_last());
        let component = components.last();
        if component.len() == 0 || component == seq![DOT] {
            before
        } else if component == seq![DOT, DOT] {
            if before.len() > 0 {
                before.drop_last()
            } else {
                before
            }
        } else {
            before.push(component)
        }
    }
}

/// The absolute path of these components: each preceded by a separator, and
/// a lone separator for none.
pub open spec fn joined(components: Seq<Seq<u8>>) -> Seq<u8> {
    if components.len() == 0 {
        seq![SEPARATOR]
    } else {
        prefixed(components, seq![SEPARATOR])
    }
}

/// `path` as an absolute path without `.`, `..` or empty components.
pub open spec fn normalized(path: Seq<u8>) -> Seq<u8> {
    joined(resolved(split(path)))
}

pub open spec fn is_absolute(path: Seq<u8>) -> bool {
    path.len() > 0 && path[0] == SEPARATOR
}

/// Where `name` lies: an absolute name by itself, any other below `base`.
pub open spec fn located(base: Seq<u8>, name: Seq<u8>) -> Seq<u8> {
    if is_absolute(name) {
        normalized(name)
    } else {
        normalized(base + seq![SEPARATOR] + name)
    }
}

/// The directory that holds `path`.
pub open spec fn parent(path: Seq<u8>) -> Seq<u8> {
    normalized(path + seq![SEPARATOR, DOT, DOT])
}

fn components(path: &[u8]) -> (parts: Vec<Vec<u8>>)
    ensures
        lines_view(parts@) == split(path@),
{
    let mut parts: Vec<Vec<u8>> = Vec::new();
    let mut current: Vec<u8> = Vec::new();
    let mut i: usize = 0;
    assert(path@.subrange(0, 0) =~= Seq::<u8>::empty());
    assert(lines_view(parts@).push(current@) =~= split(path@.subrange(0, 0)));
    while i < path.len()
        invariant
            i <= path.len(),
            lines_view(parts@).push(current@) == split(path@.subrange(0, i as int)),
        decreases path.len() - i,
    {
        let ghost before = path@.subrange(0, i as int);
        let ghost after = path@.subrange(0, i + 1);
        assert(after.drop_last() =~= before);
        assert(after.last() == path[i as int]);
        if path[i] == SEPARATOR {
            let ghost old_parts = lines_view(parts@);
            parts.push(current);
            current = Vec::new();
            assert(lines_view(parts@) =~= split(before));
            assert(lines_view(parts@).push(current@) =~= split(after));
        } else {
            let ghost old_current = current@;
            current.push(path[i]);
            assert(split(before).drop_last() =~= lines_view(parts@));
            assert(split(before).last() == old_current);
            assert(lines_view(parts@).push(current@) =~= split(after));
        }
        i += 1;
    }
    assert(path@.subrange(0, path.len() as int) =~= path@);
    let ghost old_parts = lines_view(parts@);
    parts.push(current);
    assert(lines_view(parts@) =~= old_parts.push(current@));
    parts
}

fn is_dots(component: &Vec<u8>, n: usize) -> (r: bool)
    requires
        n == 1 || n == 2,
    ensures
        r == (component@ == if n == 1 { seq![DOT] } else { seq![DOT, DOT] }),
{
    if component.len() != n {
        return false;
    }
    if n == 1 {
        let r = component[0] == DOT;
        assert(r ==> component@ =~= seq![DOT]);
        r
    } else {
        let r = component[0] == DOT && component[1] == DOT;
        assert(r ==> component@ =~= seq![DOT, DOT]);
        r
    }
}

/// `path` as an absolute path without `.`, `..` or empty components.
pub fn normalize(path: &[u8]) -> (r: Vec<u8>)
    ensures
        r@ == normalized(path@),
{
    let parts = components(path);
    let mut kept: Vec<Vec<u8>> = Vec::new();
    let mut i: usize = 0;
    let ghost all = lines_view(parts@);
    assert(all.subrange(0, 0) =~= Seq::<Seq<u8>>::empty());
    while i < parts.len()
        invariant
            i <= parts.len(),
            all == lines_view(parts@),
            lines_view(kept@) == resolved(all.subrange(0, i as int)),
        decreases parts.len() - i,
    {
        let ghost before = all.subrange(0, i as int);
        let ghost after = all.subrange(0, i + 1);
        assert(after.drop_last() =~= before);
        assert(after.last() == parts[i as int]@);
        let ghost old_kept = lines_view(kept@);
        if parts[i].len() == 0 || is_dots(&parts[i], 1) {
        } else if is_dots(&parts[i], 2) {
            if kept.len() > 0 {
                kept.pop();
                assert(lines_view(kept@) =~= old_kept.drop_last());
            }
        } else {
            kept.push(copy_bytes(&parts[i]));
            assert(lines_view(kept@) =~= old_kept.push(parts[i as int]@));
        }
        i += 1;
    }
    assert(all.subrange(0, parts.len() as int) =~= all);
    let mut out: Vec<u8> = Vec::new();
    if kept.len() == 0 {
        out.push(SEPARATOR);
        assert(out@ =~= seq![SEPARATOR]);
        return out;
    }
    let ghost lines = lines_view(kept@);
    let mut j: usize = 0;
    assert(lines.subrange(0, 0) =~= Seq::<Seq<u8>>::empty());
    while j < kept.len()
        invariant
            j <= kept.len(),
            lines == lines_view(kept@),
            out@ == prefixed(lines.subrange(0, j as int), seq![SEPARATOR]),
        decreases kept.len() - j,
    {
        let ghost before = lines.subrange(0, j as int);
        let ghost after = lines.subrange(0, j + 1);
        assert(after.drop_last() =~= before);
        assert(after.last() == kept[j as int]@);
        out.push(SEPARATOR);
        push_all(&mut out, kept[j].as_slice());
        assert(out@ =~= prefixed(after, seq![SEPARATOR]));
        j += 1;
    }
    assert(lines.subrange(0, kept.len() as int) =~= lines);
    out
}

/// Where `name` lies: an absolute name by itself, any other below `base`.
pub fn locate(base: &[u8], name: &[u8]) -> (r: Vec<u8>)
    ensures
        r@ == located(base@, name@),
{
    if name.len() > 0 && name[0] == SEPARATOR {
        normalize(name)
    } else {
        let mut path: Vec<u8> = Vec::new();
        push_all(&mut path, base);
        path.push(SEPARATOR);
        push_all(&mut path, name);
        assert(path@ =~= base@ + seq![SEPARATOR] + name@);
        normalize(path.as_slice())
    }
}

/// The directory that holds `path`.
pub fn parent_of(path: &[u8]) -> (r: Vec<u8>)
    ensures
        r@ == parent(path@),
{
    let mut up: Vec<u8> = Vec::new();
    push_all(&mut up, path);
    up.push(SEPARATOR);
    up.push(DOT);
    up.push(DOT);
    assert(up@ =~= path@ + seq![SEPARATOR, DOT, DOT]);
    normalize(up.as_slice())
}

} // verus!
