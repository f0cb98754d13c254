//! Unix paths as byte strings: components, joining and comparison.
//!
//! A path is modelled by its bytes, `Seq<u8>`. Its components are the maximal
//! runs of bytes between separators, without the empty runs and without the
//! runs that consist of a single dot, in the order in which they occur. A
//! run of two dots is a component like any other: nothing here knows what a
//! directory holds, so no component is resolved against another.

use vstd::prelude::*;
use vstd::slice::{slice_subrange, slice_to_vec};

verus! {

/// The byte `/`, which separates the components of a path.
pub const SEPARATOR: u8 = 47;

/// The byte `.`; a component made of this byte alone names the directory it
/// stands in and is not counted among the components of a path.
pub const DOT: u8 = 46;

/// A path is absolute when it begins with a separator.
pub open spec fn is_absolute(p: Seq<u8>) -> bool {
    p.len() > 0 && p[0] == SEPARATOR
}

/// The first index at or after `i` that holds a separator, or the length of
/// `p` when there is none.
pub open spec fn component_end(p: Seq<u8>, i: int) -> int
    decreases p.len() - i,
{
    if i < 0 || i >= p.len() || p[i] == SEPARATOR {
        i
    } else {
        component_end(p, i + 1)
    }
}

/// Whether `c` is the component that names the current directory.
pub open spec fn is_current_dir(c: Seq<u8>) -> bool {
    c.len() == 1 && c[0] == DOT
}

/// The components of `p` that begin at or after index `i`.
pub open spec fn components_from(p: Seq<u8>, i: int) -> Seq<Seq<u8>>
    decreases p.len() - i, 1int,
{
    if i < 0 || i >= p.len() {
        Seq::empty()
    } else if p[i] == SEPARATOR {
        components_from(p, i + 1)
    } else {
        let end = component_end(p, i);
        if i < end <= p.len() {
            let c = p.subrange(i, end);
            if is_current_dir(c) {
                components_from(p, end)
            } else {
                seq![c] + components_from(p, end)
            }
        } else {
            Seq::empty()
        }
    }
}

/// The components of a path.
pub open spec fn components(p: Seq<u8>) -> Seq<Seq<u8>> {
    components_from(p, 0)
}

/// What a path becomes when `rel` is pushed onto it: `rel` itself when it is
/// absolute, otherwise `base` followed by `rel`, with one separator put
/// between them unless `base` is empty or already ends in one.
pub open spec fn join(base: Seq<u8>, rel: Seq<u8>) -> Seq<u8> {
    if is_absolute(rel) {
        rel
    } else if base.len() == 0 || base.last() == SEPARATOR {
        base + rel
    } else {
        base + seq![SEPARATOR] + rel
    }
}

/// Two paths of the same kind (both absolute, or neither) name the same place
/// textually when their components agree.
pub open spec fn same_components(a: Seq<u8>, b: Seq<u8>) -> bool {
    components(a) =~= components(b)
}

/// The byte strings that a vector of byte vectors holds.
pub open spec fn views(v: Seq<Vec<u8>>) -> Seq<Seq<u8>> {
    Seq::new(v.len(), |i: int| v[i]@)
}

/// A component ends within the path and after its beginning, and holds no
/// separator.
pub proof fn lemma_component_end(p: Seq<u8>, i: int)
    requires
        0 <= i <= p.len(),
    ensures
        i <= component_end(p, i) <= p.len(),
        component_end(p, i) < p.len() ==> p[component_end(p, i)] == SEPARATOR,
        forall|k: int| i <= k < component_end(p, i) ==> p[k] != SEPARATOR,
    decreases p.len() - i,
{
    if i < p.len() && p[i] != SEPARATOR {
        lemma_component_end(p, i + 1);
    }
}

/// Where a path is followed by a separator, or by nothing, its components
/// end where they would end if the path stood alone.
proof fn lemma_component_end_before(a: Seq<u8>, rest: Seq<u8>, i: int)
    requires
        0 <= i <= a.len(),
        rest.len() > 0 ==> rest[0] == SEPARATOR,
    ensures
        component_end(a + rest, i) == component_end(a, i),
    decreases a.len() - i,
{
    if i < a.len() && a[i] != SEPARATOR {
        lemma_component_end_before(a, rest, i + 1);
    }
}

/// Where a path is followed by a separator, or by nothing, the whole has
/// the components of the path and then those of what follows.
pub proof fn lemma_components_before(a: Seq<u8>, rest: Seq<u8>, i: int)
    requires
        0 <= i <= a.len(),
        rest.len() > 0 ==> rest[0] == SEPARATOR,
    ensures
        components_from(a + rest, i) =~= components_from(a, i) + components_from(
            a + rest,
            a.len() as int,
        ),
    decreases a.len() - i,
{
    let p = a + rest;
    if i < a.len() {
        if a[i] == SEPARATOR {
            lemma_components_before(a, rest, i + 1);
        } else {
            lemma_component_end_before(a, rest, i);
            lemma_component_end(a, i);
            let end = component_end(a, i);
            assert(p.subrange(i, end) =~= a.subrange(i, end));
            lemma_components_before(a, rest, end);
        }
    }
}

/// A component that begins after a prefix ends where it would end without
/// the prefix.
proof fn lemma_component_end_after(pre: Seq<u8>, b: Seq<u8>, j: int)
    requires
        0 <= j <= b.len(),
    ensures
        component_end(pre + b, pre.len() + j) == pre.len() + component_end(b, j),
    decreases b.len() - j,
{
    if j < b.len() {
        if b[j] != SEPARATOR {
            lemma_component_end_after(pre, b, j + 1);
        }
    }
}

/// The components that begin after a prefix are those of what follows it.
proof fn lemma_components_after(pre: Seq<u8>, b: Seq<u8>, j: int)
    requires
        0 <= j <= b.len(),
    ensures
        components_from(pre + b, pre.len() + j) =~= components_from(b, j),
    decreases b.len() - j,
{
    let p = pre + b;
    if j < b.len() {
        if b[j] == SEPARATOR {
            lemma_components_after(pre, b, j + 1);
        } else {
            lemma_component_end_after(pre, b, j);
            lemma_component_end(b, j);
            let end = component_end(b, j);
            assert(p.subrange(pre.len() + j, pre.len() + end) =~= b.subrange(j, end));
            lemma_components_after(pre, b, end);
        }
    }
}

/// Pushing a relative path onto a path appends its components: the
/// components of the result are those of `base` and then those of `rel`.
pub proof fn lemma_join_components(base: Seq<u8>, rel: Seq<u8>)
    requires
        !is_absolute(rel),
    ensures
        components(join(base, rel)) =~= components(base) + components(rel),
{
    let sep = seq![SEPARATOR];
    if base.len() == 0 {
        // The result is `rel` itself.
    } else if base.last() == SEPARATOR {
        let a = base.drop_last();
        assert(base =~= a + sep);
        assert(base + rel =~= a + (sep + rel));
        lemma_components_before(a, sep + rel, 0);
        lemma_components_before(a, sep, 0);
        lemma_components_after(base, rel, 0);
        assert(components_from(a + sep, (a.len() + 1) as int) =~= Seq::<Seq<u8>>::empty());
    } else {
        let pre = base + sep;
        assert(base + sep + rel =~= base + (sep + rel));
        lemma_components_before(base, sep + rel, 0);
        lemma_components_before(base, Seq::<u8>::empty(), 0);
        lemma_components_after(pre, rel, 0);
    }
}

/// Whether a path is absolute.
pub fn path_is_absolute(p: &[u8]) -> (r: bool)
    ensures
        r == is_absolute(p@),
{
    p.len() > 0 && p[0] == SEPARATOR
}

/// Whether two byte strings hold the same bytes.
pub fn bytes_eq(a: &[u8], b: &[u8]) -> (r: bool)
    ensures
        r == (a@ =~= b@),
{
    if a.len() != b.len() {
        return false;
    }
    let mut i: usize = 0;
    while i < a.len()
        invariant
            a@.len() == b@.len(),
            i <= a@.len(),
            forall|k: int| 0 <= k < i ==> a@[k] == b@[k],
        decreases a@.len() - i,
    {
        if a[i] != b[i] {
            return false;
        }
        i += 1;
    }
    true
}

/// Splits a path into its components.
pub fn path_components(p: &[u8]) -> (r: Vec<Vec<u8>>)
    ensures
        views(r@) =~= components(p@),
{
    let mut out: Vec<Vec<u8>> = Vec::new();
    let mut i: usize = 0;
    while i < p.len()
        invariant
            i <= p@.len(),
            views(out@) + components_from(p@, i as int) =~= components(p@),
        decreases p@.len() - i,
    {
        if p[i] == SEPARATOR {
            i += 1;
        } else {
            let start: usize = i;
            let mut end: usize = i;
            while end < p.len() && p[end] != SEPARATOR
                invariant
                    start <= end <= p@.len(),
                    component_end(p@, start as int) == component_end(p@, end as int),
                decreases p@.len() - end,
            {
                end += 1;
            }
            proof {
                lemma_component_end(p@, start as int);
            }
            let c = slice_to_vec(slice_subrange(p, start, end));
            if !(c.len() == 1 && c[0] == DOT) {
                out.push(c);
            }
            i = end;
        }
    }
    out
}

/// Pushes `rel` onto `base`, as a path buffer does.
pub fn path_join(base: &[u8], rel: &[u8]) -> (r: Vec<u8>)
    ensures
        r@ =~= join(base@, rel@),
{
    if path_is_absolute(rel) {
        return slice_to_vec(rel);
    }
    let mut out = slice_to_vec(base);
    if base.len() > 0 && base[base.len() - 1] != SEPARATOR {
        out.push(SEPARATOR);
    }
    let mut i: usize = 0;
    while i < rel.len()
        invariant
            i <= rel@.len(),
            out@ =~= join(base@, rel@.subrange(0, i as int)),
            !is_absolute(rel@),
        decreases rel@.len() - i,
    {
        out.push(rel[i]);
        i += 1;
    }
    out
}

/// Whether two paths have the same components.
pub fn paths_same_components(a: &[u8], b: &[u8]) -> (r: bool)
    ensures
        r == same_components(a@, b@),
{
    let ca = path_components(a);
    let cb = path_components(b);
    if ca.len() != cb.len() {
        return false;
    }
    let mut i: usize = 0;
    while i < ca.len()
        invariant
            ca@.len() == cb@.len(),
            views(ca@) =~= components(a@),
            views(cb@) =~= components(b@),
            i <= ca@.len(),
            forall|k: int| 0 <= k < i ==> views(ca@)[k] =~= views(cb@)[k],
        decreases ca@.len() - i,
    {
        if !bytes_eq(ca[i].as_slice(), cb[i].as_slice()) {
            assert(views(ca@)[i as int] != views(cb@)[i as int]);
            return false;
        }
        i += 1;
    }
    true
}

} // verus!
