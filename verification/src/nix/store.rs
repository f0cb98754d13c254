//! Paths that lie in the store.

use crate::errors::StorePathError;
use crate::outside::utf8_text;
use crate::paths::{
    bytes_eq, component_end, components, components_from, is_absolute, join,
    lemma_components_before, lemma_join_components, path_components, path_is_absolute,
    path_join, paths_same_components, same_components, SEPARATOR,
};
use vstd::prelude::*;
use vstd::slice::slice_to_vec;
use vstd::string::*;
use vstd::utf8::*;

verus! {

/// The components of the directory under which every store path lies.
pub open spec fn store_root() -> Seq<Seq<u8>> {
    seq!["nix".spec_bytes(), "store".spec_bytes()]
}

/// A path lies in the store when it is absolute and its components begin
/// with those of the store root.
pub open spec fn in_store(p: Seq<u8>) -> bool {
    is_absolute(p) && store_root().is_prefix_of(components(p))
}

/// A path as text, for messages: the text that its bytes encode, or a fixed
/// marker where they encode none.
pub open spec fn path_text(p: Seq<u8>) -> Seq<char> {
    if valid_utf8(p) {
        decode_utf8(p)
    } else {
        "unprintable path"@
    }
}

/// The path that is validated: the canonical form where there is one, the
/// path as given where there is none.
pub open spec fn canonical_or(p: Seq<u8>, canonical: Option<Seq<u8>>) -> Seq<u8> {
    match canonical {
        Some(c) => c,
        None => p,
    }
}

/// The view of an optional byte string.
pub open spec fn opt_view(o: Option<Vec<u8>>) -> Option<Seq<u8>> {
    match o {
        Some(v) => Some(v@),
        None => None,
    }
}

/// What validating a path yields: the path itself, or the text of the path
/// that was refused.
pub open spec fn validated(p: Seq<u8>, canonical: Option<Seq<u8>>) -> Result<Seq<u8>, Seq<char>> {
    let c = canonical_or(p, canonical);
    if in_store(c) {
        Ok(c)
    } else {
        Err(path_text(c))
    }
}

/// What lies below a store path lies in the store: pushing a relative path
/// onto a path in the store gives a path in the store. (Nothing is said of
/// where links lead.)
pub proof fn lemma_subpath_in_store(p: Seq<u8>, rel: Seq<u8>)
    requires
        in_store(p),
        !is_absolute(rel),
    ensures
        in_store(join(p, rel)),
{
    lemma_join_components(p, rel);
}

/// A path that begins with the bytes of `/nix/store`, and goes on with a
/// separator or not at all, lies in the store.
pub proof fn lemma_below_root_in_store(p: Seq<u8>)
    requires
        "/nix/store".spec_bytes().is_prefix_of(p),
        p.len() > 10 ==> p[10] == SEPARATOR,
    ensures
        in_store(p),
{
    reveal_strlit("/nix/store");
    reveal_strlit("nix");
    reveal_strlit("store");
    is_ascii_spec_bytes("/nix/store");
    is_ascii_spec_bytes("nix");
    is_ascii_spec_bytes("store");
    let root = "/nix/store".spec_bytes();
    let rest = p.subrange(10, p.len() as int);
    assert(root.len() == 10);
    assert(p =~= root + rest);
    lemma_components_before(root, rest, 0);
    assert(components(root) =~= store_root()) by {
        reveal_with_fuel(components_from, 12);
        reveal_with_fuel(component_end, 12);
        assert(component_end(root, 1) == 4);
        assert(root.subrange(1, 4) =~= "nix".spec_bytes());
        assert(root.subrange(5, 10) =~= "store".spec_bytes());
    }
    assert(components(p).subrange(0, 2) =~= store_root());
}

/// Whether a path lies in the store.
pub fn is_in_store(p: &[u8]) -> (r: bool)
    ensures
        r == in_store(p@),
{
    if !path_is_absolute(p) {
        return false;
    }
    let parts = path_components(p);
    if parts.len() < 2 {
        return false;
    }
    let first = bytes_eq(parts[0].as_slice(), "nix".as_bytes());
    let second = bytes_eq(parts[1].as_slice(), "store".as_bytes());
    proof {
        let c = components(p@);
        assert(c[0] == parts@[0]@);
        assert(c[1] == parts@[1]@);
        if !(first && second) {
            assert(c.subrange(0, 2)[0] == c[0]);
            assert(c.subrange(0, 2)[1] == c[1]);
        }
    }
    first && second
}

/// A path as text, for messages.
pub fn path_to_text(p: &[u8]) -> (r: String)
    ensures
        r@ == path_text(p@),
{
    match utf8_text(slice_to_vec(p)) {
        Some(s) => s,
        None => "unprintable path".to_owned(),
    }
}

/// A path that lies in the store. It is kept as it was validated: where a
/// canonical form was given, that form.
#[derive(Debug)]
pub struct StorePath {
    path: Vec<u8>,
}

impl View for StorePath {
    type V = Seq<u8>;

    closed spec fn view(&self) -> Seq<u8> {
        self.path@
    }
}

impl StorePath {
    #[verifier::type_invariant]
    spec fn lies_in_store(self) -> bool {
        in_store(self.path@)
    }

    /// Validates a path. `canonical` is the canonical form of `p`, with
    /// links resolved, where it could be had; where it could not, `p` itself
    /// is looked at.
    pub fn new(p: &[u8], canonical: Option<Vec<u8>>) -> (r: Result<StorePath, StorePathError>)
        ensures
            match validated(p@, opt_view(canonical)) {
                Ok(c) => r matches Ok(sp) && sp@ == c,
                Err(text) => r matches Err(StorePathError::NotInStore(s)) && s@ == text,
            },
    {
        let can = match canonical {
            Some(c) => c,
            None => slice_to_vec(p),
        };
        StorePath::validate(can)
    }

    /// Validates a path as it stands.
    pub fn validate(path: Vec<u8>) -> (r: Result<StorePath, StorePathError>)
        ensures
            match validated(path@, None) {
                Ok(c) => r matches Ok(sp) && sp@ == c,
                Err(text) => r matches Err(StorePathError::NotInStore(s)) && s@ == text,
            },
    {
        if !is_in_store(path.as_slice()) {
            Err(StorePathError::NotInStore(path_to_text(path.as_slice())))
        } else {
            Ok(StorePath { path })
        }
    }

    /// Validates a path that is given as text, as the structured output of
    /// the build tool gives it.
    pub fn from_str(s: &str, canonical: Option<Vec<u8>>) -> (r: Result<StorePath, StorePathError>)
        ensures
            match validated(s.spec_bytes(), opt_view(canonical)) {
                Ok(c) => r matches Ok(sp) && sp@ == c,
                Err(text) => r matches Err(StorePathError::NotInStore(e)) && e@ == text,
            },
    {
        StorePath::new(s.as_bytes(), canonical)
    }

    /// The path that lies at `s` below this one. It is put together from the
    /// two texts and not validated: no link is followed.
    pub fn subpath(&self, s: &str) -> (r: Vec<u8>)
        ensures
            r@ == join(self@, s.spec_bytes()),
            !is_absolute(s.spec_bytes()) ==> in_store(r@),
    {
        proof {
            use_type_invariant(self);
            if !is_absolute(s.spec_bytes()) {
                lemma_subpath_in_store(self@, s.spec_bytes());
            }
        }
        path_join(self.path.as_slice(), s.as_bytes())
    }

    /// The bytes of the path.
    pub fn as_path(&self) -> (r: &[u8])
        ensures
            r@ == self@,
            in_store(r@),
    {
        proof {
            use_type_invariant(self);
        }
        self.path.as_slice()
    }
}

impl Clone for StorePath {
    fn clone(&self) -> (r: Self)
        ensures
            r@ == self@,
    {
        proof {
            use_type_invariant(self);
        }
        StorePath { path: slice_to_vec(self.path.as_slice()) }
    }
}

/// Two store paths are equal when they have the same components: a doubled
/// separator, or one at the end, makes no difference.
impl PartialEq for StorePath {
    fn eq(&self, other: &StorePath) -> (r: bool) {
        paths_same_components(self.path.as_slice(), other.path.as_slice())
    }
}

impl vstd::std_specs::cmp::PartialEqSpecImpl for StorePath {
    open spec fn obeys_eq_spec() -> bool {
        true
    }

    open spec fn eq_spec(&self, other: &StorePath) -> bool {
        same_components(self@, other@)
    }
}

} // verus!
