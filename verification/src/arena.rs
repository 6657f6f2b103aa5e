//! The linear store that backs every container: allocate-only, monotonically
//! growing, freed as a whole when its owner is dropped.

use vstd::prelude::*;
use vstd::string::StrSliceExecFns;

verus! {

/// A stable handle to one string allocated in an [`Arena`].
///
/// A handle names a slot of the store, not a machine address, so it stays
/// valid and keeps referring to the same string however much the store grows
/// and wherever the owning container is moved.
#[derive(Clone, Copy, PartialEq, Eq, Structural, Debug)]
pub struct StrRef {
    /// The slot this handle names.
    pub i: usize,
}

/// The string a handle refers to in a given store state.
///
/// Total: a handle that names no slot of the store resolves to the empty
/// string, so that equality and display of ill-formed values are still
/// defined.  Every handle the library itself gives out is in range.
pub open spec fn lookup(strings: Seq<Seq<char>>, r: StrRef) -> Seq<char> {
    if (r.i as int) < strings.len() {
        strings[r.i as int]
    } else {
        Seq::empty()
    }
}

/// Whether the store state `post` extends the state `pre`: every slot of
/// `pre` is still there, unchanged, and new slots only come after them.
/// This is the store's one law of motion — nothing already allocated is
/// ever freed, relocated or modified — and the obligation a derivation
/// puts on its build function.
pub open spec fn extends(pre: Seq<Seq<char>>, post: Seq<Seq<char>>) -> bool {
    pre.len() <= post.len() && (forall|j: int| 0 <= j < pre.len() ==> post[j] == pre[j])
}

/// The linear store.  It only grows: `alloc_str` appends a slot and never
/// disturbs the slots already given out; everything is reclaimed together
/// when the store is dropped.
#[derive(Debug)]
pub struct Arena {
    strings: Vec<String>,
}

impl View for Arena {
    type V = Seq<Seq<char>>;

    closed spec fn view(&self) -> Seq<Seq<char>> {
        self.strings@.map_values(|s: String| s@)
    }
}

impl Arena {
    /// A fresh, empty store.
    pub fn new() -> (a: Arena)
        ensures
            a@ =~= Seq::<Seq<char>>::empty(),
    {
        Arena { strings: Vec::new() }
    }

    /// Allocates a copy of `s` and returns a handle to it.
    ///
    /// The new slot is appended at the end: every handle given out before
    /// still names the same string afterwards.
    pub fn alloc_str(&mut self, s: &str) -> (r: StrRef)
        ensures
            final(self)@ =~= old(self)@.push(s@),
            r.i == old(self)@.len(),
            lookup(final(self)@, r) == s@,
    {
        let r = StrRef { i: self.strings.len() };
        self.strings.push(s.to_owned());
        proof {
            assert(self@ =~= old(self)@.push(s@));
        }
        r
    }

    /// The string a handle refers to.
    pub fn get_str(&self, r: StrRef) -> (s: &str)
        requires
            (r.i as int) < self@.len(),
        ensures
            s@ == self@[r.i as int],
            s@ == lookup(self@, r),
    {
        self.strings[r.i].as_str()
    }

    /// The string a handle refers to, and the empty string for a handle that
    /// names no slot of this store.
    pub fn lookup_str(&self, r: StrRef) -> (s: &str)
        ensures
            s@ == lookup(self@, r),
    {
        if r.i < self.strings.len() {
            self.strings[r.i].as_str()
        } else {
            let empty = "";
            proof {
                reveal_strlit("");
                assert(empty@ =~= Seq::<char>::empty());
            }
            empty
        }
    }
}

/// Address stability: a handle handed out while the store held `pre` refers
/// to the same string in any later state `post` extending it, since the
/// store only ever appends.  Growing the store, and moving whatever owns
/// it, never changes what a handle resolves to.
pub proof fn lemma_lookup_stable(pre: Seq<Seq<char>>, post: Seq<Seq<char>>, r: StrRef)
    requires
        extends(pre, post),
        (r.i as int) < pre.len(),
    ensures
        lookup(post, r) == lookup(pre, r),
{
}

/// Decides whether two strings hold the same characters.
pub fn str_eq(a: &str, b: &str) -> (r: bool)
    ensures
        r == (a@ == b@),
{
    let n = a.unicode_len();
    if n != b.unicode_len() {
        return false;
    }
    let mut i: usize = 0;
    while i < n
        invariant
            n == a@.len(),
            n == b@.len(),
            0 <= i <= n,
            forall|j: int| 0 <= j < i ==> a@[j] == b@[j],
        decreases n - i,
    {
        if a.get_char(i) != b.get_char(i) {
            return false;
        }
        i = i + 1;
    }
    proof {
        assert(a@ =~= b@);
    }
    true
}

} // verus!
