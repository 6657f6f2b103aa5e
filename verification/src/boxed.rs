//! The container: one owner for a rooted value and the store it points into,
//! plus the handle through which the value is amended in place.

use vstd::prelude::*;
use crate::arena::{extends, lookup, Arena, StrRef};

verus! {

/// A shape that can stand at the root of an [`ArenaBox`].
///
/// A value of such a shape holds [`StrRef`] handles into the store it was
/// built over; `wf` says in which store states every one of those handles is
/// in range, and `wf_grows` is each shape's proof that a valid value stays
/// valid as the store grows — the store only ever appends, so handles never
/// go stale.
pub trait WithLifetime: Sized {
    /// In which store states every handle held by this value names a slot.
    spec fn wf(&self, strings: Seq<Seq<char>>) -> bool;

    /// A value valid over `pre` is valid over any extension `post` of `pre`.
    proof fn wf_grows(&self, pre: Seq<Seq<char>>, post: Seq<Seq<char>>)
        requires
            self.wf(pre),
            extends(pre, post),
        ensures
            self.wf(post),
    ;
}

/// A shape with an equality of its own, taken on the content its handles
/// resolve to — never on the handles themselves, so two values allocated at
/// different slots of different stores still compare equal when they read
/// the same.
pub trait ArenaEq: WithLifetime {
    /// What equality means for this shape, each side resolved against its
    /// own store.
    spec fn eq_in(
        &self,
        strings: Seq<Seq<char>>,
        other: &Self,
        other_strings: Seq<Seq<char>>,
    ) -> bool;

    /// Decides `eq_in` for two values, each with the store it was built over.
    fn arena_eq(&self, arena: &Arena, other: &Self, other_arena: &Arena) -> (r: bool)
        ensures
            r == self.eq_in(arena@, other, other_arena@),
    ;
}

/// A shape that can render itself, resolved against its store: a short
/// display form and a full debug form.  Containers forward to these.
pub trait Describe: WithLifetime {
    /// The display form of this value over a given store state.
    spec fn display_spec(&self, strings: Seq<Seq<char>>) -> Seq<char>;

    /// The debug form of this value over a given store state.
    spec fn debug_spec(&self, strings: Seq<Seq<char>>) -> Seq<char>;

    /// Renders the display form.
    fn display_with(&self, arena: &Arena) -> (r: String)
        requires
            self.wf(arena@),
        ensures
            r@ == self.display_spec(arena@),
    ;

    /// Renders the debug form.
    fn debug_with(&self, arena: &Arena) -> (r: String)
        requires
            self.wf(arena@),
        ensures
            r@ == self.debug_spec(arena@),
    ;
}

/// A container that owns one [`Arena`] and the one rooted value built inside
/// it.  The root is read through [`ArenaBox::get`] and the store through
/// [`ArenaBox::get_str`]; both borrow the container, so nothing read from it
/// outlives it.  Moving the container moves the store with it and changes
/// nothing a handle resolves to.
#[derive(Debug)]
pub struct ArenaBox<T: WithLifetime> {
    arena: Arena,
    data: T,
}

/// A handle for amending the rooted value of an [`ArenaBox`].
///
/// [`ArenaBox::mutate`] consumes the container, so exactly one mutation
/// handle can be live for it at a time and no read of the container can
/// overlap it; [`MutHandle::finish`] gives the container back.  While held,
/// the handle offers both the root value and fresh allocation into the same
/// store, so a field can be replaced with newly allocated data.  A slot an
/// amendment abandons is not reclaimed: it stays resident until the whole
/// container is dropped.
#[derive(Debug)]
pub struct MutHandle<T: WithLifetime> {
    arena: Arena,
    data: T,
}

impl<T: WithLifetime> ArenaBox<T> {
    /// The store this container owns.
    pub closed spec fn spec_arena(&self) -> Arena {
        self.arena
    }

    /// The strings held by this container's store.
    pub open spec fn strings(&self) -> Seq<Seq<char>> {
        self.spec_arena()@
    }

    /// The rooted value.
    pub closed spec fn root(&self) -> T {
        self.data
    }

    /// Every handle of the rooted value names a slot of this container's
    /// store.  Construction establishes this and every operation keeps it.
    pub open spec fn wf(&self) -> bool {
        self.root().wf(self.strings())
    }

    /// Builds a container: `build` is given a fresh, empty store, allocates
    /// into it whatever its value needs, and returns the value together with
    /// the store.  The container owns both from then on.
    ///
    /// The requirement on `build` is the construction contract: whatever it
    /// returns must hold handles only into the store it was given — nothing
    /// reached from the value may live anywhere shorter-lived.
    pub fn new<F: FnOnce(Arena) -> (T, Arena)>(build: F) -> (boxed: ArenaBox<T>)
        requires
            forall|a: Arena| a@.len() == 0 ==> #[trigger] call_requires(build, (a,)),
            forall|a: Arena, out: (T, Arena)|
                #[trigger] call_ensures(build, (a,), out) ==> out.0.wf(out.1@),
        ensures
            boxed.wf(),
            exists|a: Arena, out: (T, Arena)|
                a@.len() == 0 && #[trigger] call_ensures(build, (a,), out)
                    && boxed.root() == out.0 && boxed.spec_arena() == out.1,
    {
        let fresh = Arena::new();
        let ghost start = fresh;
        let (data, arena) = build(fresh);
        let boxed = ArenaBox { arena, data };
        proof {
            assert(start@.len() == 0 && call_ensures(build, (start,), (boxed.data, boxed.arena)));
        }
        boxed
    }

    /// Builds a container from an existing one, reusing its store: `source`
    /// is consumed, and `build` is given the store together with the old
    /// rooted value, which the new value may keep hold of.
    ///
    /// The requirement on `build` is the derivation contract: besides
    /// returning a well-formed value, it must give back an extension of the
    /// very store it was given.  The result therefore owns that same store,
    /// grown — nothing already allocated is freed or disturbed, and every
    /// handle handed out before the derivation still resolves to the same
    /// string in the derived container.
    pub fn new_from<U: WithLifetime, F: FnOnce(Arena, U) -> (T, Arena)>(
        source: ArenaBox<U>,
        build: F,
    ) -> (boxed: ArenaBox<T>)
        requires
            call_requires(build, (source.spec_arena(), source.root())),
            forall|out: (T, Arena)|
                #[trigger] call_ensures(build, (source.spec_arena(), source.root()), out)
                    ==> out.0.wf(out.1@) && extends(source.strings(), out.1@),
        ensures
            boxed.wf(),
            extends(source.strings(), boxed.strings()),
            forall|r: StrRef|
                (r.i as int) < source.strings().len()
                    ==> #[trigger] lookup(boxed.strings(), r) == lookup(source.strings(), r),
            exists|out: (T, Arena)|
                #[trigger] call_ensures(build, (source.spec_arena(), source.root()), out)
                    && boxed.root() == out.0 && boxed.spec_arena() == out.1,
    {
        let ArenaBox { arena, data } = source;
        let (new_data, arena) = build(arena, data);
        let boxed = ArenaBox { arena, data: new_data };
        proof {
            assert(call_ensures(
                build,
                (source.spec_arena(), source.root()),
                (boxed.data, boxed.arena),
            ));
            assert forall|r: StrRef| (r.i as int) < source.strings().len()
                implies #[trigger] lookup(boxed.strings(), r) == lookup(
                source.strings(),
                r,
            ) by {
                crate::arena::lemma_lookup_stable(source.strings(), boxed.strings(), r);
            };
        }
        boxed
    }

    /// A view of the rooted value, living exactly as long as this borrow of
    /// the container.
    pub fn get(&self) -> (r: &T)
        ensures
            *r == self.root(),
    {
        &self.data
    }

    /// The string one of the rooted value's handles refers to.
    pub fn get_str(&self, r: StrRef) -> (s: &str)
        requires
            (r.i as int) < self.strings().len(),
        ensures
            s@ == self.strings()[r.i as int],
            s@ == lookup(self.strings(), r),
    {
        self.arena.get_str(r)
    }

    /// The string a handle refers to, and the empty string for a handle that
    /// names no slot of this container's store.
    pub fn lookup_str(&self, r: StrRef) -> (s: &str)
        ensures
            s@ == lookup(self.strings(), r),
    {
        self.arena.lookup_str(r)
    }

    /// Opens the container for amendment.  The container is consumed, so no
    /// view of it can coexist with the handle and no second handle can be
    /// taken; [`MutHandle::finish`] returns it.
    pub fn mutate(self) -> (h: MutHandle<T>)
        ensures
            h.root() == self.root(),
            h.spec_arena() == self.spec_arena(),
    {
        MutHandle { arena: self.arena, data: self.data }
    }
}

impl<T: WithLifetime> MutHandle<T> {
    /// The store this handle holds.
    pub closed spec fn spec_arena(&self) -> Arena {
        self.arena
    }

    /// The strings held by the store.
    pub open spec fn strings(&self) -> Seq<Seq<char>> {
        self.spec_arena()@
    }

    /// The rooted value as amended so far.
    pub closed spec fn root(&self) -> T {
        self.data
    }

    /// Every handle of the rooted value names a slot of the store.
    pub open spec fn wf(&self) -> bool {
        self.root().wf(self.strings())
    }

    /// A reference to the store, for reading what its handles refer to.
    pub fn arena(&self) -> (a: &Arena)
        ensures
            *a == self.spec_arena(),
    {
        &self.arena
    }

    /// The rooted value as amended so far.
    pub fn get(&self) -> (r: &T)
        ensures
            *r == self.root(),
    {
        &self.data
    }

    /// Allocates a copy of `s` into the same store the container owns, so an
    /// amendment needs no second allocator.  Nothing already allocated
    /// moves: every handle given out before still resolves to the same
    /// string, and the root value is untouched.
    pub fn alloc_str(&mut self, s: &str) -> (r: StrRef)
        ensures
            final(self).strings() =~= old(self).strings().push(s@),
            final(self).root() == old(self).root(),
            r.i == old(self).strings().len(),
            lookup(final(self).strings(), r) == s@,
            old(self).wf() ==> final(self).wf(),
    {
        let r = self.arena.alloc_str(s);
        proof {
            if old(self).wf() {
                self.data.wf_grows(old(self).strings(), self.strings());
            }
        }
        r
    }

    /// Replaces the rooted value.  The slots an abandoned value pointed at
    /// stay resident — the store never frees a slot on its own — but nothing
    /// refers to them any more once the new value took their place.
    pub fn set(&mut self, data: T)
        requires
            data.wf(old(self).strings()),
        ensures
            final(self).root() == data,
            final(self).spec_arena() == old(self).spec_arena(),
            final(self).wf(),
    {
        self.data = data;
    }

    /// Closes the amendment and gives the container back, rooted at the
    /// value as amended.
    pub fn finish(self) -> (boxed: ArenaBox<T>)
        ensures
            boxed.root() == self.root(),
            boxed.spec_arena() == self.spec_arena(),
    {
        ArenaBox { arena: self.arena, data: self.data }
    }
}

impl<T: Describe> ArenaBox<T> {
    /// The rooted value's display form, resolved against this container's
    /// store.
    pub fn display_string(&self) -> (r: String)
        requires
            self.wf(),
        ensures
            r@ == self.root().display_spec(self.strings()),
    {
        self.data.display_with(&self.arena)
    }

    /// The rooted value's debug form, resolved against this container's
    /// store.
    pub fn debug_string(&self) -> (r: String)
        requires
            self.wf(),
        ensures
            r@ == self.root().debug_spec(self.strings()),
    {
        self.data.debug_with(&self.arena)
    }
}

impl<T: ArenaEq> PartialEq for ArenaBox<T> {
    /// Two containers are equal exactly when their rooted values are, by the
    /// shape's own equality over resolved content — where a value was
    /// allocated plays no part.
    fn eq(&self, other: &Self) -> (r: bool) {
        self.data.arena_eq(&self.arena, &other.data, &other.arena)
    }
}

impl<T: ArenaEq> vstd::std_specs::cmp::PartialEqSpecImpl for ArenaBox<T> {
    open spec fn obeys_eq_spec() -> bool {
        true
    }

    open spec fn eq_spec(&self, other: &ArenaBox<T>) -> bool {
        self.root().eq_in(self.strings(), &other.root(), other.strings())
    }
}

} // verus!
