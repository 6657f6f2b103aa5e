//! Ready-made shapes: a record holding one message, a record that wraps an
//! existing one with extra data, and an error-shaped record with a message
//! and amendable details.  They double as worked examples of how a shape
//! opts into the container mechanism.

use vstd::prelude::*;
use vstd::string::StringExecFns;
use crate::arena::{extends, lookup, str_eq, Arena, StrRef};
use crate::boxed::{ArenaBox, ArenaEq, Describe, WithLifetime};

verus! {

/// A record holding one string: `{ msg }`.
#[derive(Clone, Copy, Debug)]
pub struct Data {
    /// The message, as a handle into the owning container's store.
    pub msg: StrRef,
}

impl WithLifetime for Data {
    open spec fn wf(&self, strings: Seq<Seq<char>>) -> bool {
        (self.msg.i as int) < strings.len()
    }

    proof fn wf_grows(&self, pre: Seq<Seq<char>>, post: Seq<Seq<char>>) {
    }
}

/// A record that keeps hold of an earlier [`Data`] and adds a string of its
/// own: `{ data, extra }`.  Built with [`augment`], which reuses the store
/// the original was built over.
#[derive(Clone, Copy, Debug)]
pub struct AugmentedData {
    /// The original record, kept as it was.
    pub data: Data,
    /// The added string.
    pub extra: StrRef,
}

impl WithLifetime for AugmentedData {
    open spec fn wf(&self, strings: Seq<Seq<char>>) -> bool {
        self.data.wf(strings) && (self.extra.i as int) < strings.len()
    }

    proof fn wf_grows(&self, pre: Seq<Seq<char>>, post: Seq<Seq<char>>) {
    }
}

/// An error-shaped record: `{ message, details }`.  Meant to be built once
/// when something goes wrong and amended later with details, so that a
/// fallible caller can hand back one owned value that carries its own
/// diagnostic storage.
#[derive(Clone, Copy, Debug)]
pub struct MyError {
    /// What went wrong.
    pub message: StrRef,
    /// Where or while doing what, filled in after the fact.
    pub details: StrRef,
}

impl WithLifetime for MyError {
    open spec fn wf(&self, strings: Seq<Seq<char>>) -> bool {
        (self.message.i as int) < strings.len() && (self.details.i as int) < strings.len()
    }

    proof fn wf_grows(&self, pre: Seq<Seq<char>>, post: Seq<Seq<char>>) {
    }
}

impl ArenaEq for MyError {
    open spec fn eq_in(
        &self,
        strings: Seq<Seq<char>>,
        other: &Self,
        other_strings: Seq<Seq<char>>,
    ) -> bool {
        lookup(strings, self.message) == lookup(other_strings, other.message)
            && lookup(strings, self.details) == lookup(other_strings, other.details)
    }

    fn arena_eq(&self, arena: &Arena, other: &Self, other_arena: &Arena) -> (r: bool) {
        str_eq(arena.lookup_str(self.message), other_arena.lookup_str(other.message))
            && str_eq(arena.lookup_str(self.details), other_arena.lookup_str(other.details))
    }
}

impl Describe for MyError {
    /// Displayed as the message alone.
    open spec fn display_spec(&self, strings: Seq<Seq<char>>) -> Seq<char> {
        lookup(strings, self.message)
    }

    /// Debugged as both fields, spelled out.
    open spec fn debug_spec(&self, strings: Seq<Seq<char>>) -> Seq<char> {
        "MyError { message: \""@ + lookup(strings, self.message) + "\", details: \""@
            + lookup(strings, self.details) + "\" }"@
    }

    fn display_with(&self, arena: &Arena) -> (r: String) {
        String::from_str(arena.get_str(self.message))
    }

    fn debug_with(&self, arena: &Arena) -> (r: String) {
        let mut out = String::from_str("MyError { message: \"");
        out.append(arena.get_str(self.message));
        out.append("\", details: \"");
        out.append(arena.get_str(self.details));
        out.append("\" }");
        out
    }
}

/// A container rooted at a [`Data`] record.
pub type ArenaData = ArenaBox<Data>;

/// A container rooted at an [`AugmentedData`] record.
pub type ArenaAugmentedData = ArenaBox<AugmentedData>;

/// A container rooted at a [`MyError`] record.
pub type ArenaMyError = ArenaBox<MyError>;

/// The message a [`Data`] container shows: its one field, resolved against
/// the container's own store.
pub open spec fn data_msg(b: ArenaBox<Data>) -> Seq<char> {
    lookup(b.strings(), b.root().msg)
}

/// How one message replacement changes a [`Data`] container: the new text
/// is allocated at the end of the store, whose earlier slots stay put, and
/// the root is repointed at it.  [`build_data`] is the same step taken from
/// the empty store.
pub open spec fn set_msg_rel(pre: Seq<Seq<char>>, s: Seq<char>, post: ArenaBox<Data>) -> bool {
    post.strings() =~= pre.push(s) && post.root().msg.i == pre.len()
}

/// Builds a container over `Data { msg }` with `msg` allocated in a fresh
/// store.
pub fn build_data(msg: &str) -> (b: ArenaBox<Data>)
    ensures
        b.wf(),
        set_msg_rel(Seq::empty(), msg@, b),
        data_msg(b) == msg@,
{
    let build = |arena: Arena| -> (out: (Data, Arena))
        ensures
            out.1@ =~= arena@.push(msg@),
            out.0.msg.i == arena@.len(),
        {
            let mut a = arena;
            let m = a.alloc_str(msg);
            (Data { msg: m }, a)
        };
    let b = ArenaBox::new(build);
    proof {
        let (a0, out) = choose|a0: Arena, out: (Data, Arena)|
            a0@.len() == 0 && #[trigger] call_ensures(build, (a0,), out) && b.root() == out.0
                && b.spec_arena() == out.1;
        assert(b.strings() =~= Seq::empty().push(msg@));
    }
    b
}

/// Replaces the message of a [`Data`] container with freshly allocated
/// text.  The abandoned slot stays resident but nothing refers to it.
pub fn set_msg(boxed: ArenaBox<Data>, msg: &str) -> (r: ArenaBox<Data>)
    ensures
        r.wf(),
        set_msg_rel(boxed.strings(), msg@, r),
        data_msg(r) == msg@,
{
    let mut h = boxed.mutate();
    let m = h.alloc_str(msg);
    h.set(Data { msg: m });
    h.finish()
}

/// Replaying a replacement changes nothing: replacing the message with `s`
/// and then replacing it with `s` again leaves a container that shows
/// exactly what one replacement showed, which is also what a container
/// built directly over `s` shows.  Only the store's garbage differs, and no
/// view resolves to it.
pub proof fn lemma_replay_idempotent(
    b0: ArenaBox<Data>,
    once: ArenaBox<Data>,
    twice: ArenaBox<Data>,
    direct: ArenaBox<Data>,
    s: Seq<char>,
)
    requires
        set_msg_rel(b0.strings(), s, once),
        set_msg_rel(once.strings(), s, twice),
        set_msg_rel(Seq::empty(), s, direct),
    ensures
        data_msg(once) == s,
        data_msg(twice) == data_msg(once),
        data_msg(twice) == data_msg(direct),
{
}

/// Builds a container over `AugmentedData` from an existing [`Data`]
/// container, reusing its store: the old root is kept as it was — its
/// message still resolves to the same text — and `extra` is freshly
/// allocated beside it.  The source is consumed; only ownership of the
/// store moves.
pub fn augment(source: ArenaBox<Data>, extra: &str) -> (r: ArenaBox<AugmentedData>)
    requires
        source.wf(),
    ensures
        r.wf(),
        r.root().data == source.root(),
        r.strings() =~= source.strings().push(extra@),
        lookup(r.strings(), r.root().extra) == extra@,
        lookup(r.strings(), r.root().data.msg) == data_msg(source),
{
    let build = |arena: Arena, data: Data| -> (out: (AugmentedData, Arena))
        ensures
            out.1@ =~= arena@.push(extra@),
            out.0.data == data,
            out.0.extra.i == arena@.len(),
        {
            let mut a = arena;
            let e = a.alloc_str(extra);
            (AugmentedData { data, extra: e }, a)
        };
    proof {
        assert forall|out: (AugmentedData, Arena)|
            #[trigger] call_ensures(build, (source.spec_arena(), source.root()), out)
                implies out.0.wf(out.1@) && extends(source.strings(), out.1@) by {
            source.root().wf_grows(source.strings(), out.1@);
        };
    }
    let r = ArenaBox::new_from(source, build);
    proof {
        let out = choose|out: (AugmentedData, Arena)|
            #[trigger] call_ensures(build, (source.spec_arena(), source.root()), out)
                && r.root() == out.0 && r.spec_arena() == out.1;
        assert(r.strings() =~= source.strings().push(extra@));
    }
    r
}

/// Builds a container over `MyError { message, details }`, both fields
/// allocated in a fresh store.
pub fn build_error(message: &str, details: &str) -> (b: ArenaBox<MyError>)
    ensures
        b.wf(),
        b.strings() =~= seq![message@, details@],
        lookup(b.strings(), b.root().message) == message@,
        lookup(b.strings(), b.root().details) == details@,
{
    let build = |arena: Arena| -> (out: (MyError, Arena))
        ensures
            out.1@ =~= arena@.push(message@).push(details@),
            out.0.message.i == arena@.len(),
            out.0.details.i == arena@.len() + 1,
        {
            let mut a = arena;
            let m = a.alloc_str(message);
            let d = a.alloc_str(details);
            (MyError { message: m, details: d }, a)
        };
    let b = ArenaBox::new(build);
    proof {
        let (a0, out) = choose|a0: Arena, out: (MyError, Arena)|
            a0@.len() == 0 && #[trigger] call_ensures(build, (a0,), out) && b.root() == out.0
                && b.spec_arena() == out.1;
        assert(b.strings() =~= seq![message@, details@]);
    }
    b
}

/// Replaces the details of a [`MyError`] container with freshly allocated
/// text, leaving the message exactly as it was.
pub fn set_details(boxed: ArenaBox<MyError>, details: &str) -> (r: ArenaBox<MyError>)
    requires
        boxed.wf(),
    ensures
        r.wf(),
        r.strings() =~= boxed.strings().push(details@),
        r.root().message == boxed.root().message,
        lookup(r.strings(), r.root().message) == lookup(boxed.strings(), boxed.root().message),
        lookup(r.strings(), r.root().details) == details@,
{
    let mut h = boxed.mutate();
    let m = h.get().message;
    let d = h.alloc_str(details);
    h.set(MyError { message: m, details: d });
    h.finish()
}

/// What a [`MyError`] container shows: its two fields, each resolved
/// against the container's own store.
pub open spec fn error_view(b: ArenaBox<MyError>) -> (Seq<char>, Seq<char>) {
    (lookup(b.strings(), b.root().message), lookup(b.strings(), b.root().details))
}

/// Equality of containers reflects content, never address: two `MyError`
/// containers compare equal exactly when the texts their fields resolve to
/// agree, however and wherever each was allocated — and so a container
/// amended to differ in its details no longer compares equal.
pub proof fn lemma_eq_reflects_content(x: ArenaBox<MyError>, y: ArenaBox<MyError>)
    ensures
        vstd::std_specs::cmp::PartialEqSpec::eq_spec(&x, &y) <==> error_view(x) == error_view(y),
{
}

} // verus!
