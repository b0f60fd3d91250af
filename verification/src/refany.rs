//! Type-erased, reference-counted object handles with a runtime borrow
//! checker.
//!
//! A [`AzRefAny`] hands a value of erased type across the foreign-function
//! boundary.  Because the receiving side's compiler cannot check aliasing or
//! lifetimes, the rules a borrow checker would enforce at compile time are
//! enforced here at run time: a shared/exclusive counter pair guards every
//! access, a stored type tag validates every downcast, and a copy counter
//! decides when the payload's destructor runs — exactly once, at the last
//! release.
//!
//! In a C-ABI deployment the shared metadata block is a heap allocation
//! reached through a raw pointer.  Here it lives in a [`RefArena`], and
//! every handle carries the index of its block; the arena is the single
//! source of truth for liveness and aliasing state.

use vstd::prelude::*;
use vstd::pervasive::unreached;
use vstd::std_specs::vec::vec_index_mut;

use crate::string::AzString;

verus! {

/// The metadata block shared by every handle and guard of one erased object:
/// the copy count, the shared/exclusive borrow counters, the payload length,
/// and the type identity recorded at construction.
#[derive(Debug)]
pub struct AzRefCountInner {
    pub num_copies: usize,
    pub num_refs: usize,
    pub num_mutable_refs: usize,
    pub _internal_len: usize,
    pub type_id: u64,
    pub type_label: AzString,
}

/// One erased object: its metadata block, its payload bytes while it is
/// alive, and how often its destructor has run.
struct RefEntry {
    inner: AzRefCountInner,
    payload: Option<Vec<u8>>,
    destructor_runs: usize,
}

/// The arena holding every metadata block.  Handles are indices into it;
/// an entry, once created, keeps its index for the arena's whole life.
pub struct RefArena {
    entries: Vec<RefEntry>,
}

/// A cloneable handle to a metadata block; the counter-mutation primitives
/// live here.
#[derive(Debug)]
pub struct AzRefCount {
    pub index: usize,
}

/// The type-erased, reference-counted object handle.
#[derive(Debug)]
pub struct AzRefAny {
    pub is_dead: bool,
    pub sharing_info: AzRefCount,
}

/// A scoped shared-borrow guard: the only witness that a shared downcast
/// succeeded, and the only way to give the shared borrow back.
#[derive(Debug)]
pub struct Ref {
    pub sharing_info: AzRefCount,
}

/// A scoped exclusive-borrow guard: the only way to reach the payload
/// mutably, and the only way to give the exclusive borrow back.
#[derive(Debug)]
pub struct RefMut {
    pub sharing_info: AzRefCount,
}

impl RefArena {
    /// How many erased objects this arena has ever held.
    pub closed spec fn entry_count(self) -> nat {
        self.entries@.len()
    }

    pub open spec fn is_entry(self, i: int) -> bool {
        0 <= i < self.entry_count()
    }

    pub closed spec fn copies(self, i: int) -> nat {
        self.entries@[i].inner.num_copies as nat
    }

    pub closed spec fn refs(self, i: int) -> nat {
        self.entries@[i].inner.num_refs as nat
    }

    pub closed spec fn mut_refs(self, i: int) -> nat {
        self.entries@[i].inner.num_mutable_refs as nat
    }

    pub closed spec fn tag_of(self, i: int) -> u64 {
        self.entries@[i].inner.type_id
    }

    pub closed spec fn name_of(self, i: int) -> Seq<u8> {
        self.entries@[i].inner.type_label.bytes()
    }

    pub closed spec fn payload_of(self, i: int) -> Option<Seq<u8>> {
        match self.entries@[i].payload {
            Option::Some(v) => Option::Some(v@),
            Option::None => Option::None,
        }
    }

    pub closed spec fn destructor_runs(self, i: int) -> nat {
        self.entries@[i].destructor_runs as nat
    }

    /// The payload length recorded in the metadata block.
    pub closed spec fn stored_len(self, i: int) -> nat {
        self.entries@[i].inner._internal_len as nat
    }

    /// An object is alive until its destructor has run.
    pub open spec fn alive(self, i: int) -> bool {
        self.destructor_runs(i) == 0
    }

    /// The per-object invariant.  `num_mutable_refs` is zero or one; shared
    /// and exclusive borrows exclude each other; a live object is held by at
    /// least one handle or guard; the payload exists exactly until the
    /// destructor runs, and the destructor never runs twice.
    pub open spec fn entry_inv(self, i: int) -> bool {
        &&& self.mut_refs(i) <= 1
        &&& (self.refs(i) > 0 ==> self.mut_refs(i) == 0)
        &&& (self.payload_of(i) is Some <==> self.destructor_runs(i) == 0)
        &&& self.destructor_runs(i) <= 1
        &&& (self.destructor_runs(i) == 0 ==> self.copies(i) + self.refs(i) + self.mut_refs(i)
            > 0)
        &&& (self.destructor_runs(i) == 1 ==> self.copies(i) == 0 && self.refs(i) == 0
            && self.mut_refs(i) == 0)
        &&& (self.payload_of(i) is Some ==> self.payload_of(i)->Some_0.len() == self.stored_len(
            i,
        ))
    }

    pub open spec fn wf(self) -> bool {
        forall|i: int| self.is_entry(i) ==> self.entry_inv(i)
    }

    /// Entry `i` reads the same in both arenas.
    pub open spec fn same_entry(self, other: RefArena, i: int) -> bool {
        &&& other.copies(i) == self.copies(i)
        &&& other.refs(i) == self.refs(i)
        &&& other.mut_refs(i) == self.mut_refs(i)
        &&& other.tag_of(i) == self.tag_of(i)
        &&& other.name_of(i) == self.name_of(i)
        &&& other.payload_of(i) == self.payload_of(i)
        &&& other.destructor_runs(i) == self.destructor_runs(i)
        &&& other.stored_len(i) == self.stored_len(i)
    }

    /// Every entry other than `i` reads the same in both arenas, and no
    /// entry appeared or vanished.
    pub open spec fn same_except(self, other: RefArena, i: int) -> bool {
        &&& other.entry_count() == self.entry_count()
        &&& forall|j: int| self.is_entry(j) && j != i ==> self.same_entry(other, j)
    }

    pub fn new() -> (r: RefArena)
        ensures
            r.wf(),
            r.entry_count() == 0,
    {
        RefArena { entries: Vec::new() }
    }

    /// After an update of entry `i` alone, every other entry reads as
    /// before, and keeps its invariant.
    proof fn lemma_update_frame(pre: RefArena, post: RefArena, i: int)
        requires
            post.entries@ =~= pre.entries@.update(i, post.entries@[i]),
            0 <= i < pre.entries@.len(),
        ensures
            pre.same_except(post, i),
            forall|j: int|
                pre.is_entry(j) && j != i && pre.entry_inv(j) ==> #[trigger] post.entry_inv(j),
    {
        assert forall|j: int| pre.is_entry(j) && j != i implies pre.same_entry(post, j) by {
            assert(post.entries@[j] == pre.entries@[j]);
        }
    }

    pub fn entry_total(&self) -> (r: usize)
        ensures
            r == self.entry_count(),
    {
        self.entries.len()
    }

    /// Reads the copy count of entry `i`.
    pub fn copies_of(&self, i: usize) -> (r: usize)
        requires
            self.is_entry(i as int),
        ensures
            r == self.copies(i as int),
    {
        self.entries[i].inner.num_copies
    }

    /// Reads the shared-borrow count of entry `i`.
    pub fn refs_of(&self, i: usize) -> (r: usize)
        requires
            self.is_entry(i as int),
        ensures
            r == self.refs(i as int),
    {
        self.entries[i].inner.num_refs
    }

    /// Reads the exclusive-borrow count of entry `i`.
    pub fn mut_refs_of(&self, i: usize) -> (r: usize)
        requires
            self.is_entry(i as int),
        ensures
            r == self.mut_refs(i as int),
    {
        self.entries[i].inner.num_mutable_refs
    }

    /// How often the destructor of entry `i` has run — the observable that
    /// an allocation-counting test watches.
    pub fn destructor_runs_of(&self, i: usize) -> (r: usize)
        requires
            self.is_entry(i as int),
        ensures
            r == self.destructor_runs(i as int),
    {
        self.entries[i].destructor_runs
    }

    /// Whether the payload of entry `i` is still there.
    pub fn payload_present(&self, i: usize) -> (r: bool)
        requires
            self.is_entry(i as int),
        ensures
            r == (self.payload_of(i as int) is Some),
    {
        match &self.entries[i].payload {
            Option::Some(_) => true,
            Option::None => false,
        }
    }
}

impl AzRefCount {
    /// The index of the metadata block this handle shares.
    pub open spec fn entry(self) -> int {
        self.index as int
    }

    /// A handle is valid while its block exists and its object is alive and
    /// held by at least one copy.
    pub open spec fn valid_in(self, a: RefArena) -> bool {
        &&& a.is_entry(self.entry())
        &&& a.alive(self.entry())
        &&& a.copies(self.entry()) >= 1
    }

    /// A shared borrow may be taken while no exclusive borrow is out.
    pub fn can_be_shared(&self, arena: &RefArena) -> (r: bool)
        requires
            arena.is_entry(self.entry()),
        ensures
            r == (arena.mut_refs(self.entry()) == 0),
    {
        arena.entries[self.index].inner.num_mutable_refs == 0
    }

    /// An exclusive borrow may be taken only while no borrow at all is out.
    pub fn can_be_shared_mut(&self, arena: &RefArena) -> (r: bool)
        requires
            arena.is_entry(self.entry()),
        ensures
            r == (arena.refs(self.entry()) == 0 && arena.mut_refs(self.entry()) == 0),
    {
        let e = &arena.entries[self.index];
        e.inner.num_refs == 0 && e.inner.num_mutable_refs == 0
    }

    /// Takes a shared borrow.  The caller must have checked
    /// [`Self::can_be_shared`] first.
    pub fn increase_ref(&self, arena: &mut RefArena)
        requires
            old(arena).wf(),
            self.valid_in(*old(arena)),
            old(arena).mut_refs(self.entry()) == 0,
            old(arena).refs(self.entry()) < usize::MAX,
        ensures
            final(arena).wf(),
            final(arena).refs(self.entry()) == old(arena).refs(self.entry()) + 1,
            final(arena).copies(self.entry()) == old(arena).copies(self.entry()),
            final(arena).mut_refs(self.entry()) == old(arena).mut_refs(self.entry()),
            final(arena).tag_of(self.entry()) == old(arena).tag_of(self.entry()),
            final(arena).name_of(self.entry()) == old(arena).name_of(self.entry()),
            final(arena).payload_of(self.entry()) == old(arena).payload_of(self.entry()),
            final(arena).destructor_runs(self.entry()) == old(arena).destructor_runs(
                self.entry(),
            ),
            old(arena).same_except(*final(arena), self.entry()),
    {
        let e = vec_index_mut(&mut arena.entries, self.index);
        e.inner.num_refs = e.inner.num_refs + 1;
        proof {
            RefArena::lemma_update_frame(*old(arena), *arena, self.entry());
            assert(arena.wf());
        }
    }

    /// Gives a shared borrow back.
    pub fn decrease_ref(&self, arena: &mut RefArena)
        requires
            old(arena).wf(),
            self.valid_in(*old(arena)),
            old(arena).refs(self.entry()) >= 1,
        ensures
            final(arena).wf(),
            final(arena).refs(self.entry()) == old(arena).refs(self.entry()) - 1,
            final(arena).copies(self.entry()) == old(arena).copies(self.entry()),
            final(arena).mut_refs(self.entry()) == old(arena).mut_refs(self.entry()),
            final(arena).tag_of(self.entry()) == old(arena).tag_of(self.entry()),
            final(arena).name_of(self.entry()) == old(arena).name_of(self.entry()),
            final(arena).payload_of(self.entry()) == old(arena).payload_of(self.entry()),
            final(arena).destructor_runs(self.entry()) == old(arena).destructor_runs(
                self.entry(),
            ),
            old(arena).same_except(*final(arena), self.entry()),
    {
        let e = vec_index_mut(&mut arena.entries, self.index);
        e.inner.num_refs = e.inner.num_refs - 1;
        proof {
            RefArena::lemma_update_frame(*old(arena), *arena, self.entry());
            assert(arena.wf());
        }
    }

    /// Takes the exclusive borrow.  The caller must have checked
    /// [`Self::can_be_shared_mut`] first.
    pub fn increase_refmut(&self, arena: &mut RefArena)
        requires
            old(arena).wf(),
            self.valid_in(*old(arena)),
            old(arena).refs(self.entry()) == 0,
            old(arena).mut_refs(self.entry()) == 0,
        ensures
            final(arena).wf(),
            final(arena).mut_refs(self.entry()) == 1,
            final(arena).refs(self.entry()) == 0,
            final(arena).copies(self.entry()) == old(arena).copies(self.entry()),
            final(arena).tag_of(self.entry()) == old(arena).tag_of(self.entry()),
            final(arena).name_of(self.entry()) == old(arena).name_of(self.entry()),
            final(arena).payload_of(self.entry()) == old(arena).payload_of(self.entry()),
            final(arena).destructor_runs(self.entry()) == old(arena).destructor_runs(
                self.entry(),
            ),
            old(arena).same_except(*final(arena), self.entry()),
    {
        let e = vec_index_mut(&mut arena.entries, self.index);
        e.inner.num_mutable_refs = 1;
        proof {
            RefArena::lemma_update_frame(*old(arena), *arena, self.entry());
            assert(arena.wf());
        }
    }

    /// Another handle to the same metadata block; the copy count records
    /// it, so the block outlives whichever holder lets go last.
    pub fn clone(&self, arena: &mut RefArena) -> (r: AzRefCount)
        requires
            old(arena).wf(),
            self.valid_in(*old(arena)),
            old(arena).copies(self.entry()) < usize::MAX,
        ensures
            final(arena).wf(),
            r.entry() == self.entry(),
            final(arena).copies(self.entry()) == old(arena).copies(self.entry()) + 1,
            final(arena).refs(self.entry()) == old(arena).refs(self.entry()),
            final(arena).mut_refs(self.entry()) == old(arena).mut_refs(self.entry()),
            final(arena).tag_of(self.entry()) == old(arena).tag_of(self.entry()),
            final(arena).name_of(self.entry()) == old(arena).name_of(self.entry()),
            final(arena).payload_of(self.entry()) == old(arena).payload_of(self.entry()),
            final(arena).destructor_runs(self.entry()) == old(arena).destructor_runs(
                self.entry(),
            ),
            old(arena).same_except(*final(arena), self.entry()),
    {
        let e = vec_index_mut(&mut arena.entries, self.index);
        e.inner.num_copies = e.inner.num_copies + 1;
        proof {
            RefArena::lemma_update_frame(*old(arena), *arena, self.entry());
            assert(arena.wf());
        }
        AzRefCount { index: self.index }
    }

    /// Gives the exclusive borrow back.
    pub fn decrease_refmut(&self, arena: &mut RefArena)
        requires
            old(arena).wf(),
            self.valid_in(*old(arena)),
            old(arena).mut_refs(self.entry()) == 1,
        ensures
            final(arena).wf(),
            final(arena).mut_refs(self.entry()) == 0,
            final(arena).refs(self.entry()) == old(arena).refs(self.entry()),
            final(arena).copies(self.entry()) == old(arena).copies(self.entry()),
            final(arena).tag_of(self.entry()) == old(arena).tag_of(self.entry()),
            final(arena).name_of(self.entry()) == old(arena).name_of(self.entry()),
            final(arena).payload_of(self.entry()) == old(arena).payload_of(self.entry()),
            final(arena).destructor_runs(self.entry()) == old(arena).destructor_runs(
                self.entry(),
            ),
            old(arena).same_except(*final(arena), self.entry()),
    {
        let e = vec_index_mut(&mut arena.entries, self.index);
        e.inner.num_mutable_refs = 0;
        proof {
            RefArena::lemma_update_frame(*old(arena), *arena, self.entry());
            assert(arena.wf());
        }
    }
}

} // verus!

verus! {

/// A shared downcast is answered `Some` exactly when the stored tag matches
/// and no exclusive borrow is out.
pub open spec fn downcast_ref_allowed(a: RefArena, i: int, type_id: u64) -> bool {
    a.tag_of(i) == type_id && a.mut_refs(i) == 0
}

/// An exclusive downcast is answered `Some` exactly when the stored tag
/// matches and no borrow at all is out.
pub open spec fn downcast_mut_allowed(a: RefArena, i: int, type_id: u64) -> bool {
    a.tag_of(i) == type_id && a.refs(i) == 0 && a.mut_refs(i) == 0
}

impl AzRefAny {
    /// The index of this handle's metadata block.
    pub open spec fn entry(self) -> int {
        self.sharing_info.entry()
    }

    pub open spec fn valid_in(self, a: RefArena) -> bool {
        &&& a.is_entry(self.entry())
        &&& a.alive(self.entry())
        &&& a.copies(self.entry()) >= 1
    }

    /// Erases a value: its bytes, its type tag and its readable type label
    /// move into a fresh metadata block, and the returned handle is the
    /// block's first copy.  The destructor of the erased value will run
    /// exactly once, when the last copy lets go.
    pub fn new(payload: Vec<u8>, type_id: u64, type_label: AzString, arena: &mut RefArena) -> (r:
        AzRefAny)
        requires
            old(arena).wf(),
            old(arena).entry_count() < usize::MAX,
        ensures
            final(arena).wf(),
            final(arena).entry_count() == old(arena).entry_count() + 1,
            r.entry() == old(arena).entry_count(),
            r.valid_in(*final(arena)),
            !r.is_dead,
            final(arena).copies(r.entry()) == 1,
            final(arena).refs(r.entry()) == 0,
            final(arena).mut_refs(r.entry()) == 0,
            final(arena).tag_of(r.entry()) == type_id,
            final(arena).name_of(r.entry()) == type_label.bytes(),
            final(arena).payload_of(r.entry()) == Option::Some(payload@),
            final(arena).stored_len(r.entry()) == payload@.len(),
            final(arena).destructor_runs(r.entry()) == 0,
            forall|j: int|
                old(arena).is_entry(j) ==> #[trigger] old(arena).same_entry(*final(arena), j),
    {
        let index = arena.entries.len();
        let len = payload.len();
        arena.entries.push(
            RefEntry {
                inner: AzRefCountInner {
                    num_copies: 1,
                    num_refs: 0,
                    num_mutable_refs: 0,
                    _internal_len: len,
                    type_id,
                    type_label,
                },
                payload: Option::Some(payload),
                destructor_runs: 0,
            },
        );
        proof {
            assert forall|j: int| old(arena).is_entry(j) implies old(arena).same_entry(
                *arena,
                j,
            ) by {
                assert(arena.entries@[j] == old(arena).entries@[j]);
            }
            assert forall|j: int| arena.is_entry(j) implies arena.entry_inv(j) by {
                if j < old(arena).entries@.len() {
                    assert(old(arena).entry_inv(j));
                    assert(old(arena).same_entry(*arena, j));
                } else {
                    assert(arena.entries@[j] == arena.entries@[index as int]);
                }
            }
        }
        AzRefAny { is_dead: false, sharing_info: AzRefCount { index } }
    }

    /// Does the stored tag equal `type_id`?
    pub fn is_type(&self, arena: &RefArena, type_id: u64) -> (r: bool)
        requires
            arena.is_entry(self.entry()),
        ensures
            r == (arena.tag_of(self.entry()) == type_id),
    {
        arena.entries[self.sharing_info.index].inner.type_id == type_id
    }

    /// The human-readable label of the erased type.
    pub fn get_type_label<'a>(&self, arena: &'a RefArena) -> (r: &'a AzString)
        requires
            arena.is_entry(self.entry()),
        ensures
            r.bytes() == arena.name_of(self.entry()),
    {
        &arena.entries[self.sharing_info.index].inner.type_label
    }

    /// Another handle to the same erased object; the copy count records it.
    pub fn clone(&self, arena: &mut RefArena) -> (r: AzRefAny)
        requires
            old(arena).wf(),
            self.valid_in(*old(arena)),
            old(arena).copies(self.entry()) < usize::MAX,
        ensures
            final(arena).wf(),
            r.entry() == self.entry(),
            !r.is_dead,
            r.valid_in(*final(arena)),
            self.valid_in(*final(arena)),
            final(arena).copies(self.entry()) == old(arena).copies(self.entry()) + 1,
            final(arena).refs(self.entry()) == old(arena).refs(self.entry()),
            final(arena).mut_refs(self.entry()) == old(arena).mut_refs(self.entry()),
            final(arena).tag_of(self.entry()) == old(arena).tag_of(self.entry()),
            final(arena).name_of(self.entry()) == old(arena).name_of(self.entry()),
            final(arena).payload_of(self.entry()) == old(arena).payload_of(self.entry()),
            final(arena).destructor_runs(self.entry()) == old(arena).destructor_runs(
                self.entry(),
            ),
            old(arena).same_except(*final(arena), self.entry()),
    {
        let idx = self.sharing_info.index;
        let e = vec_index_mut(&mut arena.entries, idx);
        e.inner.num_copies = e.inner.num_copies + 1;
        proof {
            RefArena::lemma_update_frame(*old(arena), *arena, self.entry());
            assert(arena.wf());
        }
        AzRefAny { is_dead: false, sharing_info: AzRefCount { index: idx } }
    }

    /// Gives this copy back.  When it was the last holder — no other copy,
    /// no guard — the payload's destructor runs, once, and the payload is
    /// gone.
    pub fn delete(self, arena: &mut RefArena)
        requires
            old(arena).wf(),
            self.valid_in(*old(arena)),
        ensures
            final(arena).wf(),
            final(arena).copies(self.entry()) == old(arena).copies(self.entry()) - 1,
            final(arena).refs(self.entry()) == old(arena).refs(self.entry()),
            final(arena).mut_refs(self.entry()) == old(arena).mut_refs(self.entry()),
            final(arena).tag_of(self.entry()) == old(arena).tag_of(self.entry()),
            final(arena).name_of(self.entry()) == old(arena).name_of(self.entry()),
            old(arena).same_except(*final(arena), self.entry()),
            (old(arena).copies(self.entry()) == 1 && old(arena).refs(self.entry()) == 0 && old(
                arena,
            ).mut_refs(self.entry()) == 0) ==> {
                &&& final(arena).destructor_runs(self.entry()) == 1
                &&& final(arena).payload_of(self.entry()) is None
            },
            (old(arena).copies(self.entry()) > 1 || old(arena).refs(self.entry()) > 0 || old(
                arena,
            ).mut_refs(self.entry()) > 0) ==> {
                &&& final(arena).destructor_runs(self.entry()) == 0
                &&& final(arena).payload_of(self.entry()) == old(arena).payload_of(self.entry())
            },
    {
        let idx = self.sharing_info.index;
        let e = vec_index_mut(&mut arena.entries, idx);
        e.inner.num_copies = e.inner.num_copies - 1;
        if e.inner.num_copies == 0 && e.inner.num_refs == 0 && e.inner.num_mutable_refs == 0 {
            e.payload = Option::None;
            e.destructor_runs = 1;
        }
        proof {
            RefArena::lemma_update_frame(*old(arena), *arena, self.sharing_info.entry());
            assert(arena.wf());
        }
    }

    /// Recovers a shared, typed view of the erased object.  Refused — with
    /// `None`, never with a panic — when the tag differs or an exclusive
    /// borrow is out; on success the object carries one more shared borrow
    /// and one more copy, both owned by the returned guard.
    pub fn downcast_ref(&self, arena: &mut RefArena, type_id: u64) -> (r: Option<Ref>)
        requires
            old(arena).wf(),
            self.valid_in(*old(arena)),
            old(arena).refs(self.entry()) < usize::MAX,
            old(arena).copies(self.entry()) < usize::MAX,
        ensures
            final(arena).wf(),
            self.valid_in(*final(arena)),
            (r is Some) == downcast_ref_allowed(*old(arena), self.entry(), type_id),
            r is None ==> *final(arena) == *old(arena),
            r matches Option::Some(g) ==> {
                &&& g.entry() == self.entry()
                &&& g.valid_in(*final(arena))
                &&& final(arena).refs(self.entry()) == old(arena).refs(self.entry()) + 1
                &&& final(arena).copies(self.entry()) == old(arena).copies(self.entry()) + 1
                &&& final(arena).mut_refs(self.entry()) == 0
                &&& final(arena).tag_of(self.entry()) == old(arena).tag_of(self.entry())
                &&& final(arena).name_of(self.entry()) == old(arena).name_of(self.entry())
                &&& final(arena).payload_of(self.entry()) == old(arena).payload_of(self.entry())
                &&& final(arena).destructor_runs(self.entry()) == 0
                &&& old(arena).same_except(*final(arena), self.entry())
            },
    {
        if !self.is_type(arena, type_id) {
            return Option::None;
        }
        if !self.sharing_info.can_be_shared(arena) {
            return Option::None;
        }
        let idx = self.sharing_info.index;
        let e = vec_index_mut(&mut arena.entries, idx);
        e.inner.num_refs = e.inner.num_refs + 1;
        e.inner.num_copies = e.inner.num_copies + 1;
        proof {
            RefArena::lemma_update_frame(*old(arena), *arena, self.sharing_info.entry());
            assert(arena.wf());
        }
        Option::Some(Ref { sharing_info: AzRefCount { index: idx } })
    }

    /// Recovers the exclusive, typed view of the erased object.  Refused —
    /// with `None` — when the tag differs or any borrow is out; on success
    /// the object carries the one exclusive borrow and one more copy, both
    /// owned by the returned guard.
    pub fn downcast_mut(&self, arena: &mut RefArena, type_id: u64) -> (r: Option<RefMut>)
        requires
            old(arena).wf(),
            self.valid_in(*old(arena)),
            old(arena).copies(self.entry()) < usize::MAX,
        ensures
            final(arena).wf(),
            self.valid_in(*final(arena)),
            (r is Some) == downcast_mut_allowed(*old(arena), self.entry(), type_id),
            r is None ==> *final(arena) == *old(arena),
            r matches Option::Some(g) ==> {
                &&& g.entry() == self.entry()
                &&& g.valid_in(*final(arena))
                &&& final(arena).refs(self.entry()) == 0
                &&& final(arena).copies(self.entry()) == old(arena).copies(self.entry()) + 1
                &&& final(arena).mut_refs(self.entry()) == 1
                &&& final(arena).tag_of(self.entry()) == old(arena).tag_of(self.entry())
                &&& final(arena).name_of(self.entry()) == old(arena).name_of(self.entry())
                &&& final(arena).payload_of(self.entry()) == old(arena).payload_of(self.entry())
                &&& final(arena).destructor_runs(self.entry()) == 0
                &&& old(arena).same_except(*final(arena), self.entry())
            },
    {
        if !self.is_type(arena, type_id) {
            return Option::None;
        }
        if !self.sharing_info.can_be_shared_mut(arena) {
            return Option::None;
        }
        let idx = self.sharing_info.index;
        let e = vec_index_mut(&mut arena.entries, idx);
        e.inner.num_mutable_refs = 1;
        e.inner.num_copies = e.inner.num_copies + 1;
        proof {
            RefArena::lemma_update_frame(*old(arena), *arena, self.sharing_info.entry());
            assert(arena.wf());
        }
        Option::Some(RefMut { sharing_info: AzRefCount { index: idx } })
    }
}

} // verus!

verus! {

impl Ref {
    /// The index of the metadata block this guard holds open.
    pub open spec fn entry(self) -> int {
        self.sharing_info.entry()
    }

    /// A guard is valid while its block exists, the object is alive, and
    /// the borrow and copy it holds are still counted.
    pub open spec fn valid_in(self, a: RefArena) -> bool {
        &&& a.is_entry(self.entry())
        &&& a.alive(self.entry())
        &&& a.refs(self.entry()) >= 1
        &&& a.copies(self.entry()) >= 1
    }

    /// Reads the borrowed payload.
    pub fn bytes<'a>(&self, arena: &'a RefArena) -> (r: &'a Vec<u8>)
        requires
            arena.wf(),
            self.valid_in(*arena),
        ensures
            Option::Some(r@) == arena.payload_of(self.entry()),
    {
        proof {
            assert(arena.entry_inv(self.entry()));
        }
        match &arena.entries[self.sharing_info.index].payload {
            Option::Some(v) => v,
            Option::None => unreached(),
        }
    }

    /// Gives the shared borrow and its copy back; the destructor fires iff
    /// this guard was the object's very last holder.
    pub fn delete(self, arena: &mut RefArena)
        requires
            old(arena).wf(),
            self.valid_in(*old(arena)),
        ensures
            final(arena).wf(),
            final(arena).refs(self.entry()) == old(arena).refs(self.entry()) - 1,
            final(arena).copies(self.entry()) == old(arena).copies(self.entry()) - 1,
            final(arena).mut_refs(self.entry()) == old(arena).mut_refs(self.entry()),
            final(arena).tag_of(self.entry()) == old(arena).tag_of(self.entry()),
            final(arena).name_of(self.entry()) == old(arena).name_of(self.entry()),
            old(arena).same_except(*final(arena), self.entry()),
            (old(arena).copies(self.entry()) == 1 && old(arena).refs(self.entry()) == 1 && old(
                arena,
            ).mut_refs(self.entry()) == 0) ==> {
                &&& final(arena).destructor_runs(self.entry()) == 1
                &&& final(arena).payload_of(self.entry()) is None
            },
            (old(arena).copies(self.entry()) > 1 || old(arena).refs(self.entry()) > 1 || old(
                arena,
            ).mut_refs(self.entry()) > 0) ==> {
                &&& final(arena).destructor_runs(self.entry()) == 0
                &&& final(arena).payload_of(self.entry()) == old(arena).payload_of(self.entry())
            },
    {
        let idx = self.sharing_info.index;
        let e = vec_index_mut(&mut arena.entries, idx);
        e.inner.num_refs = e.inner.num_refs - 1;
        e.inner.num_copies = e.inner.num_copies - 1;
        if e.inner.num_copies == 0 && e.inner.num_refs == 0 && e.inner.num_mutable_refs == 0 {
            e.payload = Option::None;
            e.destructor_runs = 1;
        }
        proof {
            RefArena::lemma_update_frame(*old(arena), *arena, self.sharing_info.entry());
            assert(arena.wf());
        }
    }
}

impl RefMut {
    /// The index of the metadata block this guard holds open.
    pub open spec fn entry(self) -> int {
        self.sharing_info.entry()
    }

    /// A guard is valid while its block exists, the object is alive, and
    /// the exclusive borrow and the copy it holds are still counted.
    pub open spec fn valid_in(self, a: RefArena) -> bool {
        &&& a.is_entry(self.entry())
        &&& a.alive(self.entry())
        &&& a.mut_refs(self.entry()) == 1
        &&& a.copies(self.entry()) >= 1
    }

    /// Reads the exclusively borrowed payload.
    pub fn bytes<'a>(&self, arena: &'a RefArena) -> (r: &'a Vec<u8>)
        requires
            arena.wf(),
            self.valid_in(*arena),
        ensures
            Option::Some(r@) == arena.payload_of(self.entry()),
    {
        proof {
            assert(arena.entry_inv(self.entry()));
        }
        match &arena.entries[self.sharing_info.index].payload {
            Option::Some(v) => v,
            Option::None => unreached(),
        }
    }

    /// Replaces the payload bytes — the one mutation path, open only while
    /// this exclusive guard is alive.
    pub fn set_bytes(&self, arena: &mut RefArena, bytes: Vec<u8>)
        requires
            old(arena).wf(),
            self.valid_in(*old(arena)),
            bytes@.len() == old(arena).stored_len(self.entry()),
        ensures
            final(arena).wf(),
            self.valid_in(*final(arena)),
            final(arena).payload_of(self.entry()) == Option::Some(bytes@),
            final(arena).copies(self.entry()) == old(arena).copies(self.entry()),
            final(arena).refs(self.entry()) == old(arena).refs(self.entry()),
            final(arena).mut_refs(self.entry()) == old(arena).mut_refs(self.entry()),
            final(arena).tag_of(self.entry()) == old(arena).tag_of(self.entry()),
            final(arena).name_of(self.entry()) == old(arena).name_of(self.entry()),
            final(arena).destructor_runs(self.entry()) == old(arena).destructor_runs(
                self.entry(),
            ),
            old(arena).same_except(*final(arena), self.entry()),
    {
        let idx = self.sharing_info.index;
        let e = vec_index_mut(&mut arena.entries, idx);
        e.payload = Option::Some(bytes);
        proof {
            RefArena::lemma_update_frame(*old(arena), *arena, self.sharing_info.entry());
            assert(arena.wf());
        }
    }

    /// Gives the exclusive borrow and its copy back; the destructor fires
    /// iff this guard was the object's very last holder.
    pub fn delete(self, arena: &mut RefArena)
        requires
            old(arena).wf(),
            self.valid_in(*old(arena)),
        ensures
            final(arena).wf(),
            final(arena).mut_refs(self.entry()) == 0,
            final(arena).refs(self.entry()) == old(arena).refs(self.entry()),
            final(arena).copies(self.entry()) == old(arena).copies(self.entry()) - 1,
            final(arena).tag_of(self.entry()) == old(arena).tag_of(self.entry()),
            final(arena).name_of(self.entry()) == old(arena).name_of(self.entry()),
            old(arena).same_except(*final(arena), self.entry()),
            (old(arena).copies(self.entry()) == 1 && old(arena).refs(self.entry()) == 0) ==> {
                &&& final(arena).destructor_runs(self.entry()) == 1
                &&& final(arena).payload_of(self.entry()) is None
            },
            (old(arena).copies(self.entry()) > 1 || old(arena).refs(self.entry()) > 0) ==> {
                &&& final(arena).destructor_runs(self.entry()) == 0
                &&& final(arena).payload_of(self.entry()) == old(arena).payload_of(self.entry())
            },
    {
        let idx = self.sharing_info.index;
        let e = vec_index_mut(&mut arena.entries, idx);
        e.inner.num_mutable_refs = 0;
        e.inner.num_copies = e.inner.num_copies - 1;
        if e.inner.num_copies == 0 && e.inner.num_refs == 0 {
            e.payload = Option::None;
            e.destructor_runs = 1;
        }
        proof {
            RefArena::lemma_update_frame(*old(arena), *arena, self.sharing_info.entry());
            assert(arena.wf());
        }
    }
}

} // verus!

verus! {

/// Law: downcasting with any tag other than the stored one is refused, both
/// for shared and for exclusive access — a wrong-typed view can never be
/// produced.
pub proof fn lemma_tag_mismatch_refused(a: RefArena, i: int, other: u64)
    requires
        a.tag_of(i) != other,
    ensures
        !downcast_ref_allowed(a, i, other),
        !downcast_mut_allowed(a, i, other),
{
}

/// Law: an object with no outstanding borrow answers a downcast under its
/// own tag, shared or exclusive.  In particular a freshly erased object
/// does, and so does any object again once every guard has been given back.
pub proof fn lemma_unborrowed_object_downcasts(a: RefArena, i: int)
    requires
        a.refs(i) == 0,
        a.mut_refs(i) == 0,
    ensures
        downcast_ref_allowed(a, i, a.tag_of(i)),
        downcast_mut_allowed(a, i, a.tag_of(i)),
{
}

/// Law: while an exclusive guard is alive, every further downcast on the
/// same object is refused, whatever the tag.
pub proof fn lemma_exclusive_blocks_all(a: RefArena, i: int, type_id: u64)
    requires
        a.mut_refs(i) >= 1,
    ensures
        !downcast_ref_allowed(a, i, type_id),
        !downcast_mut_allowed(a, i, type_id),
{
}

/// Law: while any number of shared guards is alive, an exclusive downcast
/// is refused, but further shared downcasts under the object's own tag are
/// still answered.
pub proof fn lemma_shared_blocks_exclusive(a: RefArena, i: int, type_id: u64)
    requires
        a.wf(),
        a.is_entry(i),
        a.refs(i) >= 1,
    ensures
        !downcast_mut_allowed(a, i, type_id),
        downcast_ref_allowed(a, i, a.tag_of(i)),
{
    assert(a.entry_inv(i));
}

/// Law: in a well-formed arena the destructor of an object has run at most
/// once; while the object is alive it has not run at all and the payload is
/// still there, and once it has run, no handle, guard or payload is left.
pub proof fn lemma_destructor_at_most_once(a: RefArena, i: int)
    requires
        a.wf(),
        a.is_entry(i),
    ensures
        a.destructor_runs(i) <= 1,
        a.alive(i) ==> a.destructor_runs(i) == 0 && a.payload_of(i) is Some,
        a.destructor_runs(i) == 1 ==> a.copies(i) == 0 && a.refs(i) == 0 && a.mut_refs(i) == 0
            && a.payload_of(i) is None,
{
    assert(a.entry_inv(i));
}

/// Law: shared and exclusive access exclude each other — there is never
/// more than one exclusive borrow, and never a shared borrow beside it.
pub proof fn lemma_shared_exclusive_mutual_exclusion(a: RefArena, i: int)
    requires
        a.wf(),
        a.is_entry(i),
    ensures
        a.mut_refs(i) <= 1,
        a.refs(i) > 0 ==> a.mut_refs(i) == 0,
        a.mut_refs(i) == 1 ==> a.refs(i) == 0,
{
    assert(a.entry_inv(i));
}

} // verus!
