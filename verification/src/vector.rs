//! ABI-stable dynamic arrays with an explicit ownership tag.
//!
//! A [`Vector`] carries a contiguous buffer across the foreign-function
//! boundary together with a three-state destruction policy that is decided
//! once, at construction, and consulted exactly once, when the value is
//! deleted.  Raw memory is modelled rather than manipulated: the element
//! storage is held by value, and the buffer address is an abstract token
//! handed out by a [`BufferHeap`], which plays the role of the allocator.
//! This keeps every ownership rule a provable statement instead of an
//! unchecked `unsafe` convention.

use vstd::prelude::*;
use vstd::slice::slice_to_vec;

verus! {

/// How many buffers a heap can hand out, at most.
pub open spec fn max_buffers() -> nat {
    usize::MAX as nat
}

/// The number of `true` entries of a liveness table.
pub open spec fn count_live(s: Seq<bool>) -> nat
    decreases s.len(),
{
    if s.len() == 0 {
        0
    } else {
        count_live(s.drop_last()) + (if s.last() {
            1nat
        } else {
            0nat
        })
    }
}

proof fn lemma_count_live_push(s: Seq<bool>, b: bool)
    ensures
        count_live(s.push(b)) == count_live(s) + (if b {
            1nat
        } else {
            0nat
        }),
{
    assert(s.push(b).drop_last() =~= s);
    assert(s.push(b).last() == b);
}

proof fn lemma_count_live_update_false(s: Seq<bool>, i: int)
    requires
        0 <= i < s.len(),
        s[i],
    ensures
        count_live(s.update(i, false)) + 1 == count_live(s),
    decreases s.len(),
{
    let t = s.update(i, false);
    if i == s.len() - 1 {
        assert(t.drop_last() =~= s.drop_last());
    } else {
        assert(t.drop_last() =~= s.drop_last().update(i, false));
        lemma_count_live_update_false(s.drop_last(), i);
    }
}

proof fn lemma_count_live_pos(s: Seq<bool>, i: int)
    requires
        0 <= i < s.len(),
        s[i],
    ensures
        count_live(s) >= 1,
    decreases s.len(),
{
    if i < s.len() - 1 {
        lemma_count_live_pos(s.drop_last(), i);
    }
}

/// The allocator's view of the world: which buffer addresses have been handed
/// out, which of them are still live, and how many frees have happened.  In
/// a C-ABI deployment this bookkeeping is implicit in the process heap;
/// making it a value lets the absence of double frees be stated and proved,
/// and lets a test count allocations against frees.
pub struct BufferHeap {
    live: Vec<bool>,
    freed: usize,
}

impl BufferHeap {
    /// How many buffers this heap has handed out so far.
    pub closed spec fn alloc_count(self) -> nat {
        self.live@.len()
    }

    /// How many buffers have been given back.
    pub closed spec fn free_count(self) -> nat {
        self.freed as nat
    }

    /// Whether the buffer with address token `i` is currently live.
    pub closed spec fn live_at(self, i: int) -> bool {
        0 <= i < self.live@.len() && self.live@[i]
    }

    pub closed spec fn live_table(self) -> Seq<bool> {
        self.live@
    }

    /// The heap's books balance: every handed-out buffer is either still live
    /// or has been freed, and nothing was freed that was never handed out.
    /// A double free would count one buffer twice and break this equation.
    pub closed spec fn wf(self) -> bool {
        self.freed as nat + count_live(self.live@) == self.live@.len()
    }

    pub fn new() -> (r: BufferHeap)
        ensures
            r.wf(),
            r.alloc_count() == 0,
            r.free_count() == 0,
    {
        BufferHeap { live: Vec::new(), freed: 0 }
    }

    pub fn allocations(&self) -> (r: usize)
        ensures
            r == self.alloc_count(),
    {
        self.live.len()
    }

    pub fn frees(&self) -> (r: usize)
        ensures
            r == self.free_count(),
    {
        self.freed
    }

    /// Hands out a fresh, live buffer address.
    pub(crate) fn allocate(&mut self) -> (id: usize)
        requires
            old(self).wf(),
            old(self).alloc_count() < max_buffers(),
        ensures
            final(self).wf(),
            id == old(self).alloc_count(),
            final(self).live_table() == old(self).live_table().push(true),
            final(self).free_count() == old(self).free_count(),
            final(self).live_at(id as int),
    {
        let id = self.live.len();
        self.live.push(true);
        proof {
            lemma_count_live_push(old(self).live@, true);
        }
        id
    }

    /// Gives a live buffer back.  The address must be live, which is exactly
    /// what rules out freeing the same buffer twice.
    pub(crate) fn free(&mut self, id: usize)
        requires
            old(self).wf(),
            old(self).live_at(id as int),
        ensures
            final(self).wf(),
            final(self).live_table() == old(self).live_table().update(id as int, false),
            final(self).free_count() == old(self).free_count() + 1,
            final(self).alloc_count() == old(self).alloc_count(),
    {
        proof {
            lemma_count_live_pos(self.live@, id as int);
            lemma_count_live_update_false(self.live@, id as int);
        }
        let table_len = self.live.len();
        assert(self.freed < table_len);
        self.live[id] = false;
        self.freed = self.freed + 1;
    }
}

/// Every free returned a buffer that was handed out and still live, so frees
/// can never outnumber allocations; in particular no buffer is ever freed
/// twice.
pub proof fn lemma_frees_bounded_by_allocations(h: BufferHeap)
    requires
        h.wf(),
    ensures
        h.free_count() + count_live(h.live_table()) == h.alloc_count(),
        h.free_count() <= h.alloc_count(),
{
}

/// Who is responsible for freeing a vector's buffer.  Decided once at
/// construction, never changed, consulted exactly once at deletion.  The
/// `External` token stands for the foreign free function that the real
/// system would store as a function pointer.
#[derive(Debug, Clone, Copy, PartialEq, Eq, Structural)]
pub enum VectorDestructor {
    /// The library allocated the buffer and frees it with its own allocator.
    DefaultRust,
    /// The buffer belongs to storage that outlives the vector; never free it.
    NoDestructor,
    /// A caller-supplied free function, identified by an opaque token.
    External(usize),
}

/// The free-function token for buffers this library allocates itself.
pub const LIBRARY_RECLAIM: usize = 0;

/// The sentinel address used for buffers the library does not own.
pub const CONST_BUFFER_PTR: usize = 0;

/// An ABI-stable dynamic array: a buffer address, its elements, and the
/// ownership tag that decides how the buffer dies.  `data` models the bytes
/// behind the foreign pointer; `ptr` is the buffer's address token.
#[derive(Debug, PartialEq)]
pub struct Vector<T> {
    pub data: Vec<T>,
    pub ptr: usize,
    pub destructor: VectorDestructor,
}

impl<T> Vector<T> {
    /// Whether this vector is responsible for freeing its buffer.
    pub open spec fn owns_buffer(self) -> bool {
        !(self.destructor is NoDestructor)
    }

    /// An owning vector's buffer must still be live in the heap; a borrowed
    /// buffer makes no demand on the heap at all.
    pub open spec fn wf_in(self, h: BufferHeap) -> bool {
        self.owns_buffer() ==> h.live_at(self.ptr as int)
    }

    /// Takes ownership of a native vector.  The buffer gets a fresh address
    /// and an external destructor token standing for the generated thunk
    /// that reconstructs and frees the buffer with the allocator it came
    /// from.
    pub fn from_vec(data: Vec<T>, heap: &mut BufferHeap) -> (r: Vector<T>)
        requires
            old(heap).wf(),
            old(heap).alloc_count() < max_buffers(),
        ensures
            final(heap).wf(),
            r.data == data,
            r.destructor == VectorDestructor::External(LIBRARY_RECLAIM),
            r.ptr == old(heap).alloc_count(),
            r.wf_in(*final(heap)),
            final(heap).live_table() == old(heap).live_table().push(true),
            final(heap).free_count() == old(heap).free_count(),
    {
        let ptr = heap.allocate();
        Vector { data, ptr, destructor: VectorDestructor::External(LIBRARY_RECLAIM) }
    }

    /// Wraps a buffer that belongs to somebody else — constant data, or
    /// storage that outlives the vector.  The elements are the snapshot of
    /// that buffer; the tag guarantees the library never frees memory it
    /// does not own.
    pub fn from_const_slice(data: Vec<T>) -> (r: Vector<T>)
        ensures
            r.data == data,
            r.destructor == VectorDestructor::NoDestructor,
            r.ptr == CONST_BUFFER_PTR,
            !r.owns_buffer(),
    {
        Vector { data, ptr: CONST_BUFFER_PTR, destructor: VectorDestructor::NoDestructor }
    }

    pub fn len(&self) -> (r: usize)
        ensures
            r == self.data@.len(),
    {
        self.data.len()
    }

    /// The model keeps no spare capacity: the buffer is exactly as large as
    /// its contents.
    pub fn capacity(&self) -> (r: usize)
        ensures
            r == self.data@.len(),
    {
        self.data.len()
    }

    pub fn is_empty(&self) -> (r: bool)
        ensures
            r == (self.data@.len() == 0),
    {
        self.data.len() == 0
    }

    pub fn ptr_as_usize(&self) -> (r: usize)
        ensures
            r == self.ptr,
    {
        self.ptr
    }

    pub fn get_destructor(&self) -> (r: VectorDestructor)
        ensures
            r == self.destructor,
    {
        self.destructor
    }

    /// An out-of-range index is answered with nothing, never with a panic.
    pub fn get(&self, index: usize) -> (r: Option<&T>)
        ensures
            index < self.data@.len() ==> (match r {
                Option::Some(v) => *v == self.data@[index as int],
                Option::None => false,
            }),
            index >= self.data@.len() ==> r is None,
    {
        if index < self.data.len() {
            Option::Some(&self.data[index])
        } else {
            Option::None
        }
    }

    pub fn as_slice(&self) -> (r: &[T])
        ensures
            r@ == self.data@,
    {
        self.data.as_slice()
    }

    /// Consults the ownership tag — exactly once, because the vector is
    /// consumed.  A borrowed buffer is left alone; an owned buffer is given
    /// back to the heap.
    pub fn delete(self, heap: &mut BufferHeap)
        requires
            old(heap).wf(),
            self.wf_in(*old(heap)),
        ensures
            final(heap).wf(),
            !self.owns_buffer() ==> *final(heap) == *old(heap),
            self.owns_buffer() ==> {
                &&& final(heap).live_table() == old(heap).live_table().update(
                    self.ptr as int,
                    false,
                )
                &&& final(heap).free_count() == old(heap).free_count() + 1
                &&& final(heap).alloc_count() == old(heap).alloc_count()
            },
    {
        match self.destructor {
            VectorDestructor::NoDestructor => {},
            VectorDestructor::DefaultRust => heap.free(self.ptr),
            VectorDestructor::External(_) => heap.free(self.ptr),
        }
    }
}

impl<T: Copy> Vector<T> {
    /// A borrowed buffer is shared: the copy points at the very same
    /// storage.  An owned buffer is copied deep into a fresh allocation,
    /// because two owning vectors over one buffer would free it twice.
    pub fn clone_self(&self, heap: &mut BufferHeap) -> (r: Vector<T>)
        requires
            old(heap).wf(),
            old(heap).alloc_count() < max_buffers(),
            self.wf_in(*old(heap)),
        ensures
            final(heap).wf(),
            r.data@ == self.data@,
            !self.owns_buffer() ==> {
                &&& r.ptr == self.ptr
                &&& r.destructor == self.destructor
                &&& *final(heap) == *old(heap)
            },
            self.owns_buffer() ==> {
                &&& r.ptr != self.ptr
                &&& r.owns_buffer()
                &&& r.wf_in(*final(heap))
                &&& self.wf_in(*final(heap))
                &&& final(heap).live_table() == old(heap).live_table().push(true)
                &&& final(heap).free_count() == old(heap).free_count()
            },
    {
        match self.destructor {
            VectorDestructor::NoDestructor => Vector {
                data: slice_to_vec(self.data.as_slice()),
                ptr: self.ptr,
                destructor: VectorDestructor::NoDestructor,
            },
            VectorDestructor::DefaultRust | VectorDestructor::External(_) => Vector::from_vec(
                slice_to_vec(self.data.as_slice()),
                heap,
            ),
        }
    }
}

/// Once a buffer is gone from the heap, every owning vector that claims it —
/// the deleted one and any aliasing one — is no longer valid, so the model
/// admits no second free of the same buffer.
pub proof fn lemma_dead_buffer_invalidates_owners<T>(v: Vector<T>, h: BufferHeap)
    requires
        v.owns_buffer(),
        !h.live_at(v.ptr as int),
    ensures
        !v.wf_in(h),
{
}

/// `U8Vec`: the byte-buffer instantiation of the vector family.
pub type U8Vec = Vector<u8>;

pub type AzU8Vec = Vector<u8>;

pub type AzU8VecDestructor = VectorDestructor;

} // verus!
