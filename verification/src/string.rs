//! The ABI-stable string: a byte vector holding UTF-8, with the same
//! ownership tag as every other buffer of the container family.

use vstd::prelude::*;
use vstd::slice::slice_to_vec;
use vstd::utf8::encode_utf8;

use crate::vector::BufferHeap;
use crate::vector::U8Vec;
use crate::vector::Vector;
use crate::vector::VectorDestructor;

verus! {

/// A string passed across the foreign-function boundary: UTF-8 bytes in an
/// ownership-tagged buffer.
#[derive(Debug, PartialEq)]
pub struct AzString {
    pub vec: U8Vec,
}

impl AzString {
    /// The bytes this string holds.
    pub open spec fn bytes(self) -> Seq<u8> {
        self.vec.data@
    }

    /// Takes ownership of a native string: its UTF-8 bytes move into a
    /// freshly owned buffer.
    pub fn from_string(s: String, heap: &mut BufferHeap) -> (r: AzString)
        requires
            old(heap).wf(),
            old(heap).alloc_count() < crate::vector::max_buffers(),
        ensures
            final(heap).wf(),
            r.bytes() == encode_utf8(s@),
            r.vec.owns_buffer(),
            r.vec.wf_in(*final(heap)),
            final(heap).live_table() == old(heap).live_table().push(true),
            final(heap).free_count() == old(heap).free_count(),
    {
        let bytes: Vec<u8> = slice_to_vec(s.as_str().as_bytes());
        AzString { vec: Vector::from_vec(bytes, heap) }
    }

    /// Wraps a string constant: the buffer belongs to the program image, so
    /// the tag guarantees it is never freed.
    pub fn from_const_str(s: &str) -> (r: AzString)
        ensures
            r.bytes() == encode_utf8(s@),
            !r.vec.owns_buffer(),
            r.vec.destructor == VectorDestructor::NoDestructor,
    {
        let bytes: Vec<u8> = slice_to_vec(s.as_bytes());
        AzString { vec: Vector::from_const_slice(bytes) }
    }

    pub fn as_bytes(&self) -> (r: &[u8])
        ensures
            r@ == self.bytes(),
    {
        self.vec.as_slice()
    }

    pub fn len(&self) -> (r: usize)
        ensures
            r == self.bytes().len(),
    {
        self.vec.len()
    }
}

} // verus!
