//! A descriptor for a vector's backing buffer, for handing sequence data
//! across an in-process boundary: a heap-allocated snapshot of the buffer's
//! address, length, and capacity, paired with a destructor that reclaims
//! only that snapshot allocation.

use vstd::prelude::*;

verus! {

/// A snapshot of a vector's backing buffer, taken at construction time:
/// the address of its first element, the number of valid elements, and the
/// number of allocated element slots.
///
/// The descriptor does not own the buffer and is not kept in sync with the
/// originating vector: it stays meaningful only while that vector is alive
/// and has not been mutated in a way that could move its buffer. The ghost
/// `elems` field records what the buffer held when the snapshot was taken.
pub struct ConstVec<T> {
    /// Address of the first element of the buffer; never 0. For a vector
    /// that has allocated nothing it is a well-aligned sentinel address
    /// that must not be dereferenced.
    pub ptr: usize,
    /// Number of valid elements in the buffer at construction time.
    pub len: usize,
    /// Number of allocated element slots at construction time.
    pub cap: usize,
    /// Ghost record of the buffer's elements at construction time.
    pub elems: Ghost<Seq<T>>,
}

impl<T> ConstVec<T> {
    /// A descriptor is well formed when its length does not exceed its
    /// capacity, its address is not null, and its ghost element record
    /// has exactly `len` elements.
    pub open spec fn wf(self) -> bool {
        self.len <= self.cap && self.ptr != 0 && self.elems@.len() == self.len
    }
}

/// Relies on `Vec::as_ptr`: it returns the vector's buffer pointer, or a
/// dangling, well-aligned pointer when the vector has not allocated; either
/// way the pointer is never null, so the address is never 0.
#[verifier::external_body]
fn vec_data_address<T>(vec: &Vec<T>) -> (addr: usize)
    ensures
        addr != 0,
{
    vec.as_ptr() as usize
}

/// Relies on `Vec::capacity`: it returns the number of elements the vector
/// can hold without reallocating, which is never below its length.
#[verifier::external_body]
fn vec_capacity<T>(vec: &Vec<T>) -> (cap: usize)
    ensures
        cap >= vec@.len(),
{
    vec.capacity()
}

/// Builds a heap-allocated descriptor recording the address, length, and
/// capacity of `vec`'s backing buffer at the time of the call. Ownership of
/// the descriptor allocation passes to the caller; the buffer itself stays
/// owned by `vec`, which the call does not touch.
pub fn vec_to_const_vec<T>(vec: &Vec<T>) -> (descriptor: Box<ConstVec<T>>)
    ensures
        descriptor.wf(),
        descriptor.len == vec@.len(),
        descriptor.elems@ == vec@,
{
    Box::new(ConstVec::<T> {
        ptr: vec_data_address(vec),
        len: vec.len(),
        cap: vec_capacity(vec),
        elems: Ghost(vec@),
    })
}

/// Destroys a descriptor handle, reclaiming the heap allocation that holds
/// the descriptor itself. The underlying buffer is untouched: the
/// descriptor never owned it. The handle is consumed by value, so a second
/// destroy of the same handle cannot be written.
pub fn const_vec_destroy<T>(vec: Box<ConstVec<T>>) {
    let _ = vec;
}

} // verus!
