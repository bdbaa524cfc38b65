//! Capacity bookkeeping of typed GPU buffers.
//!
//! A GPU buffer holds room for `capacity` elements. Writes must fit in that
//! room; growing allocates a new buffer for exactly the needed number of
//! elements (old contents are not kept). The buffer object itself (`B`) is
//! only carried.

use vstd::prelude::*;

verus! {

/// Bytes taken by `count` elements of `elem_size` bytes, when that is
/// nonzero and fits in a `usize`.
pub open spec fn spec_byte_len(count: usize, elem_size: usize) -> Option<usize> {
    if count * elem_size <= usize::MAX && count * elem_size > 0 {
        Some((count * elem_size) as usize)
    } else {
        None
    }
}

pub fn buffer_byte_len(count: usize, elem_size: usize) -> (r: Option<usize>)
    ensures
        r == spec_byte_len(count, elem_size),
{
    match count.checked_mul(elem_size) {
        Some(n) => {
            if n > 0 {
                Some(n)
            } else {
                None
            }
        },
        None => None,
    }
}

/// A GPU buffer with room for `capacity` elements.
pub struct GpuBuffer<B> {
    buffer: B,
    capacity: usize,
}

impl<B> GpuBuffer<B> {
    pub closed spec fn spec_capacity(&self) -> usize {
        self.capacity
    }

    pub closed spec fn spec_buffer(&self) -> B {
        self.buffer
    }

    /// Wrap a freshly allocated buffer with room for `capacity` elements.
    pub fn from_allocation(buffer: B, capacity: usize) -> (r: GpuBuffer<B>)
        ensures
            r.spec_buffer() == buffer,
            r.spec_capacity() == capacity,
    {
        GpuBuffer { buffer, capacity }
    }

    /// Room, in elements.
    pub fn capacity(&self) -> (c: usize)
        ensures
            c == self.spec_capacity(),
    {
        self.capacity
    }

    /// The underlying buffer object.
    pub fn metal_buffer(&self) -> (b: &B)
        ensures
            *b == self.spec_buffer(),
    {
        &self.buffer
    }

    /// Whether `len` elements written from element `offset` on fit.
    pub fn fits(&self, offset: usize, len: usize) -> (r: bool)
        ensures
            r == (offset + len <= self.spec_capacity()),
    {
        offset <= self.capacity && len <= self.capacity - offset
    }

    /// Byte offset and byte length of a write of `len` elements at element
    /// `offset`, for elements of `elem_size` bytes.
    pub fn write_range(&self, offset: usize, len: usize, elem_size: usize) -> (r: (usize, usize))
        requires
            offset + len <= self.spec_capacity(),
            self.spec_capacity() * elem_size <= usize::MAX,
        ensures
            r.0 == offset * elem_size,
            r.1 == len * elem_size,
            r.0 + r.1 <= self.spec_capacity() * elem_size,
    {
        proof {
            assert((offset + len) * elem_size <= self.capacity * elem_size) by (nonlinear_arith)
                requires
                    offset + len <= self.capacity,
            ;
            assert((offset + len) * elem_size == offset * elem_size + len * elem_size) by (nonlinear_arith);
            assert(offset * elem_size >= 0 && len * elem_size >= 0) by (nonlinear_arith);
        }
        (offset * elem_size, len * elem_size)
    }

    /// What growing to `needed` elements asks for: `None` when the room
    /// already suffices or the byte size is 0 or too large, else the byte
    /// length of the new buffer.
    pub fn growth_request(&self, needed: usize, elem_size: usize) -> (r: Option<usize>)
        ensures
            r == if self.spec_capacity() >= needed {
                None
            } else {
                spec_byte_len(needed, elem_size)
            },
    {
        if self.capacity >= needed {
            return None;
        }
        buffer_byte_len(needed, elem_size)
    }

    /// Install a newly allocated buffer with room for `capacity` elements.
    pub fn replace(&mut self, buffer: B, capacity: usize)
        ensures
            final(self).spec_buffer() == buffer,
            final(self).spec_capacity() == capacity,
    {
        self.buffer = buffer;
        self.capacity = capacity;
    }
}

} // verus!
