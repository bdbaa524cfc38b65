//! 2D raster batches (menus, HUD) accumulated over a frame, and the choice
//! of texture each batch is drawn with.

use vstd::prelude::*;

use crate::slotmap::{spec_find, SlotMap};
use crate::types::ResourceHandle;

verus! {

/// Triangles sharing one texture.
pub struct RasterBatch<V> {
    pub texture: ResourceHandle,
    pub vertices: Vec<V>,
}

/// Append a batch of triangles drawn with `texture`.
pub fn push_tri_batch<V: Copy>(batches: &mut Vec<RasterBatch<V>>, texture: ResourceHandle, vertices: &[V])
    ensures
        final(batches)@.len() == old(batches)@.len() + 1,
        final(batches)@.drop_last() == old(batches)@,
        final(batches)@.last().texture == texture,
        final(batches)@.last().vertices@ == vertices@,
{
    let mut copy: Vec<V> = Vec::new();
    let mut i: usize = 0;
    while i < vertices.len()
        invariant
            0 <= i <= vertices@.len(),
            copy@ == vertices@.take(i as int),
        decreases vertices@.len() - i,
    {
        copy.push(vertices[i]);
        proof {
            assert(vertices@.take(i + 1) =~= vertices@.take(i as int).push(vertices@[i as int]));
        }
        i += 1;
    }
    proof {
        assert(vertices@.take(vertices@.len() as int) =~= vertices@);
    }
    batches.push(RasterBatch { texture, vertices: copy });
    proof {
        assert(batches@.drop_last() =~= old(batches)@);
    }
}

/// Append line vertices.
pub fn push_lines<V: Copy>(line_buf: &mut Vec<V>, vertices: &[V])
    ensures
        final(line_buf)@ == old(line_buf)@ + vertices@,
{
    let ghost start = line_buf@;
    let mut i: usize = 0;
    while i < vertices.len()
        invariant
            0 <= i <= vertices@.len(),
            line_buf@ == start + vertices@.take(i as int),
        decreases vertices@.len() - i,
    {
        line_buf.push(vertices[i]);
        proof {
            assert(vertices@.take(i + 1) =~= vertices@.take(i as int).push(vertices@[i as int]));
            assert(line_buf@ =~= start + vertices@.take(i + 1));
        }
        i += 1;
    }
    proof {
        assert(vertices@.take(vertices@.len() as int) =~= vertices@);
    }
}

/// The texture a batch is drawn with: the one its handle names, or the
/// fallback when the handle is null or names nothing.
pub fn batch_texture<'a, T>(slotmap: &'a SlotMap<T>, handle: ResourceHandle, fallback: &'a T) -> (t: &'a T)
    requires
        slotmap.wf(),
    ensures
        *t == match spec_find(slotmap@, handle) {
            Some(x) => x,
            None => *fallback,
        },
{
    if handle.is_valid() {
        match slotmap.find(handle) {
            Some(x) => x,
            None => fallback,
        }
    } else {
        fallback
    }
}

} // verus!
