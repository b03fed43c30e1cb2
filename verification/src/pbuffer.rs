//! The grow-only GPU buffer pool.
//!
//! A [`PBuffer`] owns one resizable GPU buffer. A write re-uploads the
//! data, reallocating the backing buffer only when the new size exceeds
//! the current capacity — grow-only, never shrinking, to amortize
//! reallocation. A buffer that was never written with data has no
//! backing handle, and callers must treat that as "no buffer", not as an
//! error.

use vstd::prelude::*;
use crate::gfx::GfxContext;
use crate::gfx::only_buffer_alloc;

verus! {

/// What a pooled buffer is bound as.
#[derive(Clone, Copy, PartialEq, Eq, Structural, Debug)]
pub enum BufferUsage {
    Vertex,
    Index,
}

/// A grow-only pooled GPU buffer: its usage, the capacity in bytes of the
/// current backing buffer, and the backing buffer handle, if any data was
/// ever uploaded.
#[derive(Clone, Copy, PartialEq, Eq, Structural, Debug)]
pub struct PBuffer {
    pub usage: BufferUsage,
    pub capacity: usize,
    pub buffer: Option<u64>,
}

/// The effect of uploading `n` bytes into a pooled buffer whose next
/// fresh GPU handle would be `fresh_id`: growth reallocates to a buffer
/// of exactly `n` bytes under the fresh handle, anything else leaves the
/// pool entry untouched.
pub open spec fn write_post(pre: PBuffer, post: PBuffer, n: int, fresh_id: int) -> bool {
    if n > pre.capacity {
        post == (PBuffer { usage: pre.usage, capacity: n as usize, buffer: Some(fresh_id as u64) })
    } else {
        post == pre
    }
}

impl PBuffer {
    /// A pool entry with no backing buffer has never held data: its
    /// capacity is zero.
    pub open spec fn wf(&self) -> bool {
        self.buffer is None ==> self.capacity == 0
    }

    /// An empty pool entry: no backing buffer yet.
    pub fn new(usage: BufferUsage) -> (r: Self)
        ensures
            r.usage == usage,
            r.capacity == 0,
            r.buffer is None,
    {
        PBuffer { usage, capacity: 0, buffer: None }
    }

    /// Upload `data`, reallocating the backing buffer if `data` exceeds
    /// the current capacity. On reallocation the new backing buffer is a
    /// fresh GPU allocation sized exactly to `data`; otherwise the
    /// backing buffer (and the context) is untouched.
    pub fn write(&mut self, gfx: &mut GfxContext, data: &Vec<u8>)
        requires
            old(gfx).next_buffer_id < u64::MAX,
        ensures
            write_post(*old(self), *final(self), data@.len() as int, old(gfx).next_buffer_id as int),
            only_buffer_alloc(*old(gfx), *final(gfx)),
            data@.len() > old(self).capacity ==> final(gfx).next_buffer_id == old(
                gfx,
            ).next_buffer_id + 1,
            data@.len() <= old(self).capacity ==> *final(gfx) == *old(gfx),
            final(self).buffer is Some <==> (old(self).buffer is Some || data@.len() > old(
                self,
            ).capacity),
    {
        if data.len() > self.capacity {
            let id = gfx.alloc_buffer();
            self.capacity = data.len();
            self.buffer = Some(id);
        }
    }

    /// The current backing buffer handle, or nothing if no data was ever
    /// uploaded.
    pub fn inner(&self) -> (r: Option<u64>)
        ensures
            r == self.buffer,
    {
        self.buffer
    }
}

} // verus!
