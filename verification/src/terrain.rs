//! The terrain streaming bridge.
//!
//! The authoritative map publishes dirty-chunk notifications through a
//! pull-based subscription. Each frame the bridge drains up to a fixed
//! budget of pending chunks, fetching each chunk's height data and
//! pushing a partial update into the GPU height-field texture; whatever
//! is left stays queued for the next frame, so a burst of map edits is
//! spread across frames instead of stalling one. A notification whose
//! chunk no longer exists ends the drain for this frame: a tolerated
//! map/render desync, not a crash.

use vstd::prelude::*;
use crate::draw::DrawCmd;
use crate::draw::RenderPass;
use crate::gfx::Context;
use crate::gfx::GfxContext;
use crate::gfx::TextureWrite;

verus! {

/// The per-frame chunk-upload budget of debug builds.
pub const UPD_PER_FRAME_DEBUG: usize = 8;

/// The per-frame chunk-upload budget of release builds.
pub const UPD_PER_FRAME_RELEASE: usize = 20;

/// One terrain chunk of the map: its cell coordinate and its height
/// samples (raw 32-bit patterns, passed through to the GPU untouched).
#[derive(Clone, Debug)]
pub struct TerrainChunk {
    pub cell_x: u32,
    pub cell_y: u32,
    pub heights: Vec<u32>,
}

/// The map's terrain as this layer reads it: its size in chunks and the
/// chunks present.
#[derive(Clone, Debug)]
pub struct TerrainMap {
    pub width: u32,
    pub height: u32,
    pub chunks: Vec<TerrainChunk>,
}

/// Whether a chunk with the given cell exists.
pub open spec fn map_has(chunks: Seq<TerrainChunk>, x: u32, y: u32) -> bool {
    exists|i: int| 0 <= i < chunks.len() && chunks[i].cell_x == x && chunks[i].cell_y == y
}

/// The first index of the chunk at the given cell, or `chunks.len()` if
/// absent.
pub open spec fn cell_index(chunks: Seq<TerrainChunk>, x: u32, y: u32) -> int
    decreases chunks.len(),
{
    if chunks.len() == 0 {
        0
    } else if chunks[0].cell_x == x && chunks[0].cell_y == y {
        0
    } else {
        1 + cell_index(chunks.drop_first(), x, y)
    }
}

/// If `chunks[i]` is at the cell and no earlier chunk is, then `i` is the
/// cell's first index.
pub proof fn lemma_cell_index_first(chunks: Seq<TerrainChunk>, x: u32, y: u32, i: int)
    requires
        0 <= i < chunks.len(),
        chunks[i].cell_x == x && chunks[i].cell_y == y,
        forall|j: int| 0 <= j < i ==> !(chunks[j].cell_x == x && chunks[j].cell_y == y),
    ensures
        cell_index(chunks, x, y) == i,
    decreases chunks.len(),
{
    if i > 0 {
        lemma_cell_index_first(chunks.drop_first(), x, y, i - 1);
    }
}

impl TerrainMap {
    /// Look up the chunk at a cell: the first chunk with that cell, or
    /// nothing if the cell is not present.
    pub fn find_chunk(&self, x: u32, y: u32) -> (r: Option<&TerrainChunk>)
        ensures
            (r is Some) == map_has(self.chunks@, x, y),
            r matches Some(c) ==> *c == self.chunks@[cell_index(self.chunks@, x, y)]
                && cell_index(self.chunks@, x, y) < self.chunks@.len(),
    {
        let n = self.chunks.len();
        let mut i: usize = 0;
        while i < n
            invariant
                i <= n,
                n == self.chunks@.len(),
                forall|j: int|
                    0 <= j < i ==> !((#[trigger] self.chunks@[j].cell_x) == x
                        && self.chunks@[j].cell_y == y),
            decreases n - i,
        {
            if self.chunks[i].cell_x == x && self.chunks[i].cell_y == y {
                proof {
                    lemma_cell_index_first(self.chunks@, x, y, i as int);
                }
                return Some(&self.chunks[i]);
            }
            i += 1;
        }
        None
    }
}

/// A cursor over the stream of dirty-chunk notifications published by
/// the map: cells are consumed front to back, one at a time.
pub struct MapSubscriber {
    pub pending: Vec<(u32, u32)>,
    pub cursor: usize,
}

impl MapSubscriber {
    /// The notifications not yet consumed.
    pub open spec fn outstanding(&self) -> Seq<(u32, u32)> {
        self.pending@.skip(self.cursor as int)
    }

    pub open spec fn wf(&self) -> bool {
        self.cursor <= self.pending@.len()
    }

    /// A subscription with nothing pending.
    pub fn new() -> (r: Self)
        ensures
            r.wf(),
            r.outstanding() == Seq::<(u32, u32)>::empty(),
    {
        let r = MapSubscriber { pending: Vec::new(), cursor: 0 };
        proof {
            assert(r.outstanding() =~= Seq::<(u32, u32)>::empty());
        }
        r
    }

    /// The map publishes one dirty-cell notification.
    pub fn push_updated(&mut self, x: u32, y: u32)
        requires
            old(self).wf(),
        ensures
            final(self).wf(),
            final(self).outstanding() == old(self).outstanding().push((x, y)),
    {
        self.pending.push((x, y));
        proof {
            assert(self.outstanding() =~= old(self).outstanding().push((x, y)));
        }
    }

    /// Consume the oldest outstanding notification, if any.
    pub fn take_one_updated_chunk(&mut self) -> (r: Option<(u32, u32)>)
        requires
            old(self).wf(),
        ensures
            final(self).wf(),
            old(self).outstanding().len() == 0 ==> r is None && *final(self) == *old(self),
            old(self).outstanding().len() > 0 ==> {
                &&& r == Some(old(self).outstanding()[0])
                &&& final(self).outstanding() == old(self).outstanding().drop_first()
                &&& final(self).pending == old(self).pending
            },
    {
        if self.cursor < self.pending.len() {
            let c = self.pending[self.cursor];
            self.cursor = self.cursor + 1;
            proof {
                assert(self.outstanding() =~= old(self).outstanding().drop_first());
            }
            Some(c)
        } else {
            None
        }
    }
}

/// How many notifications one drain consumes: cells are taken until the
/// budget of applied uploads is spent, the queue empties, or a cell
/// without a chunk is met (which is consumed, logged and ends the
/// drain).
pub open spec fn drain_consumed(
    pending: Seq<(u32, u32)>,
    chunks: Seq<TerrainChunk>,
    w: u32,
    h: u32,
    budget: int,
) -> int
    decreases pending.len(),
{
    if budget <= 0 || pending.len() == 0 {
        0
    } else {
        let c = pending[0];
        if !map_has(chunks, c.0, c.1) {
            1
        } else if c.0 < w && c.1 < h {
            1 + drain_consumed(pending.drop_first(), chunks, w, h, budget - 1)
        } else {
            1 + drain_consumed(pending.drop_first(), chunks, w, h, budget)
        }
    }
}

/// The partial texture uploads one drain issues, in order: one per
/// consumed cell that has a chunk and lies inside the height-field.
pub open spec fn drain_writes(
    pending: Seq<(u32, u32)>,
    chunks: Seq<TerrainChunk>,
    w: u32,
    h: u32,
    budget: int,
    tex: u64,
) -> Seq<TextureWrite>
    decreases pending.len(),
{
    if budget <= 0 || pending.len() == 0 {
        Seq::empty()
    } else {
        let c = pending[0];
        if !map_has(chunks, c.0, c.1) {
            Seq::empty()
        } else if c.0 < w && c.1 < h {
            seq![
                TextureWrite {
                    texture: tex,
                    cell_x: c.0,
                    cell_y: c.1,
                    samples: chunks[cell_index(chunks, c.0, c.1)].heights@.len() as usize,
                },
            ] + drain_writes(pending.drop_first(), chunks, w, h, budget - 1, tex)
        } else {
            drain_writes(pending.drop_first(), chunks, w, h, budget, tex)
        }
    }
}

/// Law of the drain budget: with every pending cell present in the map
/// and inside the height-field, a drain over a queue at least as long as
/// the budget consumes exactly the budget, uploads exactly those cells
/// in order, and leaves the rest queued.
pub proof fn lemma_drain_budget(
    pending: Seq<(u32, u32)>,
    chunks: Seq<TerrainChunk>,
    w: u32,
    h: u32,
    budget: int,
    tex: u64,
)
    requires
        0 <= budget <= pending.len(),
        forall|i: int|
            0 <= i < pending.len() ==> map_has(chunks, (#[trigger] pending[i]).0, pending[i].1),
        forall|i: int|
            0 <= i < pending.len() ==> (#[trigger] pending[i]).0 < w && pending[i].1 < h,
    ensures
        drain_consumed(pending, chunks, w, h, budget) == budget,
        drain_writes(pending, chunks, w, h, budget, tex).len() == budget,
        forall|i: int|
            0 <= i < budget ==> (#[trigger] drain_writes(pending, chunks, w, h, budget, tex)[i])
                == (TextureWrite {
                texture: tex,
                cell_x: pending[i].0,
                cell_y: pending[i].1,
                samples: chunks[cell_index(chunks, pending[i].0, pending[i].1)].heights@.len()
                    as usize,
            }),
    decreases budget,
{
    if budget > 0 {
        let rest = pending.drop_first();
        assert(map_has(chunks, pending[0].0, pending[0].1));
        assert forall|i: int| 0 <= i < rest.len() implies map_has(
            chunks,
            (#[trigger] rest[i]).0,
            rest[i].1,
        ) && rest[i].0 < w && rest[i].1 < h by {
            assert(rest[i] == pending[i + 1]);
        }
        lemma_drain_budget(rest, chunks, w, h, budget - 1, tex);
        assert forall|i: int|
            0 <= i < budget implies (#[trigger] drain_writes(pending, chunks, w, h, budget, tex)[i])
            == (TextureWrite {
            texture: tex,
            cell_x: pending[i].0,
            cell_y: pending[i].1,
            samples: chunks[cell_index(chunks, pending[i].0, pending[i].1)].heights@.len()
                as usize,
        }) by {
            if i > 0 {
                assert(drain_writes(pending, chunks, w, h, budget, tex)[i] == drain_writes(
                    rest,
                    chunks,
                    w,
                    h,
                    budget - 1,
                    tex,
                )[i - 1]);
                assert(rest[i - 1] == pending[i]);
            }
        }
    }
}

/// The map-facing terrain renderer: the GPU height-field texture, the
/// grass albedo texture, the subscription to map edits, and the
/// per-frame upload budget.
pub struct TerrainRender {
    /// Width of the height-field, in chunks.
    pub width: u32,
    /// Height of the height-field, in chunks.
    pub height: u32,
    pub grass: u64,
    pub height_texture: u64,
    pub terrain_sub: MapSubscriber,
    pub upd_per_frame: usize,
}

impl TerrainRender {
    /// Set up terrain rendering over a `width x height` chunk grid: a
    /// fresh GPU height-field texture, the already-loaded grass texture,
    /// and the map subscription to drain each frame within the given
    /// budget.
    pub fn new(
        gfx: &mut GfxContext,
        width: u32,
        height: u32,
        grass: u64,
        terrain_sub: MapSubscriber,
        upd_per_frame: usize,
    ) -> (r: Self)
        requires
            old(gfx).next_texture_id < u64::MAX,
            terrain_sub.wf(),
        ensures
            r.width == width,
            r.height == height,
            r.grass == grass,
            r.height_texture == old(gfx).next_texture_id,
            r.terrain_sub == terrain_sub,
            r.upd_per_frame == upd_per_frame,
            r.terrain_sub.wf(),
            *final(gfx) == (GfxContext {
                next_texture_id: final(gfx).next_texture_id,
                ..*old(gfx)
            }),
            final(gfx).next_texture_id == old(gfx).next_texture_id + 1,
    {
        let height_texture = gfx.alloc_texture();
        TerrainRender { width, height, grass, height_texture, terrain_sub, upd_per_frame }
    }

    /// Issue the terrain draw of this frame.
    pub fn draw(&self, rp: &mut RenderPass)
        ensures
            final(rp).cmds@ == old(rp).cmds@.push(
                (DrawCmd::DrawTerrain { texture: self.height_texture }),
            ),
    {
        rp.cmds.push(DrawCmd::DrawTerrain { texture: self.height_texture });
    }

    /// Upload one chunk's height data into the height-field texture, if
    /// the cell lies inside it; the result says whether it did.
    pub fn update_chunk(&self, gfx: &mut GfxContext, x: u32, y: u32, heights: &Vec<u32>) -> (r:
        bool)
        ensures
            r == (x < self.width && y < self.height),
            r ==> final(gfx).texture_writes@ == old(gfx).texture_writes@.push(
                (TextureWrite {
                    texture: self.height_texture,
                    cell_x: x,
                    cell_y: y,
                    samples: heights@.len() as usize,
                }),
            ) && *final(gfx) == (GfxContext {
                texture_writes: final(gfx).texture_writes,
                ..*old(gfx)
            }),
            !r ==> *final(gfx) == *old(gfx),
    {
        if x < self.width && y < self.height {
            gfx.texture_writes.push(
                TextureWrite {
                    texture: self.height_texture,
                    cell_x: x,
                    cell_y: y,
                    samples: heights.len(),
                },
            );
            true
        } else {
            false
        }
    }

    /// Drain up to the per-frame budget of dirty chunks from the map
    /// subscription, pushing one partial height-field upload per present,
    /// in-bounds chunk; the rest stay queued for the next frame. A cell
    /// whose chunk is gone ends this frame's drain.
    #[verifier::loop_isolation(true)]
    pub fn update(&mut self, ctx: &mut Context, map: &TerrainMap)
        requires
            old(self).terrain_sub.wf(),
        ensures
            final(self).terrain_sub.wf(),
            *final(self) == (TerrainRender { terrain_sub: final(self).terrain_sub, ..*old(self) }),
            final(self).terrain_sub.pending == old(self).terrain_sub.pending,
            final(self).terrain_sub.outstanding() == old(self).terrain_sub.outstanding().skip(
                drain_consumed(
                    old(self).terrain_sub.outstanding(),
                    map.chunks@,
                    old(self).width,
                    old(self).height,
                    old(self).upd_per_frame as int,
                ),
            ),
            *final(ctx) == (Context {
                gfx: (GfxContext { texture_writes: final(ctx).gfx.texture_writes, ..old(ctx).gfx }),
            }),
            final(ctx).gfx.texture_writes@ == old(ctx).gfx.texture_writes@ + drain_writes(
                old(self).terrain_sub.outstanding(),
                map.chunks@,
                old(self).width,
                old(self).height,
                old(self).upd_per_frame as int,
                old(self).height_texture,
            ),
    {
        let ghost out0 = old(self).terrain_sub.outstanding();
        let ghost budget0 = old(self).upd_per_frame as int;
        let ghost w = old(self).width;
        let ghost h = old(self).height;
        let ghost tex = old(self).height_texture;
        let ghost mut consumed: int = 0;
        let mut update_count: usize = 0;
        loop
            invariant
                self.terrain_sub.wf(),
                *self == (TerrainRender { terrain_sub: self.terrain_sub, ..*old(self) }),
                self.terrain_sub.pending == old(self).terrain_sub.pending,
                update_count <= old(self).upd_per_frame,
                budget0 == old(self).upd_per_frame as int,
                w == old(self).width && h == old(self).height && tex == old(self).height_texture,
                out0 == old(self).terrain_sub.outstanding(),
                0 <= consumed <= out0.len(),
                self.terrain_sub.outstanding() == out0.skip(consumed),
                *ctx == (Context {
                    gfx: (GfxContext { texture_writes: ctx.gfx.texture_writes, ..old(ctx).gfx }),
                }),
                drain_consumed(out0, map.chunks@, w, h, budget0) == consumed + drain_consumed(
                    self.terrain_sub.outstanding(),
                    map.chunks@,
                    w,
                    h,
                    budget0 - update_count,
                ),
                ctx.gfx.texture_writes@ == old(ctx).gfx.texture_writes@ + drain_writes(
                    out0,
                    map.chunks@,
                    w,
                    h,
                    budget0,
                    tex,
                ).take(
                    drain_writes(out0, map.chunks@, w, h, budget0, tex).len() - drain_writes(
                        self.terrain_sub.outstanding(),
                        map.chunks@,
                        w,
                        h,
                        budget0 - update_count,
                        tex,
                    ).len(),
                ),
                drain_writes(out0, map.chunks@, w, h, budget0, tex).len() >= drain_writes(
                    self.terrain_sub.outstanding(),
                    map.chunks@,
                    w,
                    h,
                    budget0 - update_count,
                    tex,
                ).len(),
                drain_writes(out0, map.chunks@, w, h, budget0, tex).skip(
                    drain_writes(out0, map.chunks@, w, h, budget0, tex).len() - drain_writes(
                        self.terrain_sub.outstanding(),
                        map.chunks@,
                        w,
                        h,
                        budget0 - update_count,
                        tex,
                    ).len(),
                ) == drain_writes(
                    self.terrain_sub.outstanding(),
                    map.chunks@,
                    w,
                    h,
                    budget0 - update_count,
                    tex,
                ),
            ensures
                self.terrain_sub.wf(),
                *self == (TerrainRender { terrain_sub: self.terrain_sub, ..*old(self) }),
                self.terrain_sub.pending == old(self).terrain_sub.pending,
                *ctx == (Context {
                    gfx: (GfxContext { texture_writes: ctx.gfx.texture_writes, ..old(ctx).gfx }),
                }),
                self.terrain_sub.outstanding() == out0.skip(
                    drain_consumed(out0, map.chunks@, w, h, budget0),
                ),
                ctx.gfx.texture_writes@ == old(ctx).gfx.texture_writes@ + drain_writes(
                    out0,
                    map.chunks@,
                    w,
                    h,
                    budget0,
                    tex,
                ),
            decreases out0.len() - consumed,
        {
            let ghost dw_all = drain_writes(out0, map.chunks@, w, h, budget0, tex);
            let ghost dw_pre = drain_writes(
                self.terrain_sub.outstanding(),
                map.chunks@,
                w,
                h,
                budget0 - update_count,
                tex,
            );
            if update_count >= self.upd_per_frame {
                proof {
                    assert(dw_pre =~= Seq::<TextureWrite>::empty());
                    assert(dw_all.take(dw_all.len() as int) =~= dw_all);
                }
                break ;
            }
            let ghost out_pre = self.terrain_sub.outstanding();
            let cell = match self.terrain_sub.take_one_updated_chunk() {
                Some(c) => c,
                None => {
                    proof {
                        assert(dw_pre =~= Seq::<TextureWrite>::empty());
                        assert(dw_all.take(dw_all.len() as int) =~= dw_all);
                    }
                    break ;
                },
            };
            let (x, y) = cell;
            proof {
                consumed = consumed + 1;
                assert(self.terrain_sub.outstanding() =~= out0.skip(consumed));
            }
            let ghost b_pre = budget0 - update_count;
            match map.find_chunk(x, y) {
                Some(chunk) => {
                    if self.update_chunk(&mut ctx.gfx, x, y, &chunk.heights) {
                        proof {
                            let dw_now = drain_writes(
                                self.terrain_sub.outstanding(),
                                map.chunks@,
                                w,
                                h,
                                b_pre - 1,
                                tex,
                            );
                            assert(dw_pre == seq![
                                (TextureWrite {
                                    texture: tex,
                                    cell_x: x,
                                    cell_y: y,
                                    samples: map.chunks@[cell_index(
                                        map.chunks@,
                                        x,
                                        y,
                                    )].heights@.len() as usize,
                                }),
                            ] + dw_now);
                            assert(dw_all.take(dw_all.len() - dw_now.len()) =~= dw_all.take(
                                dw_all.len() - dw_pre.len(),
                            ) + seq![dw_pre[0]]);
                            assert(dw_all.skip(dw_all.len() - dw_pre.len()) == dw_pre);
                            assert forall|i: int|
                                0 <= i < dw_now.len() implies dw_all.skip(
                                dw_all.len() - dw_now.len(),
                            )[i] == dw_now[i] by {
                                assert(dw_all.skip(dw_all.len() - dw_pre.len())[i + 1] == dw_pre[i
                                    + 1]);
                                assert(dw_pre[i + 1] == dw_now[i]);
                                assert(dw_all.skip(dw_all.len() - dw_pre.len())[i + 1]
                                    == dw_all[dw_all.len() - dw_pre.len() + i + 1]);
                                assert(dw_all.skip(dw_all.len() - dw_now.len())[i]
                                    == dw_all[dw_all.len() - dw_now.len() + i]);
                            }
                            assert(dw_all.skip(dw_all.len() - dw_now.len()) =~= dw_now);
                            assert(ctx.gfx.texture_writes@ =~= old(ctx).gfx.texture_writes@
                                + dw_all.take(dw_all.len() - dw_now.len()));
                        }
                        update_count = update_count + 1;
                    }
                },
                None => {
                    // the chunk vanished between notification and drain:
                    // tolerated desync, stop for this frame
                    proof {
                        assert(drain_consumed(out_pre, map.chunks@, w, h, b_pre) == 1);
                        assert(dw_pre =~= Seq::<TextureWrite>::empty());
                        assert(dw_all.take(dw_all.len() as int) =~= dw_all);
                        assert(ctx.gfx.texture_writes@ =~= old(ctx).gfx.texture_writes@ + dw_all);
                    }
                    return ;
                },
            }
        }
    }
}

} // verus!
