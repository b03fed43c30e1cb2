//! The per-frame draw dispatcher.
//!
//! A [`RenderPass`] records the bind, pipeline and draw commands a pass
//! issues, in order. Drawing a mesh binds the frame resources and the
//! mesh's shared buffer pair once, then issues one indexed draw per
//! material run; the depth pass resolves a pipeline variant per run from
//! the material's transparency and the shadow-cascade target, and binds
//! material data only for alpha-tested runs.

use vstd::prelude::*;
use crate::gfx::GfxContext;
use crate::gfx::Material;
use crate::gfx::sat_add64;
use crate::mesh::Mesh;
use crate::gfx::MaterialID;
use crate::mesh::run_offset;
use crate::mesh::lemma_run_offset_mono;
use crate::pipeline::CompiledPipeline;
use crate::pipeline::MeshPipeline;
use crate::pipeline::PipelineKey;
use crate::pipeline::cache_has;
use crate::pipeline::key_index;
use crate::vertex::Matrix4;

verus! {

/// One recorded command of a render pass.
#[derive(Clone, Copy, PartialEq, Eq, Structural, Debug)]
pub enum DrawCmd {
    SetPipeline { pipeline: usize },
    SetBindGroup { slot: u32, bind_group: u64 },
    SetVertexBuffer { slot: u32, buffer: u64 },
    SetIndexBuffer { buffer: u64 },
    /// One indexed draw over the half-open index range `start..end`.
    DrawIndexed { start: u32, end: u32 },
    /// The terrain height-field draw of the map renderer.
    DrawTerrain { texture: u64 },
}

/// A render pass under recording.
pub struct RenderPass {
    pub cmds: Vec<DrawCmd>,
}

impl RenderPass {
    /// An empty pass.
    pub fn new() -> (r: Self)
        ensures
            r.cmds@.len() == 0,
    {
        RenderPass { cmds: Vec::new() }
    }
}

/// The pipeline key of the plain opaque lit-mesh variant used by the
/// color pass.
pub open spec fn color_key() -> PipelineKey {
    PipelineKey::Mesh(MeshPipeline { instanced: false, alpha: false, smap: false, depth: false })
}

/// The depth-pass pipeline key for a run of material `m`, targeting a
/// shadow cascade iff `smap`.
pub open spec fn depth_key(m: Material, smap: bool) -> PipelineKey {
    PipelineKey::Mesh(MeshPipeline { instanced: false, alpha: m.transparent, smap, depth: true })
}

/// The commands a color pass emits before any run: frame parameters and
/// lighting bind groups, then the mesh's shared vertex/index buffers,
/// bound once per mesh.
pub open spec fn color_setup_cmds(m: Mesh, pre: GfxContext) -> Seq<DrawCmd> {
    seq![
        DrawCmd::SetBindGroup { slot: 1, bind_group: pre.render_params_bg },
        DrawCmd::SetBindGroup { slot: 3, bind_group: pre.simplelit_bg },
        DrawCmd::SetVertexBuffer { slot: 0, buffer: m.vertex_buffer },
        DrawCmd::SetIndexBuffer { buffer: m.index_buffer },
    ]
}

/// The commands the color pass emits for run `j`: pipeline, material bind
/// group at slot 2, one indexed draw over the run's range.
pub open spec fn color_run_cmds(
    runs: Seq<(MaterialID, u32)>,
    mats: Seq<Material>,
    pipe: int,
    j: int,
) -> Seq<DrawCmd> {
    seq![
        DrawCmd::SetPipeline { pipeline: pipe as usize },
        DrawCmd::SetBindGroup { slot: 2, bind_group: mats[runs[j].0 as int].bg },
        DrawCmd::DrawIndexed {
            start: run_offset(runs, j) as u32,
            end: (run_offset(runs, j) + runs[j].1) as u32,
        },
    ]
}

/// The color-pass commands of the first `k` runs.
pub open spec fn color_cmds_upto(
    runs: Seq<(MaterialID, u32)>,
    mats: Seq<Material>,
    pipe: int,
    k: int,
) -> Seq<DrawCmd>
    decreases k,
{
    if k <= 0 {
        Seq::empty()
    } else {
        color_cmds_upto(runs, mats, pipe, k - 1) + color_run_cmds(runs, mats, pipe, k - 1)
    }
}

/// The commands a depth pass emits before any run: the mesh's shared
/// buffer pair.
pub open spec fn depth_setup_cmds(m: Mesh) -> Seq<DrawCmd> {
    seq![
        DrawCmd::SetVertexBuffer { slot: 0, buffer: m.vertex_buffer },
        DrawCmd::SetIndexBuffer { buffer: m.index_buffer },
    ]
}

/// The commands the depth pass emits for run `j`: the variant pipeline
/// for the run's material, the material bind group only when the
/// material is alpha-tested (opaque depth geometry needs no material
/// data), and one indexed draw.
pub open spec fn depth_run_cmds(
    runs: Seq<(MaterialID, u32)>,
    mats: Seq<Material>,
    entries: Seq<CompiledPipeline>,
    smap: bool,
    j: int,
) -> Seq<DrawCmd> {
    let m = mats[runs[j].0 as int];
    seq![
        DrawCmd::SetPipeline { pipeline: key_index(entries, depth_key(m, smap)) as usize },
    ] + (if m.transparent {
        seq![DrawCmd::SetBindGroup { slot: 1, bind_group: m.bg }]
    } else {
        Seq::empty()
    }) + seq![
        DrawCmd::DrawIndexed {
            start: run_offset(runs, j) as u32,
            end: (run_offset(runs, j) + runs[j].1) as u32,
        },
    ]
}

/// The depth-pass commands of the first `k` runs, with pipeline indices
/// resolved against `entries`.
pub open spec fn depth_cmds_upto(
    runs: Seq<(MaterialID, u32)>,
    mats: Seq<Material>,
    entries: Seq<CompiledPipeline>,
    smap: bool,
    k: int,
) -> Seq<DrawCmd>
    decreases k,
{
    if k <= 0 {
        Seq::empty()
    } else {
        depth_cmds_upto(runs, mats, entries, smap, k - 1) + depth_run_cmds(
            runs,
            mats,
            entries,
            smap,
            k - 1,
        )
    }
}

/// Triangles drawn by the first `k` runs (each run draws its index count
/// divided by three).
pub open spec fn tri_upto(runs: Seq<(MaterialID, u32)>, k: int) -> int
    decreases k,
{
    if k <= 0 {
        0
    } else {
        tri_upto(runs, k - 1) + runs[k - 1].1 / 3
    }
}

/// Triangle partial sums are non-negative.
pub proof fn lemma_tri_upto_nonneg(runs: Seq<(MaterialID, u32)>, k: int)
    ensures
        tri_upto(runs, k) >= 0,
    decreases k,
{
    if k > 0 {
        lemma_tri_upto_nonneg(runs, k - 1);
    }
}

/// A present key keeps its first index when the cache is extended.
pub proof fn lemma_key_index_props(entries: Seq<CompiledPipeline>, key: PipelineKey)
    requires
        cache_has(entries, key),
    ensures
        0 <= key_index(entries, key) < entries.len(),
        entries[key_index(entries, key)].key == key,
        forall|j: int| 0 <= j < key_index(entries, key) ==> entries[j].key != key,
    decreases entries.len(),
{
    if entries.len() > 0 {
        if entries[0].key != key {
            let i = choose|i: int| 0 <= i < entries.len() && entries[i].key == key;
            assert(entries.drop_first()[i - 1].key == key);
            lemma_key_index_props(entries.drop_first(), key);
            assert forall|j: int| 0 <= j < key_index(entries, key) implies entries[j].key
                != key by {
                if j > 0 {
                    assert(entries.drop_first()[j - 1].key != key);
                }
            }
        }
    }
}

/// Extending a cache in which `key` is present does not move `key`.
pub proof fn lemma_key_index_extend(
    pre: Seq<CompiledPipeline>,
    post: Seq<CompiledPipeline>,
    key: PipelineKey,
)
    requires
        post.len() >= pre.len(),
        post.take(pre.len() as int) == pre,
        cache_has(pre, key),
    ensures
        cache_has(post, key),
        key_index(post, key) == key_index(pre, key),
{
    lemma_key_index_props(pre, key);
    let ki = key_index(pre, key);
    assert(post[ki] == post.take(pre.len() as int)[ki]);
    assert forall|j: int| 0 <= j < ki implies post[j].key != key by {
        assert(post[j] == post.take(pre.len() as int)[j]);
    }
    assert(cache_has(post, key));
    crate::pipeline::lemma_key_index_first(post, key, ki);
}

/// Depth-pass commands do not change when the cache is extended, as long
/// as every key they resolve is already present.
pub proof fn lemma_depth_cmds_stable(
    runs: Seq<(MaterialID, u32)>,
    mats: Seq<Material>,
    e1: Seq<CompiledPipeline>,
    e2: Seq<CompiledPipeline>,
    smap: bool,
    k: int,
)
    requires
        e2.len() >= e1.len(),
        e2.take(e1.len() as int) == e1,
        k <= runs.len(),
        forall|j: int| 0 <= j < runs.len() ==> (#[trigger] runs[j].0 as int) < mats.len(),
        forall|j: int|
            0 <= j < k ==> cache_has(e1, depth_key(mats[#[trigger] runs[j].0 as int], smap)),
    ensures
        depth_cmds_upto(runs, mats, e2, smap, k) == depth_cmds_upto(runs, mats, e1, smap, k),
    decreases k,
{
    if k > 0 {
        lemma_depth_cmds_stable(runs, mats, e1, e2, smap, k - 1);
        lemma_key_index_extend(e1, e2, depth_key(mats[runs[k - 1].0 as int], smap));
    }
}

/// How a draw call may change the pipeline cache: on a hit it is
/// untouched, on a miss exactly the missing key is compiled and appended.
pub open spec fn cache_resolved(
    pre: crate::pipeline::PipelineCache,
    post: crate::pipeline::PipelineCache,
    key: PipelineKey,
) -> bool {
    &&& cache_has(post.entries@, key)
    &&& if cache_has(pre.entries@, key) {
        post == pre
    } else {
        &&& post.entries@.len() == pre.entries@.len() + 1
        &&& post.entries@.take(pre.entries@.len() as int) == pre.entries@
        &&& post.entries@.last().key == key
        &&& post.build_count == pre.build_count + 1
    }
}

impl Mesh {
    /// Every material a run refers to is registered in the context.
    pub open spec fn materials_resolve(&self, gfx: GfxContext) -> bool {
        forall|j: int|
            0 <= j < self.materials@.len() ==> (#[trigger] self.materials@[j].0 as int)
                < gfx.materials@.len()
    }

    /// Draw this mesh in the color pass.
    ///
    /// Binds the per-frame and lighting groups and the mesh's buffer pair
    /// once, then for each material run resolves the plain opaque lit
    /// pipeline, binds the run's material at slot 2 and issues one
    /// indexed draw over the run's index range. Telemetry gains one
    /// triangle per three indices drawn.
    pub fn draw(&self, gfx: &mut GfxContext, rp: &mut RenderPass)
        requires
            self.wf(),
            old(gfx).wf(),
            self.materials_resolve(*old(gfx)),
        ensures
            final(gfx).wf(),
            *final(gfx) == (GfxContext {
                cache: final(gfx).cache,
                perf: final(gfx).perf,
                ..*old(gfx)
            }),
            self.materials@.len() == 0 ==> final(gfx).cache == old(gfx).cache,
            self.materials@.len() > 0 ==> cache_resolved(
                old(gfx).cache,
                final(gfx).cache,
                color_key(),
            ),
            final(rp).cmds@ == old(rp).cmds@ + color_setup_cmds(*self, *old(gfx))
                + color_cmds_upto(
                self.materials@,
                old(gfx).materials@,
                key_index(final(gfx).cache.entries@, color_key()),
                self.materials@.len() as int,
            ),
            final(gfx).perf.triangles == sat_add64(
                old(gfx).perf.triangles as int,
                tri_upto(self.materials@, self.materials@.len() as int),
            ),
            final(gfx).perf.depth_triangles == old(gfx).perf.depth_triangles,
            final(gfx).perf.depth_shadow_triangles == old(gfx).perf.depth_shadow_triangles,
    {
        rp.cmds.push(DrawCmd::SetBindGroup { slot: 1, bind_group: gfx.render_params_bg });
        rp.cmds.push(DrawCmd::SetBindGroup { slot: 3, bind_group: gfx.simplelit_bg });
        rp.cmds.push(DrawCmd::SetVertexBuffer { slot: 0, buffer: self.vertex_buffer });
        rp.cmds.push(DrawCmd::SetIndexBuffer { buffer: self.index_buffer });
        proof {
            assert(rp.cmds@ =~= old(rp).cmds@ + color_setup_cmds(*self, *old(gfx)));
        }

        let runs = self.iter_materials();
        let n = runs.len();
        let mut k: usize = 0;
        while k < n
            invariant
                k <= n,
                n == self.materials@.len(),
                self.wf(),
                old(gfx).wf(),
                self.materials_resolve(*old(gfx)),
                runs@.len() == n,
                forall|j: int|
                    0 <= j < n ==> #[trigger] runs@[j] == (
                        self.materials@[j].0,
                        run_offset(self.materials@, j) as u32,
                        self.materials@[j].1,
                    ),
                gfx.wf(),
                *gfx == (GfxContext { cache: gfx.cache, perf: gfx.perf, ..*old(gfx) }),
                k == 0 ==> gfx.cache == old(gfx).cache,
                k > 0 ==> cache_resolved(old(gfx).cache, gfx.cache, color_key()),
                rp.cmds@ == old(rp).cmds@ + color_setup_cmds(*self, *old(gfx)) + color_cmds_upto(
                    self.materials@,
                    old(gfx).materials@,
                    key_index(gfx.cache.entries@, color_key()),
                    k as int,
                ),
                gfx.perf.triangles == sat_add64(
                    old(gfx).perf.triangles as int,
                    tri_upto(self.materials@, k as int),
                ),
                gfx.perf.depth_triangles == old(gfx).perf.depth_triangles,
                gfx.perf.depth_shadow_triangles == old(gfx).perf.depth_shadow_triangles,
            decreases n - k,
        {
            let ghost pre_cache = gfx.cache;
            let key = PipelineKey::Mesh(
                MeshPipeline { instanced: false, alpha: false, smap: false, depth: false },
            );
            let pipe = gfx.get_pipeline(key);
            proof {
                if k > 0 {
                    assert(cache_has(pre_cache.entries@, color_key()));
                    assert(gfx.cache == pre_cache);
                }
                lemma_tri_upto_nonneg(self.materials@, k as int);
            }
            let (mat_id, offset, length) = runs[k];
            let mat_bg = gfx.material(mat_id).bg;
            let ghost pre_cmds = rp.cmds@;
            rp.cmds.push(DrawCmd::SetPipeline { pipeline: pipe });
            rp.cmds.push(DrawCmd::SetBindGroup { slot: 2, bind_group: mat_bg });
            proof {
                lemma_run_offset_mono(self.materials@, k as int);
                lemma_run_offset_mono(self.materials@, k + 1 as int);
            }
            rp.cmds.push(DrawCmd::DrawIndexed { start: offset, end: offset + length });
            gfx.perf.drawcall(length / 3);
            proof {
                let pidx = key_index(gfx.cache.entries@, color_key());
                assert(pipe as int == pidx);
                assert(mat_id == self.materials@[k as int].0);
                assert(mat_bg == old(gfx).materials@[mat_id as int].bg);
                assert(offset as int == run_offset(self.materials@, k as int));
                assert(color_run_cmds(self.materials@, old(gfx).materials@, pidx, k as int)
                    =~= seq![
                    DrawCmd::SetPipeline { pipeline: pipe },
                    DrawCmd::SetBindGroup { slot: 2, bind_group: mat_bg },
                    DrawCmd::DrawIndexed { start: offset, end: (offset + length) as u32 },
                ]);
                assert(rp.cmds@ =~= pre_cmds + color_run_cmds(
                    self.materials@,
                    old(gfx).materials@,
                    pidx,
                    k as int,
                ));
                assert(pre_cmds =~= old(rp).cmds@ + color_setup_cmds(*self, *old(gfx))
                    + color_cmds_upto(self.materials@, old(gfx).materials@, pidx, k as int));
                assert(color_cmds_upto(self.materials@, old(gfx).materials@, pidx, k + 1 as int)
                    == color_cmds_upto(self.materials@, old(gfx).materials@, pidx, k as int)
                    + color_run_cmds(self.materials@, old(gfx).materials@, pidx, k as int));
                assert(rp.cmds@ =~= old(rp).cmds@ + color_setup_cmds(*self, *old(gfx))
                    + color_cmds_upto(self.materials@, old(gfx).materials@, pidx, k + 1 as int));
            }
            k += 1;
        }
    }

    /// Draw this mesh in a depth or shadow pass.
    ///
    /// A mesh flagged to skip the depth pass issues nothing at all. For
    /// each run the pipeline variant is keyed by the material's
    /// transparency and by whether a shadow cascade is targeted; only
    /// alpha-tested runs bind their material (to sample for discard).
    /// Telemetry gains one depth triangle per three indices drawn,
    /// tagged shadow or not.
    pub fn draw_depth(&self, gfx: &mut GfxContext, rp: &mut RenderPass, shadow_cascade: Option<
        &Matrix4,
    >)
        requires
            self.wf(),
            old(gfx).wf(),
            self.materials_resolve(*old(gfx)),
        ensures
            final(gfx).wf(),
            self.skip_depth ==> *final(gfx) == *old(gfx) && final(rp).cmds@ == old(rp).cmds@,
            *final(gfx) == (GfxContext {
                cache: final(gfx).cache,
                perf: final(gfx).perf,
                ..*old(gfx)
            }),
            !self.skip_depth ==> {
                &&& final(gfx).cache.entries@.len() >= old(gfx).cache.entries@.len()
                &&& final(gfx).cache.entries@.take(old(gfx).cache.entries@.len() as int) == old(
                    gfx,
                ).cache.entries@
                &&& forall|i: int|
                    old(gfx).cache.entries@.len() <= i < final(gfx).cache.entries@.len()
                        ==> exists|j: int|
                        0 <= j < self.materials@.len()
                            && (#[trigger] final(gfx).cache.entries@[i].key) == depth_key(
                            old(gfx).materials@[self.materials@[j].0 as int],
                            shadow_cascade is Some,
                        )
                &&& forall|j: int|
                    0 <= j < self.materials@.len() ==> cache_has(
                        final(gfx).cache.entries@,
                        depth_key(
                            old(gfx).materials@[#[trigger] self.materials@[j].0 as int],
                            shadow_cascade is Some,
                        ),
                    )
                &&& final(rp).cmds@ == old(rp).cmds@ + depth_setup_cmds(*self) + depth_cmds_upto(
                    self.materials@,
                    old(gfx).materials@,
                    final(gfx).cache.entries@,
                    shadow_cascade is Some,
                    self.materials@.len() as int,
                )
                &&& shadow_cascade is Some ==> final(gfx).perf.depth_shadow_triangles == sat_add64(
                    old(gfx).perf.depth_shadow_triangles as int,
                    tri_upto(self.materials@, self.materials@.len() as int),
                ) && final(gfx).perf.depth_triangles == old(gfx).perf.depth_triangles
                &&& shadow_cascade is None ==> final(gfx).perf.depth_triangles == sat_add64(
                    old(gfx).perf.depth_triangles as int,
                    tri_upto(self.materials@, self.materials@.len() as int),
                ) && final(gfx).perf.depth_shadow_triangles == old(gfx).perf.depth_shadow_triangles
            },
            final(gfx).perf.triangles == old(gfx).perf.triangles,
    {
        if self.skip_depth {
            return ;
        }
        let smap = shadow_cascade.is_some();
        rp.cmds.push(DrawCmd::SetVertexBuffer { slot: 0, buffer: self.vertex_buffer });
        rp.cmds.push(DrawCmd::SetIndexBuffer { buffer: self.index_buffer });
        proof {
            assert(rp.cmds@ =~= old(rp).cmds@ + depth_setup_cmds(*self));
        }

        let runs = self.iter_materials();
        let n = runs.len();
        let mut k: usize = 0;
        while k < n
            invariant
                k <= n,
                n == self.materials@.len(),
                self.wf(),
                old(gfx).wf(),
                self.materials_resolve(*old(gfx)),
                smap == (shadow_cascade is Some),
                runs@.len() == n,
                forall|j: int|
                    0 <= j < n ==> #[trigger] runs@[j] == (
                        self.materials@[j].0,
                        run_offset(self.materials@, j) as u32,
                        self.materials@[j].1,
                    ),
                gfx.wf(),
                *gfx == (GfxContext { cache: gfx.cache, perf: gfx.perf, ..*old(gfx) }),
                gfx.cache.entries@.len() >= old(gfx).cache.entries@.len(),
                gfx.cache.entries@.take(old(gfx).cache.entries@.len() as int) == old(
                    gfx,
                ).cache.entries@,
                forall|i: int|
                    old(gfx).cache.entries@.len() <= i < gfx.cache.entries@.len() ==> exists|
                        j: int,
                    |
                        0 <= j < self.materials@.len() && (#[trigger] gfx.cache.entries@[i].key)
                            == depth_key(
                            old(gfx).materials@[self.materials@[j].0 as int],
                            smap,
                        ),
                forall|j: int|
                    0 <= j < k ==> cache_has(
                        gfx.cache.entries@,
                        depth_key(
                            old(gfx).materials@[#[trigger] self.materials@[j].0 as int],
                            smap,
                        ),
                    ),
                rp.cmds@ == old(rp).cmds@ + depth_setup_cmds(*self) + depth_cmds_upto(
                    self.materials@,
                    old(gfx).materials@,
                    gfx.cache.entries@,
                    smap,
                    k as int,
                ),
                smap ==> gfx.perf.depth_shadow_triangles == sat_add64(
                    old(gfx).perf.depth_shadow_triangles as int,
                    tri_upto(self.materials@, k as int),
                ) && gfx.perf.depth_triangles == old(gfx).perf.depth_triangles,
                !smap ==> gfx.perf.depth_triangles == sat_add64(
                    old(gfx).perf.depth_triangles as int,
                    tri_upto(self.materials@, k as int),
                ) && gfx.perf.depth_shadow_triangles == old(gfx).perf.depth_shadow_triangles,
                gfx.perf.triangles == old(gfx).perf.triangles,
            decreases n - k,
        {
            let ghost pre_cache = gfx.cache;
            let (mat_id, offset, length) = runs[k];
            let mat = *gfx.material(mat_id);
            let key = PipelineKey::Mesh(
                MeshPipeline { instanced: false, alpha: mat.transparent, smap, depth: true },
            );
            let pipe = gfx.get_pipeline(key);
            proof {
                assert(key == depth_key(old(gfx).materials@[self.materials@[k as int].0 as int], smap));
                if !cache_has(pre_cache.entries@, key) {
                    // the cache grew by exactly this run's key
                    assert(gfx.cache.entries@.take(old(gfx).cache.entries@.len() as int) =~= old(
                        gfx,
                    ).cache.entries@);
                    assert forall|i: int|
                        old(gfx).cache.entries@.len() <= i < gfx.cache.entries@.len() implies exists|
                        j: int,
                    |
                        0 <= j < self.materials@.len() && (#[trigger] gfx.cache.entries@[i].key)
                            == depth_key(
                            old(gfx).materials@[self.materials@[j].0 as int],
                            smap,
                        ) by {
                        if i < pre_cache.entries@.len() {
                            assert(gfx.cache.entries@[i] == pre_cache.entries@[i]);
                        } else {
                            assert(gfx.cache.entries@[i].key == key);
                            assert(0 <= k < self.materials@.len() && gfx.cache.entries@[i].key
                                == depth_key(
                                old(gfx).materials@[self.materials@[k as int].0 as int],
                                smap,
                            ));
                        }
                    }
                    lemma_depth_cmds_stable(
                        self.materials@,
                        old(gfx).materials@,
                        pre_cache.entries@,
                        gfx.cache.entries@,
                        smap,
                        k as int,
                    );
                }
                lemma_tri_upto_nonneg(self.materials@, k as int);
                lemma_run_offset_mono(self.materials@, k as int);
                lemma_run_offset_mono(self.materials@, k + 1 as int);
            }
            rp.cmds.push(DrawCmd::SetPipeline { pipeline: pipe });
            if mat.transparent {
                rp.cmds.push(DrawCmd::SetBindGroup { slot: 1, bind_group: mat.bg });
            }
            rp.cmds.push(DrawCmd::DrawIndexed { start: offset, end: offset + length });
            gfx.perf.depth_drawcall(length / 3, smap);
            proof {
                assert(rp.cmds@ =~= old(rp).cmds@ + depth_setup_cmds(*self) + depth_cmds_upto(
                    self.materials@,
                    old(gfx).materials@,
                    gfx.cache.entries@,
                    smap,
                    k + 1 as int,
                ));
                assert forall|j: int|
                    0 <= j < k + 1 implies cache_has(
                    gfx.cache.entries@,
                    depth_key(old(gfx).materials@[#[trigger] self.materials@[j].0 as int], smap),
                ) by {
                    if j < k {
                        assert(gfx.cache.entries@.take(pre_cache.entries@.len() as int)
                            =~= pre_cache.entries@);
                        lemma_key_index_extend(
                            pre_cache.entries@,
                            gfx.cache.entries@,
                            depth_key(old(gfx).materials@[self.materials@[j].0 as int], smap),
                        );
                    }
                }
            }
            k += 1;
        }
    }
}

} // verus!
