//! The GPU context model.
//!
//! [`GfxContext`] stands for the device-side state this layer touches:
//! it mints fresh opaque handles for buffers, textures and bind groups,
//! owns the pipeline cache and the material registry, and accumulates
//! telemetry counters. The real device calls are replayed elsewhere from
//! the handles and commands recorded here.

use vstd::prelude::*;
use crate::pipeline::PipelineCache;
use crate::pipeline::PipelineKey;
use crate::pipeline::cache_has;
use crate::pipeline::is_pipeline_desc;
use crate::pipeline::key_index;

verus! {

/// An opaque material identifier, resolved by the material registry.
pub type MaterialID = u32;

/// What the mesh layer reads of a material: its bind group and whether it
/// is alpha-tested transparent.
#[derive(Clone, Copy, PartialEq, Eq, Structural, Debug)]
pub struct Material {
    pub bg: u64,
    pub transparent: bool,
}

/// One partial upload into a GPU texture: which texture, which chunk cell
/// and how many height samples.
#[derive(Clone, Copy, PartialEq, Eq, Structural, Debug)]
pub struct TextureWrite {
    pub texture: u64,
    pub cell_x: u32,
    pub cell_y: u32,
    pub samples: usize,
}

/// Fire-and-forget draw telemetry: triangles drawn in the color pass, and
/// in the depth pass split by shadow-cascade versus main depth target.
/// Counters saturate rather than wrap.
#[derive(Clone, Copy, PartialEq, Eq, Structural, Debug)]
pub struct PerfCounters {
    pub triangles: u64,
    pub depth_triangles: u64,
    pub depth_shadow_triangles: u64,
}

/// `a + b` clamped to the range of a 64-bit counter.
pub open spec fn sat_add64(a: int, b: int) -> int {
    if a + b <= u64::MAX {
        a + b
    } else {
        u64::MAX as int
    }
}

impl PerfCounters {
    /// All counters start at zero.
    pub fn new() -> (r: Self)
        ensures
            r.triangles == 0,
            r.depth_triangles == 0,
            r.depth_shadow_triangles == 0,
    {
        PerfCounters { triangles: 0, depth_triangles: 0, depth_shadow_triangles: 0 }
    }

    /// Record a color-pass draw call of `tris` triangles.
    pub fn drawcall(&mut self, tris: u32)
        ensures
            final(self).triangles == sat_add64(old(self).triangles as int, tris as int),
            final(self).depth_triangles == old(self).depth_triangles,
            final(self).depth_shadow_triangles == old(self).depth_shadow_triangles,
    {
        if tris as u64 > u64::MAX - self.triangles {
            self.triangles = u64::MAX;
        } else {
            self.triangles = self.triangles + tris as u64;
        }
    }

    /// Record a depth-pass draw call of `tris` triangles, tagged by
    /// whether it targets a shadow cascade.
    pub fn depth_drawcall(&mut self, tris: u32, shadow: bool)
        ensures
            final(self).triangles == old(self).triangles,
            shadow ==> {
                &&& final(self).depth_shadow_triangles == sat_add64(
                    old(self).depth_shadow_triangles as int,
                    tris as int,
                )
                &&& final(self).depth_triangles == old(self).depth_triangles
            },
            !shadow ==> {
                &&& final(self).depth_triangles == sat_add64(
                    old(self).depth_triangles as int,
                    tris as int,
                )
                &&& final(self).depth_shadow_triangles == old(self).depth_shadow_triangles
            },
    {
        if shadow {
            if tris as u64 > u64::MAX - self.depth_shadow_triangles {
                self.depth_shadow_triangles = u64::MAX;
            } else {
                self.depth_shadow_triangles = self.depth_shadow_triangles + tris as u64;
            }
        } else {
            if tris as u64 > u64::MAX - self.depth_triangles {
                self.depth_triangles = u64::MAX;
            } else {
                self.depth_triangles = self.depth_triangles + tris as u64;
            }
        }
    }
}

/// The GPU context: handle minting, the pipeline cache, the material
/// registry, the fixed per-frame bind groups and telemetry.
#[derive(Clone, Debug)]
pub struct GfxContext {
    /// Next fresh GPU buffer handle.
    pub next_buffer_id: u64,
    /// Next fresh bind-group handle.
    pub next_bind_group_id: u64,
    /// Next fresh texture handle.
    pub next_texture_id: u64,
    pub cache: PipelineCache,
    /// The material registry: a material ID indexes this table.
    pub materials: Vec<Material>,
    /// The per-frame render-parameter bind group.
    pub render_params_bg: u64,
    /// The shared lighting bind group of the lit pass.
    pub simplelit_bg: u64,
    /// The shared linear-filtering sampler.
    pub linear_sampler: u64,
    /// Mip levels of the UI-blur chain texture.
    pub ui_blur_mips: u32,
    /// Partial texture uploads issued so far (terrain streaming).
    pub texture_writes: Vec<TextureWrite>,
    pub perf: PerfCounters,
}

/// `post` is `pre` with at most some fresh buffer handles minted.
pub open spec fn only_buffer_alloc(pre: GfxContext, post: GfxContext) -> bool {
    &&& post == (GfxContext { next_buffer_id: post.next_buffer_id, ..pre })
    &&& pre.next_buffer_id <= post.next_buffer_id
}

/// `post` is `pre` with at most cache growth, fresh bind groups and
/// telemetry updates: what a draw or blur pass may change.
pub open spec fn same_frame_resources(pre: GfxContext, post: GfxContext) -> bool {
    post == (GfxContext {
        cache: post.cache,
        next_bind_group_id: post.next_bind_group_id,
        perf: post.perf,
        ..pre
    })
}

impl GfxContext {
    pub open spec fn wf(&self) -> bool {
        self.cache.wf()
    }

    /// A fresh context: empty cache and registry, fixed bind groups for
    /// render parameters, lighting and the shared sampler, and the blur
    /// mip chain sized for the configured downscale pass count.
    pub fn new() -> (r: Self)
        ensures
            r.wf(),
            r.next_buffer_id == 0,
            r.next_texture_id == 0,
            r.cache.entries@.len() == 0,
            r.cache.build_count == 0,
            r.materials@.len() == 0,
            r.texture_writes@.len() == 0,
            r.render_params_bg == 0,
            r.simplelit_bg == 1,
            r.linear_sampler == 2,
            r.next_bind_group_id == 3,
            r.ui_blur_mips == 1 + crate::blur::DOWNSCALE_PASSES,
            r.perf.triangles == 0,
            r.perf.depth_triangles == 0,
            r.perf.depth_shadow_triangles == 0,
    {
        GfxContext {
            next_buffer_id: 0,
            next_bind_group_id: 3,
            next_texture_id: 0,
            cache: PipelineCache::new(),
            materials: Vec::new(),
            render_params_bg: 0,
            simplelit_bg: 1,
            linear_sampler: 2,
            ui_blur_mips: 1 + crate::blur::DOWNSCALE_PASSES,
            texture_writes: Vec::new(),
            perf: PerfCounters::new(),
        }
    }

    /// Mint a fresh GPU buffer handle.
    pub fn alloc_buffer(&mut self) -> (id: u64)
        requires
            old(self).next_buffer_id < u64::MAX,
        ensures
            id == old(self).next_buffer_id,
            final(self).next_buffer_id == old(self).next_buffer_id + 1,
            *final(self) == (GfxContext { next_buffer_id: final(self).next_buffer_id, ..*old(self) }),
    {
        let id = self.next_buffer_id;
        self.next_buffer_id = self.next_buffer_id + 1;
        id
    }

    /// Mint a fresh GPU texture handle.
    pub fn alloc_texture(&mut self) -> (id: u64)
        requires
            old(self).next_texture_id < u64::MAX,
        ensures
            id == old(self).next_texture_id,
            final(self).next_texture_id == old(self).next_texture_id + 1,
            *final(self) == (GfxContext {
                next_texture_id: final(self).next_texture_id,
                ..*old(self)
            }),
    {
        let id = self.next_texture_id;
        self.next_texture_id = self.next_texture_id + 1;
        id
    }

    /// Mint a fresh bind-group handle.
    pub fn create_bind_group(&mut self) -> (id: u64)
        requires
            old(self).next_bind_group_id < u64::MAX,
        ensures
            id == old(self).next_bind_group_id,
            final(self).next_bind_group_id == old(self).next_bind_group_id + 1,
            *final(self) == (GfxContext {
                next_bind_group_id: final(self).next_bind_group_id,
                ..*old(self)
            }),
    {
        let id = self.next_bind_group_id;
        self.next_bind_group_id = self.next_bind_group_id + 1;
        id
    }

    /// Register a material with its bind group and transparency flag; the
    /// result is its material ID.
    pub fn add_material(&mut self, bg: u64, transparent: bool) -> (id: MaterialID)
        requires
            old(self).materials@.len() < u32::MAX,
        ensures
            id == old(self).materials@.len(),
            final(self).materials@ == old(self).materials@.push(
                (Material { bg, transparent }),
            ),
            *final(self) == (GfxContext { materials: final(self).materials, ..*old(self) }),
    {
        let id = self.materials.len() as u32;
        self.materials.push(Material { bg, transparent });
        id
    }

    /// Resolve a material ID in the registry.
    pub fn material(&self, id: MaterialID) -> (r: &Material)
        requires
            id < self.materials@.len(),
        ensures
            *r == self.materials@[id as int],
    {
        &self.materials[id as usize]
    }

    /// Resolve a pipeline key through the cache: reuse on hit, compile and
    /// insert on miss. Nothing else of the context changes.
    pub fn get_pipeline(&mut self, key: PipelineKey) -> (idx: usize)
        requires
            old(self).wf(),
        ensures
            final(self).wf(),
            *final(self) == (GfxContext { cache: final(self).cache, ..*old(self) }),
            idx < final(self).cache.entries@.len(),
            final(self).cache.entries@[idx as int].key == key,
            is_pipeline_desc(key, final(self).cache.entries@[idx as int].desc),
            idx == key_index(final(self).cache.entries@, key),
            cache_has(old(self).cache.entries@, key) ==> final(self).cache == old(self).cache,
            !cache_has(old(self).cache.entries@, key) ==> {
                &&& final(self).cache.entries@.len() == old(self).cache.entries@.len() + 1
                &&& final(self).cache.entries@.take(old(self).cache.entries@.len() as int) == old(
                    self,
                ).cache.entries@
                &&& idx == old(self).cache.entries@.len()
                &&& final(self).cache.build_count == old(self).cache.build_count + 1
            },
    {
        self.cache.get_pipeline(key)
    }
}

/// The per-frame context handed to rendering systems: the GPU context,
/// plus whatever frame-local encoders the caller owns.
pub struct Context {
    pub gfx: GfxContext,
}

} // verus!
