//! Pipeline descriptors and the pipeline cache.
//!
//! A pipeline key is a small value object naming one compiled pipeline
//! variant. Compiling a key yields a [`PipelineDesc`]: the shader stages,
//! vertex buffer layouts and bind-group layouts the GPU pipeline is built
//! from. The cache maps keys to compiled pipelines, building on miss and
//! reusing on hit; it is append-only and never evicts.

use vstd::prelude::*;
use crate::vertex::MeshVertex;
use crate::vertex::VertexBufferLayoutDesc;

verus! {

/// The slot kind of one texture in a bind-group layout.
#[derive(Clone, Copy, PartialEq, Eq, Structural, Debug)]
pub enum TL {
    Float,
    DepthArray,
    Cube,
    UInt,
}

/// A shader module of the renderer's fixed shader set.
#[derive(Clone, Copy, PartialEq, Eq, Structural, Debug)]
pub enum ShaderModule {
    LitMeshVert,
    InstancedMeshVert,
    PixelFrag,
    AlphaDiscardFrag,
    UiBlur,
}

/// An entry point within a shader module.
#[derive(Clone, Copy, PartialEq, Eq, Structural, Debug)]
pub enum EntryPoint {
    Main,
    Vert,
    Downscale,
    Upscale,
}

/// One shader stage: a module and an entry point in it.
#[derive(Clone, Copy, PartialEq, Eq, Structural, Debug)]
pub struct ShaderStage {
    pub module: ShaderModule,
    pub entry: EntryPoint,
}

/// One bind-group layout slot of a pipeline layout. The renderer has a
/// closed set of layouts; the texture-table layouts are named here and
/// their slot kinds are given by [`bg_layout_litmesh`] and
/// [`blur_texture_slots_vec`].
#[derive(Clone, Copy, PartialEq, Eq, Structural, Debug)]
pub enum BgLayout {
    /// Camera/projection uniforms.
    Projection,
    /// Per-frame render parameters.
    RenderParams,
    /// The per-material bind group.
    Material,
    /// The fixed 8-slot lit-mesh texture table.
    LitMeshTextures,
    /// A single filterable float texture with a sampler (the blur source).
    SingleFloatTexture,
}

/// A vertex buffer layout reference of the fixed vertex formats.
#[derive(Clone, Copy, PartialEq, Eq, Structural, Debug)]
pub enum VbLayout {
    Mesh,
    Instance,
}

/// Depth-stencil state of a depth-only pipeline.
#[derive(Clone, Copy, PartialEq, Eq, Structural, Debug)]
pub struct DepthState {
    /// Whether the target is a shadow-map cascade rather than the main
    /// depth buffer.
    pub shadow_map: bool,
}

/// Color-target state of a color pipeline.
#[derive(Clone, Copy, PartialEq, Eq, Structural, Debug)]
pub struct ColorTarget {
    pub blend: bool,
    /// Write mask restricted to the color channels.
    pub color_writes_only: bool,
}

/// Everything a GPU pipeline is compiled from: shader stages, fixed-function
/// state, vertex buffer layouts and bind-group layouts.
#[derive(Clone, PartialEq, Eq, Debug)]
pub struct PipelineDesc {
    pub vertex: ShaderStage,
    pub fragment: Option<ShaderStage>,
    pub vertex_buffers: Vec<VbLayout>,
    pub bind_group_layouts: Vec<BgLayout>,
    pub depth: Option<DepthState>,
    pub color_target: Option<ColorTarget>,
}

/// The key of one lit-mesh pipeline variant.
#[derive(Clone, Copy, PartialEq, Eq, Structural, Hash, Debug)]
pub struct MeshPipeline {
    pub instanced: bool,
    pub alpha: bool,
    pub smap: bool,
    pub depth: bool,
}

/// The key of one UI-blur pipeline variant.
#[derive(Clone, Copy, PartialEq, Eq, Structural, Hash, Debug)]
pub enum UIBlurPipeline {
    Downscale,
    Upscale,
}

/// Marker naming the depth-prepass variant of the lit-mesh pipeline in
/// pipeline registries.
pub struct LitMeshDepth;

/// Marker naming the shadow-map variant of the lit-mesh depth pipeline in
/// pipeline registries.
pub struct LitMeshDepthSMap;

/// A pipeline key: one variant of the closed set of pipeline builders.
#[derive(Clone, Copy, PartialEq, Eq, Structural, Hash, Debug)]
pub enum PipelineKey {
    Mesh(MeshPipeline),
    Blur(UIBlurPipeline),
}

/// The slot kinds of the fixed lit-mesh texture table: two general float
/// textures, the shadow-cascade depth array, two cube maps, a float
/// texture and two unsigned-integer textures. Every material-binding call
/// of the lit pass must match this layout.
pub open spec fn litmesh_texture_slots() -> Seq<TL> {
    seq![TL::Float, TL::Float, TL::DepthArray, TL::Cube, TL::Cube, TL::Float, TL::UInt, TL::UInt]
}

/// The fixed 8-slot texture bind-group layout of the lit-mesh color pass.
pub fn bg_layout_litmesh() -> (r: Vec<TL>)
    ensures
        r@ == litmesh_texture_slots(),
{
    let mut r: Vec<TL> = Vec::new();
    r.push(TL::Float);
    r.push(TL::Float);
    r.push(TL::DepthArray);
    r.push(TL::Cube);
    r.push(TL::Cube);
    r.push(TL::Float);
    r.push(TL::UInt);
    r.push(TL::UInt);
    assert(r@ =~= litmesh_texture_slots());
    r
}

/// The vertex buffer layouts a mesh pipeline consumes: the mesh buffer,
/// plus the per-instance buffer for instanced variants.
pub open spec fn mesh_vb_layouts(instanced: bool) -> Seq<VbLayout> {
    if instanced {
        seq![VbLayout::Mesh, VbLayout::Instance]
    } else {
        seq![VbLayout::Mesh]
    }
}

/// The slot kinds of the blur texture table: one float texture.
pub fn blur_texture_slots_vec() -> (r: Vec<TL>)
    ensures
        r@ == seq![TL::Float],
{
    let mut r: Vec<TL> = Vec::new();
    r.push(TL::Float);
    assert(r@ =~= seq![TL::Float]);
    r
}

/// The bind-group layouts of the lit-mesh color pipeline: projection,
/// per-frame parameters, the material group, and the fixed texture table.
pub open spec fn lit_color_layouts() -> Seq<BgLayout> {
    seq![
        BgLayout::Projection,
        BgLayout::RenderParams,
        BgLayout::Material,
        BgLayout::LitMeshTextures,
    ]
}

/// The bind-group layouts of the alpha-discard depth pipeline: projection
/// and the material group (the alpha test samples a material texture).
pub open spec fn alpha_depth_layouts() -> Seq<BgLayout> {
    seq![BgLayout::Projection, BgLayout::Material]
}

/// The bind-group layouts of the opaque depth pipeline: projection only.
pub open spec fn opaque_depth_layouts() -> Seq<BgLayout> {
    seq![BgLayout::Projection]
}

/// The vertex stage a mesh pipeline key selects.
pub open spec fn mesh_vertex_stage(p: MeshPipeline) -> ShaderStage {
    ShaderStage {
        module: if p.instanced {
            ShaderModule::InstancedMeshVert
        } else {
            ShaderModule::LitMeshVert
        },
        entry: EntryPoint::Main,
    }
}

/// What the mesh pipeline key `p` compiles to.
///
/// The full lit pass binds projection, frame parameters, the material and
/// the texture table and writes color; the opaque depth pass elides the
/// fragment stage entirely; the alpha-tested depth pass keeps a
/// discard-only fragment stage bound to projection and material.
pub open spec fn is_mesh_pipeline_desc(p: MeshPipeline, d: PipelineDesc) -> bool {
    &&& d.vertex == mesh_vertex_stage(p)
    &&& d.vertex_buffers@ == mesh_vb_layouts(p.instanced)
    &&& if !p.depth {
        &&& d.fragment == Some(
            ShaderStage { module: ShaderModule::PixelFrag, entry: EntryPoint::Main },
        )
        &&& d.bind_group_layouts@ == lit_color_layouts()
        &&& d.depth is None
        &&& d.color_target == Some(ColorTarget { blend: false, color_writes_only: false })
    } else if !p.alpha {
        &&& d.fragment is None
        &&& d.bind_group_layouts@ == opaque_depth_layouts()
        &&& d.depth == Some(DepthState { shadow_map: p.smap })
        &&& d.color_target is None
    } else {
        &&& d.fragment == Some(
            ShaderStage { module: ShaderModule::AlphaDiscardFrag, entry: EntryPoint::Main },
        )
        &&& d.bind_group_layouts@ == alpha_depth_layouts()
        &&& d.depth == Some(DepthState { shadow_map: p.smap })
        &&& d.color_target is None
    }
}

/// What the blur pipeline key compiles to: a full-screen triangle with no
/// vertex buffers, sampling one float texture, writing color without
/// blending, with the downscale or upscale fragment entry of the blur
/// module.
pub open spec fn is_blur_pipeline_desc(b: UIBlurPipeline, d: PipelineDesc) -> bool {
    &&& d.vertex == (ShaderStage { module: ShaderModule::UiBlur, entry: EntryPoint::Vert })
    &&& d.fragment == Some(
        ShaderStage {
            module: ShaderModule::UiBlur,
            entry: if b is Downscale {
                EntryPoint::Downscale
            } else {
                EntryPoint::Upscale
            },
        },
    )
    &&& d.vertex_buffers@ == Seq::<VbLayout>::empty()
    &&& d.bind_group_layouts@ == seq![BgLayout::SingleFloatTexture]
    &&& d.depth is None
    &&& d.color_target == Some(ColorTarget { blend: false, color_writes_only: true })
}

/// What a pipeline key compiles to: the cache-correctness contract that
/// structurally equal keys yield functionally equivalent pipelines rests
/// on this relation pinning every descriptor field from the key alone.
pub open spec fn is_pipeline_desc(k: PipelineKey, d: PipelineDesc) -> bool {
    match k {
        PipelineKey::Mesh(p) => is_mesh_pipeline_desc(p, d),
        PipelineKey::Blur(b) => is_blur_pipeline_desc(b, d),
    }
}

impl MeshPipeline {
    /// Compile this key into its pipeline descriptor.
    pub fn build(&self) -> (d: PipelineDesc)
        ensures
            is_mesh_pipeline_desc(*self, d),
    {
        let mut vertex_buffers: Vec<VbLayout> = Vec::new();
        vertex_buffers.push(VbLayout::Mesh);
        if self.instanced {
            vertex_buffers.push(VbLayout::Instance);
        }
        proof {
            assert(vertex_buffers@ =~= mesh_vb_layouts(self.instanced));
        }
        let vertex = ShaderStage {
            module: if self.instanced {
                ShaderModule::InstancedMeshVert
            } else {
                ShaderModule::LitMeshVert
            },
            entry: EntryPoint::Main,
        };

        if !self.depth {
            let mut bind_group_layouts: Vec<BgLayout> = Vec::new();
            bind_group_layouts.push(BgLayout::Projection);
            bind_group_layouts.push(BgLayout::RenderParams);
            bind_group_layouts.push(BgLayout::Material);
            bind_group_layouts.push(BgLayout::LitMeshTextures);
            proof {
                assert(bind_group_layouts@ =~= lit_color_layouts());
            }
            return PipelineDesc {
                vertex,
                fragment: Some(
                    ShaderStage { module: ShaderModule::PixelFrag, entry: EntryPoint::Main },
                ),
                vertex_buffers,
                bind_group_layouts,
                depth: None,
                color_target: Some(ColorTarget { blend: false, color_writes_only: false }),
            };
        }

        if !self.alpha {
            let mut bind_group_layouts: Vec<BgLayout> = Vec::new();
            bind_group_layouts.push(BgLayout::Projection);
            proof {
                assert(bind_group_layouts@ =~= opaque_depth_layouts());
            }
            return PipelineDesc {
                vertex,
                fragment: None,
                vertex_buffers,
                bind_group_layouts,
                depth: Some(DepthState { shadow_map: self.smap }),
                color_target: None,
            };
        }

        let mut bind_group_layouts: Vec<BgLayout> = Vec::new();
        bind_group_layouts.push(BgLayout::Projection);
        bind_group_layouts.push(BgLayout::Material);
        proof {
            assert(bind_group_layouts@ =~= alpha_depth_layouts());
        }
        PipelineDesc {
            vertex,
            fragment: Some(
                ShaderStage { module: ShaderModule::AlphaDiscardFrag, entry: EntryPoint::Main },
            ),
            vertex_buffers,
            bind_group_layouts,
            depth: Some(DepthState { shadow_map: self.smap }),
            color_target: None,
        }
    }
}

impl UIBlurPipeline {
    /// Compile this key into its pipeline descriptor.
    pub fn build(&self) -> (d: PipelineDesc)
        ensures
            is_blur_pipeline_desc(*self, d),
    {
        let mut bind_group_layouts: Vec<BgLayout> = Vec::new();
        bind_group_layouts.push(BgLayout::SingleFloatTexture);
        proof {
            assert(bind_group_layouts@ =~= seq![BgLayout::SingleFloatTexture]);
        }
        let vertex_buffers: Vec<VbLayout> = Vec::new();
        proof {
            assert(vertex_buffers@ =~= Seq::<VbLayout>::empty());
        }
        let entry = match self {
            UIBlurPipeline::Downscale => EntryPoint::Downscale,
            UIBlurPipeline::Upscale => EntryPoint::Upscale,
        };
        PipelineDesc {
            vertex: ShaderStage { module: ShaderModule::UiBlur, entry: EntryPoint::Vert },
            fragment: Some(ShaderStage { module: ShaderModule::UiBlur, entry }),
            vertex_buffers,
            bind_group_layouts,
            depth: None,
            color_target: Some(ColorTarget { blend: false, color_writes_only: true }),
        }
    }
}

/// One cached compiled pipeline: its key and what it was compiled to.
#[derive(Clone, Debug)]
pub struct CompiledPipeline {
    pub key: PipelineKey,
    pub desc: PipelineDesc,
}

/// The process-wide pipeline cache: an append-only map from pipeline key
/// to compiled pipeline, populated lazily and never evicted. A pipeline
/// is referred to by its index in `entries`, which is stable for the life
/// of the cache.
#[derive(Clone, Debug)]
pub struct PipelineCache {
    pub entries: Vec<CompiledPipeline>,
    /// How many pipelines were compiled; a hit compiles nothing.
    pub build_count: u64,
}

/// The first index of `key` in `entries`, or `entries.len()` if absent.
pub open spec fn key_index(entries: Seq<CompiledPipeline>, key: PipelineKey) -> int
    decreases entries.len(),
{
    if entries.len() == 0 {
        0
    } else if entries[0].key == key {
        0
    } else {
        1 + key_index(entries.drop_first(), key)
    }
}

/// Whether some cache entry holds `key`.
pub open spec fn cache_has(entries: Seq<CompiledPipeline>, key: PipelineKey) -> bool {
    exists|i: int| 0 <= i < entries.len() && entries[i].key == key
}

impl PipelineCache {
    /// Cache well-formedness: keys are unique, every entry's descriptor is
    /// the one its key compiles to, and the build counter equals the entry
    /// count (every entry was compiled exactly once).
    pub open spec fn wf(&self) -> bool {
        &&& forall|i: int, j: int|
            0 <= i < j < self.entries@.len() ==> self.entries@[i].key != self.entries@[j].key
        &&& forall|i: int|
            0 <= i < self.entries@.len() ==> is_pipeline_desc(
                self.entries@[i].key,
                #[trigger] self.entries@[i].desc,
            )
        &&& self.build_count == self.entries@.len()
    }

    /// An empty cache.
    pub fn new() -> (r: Self)
        ensures
            r.wf(),
            r.entries@.len() == 0,
            r.build_count == 0,
    {
        PipelineCache { entries: Vec::new(), build_count: 0 }
    }

    /// Resolve `key` to a compiled pipeline, compiling and inserting it on
    /// a miss and returning the already-cached pipeline on a hit. The
    /// result is the pipeline's stable index. On a hit nothing is
    /// compiled and the cache is unchanged.
    pub fn get_pipeline(&mut self, key: PipelineKey) -> (idx: usize)
        requires
            old(self).wf(),
        ensures
            final(self).wf(),
            idx < final(self).entries@.len(),
            final(self).entries@[idx as int].key == key,
            is_pipeline_desc(key, final(self).entries@[idx as int].desc),
            idx == key_index(final(self).entries@, key),
            cache_has(old(self).entries@, key) ==> *final(self) == *old(self),
            !cache_has(old(self).entries@, key) ==> {
                &&& final(self).entries@.len() == old(self).entries@.len() + 1
                &&& final(self).entries@.take(old(self).entries@.len() as int) == old(
                    self,
                ).entries@
                &&& idx == old(self).entries@.len()
                &&& final(self).build_count == old(self).build_count + 1
            },
    {
        let n = self.entries.len();
        let mut i: usize = 0;
        while i < n
            invariant
                i <= n,
                n == self.entries@.len(),
                forall|j: int| 0 <= j < i ==> self.entries@[j].key != key,
            decreases n - i,
        {
            if self.entries[i].key == key {
                proof {
                    lemma_key_index_first(self.entries@, key, i as int);
                }
                return i;
            }
            i += 1;
        }
        assert(!cache_has(self.entries@, key));
        let desc = match key {
            PipelineKey::Mesh(p) => p.build(),
            PipelineKey::Blur(b) => b.build(),
        };
        self.entries.push(CompiledPipeline { key, desc });
        self.build_count = self.entries.len() as u64;
        proof {
            assert(self.entries@.take(old(self).entries@.len() as int) =~= old(self).entries@);
            lemma_key_index_first(self.entries@, key, n as int);
        }
        n
    }
}

/// If `entries[i].key == key` and no earlier entry holds `key`, then `i`
/// is the first index of `key`.
pub proof fn lemma_key_index_first(entries: Seq<CompiledPipeline>, key: PipelineKey, i: int)
    requires
        0 <= i < entries.len(),
        entries[i].key == key,
        forall|j: int| 0 <= j < i ==> entries[j].key != key,
    ensures
        key_index(entries, key) == i,
    decreases entries.len(),
{
    if i > 0 {
        lemma_key_index_first(entries.drop_first(), key, i - 1);
    }
}

} // verus!
