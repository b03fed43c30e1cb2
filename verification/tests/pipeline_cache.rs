use render_core::pipeline::BgLayout;
use render_core::pipeline::EntryPoint;
use render_core::pipeline::MeshPipeline;
use render_core::pipeline::PipelineCache;
use render_core::pipeline::PipelineKey;
use render_core::pipeline::ShaderModule;
use render_core::pipeline::ShaderStage;
use render_core::pipeline::TL;
use render_core::pipeline::UIBlurPipeline;
use render_core::pipeline::VbLayout;
use render_core::pipeline::bg_layout_litmesh;

fn mesh_key(instanced: bool, alpha: bool, smap: bool, depth: bool) -> PipelineKey {
    PipelineKey::Mesh(MeshPipeline { instanced, alpha, smap, depth })
}

#[test]
fn equal_keys_hit_the_cache_without_recompiling() {
    let mut cache = PipelineCache::new();
    assert_eq!(cache.build_count, 0);
    let k1 = mesh_key(false, false, false, false);
    let k2 = mesh_key(false, false, false, false);
    let first = cache.get_pipeline(k1);
    assert_eq!(cache.build_count, 1);
    // structurally equal key: the identical cached object, no second build
    let second = cache.get_pipeline(k2);
    assert_eq!(first, second);
    assert_eq!(cache.build_count, 1);
    // a different key compiles a new pipeline
    let third = cache.get_pipeline(mesh_key(false, false, false, true));
    assert_ne!(first, third);
    assert_eq!(cache.build_count, 2);
}

#[test]
fn cache_interleaves_mesh_and_blur_keys() {
    let mut cache = PipelineCache::new();
    let a = cache.get_pipeline(PipelineKey::Blur(UIBlurPipeline::Downscale));
    let b = cache.get_pipeline(mesh_key(true, false, false, false));
    let c = cache.get_pipeline(PipelineKey::Blur(UIBlurPipeline::Upscale));
    assert_eq!(cache.get_pipeline(PipelineKey::Blur(UIBlurPipeline::Downscale)), a);
    assert_eq!(cache.get_pipeline(mesh_key(true, false, false, false)), b);
    assert_eq!(cache.get_pipeline(PipelineKey::Blur(UIBlurPipeline::Upscale)), c);
    assert_eq!(cache.build_count, 3);
}

#[test]
fn lit_color_pipeline_descriptor() {
    let d = MeshPipeline { instanced: false, alpha: false, smap: false, depth: false }.build();
    assert_eq!(
        d.vertex,
        ShaderStage { module: ShaderModule::LitMeshVert, entry: EntryPoint::Main }
    );
    assert_eq!(
        d.fragment,
        Some(ShaderStage { module: ShaderModule::PixelFrag, entry: EntryPoint::Main })
    );
    assert_eq!(d.vertex_buffers, vec![VbLayout::Mesh]);
    assert_eq!(
        d.bind_group_layouts,
        vec![
            BgLayout::Projection,
            BgLayout::RenderParams,
            BgLayout::Material,
            BgLayout::LitMeshTextures,
        ]
    );
    assert!(d.depth.is_none());
    let ct = d.color_target.unwrap();
    assert!(!ct.blend);
}

#[test]
fn instanced_variant_adds_the_instance_buffer() {
    let d = MeshPipeline { instanced: true, alpha: false, smap: false, depth: false }.build();
    assert_eq!(
        d.vertex,
        ShaderStage { module: ShaderModule::InstancedMeshVert, entry: EntryPoint::Main }
    );
    assert_eq!(d.vertex_buffers, vec![VbLayout::Mesh, VbLayout::Instance]);
}

#[test]
fn opaque_depth_pipeline_elides_the_fragment_stage() {
    let d = MeshPipeline { instanced: false, alpha: false, smap: true, depth: true }.build();
    assert!(d.fragment.is_none());
    assert_eq!(d.bind_group_layouts, vec![BgLayout::Projection]);
    assert!(d.depth.unwrap().shadow_map);
    assert!(d.color_target.is_none());
}

#[test]
fn alpha_depth_pipeline_keeps_a_discard_fragment() {
    let d = MeshPipeline { instanced: false, alpha: true, smap: false, depth: true }.build();
    assert_eq!(
        d.fragment,
        Some(ShaderStage { module: ShaderModule::AlphaDiscardFrag, entry: EntryPoint::Main })
    );
    assert_eq!(d.bind_group_layouts, vec![BgLayout::Projection, BgLayout::Material]);
    assert!(!d.depth.unwrap().shadow_map);
}

#[test]
fn blur_pipeline_descriptors_differ_only_in_entry() {
    let down = UIBlurPipeline::Downscale.build();
    let up = UIBlurPipeline::Upscale.build();
    assert_eq!(
        down.vertex,
        ShaderStage { module: ShaderModule::UiBlur, entry: EntryPoint::Vert }
    );
    assert_eq!(
        down.fragment,
        Some(ShaderStage { module: ShaderModule::UiBlur, entry: EntryPoint::Downscale })
    );
    assert_eq!(
        up.fragment,
        Some(ShaderStage { module: ShaderModule::UiBlur, entry: EntryPoint::Upscale })
    );
    assert!(down.vertex_buffers.is_empty());
    assert_eq!(down.bind_group_layouts, vec![BgLayout::SingleFloatTexture]);
    assert!(down.color_target.unwrap().color_writes_only);
}

#[test]
fn litmesh_texture_table_has_the_fixed_eight_slots() {
    assert_eq!(
        bg_layout_litmesh(),
        vec![
            TL::Float,
            TL::Float,
            TL::DepthArray,
            TL::Cube,
            TL::Cube,
            TL::Float,
            TL::UInt,
            TL::UInt,
        ]
    );
}
