use render_core::draw::DrawCmd;
use render_core::draw::RenderPass;
use render_core::gfx::GfxContext;
use render_core::mesh::Mesh;
use render_core::vertex::Matrix4;

fn gfx_with_materials() -> GfxContext {
    let mut gfx = GfxContext::new();
    // material 0: opaque, bind group 100; material 1: transparent, 101
    gfx.add_material(100, false);
    gfx.add_material(101, true);
    gfx
}

fn two_run_mesh() -> Mesh {
    Mesh { vertex_buffer: 40, index_buffer: 41, materials: vec![(0, 6), (1, 3)], skip_depth: false }
}

#[test]
fn draw_binds_once_and_draws_per_run() {
    let mut gfx = gfx_with_materials();
    let mut rp = RenderPass::new();
    two_run_mesh().draw(&mut gfx, &mut rp);
    let pipe = rp.cmds.iter().find_map(|c| match c {
        DrawCmd::SetPipeline { pipeline } => Some(*pipeline),
        _ => None,
    });
    let pipe = pipe.unwrap();
    assert_eq!(
        rp.cmds,
        vec![
            DrawCmd::SetBindGroup { slot: 1, bind_group: gfx.render_params_bg },
            DrawCmd::SetBindGroup { slot: 3, bind_group: gfx.simplelit_bg },
            DrawCmd::SetVertexBuffer { slot: 0, buffer: 40 },
            DrawCmd::SetIndexBuffer { buffer: 41 },
            DrawCmd::SetPipeline { pipeline: pipe },
            DrawCmd::SetBindGroup { slot: 2, bind_group: 100 },
            DrawCmd::DrawIndexed { start: 0, end: 6 },
            DrawCmd::SetPipeline { pipeline: pipe },
            DrawCmd::SetBindGroup { slot: 2, bind_group: 101 },
            DrawCmd::DrawIndexed { start: 6, end: 9 },
        ]
    );
    assert_eq!(gfx.perf.triangles, 3);
    assert_eq!(gfx.perf.depth_triangles, 0);
    // one compiled pipeline, reused across runs
    assert_eq!(gfx.cache.build_count, 1);
}

#[test]
fn draw_depth_skips_a_flagged_mesh_entirely() {
    let mut gfx = gfx_with_materials();
    let mut rp = RenderPass::new();
    let mut mesh = two_run_mesh();
    mesh.skip_depth = true;
    mesh.draw_depth(&mut gfx, &mut rp, None);
    assert!(rp.cmds.is_empty());
    assert_eq!(gfx.perf.depth_triangles, 0);
    assert_eq!(gfx.perf.depth_shadow_triangles, 0);
    assert_eq!(gfx.cache.build_count, 0);
}

#[test]
fn draw_depth_binds_material_only_for_transparent_runs() {
    let mut gfx = gfx_with_materials();
    let mut rp = RenderPass::new();
    two_run_mesh().draw_depth(&mut gfx, &mut rp, None);
    // two variants compiled: opaque depth and alpha depth
    assert_eq!(gfx.cache.build_count, 2);
    assert_eq!(
        rp.cmds,
        vec![
            DrawCmd::SetVertexBuffer { slot: 0, buffer: 40 },
            DrawCmd::SetIndexBuffer { buffer: 41 },
            DrawCmd::SetPipeline { pipeline: 0 },
            DrawCmd::DrawIndexed { start: 0, end: 6 },
            DrawCmd::SetPipeline { pipeline: 1 },
            DrawCmd::SetBindGroup { slot: 1, bind_group: 101 },
            DrawCmd::DrawIndexed { start: 6, end: 9 },
        ]
    );
    assert_eq!(gfx.perf.depth_triangles, 3);
    assert_eq!(gfx.perf.depth_shadow_triangles, 0);
}

#[test]
fn draw_depth_with_a_cascade_counts_shadow_triangles() {
    let mut gfx = gfx_with_materials();
    let mut rp = RenderPass::new();
    let cascade = Matrix4 { m: [0; 16] };
    two_run_mesh().draw_depth(&mut gfx, &mut rp, Some(&cascade));
    assert_eq!(gfx.perf.depth_shadow_triangles, 3);
    assert_eq!(gfx.perf.depth_triangles, 0);
    assert_eq!(gfx.perf.triangles, 0);
}

#[test]
fn draw_with_no_runs_only_binds() {
    let mut gfx = gfx_with_materials();
    let mut rp = RenderPass::new();
    let mesh = Mesh { vertex_buffer: 4, index_buffer: 5, materials: vec![], skip_depth: false };
    mesh.draw(&mut gfx, &mut rp);
    assert_eq!(rp.cmds.len(), 4);
    assert_eq!(gfx.cache.build_count, 0);
    assert_eq!(gfx.perf.triangles, 0);
}
