use render_core::blur::BlurCmd;
use render_core::blur::DOWNSCALE_PASSES;
use render_core::blur::Encoders;
use render_core::blur::SurfaceConfiguration;
use render_core::blur::gen_blur_texture;
use render_core::blur::gen_ui_blur;
use render_core::gfx::GfxContext;

#[test]
fn blur_schedule_walks_the_mip_chain_down_then_up() {
    let mut gfx = GfxContext::new();
    let mut encs = Encoders::new();
    gen_ui_blur(&mut gfx, &mut encs, 77);
    assert_eq!(encs.end.len(), 1 + 2 * DOWNSCALE_PASSES as usize);
    assert_eq!(encs.end[0], BlurCmd::MipmapGen { src_frame: 77, dst_mip: 0 });
    let pairs: Vec<(u32, u32)> = encs.end[1..]
        .iter()
        .map(|c| match c {
            BlurCmd::Pass { src_mip, dst_mip, .. } => (*src_mip, *dst_mip),
            _ => panic!("expected a blur pass"),
        })
        .collect();
    assert_eq!(pairs, vec![(0, 1), (1, 2), (2, 1), (1, 0)]);
}

#[test]
fn blur_mip_zero_is_written_once_by_the_passes() {
    let mut gfx = GfxContext::new();
    let mut encs = Encoders::new();
    gen_ui_blur(&mut gfx, &mut encs, 1);
    let mut writes_mip0 = 0;
    let mut reads_mip0 = 0;
    let mut writes_mip1 = 0;
    let mut reads_mip1 = 0;
    for c in &encs.end[1..] {
        if let BlurCmd::Pass { src_mip, dst_mip, .. } = c {
            if *dst_mip == 0 {
                writes_mip0 += 1;
            }
            if *src_mip == 0 {
                reads_mip0 += 1;
            }
            if *dst_mip == 1 {
                writes_mip1 += 1;
            }
            if *src_mip == 1 {
                reads_mip1 += 1;
            }
        }
    }
    assert_eq!(writes_mip0, 1);
    assert_eq!(reads_mip0, 1);
    // the intermediate level is read and written once per phase
    assert_eq!(writes_mip1, 2);
    assert_eq!(reads_mip1, 2);
}

#[test]
fn blur_passes_use_fresh_bind_groups_and_phase_pipelines() {
    let mut gfx = GfxContext::new();
    let mut encs = Encoders::new();
    let first_bg = gfx.next_bind_group_id;
    gen_ui_blur(&mut gfx, &mut encs, 5);
    let mut seen = Vec::new();
    let mut pipes = Vec::new();
    for c in &encs.end[1..] {
        if let BlurCmd::Pass { bind_group, pipeline, load_preserve, .. } = c {
            seen.push(*bind_group);
            pipes.push(*pipeline);
            assert!(*load_preserve);
        }
    }
    assert_eq!(seen, vec![first_bg, first_bg + 1, first_bg + 2, first_bg + 3]);
    // both downscale passes share one pipeline, both upscale passes the other
    assert_eq!(pipes[0], pipes[1]);
    assert_eq!(pipes[2], pipes[3]);
    assert_ne!(pipes[0], pipes[2]);
    assert_eq!(gfx.cache.build_count, 2);
}

#[test]
fn blur_texture_is_half_size_with_the_full_mip_chain() {
    let sc = SurfaceConfiguration { width: 1920, height: 1080, format: 3 };
    let t = gen_blur_texture(&sc);
    assert_eq!(t.width, 960);
    assert_eq!(t.height, 540);
    assert_eq!(t.layers, 1);
    assert_eq!(t.format, 3);
    assert_eq!(t.mip_count, 1 + DOWNSCALE_PASSES);
    assert!(t.usage_render_attachment);
    assert!(t.usage_texture_binding);
    assert!(!t.anisotropy);
}
