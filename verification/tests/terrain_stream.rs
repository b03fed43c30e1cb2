use render_core::draw::DrawCmd;
use render_core::draw::RenderPass;
use render_core::gfx::Context;
use render_core::gfx::GfxContext;
use render_core::terrain::MapSubscriber;
use render_core::terrain::TerrainChunk;
use render_core::terrain::TerrainMap;
use render_core::terrain::TerrainRender;
use render_core::terrain::UPD_PER_FRAME_DEBUG;
use render_core::terrain::UPD_PER_FRAME_RELEASE;

fn map_with(cells: &[(u32, u32)]) -> TerrainMap {
    TerrainMap {
        width: 8,
        height: 8,
        chunks: cells
            .iter()
            .map(|&(x, y)| TerrainChunk { cell_x: x, cell_y: y, heights: vec![0; 4] })
            .collect(),
    }
}

fn renderer(gfx: &mut GfxContext, budget: usize, pending: &[(u32, u32)]) -> TerrainRender {
    let mut sub = MapSubscriber::new();
    for &(x, y) in pending {
        sub.push_updated(x, y);
    }
    TerrainRender::new(gfx, 8, 8, 55, sub, budget)
}

#[test]
fn drain_respects_the_per_frame_budget() {
    // five pending chunks, budget three: exactly three applied, two queued
    let cells = [(0, 0), (1, 0), (2, 0), (3, 0), (4, 0)];
    let map = map_with(&cells);
    let mut ctx = Context { gfx: GfxContext::new() };
    let mut tr = renderer(&mut ctx.gfx, 3, &cells);
    tr.update(&mut ctx, &map);
    assert_eq!(ctx.gfx.texture_writes.len(), 3);
    let applied: Vec<(u32, u32)> =
        ctx.gfx.texture_writes.iter().map(|w| (w.cell_x, w.cell_y)).collect();
    assert_eq!(applied, vec![(0, 0), (1, 0), (2, 0)]);
    assert_eq!(tr.terrain_sub.cursor, 3);
    assert_eq!(tr.terrain_sub.pending.len(), 5);
    // the next frame drains the remaining two
    tr.update(&mut ctx, &map);
    assert_eq!(ctx.gfx.texture_writes.len(), 5);
    assert_eq!(tr.terrain_sub.cursor, 5);
}

#[test]
fn drain_writes_carry_the_height_field_texture_and_sample_count() {
    let cells = [(2, 3)];
    let map = map_with(&cells);
    let mut ctx = Context { gfx: GfxContext::new() };
    let mut tr = renderer(&mut ctx.gfx, UPD_PER_FRAME_RELEASE, &cells);
    tr.update(&mut ctx, &map);
    assert_eq!(ctx.gfx.texture_writes.len(), 1);
    let w = ctx.gfx.texture_writes[0];
    assert_eq!(w.texture, tr.height_texture);
    assert_eq!((w.cell_x, w.cell_y), (2, 3));
    assert_eq!(w.samples, 4);
}

#[test]
fn a_missing_chunk_ends_the_drain_for_this_frame() {
    let map = map_with(&[(0, 0), (2, 0)]);
    let mut ctx = Context { gfx: GfxContext::new() };
    let mut tr = renderer(&mut ctx.gfx, UPD_PER_FRAME_DEBUG, &[(0, 0), (1, 0), (2, 0)]);
    tr.update(&mut ctx, &map);
    // (0,0) applied; (1,0) has no chunk: consumed, drain stops; (2,0) waits
    assert_eq!(ctx.gfx.texture_writes.len(), 1);
    assert_eq!(tr.terrain_sub.cursor, 2);
    tr.update(&mut ctx, &map);
    assert_eq!(ctx.gfx.texture_writes.len(), 2);
}

#[test]
fn out_of_bounds_cells_are_consumed_but_not_applied() {
    let mut map = map_with(&[(0, 0), (9, 9), (1, 0)]);
    map.width = 8;
    map.height = 8;
    let mut ctx = Context { gfx: GfxContext::new() };
    // renderer covers an 8x8 grid; (9,9) lies outside it
    let mut tr = renderer(&mut ctx.gfx, 2, &[(0, 0), (9, 9), (1, 0)]);
    tr.update(&mut ctx, &map);
    let applied: Vec<(u32, u32)> =
        ctx.gfx.texture_writes.iter().map(|w| (w.cell_x, w.cell_y)).collect();
    assert_eq!(applied, vec![(0, 0), (1, 0)]);
    assert_eq!(tr.terrain_sub.cursor, 3);
}

#[test]
fn terrain_draw_issues_the_height_field_draw() {
    let mut gfx = GfxContext::new();
    let tr = renderer(&mut gfx, 1, &[]);
    let mut rp = RenderPass::new();
    tr.draw(&mut rp);
    assert_eq!(rp.cmds, vec![DrawCmd::DrawTerrain { texture: tr.height_texture }]);
}
