use render_core::gfx::GfxContext;
use render_core::mesh::Mesh;
use render_core::mesh::MeshBuilder;
use render_core::vertex::MeshVertex;

fn vert(tag: u32) -> MeshVertex {
    MeshVertex { position: [tag, 0, 0], normal: [0, tag, 0], uv: [tag, tag], tangent: [0, 0, 0, 0] }
}

fn verts(n: u32) -> Vec<MeshVertex> {
    (0..n).map(vert).collect()
}

#[test]
fn extend_offsets_each_batch_by_vertex_count() {
    let mut b = MeshBuilder::<false>::new(0);
    b.extend(&verts(3), &vec![0, 1, 2]);
    b.extend(&verts(2), &vec![0, 1, 0]);
    assert_eq!(b.indices, vec![0, 1, 2, 3, 4, 3]);
    assert_eq!(b.vertices.len(), 5);
    // every index stays below the cumulative vertex count
    for &i in &b.indices {
        assert!((i as usize) < b.vertices.len());
    }
}

#[test]
fn build_with_zero_vertices_is_none() {
    let mut gfx = GfxContext::new();
    let mut b = MeshBuilder::<false>::new(7);
    assert!(b.build(&mut gfx).is_none());
    let mut p = MeshBuilder::<true>::new(7);
    assert!(p.build(&mut gfx).is_none());
}

#[test]
fn build_with_vertices_but_no_indices_is_none() {
    let mut gfx = GfxContext::new();
    let mut b = MeshBuilder::<false>::new(0);
    b.extend(&verts(3), &vec![]);
    assert!(b.build(&mut gfx).is_none());
}

#[test]
fn build_drops_zero_length_runs() {
    // materials (A,0), (B,4), (C,4) over 10 indices: B's run is empty and
    // is dropped, leaving (A,4) and (C,6)
    let a = 10;
    let b_mat = 11;
    let c = 12;
    let mut gfx = GfxContext::new();
    let mut b = MeshBuilder::<false>::new(a);
    b.extend(&verts(3), &vec![0, 1, 2, 0]);
    b.set_material(b_mat);
    b.set_material(c);
    b.extend(&verts(3), &vec![0, 1, 2, 0, 1, 2]);
    let mesh = b.build(&mut gfx).unwrap();
    assert_eq!(mesh.materials, vec![(a, 4), (c, 6)]);
}

#[test]
fn run_lengths_sum_to_index_count() {
    let mut gfx = GfxContext::new();
    let mut b = MeshBuilder::<false>::new(1);
    b.extend(&verts(3), &vec![0, 1, 2, 2, 1, 0]);
    b.set_material(2);
    b.extend(&verts(3), &vec![0, 1, 2]);
    let mesh = b.build(&mut gfx).unwrap();
    let total: u32 = mesh.materials.iter().map(|&(_, l)| l).sum();
    assert_eq!(total, b.indices.len() as u32);
    for &(_, l) in &mesh.materials {
        assert!(l > 0);
    }
}

#[test]
fn iter_materials_reports_prefix_sum_offsets() {
    let mesh = Mesh {
        vertex_buffer: 0,
        index_buffer: 1,
        materials: vec![(5, 6), (9, 3), (2, 12)],
        skip_depth: false,
    };
    assert_eq!(mesh.iter_materials(), vec![(5, 0, 6), (9, 6, 3), (2, 9, 12)]);
}

#[test]
fn persistent_builder_reuses_its_buffers() {
    let mut gfx = GfxContext::new();
    let mut b = MeshBuilder::<true>::new(0);
    b.extend(&verts(3), &vec![0, 1, 2]);
    let m1 = b.build(&mut gfx).unwrap();
    // same data again: capacities suffice, no reallocation, same handles
    b.clear();
    b.extend(&verts(3), &vec![0, 1, 2]);
    let m2 = b.build(&mut gfx).unwrap();
    assert_eq!(m1.vertex_buffer, m2.vertex_buffer);
    assert_eq!(m1.index_buffer, m2.index_buffer);
    // the pool buffers hold the tightly packed bytes: 48 per vertex, 4 per index
    let bufs = b.vi_buffers.as_ref().unwrap();
    assert_eq!(bufs.vertex.capacity, 3 * 48);
    assert_eq!(bufs.index.capacity, 3 * 4);
    // more data: the pool grows and reallocates under fresh handles
    b.clear();
    b.extend(&verts(6), &vec![0, 1, 2, 3, 4, 5]);
    let m3 = b.build(&mut gfx).unwrap();
    assert_ne!(m1.vertex_buffer, m3.vertex_buffer);
}

#[test]
fn transient_builds_allocate_fresh_buffers() {
    let mut gfx = GfxContext::new();
    let mut b = MeshBuilder::<false>::new(0);
    b.extend(&verts(3), &vec![0, 1, 2]);
    let m1 = b.build(&mut gfx).unwrap();
    let m2 = b.build(&mut gfx).unwrap();
    assert_ne!(m1.vertex_buffer, m2.vertex_buffer);
    assert_ne!(m1.index_buffer, m2.index_buffer);
}

#[test]
fn clear_resets_storage_but_keeps_materials() {
    let mut gfx = GfxContext::new();
    let mut b = MeshBuilder::<false>::new(3);
    b.extend(&verts(3), &vec![0, 1, 2]);
    b.clear();
    assert_eq!(b.vertices.len(), 0);
    assert_eq!(b.indices.len(), 0);
    b.extend(&verts(3), &vec![2, 1, 0]);
    let mesh = b.build(&mut gfx).unwrap();
    assert_eq!(mesh.materials, vec![(3, 3)]);
}

#[test]
fn extend_with_appends_batch_relative_indices() {
    let mut b = MeshBuilder::<false>::new_without_mat();
    b.set_material(4);
    b.extend_with(verts(3), vec![0, 1, 2]);
    b.extend_with(verts(3), vec![2, 1, 0]);
    assert_eq!(b.indices, vec![0, 1, 2, 5, 4, 3]);
}

#[test]
fn face_accessors_follow_the_index_list() {
    let mut b = MeshBuilder::<false>::new(0);
    b.extend(&verts(4), &vec![0, 2, 3, 3, 2, 1]);
    assert_eq!(b.num_faces(), 2);
    assert_eq!(b.num_vertices_of_face(0), 3);
    assert_eq!(b.position(0, 1), [2, 0, 0]);
    assert_eq!(b.normal(1, 2), [0, 1, 0]);
    assert_eq!(b.tex_coord(1, 0), [3, 3]);
    b.set_tangent_encoded([9, 9, 9, 1], 0, 0);
    assert_eq!(b.vertices[0].tangent, [9, 9, 9, 1]);
    assert_eq!(b.vertices[1].tangent, [0, 0, 0, 0]);
}
