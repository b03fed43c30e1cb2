use render_core::gfx::GfxContext;
use render_core::pbuffer::BufferUsage;
use render_core::pbuffer::PBuffer;

#[test]
fn a_never_written_pool_entry_has_no_buffer() {
    let p = PBuffer::new(BufferUsage::Vertex);
    assert_eq!(p.inner(), None);
    assert_eq!(p.capacity, 0);
}

#[test]
fn writes_grow_the_buffer_and_never_shrink_it() {
    let mut gfx = GfxContext::new();
    let mut p = PBuffer::new(BufferUsage::Index);
    p.write(&mut gfx, &vec![0u8; 10]);
    let first = p.inner().unwrap();
    assert_eq!(p.capacity, 10);
    // a smaller upload reuses the buffer
    p.write(&mut gfx, &vec![0u8; 4]);
    assert_eq!(p.inner().unwrap(), first);
    assert_eq!(p.capacity, 10);
    // a larger upload reallocates under a fresh handle
    p.write(&mut gfx, &vec![0u8; 20]);
    assert_ne!(p.inner().unwrap(), first);
    assert_eq!(p.capacity, 20);
}

#[test]
fn an_empty_write_allocates_nothing() {
    let mut gfx = GfxContext::new();
    let mut p = PBuffer::new(BufferUsage::Vertex);
    p.write(&mut gfx, &vec![]);
    assert_eq!(p.inner(), None);
    assert_eq!(gfx.next_buffer_id, 0);
}

#[test]
fn material_registry_resolves_by_id() {
    let mut gfx = GfxContext::new();
    let a = gfx.add_material(10, false);
    let b = gfx.add_material(11, true);
    assert_eq!(a, 0);
    assert_eq!(b, 1);
    assert_eq!(gfx.material(a).bg, 10);
    assert!(!gfx.material(a).transparent);
    assert!(gfx.material(b).transparent);
}
