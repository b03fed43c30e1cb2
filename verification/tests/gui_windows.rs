use render_core::gui::GUIWindows;
use render_core::vertex::ColoredVertex;
use render_core::vertex::MeshVertex;
use render_core::vertex::AttrFormat;
use render_core::vertex::StepMode;

#[test]
fn windows_start_closed() {
    let w = GUIWindows::default();
    assert!(!w.economy_open);
}

#[test]
fn menu_click_toggles_the_economy_window() {
    let mut w = GUIWindows::default();
    w.menu(false);
    assert!(!w.economy_open);
    w.menu(true);
    assert!(w.economy_open);
    w.menu(true);
    assert!(!w.economy_open);
}

#[test]
fn render_toggles_on_the_hotkey_and_reports_visibility() {
    let mut w = GUIWindows::default();
    assert!(!w.render(false));
    assert!(w.render(true));
    assert!(w.render(false));
    assert!(!w.render(true));
}

#[test]
fn colored_vertex_layout_is_position_then_color() {
    let d = ColoredVertex::desc();
    assert_eq!(d.array_stride, 28);
    assert_eq!(d.step_mode, StepMode::Vertex);
    assert_eq!(d.attributes.len(), 2);
    assert_eq!(d.attributes[0].location, 0);
    assert_eq!(d.attributes[0].offset, 0);
    assert_eq!(d.attributes[0].format, AttrFormat::Float32x3);
    assert_eq!(d.attributes[1].location, 1);
    assert_eq!(d.attributes[1].offset, 12);
    assert_eq!(d.attributes[1].format, AttrFormat::Float32x4);
}

#[test]
fn mesh_vertex_layout_is_48_bytes_tightly_packed() {
    let d = MeshVertex::desc();
    assert_eq!(d.array_stride, 48);
    let offsets: Vec<u64> = d.attributes.iter().map(|a| a.offset).collect();
    assert_eq!(offsets, vec![0, 12, 24, 32]);
}
