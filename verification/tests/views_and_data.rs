//! Views over the shared resource set: creation, unique ids, panel
//! resizing, render plans, and the end-to-end drag scenario.

use map_projections::clipboard_support::{init, ClipboardSupport};
use map_projections::data::ProgramData;
use map_projections::draw_buffer::{Sampling, TextureRegistry};
use map_projections::mesh::{LonLatVertex, SourceShape};
use map_projections::rotation::RotStep;
use map_projections::views::base::{DragRotation, PanelPoint, ProjectionKind, ViewMode};
use map_projections::views::{
    CylindricalLambertView, GnomonicView, OrthographicView, StereographicView,
};

fn point(lon_udeg: i64, lat_udeg: i64) -> LonLatVertex {
    LonLatVertex { lon_udeg, lat_udeg }
}

fn small_source() -> Vec<SourceShape> {
    vec![SourceShape::Polyline {
        parts: vec![vec![point(0, 0), point(1_000_000, 1_000_000), point(2_000_000, 0)]],
    }]
}

#[test]
fn program_data_builds_all_meshes() {
    let data = ProgramData::new(&small_source());
    assert_eq!(data.id_counter, 0);
    assert_eq!(data.globe_mesh.vertices.len(), 89 * 181 + 2);
    assert_eq!(data.graticule_mesh.vertices.len(), 37 * 181 + 19 * 361);
    assert_eq!(data.map_mesh.vertices.len(), 3);
    assert_eq!(data.map_mesh.indices, vec![0, 1, 1, 2]);
    assert!(data.orthographic_views.is_empty());
}

#[test]
fn unique_ids_are_monotonic() {
    let mut data = ProgramData::new(&vec![]);
    assert_eq!(data.new_unique_id(), 0);
    assert_eq!(data.new_unique_id(), 1);
    assert_eq!(data.new_unique_id(), 2);
}

#[test]
fn each_view_kind_gets_its_projection_and_id() {
    let mut data = ProgramData::new(&vec![]);
    let mut registry = TextureRegistry::new();
    let o = OrthographicView::new(&mut data, &mut registry);
    let s = StereographicView::new(&mut data, &mut registry);
    let g = GnomonicView::new(&mut data, &mut registry);
    let c = CylindricalLambertView::new(&mut data, &mut registry);
    assert_eq!(o.unique_id(), 0);
    assert_eq!(s.unique_id(), 1);
    assert_eq!(g.unique_id(), 2);
    assert_eq!(c.unique_id(), 3);
    assert_eq!(o.base.projection, ProjectionKind::Orthographic);
    assert_eq!(s.base.projection, ProjectionKind::Stereographic);
    assert_eq!(g.base.projection, ProjectionKind::Gnomonic);
    assert_eq!(c.base.projection, ProjectionKind::CylindricalLambert);
    assert_ne!(o.base.draw_buf.handle, s.base.draw_buf.handle);
    let mut data2 = data;
    data2.add_orthographic_view(o);
    assert_eq!(data2.orthographic_views().len(), 1);
}

#[test]
fn update_size_ignores_degenerate_panels() {
    let mut data = ProgramData::new(&vec![]);
    let mut registry = TextureRegistry::new();
    let mut view = OrthographicView::new(&mut data, &mut registry);
    let before_ratio = view.base.wh_ratio_milli;
    let before_gen = view.base.draw_buf.storage_gen;
    view.base_mut().update_size(640, 0);
    assert_eq!(view.base.wh_ratio_milli, before_ratio);
    assert_eq!(view.base.draw_buf.storage_gen, before_gen);
    assert_eq!(view.base.draw_buf.width(), 256);
}

#[test]
fn update_size_recomputes_aspect_ratio() {
    let mut data = ProgramData::new(&vec![]);
    let mut registry = TextureRegistry::new();
    let mut view = OrthographicView::new(&mut data, &mut registry);
    view.base_mut().update_size(640, 480);
    assert_eq!(view.base.wh_ratio_milli, 1333);
    assert_eq!((view.base.draw_buf.width(), view.base.draw_buf.height()), (640, 480));
    let handle = view.base.draw_buf.handle;
    view.base_mut().update_size(640, 480);
    assert_eq!(view.base.draw_buf.handle, handle);
}

#[test]
fn render_plan_reflects_view_state() {
    let mut data = ProgramData::new(&vec![]);
    let mut registry = TextureRegistry::new();
    let mut view = StereographicView::new(&mut data, &mut registry);
    let base = view.base_mut();
    assert!(base.needs_render);
    let plan = base.render();
    assert!(!base.needs_render);
    assert_eq!(plan.projection, ProjectionKind::Stereographic);
    assert_eq!(plan.view_mode, ViewMode::GlobeTexture);
    assert_eq!((plan.clear_color.r, plan.clear_color.g, plan.clear_color.b), (500, 500, 500));
    assert!(plan.graticule_overlay.is_some());
    assert_eq!(plan.resolve_sampling, Sampling::Multi);
    assert!(base.draw_buf.storage_is_current());

    base.set_view_mode(ViewMode::VectorMap);
    base.draw_graticule = false;
    assert!(base.needs_render);
    let plan = base.render();
    assert_eq!((plan.clear_color.r, plan.clear_color.g, plan.clear_color.b), (870, 870, 870));
    assert_eq!((plan.line_color.r, plan.line_color.g, plan.line_color.b), (0, 0, 0));
    assert!(plan.graticule_overlay.is_none());
}

#[test]
fn end_to_end_free_drag_scenario() {
    // create a view, size it, switch to free mode and drag horizontally:
    // the recorded rotation is about the polar axis with a positive angle
    // matching the 1.0 drag distance at zoom 1
    let mut data = ProgramData::new(&small_source());
    let mut registry = TextureRegistry::new();
    let mut view = OrthographicView::new(&mut data, &mut registry);
    let base = view.base_mut();
    base.update_size(640, 480);
    base.set_drag_rotation(DragRotation::Free);
    base.rotate_by_dragging(
        PanelPoint { x_milli: -500, y_milli: 0 },
        PanelPoint { x_milli: 500, y_milli: 0 },
    );
    let plan = base.render();
    assert_eq!(plan.wh_ratio_milli, 1333);
    assert_eq!(plan.zoom_milli, 1000);
    assert_eq!(plan.orientation.len(), 1);
    match plan.orientation[0] {
        RotStep::AboutAxis { axis_x, axis_y, axis_z, angle_urad } => {
            assert_eq!((axis_x, axis_y), (0, 0));
            assert!(axis_z > 0);
            assert!(angle_urad > 0);
            assert_eq!(angle_urad, 1_000_000);
        },
        _ => panic!("expected an axis-angle step"),
    }
}

#[test]
fn clipboard_support_remembers_text() {
    let support = init();
    let mut support: ClipboardSupport = support.expect("clipboard support always initializes");
    assert!(support.get().is_none());
    support.set("hello globe");
    assert_eq!(support.get().map(String::as_str), Some("hello globe"));
    support.set("second");
    assert_eq!(support.get().map(String::as_str), Some("second"));
}
