//! Camera/orientation behaviour: zoom clamping and convergence, the two
//! drag-rotation modes, and mode switching.

use map_projections::draw_buffer::{Sampling, TextureRegistry};
use map_projections::rotation::RotStep;
use map_projections::views::base::{
    DragRotation, PanelPoint, ProjectionKind, ViewBase, ViewMode, EW_LIMIT_URAD,
    QUARTER_TURN_URAD, ZOOM_MAX_MILLI, ZOOM_MIN_MILLI,
};

fn fresh_view() -> ViewBase {
    let mut registry = TextureRegistry::new();
    ViewBase::new(Vec::new(), ProjectionKind::Orthographic, 0, &mut registry)
}

fn p(x_milli: i64, y_milli: i64) -> PanelPoint {
    PanelPoint { x_milli, y_milli }
}

fn step_angle(s: &RotStep) -> i64 {
    match s {
        RotStep::AboutY { angle_urad } => *angle_urad,
        RotStep::AboutZ { angle_urad } => *angle_urad,
        RotStep::AboutAxis { angle_urad, .. } => *angle_urad,
    }
}

fn orientation_is_identity(steps: &[RotStep]) -> bool {
    steps.iter().all(|s| step_angle(s) == 0)
}

#[test]
fn new_view_defaults() {
    let v = fresh_view();
    assert_eq!(v.zoom_milli, 1000);
    assert_eq!(v.drag_rotation, DragRotation::NSEW);
    assert_eq!(v.view_mode, ViewMode::GlobeTexture);
    assert!(v.draw_graticule);
    assert_eq!(v.wh_ratio_milli, 1000);
    assert_eq!(v.draw_buf.sampling, Sampling::Multi);
    assert!(orientation_is_identity(&v.orientation()));
}

#[test]
fn zoom_tenth_converges_to_floor_and_never_below() {
    // from any starting zoom, repeated zoom-out by 0.1 reaches the 0.5
    // floor and never crosses it
    for start in [500u64, 501, 999, 1000, 4999, 5000, 123_456, 1_000_000] {
        let mut v = fresh_view();
        v.zoom_by(start); // zoom becomes start (clamped at the floor)
        let mut reached_floor = false;
        for _ in 0..12 {
            v.zoom_by(100);
            assert!(v.zoom_milli >= ZOOM_MIN_MILLI, "zoom fell below the floor");
            if v.zoom_milli == ZOOM_MIN_MILLI {
                reached_floor = true;
            }
        }
        assert!(reached_floor, "zoom starting at {} never reached the floor", start);
        v.zoom_by(100);
        assert_eq!(v.zoom_milli, ZOOM_MIN_MILLI, "the floor is not a fixed point");
    }
}

#[test]
fn zoom_exact_product() {
    let mut v = fresh_view();
    v.zoom_by(1200); // 1.0 * 1.2
    assert_eq!(v.zoom_milli, 1200);
    v.zoom_by(1200); // 1.2 * 1.2 = 1.44
    assert_eq!(v.zoom_milli, 1440);
    v.zoom_by(100); // 1.44 * 0.1 = 0.144 -> clamped to 0.5
    assert_eq!(v.zoom_milli, 500);
}

#[test]
fn zoom_saturates_at_cap() {
    let mut v = fresh_view();
    for _ in 0..200 {
        v.zoom_by(1_000_000);
    }
    assert_eq!(v.zoom_milli, ZOOM_MAX_MILLI);
}

#[test]
fn set_mode_nsew_resets_arbitrary_orientation_to_identity() {
    // round trip: set_orientation(q); set_mode(NSEW) => identity, for any q
    let qs = vec![
        vec![RotStep::AboutAxis { axis_x: 1, axis_y: 2, axis_z: 3, angle_urad: 700_000 }],
        vec![
            RotStep::AboutZ { angle_urad: -250_000 },
            RotStep::AboutY { angle_urad: 1_000_000 },
        ],
        vec![RotStep::AboutY { angle_urad: 42 }],
    ];
    for q in qs {
        let mut v = fresh_view();
        v.set_orientation(q);
        assert_eq!(v.drag_rotation, DragRotation::Free);
        assert!(!orientation_is_identity(&v.orientation()));
        v.set_drag_rotation(DragRotation::NSEW);
        assert!(orientation_is_identity(&v.orientation()));
        assert_eq!(v.angle_ns_urad, 0);
        assert_eq!(v.angle_ew_urad, 0);
    }
}

#[test]
fn set_identity_orientation_keeps_mode() {
    let mut v = fresh_view();
    v.set_orientation(Vec::new());
    assert_eq!(v.drag_rotation, DragRotation::NSEW);
    assert!(orientation_is_identity(&v.orientation()));
}

#[test]
fn nsew_null_drag_changes_nothing() {
    // a drag of zero extent leaves orientation and both angles unchanged
    let points = [p(0, 0), p(1000, 1000), p(-1000, -1000), p(250, -750)];
    for q in points {
        let mut v = fresh_view();
        v.rotate_by_dragging(p(0, 100), p(0, -100)); // give it a non-trivial state
        let ns = v.angle_ns_urad;
        let ew = v.angle_ew_urad;
        let orientation = v.orientation();
        v.rotate_by_dragging(q, q);
        assert_eq!(v.angle_ns_urad, ns);
        assert_eq!(v.angle_ew_urad, ew);
        assert_eq!(v.orientation(), orientation);
    }
}

#[test]
fn nsew_drag_accumulates_scaled_by_zoom() {
    let mut v = fresh_view();
    // vertical drag of 0.2 panel units at zoom 1: 0.2 rad tilt
    v.rotate_by_dragging(p(0, 100), p(0, -100));
    assert_eq!(v.angle_ns_urad, 200_000);
    assert_eq!(v.angle_ew_urad, 0);
    // horizontal drag of 0.2 at zoom 1: 0.2 rad turn, tilt unchanged
    v.rotate_by_dragging(p(-100, 0), p(100, 0));
    assert_eq!(v.angle_ns_urad, 200_000);
    assert_eq!(v.angle_ew_urad, 200_000);
    // the same drags at zoom 2 move half as far
    v.zoom_by(2000);
    v.rotate_by_dragging(p(0, 100), p(0, -100));
    assert_eq!(v.angle_ns_urad, 300_000);
}

#[test]
fn nsew_tilt_never_passes_quarter_turn() {
    // repeated downward drags: |ns| stays within 90 degrees
    let mut v = fresh_view();
    for _ in 0..20 {
        v.rotate_by_dragging(p(0, 100), p(0, -100));
        assert!(v.angle_ns_urad.abs() <= QUARTER_TURN_URAD);
    }
    // 7 drags of 0.2 rad fit; the 8th would pass pi/2 and is rejected
    assert_eq!(v.angle_ns_urad, 1_400_000);
    let mut w = fresh_view();
    for _ in 0..20 {
        w.rotate_by_dragging(p(0, -100), p(0, 100));
        assert!(w.angle_ns_urad.abs() <= QUARTER_TURN_URAD);
    }
    assert_eq!(w.angle_ns_urad, -1_400_000);
}

#[test]
fn nsew_turn_is_unclamped_within_saturation() {
    let mut v = fresh_view();
    for _ in 0..100 {
        v.rotate_by_dragging(p(-1000, 0), p(1000, 0));
    }
    // 100 full-width drags of 2 rad each
    assert_eq!(v.angle_ew_urad, 100 * 2_000_000);
    assert!(v.angle_ew_urad <= EW_LIMIT_URAD);
}

#[test]
fn free_drag_records_cross_product_axis_and_scaled_angle() {
    let mut v = fresh_view();
    v.set_drag_rotation(DragRotation::Free);
    v.rotate_by_dragging(p(-500, 0), p(500, 0));
    let steps = v.orientation();
    assert_eq!(steps.len(), 1);
    match steps[0] {
        RotStep::AboutAxis { axis_x, axis_y, axis_z, angle_urad } => {
            // both points share y = 0, so the axis is the polar (z) axis
            assert_eq!(axis_x, 0);
            assert_eq!(axis_y, 0);
            assert!(axis_z > 0);
            // drag distance 1.0 at zoom 1: exactly 1 rad
            assert_eq!(angle_urad, 1_000_000);
        },
        _ => panic!("expected an axis-angle step"),
    }
}

#[test]
fn free_drag_angle_scales_inverse_with_zoom() {
    let mut v = fresh_view();
    v.set_drag_rotation(DragRotation::Free);
    v.zoom_by(2000);
    v.rotate_by_dragging(p(-500, 0), p(500, 0));
    match v.orientation()[0] {
        RotStep::AboutAxis { angle_urad, .. } => assert_eq!(angle_urad, 500_000),
        _ => panic!("expected an axis-angle step"),
    }
}

#[test]
fn free_drag_distance_is_euclidean() {
    // a 3-4-5 drag: distance exactly 0.5 panel units -> 0.5 rad at zoom 1
    let mut v = fresh_view();
    v.set_drag_rotation(DragRotation::Free);
    v.rotate_by_dragging(p(0, 0), p(300, 400));
    match v.orientation()[0] {
        RotStep::AboutAxis { angle_urad, .. } => assert_eq!(angle_urad, 500_000),
        _ => panic!("expected an axis-angle step"),
    }
    // a non-square distance floors to a whole microradian scale:
    // sqrt(100^2 + 200^2) = sqrt(50000), whose floor root is 223
    let mut w = fresh_view();
    w.set_drag_rotation(DragRotation::Free);
    w.rotate_by_dragging(p(0, 0), p(100, 200));
    match w.orientation()[0] {
        RotStep::AboutAxis { angle_urad, .. } => assert_eq!(angle_urad, 223_000),
        _ => panic!("expected an axis-angle step"),
    }
}

#[test]
fn free_drags_compose() {
    let mut v = fresh_view();
    v.set_drag_rotation(DragRotation::Free);
    v.rotate_by_dragging(p(0, 0), p(100, 0));
    v.rotate_by_dragging(p(0, 0), p(0, 100));
    assert_eq!(v.orientation().len(), 2);
}

#[test]
fn switching_to_free_keeps_nsew_orientation() {
    let mut v = fresh_view();
    v.rotate_by_dragging(p(0, 100), p(0, -100));
    v.rotate_by_dragging(p(-100, 0), p(100, 0));
    v.set_drag_rotation(DragRotation::Free);
    // the accumulated orientation is carried over as an explicit
    // composition: first the east-west turn, then the north-south tilt
    let steps = v.orientation();
    assert_eq!(
        steps,
        vec![
            RotStep::AboutZ { angle_urad: 200_000 },
            RotStep::AboutY { angle_urad: 200_000 },
        ]
    );
    assert_eq!(v.angle_ns_urad, 0);
    assert_eq!(v.angle_ew_urad, 0);
}
