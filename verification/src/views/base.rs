//! Per-view camera state and the drag/zoom interaction model.
//!
//! The globe is centered at the origin with radius 1 and the camera sits at
//! (1, 0, 0) looking at the origin; with the identity orientation the
//! observer faces longitude 0, latitude 0. Drag positions over the panel
//! are normalized to [-1, 1] on both axes and carried here in thousandths
//! (`PanelPoint`). Accumulated angles are kept in microradians, the zoom
//! factor in thousandths.

use vstd::prelude::*;

use crate::arith::{isqrt_u64, spec_isqrt};
use crate::draw_buffer::{DrawBuffer, Sampling, TextureRegistry};
use crate::rotation::{is_identity, orientation_is_identity, step_wf, steps_wf, RotStep};

verus! {

/// How a mouse drag rotates the globe.
#[derive(Clone, Copy, PartialEq, Eq, Structural, Debug)]
pub enum DragRotation {
    NSEW,
    Free,
}

/// What the view draws: the textured globe or the vector coastline map.
#[derive(Clone, Copy, PartialEq, Eq, Structural, Debug)]
pub enum ViewMode {
    VectorMap,
    GlobeTexture,
}

/// The map projection a view renders with; selects the shader pair.
#[derive(Clone, Copy, PartialEq, Eq, Structural, Debug)]
pub enum ProjectionKind {
    CylindricalLambert,
    Gnomonic,
    Orthographic,
    Stereographic,
}

/// A position over the view panel, normalized to [-1, 1] on each axis and
/// stored in thousandths: bottom-left is (-1000, -1000), top-right is
/// (1000, 1000).
#[derive(Clone, Copy, PartialEq, Eq, Structural, Debug)]
pub struct PanelPoint {
    pub x_milli: i64,
    pub y_milli: i64,
}

/// An RGBA color with each channel in thousandths of full intensity.
#[derive(Clone, Copy, PartialEq, Eq, Structural, Debug)]
pub struct RgbaMilli {
    pub r: u16,
    pub g: u16,
    pub b: u16,
    pub a: u16,
}

/// Lower clamp of the zoom factor, in thousandths.
pub const ZOOM_MIN_MILLI: u64 = 500;

/// Upper saturation of the zoom factor, in thousandths. The interaction
/// model places no bound of its own on zooming in; this cap only keeps the
/// fixed-point product exact.
pub const ZOOM_MAX_MILLI: u64 = 1_000_000_000_000;

/// Largest accepted relative zoom factor per wheel gesture, in thousandths.
pub const ZOOM_FACTOR_MAX_MILLI: u64 = 1_000_000;

/// A quarter turn (90 degrees) in microradians; the north-south angle never
/// exceeds it in magnitude, so a drag cannot flip the globe over a pole.
pub const QUARTER_TURN_URAD: i64 = 1_570_796;

/// Saturation bound of the accumulated east-west angle, in microradians.
/// East-west rotation wraps periodically, so saturating at around 159
/// million full turns is indistinguishable from an unbounded accumulator
/// while keeping the arithmetic exact.
pub const EW_LIMIT_URAD: i64 = 1_000_000_000_000_000;

/// Whether a drag position lies within the normalized panel square.
pub open spec fn in_panel(p: PanelPoint) -> bool {
    -1000 <= p.x_milli <= 1000 && -1000 <= p.y_milli <= 1000
}

/// The zoom factor after applying a relative factor `f` (thousandths) to
/// zoom `z` (thousandths): the product, clamped below at the floor and
/// saturated above at the cap.
pub open spec fn spec_zoom_by(z: int, f: int) -> int {
    let raw = z * f / 1000;
    if raw < ZOOM_MIN_MILLI {
        ZOOM_MIN_MILLI as int
    } else if raw > ZOOM_MAX_MILLI {
        ZOOM_MAX_MILLI as int
    } else {
        raw
    }
}

/// Magnitude of the rotation (microradians) produced by a drag delta `d`
/// (thousandths of panel extent) at zoom `z` (thousandths): the delta
/// scaled by 1/zoom, so the same motion rotates less when zoomed in.
pub open spec fn drag_mag_urad(d: int, z: int) -> int {
    (vstd::math::abs(d) as int) * 1_000_000 / z
}

/// The signed rotation of a drag delta `d` at zoom `z`, in microradians.
pub open spec fn signed_drag_urad(d: int, z: int) -> int {
    if d >= 0 {
        drag_mag_urad(d, z)
    } else {
        -drag_mag_urad(d, z)
    }
}

/// Saturation of the accumulated east-west angle.
pub open spec fn clamp_ew(v: int) -> int {
    if v > EW_LIMIT_URAD {
        EW_LIMIT_URAD as int
    } else if v < -EW_LIMIT_URAD {
        -EW_LIMIT_URAD as int
    } else {
        v
    }
}

/// The primitive rotation recorded for a free-mode drag from `s` to `e` at
/// zoom `z`: the axis is the cross product of the two view-space direction
/// vectors (1, s.x, s.y) and (1, e.x, e.y) scaled into fixed point, and the
/// angle is the Euclidean drag distance divided by the zoom factor.
pub open spec fn free_drag_step(s: PanelPoint, e: PanelPoint, z: int) -> RotStep {
    let dx = s.x_milli - e.x_milli;
    let dy = s.y_milli - e.y_milli;
    RotStep::AboutAxis {
        axis_x: (s.x_milli * e.y_milli - s.y_milli * e.x_milli) as i64,
        axis_y: (1000 * (s.y_milli - e.y_milli)) as i64,
        axis_z: (1000 * (e.x_milli - s.x_milli)) as i64,
        angle_urad: (spec_isqrt(dx * dx + dy * dy) * 1_000_000 / z) as i64,
    }
}

/// The orientation that north-south/east-west mode denotes: first the
/// east-west turn about the polar axis, then the north-south tilt.
pub open spec fn nsew_steps(ns_urad: int, ew_urad: int) -> Seq<RotStep> {
    seq![
        RotStep::AboutZ { angle_urad: ew_urad as i64 },
        RotStep::AboutY { angle_urad: ns_urad as i64 },
    ]
}

/// The orientation recorded when leaving north-south/east-west mode with
/// the given accumulated angles: the empty composition when both are zero,
/// otherwise the two-step composition they denote.
pub open spec fn materialized_nsew(ns_urad: int, ew_urad: int) -> Seq<RotStep> {
    if ns_urad == 0 && ew_urad == 0 {
        Seq::empty()
    } else {
        nsew_steps(ns_urad, ew_urad)
    }
}

/// Clear color for a view mode: mid-gray behind the textured globe,
/// light gray behind the vector map.
pub open spec fn clear_color_of(vm: ViewMode) -> RgbaMilli {
    match vm {
        ViewMode::GlobeTexture => RgbaMilli { r: 500, g: 500, b: 500, a: 1000 },
        ViewMode::VectorMap => RgbaMilli { r: 870, g: 870, b: 870, a: 1000 },
    }
}

/// Uniform color of the vector-map lines.
pub open spec fn map_line_color() -> RgbaMilli {
    RgbaMilli { r: 0, g: 0, b: 0, a: 1000 }
}

/// Uniform color of the graticule overlay.
pub open spec fn graticule_color() -> RgbaMilli {
    RgbaMilli { r: 600, g: 600, b: 600, a: 1000 }
}

/// Everything one re-render of a view needs, in plain values: which meshes
/// and programs to use, the clear and line colors, and the uniforms
/// (orientation, zoom, aspect ratio). Consuming a plan means: clear, draw
/// the primary pass, optionally overlay the graticule, then resolve the
/// draw surface into the storage surface with the copy program matching
/// `resolve_sampling`.
pub struct RenderPlan {
    pub projection: ProjectionKind,
    pub view_mode: ViewMode,
    pub clear_color: RgbaMilli,
    pub line_color: RgbaMilli,
    pub graticule_overlay: Option<RgbaMilli>,
    pub orientation: Vec<RotStep>,
    pub zoom_milli: u64,
    pub wh_ratio_milli: u64,
    pub resolve_sampling: Sampling,
}

/// State shared by all views: camera orientation, interaction mode, zoom,
/// render target and display options.
pub struct ViewBase {
    pub unique_id: u32,
    pub projection: ProjectionKind,
    pub drag_rotation: DragRotation,
    pub view_mode: ViewMode,
    pub draw_graticule: bool,
    pub angle_ns_urad: i64,
    pub angle_ew_urad: i64,
    pub free_steps: Vec<RotStep>,
    pub zoom_milli: u64,
    pub wh_ratio_milli: u64,
    pub draw_buf: DrawBuffer,
    pub needs_render: bool,
}

impl ViewBase {
    /// Camera-state invariant: the north-south angle stays within a quarter
    /// turn, the east-west angle within its saturation bound, the zoom
    /// within its clamps; in free mode the accumulated angles are not
    /// meaningful and are held at zero; every recorded rotation step has a
    /// usable axis.
    pub open spec fn wf(self) -> bool {
        &&& -QUARTER_TURN_URAD <= self.angle_ns_urad <= QUARTER_TURN_URAD
        &&& -EW_LIMIT_URAD <= self.angle_ew_urad <= EW_LIMIT_URAD
        &&& ZOOM_MIN_MILLI <= self.zoom_milli <= ZOOM_MAX_MILLI
        &&& self.drag_rotation == DragRotation::Free ==> self.angle_ns_urad == 0
            && self.angle_ew_urad == 0
        &&& steps_wf(self.free_steps@)
        &&& self.draw_buf.wf()
    }

    /// The current orientation as a composition of primitive rotations: in
    /// north-south/east-west mode it is derived from the two accumulated
    /// angles, in free mode it is the recorded composition.
    pub open spec fn spec_orientation(self) -> Seq<RotStep> {
        if self.drag_rotation == DragRotation::NSEW {
            nsew_steps(self.angle_ns_urad as int, self.angle_ew_urad as int)
        } else {
            self.free_steps@
        }
    }

    /// A fresh view with the given starting orientation: north-south/east-west
    /// drag mode if that orientation is the identity, free mode otherwise;
    /// textured globe with graticule, zoom 1, square aspect ratio, and a
    /// multisampled render target at the default size, awaiting its first
    /// render.
    pub fn new(
        orientation: Vec<RotStep>,
        projection: ProjectionKind,
        unique_id: u32,
        registry: &mut TextureRegistry,
    ) -> (r: ViewBase)
        requires
            steps_wf(orientation@),
            old(registry).next_handle < u32::MAX,
        ensures
            final(registry).next_handle == old(registry).next_handle + 1,
            r.wf(),
            r.unique_id == unique_id,
            r.projection == projection,
            r.drag_rotation == (if is_identity(orientation@) {
                DragRotation::NSEW
            } else {
                DragRotation::Free
            }),
            r.view_mode == ViewMode::GlobeTexture,
            r.draw_graticule,
            r.angle_ns_urad == 0,
            r.angle_ew_urad == 0,
            r.free_steps@ == orientation@,
            r.zoom_milli == 1000,
            r.wh_ratio_milli == 1000,
            r.draw_buf.sampling == Sampling::Multi,
            r.draw_buf.width == crate::draw_buffer::INITIAL_DRAW_BUF_SIZE,
            r.draw_buf.height == crate::draw_buffer::INITIAL_DRAW_BUF_SIZE,
            r.draw_buf.handle == old(registry).next_handle,
            r.needs_render,
    {
        let drag_rotation = if orientation_is_identity(&orientation) {
            DragRotation::NSEW
        } else {
            DragRotation::Free
        };
        ViewBase {
            unique_id,
            projection,
            drag_rotation,
            view_mode: ViewMode::GlobeTexture,
            draw_graticule: true,
            angle_ns_urad: 0,
            angle_ew_urad: 0,
            free_steps: orientation,
            zoom_milli: 1000,
            wh_ratio_milli: 1000,
            draw_buf: DrawBuffer::new(Sampling::Multi, registry),
            needs_render: true,
        }
    }

    /// Ask for a repaint of the current state.
    pub fn refresh(&mut self)
        ensures
            *final(self) == (ViewBase { needs_render: true, ..*old(self) }),
    {
        self.needs_render = true;
    }

    /// The current display mode.
    pub fn view_mode(&self) -> (r: ViewMode)
        ensures
            r == self.view_mode,
    {
        self.view_mode
    }

    /// Switch between the textured globe and the vector map.
    pub fn set_view_mode(&mut self, view_mode: ViewMode)
        ensures
            *final(self) == (ViewBase {
                view_mode,
                needs_render: true,
                ..*old(self)
            }),
    {
        self.view_mode = view_mode;
        self.needs_render = true;
    }

    /// The current drag-rotation mode.
    pub fn drag_rotation(&self) -> (r: DragRotation)
        ensures
            r == self.drag_rotation,
    {
        self.drag_rotation
    }

    /// The stable display handle of this view's render target.
    pub fn draw_buf_id(&self) -> (r: u32)
        ensures
            r == self.draw_buf.handle,
    {
        self.draw_buf.id()
    }

    /// The current orientation as a list of primitive rotations.
    pub fn orientation(&self) -> (r: Vec<RotStep>)
        ensures
            r@ == self.spec_orientation(),
    {
        match self.drag_rotation {
            DragRotation::NSEW => {
                let mut steps: Vec<RotStep> = Vec::new();
                steps.push(RotStep::AboutZ { angle_urad: self.angle_ew_urad });
                steps.push(RotStep::AboutY { angle_urad: self.angle_ns_urad });
                proof {
                    assert(steps@ =~= nsew_steps(
                        self.angle_ns_urad as int,
                        self.angle_ew_urad as int,
                    ));
                }
                steps
            },
            DragRotation::Free => {
                let mut steps: Vec<RotStep> = Vec::new();
                let mut i: usize = 0;
                while i < self.free_steps.len()
                    invariant
                        0 <= i <= self.free_steps@.len(),
                        steps@ == self.free_steps@.take(i as int),
                    decreases self.free_steps@.len() - i,
                {
                    steps.push(self.free_steps[i]);
                    proof {
                        assert(steps@ =~= self.free_steps@.take(i + 1));
                    }
                    i = i + 1;
                }
                proof {
                    assert(steps@ =~= self.free_steps@);
                }
                steps
            },
        }
    }

    /// Multiply the zoom factor by `relative_zoom_milli` (thousandths),
    /// clamped below at 1/2; a repaint becomes due.
    pub fn zoom_by(&mut self, relative_zoom_milli: u64)
        requires
            old(self).wf(),
            relative_zoom_milli <= ZOOM_FACTOR_MAX_MILLI,
        ensures
            final(self).wf(),
            final(self).zoom_milli == spec_zoom_by(
                old(self).zoom_milli as int,
                relative_zoom_milli as int,
            ),
            final(self).zoom_milli >= ZOOM_MIN_MILLI,
            *final(self) == (ViewBase {
                zoom_milli: final(self).zoom_milli,
                needs_render: true,
                ..*old(self)
            }),
    {
        proof {
            let z = old(self).zoom_milli;
            let f = relative_zoom_milli;
            assert(z * f <= 1_000_000_000_000i64 * 1_000_000i64) by (nonlinear_arith)
                requires
                    z <= 1_000_000_000_000u64,
                    f <= 1_000_000u64;
        }
        let raw: u64 = self.zoom_milli * relative_zoom_milli / 1000;
        self.zoom_milli = if raw < ZOOM_MIN_MILLI {
            ZOOM_MIN_MILLI
        } else if raw > ZOOM_MAX_MILLI {
            ZOOM_MAX_MILLI
        } else {
            raw
        };
        self.needs_render = true;
    }

    /// Replace the orientation wholesale. A non-identity orientation cannot
    /// be expressed in north-south/east-west terms, so setting one forces
    /// free mode; the accumulated angles are cleared either way.
    pub fn set_orientation(&mut self, orientation: Vec<RotStep>)
        requires
            old(self).wf(),
            steps_wf(orientation@),
        ensures
            final(self).wf(),
            final(self).drag_rotation == (if is_identity(orientation@) {
                old(self).drag_rotation
            } else {
                DragRotation::Free
            }),
            final(self).free_steps@ == orientation@,
            final(self).angle_ns_urad == 0,
            final(self).angle_ew_urad == 0,
            is_identity(orientation@) ==> is_identity(final(self).spec_orientation()),
            !is_identity(orientation@) ==> final(self).spec_orientation() == orientation@,
            *final(self) == (ViewBase {
                drag_rotation: final(self).drag_rotation,
                free_steps: final(self).free_steps,
                angle_ns_urad: 0,
                angle_ew_urad: 0,
                needs_render: true,
                ..*old(self)
            }),
    {
        if !orientation_is_identity(&orientation) {
            self.drag_rotation = DragRotation::Free;
        }
        self.free_steps = orientation;
        self.angle_ns_urad = 0;
        self.angle_ew_urad = 0;
        self.needs_render = true;
    }

    /// Switch the drag-rotation mode. Switching to north-south/east-west
    /// resets the orientation to the identity (that mode cannot represent
    /// an arbitrary orientation) and asks for a repaint; switching to free
    /// keeps the current orientation, recorded as an explicit composition.
    pub fn set_drag_rotation(&mut self, drag_rotation: DragRotation)
        requires
            old(self).wf(),
        ensures
            final(self).wf(),
            final(self).drag_rotation == drag_rotation,
            drag_rotation == DragRotation::NSEW ==> {
                &&& final(self).angle_ns_urad == 0
                &&& final(self).angle_ew_urad == 0
                &&& final(self).free_steps@ == Seq::<RotStep>::empty()
                &&& is_identity(final(self).spec_orientation())
                &&& final(self).needs_render
            },
            drag_rotation == DragRotation::Free ==> {
                &&& final(self).angle_ns_urad == 0
                &&& final(self).angle_ew_urad == 0
                &&& final(self).needs_render == old(self).needs_render
                &&& final(self).free_steps@ == (if old(self).drag_rotation
                    == DragRotation::NSEW {
                    materialized_nsew(
                        old(self).angle_ns_urad as int,
                        old(self).angle_ew_urad as int,
                    )
                } else {
                    old(self).free_steps@
                })
            },
            final(self).unique_id == old(self).unique_id,
            final(self).projection == old(self).projection,
            final(self).view_mode == old(self).view_mode,
            final(self).draw_graticule == old(self).draw_graticule,
            final(self).zoom_milli == old(self).zoom_milli,
            final(self).wh_ratio_milli == old(self).wh_ratio_milli,
            final(self).draw_buf == old(self).draw_buf,
    {
        match drag_rotation {
            DragRotation::NSEW => {
                self.drag_rotation = DragRotation::NSEW;
                self.angle_ns_urad = 0;
                self.angle_ew_urad = 0;
                self.free_steps = Vec::new();
                self.needs_render = true;
            },
            DragRotation::Free => {
                if matches!(self.drag_rotation, DragRotation::NSEW) {
                    let mut steps: Vec<RotStep> = Vec::new();
                    if self.angle_ns_urad != 0 || self.angle_ew_urad != 0 {
                        steps.push(RotStep::AboutZ { angle_urad: self.angle_ew_urad });
                        steps.push(RotStep::AboutY { angle_urad: self.angle_ns_urad });
                        proof {
                            assert(steps@ =~= nsew_steps(
                                self.angle_ns_urad as int,
                                self.angle_ew_urad as int,
                            ));
                        }
                    }
                    self.free_steps = steps;
                    self.angle_ns_urad = 0;
                    self.angle_ew_urad = 0;
                }
                self.drag_rotation = DragRotation::Free;
            },
        }
    }

    /// Rotate the globe by a drag from `start` to `end`, both normalized
    /// panel positions in thousandths.
    ///
    /// In free mode the drag acts like a space ball: the recorded rotation
    /// turns about the cross product of the two view-space directions by
    /// the drag distance over the zoom factor; a drag of zero extent has no
    /// defined axis, so free mode asks `start != end` of its caller.
    ///
    /// In north-south/east-west mode the vertical delta tilts and the
    /// horizontal delta turns, each scaled by 1/zoom; the tilt candidate is
    /// taken only while it stays within a quarter turn, so repeated drags
    /// can never push the tilt past a pole, and a null drag changes
    /// nothing.
    pub fn rotate_by_dragging(&mut self, start: PanelPoint, end: PanelPoint)
        requires
            old(self).wf(),
            in_panel(start),
            in_panel(end),
            old(self).drag_rotation == DragRotation::Free ==> start != end,
        ensures
            final(self).wf(),
            final(self).needs_render,
            old(self).drag_rotation == DragRotation::NSEW ==> {
                let cand = old(self).angle_ns_urad + signed_drag_urad(
                    start.y_milli - end.y_milli,
                    old(self).zoom_milli as int,
                );
                &&& final(self).angle_ns_urad == (if -QUARTER_TURN_URAD <= cand
                    <= QUARTER_TURN_URAD {
                    cand
                } else {
                    old(self).angle_ns_urad as int
                })
                &&& final(self).angle_ew_urad == clamp_ew(
                    old(self).angle_ew_urad + signed_drag_urad(
                        end.x_milli - start.x_milli,
                        old(self).zoom_milli as int,
                    ),
                )
                &&& final(self).free_steps@ == old(self).free_steps@
            },
            old(self).drag_rotation == DragRotation::Free ==> {
                &&& final(self).free_steps@ == old(self).free_steps@.push(
                    free_drag_step(start, end, old(self).zoom_milli as int),
                )
                &&& final(self).angle_ns_urad == old(self).angle_ns_urad
                &&& final(self).angle_ew_urad == old(self).angle_ew_urad
            },
            -QUARTER_TURN_URAD <= final(self).angle_ns_urad <= QUARTER_TURN_URAD,
            old(self).drag_rotation == DragRotation::NSEW && start == end ==> {
                &&& final(self).angle_ns_urad == old(self).angle_ns_urad
                &&& final(self).angle_ew_urad == old(self).angle_ew_urad
                &&& final(self).spec_orientation() == old(self).spec_orientation()
            },
            *final(self) == (ViewBase {
                angle_ns_urad: final(self).angle_ns_urad,
                angle_ew_urad: final(self).angle_ew_urad,
                free_steps: final(self).free_steps,
                needs_render: true,
                ..*old(self)
            }),
    {
        match self.drag_rotation {
            DragRotation::Free => {
                let dx: i64 = start.x_milli - end.x_milli;
                let dy: i64 = start.y_milli - end.y_milli;
                proof {
                    assert(dx * dx <= 4_000_000 && dx * dx >= 0) by (nonlinear_arith)
                        requires -2000 <= dx <= 2000;
                    assert(dy * dy <= 4_000_000 && dy * dy >= 0) by (nonlinear_arith)
                        requires -2000 <= dy <= 2000;
                    assert(start.x_milli * end.y_milli <= 1_000_000
                        && start.x_milli * end.y_milli >= -1_000_000) by (nonlinear_arith)
                        requires
                            -1000 <= start.x_milli <= 1000,
                            -1000 <= end.y_milli <= 1000;
                    assert(start.y_milli * end.x_milli <= 1_000_000
                        && start.y_milli * end.x_milli >= -1_000_000) by (nonlinear_arith)
                        requires
                            -1000 <= start.y_milli <= 1000,
                            -1000 <= end.x_milli <= 1000;
                }
                let d2: u64 = (dx * dx + dy * dy) as u64;
                let dist: u64 = isqrt_u64(d2);
                proof {
                    assert(dist <= 2828) by (nonlinear_arith)
                        requires dist * dist <= 8_000_000u64;
                }
                let angle: u64 = dist * 1_000_000 / self.zoom_milli;
                let step = RotStep::AboutAxis {
                    axis_x: start.x_milli * end.y_milli - start.y_milli * end.x_milli,
                    axis_y: 1000 * (start.y_milli - end.y_milli),
                    axis_z: 1000 * (end.x_milli - start.x_milli),
                    angle_urad: angle as i64,
                };
                proof {
                    assert(step_wf(step));
                    assert(step == free_drag_step(start, end, self.zoom_milli as int));
                }
                self.free_steps.push(step);
            },
            DragRotation::NSEW => {
                let zoom: u64 = self.zoom_milli;

                let d_ns: i64 = start.y_milli - end.y_milli;
                let mag_ns: u64 = if d_ns >= 0 { d_ns as u64 } else { (-d_ns) as u64 };
                let delta_ns: u64 = mag_ns * 1_000_000 / zoom;
                let cand_ns: i64 = if d_ns >= 0 {
                    self.angle_ns_urad + delta_ns as i64
                } else {
                    self.angle_ns_urad - delta_ns as i64
                };
                if -QUARTER_TURN_URAD <= cand_ns && cand_ns <= QUARTER_TURN_URAD {
                    self.angle_ns_urad = cand_ns;
                }

                let d_ew: i64 = end.x_milli - start.x_milli;
                let mag_ew: u64 = if d_ew >= 0 { d_ew as u64 } else { (-d_ew) as u64 };
                let delta_ew: u64 = mag_ew * 1_000_000 / zoom;
                let cand_ew: i64 = if d_ew >= 0 {
                    self.angle_ew_urad + delta_ew as i64
                } else {
                    self.angle_ew_urad - delta_ew as i64
                };
                self.angle_ew_urad = if cand_ew > EW_LIMIT_URAD {
                    EW_LIMIT_URAD
                } else if cand_ew < -EW_LIMIT_URAD {
                    -EW_LIMIT_URAD
                } else {
                    cand_ew
                };
            },
        }
        self.needs_render = true;
    }

    /// Resize the view to the panel's pixel size. A degenerate panel (zero
    /// width or height) is ignored; an unchanged size is an exact no-op;
    /// otherwise the render target is reallocated behind its stable handle,
    /// the aspect ratio is recomputed and a repaint becomes due.
    pub fn update_size(&mut self, width: u32, height: u32)
        requires
            old(self).wf(),
            old(self).draw_buf.draw_gen < u64::MAX,
            old(self).draw_buf.storage_gen < u64::MAX,
        ensures
            final(self).wf(),
            width == 0 || height == 0 ==> *final(self) == *old(self),
            width >= 1 && height >= 1 && width == old(self).draw_buf.width && height == old(
                self,
            ).draw_buf.height ==> *final(self) == *old(self),
            width >= 1 && height >= 1 && !(width == old(self).draw_buf.width && height == old(
                self,
            ).draw_buf.height) ==> {
                &&& final(self).draw_buf.width == width
                &&& final(self).draw_buf.height == height
                &&& final(self).draw_buf.handle == old(self).draw_buf.handle
                &&& final(self).draw_buf.draw_gen == old(self).draw_buf.draw_gen + 1
                &&& final(self).draw_buf.storage_gen == old(self).draw_buf.storage_gen + 1
                &&& final(self).wh_ratio_milli == width as int * 1000 / height as int
                &&& final(self).needs_render
                &&& *final(self) == (ViewBase {
                    draw_buf: final(self).draw_buf,
                    wh_ratio_milli: final(self).wh_ratio_milli,
                    needs_render: true,
                    ..*old(self)
                })
            },
    {
        if width == 0 || height == 0 {
            return ;
        }
        let changed = self.draw_buf.update_size(width, height);
        if changed {
            self.wh_ratio_milli = (width as u64) * 1000 / (height as u64);
            self.needs_render = true;
        }
    }

    /// Produce the plan for re-rendering the current state and account for
    /// the draw pass and its resolve on the render target; the repaint
    /// request is consumed.
    pub fn render(&mut self) -> (plan: RenderPlan)
        requires
            old(self).wf(),
            old(self).draw_buf.frames_drawn < u64::MAX,
        ensures
            final(self).wf(),
            plan.projection == old(self).projection,
            plan.view_mode == old(self).view_mode,
            plan.clear_color == clear_color_of(old(self).view_mode),
            plan.line_color == map_line_color(),
            plan.graticule_overlay == (if old(self).draw_graticule {
                Some(graticule_color())
            } else {
                None::<RgbaMilli>
            }),
            plan.orientation@ == old(self).spec_orientation(),
            plan.zoom_milli == old(self).zoom_milli,
            plan.wh_ratio_milli == old(self).wh_ratio_milli,
            plan.resolve_sampling == old(self).draw_buf.sampling,
            final(self).draw_buf.frames_drawn == old(self).draw_buf.frames_drawn + 1,
            final(self).draw_buf.frames_resolved == final(self).draw_buf.frames_drawn,
            final(self).draw_buf.width == old(self).draw_buf.width,
            final(self).draw_buf.height == old(self).draw_buf.height,
            final(self).draw_buf.handle == old(self).draw_buf.handle,
            final(self).draw_buf.sampling == old(self).draw_buf.sampling,
            final(self).draw_buf.draw_gen == old(self).draw_buf.draw_gen,
            final(self).draw_buf.storage_gen == old(self).draw_buf.storage_gen,
            !final(self).needs_render,
            *final(self) == (ViewBase {
                draw_buf: final(self).draw_buf,
                needs_render: false,
                ..*old(self)
            }),
    {
        let orientation = self.orientation();
        let clear_color = match self.view_mode {
            ViewMode::GlobeTexture => RgbaMilli { r: 500, g: 500, b: 500, a: 1000 },
            ViewMode::VectorMap => RgbaMilli { r: 870, g: 870, b: 870, a: 1000 },
        };
        let graticule_overlay = if self.draw_graticule {
            Some(RgbaMilli { r: 600, g: 600, b: 600, a: 1000 })
        } else {
            None
        };
        self.draw_buf.acquire_draw_surface();
        self.draw_buf.update_storage_buf();
        self.needs_render = false;
        RenderPlan {
            projection: self.projection,
            view_mode: self.view_mode,
            clear_color,
            line_color: RgbaMilli { r: 0, g: 0, b: 0, a: 1000 },
            graticule_overlay,
            orientation,
            zoom_milli: self.zoom_milli,
            wh_ratio_milli: self.wh_ratio_milli,
            resolve_sampling: self.draw_buf.sampling,
        }
    }

    /// The view's process-lifetime-unique identifier.
    pub fn unique_id(&self) -> (r: u32)
        ensures
            r == self.unique_id,
    {
        self.unique_id
    }
}

/// Applying a relative zoom of 1/10 never crosses the lower clamp, never
/// increases the zoom, and converges: any zoom below 5 lands exactly on the
/// clamp, and any larger zoom shrinks to a tenth.
pub proof fn lemma_zoom_by_tenth_converges(z: int)
    requires
        ZOOM_MIN_MILLI <= z <= ZOOM_MAX_MILLI,
    ensures
        ZOOM_MIN_MILLI <= spec_zoom_by(z, 100) <= z,
        z < 5000 ==> spec_zoom_by(z, 100) == ZOOM_MIN_MILLI,
        z >= 5000 ==> spec_zoom_by(z, 100) == z / 10 && z / 10 < z,
{
    assert(z * 100 / 1000 == z / 10) by (nonlinear_arith)
        requires z >= 0;
    assert(z / 10 <= z);
    if z >= 5000 {
        assert(z / 10 >= 500);
        assert(z / 10 < z);
        assert(z / 10 <= ZOOM_MAX_MILLI);
    }
}

} // verus!
