//! Lambert cylindrical equal-area projection view.

use vstd::prelude::*;

use crate::data::ProgramData;
use crate::draw_buffer::TextureRegistry;
use crate::rotation::{identity_orientation, is_identity};
use crate::views::base::{DragRotation, ProjectionKind, ViewBase, ViewMode};

verus! {

/// A view rendering the globe under the Lambert cylindrical equal-area projection.
pub struct CylindricalLambertView {
    pub base: ViewBase,
}

impl CylindricalLambertView {
    /// A fresh Lambert cylindrical equal-area view: identity starting orientation (observer
    /// facing longitude 0, latitude 0), a new unique id from `data`, a new
    /// display handle from `registry`.
    pub fn new(data: &mut ProgramData, registry: &mut TextureRegistry) -> (r: CylindricalLambertView)
        requires
            old(data).id_counter < u32::MAX,
            old(registry).next_handle < u32::MAX,
        ensures
            *final(data) == (ProgramData {
                id_counter: (old(data).id_counter + 1) as u32,
                ..*old(data)
            }),
            final(registry).next_handle == old(registry).next_handle + 1,
            r.base.wf(),
            r.base.unique_id == old(data).id_counter,
            r.base.projection == ProjectionKind::CylindricalLambert,
            r.base.drag_rotation == DragRotation::NSEW,
            is_identity(r.base.spec_orientation()),
            r.base.view_mode == ViewMode::GlobeTexture,
            r.base.draw_graticule,
            r.base.zoom_milli == 1000,
            r.base.draw_buf.handle == old(registry).next_handle,
            r.base.needs_render,
    {
        let id = data.new_unique_id();
        let view = CylindricalLambertView {
            base: ViewBase::new(CylindricalLambertView::initial_orientation(), ProjectionKind::CylindricalLambert, id, registry),
        };
        proof {
            assert(is_identity(view.base.spec_orientation()));
        }
        view
    }

    /// The view's process-lifetime-unique identifier.
    pub fn unique_id(&self) -> (r: u32)
        ensures
            r == self.base.unique_id,
    {
        self.base.unique_id()
    }

    /// The shared view state, for interaction and rendering.
    pub fn base_mut(&mut self) -> (r: &mut ViewBase)
        ensures
            *r == old(self).base,
            *final(self) == (CylindricalLambertView { base: *final(r) }),
    {
        &mut self.base
    }

    /// The identity orientation: observer facing longitude 0, latitude 0.
    fn initial_orientation() -> (r: Vec<crate::rotation::RotStep>)
        ensures
            r@.len() == 0,
            is_identity(r@),
            crate::rotation::steps_wf(r@),
    {
        identity_orientation()
    }
}

} // verus!
