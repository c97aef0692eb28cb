//! Process-wide shared state: the three meshes every view draws from, the
//! unique-id counter for views, and the per-projection view collections.
//!
//! The mesh set is built once at startup, before any view exists, and is
//! immutable thereafter; all views read it by reference. GPU uploads of
//! the meshes, textures and shader programs are made outside the crate
//! from the plain arrays held here.

use vstd::prelude::*;

use crate::mesh::{
    create_globe_mesh, create_graticule, create_map_mesh, globe_mesh_spec, graticule_mesh_spec,
    map_mesh_spec, source_parts, total_points, Mesh, SourceShape,
};
use crate::views::cylindrical_lambert::CylindricalLambertView;
use crate::views::gnomonic::GnomonicView;
use crate::views::orthographic::OrthographicView;
use crate::views::stereographic::StereographicView;

verus! {

/// Conversion of a plain value into a fixed-size array, in the shape the
/// rendering layer feeds to the GPU.
pub trait ToArray {
    type Output;

    fn to_array(&self) -> Self::Output;
}

impl ToArray for crate::mesh::LonLatVertex {
    type Output = [i64; 2];

    fn to_array(&self) -> [i64; 2] {
        [self.lon_udeg, self.lat_udeg]
    }
}

impl ToArray for crate::views::base::RgbaMilli {
    type Output = [u16; 4];

    fn to_array(&self) -> [u16; 4] {
        [self.r, self.g, self.b, self.a]
    }
}

/// Grid step of the globe surface mesh, in degrees.
pub const GLOBE_MESH_STEP_DEG: u32 = 2;

/// Grid step of the graticule, in degrees.
pub const GRATICULE_STEP_DEG: u32 = 10;

/// Substeps per graticule step, for smooth arcs under curved projections.
pub const GRATICULE_SUBSTEPS: u32 = 10;

/// The shared resource set and the live views of each projection kind.
pub struct ProgramData {
    pub id_counter: u32,
    pub globe_mesh: Mesh,
    pub graticule_mesh: Mesh,
    pub map_mesh: Mesh,
    pub cylindrical_lambert_views: Vec<CylindricalLambertView>,
    pub gnomonic_views: Vec<GnomonicView>,
    pub orthographic_views: Vec<OrthographicView>,
    pub stereographic_views: Vec<StereographicView>,
}

impl ProgramData {
    /// Build the shared resource set: the globe mesh at the fixed grid
    /// step, the graticule, and the vector map from the given polyline
    /// source. No views exist yet and no unique id has been handed out.
    pub fn new(map_source: &Vec<SourceShape>) -> (r: ProgramData)
        requires
            total_points(source_parts(map_source@)) <= u32::MAX + 1,
        ensures
            r.id_counter == 0,
            globe_mesh_spec(GLOBE_MESH_STEP_DEG as int, r.globe_mesh),
            graticule_mesh_spec(
                GRATICULE_STEP_DEG as int,
                GRATICULE_SUBSTEPS as int,
                r.graticule_mesh,
            ),
            map_mesh_spec(map_source@, r.map_mesh),
            r.cylindrical_lambert_views@.len() == 0,
            r.gnomonic_views@.len() == 0,
            r.orthographic_views@.len() == 0,
            r.stereographic_views@.len() == 0,
    {
        ProgramData {
            id_counter: 0,
            globe_mesh: create_globe_mesh(GLOBE_MESH_STEP_DEG),
            graticule_mesh: create_graticule(GRATICULE_STEP_DEG, GRATICULE_SUBSTEPS),
            map_mesh: create_map_mesh(map_source),
            cylindrical_lambert_views: Vec::new(),
            gnomonic_views: Vec::new(),
            orthographic_views: Vec::new(),
            stereographic_views: Vec::new(),
        }
    }

    /// Hand out the next process-lifetime-unique view identifier.
    pub fn new_unique_id(&mut self) -> (r: u32)
        requires
            old(self).id_counter < u32::MAX,
        ensures
            r == old(self).id_counter,
            *final(self) == (ProgramData { id_counter: (r + 1) as u32, ..*old(self) }),
    {
        let new_id = self.id_counter;
        self.id_counter = self.id_counter + 1;
        new_id
    }

    /// The live cylindrical equal-area views.
    pub fn cylindrical_lambert_views(&mut self) -> (r: &mut Vec<CylindricalLambertView>)
        ensures
            *r == old(self).cylindrical_lambert_views,
            *final(self) == (ProgramData {
                cylindrical_lambert_views: *final(r),
                ..*old(self)
            }),
    {
        &mut self.cylindrical_lambert_views
    }

    /// The live gnomonic views.
    pub fn gnomonic_views(&mut self) -> (r: &mut Vec<GnomonicView>)
        ensures
            *r == old(self).gnomonic_views,
            *final(self) == (ProgramData { gnomonic_views: *final(r), ..*old(self) }),
    {
        &mut self.gnomonic_views
    }

    /// The live orthographic views.
    pub fn orthographic_views(&mut self) -> (r: &mut Vec<OrthographicView>)
        ensures
            *r == old(self).orthographic_views,
            *final(self) == (ProgramData { orthographic_views: *final(r), ..*old(self) }),
    {
        &mut self.orthographic_views
    }

    /// The live stereographic views.
    pub fn stereographic_views(&mut self) -> (r: &mut Vec<StereographicView>)
        ensures
            *r == old(self).stereographic_views,
            *final(self) == (ProgramData { stereographic_views: *final(r), ..*old(self) }),
    {
        &mut self.stereographic_views
    }

    /// Adopt a newly created cylindrical equal-area view.
    pub fn add_cylindrical_lambert_view(&mut self, view: CylindricalLambertView)
        ensures
            final(self).cylindrical_lambert_views@ == old(
                self,
            ).cylindrical_lambert_views@.push(view),
            *final(self) == (ProgramData {
                cylindrical_lambert_views: final(self).cylindrical_lambert_views,
                ..*old(self)
            }),
    {
        self.cylindrical_lambert_views.push(view);
    }

    /// Adopt a newly created gnomonic view.
    pub fn add_gnomonic_view(&mut self, view: GnomonicView)
        ensures
            final(self).gnomonic_views@ == old(self).gnomonic_views@.push(view),
            *final(self) == (ProgramData {
                gnomonic_views: final(self).gnomonic_views,
                ..*old(self)
            }),
    {
        self.gnomonic_views.push(view);
    }

    /// Adopt a newly created orthographic view.
    pub fn add_orthographic_view(&mut self, view: OrthographicView)
        ensures
            final(self).orthographic_views@ == old(self).orthographic_views@.push(view),
            *final(self) == (ProgramData {
                orthographic_views: final(self).orthographic_views,
                ..*old(self)
            }),
    {
        self.orthographic_views.push(view);
    }

    /// Adopt a newly created stereographic view.
    pub fn add_stereographic_view(&mut self, view: StereographicView)
        ensures
            final(self).stereographic_views@ == old(self).stereographic_views@.push(view),
            *final(self) == (ProgramData {
                stereographic_views: final(self).stereographic_views,
                ..*old(self)
            }),
    {
        self.stereographic_views.push(view);
    }
}

} // verus!
