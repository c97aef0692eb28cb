//! Procedural meshes in longitude/latitude space: the globe surface grid,
//! the graticule, and the vector coastline map.
//!
//! Coordinates are exact fixed-point microdegrees. Line meshes (graticule,
//! vector map) are described through a common notion of *parts*: a part is
//! one polyline, emitted as its points followed by one 2-point segment per
//! consecutive pair, never connecting across part boundaries; all parts
//! share a single vertex/index array so one draw call renders them all.

use vstd::prelude::*;

verus! {

/// A mesh vertex: longitude in [-180°, 180°] and latitude in [-90°, 90°],
/// both in microdegrees.
#[derive(Clone, Copy, PartialEq, Eq, Structural, Debug)]
pub struct LonLatVertex {
    pub lon_udeg: i64,
    pub lat_udeg: i64,
}

/// How a mesh's index array is to be drawn.
#[derive(Clone, Copy, PartialEq, Eq, Structural, Debug)]
pub enum PrimitiveKind {
    Triangles,
    Lines,
}

/// An immutable vertex/index array pair with its primitive kind, ready to
/// be uploaded to the GPU by the rendering layer.
pub struct Mesh {
    pub vertices: Vec<LonLatVertex>,
    pub indices: Vec<u32>,
    pub primitive: PrimitiveKind,
}

/// One record of a polyline source. Geometry kinds other than polylines
/// are not supported and are silently skipped by the map builder.
pub enum SourceShape {
    /// A polyline with one or more independent parts.
    Polyline { parts: Vec<Vec<LonLatVertex>> },
    /// Any other geometry kind.
    Unsupported,
}

/// The polyline parts a single source record contributes.
pub open spec fn shape_parts(s: SourceShape) -> Seq<Seq<LonLatVertex>> {
    match s {
        SourceShape::Polyline { parts } => parts@.map_values(|p: Vec<LonLatVertex>| p@),
        SourceShape::Unsupported => Seq::empty(),
    }
}

/// All polyline parts of a record sequence, in order.
pub open spec fn source_parts(shapes: Seq<SourceShape>) -> Seq<Seq<LonLatVertex>>
    decreases shapes.len(),
{
    if shapes.len() == 0 {
        Seq::empty()
    } else {
        source_parts(shapes.drop_last()) + shape_parts(shapes.last())
    }
}

/// Total number of points over all parts.
pub open spec fn total_points(parts: Seq<Seq<LonLatVertex>>) -> int
    decreases parts.len(),
{
    if parts.len() == 0 {
        0
    } else {
        total_points(parts.drop_last()) + parts.last().len()
    }
}

/// All points of all parts, concatenated in order.
pub open spec fn flat_points(parts: Seq<Seq<LonLatVertex>>) -> Seq<LonLatVertex>
    decreases parts.len(),
{
    if parts.len() == 0 {
        Seq::empty()
    } else {
        flat_points(parts.drop_last()) + parts.last()
    }
}

/// Number of 2-point segments a part of `n` points contributes.
pub open spec fn part_segs(n: int) -> int {
    if n <= 1 {
        0
    } else {
        n - 1
    }
}

/// Total number of segments over all parts.
pub open spec fn total_segs(parts: Seq<Seq<LonLatVertex>>) -> int
    decreases parts.len(),
{
    if parts.len() == 0 {
        0
    } else {
        total_segs(parts.drop_last()) + part_segs(parts.last().len() as int)
    }
}

/// The index pairs of one part of `n` points whose first point sits at
/// vertex position `off`: (off, off+1), (off+1, off+2), ...
pub open spec fn part_seg_indices(off: int, n: int) -> Seq<u32>
    decreases n,
{
    if n <= 1 {
        Seq::empty()
    } else {
        part_seg_indices(off, n - 1) + seq![((off + n - 2) as u32), ((off + n - 1) as u32)]
    }
}

/// The full index array of a part sequence: each part's segment pairs, with
/// the part's vertex offset, in order.
pub open spec fn seg_indices(parts: Seq<Seq<LonLatVertex>>) -> Seq<u32>
    decreases parts.len(),
{
    if parts.len() == 0 {
        Seq::empty()
    } else {
        seg_indices(parts.drop_last()) + part_seg_indices(
            total_points(parts.drop_last()),
            parts.last().len() as int,
        )
    }
}

/// The vertex position at which part `i` starts.
pub open spec fn vertex_offset(parts: Seq<Seq<LonLatVertex>>, i: int) -> int {
    total_points(parts.take(i))
}

/// An empty polyline source contributes nothing: no parts, hence no
/// points and no segments, so the map builder yields the empty mesh.
pub proof fn lemma_empty_source_yields_empty_mesh()
    ensures
        source_parts(Seq::<SourceShape>::empty()) == Seq::<Seq<LonLatVertex>>::empty(),
        flat_points(source_parts(Seq::<SourceShape>::empty())) == Seq::<LonLatVertex>::empty(),
        seg_indices(source_parts(Seq::<SourceShape>::empty())) == Seq::<u32>::empty(),
        total_points(source_parts(Seq::<SourceShape>::empty())) == 0,
        total_segs(source_parts(Seq::<SourceShape>::empty())) == 0,
{
}

/// Point totals are never negative.
pub proof fn lemma_total_points_nonneg(parts: Seq<Seq<LonLatVertex>>)
    ensures
        total_points(parts) >= 0,
    decreases parts.len(),
{
    if parts.len() > 0 {
        lemma_total_points_nonneg(parts.drop_last());
    }
}

/// Segment totals are never negative.
pub proof fn lemma_total_segs_nonneg(parts: Seq<Seq<LonLatVertex>>)
    ensures
        total_segs(parts) >= 0,
    decreases parts.len(),
{
    if parts.len() > 0 {
        lemma_total_segs_nonneg(parts.drop_last());
    }
}

/// Point totals add over concatenation.
pub proof fn lemma_total_points_concat(a: Seq<Seq<LonLatVertex>>, b: Seq<Seq<LonLatVertex>>)
    ensures
        total_points(a + b) == total_points(a) + total_points(b),
    decreases b.len(),
{
    if b.len() == 0 {
        assert(a + b =~= a);
    } else {
        lemma_total_points_concat(a, b.drop_last());
        assert((a + b).drop_last() =~= a + b.drop_last());
        assert((a + b).last() == b.last());
    }
}

/// Flattened points concatenate over concatenation of part lists.
pub proof fn lemma_flat_points_concat(a: Seq<Seq<LonLatVertex>>, b: Seq<Seq<LonLatVertex>>)
    ensures
        flat_points(a + b) == flat_points(a) + flat_points(b),
    decreases b.len(),
{
    if b.len() == 0 {
        assert(a + b =~= a);
        assert(flat_points(a) + flat_points(b) =~= flat_points(a));
    } else {
        lemma_flat_points_concat(a, b.drop_last());
        assert((a + b).drop_last() =~= a + b.drop_last());
        assert(flat_points(a + b) =~= flat_points(a) + flat_points(b));
    }
}

/// The flattened point count is the point total.
pub proof fn lemma_flat_points_len(parts: Seq<Seq<LonLatVertex>>)
    ensures
        flat_points(parts).len() == total_points(parts),
    decreases parts.len(),
{
    if parts.len() > 0 {
        lemma_flat_points_len(parts.drop_last());
    }
}

/// A part of `n` points contributes `2 * part_segs(n)` index entries.
pub proof fn lemma_part_seg_indices_len(off: int, n: int)
    ensures
        part_seg_indices(off, n).len() == 2 * part_segs(n),
    decreases n,
{
    if n > 1 {
        lemma_part_seg_indices_len(off, n - 1);
    }
}

/// The index array holds two entries per segment.
pub proof fn lemma_seg_indices_len(parts: Seq<Seq<LonLatVertex>>)
    ensures
        seg_indices(parts).len() == 2 * total_segs(parts),
    decreases parts.len(),
{
    if parts.len() > 0 {
        lemma_seg_indices_len(parts.drop_last());
        lemma_part_seg_indices_len(
            total_points(parts.drop_last()),
            parts.last().len() as int,
        );
    }
}

/// Part lists contribute their parts independently.
pub proof fn lemma_source_parts_concat(a: Seq<SourceShape>, b: Seq<SourceShape>)
    ensures
        source_parts(a + b) == source_parts(a) + source_parts(b),
    decreases b.len(),
{
    if b.len() == 0 {
        assert(a + b =~= a);
        assert(source_parts(a) + source_parts(b) =~= source_parts(a));
    } else {
        lemma_source_parts_concat(a, b.drop_last());
        assert((a + b).drop_last() =~= a + b.drop_last());
        assert(source_parts(a + b) =~= source_parts(a) + source_parts(b));
    }
}

/// Growing a record prefix by one record appends that record's parts.
pub proof fn lemma_source_parts_take_one_more(shapes: Seq<SourceShape>, i: int)
    requires
        0 <= i < shapes.len(),
    ensures
        source_parts(shapes.take(i + 1)) == source_parts(shapes.take(i)) + shape_parts(
            shapes[i],
        ),
    decreases shapes.len(),
{
    assert(shapes.take(i + 1).drop_last() =~= shapes.take(i));
    assert(shapes.take(i + 1).last() == shapes[i]);
}

/// A prefix of the parts never holds more points than the whole.
pub proof fn lemma_total_points_take_le(parts: Seq<Seq<LonLatVertex>>, k: int)
    requires
        0 <= k <= parts.len(),
    ensures
        total_points(parts.take(k)) <= total_points(parts),
{
    assert(parts =~= parts.take(k) + parts.skip(k));
    lemma_total_points_concat(parts.take(k), parts.skip(k));
    lemma_total_points_nonneg(parts.skip(k));
}

/// A one-part list contributes exactly that part.
pub proof fn lemma_parts_singleton(p: Seq<LonLatVertex>)
    ensures
        total_points(seq![p]) == p.len(),
        flat_points(seq![p]) == p,
        total_segs(seq![p]) == part_segs(p.len() as int),
        seg_indices(seq![p]) == part_seg_indices(0, p.len() as int),
{
    let one = seq![p];
    assert(one.drop_last() =~= Seq::<Seq<LonLatVertex>>::empty());
    assert(total_points(Seq::<Seq<LonLatVertex>>::empty()) == 0);
    assert(flat_points(Seq::<Seq<LonLatVertex>>::empty()) == Seq::<LonLatVertex>::empty());
    assert(total_segs(Seq::<Seq<LonLatVertex>>::empty()) == 0);
    assert(seg_indices(Seq::<Seq<LonLatVertex>>::empty()) == Seq::<u32>::empty());
    assert(flat_points(one) =~= p);
    assert(seg_indices(one) =~= part_seg_indices(0, p.len() as int));
}

/// The two entries of segment `j` of a part: consecutive vertex positions
/// within that part.
pub proof fn lemma_part_seg_indices_at(off: int, n: int, j: int)
    requires
        0 <= j < part_segs(n),
        0 <= off,
        off + n <= u32::MAX + 1,
    ensures
        part_seg_indices(off, n)[2 * j] == (off + j) as u32,
        part_seg_indices(off, n)[2 * j + 1] == (off + j + 1) as u32,
    decreases n,
{
    lemma_part_seg_indices_len(off, n);
    if j < part_segs(n) - 1 {
        lemma_part_seg_indices_at(off, n - 1, j);
        lemma_part_seg_indices_len(off, n - 1);
    } else {
        lemma_part_seg_indices_len(off, n - 1);
    }
}

/// Segment `s` of the emitted index array lies within part `i`: both its
/// entries point into that part's vertex range and they are consecutive.
pub open spec fn seg_within_part(parts: Seq<Seq<LonLatVertex>>, s: int, i: int) -> bool {
    &&& 0 <= i < parts.len()
    &&& vertex_offset(parts, i) <= seg_indices(parts)[2 * s] as int
    &&& (seg_indices(parts)[2 * s + 1] as int) < vertex_offset(parts, i) + parts[i].len()
    &&& seg_indices(parts)[2 * s + 1] as int == seg_indices(parts)[2 * s] as int + 1
}

/// No segment ever connects two different parts: every segment of the
/// emitted index array lies within one part's vertex range, joining two
/// consecutive positions of it.
pub proof fn lemma_no_cross_part_segments(parts: Seq<Seq<LonLatVertex>>, s: int)
    requires
        0 <= s < total_segs(parts),
        total_points(parts) <= u32::MAX + 1,
    ensures
        exists|i: int| seg_within_part(parts, s, i),
    decreases parts.len(),
{
    lemma_seg_indices_len(parts);
    lemma_total_points_nonneg(parts.drop_last());
    lemma_total_segs_nonneg(parts.drop_last());
    let dl = parts.drop_last();
    let off = total_points(dl);
    let n = parts.last().len() as int;
    lemma_seg_indices_len(dl);
    lemma_part_seg_indices_len(off, n);
    if s < total_segs(dl) {
        lemma_total_points_take_le(parts, parts.len() - 1);
        assert(parts.take(parts.len() - 1) =~= dl);
        lemma_no_cross_part_segments(dl, s);
        let i = choose|i: int| seg_within_part(dl, s, i);
        assert(parts.take(i) =~= dl.take(i));
        assert(seg_indices(parts)[2 * s] == seg_indices(dl)[2 * s]);
        assert(seg_indices(parts)[2 * s + 1] == seg_indices(dl)[2 * s + 1]);
        assert(parts[i] == dl[i]);
        assert(seg_within_part(parts, s, i));
    } else {
        let j = s - total_segs(dl);
        assert(0 <= j < part_segs(n));
        lemma_part_seg_indices_at(off, n, j);
        assert(seg_indices(parts)[2 * s] == part_seg_indices(off, n)[2 * j]);
        assert(seg_indices(parts)[2 * s + 1] == part_seg_indices(off, n)[2 * j + 1]);
        let i = parts.len() - 1;
        assert(parts.take(i) =~= dl);
        assert(vertex_offset(parts, i) == off);
        assert(off + j + 1 < off + n);
        assert((off + j) as u32 as int == off + j);
        assert((off + j + 1) as u32 as int == off + j + 1);
        assert(seg_within_part(parts, s, i));
    }
}

/// Every entry of the index array points at an existing vertex position.
pub proof fn lemma_seg_indices_in_bounds(parts: Seq<Seq<LonLatVertex>>, p: int)
    requires
        0 <= p < seg_indices(parts).len(),
        total_points(parts) <= u32::MAX + 1,
    ensures
        (seg_indices(parts)[p] as int) < total_points(parts),
{
    lemma_seg_indices_len(parts);
    let s = p / 2;
    lemma_no_cross_part_segments(parts, s);
    let i = choose|i: int| seg_within_part(parts, s, i);
    assert(parts =~= parts.take(i) + parts.skip(i));
    lemma_total_points_concat(parts.take(i), parts.skip(i));
    assert(parts.skip(i) =~= seq![parts[i]] + parts.skip(i + 1));
    lemma_total_points_concat(seq![parts[i]], parts.skip(i + 1));
    lemma_total_points_nonneg(parts.skip(i + 1));
    lemma_parts_singleton(parts[i]);
    assert(p == 2 * s || p == 2 * s + 1);
}

/// Everything `create_globe_mesh` guarantees of its result, as one
/// predicate: counts, exact vertex and index content, index validity and
/// triangle distinctness.
pub open spec fn globe_mesh_spec(step: int, m: Mesh) -> bool {
    &&& m.primitive == PrimitiveKind::Triangles
    &&& m.vertices.len() == globe_vertex_count(step)
    &&& m.indices.len() == globe_index_count(step)
    &&& m.indices.len() % 3 == 0
    &&& forall|r: int, c: int|
        0 <= r < globe_grid_lat(step) && 0 <= c < globe_grid_lon(step)
            ==> m.vertices@[#[trigger] globe_vpos(step, r, c)] == globe_vertex(step, r, c)
    &&& m.vertices@[globe_vertex_count(step) - 2] == (LonLatVertex {
        lon_udeg: 0i64,
        lat_udeg: -90_000_000i64,
    })
    &&& m.vertices@[globe_vertex_count(step) - 1] == (LonLatVertex {
        lon_udeg: 0i64,
        lat_udeg: 90_000_000i64,
    })
    &&& forall|a: int, b: int, k: int|
        0 <= a < globe_grid_lon(step) && 0 <= b < globe_grid_lat(step) - 1 && 0 <= k < 6
            ==> (m.indices@[#[trigger] globe_quad_pos(step, a, b, k)] as int)
            == globe_quad_index(step, a, b, k)
    &&& forall|a: int, k: int|
        0 <= a < globe_grid_lon(step) && 0 <= k < 6 ==> (m.indices@[
            #[trigger] globe_cap_pos(step, a, k)
        ] as int) == globe_cap_index(step, a, k)
    &&& forall|p: int|
        0 <= p < m.indices@.len() ==> (#[trigger] m.indices@[p] as int) < globe_vertex_count(
            step,
        )
    &&& forall|t: int| 0 <= t < m.indices@.len() / 3 ==> #[trigger] tri_distinct(m.indices@, t)
}

/// Everything `create_graticule` guarantees of its result, as one
/// predicate.
pub open spec fn graticule_mesh_spec(step: int, substeps: int, m: Mesh) -> bool {
    &&& m.primitive == PrimitiveKind::Lines
    &&& m.vertices@ == flat_points(grat_parts(step, substeps))
    &&& m.indices@ == seg_indices(grat_parts(step, substeps))
}

/// Everything `create_map_mesh` guarantees of its result, as one predicate.
pub open spec fn map_mesh_spec(shapes: Seq<SourceShape>, m: Mesh) -> bool {
    &&& m.primitive == PrimitiveKind::Lines
    &&& m.vertices@ == flat_points(source_parts(shapes))
    &&& m.indices@ == seg_indices(source_parts(shapes))
}

/// Columns of the globe grid: one per step from -180° to 180°, both ends
/// included, so the antimeridian is covered from either side and the
/// sphere closes without a seam.
pub open spec fn globe_grid_lon(step: int) -> int {
    360int / step + 1
}

/// Rows of the globe grid: one per step strictly between the poles.
pub open spec fn globe_grid_lat(step: int) -> int {
    180int / step - 1
}

/// Vertices of the globe mesh: the full grid plus the two pole caps.
pub open spec fn globe_vertex_count(step: int) -> int {
    globe_grid_lat(step) * globe_grid_lon(step) + 2
}

/// Index entries of the globe mesh: six per quad of the grid, plus six per
/// column for the two pole fans.
pub open spec fn globe_index_count(step: int) -> int {
    6 * globe_grid_lon(step) * (globe_grid_lat(step) - 1) + 6 * globe_grid_lon(step)
}

/// Position of grid vertex (row `r`, column `c`) in the vertex array.
pub open spec fn globe_vpos(step: int, r: int, c: int) -> int {
    r * globe_grid_lon(step) + c
}

/// Grid vertex (row `r`, column `c`): longitude grows with the column from
/// -180°, latitude with the row from one step above the south pole.
pub open spec fn globe_vertex(step: int, r: int, c: int) -> LonLatVertex {
    LonLatVertex {
        lon_udeg: (-180_000_000 + c * step * 1_000_000) as i64,
        lat_udeg: (-90_000_000 + (r + 1) * step * 1_000_000) as i64,
    }
}

/// Position of entry `k` of the two triangles of quad (`i_lon`, `i_lat`).
pub open spec fn globe_quad_pos(step: int, i_lon: int, i_lat: int, k: int) -> int {
    (i_lon * (globe_grid_lat(step) - 1) + i_lat) * 6 + k
}

/// Entry `k` of the two triangles of quad (`i_lon`, `i_lat`): the diagonal
/// runs from (i_lon, i_lat) to (i_lon + 1, i_lat + 1), with a consistent
/// winding.
pub open spec fn globe_quad_index(step: int, i_lon: int, i_lat: int, k: int) -> int {
    let g = globe_grid_lon(step);
    if k == 0 {
        i_lat * g + i_lon
    } else if k == 1 {
        (i_lat + 1) * g + i_lon
    } else if k == 2 {
        i_lat * g + i_lon + 1
    } else if k == 3 {
        i_lat * g + i_lon + 1
    } else if k == 4 {
        (i_lat + 1) * g + i_lon
    } else {
        (i_lat + 1) * g + i_lon + 1
    }
}

/// Position of entry `k` of the two pole-fan triangles of column `i_lon`.
pub open spec fn globe_cap_pos(step: int, i_lon: int, k: int) -> int {
    6 * globe_grid_lon(step) * (globe_grid_lat(step) - 1) + 6 * i_lon + k
}

/// Entry `k` of the pole fans of column `i_lon`: a triangle joining the
/// bottom row to the south cap, then one joining the top row to the north
/// cap.
pub open spec fn globe_cap_index(step: int, i_lon: int, k: int) -> int {
    let g = globe_grid_lon(step);
    let l = globe_grid_lat(step);
    if k == 0 {
        i_lon
    } else if k == 1 {
        i_lon + 1
    } else if k == 2 {
        l * g
    } else if k == 3 {
        (l - 1) * g + i_lon
    } else if k == 4 {
        (l - 1) * g + i_lon + 1
    } else {
        l * g + 1
    }
}

/// Triangle `t` of an index array references three distinct vertices.
pub open spec fn tri_distinct(inds: Seq<u32>, t: int) -> bool {
    &&& inds[3 * t] != inds[3 * t + 1]
    &&& inds[3 * t] != inds[3 * t + 2]
    &&& inds[3 * t + 1] != inds[3 * t + 2]
}

/// Build the globe surface mesh for a grid step in whole degrees dividing
/// 360: a longitude-latitude grid excluding the poles, two pole-cap
/// vertices, and two triangles per quad plus a fan row per pole, forming a
/// closed sphere surface. Every index entry is a valid vertex position and
/// no triangle references the same vertex twice.
pub fn create_globe_mesh(step: u32) -> (m: Mesh)
    requires
        1 <= step <= 60,
        360u32 % step == 0,
    ensures
        m.primitive == PrimitiveKind::Triangles,
        m.vertices@.len() == globe_vertex_count(step as int),
        m.indices@.len() == globe_index_count(step as int),
        m.indices@.len() % 3 == 0,
        forall|r: int, c: int|
            0 <= r < globe_grid_lat(step as int) && 0 <= c < globe_grid_lon(step as int)
                ==> m.vertices@[#[trigger] globe_vpos(step as int, r, c)] == globe_vertex(
                step as int,
                r,
                c,
            ),
        m.vertices@[globe_vertex_count(step as int) - 2] == (LonLatVertex {
            lon_udeg: 0i64,
            lat_udeg: -90_000_000i64,
        }),
        m.vertices@[globe_vertex_count(step as int) - 1] == (LonLatVertex {
            lon_udeg: 0i64,
            lat_udeg: 90_000_000i64,
        }),
        forall|a: int, b: int, k: int|
            0 <= a < globe_grid_lon(step as int) && 0 <= b < globe_grid_lat(step as int) - 1
                && 0 <= k < 6 ==> (m.indices@[#[trigger] globe_quad_pos(step as int, a, b, k)]
                as int) == globe_quad_index(step as int, a, b, k),
        forall|a: int, k: int|
            0 <= a < globe_grid_lon(step as int) && 0 <= k < 6 ==> (m.indices@[
                #[trigger] globe_cap_pos(step as int, a, k)
            ] as int) == globe_cap_index(step as int, a, k),
        forall|p: int|
            0 <= p < m.indices@.len() ==> (#[trigger] m.indices@[p] as int)
                < globe_vertex_count(step as int),
        forall|t: int|
            0 <= t < m.indices@.len() / 3 ==> #[trigger] tri_distinct(m.indices@, t),
        globe_mesh_spec(step as int, m),
{
    let ghost s = step as int;
    proof {
        assert(3 <= 180int / s <= 180 && 6 <= 360int / s <= 360) by (nonlinear_arith)
            requires 1 <= s <= 60;
    }
    let g: usize = (360 / step + 1) as usize;
    let l: usize = (180 / step - 1) as usize;
    proof {
        assert(g == globe_grid_lon(s) && l == globe_grid_lat(s));
        assert((l as int) * (g as int) <= 64619 && 0 <= (l as int) * (g as int))
            by (nonlinear_arith)
            requires 0 <= l as int <= 179, 0 <= g as int <= 361;
    }

    let mut vertex_data: Vec<LonLatVertex> = Vec::new();
    let mut r: usize = 0;
    while r < l
        invariant
            0 <= r <= l,
            1 <= step <= 60,
            s == step as int,
            g == globe_grid_lon(s),
            l == globe_grid_lat(s),
            2 <= l <= 179,
            7 <= g <= 361,
            vertex_data@.len() == r * g,
            forall|rr: int, cc: int|
                0 <= rr < r && 0 <= cc < g ==> vertex_data@[#[trigger] globe_vpos(s, rr, cc)]
                    == globe_vertex(s, rr, cc),
        decreases l - r,
    {
        let mut c: usize = 0;
        while c < g
            invariant
                0 <= c <= g,
                r < l,
                1 <= step <= 60,
                s == step as int,
                g == globe_grid_lon(s),
                l == globe_grid_lat(s),
                2 <= l <= 179,
                7 <= g <= 361,
                vertex_data@.len() == r * g + c,
                forall|rr: int, cc: int|
                    0 <= rr < r && 0 <= cc < g ==> vertex_data@[#[trigger] globe_vpos(s, rr, cc)]
                        == globe_vertex(s, rr, cc),
                forall|cc: int|
                    0 <= cc < c ==> vertex_data@[#[trigger] globe_vpos(s, r as int, cc)]
                        == globe_vertex(s, r as int, cc),
            decreases g - c,
        {
            proof {
                assert((c as int) * s <= 21660 && 0 <= (c as int) * s) by (nonlinear_arith)
                    requires 0 <= c as int <= 361, 1 <= s <= 60;
                assert((r as int + 1) * s <= 10800 && 0 <= (r as int + 1) * s)
                    by (nonlinear_arith)
                    requires 0 <= r as int <= 179, 1 <= s <= 60;
            }
            let lon: i64 = -180_000_000 + (c as i64) * (step as i64) * 1_000_000;
            let lat: i64 = -90_000_000 + ((r as i64) + 1) * (step as i64) * 1_000_000;
            let v = LonLatVertex { lon_udeg: lon, lat_udeg: lat };
            let ghost prev = vertex_data@;
            vertex_data.push(v);
            proof {
                assert(globe_vpos(s, r as int, c as int) == prev.len());
                assert(v == globe_vertex(s, r as int, c as int));
                assert forall|rr: int, cc: int| 0 <= rr < r && 0 <= cc < g implies vertex_data@[
                    #[trigger] globe_vpos(s, rr, cc)
                ] == globe_vertex(s, rr, cc) by {
                    assert(rr * g + cc < r * g) by (nonlinear_arith)
                        requires 0 <= rr, rr + 1 <= r, 0 <= cc < g;
                    assert(vertex_data@[globe_vpos(s, rr, cc)] == prev[globe_vpos(s, rr, cc)]);
                }
                assert forall|cc: int| 0 <= cc < c + 1 implies vertex_data@[
                    #[trigger] globe_vpos(s, r as int, cc)
                ] == globe_vertex(s, r as int, cc) by {
                    if cc < c {
                        assert(vertex_data@[globe_vpos(s, r as int, cc)] == prev[globe_vpos(
                            s,
                            r as int,
                            cc,
                        )]);
                    }
                }
            }
            c = c + 1;
        }
        proof {
            assert(r * g + g == (r + 1) * g) by (nonlinear_arith);
        }
        r = r + 1;
    }
    let ghost grid = vertex_data@;
    proof {
        assert((l as int) * (g as int) <= 64619 && 0 <= (l as int) * (g as int))
            by (nonlinear_arith)
            requires 0 <= l as int <= 179, 0 <= g as int <= 361;
    }
    let s_cap: usize = vertex_data.len();
    vertex_data.push(LonLatVertex { lon_udeg: 0, lat_udeg: -90_000_000 });
    vertex_data.push(LonLatVertex { lon_udeg: 0, lat_udeg: 90_000_000 });
    proof {
        assert forall|rr: int, cc: int| 0 <= rr < l && 0 <= cc < g implies vertex_data@[
            #[trigger] globe_vpos(s, rr, cc)
        ] == globe_vertex(s, rr, cc) by {
            assert(rr * g + cc < l * g) by (nonlinear_arith)
                requires 0 <= rr, rr + 1 <= l, 0 <= cc < g;
            assert(vertex_data@[globe_vpos(s, rr, cc)] == grid[globe_vpos(s, rr, cc)]);
        }
    }

    let mut index_data: Vec<u32> = Vec::new();
    let mut il: usize = 0;
    while il < g
        invariant
            0 <= il <= g,
            s == step as int,
            g == globe_grid_lon(s),
            l == globe_grid_lat(s),
            2 <= l <= 179,
            7 <= g <= 361,
            index_data@.len() == il * ((l - 1) * 6),
            forall|a: int, b: int, k: int|
                0 <= a < il && 0 <= b < l - 1 && 0 <= k < 6 ==> (index_data@[
                    #[trigger] globe_quad_pos(s, a, b, k)
                ] as int) == globe_quad_index(s, a, b, k),
            forall|p: int|
                0 <= p < index_data@.len() ==> (#[trigger] index_data@[p] as int) < l * g + 2,
            forall|t: int|
                0 <= t < index_data@.len() / 3 ==> #[trigger] tri_distinct(index_data@, t),
        decreases g - il,
    {
        let mut ilat: usize = 0;
        proof {
            assert((il * (l - 1) + 0) * 6 == il * ((l - 1) * 6)) by (nonlinear_arith);
        }
        while ilat < l - 1
            invariant
                0 <= ilat <= l - 1,
                il < g,
                s == step as int,
                g == globe_grid_lon(s),
                l == globe_grid_lat(s),
                2 <= l <= 179,
                7 <= g <= 361,
                index_data@.len() == (il * (l - 1) + ilat) * 6,
                forall|a: int, b: int, k: int|
                    0 <= a < il && 0 <= b < l - 1 && 0 <= k < 6 ==> (index_data@[
                        #[trigger] globe_quad_pos(s, a, b, k)
                    ] as int) == globe_quad_index(s, a, b, k),
                forall|b: int, k: int|
                    0 <= b < ilat && 0 <= k < 6 ==> (index_data@[
                        #[trigger] globe_quad_pos(s, il as int, b, k)
                    ] as int) == globe_quad_index(s, il as int, b, k),
                forall|p: int|
                    0 <= p < index_data@.len() ==> (#[trigger] index_data@[p] as int) < l * g
                        + 2,
                forall|t: int|
                    0 <= t < index_data@.len() / 3 ==> #[trigger] tri_distinct(index_data@, t),
            decreases l - 1 - ilat,
        {
            proof {
                assert((l as int) * (g as int) <= 64619 && 0 <= (l as int) * (g as int))
                    by (nonlinear_arith)
                    requires 0 <= l as int <= 179, 0 <= g as int <= 361;
                assert((ilat as int + 1) * (g as int) + (il as int) + 1 <= (l as int) * (
                g as int)) by (nonlinear_arith)
                    requires
                        0 <= ilat as int,
                        ilat as int + 2 <= l as int,
                        0 <= il as int,
                        il as int + 1 <= g as int,
                        0 < g as int;
                assert(0 <= (ilat as int) * (g as int) && (ilat as int) * (g as int) <= (
                ilat as int + 1) * (g as int)) by (nonlinear_arith)
                    requires 0 <= ilat as int, 0 <= g as int;
            }
            let a: u32 = (ilat * g + il) as u32;
            let b: u32 = ((ilat + 1) * g + il) as u32;
            let a1: u32 = (ilat * g + il + 1) as u32;
            let b1: u32 = ((ilat + 1) * g + il + 1) as u32;
            let ghost prev = index_data@;
            let ghost q = (il as int) * (l - 1) + ilat;
            index_data.push(a);
            index_data.push(b);
            index_data.push(a1);
            index_data.push(a1);
            index_data.push(b);
            index_data.push(b1);
            proof {
                assert(index_data@ =~= prev + seq![a, b, a1, a1, b, b1]);
                assert(prev.len() == 6 * q);
                assert forall|aa: int, bb: int, k: int|
                    (0 <= aa < il && 0 <= bb < l - 1 && 0 <= k < 6) || (aa == il && 0 <= bb
                        < ilat + 1 && 0 <= k < 6) implies (index_data@[
                    #[trigger] globe_quad_pos(s, aa, bb, k)
                ] as int) == globe_quad_index(s, aa, bb, k) by {
                    let qq = aa * (l - 1) + bb;
                    if aa == il && bb == ilat {
                        assert(globe_quad_pos(s, aa, bb, k) == 6 * q + k);
                        assert(index_data@[6 * q + k] == seq![a, b, a1, a1, b, b1][k]);
                    } else {
                        assert(qq < q) by (nonlinear_arith)
                            requires
                                qq == aa * (l - 1) + bb,
                                q == (il as int) * (l - 1) + ilat,
                                0 <= aa,
                                0 <= bb,
                                (aa < il && bb < l - 1) || (aa == il && bb < ilat),
                                l >= 2;
                        assert(globe_quad_pos(s, aa, bb, k) == 6 * qq + k);
                        assert(6 * qq + k < 6 * q);
                        assert(index_data@[globe_quad_pos(s, aa, bb, k)] == prev[globe_quad_pos(
                            s,
                            aa,
                            bb,
                            k,
                        )]);
                    }
                }
                assert forall|p: int| 0 <= p < index_data@.len() implies (#[trigger] index_data@[
                    p
                ] as int) < l * g + 2 by {
                    if p < prev.len() {
                        assert(index_data@[p] == prev[p]);
                    } else {
                        assert(index_data@[p] == seq![a, b, a1, a1, b, b1][p - prev.len()]);
                    }
                }
                assert forall|t: int| 0 <= t < index_data@.len() / 3 implies #[trigger] tri_distinct(
                    index_data@,
                    t,
                ) by {
                    assert(index_data@.len() == 6 * q + 6);
                    assert((6 * q + 6) / 3 == 2 * q + 2) by (nonlinear_arith);
                    assert(a != b && a != a1 && b != a1) by (nonlinear_arith)
                        requires
                            a == (ilat as int) * g + il,
                            b == (ilat as int + 1) * g + il,
                            a1 == (ilat as int) * g + il + 1,
                            g >= 7,
                            0 <= ilat as int,
                            0 <= il as int;
                    assert(a1 != b && a1 != b1 && b != b1) by (nonlinear_arith)
                        requires
                            b == (ilat as int + 1) * g + il,
                            a1 == (ilat as int) * g + il + 1,
                            b1 == (ilat as int + 1) * g + il + 1,
                            g >= 7,
                            0 <= ilat as int,
                            0 <= il as int;
                    if t < 2 * q {
                        assert(3 * t + 2 < 6 * q);
                        assert(index_data@[3 * t] == prev[3 * t]);
                        assert(index_data@[3 * t + 1] == prev[3 * t + 1]);
                        assert(index_data@[3 * t + 2] == prev[3 * t + 2]);
                        assert(prev.len() / 3 == 2 * q) by (nonlinear_arith)
                            requires prev.len() == 6 * q;
                        assert(tri_distinct(prev, t));
                    } else if t == 2 * q {
                        assert(index_data@[3 * t] == a);
                        assert(index_data@[3 * t + 1] == b);
                        assert(index_data@[3 * t + 2] == a1);
                    } else {
                        assert(t == 2 * q + 1);
                        assert(3 * t == 6 * q + 3);
                        assert(index_data@[3 * t] == a1);
                        assert(index_data@[3 * t + 1] == b);
                        assert(index_data@[3 * t + 2] == b1);
                    }
                }
                assert((il * (l - 1) + ilat) * 6 + 6 == (il * (l - 1) + (ilat + 1)) * 6)
                    by (nonlinear_arith);
            }
            ilat = ilat + 1;
        }
        proof {
            assert((il * (l - 1) + (l - 1)) * 6 == (il + 1) * ((l - 1) * 6)) by (nonlinear_arith);
            assert(il * ((l - 1) * 6) == (il * (l - 1)) * 6) by (nonlinear_arith);
        }
        il = il + 1;
    }

    proof {
        assert(g * ((l - 1) * 6) == 6 * g * (l - 1)) by (nonlinear_arith);
    }
    let s_cap_idx: u32 = s_cap as u32;
    let n_cap_idx: u32 = (s_cap + 1) as u32;
    let mut il2: usize = 0;
    while il2 < g
        invariant
            0 <= il2 <= g,
            s == step as int,
            g == globe_grid_lon(s),
            l == globe_grid_lat(s),
            2 <= l <= 179,
            7 <= g <= 361,
            s_cap == l * g,
            s_cap_idx == l * g,
            n_cap_idx == l * g + 1,
            index_data@.len() == 6 * g * (l - 1) + il2 * 6,
            forall|a: int, b: int, k: int|
                0 <= a < g && 0 <= b < l - 1 && 0 <= k < 6 ==> (index_data@[
                    #[trigger] globe_quad_pos(s, a, b, k)
                ] as int) == globe_quad_index(s, a, b, k),
            forall|a: int, k: int|
                0 <= a < il2 && 0 <= k < 6 ==> (index_data@[#[trigger] globe_cap_pos(s, a, k)]
                    as int) == globe_cap_index(s, a, k),
            forall|p: int|
                0 <= p < index_data@.len() ==> (#[trigger] index_data@[p] as int) < l * g + 2,
            forall|t: int|
                0 <= t < index_data@.len() / 3 ==> #[trigger] tri_distinct(index_data@, t),
        decreases g - il2,
    {
        proof {
            assert((l - 1) * g + il2 + 1 <= l * g) by (nonlinear_arith)
                requires 2 <= l, 0 <= il2 as int, il2 + 1 <= g;
            assert(0 <= (l - 1) * g) by (nonlinear_arith)
                requires 1 <= l, 0 <= g;
        }
        let sa: u32 = il2 as u32;
        let sb: u32 = (il2 + 1) as u32;
        let na: u32 = ((l - 1) * g + il2) as u32;
        let nb: u32 = ((l - 1) * g + il2 + 1) as u32;
        let ghost prev = index_data@;
        let ghost base = 6 * (g as int) * (l - 1) + (il2 as int) * 6;
        index_data.push(sa);
        index_data.push(sb);
        index_data.push(s_cap_idx);
        index_data.push(na);
        index_data.push(nb);
        index_data.push(n_cap_idx);
        proof {
            assert(index_data@ =~= prev + seq![sa, sb, s_cap_idx, na, nb, n_cap_idx]);
            assert(prev.len() == base);
            assert forall|a: int, k: int| 0 <= a < il2 + 1 && 0 <= k < 6 implies (index_data@[
                #[trigger] globe_cap_pos(s, a, k)
            ] as int) == globe_cap_index(s, a, k) by {
                if a == il2 {
                    assert(globe_cap_pos(s, a, k) == base + k);
                    assert(index_data@[base + k] == seq![sa, sb, s_cap_idx, na, nb, n_cap_idx][
                        k
                    ]);
                    assert((g as int) <= ((l as int) - 1) * (g as int)) by (nonlinear_arith)
                        requires 2 <= l as int, 0 <= g as int;
                } else {
                    assert(globe_cap_pos(s, a, k) == 6 * (g as int) * (l - 1) + 6 * a + k);
                    assert(6 * a + k < 6 * (il2 as int));
                    assert(index_data@[globe_cap_pos(s, a, k)] == prev[globe_cap_pos(s, a, k)]);
                }
            }
            assert forall|a: int, b: int, k: int|
                0 <= a < g && 0 <= b < l - 1 && 0 <= k < 6 implies (index_data@[
                #[trigger] globe_quad_pos(s, a, b, k)
            ] as int) == globe_quad_index(s, a, b, k) by {
                assert((a * (l - 1) + b) * 6 + k < 6 * (g as int) * (l - 1)) by (nonlinear_arith)
                    requires 0 <= a, a + 1 <= g, 0 <= b, b + 1 <= l - 1, 0 <= k < 6;
                assert(globe_quad_pos(s, a, b, k) < prev.len());
                assert(index_data@[globe_quad_pos(s, a, b, k)] == prev[globe_quad_pos(
                    s,
                    a,
                    b,
                    k,
                )]);
            }
            assert forall|p: int| 0 <= p < index_data@.len() implies (#[trigger] index_data@[p]
                as int) < l * g + 2 by {
                if p < prev.len() {
                    assert(index_data@[p] == prev[p]);
                } else {
                    assert(index_data@[p] == seq![sa, sb, s_cap_idx, na, nb, n_cap_idx][p
                        - prev.len()]);
                    assert(il2 + 1 < l * g + 2) by (nonlinear_arith)
                        requires 2 <= l, 7 <= g, il2 + 1 <= g;
                }
            }
            assert forall|t: int| 0 <= t < index_data@.len() / 3 implies #[trigger] tri_distinct(
                index_data@,
                t,
            ) by {
                let q3 = 2 * (g as int) * ((l as int) - 1) + 2 * (il2 as int);
                assert(base == 3 * q3) by (nonlinear_arith)
                    requires
                        base == 6 * (g as int) * ((l as int) - 1) + (il2 as int) * 6,
                        q3 == 2 * (g as int) * ((l as int) - 1) + 2 * (il2 as int);
                assert(index_data@.len() == 3 * (q3 + 2));
                assert(0 <= q3) by (nonlinear_arith)
                    requires
                        q3 == 2 * (g as int) * ((l as int) - 1) + 2 * (il2 as int),
                        0 <= il2 as int,
                        0 <= g as int,
                        1 <= l as int;
                assert(index_data@.len() / 3 == q3 + 2) by (nonlinear_arith)
                    requires index_data@.len() == 3 * (q3 + 2), 0 <= q3;
                assert(sa != sb);
                assert((g as int) < (l as int) * (g as int) && ((l as int) - 1) * (g as int)
                    + (il2 as int) + 1 <= (l as int) * (g as int)) by (nonlinear_arith)
                    requires 2 <= l as int, 7 <= g as int, il2 as int + 1 <= g as int, 0 <= il2
                        as int;
                if t < q3 {
                    assert(3 * t + 2 < base);
                    assert(index_data@[3 * t] == prev[3 * t]);
                    assert(index_data@[3 * t + 1] == prev[3 * t + 1]);
                    assert(index_data@[3 * t + 2] == prev[3 * t + 2]);
                    assert(prev.len() / 3 == q3);
                    assert(tri_distinct(prev, t));
                } else if t == q3 {
                    assert(3 * t == base);
                    assert(index_data@[3 * t] == sa);
                    assert(index_data@[3 * t + 1] == sb);
                    assert(index_data@[3 * t + 2] == s_cap_idx);
                } else {
                    assert(t == q3 + 1);
                    assert(3 * t == base + 3);
                    assert(index_data@[3 * t] == na);
                    assert(index_data@[3 * t + 1] == nb);
                    assert(index_data@[3 * t + 2] == n_cap_idx);
                }
            }
            assert(6 * (g as int) * (l - 1) + (il2 as int) * 6 + 6 == 6 * (g as int) * (l - 1)
                + (il2 as int + 1) * 6) by (nonlinear_arith);
        }
        il2 = il2 + 1;
    }
    proof {
        assert(index_data@.len() == globe_index_count(s)) by (nonlinear_arith)
            requires
                index_data@.len() == 6 * (g as int) * (l - 1) + (g as int) * 6,
                globe_index_count(s) == 6 * (g as int) * ((l as int) - 1) + 6 * (g as int),
                g == globe_grid_lon(s),
                l == globe_grid_lat(s);
        assert(globe_index_count(s) == 3 * (2 * (g as int) * ((l as int) - 1) + 2 * (
        g as int))) by (nonlinear_arith)
            requires globe_index_count(s) == 6 * (g as int) * ((l as int) - 1) + 6 * (g as int);
        assert(globe_index_count(s) % 3 == 0) by (nonlinear_arith)
            requires globe_index_count(s) == 3 * (2 * (g as int) * ((l as int) - 1) + 2 * (
            g as int));
        assert(vertex_data@.len() == globe_vertex_count(s));
    }
    Mesh { vertices: vertex_data, indices: index_data, primitive: PrimitiveKind::Triangles }
}

/// Point totals over parts of one common length `m`.
pub proof fn lemma_total_points_uniform(parts: Seq<Seq<LonLatVertex>>, m: int)
    requires
        forall|i: int| 0 <= i < parts.len() ==> (#[trigger] parts[i]).len() == m,
    ensures
        total_points(parts) == parts.len() * m,
    decreases parts.len(),
{
    if parts.len() == 0 {
    } else {
        lemma_total_points_uniform(parts.drop_last(), m);
        assert(parts.len() * m == (parts.len() - 1) * m + m) by (nonlinear_arith);
    }
}

/// Segment totals over parts of one common length `m >= 1`.
pub proof fn lemma_total_segs_uniform(parts: Seq<Seq<LonLatVertex>>, m: int)
    requires
        m >= 1,
        forall|i: int| 0 <= i < parts.len() ==> (#[trigger] parts[i]).len() == m,
    ensures
        total_segs(parts) == parts.len() * (m - 1),
    decreases parts.len(),
{
    if parts.len() == 0 {
    } else {
        lemma_total_segs_uniform(parts.drop_last(), m);
        assert(parts.len() * (m - 1) == (parts.len() - 1) * (m - 1) + (m - 1))
            by (nonlinear_arith);
    }
}

/// Number of meridian lines (constant longitude) of a graticule with the
/// given step in whole degrees: from -180° to 180° inclusive.
pub open spec fn grat_meridian_count(step: int) -> int {
    360int / step + 1
}

/// Number of parallel lines (constant latitude): from -90° up to at most
/// 90°, inclusive where the step divides evenly.
pub open spec fn grat_parallel_count(step: int) -> int {
    180int / step + 1
}

/// Samples along one meridian, at step/substeps resolution.
pub open spec fn grat_lat_samples(step: int, substeps: int) -> int {
    180 * substeps / step + 1
}

/// Samples along one parallel, at step/substeps resolution.
pub open spec fn grat_lon_samples(step: int, substeps: int) -> int {
    360 * substeps / step + 1
}

/// Meridian `i`: constant longitude, latitude sampled from -90° upward in
/// substep increments (floored to a microdegree).
pub open spec fn grat_meridian(step: int, substeps: int, i: int) -> Seq<LonLatVertex> {
    Seq::new(
        grat_lat_samples(step, substeps) as nat,
        |j: int|
            LonLatVertex {
                lon_udeg: (-180_000_000 + i * step * 1_000_000) as i64,
                lat_udeg: (-90_000_000 + j * step * 1_000_000 / substeps) as i64,
            },
    )
}

/// Parallel `i`: constant latitude, longitude sampled from -180° upward in
/// substep increments (floored to a microdegree).
pub open spec fn grat_parallel(step: int, substeps: int, i: int) -> Seq<LonLatVertex> {
    Seq::new(
        grat_lon_samples(step, substeps) as nat,
        |j: int|
            LonLatVertex {
                lon_udeg: (-180_000_000 + j * step * 1_000_000 / substeps) as i64,
                lat_udeg: (-90_000_000 + i * step * 1_000_000) as i64,
            },
    )
}

/// All graticule lines as parts: every meridian, then every parallel.
pub open spec fn grat_parts(step: int, substeps: int) -> Seq<Seq<LonLatVertex>> {
    Seq::new(grat_meridian_count(step) as nat, |i: int| grat_meridian(step, substeps, i))
        + Seq::new(grat_parallel_count(step) as nat, |i: int| grat_parallel(step, substeps, i))
}

/// The graticule's line count, and its point and segment totals.
pub proof fn lemma_graticule_counts(step: int, substeps: int)
    requires
        1 <= step <= 360,
        1 <= substeps <= 1000,
    ensures
        grat_parts(step, substeps).len() == grat_meridian_count(step) + grat_parallel_count(
            step,
        ),
        total_points(grat_parts(step, substeps)) == grat_meridian_count(step) * grat_lat_samples(
            step,
            substeps,
        ) + grat_parallel_count(step) * grat_lon_samples(step, substeps),
        total_segs(grat_parts(step, substeps)) == grat_meridian_count(step) * (grat_lat_samples(
            step,
            substeps,
        ) - 1) + grat_parallel_count(step) * (grat_lon_samples(step, substeps) - 1),
        total_points(grat_parts(step, substeps)) <= 131_000_000,
{
    let meridians = Seq::new(
        grat_meridian_count(step) as nat,
        |i: int| grat_meridian(step, substeps, i),
    );
    let parallels = Seq::new(
        grat_parallel_count(step) as nat,
        |i: int| grat_parallel(step, substeps, i),
    );
    let slat = grat_lat_samples(step, substeps);
    let slon = grat_lon_samples(step, substeps);
    lemma_total_points_uniform(meridians, slat);
    lemma_total_points_uniform(parallels, slon);
    lemma_total_segs_uniform(meridians, slat);
    lemma_total_segs_uniform(parallels, slon);
    lemma_total_points_concat(meridians, parallels);
    lemma_total_segs_concat(meridians, parallels);
    assert(360int / step <= 360 && 180int / step <= 180) by (nonlinear_arith)
        requires step >= 1;
    assert(180 * substeps / step <= 180_000 && 360 * substeps / step <= 360_000)
        by (nonlinear_arith)
        requires 1 <= step && substeps <= 1000;
    assert(grat_meridian_count(step) * slat <= 361 * 180_001) by (nonlinear_arith)
        requires 0 <= grat_meridian_count(step) <= 361, 0 <= slat <= 180_001;
    assert(grat_parallel_count(step) * slon <= 181 * 360_001) by (nonlinear_arith)
        requires 0 <= grat_parallel_count(step) <= 181, 0 <= slon <= 360_001;
}

/// Segment totals add over concatenation.
pub proof fn lemma_total_segs_concat(a: Seq<Seq<LonLatVertex>>, b: Seq<Seq<LonLatVertex>>)
    ensures
        total_segs(a + b) == total_segs(a) + total_segs(b),
    decreases b.len(),
{
    if b.len() == 0 {
        assert(a + b =~= a);
    } else {
        lemma_total_segs_concat(a, b.drop_last());
        assert((a + b).drop_last() =~= a + b.drop_last());
        assert((a + b).last() == b.last());
    }
}

/// Build the graticule mesh: every meridian and every parallel at `step`
/// whole degrees, each sampled at `step / num_substeps` resolution so
/// curved projections render smooth arcs, appended into one shared
/// vertex/index array of 2-point line segments.
pub fn create_graticule(step: u32, num_substeps: u32) -> (m: Mesh)
    requires
        1 <= step <= 360,
        1 <= num_substeps <= 1000,
    ensures
        m.primitive == PrimitiveKind::Lines,
        m.vertices@ == flat_points(grat_parts(step as int, num_substeps as int)),
        m.indices@ == seg_indices(grat_parts(step as int, num_substeps as int)),
        m.vertices@.len() == total_points(grat_parts(step as int, num_substeps as int)),
        m.indices@.len() == 2 * total_segs(grat_parts(step as int, num_substeps as int)),
        forall|p: int|
            0 <= p < m.indices@.len() ==> (#[trigger] m.indices@[p] as int) < m.vertices@.len(),
        graticule_mesh_spec(step as int, num_substeps as int, m),
{
    let ghost gp = grat_parts(step as int, num_substeps as int);
    proof {
        lemma_graticule_counts(step as int, num_substeps as int);
    }
    let m_count: usize = (360 / step + 1) as usize;
    let p_count: usize = (180 / step + 1) as usize;
    let lat_samples: usize = (180 * num_substeps / step + 1) as usize;
    let lon_samples: usize = (360 * num_substeps / step + 1) as usize;
    let total_lines: usize = m_count + p_count;
    let mut vertex_data: Vec<LonLatVertex> = Vec::new();
    let mut index_data: Vec<u32> = Vec::new();
    let mut li: usize = 0;
    proof {
        assert(gp.take(0) =~= Seq::<Seq<LonLatVertex>>::empty());
        assert(vertex_data@ =~= flat_points(gp.take(0)));
        assert(index_data@ =~= seg_indices(gp.take(0)));
    }
    while li < total_lines
        invariant
            0 <= li <= total_lines,
            1 <= step <= 360,
            1 <= num_substeps <= 1000,
            gp == grat_parts(step as int, num_substeps as int),
            m_count == grat_meridian_count(step as int),
            p_count == grat_parallel_count(step as int),
            lat_samples == grat_lat_samples(step as int, num_substeps as int),
            lon_samples == grat_lon_samples(step as int, num_substeps as int),
            total_lines == gp.len(),
            total_points(gp) <= 131_000_000,
            vertex_data@ == flat_points(gp.take(li as int)),
            index_data@ == seg_indices(gp.take(li as int)),
            vertex_data@.len() == total_points(gp.take(li as int)),
        decreases total_lines - li,
    {
        let ghost done = gp.take(li as int);
        let ghost part = gp[li as int];
        proof {
            assert(gp.take(li + 1) =~= done + seq![part]);
            lemma_total_points_concat(done, seq![part]);
            lemma_parts_singleton(part);
            assert(gp.take(li + 1) + gp.skip(li + 1) =~= gp);
            lemma_total_points_concat(gp.take(li + 1), gp.skip(li + 1));
            lemma_total_points_nonneg(gp.skip(li + 1));
            lemma_total_points_nonneg(done);
            assert(total_points(done) + part.len() <= total_points(gp));
            lemma_flat_points_len(done);
        }
        let meridian: bool = li < m_count;
        let n: usize = if meridian {
            lat_samples
        } else {
            lon_samples
        };
        let line_idx: u64 = if meridian {
            li as u64
        } else {
            (li - m_count) as u64
        };
        proof {
            assert(line_idx * step <= 541 * 360) by (nonlinear_arith)
                requires line_idx <= 541, step <= 360u32;
            if meridian {
                assert(part == grat_meridian(step as int, num_substeps as int, li as int));
            } else {
                assert(part == grat_parallel(
                    step as int,
                    num_substeps as int,
                    li - m_count,
                ));
            }
            assert(part.len() == n);
        }
        let fixed: i64 = if meridian {
            -180_000_000 + (line_idx * step as u64 * 1_000_000) as i64
        } else {
            -90_000_000 + (line_idx * step as u64 * 1_000_000) as i64
        };
        let ghost off = total_points(done);
        let mut j: usize = 0;
        proof {
            assert(vertex_data@ =~= flat_points(done) + part.take(0));
            assert(index_data@ =~= seg_indices(done) + part_seg_indices(off, 0));
        }
        while j < n
            invariant
                0 <= j <= n,
                1 <= step <= 360,
                1 <= num_substeps <= 1000,
                n == part.len(),
                n <= 360_001,
                off == total_points(done),
                0 <= off,
                off + part.len() <= total_points(gp),
                total_points(gp) <= 131_000_000,
                flat_points(done).len() == off,
                vertex_data@ == flat_points(done) + part.take(j as int),
                index_data@ == seg_indices(done) + part_seg_indices(off, j as int),
                forall|jj: int|
                    0 <= jj < part.len() ==> #[trigger] part[jj] == (if meridian {
                        grat_meridian(step as int, num_substeps as int, line_idx as int)[jj]
                    } else {
                        grat_parallel(step as int, num_substeps as int, line_idx as int)[jj]
                    }),
                meridian ==> part == grat_meridian(
                    step as int,
                    num_substeps as int,
                    line_idx as int,
                ),
                !meridian ==> part == grat_parallel(
                    step as int,
                    num_substeps as int,
                    line_idx as int,
                ),
                fixed == (if meridian {
                    -180_000_000 + line_idx * step * 1_000_000
                } else {
                    -90_000_000 + line_idx * step * 1_000_000
                }),
                line_idx * step <= 541 * 360,
            decreases n - j,
        {
            proof {
                assert((j as u64) * (step as u64) <= 360_001u64 * 360) by (nonlinear_arith)
                    requires j <= 360_001usize, step <= 360u32;
            }
            let var: i64 = ((j as u64) * (step as u64) * 1_000_000 / (num_substeps as u64))
                as i64;
            let v = if meridian {
                LonLatVertex { lon_udeg: fixed, lat_udeg: -90_000_000 + var }
            } else {
                LonLatVertex { lon_udeg: -180_000_000 + var, lat_udeg: fixed }
            };
            proof {
                assert(v == part[j as int]);
            }
            vertex_data.push(v);
            proof {
                assert(vertex_data@ =~= flat_points(done) + part.take(j + 1));
            }
            if j > 0 {
                let a: u32 = (vertex_data.len() - 2) as u32;
                let b: u32 = (vertex_data.len() - 1) as u32;
                index_data.push(a);
                index_data.push(b);
                proof {
                    assert(part_seg_indices(off, j + 1) =~= part_seg_indices(off, j as int)
                        + seq![((off + j - 1) as u32), ((off + j) as u32)]);
                    assert(index_data@ =~= seg_indices(done) + part_seg_indices(off, j + 1));
                }
            } else {
                proof {
                    assert(part_seg_indices(off, j + 1) =~= part_seg_indices(off, j as int));
                }
            }
            j = j + 1;
        }
        proof {
            assert(part.take(part.len() as int) =~= part);
            assert(done + seq![part] =~= gp.take(li + 1));
            lemma_flat_points_concat(done, seq![part]);
            lemma_parts_singleton(part);
            assert(vertex_data@ =~= flat_points(gp.take(li + 1)));
            assert((done + seq![part]).drop_last() =~= done);
            assert((done + seq![part]).last() == part);
            assert(seg_indices(done + seq![part]) == seg_indices(done) + part_seg_indices(
                off,
                part.len() as int,
            ));
            assert(index_data@ =~= seg_indices(gp.take(li + 1)));
            lemma_total_points_concat(done, seq![part]);
            lemma_flat_points_len(gp.take(li + 1));
        }
        li = li + 1;
    }
    proof {
        assert(gp.take(gp.len() as int) =~= gp);
        lemma_flat_points_len(gp);
        lemma_seg_indices_len(gp);
        assert forall|p: int| 0 <= p < index_data@.len() implies (#[trigger] index_data@[p]
            as int) < vertex_data@.len() by {
            lemma_seg_indices_in_bounds(gp, p);
        }
    }
    Mesh { vertices: vertex_data, indices: index_data, primitive: PrimitiveKind::Lines }
}

/// Build the vector-map mesh from a polyline source: one vertex per point
/// and one 2-point line segment per consecutive point pair within each
/// part of each polyline record, in source order; records of unsupported
/// geometry kinds are skipped. An empty source yields an empty mesh.
pub fn create_map_mesh(shapes: &Vec<SourceShape>) -> (m: Mesh)
    requires
        total_points(source_parts(shapes@)) <= u32::MAX + 1,
    ensures
        m.primitive == PrimitiveKind::Lines,
        m.vertices@ == flat_points(source_parts(shapes@)),
        m.indices@ == seg_indices(source_parts(shapes@)),
        m.vertices@.len() == total_points(source_parts(shapes@)),
        m.indices@.len() == 2 * total_segs(source_parts(shapes@)),
        forall|p: int|
            0 <= p < m.indices@.len() ==> (#[trigger] m.indices@[p] as int) < m.vertices@.len(),
        map_mesh_spec(shapes@, m),
{
    let ghost all_parts = source_parts(shapes@);
    let mut vertex_data: Vec<LonLatVertex> = Vec::new();
    let mut index_data: Vec<u32> = Vec::new();
    let mut si: usize = 0;
    proof {
        assert(shapes@.take(0) =~= Seq::<SourceShape>::empty());
        assert(vertex_data@ =~= flat_points(source_parts(shapes@.take(0))));
        assert(index_data@ =~= seg_indices(source_parts(shapes@.take(0))));
    }
    while si < shapes.len()
        invariant
            0 <= si <= shapes@.len(),
            all_parts == source_parts(shapes@),
            total_points(all_parts) <= u32::MAX + 1,
            vertex_data@ == flat_points(source_parts(shapes@.take(si as int))),
            index_data@ == seg_indices(source_parts(shapes@.take(si as int))),
        decreases shapes@.len() - si,
    {
        let ghost done0 = source_parts(shapes@.take(si as int));
        match &shapes[si] {
            SourceShape::Unsupported => {
                proof {
                    lemma_source_parts_take_one_more(shapes@, si as int);
                    assert(shape_parts(shapes@[si as int]) =~= Seq::<Seq<LonLatVertex>>::empty());
                    assert(source_parts(shapes@.take(si + 1)) =~= done0);
                }
            },
            SourceShape::Polyline { parts } => {
                let ghost these = shape_parts(shapes@[si as int]);
                let mut pi: usize = 0;
                proof {
                    assert(these =~= parts@.map_values(|p: Vec<LonLatVertex>| p@));
                    assert(done0 + these.take(0) =~= done0);
                }
                while pi < parts.len()
                    invariant
                        0 <= pi <= parts@.len(),
                        all_parts == source_parts(shapes@),
                        total_points(all_parts) <= u32::MAX + 1,
                        these == shape_parts(shapes@[si as int]),
                        0 <= si < shapes@.len(),
                        shapes@[si as int] == (SourceShape::Polyline { parts: *parts }),
                        these.len() == parts@.len(),
                        forall|q: int| 0 <= q < parts@.len() ==> these[q] == parts@[q]@,
                        done0 == source_parts(shapes@.take(si as int)),
                        vertex_data@ == flat_points(done0 + these.take(pi as int)),
                        index_data@ == seg_indices(done0 + these.take(pi as int)),
                    decreases parts@.len() - pi,
                {
                    let ghost done = done0 + these.take(pi as int);
                    proof {
                        // what has been emitted so far is a prefix of the whole
                        lemma_source_parts_take_one_more(shapes@, si as int);
                        assert(shapes@ =~= shapes@.take(si + 1) + shapes@.skip(si + 1));
                        lemma_source_parts_concat(shapes@.take(si + 1), shapes@.skip(si + 1));
                        lemma_total_points_concat(
                            source_parts(shapes@.take(si + 1)),
                            source_parts(shapes@.skip(si + 1)),
                        );
                        lemma_total_points_nonneg(source_parts(shapes@.skip(si + 1)));
                        assert(these.take(pi + 1) =~= these.take(pi as int) + seq![
                            these[pi as int],
                        ]);
                        lemma_total_points_concat(these.take(pi as int), seq![these[pi as int]]);
                        lemma_parts_singleton(these[pi as int]);
                        assert(these.take(pi + 1) + these.skip(pi + 1) =~= these);
                        lemma_total_points_concat(these.take(pi + 1), these.skip(pi + 1));
                        lemma_total_points_nonneg(these.skip(pi + 1));
                        lemma_total_points_concat(done0, these.take(pi as int));
                        lemma_total_points_concat(done0, these);
                        assert(total_points(done) + these[pi as int].len() <= total_points(
                            all_parts,
                        ));
                        lemma_flat_points_len(done);
                        lemma_total_points_nonneg(done0);
                        lemma_total_points_nonneg(these.take(pi as int));
                    }
                    let part: &Vec<LonLatVertex> = &parts[pi];
                    let ghost off = total_points(done);
                    let mut j: usize = 0;
                    proof {
                        assert(vertex_data@ =~= flat_points(done) + part@.take(0));
                        assert(index_data@ =~= seg_indices(done) + part_seg_indices(off, 0));
                    }
                    while j < part.len()
                        invariant
                            0 <= j <= part@.len(),
                            all_parts == source_parts(shapes@),
                            total_points(all_parts) <= u32::MAX + 1,
                            off == total_points(done),
                            0 <= off,
                            off + part@.len() <= total_points(all_parts),
                            flat_points(done).len() == off,
                            vertex_data@ == flat_points(done) + part@.take(j as int),
                            index_data@ == seg_indices(done) + part_seg_indices(off, j as int),
                        decreases part@.len() - j,
                    {
                        vertex_data.push(part[j]);
                        proof {
                            assert(vertex_data@ =~= flat_points(done) + part@.take(j + 1));
                        }
                        if j > 0 {
                            let a: u32 = (vertex_data.len() - 2) as u32;
                            let b: u32 = (vertex_data.len() - 1) as u32;
                            index_data.push(a);
                            index_data.push(b);
                            proof {
                                assert(part_seg_indices(off, j + 1) =~= part_seg_indices(
                                    off,
                                    j as int,
                                ) + seq![((off + j - 1) as u32), ((off + j) as u32)]);
                                assert(index_data@ =~= seg_indices(done) + part_seg_indices(
                                    off,
                                    j + 1,
                                ));
                            }
                        } else {
                            proof {
                                assert(part_seg_indices(off, 1) =~= Seq::<u32>::empty());
                                assert(part_seg_indices(off, j + 1) =~= part_seg_indices(
                                    off,
                                    j as int,
                                ));
                            }
                        }
                        j = j + 1;
                    }
                    proof {
                        assert(part@.take(part@.len() as int) =~= part@);
                        assert(these[pi as int] == part@);
                        assert(done + seq![part@] =~= done0 + these.take(pi + 1));
                        lemma_flat_points_concat(done, seq![part@]);
                        lemma_parts_singleton(part@);
                        assert(vertex_data@ =~= flat_points(done0 + these.take(pi + 1)));
                        // the one-part extension of the index array
                        assert((done + seq![part@]).drop_last() =~= done);
                        assert((done + seq![part@]).last() == part@);
                        assert(seg_indices(done + seq![part@]) == seg_indices(done)
                            + part_seg_indices(off, part@.len() as int));
                        assert(index_data@ =~= seg_indices(done0 + these.take(pi + 1)));
                    }
                    pi = pi + 1;
                }
                proof {
                    lemma_source_parts_take_one_more(shapes@, si as int);
                    assert(these.take(these.len() as int) =~= these);
                    assert(done0 + these =~= source_parts(shapes@.take(si + 1)));
                }
            },
        }
        si = si + 1;
    }
    proof {
        assert(shapes@.take(shapes@.len() as int) =~= shapes@);
        lemma_flat_points_len(all_parts);
        lemma_seg_indices_len(all_parts);
        assert forall|p: int| 0 <= p < index_data@.len() implies (#[trigger] index_data@[p]
            as int) < vertex_data@.len() by {
            lemma_seg_indices_in_bounds(all_parts, p);
        }
    }
    Mesh { vertices: vertex_data, indices: index_data, primitive: PrimitiveKind::Lines }
}

} // verus!
