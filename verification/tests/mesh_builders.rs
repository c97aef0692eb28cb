//! Mesh builder behaviour: globe grid counts and index validity, graticule
//! sampling, and the vector-map part rules.

use map_projections::mesh::{
    create_globe_mesh, create_graticule, create_map_mesh, LonLatVertex, Mesh, PrimitiveKind,
    SourceShape,
};

fn point(lon_udeg: i64, lat_udeg: i64) -> LonLatVertex {
    LonLatVertex { lon_udeg, lat_udeg }
}

fn assert_triangles_valid(m: &Mesh) {
    assert_eq!(m.indices.len() % 3, 0);
    for &ix in &m.indices {
        assert!((ix as usize) < m.vertices.len());
    }
    for t in 0..m.indices.len() / 3 {
        let a = m.indices[3 * t];
        let b = m.indices[3 * t + 1];
        let c = m.indices[3 * t + 2];
        assert!(a != b && a != c && b != c, "triangle {} repeats a vertex", t);
    }
}

#[test]
fn globe_mesh_counts_step_10() {
    let m = create_globe_mesh(10);
    // grid: 37 columns, 17 rows, plus the two pole caps
    assert_eq!(m.vertices.len(), 17 * 37 + 2);
    // 6 entries per quad, plus 6 per column for the pole fans
    assert_eq!(m.indices.len(), 6 * 37 * 16 + 6 * 37);
    assert!(matches!(m.primitive, PrimitiveKind::Triangles));
    assert_triangles_valid(&m);
}

#[test]
fn globe_mesh_counts_step_2() {
    let m = create_globe_mesh(2);
    assert_eq!(m.vertices.len(), 89 * 181 + 2);
    assert_eq!(m.indices.len(), 6 * 181 * 88 + 6 * 181);
    assert_triangles_valid(&m);
}

#[test]
fn globe_mesh_smallest_grid() {
    let m = create_globe_mesh(60);
    assert_eq!(m.vertices.len(), 2 * 7 + 2);
    assert_eq!(m.indices.len(), 6 * 7 * 1 + 6 * 7);
    assert_triangles_valid(&m);
}

#[test]
fn globe_mesh_vertex_positions() {
    let m = create_globe_mesh(10);
    // row-major grid, excluding the poles: row 0 is one step above -90
    assert_eq!(m.vertices[0], point(-180_000_000, -80_000_000));
    assert_eq!(m.vertices[1], point(-170_000_000, -80_000_000));
    assert_eq!(m.vertices[37], point(-180_000_000, -70_000_000));
    // last grid vertex: lon 180, lat 80
    assert_eq!(m.vertices[17 * 37 - 1], point(180_000_000, 80_000_000));
    // the two pole caps close the sphere
    assert_eq!(m.vertices[17 * 37], point(0, -90_000_000));
    assert_eq!(m.vertices[17 * 37 + 1], point(0, 90_000_000));
}

#[test]
fn globe_mesh_first_quad_winding() {
    let m = create_globe_mesh(10);
    // quad (0, 0): diagonal from (lon, lat) to (lon + 1, lat + 1)
    assert_eq!(&m.indices[0..6], &[0, 37, 1, 1, 37, 38]);
}

#[test]
fn graticule_counts_step_10_substeps_10() {
    let m = create_graticule(10, 10);
    // 37 meridians of 181 samples, then 19 parallels of 361 samples
    assert_eq!(m.vertices.len(), 37 * 181 + 19 * 361);
    // one 2-point segment per consecutive sample pair within a line
    assert_eq!(m.indices.len(), 2 * (37 * 180 + 19 * 360));
    assert!(matches!(m.primitive, PrimitiveKind::Lines));
    for &ix in &m.indices {
        assert!((ix as usize) < m.vertices.len());
    }
}

#[test]
fn graticule_first_meridian_samples() {
    let m = create_graticule(10, 10);
    // meridian at lon -180, sampled every single degree of latitude
    assert_eq!(m.vertices[0], point(-180_000_000, -90_000_000));
    assert_eq!(m.vertices[1], point(-180_000_000, -89_000_000));
    assert_eq!(m.vertices[180], point(-180_000_000, 90_000_000));
    // its segments chain consecutive samples and stay within the line
    assert_eq!(&m.indices[0..4], &[0, 1, 1, 2]);
    assert_eq!(m.indices[2 * 180 - 1], 180);
    // the next line starts a fresh chain: no segment joins 180 to 181
    assert_eq!(&m.indices[2 * 180..2 * 180 + 2], &[181, 182]);
}

#[test]
fn graticule_parallels_after_meridians() {
    let m = create_graticule(10, 10);
    let base = 37 * 181;
    // first parallel: lat -90, lon sampled every degree
    assert_eq!(m.vertices[base], point(-180_000_000, -90_000_000));
    assert_eq!(m.vertices[base + 1], point(-179_000_000, -90_000_000));
    assert_eq!(m.vertices[base + 360], point(180_000_000, -90_000_000));
}

#[test]
fn vector_map_empty_source_yields_empty_mesh() {
    let m = create_map_mesh(&vec![]);
    assert_eq!(m.vertices.len(), 0);
    assert_eq!(m.indices.len(), 0);
    assert!(matches!(m.primitive, PrimitiveKind::Lines));
}

#[test]
fn vector_map_never_connects_polylines() {
    // two 2-point polylines: exactly 2 segments, not 3
    let shapes = vec![
        SourceShape::Polyline { parts: vec![vec![point(0, 0), point(1_000_000, 0)]] },
        SourceShape::Polyline {
            parts: vec![vec![point(5_000_000, 5_000_000), point(6_000_000, 5_000_000)]],
        },
    ];
    let m = create_map_mesh(&shapes);
    assert_eq!(m.vertices.len(), 4);
    assert_eq!(m.indices.len(), 4, "expected exactly 2 segments");
    assert_eq!(m.indices, vec![0, 1, 2, 3]);
}

#[test]
fn vector_map_parts_stay_independent() {
    // one polyline of two parts: again no segment across the boundary
    let shapes = vec![SourceShape::Polyline {
        parts: vec![
            vec![point(0, 0), point(1, 1), point(2, 2)],
            vec![point(10, 10), point(11, 11)],
        ],
    }];
    let m = create_map_mesh(&shapes);
    assert_eq!(m.vertices.len(), 5);
    assert_eq!(m.indices, vec![0, 1, 1, 2, 3, 4]);
}

#[test]
fn vector_map_skips_unsupported_geometry() {
    let shapes = vec![
        SourceShape::Unsupported,
        SourceShape::Polyline { parts: vec![vec![point(0, 0), point(1, 0), point(2, 0)]] },
        SourceShape::Unsupported,
    ];
    let m = create_map_mesh(&shapes);
    assert_eq!(m.vertices.len(), 3);
    assert_eq!(m.indices, vec![0, 1, 1, 2]);
}

#[test]
fn vector_map_single_point_part_emits_no_segment() {
    let shapes = vec![SourceShape::Polyline {
        parts: vec![vec![point(7, 7)], vec![point(0, 0), point(1, 1)]],
    }];
    let m = create_map_mesh(&shapes);
    assert_eq!(m.vertices.len(), 3);
    assert_eq!(m.indices, vec![1, 2]);
}
