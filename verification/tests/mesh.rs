use sphere_scene::lattice::GridPoint;
use sphere_scene::mesh::tessellate;
use sphere_scene::resolution::{MeshError, SphereResolution};

fn position(res: &SphereResolution, p: GridPoint, radius: f32) -> (f32, f32, f32) {
    let pi = std::f32::consts::PI;
    let stack_angle = pi / 2.0 - p.stack as f32 * (pi / res.stacks as f32);
    let sector_angle = p.sector as f32 * (2.0 * pi / res.sectors as f32);
    let xy = radius * stack_angle.cos();
    (xy * sector_angle.cos(), xy * sector_angle.sin(), radius * stack_angle.sin())
}

#[test]
fn four_sectors_two_stacks_counts() {
    let res = SphereResolution { sectors: 4, stacks: 2 };
    let (points, indices) = tessellate(&res).unwrap();
    assert_eq!(points.len(), 15);
    assert_eq!(indices.len(), 24);
    assert_eq!(res.vertex_count(), Ok(15));
    assert_eq!(res.index_count(), Ok(24));
}

#[test]
fn four_sectors_two_stacks_pole_rows() {
    let res = SphereResolution { sectors: 4, stacks: 2 };
    let points = res.lattice().unwrap();
    let north: Vec<&GridPoint> = points.iter().filter(|p| p.stack == 0).collect();
    let south: Vec<&GridPoint> = points.iter().filter(|p| p.stack == 2).collect();
    assert_eq!(north.len(), 5);
    assert_eq!(south.len(), 5);
    for k in 0..5 {
        assert_eq!(points[k], GridPoint { stack: 0, sector: k });
        assert_eq!(points[10 + k], GridPoint { stack: 2, sector: k });
    }
}

#[test]
fn four_sectors_two_stacks_pole_positions() {
    let res = SphereResolution { sectors: 4, stacks: 2 };
    let points = res.lattice().unwrap();
    for p in points.iter().filter(|p| p.stack == 0) {
        let (x, y, z) = position(&res, *p, 1.0);
        assert!(x.abs() < 1e-6 && y.abs() < 1e-6);
        assert_eq!(z, 1.0);
    }
    for p in points.iter().filter(|p| p.stack == 2) {
        let (x, y, z) = position(&res, *p, 1.0);
        assert!(x.abs() < 1e-6 && y.abs() < 1e-6);
        assert_eq!(z, -1.0);
    }
}

#[test]
fn four_sectors_two_stacks_index_buffer() {
    let res = SphereResolution { sectors: 4, stacks: 2 };
    let indices = res.indices().unwrap();
    let expected: Vec<u32> = vec![
        1, 5, 6, 2, 6, 7, 3, 7, 8, 4, 8, 9, 5, 10, 6, 6, 11, 7, 7, 12, 8, 8, 13, 9,
    ];
    assert_eq!(indices, expected);
}

#[test]
fn inner_stack_has_two_triangles_per_cell() {
    let res = SphereResolution { sectors: 3, stacks: 3 };
    let indices = res.indices().unwrap();
    let expected: Vec<u32> = vec![
        1, 4, 5, 2, 5, 6, 3, 6, 7, 4, 8, 5, 5, 8, 9, 5, 9, 6, 6, 9, 10, 6, 10, 7, 7, 10, 11, 8, 12,
        9, 9, 13, 10, 10, 14, 11,
    ];
    assert_eq!(indices, expected);
    assert_eq!(indices.len(), 6 * 3 * (3 - 1));
}

#[test]
fn lattice_runs_row_by_row() {
    let res = SphereResolution { sectors: 3, stacks: 1 };
    let points = res.lattice().unwrap();
    let expected = vec![
        GridPoint { stack: 0, sector: 0 },
        GridPoint { stack: 0, sector: 1 },
        GridPoint { stack: 0, sector: 2 },
        GridPoint { stack: 0, sector: 3 },
        GridPoint { stack: 1, sector: 0 },
        GridPoint { stack: 1, sector: 1 },
        GridPoint { stack: 1, sector: 2 },
        GridPoint { stack: 1, sector: 3 },
    ];
    assert_eq!(points, expected);
}

#[test]
fn single_stack_has_no_triangles() {
    let res = SphereResolution { sectors: 8, stacks: 1 };
    let (points, indices) = tessellate(&res).unwrap();
    assert_eq!(points.len(), 18);
    assert!(indices.is_empty());
    assert_eq!(res.index_count(), Ok(0));
}

#[test]
fn scene_resolution_counts_and_bounds() {
    let res = SphereResolution { sectors: 64, stacks: 64 };
    let (points, indices) = tessellate(&res).unwrap();
    assert_eq!(points.len(), 65 * 65);
    assert_eq!(indices.len(), 6 * 64 * 63);
    assert!(indices.iter().all(|&k| (k as usize) < points.len()));
    // the last row has upper triangles only, so its last vertex is unused
    assert_eq!(*indices.iter().max().unwrap(), 4223);
    assert_eq!(*indices.iter().min().unwrap(), 1);
}

#[test]
fn scene_resolution_triangles_are_wound_alike() {
    let res = SphereResolution { sectors: 64, stacks: 64 };
    let indices = res.indices().unwrap();
    let width: u32 = 65;
    for t in indices.chunks(3) {
        let (a, b, c) = (t[0], t[1], t[2]);
        let upper = b == a + width && c == a + 1;
        let lower = b == a + width - 1 && c == b + 1;
        assert!(upper || lower);
        assert!(a != b && b != c && a != c);
    }
}

#[test]
fn seam_and_pole_vertices_coincide_in_space() {
    let res = SphereResolution { sectors: 6, stacks: 4 };
    let points = res.lattice().unwrap();
    for i in 0..=4usize {
        let first = position(&res, points[i * 7], 2.0);
        let last = position(&res, points[i * 7 + 6], 2.0);
        assert!((first.0 - last.0).abs() < 1e-5);
        assert!((first.1 - last.1).abs() < 1e-5);
        assert!((first.2 - last.2).abs() < 1e-5);
    }
}

#[test]
fn every_position_lies_on_the_sphere() {
    let res = SphereResolution { sectors: 12, stacks: 7 };
    let points = res.lattice().unwrap();
    for p in points {
        let (x, y, z) = position(&res, p, 3.0);
        let distance = (x * x + y * y + z * z).sqrt();
        assert!((distance - 3.0).abs() < 1e-4);
    }
}

#[test]
fn vertex_index_numbers_the_lattice() {
    let res = SphereResolution { sectors: 4, stacks: 2 };
    let points = res.lattice().unwrap();
    for (k, p) in points.iter().enumerate() {
        assert_eq!(res.vertex_index(*p), Some(k as u32));
    }
    assert_eq!(res.vertex_index(GridPoint { stack: 1, sector: 3 }), Some(8));
    assert_eq!(res.vertex_index(GridPoint { stack: 2, sector: 4 }), Some(14));
    assert_eq!(res.vertex_index(GridPoint { stack: 3, sector: 0 }), None);
    assert_eq!(res.vertex_index(GridPoint { stack: 0, sector: 5 }), None);
}

#[test]
fn vertex_index_of_an_invalid_resolution() {
    let res = SphereResolution { sectors: 2, stacks: 2 };
    assert_eq!(res.vertex_index(GridPoint { stack: 0, sector: 0 }), None);
}

#[test]
fn too_few_sectors_are_rejected() {
    let res = SphereResolution { sectors: 2, stacks: 5 };
    assert_eq!(res.validate(), Err(MeshError::InvalidResolution));
    assert_eq!(res.lattice(), Err(MeshError::InvalidResolution));
    assert_eq!(res.indices(), Err(MeshError::InvalidResolution));
    assert_eq!(res.vertex_count(), Err(MeshError::InvalidResolution));
    assert_eq!(res.index_count(), Err(MeshError::InvalidResolution));
    assert_eq!(tessellate(&res), Err(MeshError::InvalidResolution));
}

#[test]
fn no_stack_is_rejected() {
    let res = SphereResolution { sectors: 16, stacks: 0 };
    assert_eq!(res.validate(), Err(MeshError::InvalidResolution));
    assert_eq!(tessellate(&res), Err(MeshError::InvalidResolution));
}

#[test]
fn smallest_resolution_is_accepted() {
    let res = SphereResolution { sectors: 3, stacks: 1 };
    assert_eq!(res.validate(), Ok(()));
    assert_eq!(res.vertex_count(), Ok(8));
}

#[test]
fn more_vertices_than_indices_reach_is_rejected() {
    let res = SphereResolution { sectors: 70_000, stacks: 70_000 };
    assert_eq!(res.validate(), Err(MeshError::TooLarge));
    assert_eq!(res.vertex_count(), Err(MeshError::TooLarge));
    assert_eq!(res.index_count(), Err(MeshError::TooLarge));
    assert_eq!(tessellate(&res), Err(MeshError::TooLarge));
}

#[test]
fn largest_side_is_rejected_without_overflow() {
    let res = SphereResolution { sectors: usize::MAX, stacks: usize::MAX };
    assert_eq!(res.validate(), Err(MeshError::TooLarge));
    let res = SphereResolution { sectors: 3, stacks: usize::MAX };
    assert_eq!(res.validate(), Err(MeshError::TooLarge));
}

#[test]
fn vertex_count_at_the_limit_of_indexing() {
    // 65535 * 65537 = 2^32 - 1, one more column is one vertex too many
    let res = SphereResolution { sectors: 65_534, stacks: 65_536 };
    assert_eq!(res.validate(), Ok(()));
    assert_eq!(res.vertex_count(), Ok(4_294_967_295));
    let res = SphereResolution { sectors: 65_535, stacks: 65_536 };
    assert_eq!(res.validate(), Err(MeshError::TooLarge));
}

#[test]
fn too_coarse_is_reported_before_too_large() {
    let res = SphereResolution { sectors: 2, stacks: usize::MAX };
    assert_eq!(res.validate(), Err(MeshError::InvalidResolution));
}

#[test]
fn each_cell_stands_at_its_place() {
    let res = SphereResolution { sectors: 64, stacks: 64 };
    let indices = res.indices().unwrap();
    let at = |i: u32, j: u32| i * 65 + j;
    // northern stack: one triangle for each cell
    let start = 3 * 9;
    assert_eq!(indices[start..start + 3], [at(0, 10), at(1, 9), at(1, 10)]);
    // an inner stack: the stack at the pole, four inner stacks, seven cells
    let start = 3 * 64 + 6 * 64 * 4 + 6 * 7;
    assert_eq!(
        indices[start..start + 6],
        [at(5, 7), at(6, 7), at(5, 8), at(5, 8), at(6, 7), at(6, 8)]
    );
    // southern stack: one triangle for each cell
    let start = 3 * 64 + 6 * 64 * 62 + 3 * 63;
    assert_eq!(indices[start..start + 3], [at(63, 63), at(64, 63), at(63, 64)]);
    assert_eq!(start + 3, indices.len());
}
