use marching_cubes::tables::{edge_corner_lookup, mask_lookup, tri_lookup, EDGE_MASKS};
use marching_cubes::{
    corner_position, cube_index, edge_endpoints, generate_marching_cubes, grid_index_at, EdgeRef,
};

/// Builds the flattened below-threshold flag grid of an n^3 lattice from a
/// per-point predicate, in the mesher's (x, y, z) lexicographic order.
fn flags<F: Fn(usize, usize, usize) -> bool>(n: usize, f: F) -> Vec<bool> {
    let mut v = Vec::with_capacity(n * n * n);
    for x in 0..n {
        for y in 0..n {
            for z in 0..n {
                v.push(f(x, y, z));
            }
        }
    }
    v
}

#[test]
fn empty_grid_yields_empty_mesh() {
    let plan = generate_marching_cubes(0, &Vec::new());
    assert_eq!(plan.verts.len(), 0);
    assert_eq!(plan.indices.len(), 0);
}

#[test]
fn single_point_grid_yields_empty_mesh() {
    let plan = generate_marching_cubes(1, &vec![true]);
    assert_eq!(plan.verts.len(), 0);
    assert_eq!(plan.indices.len(), 0);
}

#[test]
fn uniform_below_yields_empty_mesh() {
    let below = flags(4, |_, _, _| true);
    let plan = generate_marching_cubes(4, &below);
    assert_eq!(plan.verts.len(), 0);
    assert_eq!(plan.indices.len(), 0);
}

#[test]
fn uniform_above_yields_empty_mesh() {
    let below = flags(4, |_, _, _| false);
    let plan = generate_marching_cubes(4, &below);
    assert_eq!(plan.verts.len(), 0);
    assert_eq!(plan.indices.len(), 0);
}

#[test]
fn single_inside_corner_emits_one_triangle() {
    // Only lattice point (0, 0, 0) is below the threshold: configuration 1,
    // whose triangulation row is the single triangle (8, 4, 0).
    let below = flags(2, |x, y, z| x == 0 && y == 0 && z == 0);
    let plan = generate_marching_cubes(2, &below);
    assert_eq!(plan.indices, vec![0, 1, 2]);
    let edges: Vec<u8> = plan.verts.iter().map(|r| r.edge).collect();
    assert_eq!(edges, vec![8, 4, 0]);
    for r in &plan.verts {
        assert_eq!((r.x, r.y, r.z), (0, 0, 0));
    }
}

#[test]
fn planar_slab_triangle_count_scales_with_grid_area() {
    // Density below the threshold for y >= 2 and above it for y < 2: the
    // (n-1)^2 cubes of the layer y = 1 each cut two triangles, all other
    // cubes are uniform and cut nothing.
    let n = 4;
    let below = flags(n, |_, y, _| y >= 2);
    let plan = generate_marching_cubes(n, &below);
    assert_eq!(plan.verts.len(), 6 * (n - 1) * (n - 1));
    assert_eq!(plan.indices.len(), plan.verts.len());
    for r in &plan.verts {
        assert_eq!(r.y, 1);
        assert!((4..8).contains(&r.edge), "plane must cut only y edges");
    }
}

#[test]
fn planar_slab_cube_emits_expected_row() {
    // One cube with its four y = 1 corners below the threshold:
    // configuration 0xCC, whose row is the quad (6, 7, 5), (6, 5, 4).
    let below = flags(2, |_, y, _| y >= 1);
    let plan = generate_marching_cubes(2, &below);
    let edges: Vec<u8> = plan.verts.iter().map(|r| r.edge).collect();
    assert_eq!(edges, vec![6, 7, 5, 6, 5, 4]);
    assert_eq!(plan.indices, vec![0, 1, 2, 3, 4, 5]);
}

#[test]
fn mixed_grid_mesh_plan_is_well_formed() {
    let n = 5;
    let below = flags(n, |x, y, z| (x + 2 * y + 3 * z) % 5 < 2);
    let plan = generate_marching_cubes(n, &below);
    assert!(plan.verts.len() > 0);
    assert_eq!(plan.indices.len() % 3, 0);
    assert_eq!(plan.indices.len(), plan.verts.len());
    for (i, &ix) in plan.indices.iter().enumerate() {
        assert_eq!(ix as usize, i);
        assert!((ix as usize) < plan.verts.len());
    }
    for r in &plan.verts {
        assert!(r.x < n - 1 && r.y < n - 1 && r.z < n - 1);
        assert!(r.edge < 12);
    }
}

#[test]
fn cube_index_sets_one_bit_per_corner() {
    // Corner i sits at offset (i&1, (i>>1)&1, (i>>2)&1); a single below
    // flag at that offset must set exactly bit i.
    for i in 0..8usize {
        let (dx, dy, dz) = (i & 1, (i >> 1) & 1, (i >> 2) & 1);
        let below = flags(2, |x, y, z| (x, y, z) == (dx, dy, dz));
        assert_eq!(cube_index(2, &below, 0, 0, 0), 1u8 << i);
    }
    let below = flags(2, |_, _, _| true);
    assert_eq!(cube_index(2, &below, 0, 0, 0), 255);
}

#[test]
fn corner_position_follows_bit_layout() {
    let p = corner_position(2, 3, 4, 6);
    assert_eq!((p.x, p.y, p.z), (2, 4, 5));
    let p = corner_position(7, 7, 7, 0);
    assert_eq!((p.x, p.y, p.z), (7, 7, 7));
    let p = corner_position(0, 0, 0, 7);
    assert_eq!((p.x, p.y, p.z), (1, 1, 1));
}

#[test]
fn edge_endpoints_are_adjacent_lattice_points() {
    for e in 0..12u8 {
        let r = EdgeRef { x: 3, y: 5, z: 7, edge: e };
        let (a, b) = edge_endpoints(16, &r);
        let d = (b.x - a.x) + (b.y - a.y) + (b.z - a.z);
        assert_eq!(d, 1, "edge corners must be one lattice step apart");
        assert!(a.x >= 3 && a.x <= 4 && a.y >= 5 && a.y <= 6 && a.z >= 7 && a.z <= 8);
    }
    let r = EdgeRef { x: 0, y: 0, z: 0, edge: 8 };
    let (a, b) = edge_endpoints(2, &r);
    assert_eq!((a.x, a.y, a.z), (0, 0, 0));
    assert_eq!((b.x, b.y, b.z), (0, 0, 1));
}

#[test]
fn table_lookups_match_the_case_tables() {
    assert_eq!(mask_lookup(0), 0);
    assert_eq!(mask_lookup(255), 0);
    assert_eq!(mask_lookup(1), 0x111);
    assert_eq!(mask_lookup(0x33), 0x0f0);
    assert_eq!(EDGE_MASKS[0xCC], 0x0f0);
    assert_eq!(tri_lookup(1, 0), 8);
    assert_eq!(tri_lookup(1, 1), 4);
    assert_eq!(tri_lookup(1, 2), 0);
    assert_eq!(tri_lookup(1, 3), -1);
    assert_eq!(tri_lookup(255, 0), -1);
    assert_eq!(tri_lookup(0, 0), -1);
    assert_eq!(edge_corner_lookup(0, 0), 0);
    assert_eq!(edge_corner_lookup(0, 1), 1);
    assert_eq!(edge_corner_lookup(11, 0), 3);
    assert_eq!(edge_corner_lookup(11, 1), 7);
}

#[test]
fn every_configuration_row_is_well_formed() {
    // Every triangulation row holds whole triangles of edge indices and
    // ends with the sentinel before position 16; the mask is zero exactly
    // when the row is empty.
    for c in 0..256usize {
        let mut t = 0usize;
        while t < 16 && tri_lookup(c, t) != -1 {
            t += 1;
        }
        assert!(t < 16, "row {} lacks a sentinel", c);
        assert_eq!(t % 3, 0, "row {} has a partial triangle", c);
        for j in 0..t {
            let e = tri_lookup(c, j);
            assert!((0..12).contains(&e), "row {} entry {} out of range", c, j);
        }
        assert_eq!(mask_lookup(c) == 0, t == 0, "mask and row of {} disagree", c);
    }
}

#[test]
fn active_edges_straddle_the_threshold() {
    // For every configuration, each edge used by its triangulation joins
    // one corner below the threshold and one above it.
    for c in 0..256usize {
        let mut t = 0usize;
        while tri_lookup(c, t) != -1 {
            let e = tri_lookup(c, t) as usize;
            let a = edge_corner_lookup(e, 0);
            let b = edge_corner_lookup(e, 1);
            let below_a = (c >> a) & 1;
            let below_b = (c >> b) & 1;
            assert_ne!(below_a, below_b, "config {} edge {} does not straddle", c, e);
            assert_eq!(EDGE_MASKS[c] >> e & 1, 1, "config {} uses inactive edge {}", c, e);
            t += 1;
        }
    }
}

#[test]
fn grid_index_matches_lexicographic_flattening() {
    assert_eq!(grid_index_at(3, 0, 0, 0), 0);
    assert_eq!(grid_index_at(3, 1, 2, 0), 15);
    assert_eq!(grid_index_at(3, 2, 2, 2), 26);
    let n = 4;
    let mut k: usize = 0;
    for x in 0..n {
        for y in 0..n {
            for z in 0..n {
                assert_eq!(grid_index_at(n, x, y, z), k);
                k += 1;
            }
        }
    }
}
