//! Table-driven marching-cubes extraction over a grid of below-threshold
//! flags. The mesher walks every cube of the grid, classifies it, and plans
//! one vertex per triangulation entry; interpolating the planned vertices
//! against the floating-point densities is the caller's final step.

use crate::tables;
use vstd::prelude::*;

verus! {

/// One vertex the mesher plans: the cube edge whose threshold crossing the
/// vertex sits on, named by the cube's minimum corner and the edge index.
#[derive(Clone, Copy, PartialEq, Eq, Structural, Debug)]
pub struct EdgeRef {
    pub x: usize,
    pub y: usize,
    pub z: usize,
    pub edge: u8,
}

/// A lattice point of the scalar grid.
#[derive(Clone, Copy, PartialEq, Eq, Structural, Debug)]
pub struct GridPoint {
    pub x: usize,
    pub y: usize,
    pub z: usize,
}

/// The planned mesh: one entry of `verts` per triangle corner, and the
/// index buffer that references the planned vertices in emission order.
#[derive(Debug)]
pub struct MeshPlan {
    pub verts: Vec<EdgeRef>,
    pub indices: Vec<u32>,
}

/// Index of lattice point (x, y, z) in the flattened n x n x n grid.
pub open spec fn grid_index(n: int, x: int, y: int, z: int) -> int {
    (x * n + y) * n + z
}

/// x offset of corner `i` from the cube's minimum corner (bit 0 of `i`).
pub open spec fn corner_dx(i: int) -> int {
    i % 2
}

/// y offset of corner `i` from the cube's minimum corner (bit 1 of `i`).
pub open spec fn corner_dy(i: int) -> int {
    (i / 2) % 2
}

/// z offset of corner `i` from the cube's minimum corner (bit 2 of `i`).
pub open spec fn corner_dz(i: int) -> int {
    (i / 4) % 2
}

/// Whether corner `i` of the cube at (x, y, z) has density below the
/// threshold, read from the flattened flag grid `f`.
pub open spec fn corner_below(n: int, f: Seq<bool>, x: int, y: int, z: int, i: int) -> bool {
    f[grid_index(n, x + corner_dx(i), y + corner_dy(i), z + corner_dz(i))]
}

/// The cube configuration restricted to corners below `i`: bit `j` is set
/// iff corner `j` is below the threshold, for `j < i`.
pub open spec fn config_prefix(n: int, f: Seq<bool>, x: int, y: int, z: int, i: int) -> u8
    decreases i,
{
    if i <= 0 {
        0u8
    } else {
        let prev = config_prefix(n, f, x, y, z, i - 1);
        if corner_below(n, f, x, y, z, i - 1) {
            prev | (1u8 << ((i - 1) as u8))
        } else {
            prev
        }
    }
}

/// The 8-bit cube configuration: bit `i` set iff corner `i` is below the
/// threshold.
pub open spec fn cube_config(n: int, f: Seq<bool>, x: int, y: int, z: int) -> u8 {
    config_prefix(n, f, x, y, z, 8)
}

/// Whether a triangulation entry names one of the twelve cube edges.
pub open spec fn valid_edge(e: i8) -> bool {
    0 <= e < 12
}

/// The edge indices of the triangles of configuration `c`, read from the
/// triangulation row three at a time starting at position `t`, until the
/// sentinel, the end of the row, or an entry that names no edge (the last
/// two cannot occur in a well-formed row and only bound the walk).
pub open spec fn row_edges(c: int, t: int) -> Seq<i8>
    decreases 16 - t,
{
    if !(0 <= t && t + 3 <= 16) {
        Seq::empty()
    } else if tables::tri_entry(c, t) == tables::END {
        Seq::empty()
    } else if !(valid_edge(tables::tri_entry(c, t)) && valid_edge(tables::tri_entry(c, t + 1))
        && valid_edge(tables::tri_entry(c, t + 2))) {
        Seq::empty()
    } else {
        seq![
            tables::tri_entry(c, t),
            tables::tri_entry(c, t + 1),
            tables::tri_entry(c, t + 2),
        ] + row_edges(c, t + 3)
    }
}

/// The planned vertex for triangulation entry `e` of the cube at (x, y, z).
pub open spec fn entry_ref(x: int, y: int, z: int, e: i8) -> EdgeRef {
    EdgeRef { x: x as usize, y: y as usize, z: z as usize, edge: e as u8 }
}

/// Everything the mesher emits for the cube at (x, y, z): nothing when the
/// cube's edge-activation mask is zero, else one planned vertex per
/// triangulation entry of its configuration.
pub open spec fn cube_plan(n: int, f: Seq<bool>, x: int, y: int, z: int) -> Seq<EdgeRef> {
    let c = cube_config(n, f, x, y, z);
    if tables::EDGE_MASKS[c as int] == 0 {
        Seq::empty()
    } else {
        row_edges(c as int, 0).map_values(|e: i8| entry_ref(x as int, y as int, z as int, e))
    }
}

/// A triangulation row walk yields whole triangles, at most five of them.
pub proof fn lemma_row_edges_len(c: int, t: int)
    ensures
        row_edges(c, t).len() % 3 == 0,
        0 <= t <= 16 ==> row_edges(c, t).len() <= 16 - t,
    decreases 16 - t,
{
    if 0 <= t && t + 3 <= 16 {
        lemma_row_edges_len(c, t + 3);
    }
}

/// A cube contributes whole triangles, at most five of them.
pub proof fn lemma_cube_plan_len(n: int, f: Seq<bool>, x: int, y: int, z: int)
    ensures
        cube_plan(n, f, x, y, z).len() % 3 == 0,
        cube_plan(n, f, x, y, z).len() <= 15,
{
    let c = cube_config(n, f, x, y, z);
    lemma_row_edges_len(c as int, 0);
}

/// Whether a planned vertex names a cube of an n-point grid (by its
/// minimum corner) and one of the twelve cube edges.
pub open spec fn valid_ref(n: int, r: EdgeRef) -> bool {
    r.x < n - 1 && r.y < n - 1 && r.z < n - 1 && r.edge < 12
}

/// Every entry a row walk yields names one of the twelve cube edges.
pub proof fn lemma_row_edges_valid(c: int, t: int)
    ensures
        forall|k: int|
            0 <= k < row_edges(c, t).len() ==> valid_edge(#[trigger] row_edges(c, t)[k]),
    decreases 16 - t,
{
    if 0 <= t && t + 3 <= 16 {
        lemma_row_edges_valid(c, t + 3);
        assert forall|k: int|
            0 <= k < row_edges(c, t).len() implies valid_edge(
            #[trigger] row_edges(c, t)[k],
        ) by {
            if k >= 3 {
                assert(row_edges(c, t)[k] == row_edges(c, t + 3)[k - 3]);
            }
        }
    }
}

/// Every planned vertex of a cube in range names that cube and one of the
/// twelve cube edges.
pub proof fn lemma_cube_plan_valid(n: int, f: Seq<bool>, x: int, y: int, z: int)
    requires
        0 <= x < n - 1,
        0 <= y < n - 1,
        0 <= z < n - 1,
    ensures
        forall|k: int|
            0 <= k < cube_plan(n, f, x, y, z).len() ==> valid_ref(
                n,
                #[trigger] cube_plan(n, f, x, y, z)[k],
            ),
{
    let c = cube_config(n, f, x, y, z);
    lemma_row_edges_valid(c as int, 0);
}

/// Planned vertices of the cubes (x, y, z') with z' < z, in ascending z'.
pub open spec fn plan_row(n: int, f: Seq<bool>, x: int, y: int, z: int) -> Seq<EdgeRef>
    decreases z,
{
    if z <= 0 {
        Seq::empty()
    } else {
        plan_row(n, f, x, y, z - 1) + cube_plan(n, f, x, y, z - 1)
    }
}

/// Planned vertices of the cubes (x, y', _) with y' < y, whole rows in
/// ascending (y', z) order.
pub open spec fn plan_slab(n: int, f: Seq<bool>, x: int, y: int) -> Seq<EdgeRef>
    decreases y,
{
    if y <= 0 {
        Seq::empty()
    } else {
        plan_slab(n, f, x, y - 1) + plan_row(n, f, x, y - 1, n - 1)
    }
}

/// Planned vertices of the cubes (x', _, _) with x' < x, whole slabs in
/// ascending (x', y, z) order.
pub open spec fn plan_prefix(n: int, f: Seq<bool>, x: int) -> Seq<EdgeRef>
    decreases x,
{
    if x <= 0 {
        Seq::empty()
    } else {
        plan_prefix(n, f, x - 1) + plan_slab(n, f, x - 1, n - 1)
    }
}

/// The complete mesh plan of an n x n x n grid of below-threshold flags:
/// every cube's contribution in ascending (x, y, z) order. A grid with
/// fewer than two lattice points per axis has no cubes and yields nothing.
pub open spec fn mesh_plan(n: int, f: Seq<bool>) -> Seq<EdgeRef> {
    if n < 2 {
        Seq::empty()
    } else {
        plan_prefix(n, f, n - 1)
    }
}

/// A row of cubes contributes whole triangles, at most five per cube.
pub proof fn lemma_plan_row_len(n: int, f: Seq<bool>, x: int, y: int, z: int)
    requires
        0 <= z,
    ensures
        plan_row(n, f, x, y, z).len() % 3 == 0,
        plan_row(n, f, x, y, z).len() <= 15 * z,
    decreases z,
{
    if z > 0 {
        lemma_plan_row_len(n, f, x, y, z - 1);
        lemma_cube_plan_len(n, f, x, y, z - 1);
    }
}

/// A slab of cubes contributes whole triangles, at most five per cube.
pub proof fn lemma_plan_slab_len(n: int, f: Seq<bool>, x: int, y: int)
    requires
        0 <= y,
        1 <= n,
    ensures
        plan_slab(n, f, x, y).len() % 3 == 0,
        plan_slab(n, f, x, y).len() <= 15 * (n - 1) * y,
    decreases y,
{
    if y > 0 {
        lemma_plan_slab_len(n, f, x, y - 1);
        lemma_plan_row_len(n, f, x, y - 1, n - 1);
        assert(15 * (n - 1) * (y - 1) + 15 * (n - 1) == 15 * (n - 1) * y) by (nonlinear_arith);
    }
}

/// A prefix of slabs contributes whole triangles, at most five per cube.
pub proof fn lemma_plan_prefix_len(n: int, f: Seq<bool>, x: int)
    requires
        0 <= x,
        1 <= n,
    ensures
        plan_prefix(n, f, x).len() % 3 == 0,
        plan_prefix(n, f, x).len() <= 15 * (n - 1) * (n - 1) * x,
    decreases x,
{
    if x > 0 {
        lemma_plan_prefix_len(n, f, x - 1);
        lemma_plan_slab_len(n, f, x - 1, n - 1);
        assert(15 * (n - 1) * (n - 1) * (x - 1) + 15 * (n - 1) * (n - 1) == 15 * (n - 1) * (n - 1)
            * x) by (nonlinear_arith);
    }
}

/// Every planned vertex of a row of cubes names a cube of the grid and one
/// of the twelve cube edges.
pub proof fn lemma_plan_row_valid(n: int, f: Seq<bool>, x: int, y: int, z: int)
    requires
        0 <= x < n - 1,
        0 <= y < n - 1,
        0 <= z <= n - 1,
    ensures
        forall|k: int|
            0 <= k < plan_row(n, f, x, y, z).len() ==> valid_ref(
                n,
                #[trigger] plan_row(n, f, x, y, z)[k],
            ),
    decreases z,
{
    if z > 0 {
        lemma_plan_row_valid(n, f, x, y, z - 1);
        lemma_cube_plan_valid(n, f, x, y, z - 1);
        assert forall|k: int|
            0 <= k < plan_row(n, f, x, y, z).len() implies valid_ref(
            n,
            #[trigger] plan_row(n, f, x, y, z)[k],
        ) by {
            let pre = plan_row(n, f, x, y, z - 1);
            if k < pre.len() {
                assert(plan_row(n, f, x, y, z)[k] == pre[k]);
            } else {
                assert(plan_row(n, f, x, y, z)[k] == cube_plan(n, f, x, y, z - 1)[k - pre.len()]);
            }
        }
    }
}

/// Every planned vertex of a slab of cubes names a cube of the grid and
/// one of the twelve cube edges.
pub proof fn lemma_plan_slab_valid(n: int, f: Seq<bool>, x: int, y: int)
    requires
        0 <= x < n - 1,
        0 <= y <= n - 1,
    ensures
        forall|k: int|
            0 <= k < plan_slab(n, f, x, y).len() ==> valid_ref(
                n,
                #[trigger] plan_slab(n, f, x, y)[k],
            ),
    decreases y,
{
    if y > 0 {
        lemma_plan_slab_valid(n, f, x, y - 1);
        lemma_plan_row_valid(n, f, x, y - 1, n - 1);
        assert forall|k: int|
            0 <= k < plan_slab(n, f, x, y).len() implies valid_ref(
            n,
            #[trigger] plan_slab(n, f, x, y)[k],
        ) by {
            let pre = plan_slab(n, f, x, y - 1);
            if k < pre.len() {
                assert(plan_slab(n, f, x, y)[k] == pre[k]);
            } else {
                assert(plan_slab(n, f, x, y)[k] == plan_row(n, f, x, y - 1, n - 1)[k - pre.len()]);
            }
        }
    }
}

/// Every planned vertex of a prefix of slabs names a cube of the grid and
/// one of the twelve cube edges.
pub proof fn lemma_plan_prefix_valid(n: int, f: Seq<bool>, x: int)
    requires
        0 <= x <= n - 1,
        2 <= n,
    ensures
        forall|k: int|
            0 <= k < plan_prefix(n, f, x).len() ==> valid_ref(
                n,
                #[trigger] plan_prefix(n, f, x)[k],
            ),
    decreases x,
{
    if x > 0 {
        lemma_plan_prefix_valid(n, f, x - 1);
        lemma_plan_slab_valid(n, f, x - 1, n - 1);
        assert forall|k: int|
            0 <= k < plan_prefix(n, f, x).len() implies valid_ref(
            n,
            #[trigger] plan_prefix(n, f, x)[k],
        ) by {
            let pre = plan_prefix(n, f, x - 1);
            if k < pre.len() {
                assert(plan_prefix(n, f, x)[k] == pre[k]);
            } else {
                assert(plan_prefix(n, f, x)[k] == plan_slab(n, f, x - 1, n - 1)[k - pre.len()]);
            }
        }
    }
}

/// Every planned vertex of the mesh plan names a cube of the grid and one
/// of the twelve cube edges.
pub proof fn lemma_mesh_plan_valid(n: int, f: Seq<bool>)
    ensures
        forall|k: int|
            0 <= k < mesh_plan(n, f).len() ==> valid_ref(n, #[trigger] mesh_plan(n, f)[k]),
{
    if n >= 2 {
        lemma_plan_prefix_valid(n, f, n - 1);
    }
}

/// A cube whose configuration has edge-activation mask zero contributes no
/// planned vertices, and so no triangles, to the mesh.
pub proof fn lemma_mask_zero_no_triangles(n: int, f: Seq<bool>, x: int, y: int, z: int)
    requires
        tables::EDGE_MASKS[cube_config(n, f, x, y, z) as int] == 0,
    ensures
        cube_plan(n, f, x, y, z) == Seq::<EdgeRef>::empty(),
{
}

/// A lattice point of the grid lies inside the flattened grid.
pub proof fn lemma_grid_index_bounds(n: int, x: int, y: int, z: int)
    requires
        0 <= x < n,
        0 <= y < n,
        0 <= z < n,
    ensures
        0 <= grid_index(n, x, y, z) < n * n * n,
{
    assert(0 <= (x * n + y) * n + z < n * n * n) by (nonlinear_arith)
        requires
            0 <= x < n,
            0 <= y < n,
            0 <= z < n,
    ;
}

/// Whether every flag of the grid is `b`: the whole field lies on one side
/// of the threshold.
pub open spec fn uniform_flags(f: Seq<bool>, b: bool) -> bool {
    forall|p: int| 0 <= p < f.len() ==> f[p] == b
}

/// In a uniform grid every cube's configuration is all-outside (0) or
/// all-inside (255).
pub proof fn lemma_uniform_cube_config(n: int, f: Seq<bool>, b: bool, x: int, y: int, z: int)
    requires
        f.len() == n * n * n,
        uniform_flags(f, b),
        0 <= x < n - 1,
        0 <= y < n - 1,
        0 <= z < n - 1,
    ensures
        cube_config(n, f, x, y, z) == if b {
            255u8
        } else {
            0u8
        },
{
    assert forall|i: int| 0 <= i < 8 implies corner_below(n, f, x, y, z, i) == b by {
        assert(corner_dx(i) <= 1 && corner_dy(i) <= 1 && corner_dz(i) <= 1 && corner_dx(i) >= 0
            && corner_dy(i) >= 0 && corner_dz(i) >= 0);
        lemma_grid_index_bounds(n, x + corner_dx(i), y + corner_dy(i), z + corner_dz(i));
    }
    reveal_with_fuel(config_prefix, 9);
    if b {
        assert(0u8 | (1u8 << 0u8) == 1u8 && 1u8 | (1u8 << 1u8) == 3u8 && 3u8 | (1u8 << 2u8) == 7u8
            && 7u8 | (1u8 << 3u8) == 15u8 && 15u8 | (1u8 << 4u8) == 31u8 && 31u8 | (1u8 << 5u8)
            == 63u8 && 63u8 | (1u8 << 6u8) == 127u8 && 127u8 | (1u8 << 7u8) == 255u8)
            by (bit_vector);
    }
}

/// In a uniform grid no cube contributes any planned vertex: both the
/// all-outside and the all-inside configuration have mask zero.
pub proof fn lemma_uniform_cube_plan_empty(
    n: int,
    f: Seq<bool>,
    b: bool,
    x: int,
    y: int,
    z: int,
)
    requires
        f.len() == n * n * n,
        uniform_flags(f, b),
        0 <= x < n - 1,
        0 <= y < n - 1,
        0 <= z < n - 1,
    ensures
        cube_plan(n, f, x, y, z) == Seq::<EdgeRef>::empty(),
{
    lemma_uniform_cube_config(n, f, b, x, y, z);
    tables::lemma_trivial_configs_mask_zero();
}

/// In a uniform grid a row of cubes plans nothing.
proof fn lemma_uniform_row_empty(n: int, f: Seq<bool>, b: bool, x: int, y: int, z: int)
    requires
        f.len() == n * n * n,
        uniform_flags(f, b),
        0 <= x < n - 1,
        0 <= y < n - 1,
        0 <= z <= n - 1,
    ensures
        plan_row(n, f, x, y, z) == Seq::<EdgeRef>::empty(),
    decreases z,
{
    if z > 0 {
        lemma_uniform_row_empty(n, f, b, x, y, z - 1);
        lemma_uniform_cube_plan_empty(n, f, b, x, y, z - 1);
        assert(plan_row(n, f, x, y, z) =~= Seq::<EdgeRef>::empty());
    }
}

/// In a uniform grid a slab of cubes plans nothing.
proof fn lemma_uniform_slab_empty(n: int, f: Seq<bool>, b: bool, x: int, y: int)
    requires
        f.len() == n * n * n,
        uniform_flags(f, b),
        0 <= x < n - 1,
        0 <= y <= n - 1,
    ensures
        plan_slab(n, f, x, y) == Seq::<EdgeRef>::empty(),
    decreases y,
{
    if y > 0 {
        lemma_uniform_slab_empty(n, f, b, x, y - 1);
        lemma_uniform_row_empty(n, f, b, x, y - 1, n - 1);
        assert(plan_slab(n, f, x, y) =~= Seq::<EdgeRef>::empty());
    }
}

/// In a uniform grid a prefix of slabs plans nothing.
proof fn lemma_uniform_prefix_empty(n: int, f: Seq<bool>, b: bool, x: int)
    requires
        f.len() == n * n * n,
        uniform_flags(f, b),
        2 <= n,
        0 <= x <= n - 1,
    ensures
        plan_prefix(n, f, x) == Seq::<EdgeRef>::empty(),
    decreases x,
{
    if x > 0 {
        lemma_uniform_prefix_empty(n, f, b, x - 1);
        lemma_uniform_slab_empty(n, f, b, x - 1, n - 1);
        assert(plan_prefix(n, f, x) =~= Seq::<EdgeRef>::empty());
    }
}

/// A fully uniform field - every density on the same side of the
/// threshold, so every flag equal - yields an empty mesh plan.
pub proof fn lemma_uniform_field_empty(n: int, f: Seq<bool>, b: bool)
    requires
        f.len() == n * n * n,
        uniform_flags(f, b),
    ensures
        mesh_plan(n, f) == Seq::<EdgeRef>::empty(),
{
    if n >= 2 {
        lemma_uniform_prefix_empty(n, f, b, n - 1);
    }
}

/// Whether the flag grid describes a single planar discontinuity: density
/// below the threshold exactly from lattice layer y = k upward.
pub open spec fn planar_flags(n: int, f: Seq<bool>, k: int) -> bool {
    forall|x: int, y: int, z: int|
        0 <= x < n && 0 <= y < n && 0 <= z < n ==> f[#[trigger] grid_index(n, x, y, z)] == (y
            >= k)
}

/// Against a planar discontinuity at layer k a cube is all-outside below
/// it, all-inside above it, and configuration 204 (corners 2, 3, 6, 7
/// inside) exactly on the crossing layer y = k - 1.
pub proof fn lemma_planar_cube_config(n: int, f: Seq<bool>, k: int, x: int, y: int, z: int)
    requires
        f.len() == n * n * n,
        planar_flags(n, f, k),
        0 <= x < n - 1,
        0 <= y < n - 1,
        0 <= z < n - 1,
    ensures
        cube_config(n, f, x, y, z) == if y >= k {
            255u8
        } else if y == k - 1 {
            204u8
        } else {
            0u8
        },
{
    assert forall|i: int| 0 <= i < 8 implies corner_below(n, f, x, y, z, i) == (y + corner_dy(i)
        >= k) by {
        assert(corner_dx(i) <= 1 && corner_dy(i) <= 1 && corner_dz(i) <= 1 && corner_dx(i) >= 0
            && corner_dy(i) >= 0 && corner_dz(i) >= 0);
        lemma_grid_index_bounds(n, x + corner_dx(i), y + corner_dy(i), z + corner_dz(i));
        assert(f[grid_index(n, x + corner_dx(i), y + corner_dy(i), z + corner_dz(i))] == (y
            + corner_dy(i) >= k));
    }
    reveal_with_fuel(config_prefix, 9);
    if y >= k {
        assert(0u8 | (1u8 << 0u8) == 1u8 && 1u8 | (1u8 << 1u8) == 3u8 && 3u8 | (1u8 << 2u8) == 7u8
            && 7u8 | (1u8 << 3u8) == 15u8 && 15u8 | (1u8 << 4u8) == 31u8 && 31u8 | (1u8 << 5u8)
            == 63u8 && 63u8 | (1u8 << 6u8) == 127u8 && 127u8 | (1u8 << 7u8) == 255u8)
            by (bit_vector);
    } else if y == k - 1 {
        assert(0u8 | (1u8 << 2u8) == 4u8 && 4u8 | (1u8 << 3u8) == 12u8 && 12u8 | (1u8 << 6u8)
            == 76u8 && 76u8 | (1u8 << 7u8) == 204u8) by (bit_vector);
    }
}

/// Configuration 204 cuts exactly two triangles out of its cube.
pub proof fn lemma_config_204_row_len()
    ensures
        tables::EDGE_MASKS[204] != 0,
        row_edges(204, 0).len() == 6,
{
    reveal(tables::EDGE_MASKS);
    reveal(tables::TRIANGULATION_HI);
    reveal_with_fuel(row_edges, 4);
    assert(tables::tri_entry(204, 6) == tables::END);
    assert(row_edges(204, 6) =~= Seq::<i8>::empty());
    assert(row_edges(204, 0).len() == 6);
}

/// Against a planar discontinuity only the cubes of the crossing layer
/// contribute, six planned vertices (two triangles) each.
proof fn lemma_planar_cube_plan_len(n: int, f: Seq<bool>, k: int, x: int, y: int, z: int)
    requires
        f.len() == n * n * n,
        planar_flags(n, f, k),
        0 <= x < n - 1,
        0 <= y < n - 1,
        0 <= z < n - 1,
    ensures
        cube_plan(n, f, x, y, z).len() == if y == k - 1 {
            6int
        } else {
            0int
        },
{
    lemma_planar_cube_config(n, f, k, x, y, z);
    tables::lemma_trivial_configs_mask_zero();
    if y == k - 1 {
        lemma_config_204_row_len();
    }
}

/// Row count of the planar mesh: six vertices per crossing-layer cube.
proof fn lemma_planar_row_len(n: int, f: Seq<bool>, k: int, x: int, y: int, z: int)
    requires
        f.len() == n * n * n,
        planar_flags(n, f, k),
        0 <= x < n - 1,
        0 <= y < n - 1,
        0 <= z <= n - 1,
    ensures
        plan_row(n, f, x, y, z).len() == if y == k - 1 {
            6 * z
        } else {
            0int
        },
    decreases z,
{
    if z > 0 {
        lemma_planar_row_len(n, f, k, x, y, z - 1);
        lemma_planar_cube_plan_len(n, f, k, x, y, z - 1);
    }
}

/// Slab count of the planar mesh: one crossing row once y passes k.
proof fn lemma_planar_slab_len(n: int, f: Seq<bool>, k: int, x: int, y: int)
    requires
        f.len() == n * n * n,
        planar_flags(n, f, k),
        1 <= k,
        0 <= x < n - 1,
        0 <= y <= n - 1,
    ensures
        plan_slab(n, f, x, y).len() == if y >= k {
            6 * (n - 1)
        } else {
            0int
        },
    decreases y,
{
    if y > 0 {
        lemma_planar_slab_len(n, f, k, x, y - 1);
        lemma_planar_row_len(n, f, k, x, y - 1, n - 1);
    }
}

/// Prefix count of the planar mesh: every slab holds one crossing row.
proof fn lemma_planar_prefix_len(n: int, f: Seq<bool>, k: int, x: int)
    requires
        f.len() == n * n * n,
        planar_flags(n, f, k),
        1 <= k <= n - 1,
        2 <= n,
        0 <= x <= n - 1,
    ensures
        plan_prefix(n, f, x).len() == 6 * (n - 1) * x,
    decreases x,
{
    if x > 0 {
        lemma_planar_prefix_len(n, f, k, x - 1);
        lemma_planar_slab_len(n, f, k, x - 1, n - 1);
        assert(plan_slab(n, f, x - 1, n - 1).len() == 6 * (n - 1));
        assert(plan_prefix(n, f, x).len() == plan_prefix(n, f, x - 1).len() + plan_slab(
            n,
            f,
            x - 1,
            n - 1,
        ).len());
        assert(6 * (n - 1) * (x - 1) + 6 * (n - 1) == 6 * (n - 1) * x) by (nonlinear_arith);
    } else {
        assert(plan_prefix(n, f, x).len() == 0);
        assert(6 * (n - 1) * x == 0) by (nonlinear_arith)
            requires
                x == 0,
        ;
    }
}

/// A field with a single planar discontinuity - density below the
/// threshold exactly from lattice layer y = k upward - meshes the plane
/// with two triangles per cube of the crossing layer: its mesh plan holds
/// exactly 6 (n-1)^2 vertices, that is 2 (n-1)^2 triangles.
pub proof fn lemma_planar_field_mesh_size(n: int, f: Seq<bool>, k: int)
    requires
        f.len() == n * n * n,
        planar_flags(n, f, k),
        2 <= n,
        1 <= k <= n - 1,
    ensures
        mesh_plan(n, f).len() == 6 * (n - 1) * (n - 1),
{
    lemma_planar_prefix_len(n, f, k, n - 1);
}

/// Reads the flag of the lattice point (x, y, z).
fn read_flag(grid_size: usize, below: &Vec<bool>, x: usize, y: usize, z: usize) -> (b: bool)
    requires
        below@.len() == grid_size * grid_size * grid_size,
        x < grid_size,
        y < grid_size,
        z < grid_size,
    ensures
        b == below@[grid_index(grid_size as int, x as int, y as int, z as int)],
{
    let n = grid_size;
    let len = below.len();
    proof {
        let ni = n as int;
        let xi = x as int;
        let yi = y as int;
        let zi = z as int;
        assert(xi * ni <= ni * ni && xi * ni + yi < ni * ni && (xi * ni + yi) * ni + zi < ni * ni
            * ni && ni * ni <= ni * ni * ni && 0 <= xi * ni) by (nonlinear_arith)
            requires
                0 <= xi < ni,
                0 <= yi < ni,
                0 <= zi < ni,
        ;
        assert(ni * ni * ni == len);
    }
    let idx = (x * n + y) * n + z;
    below[idx]
}

/// Classifies the cube at (x, y, z): builds the 8-bit configuration from
/// the below-threshold flags of its eight corners.
pub fn cube_index(grid_size: usize, below: &Vec<bool>, x: usize, y: usize, z: usize) -> (c: u8)
    requires
        2 <= grid_size,
        below@.len() == grid_size * grid_size * grid_size,
        x < grid_size - 1,
        y < grid_size - 1,
        z < grid_size - 1,
    ensures
        c == cube_config(grid_size as int, below@, x as int, y as int, z as int),
{
    let mut c: u8 = 0;
    for i in 0..8usize
        invariant
            2 <= grid_size,
            below@.len() == grid_size * grid_size * grid_size,
            x < grid_size - 1,
            y < grid_size - 1,
            z < grid_size - 1,
            c == config_prefix(grid_size as int, below@, x as int, y as int, z as int, i as int),
    {
        let dx = i & 1;
        let dy = (i >> 1) & 1;
        let dz = (i >> 2) & 1;
        proof {
            let iu = i;
            assert(iu < 8 ==> (iu & 1) == iu % 2 && ((iu >> 1) & 1) == (iu / 2) % 2 && ((iu >> 2)
                & 1) == (iu / 4) % 2 && (iu & 1) <= 1 && ((iu >> 1) & 1) <= 1 && ((iu >> 2) & 1)
                <= 1) by (bit_vector);
        }
        let b = read_flag(grid_size, below, x + dx, y + dy, z + dz);
        if b {
            c = c | (1u8 << (i as u8));
            proof {
                let iu = i as u8;
                assert(iu < 8 ==> ((1u8 << iu) as int) < 256) by (bit_vector);
            }
        }
    }
    c
}

/// Walks the triangulation row of the cube at (x, y, z) and appends one
/// planned vertex and one fresh index per entry.
#[verifier::loop_isolation(false)]
fn process_cube(
    grid_size: usize,
    below: &Vec<bool>,
    x: usize,
    y: usize,
    z: usize,
    verts: &mut Vec<EdgeRef>,
    indices: &mut Vec<u32>,
)
    requires
        2 <= grid_size,
        below@.len() == grid_size * grid_size * grid_size,
        x < grid_size - 1,
        y < grid_size - 1,
        z < grid_size - 1,
        old(verts)@.len() == old(indices)@.len(),
        old(verts)@.len() + 15 <= u32::MAX,
    ensures
        final(verts)@ == old(verts)@ + cube_plan(
            grid_size as int,
            below@,
            x as int,
            y as int,
            z as int,
        ),
        final(indices)@.len() == final(verts)@.len(),
        forall|i: int| 0 <= i < old(indices)@.len() ==> final(indices)@[i] == old(indices)@[i],
        forall|i: int|
            old(indices)@.len() <= i < final(indices)@.len() ==> final(indices)@[i] == i as u32,
{
    let ghost n_i = grid_size as int;
    let ghost f = below@;
    let ghost x_i = x as int;
    let ghost y_i = y as int;
    let ghost z_i = z as int;
    let ghost old_verts = verts@;
    let ghost old_indices = indices@;

    let c = cube_index(grid_size, below, x, y, z);
    let mask = tables::mask_lookup(c as usize);
    if mask == 0 {
        assert(verts@ =~= old_verts + cube_plan(n_i, f, x_i, y_i, z_i));
        return ;
    }
    let ci = c as usize;
    let mut t: usize = 0;
    let mut stop = false;
    let ghost em: Seq<i8> = Seq::empty();
    proof {
        assert(em + row_edges(ci as int, 0) =~= row_edges(ci as int, 0));
    }
    while !stop
        invariant
            c as int == ci < 256,
            t % 3 == 0,
            t <= 16,
            em.len() == t,
            em + row_edges(ci as int, t as int) == row_edges(ci as int, 0),
            stop ==> row_edges(ci as int, t as int) =~= Seq::<i8>::empty(),
            verts@ == old_verts + em.map_values(|e: i8| entry_ref(x_i, y_i, z_i, e)),
            indices@.len() == verts@.len(),
            old_verts.len() == old_indices.len(),
            old_verts.len() + 15 <= u32::MAX,
            verts@.len() == old_verts.len() + t,
            forall|i: int| 0 <= i < old_indices.len() ==> indices@[i] == old_indices[i],
            forall|i: int| old_indices.len() <= i < indices@.len() ==> indices@[i] == i as u32,
        decreases 16 - t + if stop { 0int } else { 1int },
    {
        if t + 3 > 16 {
            stop = true;
        } else {
            let e0 = tables::tri_lookup(ci, t);
            if e0 == tables::END {
                stop = true;
            } else {
                let e1 = tables::tri_lookup(ci, t + 1);
                let e2 = tables::tri_lookup(ci, t + 2);
                if e0 < 0 || e0 >= 12 || e1 < 0 || e1 >= 12 || e2 < 0 || e2 >= 12 {
                    stop = true;
                } else {
                    let ghost em_pre = em;
                    let idx0 = indices.len() as u32;
                    verts.push(EdgeRef { x, y, z, edge: e0 as u8 });
                    indices.push(idx0);
                    let idx1 = indices.len() as u32;
                    verts.push(EdgeRef { x, y, z, edge: e1 as u8 });
                    indices.push(idx1);
                    let idx2 = indices.len() as u32;
                    verts.push(EdgeRef { x, y, z, edge: e2 as u8 });
                    indices.push(idx2);
                    proof {
                        em = em + seq![e0, e1, e2];
                        assert(row_edges(ci as int, t as int) =~= seq![e0, e1, e2] + row_edges(
                            ci as int,
                            t as int + 3,
                        ));
                        assert(em + row_edges(ci as int, t as int + 3) =~= em_pre + row_edges(
                            ci as int,
                            t as int,
                        ));
                        assert(x_i as usize == x && y_i as usize == y && z_i as usize == z);
                        assert(entry_ref(x_i, y_i, z_i, e0) == (EdgeRef {
                            x,
                            y,
                            z,
                            edge: e0 as u8,
                        }));
                        assert(entry_ref(x_i, y_i, z_i, e1) == (EdgeRef {
                            x,
                            y,
                            z,
                            edge: e1 as u8,
                        }));
                        assert(entry_ref(x_i, y_i, z_i, e2) == (EdgeRef {
                            x,
                            y,
                            z,
                            edge: e2 as u8,
                        }));
                        assert(verts@ =~= old_verts + em_pre.map_values(
                            |e: i8| entry_ref(x_i, y_i, z_i, e),
                        ) + seq![
                            entry_ref(x_i, y_i, z_i, e0),
                            entry_ref(x_i, y_i, z_i, e1),
                            entry_ref(x_i, y_i, z_i, e2),
                        ]);
                        assert(em.map_values(|e: i8| entry_ref(x_i, y_i, z_i, e))
                            =~= em_pre.map_values(|e: i8| entry_ref(x_i, y_i, z_i, e)) + seq![
                            entry_ref(x_i, y_i, z_i, e0),
                            entry_ref(x_i, y_i, z_i, e1),
                            entry_ref(x_i, y_i, z_i, e2),
                        ]);
                        assert(verts@ =~= old_verts + em.map_values(
                            |e: i8| entry_ref(x_i, y_i, z_i, e),
                        ));
                    }
                    t = t + 3;
                }
            }
        }
    }
    proof {
        assert(em =~= row_edges(ci as int, 0));
        assert(cube_plan(n_i, f, x_i, y_i, z_i) == row_edges(ci as int, 0).map_values(
            |e: i8| entry_ref(x_i, y_i, z_i, e),
        ));
        assert(verts@ =~= old_verts + cube_plan(n_i, f, x_i, y_i, z_i));
    }
}

/// Extracts the mesh plan of the isosurface from an n x n x n grid of
/// below-threshold flags (flag of lattice point (x, y, z) at flattened
/// index `(x * n + y) * n + z`): walks every cube in ascending (x, y, z)
/// order, classifies it against the case tables, and emits one planned
/// vertex and one fresh index per triangulation entry. A grid with fewer
/// than two points per axis yields an empty plan.
#[verifier::loop_isolation(false)]
pub fn generate_marching_cubes(grid_size: usize, below: &Vec<bool>) -> (r: MeshPlan)
    requires
        below@.len() == grid_size * grid_size * grid_size,
        2 <= grid_size ==> 15 * ((grid_size - 1) * (grid_size - 1) * (grid_size - 1))
            <= u32::MAX,
    ensures
        r.verts@ == mesh_plan(grid_size as int, below@),
        r.indices@.len() == r.verts@.len(),
        forall|i: int| 0 <= i < r.indices@.len() ==> r.indices@[i] == i as u32,
        r.verts@.len() % 3 == 0,
        forall|i: int| 0 <= i < r.indices@.len() ==> (r.indices@[i] as int) < r.verts@.len(),
        forall|i: int|
            0 <= i < r.verts@.len() ==> valid_ref(grid_size as int, #[trigger] r.verts@[i]),
{
    let mut verts: Vec<EdgeRef> = Vec::new();
    let mut indices: Vec<u32> = Vec::new();
    if grid_size < 2 {
        return MeshPlan { verts, indices };
    }
    let m = grid_size - 1;
    let ghost n_i = grid_size as int;
    let ghost f = below@;
    for x in 0..m
        invariant
            verts@ == plan_prefix(n_i, f, x as int),
            indices@.len() == verts@.len(),
            forall|i: int| 0 <= i < indices@.len() ==> indices@[i] == i as u32,
    {
        for y in 0..m
            invariant
                verts@ == plan_prefix(n_i, f, x as int) + plan_slab(n_i, f, x as int, y as int),
                indices@.len() == verts@.len(),
                forall|i: int| 0 <= i < indices@.len() ==> indices@[i] == i as u32,
        {
            for z in 0..m
                invariant
                    verts@ == plan_prefix(n_i, f, x as int) + plan_slab(
                        n_i,
                        f,
                        x as int,
                        y as int,
                    ) + plan_row(n_i, f, x as int, y as int, z as int),
                    indices@.len() == verts@.len(),
                    forall|i: int| 0 <= i < indices@.len() ==> indices@[i] == i as u32,
            {
                proof {
                    lemma_plan_prefix_len(n_i, f, x as int);
                    lemma_plan_slab_len(n_i, f, x as int, y as int);
                    lemma_plan_row_len(n_i, f, x as int, y as int, z as int);
                    assert(15 * (n_i - 1) * (n_i - 1) * x + 15 * (n_i - 1) * y + 15 * z + 15 <= 15
                        * ((n_i - 1) * (n_i - 1) * (n_i - 1))) by (nonlinear_arith)
                        requires
                            0 <= x <= n_i - 2,
                            0 <= y <= n_i - 2,
                            0 <= z <= n_i - 2,
                            2 <= n_i,
                    ;
                }
                process_cube(grid_size, below, x, y, z, &mut verts, &mut indices);
                proof {
                    assert(plan_row(n_i, f, x as int, y as int, z as int + 1) =~= plan_row(
                        n_i,
                        f,
                        x as int,
                        y as int,
                        z as int,
                    ) + cube_plan(n_i, f, x as int, y as int, z as int));
                    assert(verts@ =~= plan_prefix(n_i, f, x as int) + plan_slab(
                        n_i,
                        f,
                        x as int,
                        y as int,
                    ) + plan_row(n_i, f, x as int, y as int, z as int + 1));
                }
            }
            proof {
                assert(verts@ =~= plan_prefix(n_i, f, x as int) + plan_slab(
                    n_i,
                    f,
                    x as int,
                    y as int + 1,
                ));
            }
        }
        proof {
            assert(verts@ =~= plan_prefix(n_i, f, x as int + 1));
        }
    }
    proof {
        lemma_plan_prefix_len(n_i, f, n_i - 1);
        lemma_mesh_plan_valid(n_i, f);
        assert forall|i: int| 0 <= i < verts@.len() implies valid_ref(
            n_i,
            #[trigger] verts@[i],
        ) by {
            assert(verts@[i] == mesh_plan(n_i, f)[i]);
        }
    }
    MeshPlan { verts, indices }
}

/// The absolute lattice position of corner `i` of the cube at (x, y, z),
/// per the corner bit layout `(i&1, (i>>1)&1, (i>>2)&1)`.
pub fn corner_position(x: usize, y: usize, z: usize, i: usize) -> (p: GridPoint)
    requires
        i < 8,
        x < usize::MAX,
        y < usize::MAX,
        z < usize::MAX,
    ensures
        p.x == x + corner_dx(i as int),
        p.y == y + corner_dy(i as int),
        p.z == z + corner_dz(i as int),
{
    let dx = i & 1;
    let dy = (i >> 1) & 1;
    let dz = (i >> 2) & 1;
    proof {
        let iu = i;
        assert(iu < 8 ==> (iu & 1) == iu % 2 && ((iu >> 1) & 1) == (iu / 2) % 2 && ((iu >> 2) & 1)
            == (iu / 4) % 2 && (iu & 1) <= 1 && ((iu >> 1) & 1) <= 1 && ((iu >> 2) & 1) <= 1)
            by (bit_vector);
    }
    GridPoint { x: x + dx, y: y + dy, z: z + dz }
}

/// Corner `k` (0 or 1) of the cube edge a planned vertex sits on, as an
/// absolute lattice position.
pub open spec fn edge_corner_point(x: int, y: int, z: int, e: int, k: int) -> GridPoint {
    let i = tables::EDGE_VERTEX_INDICES[e][k] as int;
    GridPoint {
        x: (x + corner_dx(i)) as usize,
        y: (y + corner_dy(i)) as usize,
        z: (z + corner_dz(i)) as usize,
    }
}

/// The two corners of any cube edge are adjacent lattice points: their
/// offsets agree on two axes and grow by exactly one on the third, so a
/// point interpolated between them lies on an axis-aligned unit segment
/// of the cube.
pub proof fn lemma_edge_corners_adjacent(e: int)
    requires
        0 <= e < 12,
    ensures
        ({
            let a = tables::EDGE_VERTEX_INDICES[e][0] as int;
            let b = tables::EDGE_VERTEX_INDICES[e][1] as int;
            &&& corner_dx(a) <= corner_dx(b)
            &&& corner_dy(a) <= corner_dy(b)
            &&& corner_dz(a) <= corner_dz(b)
            &&& corner_dx(b) - corner_dx(a) + corner_dy(b) - corner_dy(a) + corner_dz(b)
                - corner_dz(a) == 1
        }),
{
    assert(e == 0 || e == 1 || e == 2 || e == 3 || e == 4 || e == 5 || e == 6 || e == 7 || e == 8
        || e == 9 || e == 10 || e == 11);
}

/// The two lattice corners of the cube edge a planned vertex sits on: the
/// endpoints between which the caller interpolates the vertex position.
/// They are adjacent lattice points: equal on two axes, one apart on the
/// third.
pub fn edge_endpoints(grid_size: usize, r: &EdgeRef) -> (p: (GridPoint, GridPoint))
    requires
        2 <= grid_size,
        valid_ref(grid_size as int, *r),
    ensures
        p.0 == edge_corner_point(r.x as int, r.y as int, r.z as int, r.edge as int, 0),
        p.1 == edge_corner_point(r.x as int, r.y as int, r.z as int, r.edge as int, 1),
        p.0.x < grid_size && p.0.y < grid_size && p.0.z < grid_size,
        p.1.x < grid_size && p.1.y < grid_size && p.1.z < grid_size,
        p.0.x <= p.1.x <= p.0.x + 1,
        p.0.y <= p.1.y <= p.0.y + 1,
        p.0.z <= p.1.z <= p.0.z + 1,
        p.1.x + p.1.y + p.1.z == p.0.x + p.0.y + p.0.z + 1,
{
    proof {
        tables::lemma_edge_corners_in_range();
        lemma_edge_corners_adjacent(r.edge as int);
    }
    let e = r.edge as usize;
    let a = tables::edge_corner_lookup(e, 0);
    let b = tables::edge_corner_lookup(e, 1);
    let p0 = corner_position(r.x, r.y, r.z, a);
    let p1 = corner_position(r.x, r.y, r.z, b);
    (p0, p1)
}

/// Index of the lattice point (x, y, z) in the flattened n x n x n grid,
/// for callers assembling or reading a flag grid.
pub fn grid_index_at(grid_size: usize, x: usize, y: usize, z: usize) -> (i: usize)
    requires
        x < grid_size,
        y < grid_size,
        z < grid_size,
        grid_size * grid_size * grid_size <= usize::MAX,
    ensures
        i == grid_index(grid_size as int, x as int, y as int, z as int),
        i < grid_size * grid_size * grid_size,
{
    proof {
        let ni = grid_size as int;
        let xi = x as int;
        let yi = y as int;
        let zi = z as int;
        assert(xi * ni <= ni * ni && xi * ni + yi < ni * ni && (xi * ni + yi) * ni + zi < ni * ni
            * ni && ni * ni <= ni * ni * ni && 0 <= xi * ni) by (nonlinear_arith)
            requires
                0 <= xi < ni,
                0 <= yi < ni,
                0 <= zi < ni,
        ;
    }
    (x * grid_size + y) * grid_size + z
}

} // verus!
