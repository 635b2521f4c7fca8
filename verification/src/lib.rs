//! Verified core of a procedural isosurface mesher: the marching-cubes case
//! tables and the table-driven extraction pass that turns a grid of
//! below-threshold flags into triangle geometry ready for interpolation.

pub mod marching_cubes;
pub mod tables;

pub use crate::marching_cubes::{
    corner_position, cube_index, edge_endpoints, generate_marching_cubes, grid_index_at, EdgeRef,
    GridPoint, MeshPlan,
};
