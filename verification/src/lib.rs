//! Verified core of a voxel-world renderer: chunk coordinates and the world
//! occupancy grid, chunk meshing, the mesh store and surface view, and the
//! frame presenter's fence protocol.

pub mod event_loop;
pub mod mesh_gen;
pub mod utils;
pub mod rvkp;
