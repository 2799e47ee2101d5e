//! A verified core for a marching-cubes rendering sandbox.
//!
//! The library covers the parts of such a sandbox that are pure logic:
//! validating grid extents and sizing the worst-case geometry buffers
//! (`grid`), holding and filling a sampled scalar volume (`volume`), the
//! 256-entry marching-cubes case table (`table`), extracting an indexed
//! triangle mesh from a volume at an iso-threshold (`extract`), and the
//! per-frame decisions of the render loop: when to skip a frame and when a
//! window resize may reconfigure the presentation surface (`frame`).
//!
//! Scalar densities are plain integers, read as fixed-point values by the
//! caller; mesh coordinates are fixed-point with [`mesh::LATTICE_SCALE`]
//! units per grid cell. The windowing and GPU work that surrounds this core
//! stays outside the library.

pub mod extract;
pub mod frame;
pub mod grid;
pub mod mesh;
pub mod table;
pub mod volume;
