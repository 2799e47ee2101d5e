use vstd::prelude::*;

verus! {

/// Fixed-point units per grid cell edge. A lattice point `(x, y, z)` sits at
/// mesh coordinate `(x, y, z) * LATTICE_SCALE`; interpolated vertices fall
/// between lattice points.
pub const LATTICE_SCALE: i64 = 65536;

/// A mesh vertex position in fixed-point lattice coordinates.
#[derive(Clone, Copy, PartialEq, Eq, Structural, Debug, Hash)]
pub struct MeshVertex {
    pub x: i64,
    pub y: i64,
    pub z: i64,
}

/// An indexed triangle list: three vertices and three indices per triangle.
/// The extractor emits vertices in triangle order, so `indices` is the
/// identity prefix `0, 1, 2, ...`; a consumer may bind the two buffers to a
/// fixed-function pipeline without reordering.
pub struct TriangleMesh {
    pub vertices: Vec<MeshVertex>,
    pub indices: Vec<u32>,
}

impl TriangleMesh {
    /// Three indices per triangle, each index naming the vertex in the same
    /// position.
    pub open spec fn wf(self) -> bool {
        self.indices@.len() == self.vertices@.len()
            && self.vertices@.len() % 3 == 0
            && forall|i: int| 0 <= i < self.indices@.len() ==> self.indices@[i] == i as u32
    }

    pub open spec fn spec_triangle_count(self) -> int {
        self.vertices@.len() as int / 3
    }

    /// Number of whole triangles in the mesh.
    pub fn triangle_count(&self) -> (n: usize)
        ensures
            n == self.spec_triangle_count(),
    {
        self.vertices.len() / 3
    }
}

} // verus!
