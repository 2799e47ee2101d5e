use vstd::prelude::*;

verus! {

/// Largest accepted cell count. It keeps every derived size (worst-case
/// triangle, vertex and index counts, and the lattice sample count) well
/// inside `u32` and `usize` range, so the sizing arithmetic below cannot
/// overflow on any platform.
pub const MAX_CELLS: usize = 0x0fff_ffff;

/// Extents of the cell grid: `nx * ny * nz` unit cells, sampled on a
/// lattice of `(nx + 1) * (ny + 1) * (nz + 1)` points.
#[derive(Clone, Copy, PartialEq, Eq, Structural, Debug)]
pub struct GridExtent {
    pub nx: usize,
    pub ny: usize,
    pub nz: usize,
}

/// Why a requested grid extent was rejected.
#[derive(Clone, Copy, PartialEq, Eq, Structural, Debug)]
pub enum GridError {
    /// Some axis had zero cells.
    ZeroExtent,
    /// The cell count exceeds `MAX_CELLS`.
    TooLarge,
}

impl GridExtent {
    /// Every axis has at least one cell and the cell count is bounded.
    pub open spec fn wf(self) -> bool {
        1 <= self.nx && 1 <= self.ny && 1 <= self.nz
            && self.nx * self.ny * self.nz <= MAX_CELLS
    }

    pub open spec fn spec_cell_count(self) -> int {
        self.nx * self.ny * self.nz
    }

    /// Lattice points per axis: one more than the cells.
    pub open spec fn spec_points_x(self) -> int {
        self.nx + 1
    }

    pub open spec fn spec_points_y(self) -> int {
        self.ny + 1
    }

    pub open spec fn spec_points_z(self) -> int {
        self.nz + 1
    }

    pub open spec fn spec_sample_count(self) -> int {
        self.spec_points_x() * self.spec_points_y() * self.spec_points_z()
    }

    /// Validates a requested extent. Zero extents and oversized grids are
    /// rejected at construction, never per frame.
    pub fn new(nx: usize, ny: usize, nz: usize) -> (r: Result<GridExtent, GridError>)
        ensures
            match r {
                Ok(g) => g == (GridExtent { nx, ny, nz }) && g.wf(),
                Err(e) => match e {
                    GridError::ZeroExtent => nx == 0 || ny == 0 || nz == 0,
                    GridError::TooLarge => 1 <= nx && 1 <= ny && 1 <= nz
                        && nx * ny * nz > MAX_CELLS,
                },
            },
    {
        if nx == 0 || ny == 0 || nz == 0 {
            return Err(GridError::ZeroExtent);
        }
        proof {
            lemma_axis_within_product(nx as int, ny as int, nz as int);
        }
        if nx > MAX_CELLS || ny > MAX_CELLS || nz > MAX_CELLS {
            return Err(GridError::TooLarge);
        }
        proof {
            lemma_product_staging(nx as int, ny as int, nz as int, MAX_CELLS as int);
        }
        let wide_xy: u64 = (nx as u64) * (ny as u64);
        if wide_xy > MAX_CELLS as u64 {
            return Err(GridError::TooLarge);
        }
        let wide: u64 = wide_xy * (nz as u64);
        if wide > MAX_CELLS as u64 {
            return Err(GridError::TooLarge);
        }
        let g = GridExtent { nx, ny, nz };
        proof {
            lemma_extent_products(nx as int, ny as int, nz as int);
        }
        Ok(g)
    }

    /// Number of unit cells in the grid.
    pub fn cell_count(&self) -> (n: usize)
        requires
            self.wf(),
        ensures
            n == self.spec_cell_count(),
    {
        proof {
            lemma_extent_products(self.nx as int, self.ny as int, self.nz as int);
        }
        self.nx * self.ny * self.nz
    }

    /// Worst-case number of triangles the extractor can emit: four per cell.
    pub fn max_triangles(&self) -> (n: usize)
        requires
            self.wf(),
        ensures
            n == 4 * self.spec_cell_count(),
    {
        self.cell_count() * 4
    }

    /// Worst-case number of mesh vertices: three per triangle.
    pub fn max_vertices(&self) -> (n: usize)
        requires
            self.wf(),
        ensures
            n == 12 * self.spec_cell_count(),
    {
        self.cell_count() * 12
    }

    /// Worst-case number of indices: three per triangle.
    pub fn max_indices(&self) -> (n: usize)
        requires
            self.wf(),
        ensures
            n == 12 * self.spec_cell_count(),
    {
        self.cell_count() * 12
    }

    /// Number of lattice sample points.
    pub fn sample_count(&self) -> (n: usize)
        requires
            self.wf(),
        ensures
            n == self.spec_sample_count(),
    {
        proof {
            lemma_extent_products(self.nx as int, self.ny as int, self.nz as int);
        }
        (self.nx + 1) * (self.ny + 1) * (self.nz + 1)
    }
}

/// Each axis of a well-formed extent is bounded by the cell cap, and so
/// are the lattice-point products derived from it.
pub proof fn lemma_axis_bounds(g: GridExtent)
    requires
        g.wf(),
    ensures
        g.nx <= MAX_CELLS,
        g.ny <= MAX_CELLS,
        g.nz <= MAX_CELLS,
        (g.nx + 1) * (g.ny + 1) <= 4 * MAX_CELLS,
        (g.ny + 1) * (g.nz + 1) <= 4 * MAX_CELLS,
        (g.nx + 1) * (g.ny + 1) * (g.nz + 1) <= 8 * MAX_CELLS,
        g.spec_sample_count() <= 8 * MAX_CELLS,
{
    lemma_extent_products(g.nx as int, g.ny as int, g.nz as int);
}

/// On a grid with at least one cell per axis, each axis is at most the
/// cell count, and partial products are monotone.
proof fn lemma_axis_within_product(nx: int, ny: int, nz: int)
    by (nonlinear_arith)
    requires
        1 <= nx,
        1 <= ny,
        1 <= nz,
    ensures
        nx <= nx * ny * nz,
        ny <= nx * ny * nz,
        nz <= nx * ny * nz,
        nx * ny <= nx * ny * nz,
{
}

/// Staged products of capped factors stay within the squared cap.
proof fn lemma_product_staging(nx: int, ny: int, nz: int, m: int)
    by (nonlinear_arith)
    requires
        1 <= nx <= m,
        1 <= ny <= m,
        1 <= nz <= m,
        1 <= m,
    ensures
        nx * ny <= m * m,
        nx * ny <= m ==> nx * ny * nz <= m * m,
{
}

/// Bounds on the partial and padded products of a well-formed extent,
/// enough to rule out overflow in the sizing arithmetic.
proof fn lemma_extent_products(nx: int, ny: int, nz: int)
    by (nonlinear_arith)
    requires
        1 <= nx,
        1 <= ny,
        1 <= nz,
        nx * ny * nz <= MAX_CELLS,
    ensures
        nx * ny <= nx * ny * nz,
        nx <= nx * ny * nz,
        ny <= nx * ny * nz,
        nz <= nx * ny * nz,
        (nx + 1) * (ny + 1) <= 4 * (nx * ny * nz),
        (ny + 1) * (nz + 1) <= 4 * (nx * ny * nz),
        (nx + 1) * (ny + 1) * (nz + 1) <= 8 * (nx * ny * nz),
{
}

} // verus!
