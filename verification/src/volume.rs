use crate::grid::GridExtent;
use vstd::prelude::*;

verus! {

/// A scalar density volume: one integer sample per lattice point of a grid.
/// Samples are plain integers; callers read them as fixed-point densities at
/// whatever scale they choose. Samples are stored x-fastest, then y, then z.
pub struct ScalarVolume {
    pub extent: GridExtent,
    pub data: Vec<i32>,
}

impl ScalarVolume {
    pub open spec fn wf(self) -> bool {
        self.extent.wf() && self.data@.len() == self.extent.spec_sample_count()
    }

    pub open spec fn in_bounds(self, x: int, y: int, z: int) -> bool {
        0 <= x < self.extent.spec_points_x()
            && 0 <= y < self.extent.spec_points_y()
            && 0 <= z < self.extent.spec_points_z()
    }

    /// Position of lattice point `(x, y, z)` in the sample vector.
    pub open spec fn spec_index(self, x: int, y: int, z: int) -> int {
        x + self.extent.spec_points_x() * (y + self.extent.spec_points_y() * z)
    }

    /// The density sample at lattice point `(x, y, z)`.
    pub open spec fn spec_sample(self, x: int, y: int, z: int) -> i32 {
        self.data@[self.spec_index(x, y, z)]
    }

    /// A fresh volume over `extent`, every sample zero.
    pub fn new(extent: GridExtent) -> (v: ScalarVolume)
        requires
            extent.wf(),
        ensures
            v.wf(),
            v.extent == extent,
            forall|x: int, y: int, z: int|
                v.in_bounds(x, y, z) ==> v.spec_sample(x, y, z) == 0i32,
    {
        let n = extent.sample_count();
        let mut data: Vec<i32> = Vec::new();
        let mut i: usize = 0;
        while i < n
            invariant
                i <= n,
                data@.len() == i,
                forall|j: int| 0 <= j < i ==> data@[j] == 0i32,
            decreases n - i,
        {
            data.push(0);
            i = i + 1;
        }
        let v = ScalarVolume { extent, data };
        proof {
            assert forall|x: int, y: int, z: int| v.in_bounds(x, y, z)
                implies v.spec_sample(x, y, z) == 0i32 by {
                lemma_lattice_index(
                    v.extent.spec_points_x(),
                    v.extent.spec_points_y(),
                    v.extent.spec_points_z(),
                    x, y, z,
                );
            }
        }
        v
    }

    /// Reads the sample at lattice point `(x, y, z)`.
    pub fn sample_at(&self, x: usize, y: usize, z: usize) -> (d: i32)
        requires
            self.wf(),
            self.in_bounds(x as int, y as int, z as int),
        ensures
            d == self.spec_sample(x as int, y as int, z as int),
    {
        proof {
            crate::grid::lemma_axis_bounds(self.extent);
            lemma_lattice_index(
                self.extent.spec_points_x(),
                self.extent.spec_points_y(),
                self.extent.spec_points_z(),
                x as int, y as int, z as int,
            );
        }
        let px = self.extent.nx + 1;
        let py = self.extent.ny + 1;
        self.data[x + px * (y + py * z)]
    }

    /// Overwrites the sample at lattice point `(x, y, z)`; every other
    /// sample keeps its value.
    pub fn set_sample(&mut self, x: usize, y: usize, z: usize, d: i32)
        requires
            old(self).wf(),
            old(self).in_bounds(x as int, y as int, z as int),
        ensures
            final(self).wf(),
            final(self).extent == old(self).extent,
            final(self).spec_sample(x as int, y as int, z as int) == d,
            forall|x2: int, y2: int, z2: int|
                old(self).in_bounds(x2, y2, z2)
                    && !(x2 == x as int && y2 == y as int && z2 == z as int)
                    ==> final(self).spec_sample(x2, y2, z2) == old(self).spec_sample(x2, y2, z2),
    {
        proof {
            crate::grid::lemma_axis_bounds(self.extent);
            lemma_lattice_index(
                self.extent.spec_points_x(),
                self.extent.spec_points_y(),
                self.extent.spec_points_z(),
                x as int, y as int, z as int,
            );
        }
        let px = self.extent.nx + 1;
        let py = self.extent.ny + 1;
        let idx = x + px * (y + py * z);
        self.data.set(idx, d);
        proof {
            assert forall|x2: int, y2: int, z2: int|
                old(self).in_bounds(x2, y2, z2)
                    && !(x2 == x as int && y2 == y as int && z2 == z as int)
                implies final(self).spec_sample(x2, y2, z2) == old(self).spec_sample(x2, y2, z2) by {
                let ppx = self.extent.spec_points_x();
                let ppy = self.extent.spec_points_y();
                let ppz = self.extent.spec_points_z();
                lemma_lattice_index(ppx, ppy, ppz, x2, y2, z2);
                if x2 + ppx * (y2 + ppy * z2)
                    == x as int + ppx * (y as int + ppy * (z as int)) {
                    lemma_lattice_index_injective(
                        ppx, ppy, ppz, x as int, y as int, z as int, x2, y2, z2,
                    );
                }
            }
        }
    }

    /// The density field generator: evaluates `f` at every lattice point and
    /// stores the result. The evaluation function is the component's input
    /// and can be swapped without touching anything else.
    pub fn fill_with<F: Fn(usize, usize, usize) -> i32>(&mut self, f: &F)
        requires
            old(self).wf(),
            forall|x: usize, y: usize, z: usize|
                x <= old(self).extent.nx && y <= old(self).extent.ny && z <= old(self).extent.nz
                    ==> #[trigger] call_requires(*f, (x, y, z)),
        ensures
            final(self).wf(),
            final(self).extent == old(self).extent,
            forall|x: usize, y: usize, z: usize|
                x <= old(self).extent.nx && y <= old(self).extent.ny && z <= old(self).extent.nz
                    ==> #[trigger] call_ensures(
                        *f,
                        (x, y, z),
                        final(self).spec_sample(x as int, y as int, z as int),
                    ),
    {
        proof {
            crate::grid::lemma_axis_bounds(self.extent);
        }
        let ghost ext = self.extent;
        let px = self.extent.nx + 1;
        let py = self.extent.ny + 1;
        let pz = self.extent.nz + 1;
        let mut z: usize = 0;
        while z < pz
            invariant
                self.wf(),
                self.extent == ext,
                ext == old(self).extent,
                px == ext.nx + 1,
                py == ext.ny + 1,
                pz == ext.nz + 1,
                z <= pz,
                forall|x2: usize, y2: usize, z2: usize|
                    x2 <= ext.nx && y2 <= ext.ny && z2 <= ext.nz
                        ==> #[trigger] call_requires(*f, (x2, y2, z2)),
                forall|x2: usize, y2: usize, z2: usize|
                    x2 <= ext.nx && y2 <= ext.ny && z2 <= ext.nz && z2 < z
                        ==> #[trigger] call_ensures(
                            *f,
                            (x2, y2, z2),
                            self.spec_sample(x2 as int, y2 as int, z2 as int),
                        ),
            decreases pz - z,
        {
            let mut y: usize = 0;
            while y < py
                invariant
                    self.wf(),
                    self.extent == ext,
                    ext == old(self).extent,
                    px == ext.nx + 1,
                    py == ext.ny + 1,
                    pz == ext.nz + 1,
                    z < pz,
                    y <= py,
                    forall|x2: usize, y2: usize, z2: usize|
                        x2 <= ext.nx && y2 <= ext.ny && z2 <= ext.nz
                            ==> #[trigger] call_requires(*f, (x2, y2, z2)),
                    forall|x2: usize, y2: usize, z2: usize|
                        x2 <= ext.nx && y2 <= ext.ny && z2 <= ext.nz
                            && (z2 < z || (z2 == z && y2 < y))
                            ==> #[trigger] call_ensures(
                                *f,
                                (x2, y2, z2),
                                self.spec_sample(x2 as int, y2 as int, z2 as int),
                            ),
                decreases py - y,
            {
                let mut x: usize = 0;
                while x < px
                    invariant
                        self.wf(),
                        self.extent == ext,
                        ext == old(self).extent,
                        px == ext.nx + 1,
                        py == ext.ny + 1,
                        pz == ext.nz + 1,
                        z < pz,
                        y < py,
                        x <= px,
                        forall|x2: usize, y2: usize, z2: usize|
                            x2 <= ext.nx && y2 <= ext.ny && z2 <= ext.nz
                                ==> #[trigger] call_requires(*f, (x2, y2, z2)),
                        forall|x2: usize, y2: usize, z2: usize|
                            x2 <= ext.nx && y2 <= ext.ny && z2 <= ext.nz
                                && (z2 < z || (z2 == z && y2 < y) || (z2 == z && y2 == y && x2 < x))
                                ==> #[trigger] call_ensures(
                                    *f,
                                    (x2, y2, z2),
                                    self.spec_sample(x2 as int, y2 as int, z2 as int),
                                ),
                    decreases px - x,
                {
                    let ghost prev = *self;
                    let d = f(x, y, z);
                    self.set_sample(x, y, z, d);
                    proof {
                        assert forall|x2: usize, y2: usize, z2: usize|
                            x2 <= ext.nx && y2 <= ext.ny && z2 <= ext.nz
                                && (z2 < z || (z2 == z && y2 < y) || (z2 == z && y2 == y && x2 < x + 1))
                            implies #[trigger] call_ensures(
                                *f,
                                (x2, y2, z2),
                                self.spec_sample(x2 as int, y2 as int, z2 as int),
                            ) by {
                            if x2 == x && y2 == y && z2 == z {
                                assert(self.spec_sample(x as int, y as int, z as int) == d);
                            } else {
                                assert(call_ensures(
                                    *f,
                                    (x2, y2, z2),
                                    prev.spec_sample(x2 as int, y2 as int, z2 as int),
                                ));
                                assert(prev.in_bounds(x2 as int, y2 as int, z2 as int));
                                assert(self.spec_sample(x2 as int, y2 as int, z2 as int)
                                    == prev.spec_sample(x2 as int, y2 as int, z2 as int));
                            }
                        }
                    }
                    x = x + 1;
                }
                y = y + 1;
            }
            z = z + 1;
        }
    }
}

/// The x-fastest lattice index is in range, with bounds on its partial sums.
proof fn lemma_lattice_index(px: int, py: int, pz: int, x: int, y: int, z: int)
    by (nonlinear_arith)
    requires
        0 <= x < px,
        0 <= y < py,
        0 <= z < pz,
    ensures
        0 <= y + py * z < py * pz,
        0 <= x + px * (y + py * z) < px * py * pz,
{
}

/// Distinct lattice points have distinct indices.
proof fn lemma_lattice_index_injective(
    px: int, py: int, pz: int,
    x: int, y: int, z: int,
    x2: int, y2: int, z2: int,
)
    by (nonlinear_arith)
    requires
        0 <= x < px,
        0 <= y < py,
        0 <= z < pz,
        0 <= x2 < px,
        0 <= y2 < py,
        0 <= z2 < pz,
        x + px * (y + py * z) == x2 + px * (y2 + py * z2),
    ensures
        x == x2,
        y == y2,
        z == z2,
{
}

} // verus!
