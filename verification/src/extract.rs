use crate::grid::GridExtent;
use crate::mesh::{MeshVertex, TriangleMesh, LATTICE_SCALE};
use crate::table::{
    case_tris, cell_config_bits_unique, config_inside, corner_dx, corner_dy, corner_dz,
    edge_corner_a, edge_corner_b, edge_crossed, lemma_case_tris_wf, mirror_config,
    mirror_corner, tri_ok, tri_table,
};
use crate::volume::ScalarVolume;
use vstd::arithmetic::div_mod::{lemma_mod_bound, lemma_multiply_divide_lt};
use vstd::prelude::*;

verus! {

/// The density sample at corner `k` of cell `(cx, cy, cz)`.
pub open spec fn corner_sample(vol: ScalarVolume, cx: int, cy: int, cz: int, k: int) -> int {
    vol.spec_sample(cx + corner_dx(k), cy + corner_dy(k), cz + corner_dz(k)) as int
}

/// Corner `k` of the cell lies inside the surface: its density is strictly
/// below the threshold. A corner exactly at the threshold counts as
/// outside.
pub open spec fn corner_inside(
    vol: ScalarVolume, cx: int, cy: int, cz: int, k: int, iso: int,
) -> bool {
    corner_sample(vol, cx, cy, cz, k) < iso
}

/// The marching-cubes configuration of the cell: bit `k` set when corner
/// `k` is inside.
pub open spec fn cell_config(vol: ScalarVolume, cx: int, cy: int, cz: int, iso: int) -> u8 {
    ((if corner_inside(vol, cx, cy, cz, 0, iso) { 1int } else { 0 })
        + (if corner_inside(vol, cx, cy, cz, 1, iso) { 2int } else { 0 })
        + (if corner_inside(vol, cx, cy, cz, 2, iso) { 4int } else { 0 })
        + (if corner_inside(vol, cx, cy, cz, 3, iso) { 8int } else { 0 })
        + (if corner_inside(vol, cx, cy, cz, 4, iso) { 16int } else { 0 })
        + (if corner_inside(vol, cx, cy, cz, 5, iso) { 32int } else { 0 })
        + (if corner_inside(vol, cx, cy, cz, 6, iso) { 64int } else { 0 })
        + (if corner_inside(vol, cx, cy, cz, 7, iso) { 128int } else { 0 })) as u8
}

/// The fixed-point position of the surface vertex on edge `e` of the cell:
/// linear interpolation between the edge's corner samples, measured from
/// the inside corner toward the outside one. Meaningful when the edge is
/// crossed; the fraction then lies in `0 .. LATTICE_SCALE`.
pub open spec fn spec_edge_vertex(
    vol: ScalarVolume, cx: int, cy: int, cz: int, e: int, iso: int,
) -> MeshVertex {
    let ka = edge_corner_a(e);
    let kb = edge_corner_b(e);
    let da = corner_sample(vol, cx, cy, cz, ka);
    let db = corner_sample(vol, cx, cy, cz, kb);
    let k_in = if da < iso { ka } else { kb };
    let k_out = if da < iso { kb } else { ka };
    let d_in = if da < iso { da } else { db };
    let d_out = if da < iso { db } else { da };
    let frac = (iso - d_in) * (LATTICE_SCALE as int) / (d_out - d_in);
    let ix = cx + corner_dx(k_in);
    let iy = cy + corner_dy(k_in);
    let iz = cz + corner_dz(k_in);
    let ox = cx + corner_dx(k_out);
    let oy = cy + corner_dy(k_out);
    let oz = cz + corner_dz(k_out);
    MeshVertex {
        x: (ix * (LATTICE_SCALE as int) + (ox - ix) * frac) as i64,
        y: (iy * (LATTICE_SCALE as int) + (oy - iy) * frac) as i64,
        z: (iz * (LATTICE_SCALE as int) + (oz - iz) * frac) as i64,
    }
}

/// The three vertices of one table triangle, in winding order.
pub open spec fn spec_tri_vertices(
    vol: ScalarVolume, cx: int, cy: int, cz: int, iso: int, t: (int, int, int),
) -> Seq<MeshVertex> {
    seq![
        spec_edge_vertex(vol, cx, cy, cz, t.0, iso),
        spec_edge_vertex(vol, cx, cy, cz, t.1, iso),
        spec_edge_vertex(vol, cx, cy, cz, t.2, iso),
    ]
}

/// The vertices of a list of table triangles, in order.
pub open spec fn spec_tris_vertices(
    vol: ScalarVolume, cx: int, cy: int, cz: int, iso: int, tris: Seq<(int, int, int)>,
) -> Seq<MeshVertex>
    decreases tris.len(),
{
    if tris.len() == 0 {
        Seq::empty()
    } else {
        spec_tris_vertices(vol, cx, cy, cz, iso, tris.drop_last())
            .add(spec_tri_vertices(vol, cx, cy, cz, iso, tris.last()))
    }
}

/// Every vertex one cell contributes: the triangles of its configuration's
/// table entry, instantiated on its crossed edges.
pub open spec fn spec_cell_vertices(
    vol: ScalarVolume, cx: int, cy: int, cz: int, iso: int,
) -> Seq<MeshVertex> {
    spec_tris_vertices(vol, cx, cy, cz, iso, case_tris(cell_config(vol, cx, cy, cz, iso)))
}

// Cells are visited in a single x-fastest order; cell `i` has these
// coordinates.

pub open spec fn cell_cx(g: GridExtent, i: int) -> int {
    (i % (g.nx as int * g.ny as int)) % (g.nx as int)
}

pub open spec fn cell_cy(g: GridExtent, i: int) -> int {
    (i % (g.nx as int * g.ny as int)) / (g.nx as int)
}

pub open spec fn cell_cz(g: GridExtent, i: int) -> int {
    i / (g.nx as int * g.ny as int)
}

/// The vertices of the first `n` cells, concatenated in cell order.
pub open spec fn spec_extract_prefix(vol: ScalarVolume, iso: int, n: int) -> Seq<MeshVertex>
    decreases n,
{
    if n <= 0 {
        Seq::empty()
    } else {
        spec_extract_prefix(vol, iso, n - 1).add(
            spec_cell_vertices(
                vol,
                cell_cx(vol.extent, n - 1),
                cell_cy(vol.extent, n - 1),
                cell_cz(vol.extent, n - 1),
                iso,
            ),
        )
    }
}

/// The full extraction: the vertices of every cell of the grid.
pub open spec fn spec_extract(vol: ScalarVolume, iso: int) -> Seq<MeshVertex> {
    spec_extract_prefix(vol, iso, vol.extent.spec_cell_count())
}

/// Cell `i` of a well-formed extent has in-range coordinates.
proof fn lemma_cell_coords(g: GridExtent, i: int)
    requires
        g.wf(),
        0 <= i < g.spec_cell_count(),
    ensures
        0 <= cell_cx(g, i) < g.nx,
        0 <= cell_cy(g, i) < g.ny,
        0 <= cell_cz(g, i) < g.nz,
{
    let area = g.nx as int * g.ny as int;
    lemma_mod_bound(i, area);
    let rem = i % area;
    lemma_mod_bound(rem, g.nx as int);
    lemma_multiply_divide_lt(rem, g.nx as int, g.ny as int);
    lemma_multiply_divide_lt(i, area, g.nz as int);
}

/// Executable corner offsets, mirroring the spec tables.
fn corner_offsets(k: u8) -> (r: (usize, usize, usize))
    requires
        k < 8,
    ensures
        r.0 == corner_dx(k as int),
        r.1 == corner_dy(k as int),
        r.2 == corner_dz(k as int),
{
    let dx: usize = if k == 1 || k == 2 || k == 5 || k == 6 { 1 } else { 0 };
    let dy: usize = if k == 2 || k == 3 || k == 6 || k == 7 { 1 } else { 0 };
    let dz: usize = if k >= 4 { 1 } else { 0 };
    (dx, dy, dz)
}

/// Reads the sample at corner `k` of cell `(cx, cy, cz)`.
fn corner_sample_at(vol: &ScalarVolume, cx: usize, cy: usize, cz: usize, k: u8, iso: i32) -> (d: i32)
    requires
        vol.wf(),
        (cx as int) < vol.extent.nx as int,
        (cy as int) < vol.extent.ny as int,
        (cz as int) < vol.extent.nz as int,
        k < 8,
    ensures
        d as int == corner_sample(*vol, cx as int, cy as int, cz as int, k as int),
{
    let (dx, dy, dz) = corner_offsets(k);
    vol.sample_at(cx + dx, cy + dy, cz + dz)
}

/// Computes the cell's marching-cubes configuration, and ties each of its
/// bits to the corner it stands for.
#[verifier::rlimit(100)]
fn cell_config_at(vol: &ScalarVolume, cx: usize, cy: usize, cz: usize, iso: i32) -> (c: u8)
    requires
        vol.wf(),
        (cx as int) < vol.extent.nx as int,
        (cy as int) < vol.extent.ny as int,
        (cz as int) < vol.extent.nz as int,
    ensures
        c == cell_config(*vol, cx as int, cy as int, cz as int, iso as int),
        forall|k: u8| k < 8 ==> #[trigger] config_inside(c, k)
            == corner_inside(*vol, cx as int, cy as int, cz as int, k as int, iso as int),
{
    let x0: u8 = if corner_sample_at(vol, cx, cy, cz, 0, iso) < iso { 1 } else { 0 };
    let x1: u8 = if corner_sample_at(vol, cx, cy, cz, 1, iso) < iso { 1 } else { 0 };
    let x2: u8 = if corner_sample_at(vol, cx, cy, cz, 2, iso) < iso { 1 } else { 0 };
    let x3: u8 = if corner_sample_at(vol, cx, cy, cz, 3, iso) < iso { 1 } else { 0 };
    let x4: u8 = if corner_sample_at(vol, cx, cy, cz, 4, iso) < iso { 1 } else { 0 };
    let x5: u8 = if corner_sample_at(vol, cx, cy, cz, 5, iso) < iso { 1 } else { 0 };
    let x6: u8 = if corner_sample_at(vol, cx, cy, cz, 6, iso) < iso { 1 } else { 0 };
    let x7: u8 = if corner_sample_at(vol, cx, cy, cz, 7, iso) < iso { 1 } else { 0 };
    let c: u8 = x0 + 2 * x1 + 4 * x2 + 8 * x3 + 16 * x4 + 32 * x5 + 64 * x6 + 128 * x7;
    proof {
        cell_config_bits_unique(c, x0, x1, x2, x3, x4, x5, x6, x7);
        assert forall|k: u8| k < 8 implies #[trigger] config_inside(c, k)
            == corner_inside(*vol, cx as int, cy as int, cz as int, k as int, iso as int) by {
            if k == 0 {
            } else if k == 1 {
            } else if k == 2 {
            } else if k == 3 {
            } else if k == 4 {
            } else if k == 5 {
            } else if k == 6 {
            } else {
                assert(k == 7);
            }
        }
    }
    c
}

/// Interpolates the surface vertex on crossed edge `e` of the cell.
fn edge_vertex(vol: &ScalarVolume, cx: usize, cy: usize, cz: usize, e: u8, iso: i32) -> (v: MeshVertex)
    requires
        vol.wf(),
        (cx as int) < vol.extent.nx as int,
        (cy as int) < vol.extent.ny as int,
        (cz as int) < vol.extent.nz as int,
        e < 12,
        corner_inside(*vol, cx as int, cy as int, cz as int, edge_corner_a(e as int), iso as int)
            != corner_inside(*vol, cx as int, cy as int, cz as int, edge_corner_b(e as int), iso as int),
    ensures
        v == spec_edge_vertex(*vol, cx as int, cy as int, cz as int, e as int, iso as int),
{
    proof {
        crate::grid::lemma_axis_bounds(vol.extent);
    }
    let ka: u8 = if e < 8 { e } else { e - 8 };
    let kb: u8 = if e < 4 {
        if e == 3 { 0 } else { e + 1 }
    } else if e < 8 {
        if e == 7 { 4 } else { e + 1 }
    } else {
        e - 4
    };
    let da = corner_sample_at(vol, cx, cy, cz, ka, iso);
    let db = corner_sample_at(vol, cx, cy, cz, kb, iso);
    let k_in: u8 = if da < iso { ka } else { kb };
    let k_out: u8 = if da < iso { kb } else { ka };
    let d_in: i32 = if da < iso { da } else { db };
    let d_out: i32 = if da < iso { db } else { da };
    let num: i64 = (iso as i64) - (d_in as i64);
    let den: i64 = (d_out as i64) - (d_in as i64);
    proof {
        lemma_frac_range(num as int, den as int, LATTICE_SCALE as int);
    }
    let frac: i64 = ((num as u64) * (LATTICE_SCALE as u64) / (den as u64)) as i64;
    proof {
        assert(frac as int == (iso - d_in) as int * (LATTICE_SCALE as int) / (den as int));
        assert(0 <= frac as int <= LATTICE_SCALE as int);
    }
    let (idx, idy, idz) = corner_offsets(k_in);
    let (odx, ody, odz) = corner_offsets(k_out);
    let ix = (cx + idx) as i64;
    let iy = (cy + idy) as i64;
    let iz = (cz + idz) as i64;
    let ox = (cx + odx) as i64;
    let oy = (cy + ody) as i64;
    let oz = (cz + odz) as i64;
    proof {
        lemma_step_product(ox as int, ix as int, frac as int);
        lemma_step_product(oy as int, iy as int, frac as int);
        lemma_step_product(oz as int, iz as int, frac as int);
    }
    MeshVertex {
        x: ix * LATTICE_SCALE + (ox - ix) * frac,
        y: iy * LATTICE_SCALE + (oy - iy) * frac,
        z: iz * LATTICE_SCALE + (oz - iz) * frac,
    }
}

/// The interpolation step between two adjacent corner coordinates stays
/// within one lattice unit.
proof fn lemma_step_product(o: int, i: int, frac: int)
    requires
        -1 <= o - i <= 1,
        0 <= frac <= LATTICE_SCALE as int,
    ensures
        -(LATTICE_SCALE as int) <= (o - i) * frac <= LATTICE_SCALE as int,
{
    if o == i {
        assert((o - i) * frac == 0) by (nonlinear_arith)
            requires o == i;
    } else if o - i == 1 {
        assert((o - i) * frac == frac) by (nonlinear_arith)
            requires o - i == 1;
    } else {
        assert((o - i) * frac == -frac) by (nonlinear_arith)
            requires o - i == -1;
    }
}

/// The interpolation fraction lies in `0 ..= s`.
proof fn lemma_frac_range(num: int, den: int, s: int)
    requires
        1 <= num,
        num <= den,
        1 <= s,
    ensures
        0 <= num * s / den <= s,
{
    vstd::arithmetic::div_mod::lemma_div_pos_is_pos(num * s, den);
    assert(num * s <= den * s) by (nonlinear_arith)
        requires 1 <= num, num <= den, 1 <= s;
    vstd::arithmetic::div_mod::lemma_div_is_ordered(num * s, den * s, den);
    vstd::arithmetic::div_mod::lemma_div_by_multiple(s, den);
    assert(den * s == s * den) by (nonlinear_arith);
    assert(num * s >= 0) by (nonlinear_arith)
        requires 1 <= num, 1 <= s;
}

/// Extracts the iso-surface of the volume at threshold `iso` as an indexed
/// triangle mesh. The mesh is exactly the specification's cell-by-cell
/// extraction, and it never exceeds the worst-case capacity of four
/// triangles — twelve vertices and twelve indices — per grid cell.
pub fn extract_surface(vol: &ScalarVolume, iso: i32) -> (m: TriangleMesh)
    requires
        vol.wf(),
    ensures
        m.wf(),
        m.vertices@ == spec_extract(*vol, iso as int),
        m.vertices@.len() <= 12 * vol.extent.spec_cell_count(),
        m.spec_triangle_count() <= 4 * vol.extent.spec_cell_count(),
{
    let nx = vol.extent.nx;
    let ny = vol.extent.ny;
    let nz = vol.extent.nz;
    proof {
        crate::grid::lemma_axis_bounds(vol.extent);
        assert(nx * ny <= nx * ny * nz) by (nonlinear_arith)
            requires 1 <= nz, 1 <= nx, 1 <= ny;
    }
    let area = nx * ny;
    let cells = vol.extent.cell_count();
    let mut vertices: Vec<MeshVertex> = Vec::new();
    let mut indices: Vec<u32> = Vec::new();
    let mut i: usize = 0;
    while i < cells
        invariant
            vol.wf(),
            nx == vol.extent.nx,
            ny == vol.extent.ny,
            nz == vol.extent.nz,
            area == nx * ny,
            cells == vol.extent.spec_cell_count(),
            cells <= crate::grid::MAX_CELLS,
            i <= cells,
            vertices@ == spec_extract_prefix(*vol, iso as int, i as int),
            indices@.len() == vertices@.len(),
            forall|j: int| 0 <= j < indices@.len() ==> indices@[j] == j as u32,
            vertices@.len() <= 12 * i,
        decreases cells - i,
    {
        proof {
            lemma_cell_coords(vol.extent, i as int);
            lemma_mod_bound(i as int, area as int);
            lemma_mod_bound((i as int) % (area as int), nx as int);
        }
        let cz = i / area;
        let rem = i % area;
        let cy = rem / nx;
        let cx = rem % nx;
        let ghost gcx = cell_cx(vol.extent, i as int);
        let ghost gcy = cell_cy(vol.extent, i as int);
        let ghost gcz = cell_cz(vol.extent, i as int);
        let c = cell_config_at(vol, cx, cy, cz, iso);
        let ghost tris_spec = case_tris(c);
        proof {
            lemma_case_tris_wf(c);
        }
        let tris = tri_table(c);
        let mut t: usize = 0;
        while t < tris.len()
            invariant
                vol.wf(),
                nx == vol.extent.nx,
                ny == vol.extent.ny,
                nz == vol.extent.nz,
                cells <= crate::grid::MAX_CELLS,
                i < cells,
                cells == vol.extent.spec_cell_count(),
                (cx as int) < nx as int,
                (cy as int) < ny as int,
                (cz as int) < nz as int,
                cx as int == cell_cx(vol.extent, i as int),
                cy as int == cell_cy(vol.extent, i as int),
                cz as int == cell_cz(vol.extent, i as int),
                c == cell_config(*vol, cx as int, cy as int, cz as int, iso as int),
                forall|k: u8| k < 8 ==> #[trigger] config_inside(c, k)
                    == corner_inside(*vol, cx as int, cy as int, cz as int, k as int, iso as int),
                tris_spec == case_tris(c),
                tris@.len() == tris_spec.len(),
                tris_spec.len() <= 4,
                forall|j: int| 0 <= j < tris_spec.len() ==> tri_ok(c, #[trigger] tris_spec[j]),
                forall|j: int| 0 <= j < tris@.len() ==>
                    tris_spec[j] == ((#[trigger] tris@[j]).0 as int, tris@[j].1 as int, tris@[j].2 as int),
                t <= tris@.len(),
                vertices@ == spec_extract_prefix(*vol, iso as int, i as int).add(
                    spec_tris_vertices(
                        *vol, cx as int, cy as int, cz as int, iso as int,
                        tris_spec.take(t as int),
                    ),
                ),
                indices@.len() == vertices@.len(),
                forall|j: int| 0 <= j < indices@.len() ==> indices@[j] == j as u32,
                vertices@.len() <= 12 * i + 3 * t,
            decreases tris@.len() - t,
        {
            let (e0, e1, e2) = tris[t];
            proof {
                assert(tri_ok(c, tris_spec[t as int]));
                assert(edge_crossed(c, e0 as int));
                assert(edge_crossed(c, e1 as int));
                assert(edge_crossed(c, e2 as int));
                assert(edge_corner_a(e0 as int) < 8 && edge_corner_b(e0 as int) < 8);
                assert(edge_corner_a(e1 as int) < 8 && edge_corner_b(e1 as int) < 8);
                assert(edge_corner_a(e2 as int) < 8 && edge_corner_b(e2 as int) < 8);
            }
            let va = edge_vertex(vol, cx, cy, cz, e0, iso);
            let vb = edge_vertex(vol, cx, cy, cz, e1, iso);
            let vc = edge_vertex(vol, cx, cy, cz, e2, iso);
            let n0 = vertices.len();
            proof {
                assert(12 * (i as int) + 3 * (t as int) <= 12 * (cells as int)) by (nonlinear_arith)
                    requires i < cells, t <= 4, (i as int) >= 0, (cells as int) >= 1;
                assert(12 * (cells as int) <= 12 * crate::grid::MAX_CELLS);
            }
            indices.push(n0 as u32);
            vertices.push(va);
            indices.push((n0 + 1) as u32);
            vertices.push(vb);
            indices.push((n0 + 2) as u32);
            vertices.push(vc);
            proof {
                let prefix = spec_extract_prefix(*vol, iso as int, i as int);
                let taken = tris_spec.take(t as int);
                let taken1 = tris_spec.take(t as int + 1);
                assert(taken1.drop_last() =~= taken);
                assert(taken1.last() == tris_spec[t as int]);
                let tv = spec_tri_vertices(
                    *vol, cx as int, cy as int, cz as int, iso as int, tris_spec[t as int],
                );
                assert(spec_tris_vertices(
                    *vol, cx as int, cy as int, cz as int, iso as int, taken1,
                ) == spec_tris_vertices(
                    *vol, cx as int, cy as int, cz as int, iso as int, taken,
                ).add(tv));
                assert(va == tv[0] && vb == tv[1] && vc == tv[2]);
                assert(vertices@ =~= prefix.add(
                    spec_tris_vertices(*vol, cx as int, cy as int, cz as int, iso as int, taken1),
                ));
            }
            t = t + 1;
        }
        proof {
            assert(tris_spec.take(tris_spec.len() as int) =~= tris_spec);
            assert(spec_extract_prefix(*vol, iso as int, i as int + 1)
                == spec_extract_prefix(*vol, iso as int, i as int).add(
                    spec_cell_vertices(*vol, gcx, gcy, gcz, iso as int),
                ));
            assert(vertices@ == spec_extract_prefix(*vol, iso as int, i as int + 1));
            assert(3 * (tris_spec.len() as int) <= 12);
        }
        i = i + 1;
    }
    let m = TriangleMesh { vertices, indices };
    proof {
        assert(m.vertices@.len() % 3 == 0) by {
            assert(m.wf() == (m.indices@.len() == m.vertices@.len()
                && m.vertices@.len() % 3 == 0
                && forall|j: int| 0 <= j < m.indices@.len() ==> m.indices@[j] == j as u32));
            lemma_prefix_len_mod3(*vol, iso as int, cells as int);
        }
        assert(12 * (cells as int) == 12 * vol.extent.spec_cell_count());
        lemma_triangle_count_bound(m.vertices@.len() as int, cells as int);
    }
    m
}

/// Prefix lengths are multiples of three: every cell contributes whole
/// triangles.
proof fn lemma_prefix_len_mod3(vol: ScalarVolume, iso: int, n: int)
    ensures
        spec_extract_prefix(vol, iso, n).len() % 3 == 0,
    decreases n,
{
    if n > 0 {
        lemma_prefix_len_mod3(vol, iso, n - 1);
        lemma_tris_len_mod3(
            vol,
            cell_cx(vol.extent, n - 1),
            cell_cy(vol.extent, n - 1),
            cell_cz(vol.extent, n - 1),
            iso,
            case_tris(cell_config(
                vol,
                cell_cx(vol.extent, n - 1),
                cell_cy(vol.extent, n - 1),
                cell_cz(vol.extent, n - 1),
                iso,
            )),
        );
    }
}

proof fn lemma_tris_len_mod3(
    vol: ScalarVolume, cx: int, cy: int, cz: int, iso: int, tris: Seq<(int, int, int)>,
)
    ensures
        spec_tris_vertices(vol, cx, cy, cz, iso, tris).len() == 3 * tris.len(),
    decreases tris.len(),
{
    if tris.len() > 0 {
        lemma_tris_len_mod3(vol, cx, cy, cz, iso, tris.drop_last());
    }
}

proof fn lemma_triangle_count_bound(len: int, cells: int)
    by (nonlinear_arith)
    requires
        len % 3 == 0,
        0 <= len,
        len <= 12 * cells,
    ensures
        len / 3 <= 4 * cells,
{
}

/// Two cells whose corner densities are bit-for-bit mirror images under
/// the x/y coordinate swap select mirrored configurations, so their
/// case-table lookups relate by the mirror law.
pub proof fn lemma_mirrored_corners_mirror_config(
    va: ScalarVolume, ax: int, ay: int, az: int,
    vb: ScalarVolume, bx: int, by: int, bz: int,
    iso: int,
)
    requires
        forall|k: int| 0 <= k < 8 ==>
            corner_sample(vb, bx, by, bz, #[trigger] mirror_corner(k))
                == corner_sample(va, ax, ay, az, k),
    ensures
        cell_config(vb, bx, by, bz, iso) == mirror_config(cell_config(va, ax, ay, az, iso)),
{
    let a = cell_config(va, ax, ay, az, iso);
    let x0: u8 = if corner_inside(va, ax, ay, az, 0, iso) { 1 } else { 0 };
    let x1: u8 = if corner_inside(va, ax, ay, az, 1, iso) { 1 } else { 0 };
    let x2: u8 = if corner_inside(va, ax, ay, az, 2, iso) { 1 } else { 0 };
    let x3: u8 = if corner_inside(va, ax, ay, az, 3, iso) { 1 } else { 0 };
    let x4: u8 = if corner_inside(va, ax, ay, az, 4, iso) { 1 } else { 0 };
    let x5: u8 = if corner_inside(va, ax, ay, az, 5, iso) { 1 } else { 0 };
    let x6: u8 = if corner_inside(va, ax, ay, az, 6, iso) { 1 } else { 0 };
    let x7: u8 = if corner_inside(va, ax, ay, az, 7, iso) { 1 } else { 0 };
    cell_config_bits_unique(a, x0, x1, x2, x3, x4, x5, x6, x7);
    assert(mirror_corner(0) == 0 && mirror_corner(1) == 3 && mirror_corner(2) == 2
        && mirror_corner(3) == 1 && mirror_corner(4) == 4 && mirror_corner(5) == 7
        && mirror_corner(6) == 6 && mirror_corner(7) == 5);
    assert forall|k: int| 0 <= k < 8 implies corner_inside(vb, bx, by, bz, k, iso)
        == corner_inside(va, ax, ay, az, #[trigger] mirror_corner(k), iso) by {
        assert(corner_sample(vb, bx, by, bz, mirror_corner(mirror_corner(k)))
            == corner_sample(va, ax, ay, az, mirror_corner(k)));
        assert(mirror_corner(mirror_corner(k)) == k);
    }
    assert(cell_config(vb, bx, by, bz, iso) == mirror_config(a));
}

/// A volume everywhere strictly below the threshold — a constant field
/// under the iso-value is one — yields an empty extraction: every cell's
/// corners are all inside, and that configuration's table entry is empty.
pub proof fn lemma_all_inside_no_triangles(vol: ScalarVolume, iso: int)
    requires
        vol.wf(),
        forall|x: int, y: int, z: int|
            vol.in_bounds(x, y, z) ==> ((#[trigger] vol.spec_sample(x, y, z)) as int) < iso,
    ensures
        spec_extract(vol, iso).len() == 0,
{
    lemma_uniform_prefix_empty(vol, iso, vol.extent.spec_cell_count(), true);
}

/// A volume everywhere at or above the threshold yields an empty
/// extraction as well: every configuration is the all-outside one.
pub proof fn lemma_all_outside_no_triangles(vol: ScalarVolume, iso: int)
    requires
        vol.wf(),
        forall|x: int, y: int, z: int|
            vol.in_bounds(x, y, z) ==> ((#[trigger] vol.spec_sample(x, y, z)) as int) >= iso,
    ensures
        spec_extract(vol, iso).len() == 0,
{
    lemma_uniform_prefix_empty(vol, iso, vol.extent.spec_cell_count(), false);
}

proof fn lemma_uniform_prefix_empty(vol: ScalarVolume, iso: int, n: int, inside: bool)
    requires
        vol.wf(),
        0 <= n <= vol.extent.spec_cell_count(),
        inside ==> forall|x: int, y: int, z: int|
            vol.in_bounds(x, y, z) ==> ((#[trigger] vol.spec_sample(x, y, z)) as int) < iso,
        !inside ==> forall|x: int, y: int, z: int|
            vol.in_bounds(x, y, z) ==> ((#[trigger] vol.spec_sample(x, y, z)) as int) >= iso,
    ensures
        spec_extract_prefix(vol, iso, n).len() == 0,
    decreases n,
{
    if n > 0 {
        lemma_uniform_prefix_empty(vol, iso, n - 1, inside);
        let cx = cell_cx(vol.extent, n - 1);
        let cy = cell_cy(vol.extent, n - 1);
        let cz = cell_cz(vol.extent, n - 1);
        lemma_cell_coords(vol.extent, n - 1);
        assert forall|k: int| 0 <= k < 8 implies vol.in_bounds(
            cx + corner_dx(k), cy + corner_dy(k), cz + corner_dz(k),
        ) by {}
        let c = cell_config(vol, cx, cy, cz, iso);
        if inside {
            assert(c == 255u8);
            assert(case_tris(255u8).len() == 0);
        } else {
            assert(c == 0u8);
            assert(case_tris(0u8).len() == 0);
        }
    }
}

} // verus!
