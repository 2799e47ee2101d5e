use isosurf::extract::extract_surface;
use isosurf::grid::GridExtent;
use isosurf::mesh::MeshVertex;
use isosurf::table::tri_table;
use isosurf::volume::ScalarVolume;

fn volume_from_fn(nx: usize, ny: usize, nz: usize, f: impl Fn(usize, usize, usize) -> i32) -> ScalarVolume {
    let extent = GridExtent::new(nx, ny, nz).unwrap();
    let mut vol = ScalarVolume::new(extent);
    for z in 0..=nz {
        for y in 0..=ny {
            for x in 0..=nx {
                vol.set_sample(x, y, z, f(x, y, z));
            }
        }
    }
    vol
}

#[test]
fn single_corner_cell_interpolates_exactly() {
    // One cell; only corner (0,0,0) is inside, a quarter of the way to the
    // threshold relative to its neighbors: -100 against 300 crosses zero at
    // t = 1/4, which is 16384 in fixed point.
    let vol = volume_from_fn(1, 1, 1, |x, y, z| {
        if (x, y, z) == (0, 0, 0) { -100 } else { 300 }
    });
    let mesh = extract_surface(&vol, 0);
    assert_eq!(mesh.triangle_count(), 1);
    let expected = [
        MeshVertex { x: 16384, y: 0, z: 0 },
        MeshVertex { x: 0, y: 0, z: 16384 },
        MeshVertex { x: 0, y: 16384, z: 0 },
    ];
    assert_eq!(mesh.vertices, expected.to_vec());
    assert_eq!(mesh.indices, vec![0u32, 1, 2]);
}

#[test]
fn constant_field_below_threshold_emits_nothing() {
    let vol = volume_from_fn(3, 3, 3, |_, _, _| 5);
    let mesh = extract_surface(&vol, 10);
    assert_eq!(mesh.triangle_count(), 0);
    assert!(mesh.vertices.is_empty());
    assert!(mesh.indices.is_empty());
}

#[test]
fn constant_field_above_threshold_emits_nothing() {
    let vol = volume_from_fn(3, 3, 3, |_, _, _| 42);
    let mesh = extract_surface(&vol, 10);
    assert_eq!(mesh.triangle_count(), 0);
}

#[test]
fn capacity_bound_holds_on_noisy_field() {
    // A deterministic pseudo-random field; the mesh must stay within four
    // triangles (twelve indices) per cell and keep its index discipline.
    let mut state: u64 = 0x2545f4914f6cdd1d;
    let mut samples = Vec::new();
    for _ in 0..(4 * 4 * 4) {
        state = state.wrapping_mul(6364136223846793005).wrapping_add(1442695040888963407);
        samples.push(((state >> 33) as i32) - (1 << 30));
    }
    let vol = volume_from_fn(3, 3, 3, |x, y, z| samples[x + 4 * (y + 4 * z)]);
    let mesh = extract_surface(&vol, 0);
    let cells = 3 * 3 * 3;
    assert!(mesh.triangle_count() <= 4 * cells);
    assert_eq!(mesh.vertices.len(), mesh.indices.len());
    assert_eq!(mesh.vertices.len() % 3, 0);
    for (i, &idx) in mesh.indices.iter().enumerate() {
        assert_eq!(idx, i as u32);
    }
}

#[test]
fn sphere_in_eight_cells_yields_octahedron() {
    // A 2x2x2 grid with a small sphere centered on the middle lattice
    // point: each of the eight cells holds exactly one inside corner and
    // contributes exactly one triangle, and the eight triangles close up
    // into an octahedron with six distinct vertices.
    let dist: [i32; 4] = [0, 1024, 1448, 1773];
    let vol = volume_from_fn(2, 2, 2, |x, y, z| {
        let dx = x as i32 - 1;
        let dy = y as i32 - 1;
        let dz = z as i32 - 1;
        dist[(dx * dx + dy * dy + dz * dz) as usize] - 512
    });
    let mesh = extract_surface(&vol, 0);
    assert_eq!(mesh.triangle_count(), 8);

    let mut verts: Vec<(i64, i64, i64)> = mesh.vertices.iter().map(|v| (v.x, v.y, v.z)).collect();
    let c = 65536i64;
    let h = 32768i64;
    let mut expected = vec![
        (c - h, c, c),
        (c + h, c, c),
        (c, c - h, c),
        (c, c + h, c),
        (c, c, c - h),
        (c, c, c + h),
    ];
    // every triangle vertex is one of the six octahedron corners, each
    // shared by four triangles
    for e in &expected {
        assert_eq!(verts.iter().filter(|v| *v == e).count(), 4);
    }
    verts.sort();
    verts.dedup();
    expected.sort();
    assert_eq!(verts, expected);

    // the octahedron is closed: every undirected edge borders two triangles
    let mut edge_counts = std::collections::HashMap::new();
    for t in mesh.vertices.chunks(3) {
        let p: Vec<(i64, i64, i64)> = t.iter().map(|v| (v.x, v.y, v.z)).collect();
        for (a, b) in [(0, 1), (1, 2), (2, 0)] {
            let key = if p[a] <= p[b] { (p[a], p[b]) } else { (p[b], p[a]) };
            *edge_counts.entry(key).or_insert(0) += 1;
        }
    }
    for (_, n) in edge_counts {
        assert_eq!(n, 2);
    }
}

#[test]
fn case_table_boundary_entries() {
    assert!(tri_table(0).is_empty());
    assert!(tri_table(255).is_empty());
    assert_eq!(tri_table(1), vec![(0u8, 8u8, 3u8)]);
    assert_eq!(tri_table(2), vec![(0u8, 1u8, 9u8)]);
}

#[test]
fn case_table_capacity_and_edge_range() {
    for c in 0..=255u8 {
        let tris = tri_table(c);
        assert!(tris.len() <= 4);
        for &(a, b, e) in &tris {
            assert!(a < 12 && b < 12 && e < 12);
            assert!(a != b && b != e && a != e);
        }
    }
}

#[test]
fn single_corner_cases_emit_one_triangle() {
    for k in 0..8 {
        let c = 1u8 << k;
        assert_eq!(tri_table(c).len(), 1);
        assert_eq!(tri_table(!c).len(), 1);
    }
}
