use isosurf::extract::extract_surface;
use isosurf::grid::GridExtent;
use isosurf::volume::ScalarVolume;
use std::collections::HashMap;

/// A sphere's signed distance sampled in fixed point on an 8x8x8-cell grid,
/// with the sphere well inside the grid. The extracted triangle set must be
/// a closed surface: every undirected edge, compared exactly on fixed-point
/// coordinates, borders exactly two triangles, and no triangle collapses.
#[test]
fn sphere_signed_distance_mesh_is_watertight() {
    let extent = GridExtent::new(8, 8, 8).unwrap();
    let mut vol = ScalarVolume::new(extent);
    for z in 0..=8usize {
        for y in 0..=8usize {
            for x in 0..=8usize {
                let dx = x as f64 - 4.0;
                let dy = y as f64 - 4.0;
                let dz = z as f64 - 4.0;
                let d = (dx * dx + dy * dy + dz * dz).sqrt() - 2.55;
                vol.set_sample(x, y, z, (d * 4096.0).round() as i32);
            }
        }
    }
    let mesh = extract_surface(&vol, 0);
    assert_eq!(mesh.triangle_count(), 248);

    let mut edge_counts: HashMap<((i64, i64, i64), (i64, i64, i64)), u32> = HashMap::new();
    for t in mesh.vertices.chunks(3) {
        let p: Vec<(i64, i64, i64)> = t.iter().map(|v| (v.x, v.y, v.z)).collect();
        assert!(p[0] != p[1] && p[1] != p[2] && p[0] != p[2]);
        for (a, b) in [(0, 1), (1, 2), (2, 0)] {
            let key = if p[a] <= p[b] { (p[a], p[b]) } else { (p[b], p[a]) };
            *edge_counts.entry(key).or_insert(0) += 1;
        }
    }
    for (_, n) in edge_counts {
        assert_eq!(n, 2);
    }
}
