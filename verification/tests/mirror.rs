use isosurf::table::tri_table;

/// The x/y coordinate swap renames corners 1 and 3, 5 and 7; edges follow.
const EDGE_SWAP: [u8; 12] = [3, 2, 1, 0, 7, 6, 5, 4, 8, 11, 10, 9];

fn mirror_config(c: u8) -> u8 {
    let mut m = 0u8;
    let corner_swap = [0u8, 3, 2, 1, 4, 7, 6, 5];
    for k in 0..8 {
        if c & (1 << k) != 0 {
            m |= 1 << corner_swap[k];
        }
    }
    m
}

fn rotate_min(t: (u8, u8, u8)) -> (u8, u8, u8) {
    let rots = [t, (t.1, t.2, t.0), (t.2, t.0, t.1)];
    *rots.iter().min().unwrap()
}

fn mirror_tri(t: (u8, u8, u8)) -> (u8, u8, u8) {
    rotate_min((
        EDGE_SWAP[t.0 as usize],
        EDGE_SWAP[t.2 as usize],
        EDGE_SWAP[t.1 as usize],
    ))
}

fn sorted(mut v: Vec<(u8, u8, u8)>) -> Vec<(u8, u8, u8)> {
    v.sort();
    v
}

#[test]
fn mirrored_single_corner_configurations() {
    // corner 1 inside maps to corner 3 inside under the swap
    assert_eq!(mirror_config(2), 8);
    let mirrored: Vec<_> = tri_table(2).into_iter().map(mirror_tri).collect();
    assert_eq!(sorted(mirrored), sorted(tri_table(8)));
}

#[test]
fn mirrored_edge_pair_configuration() {
    // corners 0 and 1 inside map to corners 0 and 3 inside
    assert_eq!(mirror_config(3), 9);
    let mirrored: Vec<_> = tri_table(3).into_iter().map(mirror_tri).collect();
    assert_eq!(sorted(mirrored), sorted(tri_table(9)));
}

#[test]
fn mirrored_configurations_triangle_counts_agree() {
    for c in 0..=255u8 {
        assert_eq!(tri_table(mirror_config(c)).len(), tri_table(c).len());
    }
}

#[test]
fn mirror_law_holds_outside_exceptions() {
    // The configurations symmetric under the swap whose entries cannot be
    // their own mirror image (a quad or hexagon whose diagonal the swap
    // moves, or a truncated entry).
    let exceptions = [
        17u8, 21, 27, 68, 69, 78, 81, 84, 85, 91, 94, 95, 171, 174, 177, 181, 186, 187, 228, 229,
        234, 238, 245,
    ];
    for c in 0..=255u8 {
        if exceptions.contains(&c) {
            continue;
        }
        let mirrored: Vec<_> = tri_table(c).into_iter().map(mirror_tri).collect();
        assert_eq!(
            sorted(mirrored),
            sorted(tri_table(mirror_config(c))),
            "configuration {}",
            c
        );
    }
}
