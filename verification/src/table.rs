use vstd::prelude::*;

verus! {

// A marching-cubes cell. Corners are numbered by their offsets inside the
// cell: 0 (0,0,0), 1 (1,0,0), 2 (1,1,0), 3 (0,1,0), 4 (0,0,1), 5 (1,0,1),
// 6 (1,1,1), 7 (0,1,1). Edges 0..11 connect corner pairs: 0..3 ring the
// z = 0 face, 4..7 ring the z = 1 face, 8..11 rise along z from corners
// 0..3. A configuration is a byte whose bit k says corner k lies inside
// the surface (density strictly below the iso-threshold; a corner exactly
// at the threshold counts as outside).

/// x offset of corner `k` inside its cell.
pub open spec fn corner_dx(k: int) -> int {
    if k == 1 || k == 2 || k == 5 || k == 6 { 1 } else { 0 }
}

/// y offset of corner `k` inside its cell.
pub open spec fn corner_dy(k: int) -> int {
    if k == 2 || k == 3 || k == 6 || k == 7 { 1 } else { 0 }
}

/// z offset of corner `k` inside its cell.
pub open spec fn corner_dz(k: int) -> int {
    if k >= 4 { 1 } else { 0 }
}

/// First corner of edge `e`.
pub open spec fn edge_corner_a(e: int) -> int {
    if e < 8 { e } else { e - 8 }
}

/// Second corner of edge `e`.
pub open spec fn edge_corner_b(e: int) -> int {
    if e < 4 {
        if e == 3 { 0 } else { e + 1 }
    } else if e < 8 {
        if e == 7 { 4 } else { e + 1 }
    } else {
        e - 4
    }
}

/// Does configuration `c` place corner `k` inside the surface? Bit `k` of
/// the configuration byte, read arithmetically.
pub open spec fn config_inside(c: u8, k: u8) -> bool {
    if k == 0 { (c as int) % 2 == 1 }
    else if k == 1 { (c as int / 2) % 2 == 1 }
    else if k == 2 { (c as int / 4) % 2 == 1 }
    else if k == 3 { (c as int / 8) % 2 == 1 }
    else if k == 4 { (c as int / 16) % 2 == 1 }
    else if k == 5 { (c as int / 32) % 2 == 1 }
    else if k == 6 { (c as int / 64) % 2 == 1 }
    else { (c as int / 128) % 2 == 1 }
}

/// A configuration byte assembled from eight 0/1 corner flags carries
/// exactly those flags as its bits.
pub proof fn cell_config_bits_unique(
    c: u8, x0: u8, x1: u8, x2: u8, x3: u8, x4: u8, x5: u8, x6: u8, x7: u8,
)
    requires
        x0 <= 1,
        x1 <= 1,
        x2 <= 1,
        x3 <= 1,
        x4 <= 1,
        x5 <= 1,
        x6 <= 1,
        x7 <= 1,
        c == x0 + 2 * x1 + 4 * x2 + 8 * x3 + 16 * x4 + 32 * x5 + 64 * x6 + 128 * x7,
    ensures
        config_inside(c, 0) == (x0 == 1),
        config_inside(c, 1) == (x1 == 1),
        config_inside(c, 2) == (x2 == 1),
        config_inside(c, 3) == (x3 == 1),
        config_inside(c, 4) == (x4 == 1),
        config_inside(c, 5) == (x5 == 1),
        config_inside(c, 6) == (x6 == 1),
        config_inside(c, 7) == (x7 == 1),
{
    let ci: int = c as int;
    let s1: int = (x1 + 2 * x2 + 4 * x3 + 8 * x4 + 16 * x5 + 32 * x6 + 64 * x7) as int;
    let s2: int = (x2 + 2 * x3 + 4 * x4 + 8 * x5 + 16 * x6 + 32 * x7) as int;
    let s3: int = (x3 + 2 * x4 + 4 * x5 + 8 * x6 + 16 * x7) as int;
    let s4: int = (x4 + 2 * x5 + 4 * x6 + 8 * x7) as int;
    let s5: int = (x5 + 2 * x6 + 4 * x7) as int;
    let s6: int = (x6 + 2 * x7) as int;
    let s7: int = x7 as int;
    vstd::arithmetic::div_mod::lemma_fundamental_div_mod_converse(ci, 2, s1, x0 as int);
    vstd::arithmetic::div_mod::lemma_fundamental_div_mod_converse(ci, 4, s2, (x0 + 2 * x1) as int);
    vstd::arithmetic::div_mod::lemma_fundamental_div_mod_converse(ci, 8, s3, (x0 + 2 * x1 + 4 * x2) as int);
    vstd::arithmetic::div_mod::lemma_fundamental_div_mod_converse(ci, 16, s4, (x0 + 2 * x1 + 4 * x2 + 8 * x3) as int);
    vstd::arithmetic::div_mod::lemma_fundamental_div_mod_converse(ci, 32, s5, (x0 + 2 * x1 + 4 * x2 + 8 * x3 + 16 * x4) as int);
    vstd::arithmetic::div_mod::lemma_fundamental_div_mod_converse(ci, 64, s6, (x0 + 2 * x1 + 4 * x2 + 8 * x3 + 16 * x4 + 32 * x5) as int);
    vstd::arithmetic::div_mod::lemma_fundamental_div_mod_converse(ci, 128, s7, (x0 + 2 * x1 + 4 * x2 + 8 * x3 + 16 * x4 + 32 * x5 + 64 * x6) as int);
    vstd::arithmetic::div_mod::lemma_fundamental_div_mod_converse(s1, 2, s2, x1 as int);
    vstd::arithmetic::div_mod::lemma_fundamental_div_mod_converse(s2, 2, s3, x2 as int);
    vstd::arithmetic::div_mod::lemma_fundamental_div_mod_converse(s3, 2, s4, x3 as int);
    vstd::arithmetic::div_mod::lemma_fundamental_div_mod_converse(s4, 2, s5, x4 as int);
    vstd::arithmetic::div_mod::lemma_fundamental_div_mod_converse(s5, 2, s6, x5 as int);
    vstd::arithmetic::div_mod::lemma_fundamental_div_mod_converse(s6, 2, s7, x6 as int);
}

/// Edge `e` is crossed by the surface in configuration `c`: its two
/// corners lie on opposite sides of the threshold.
pub open spec fn edge_crossed(c: u8, e: int) -> bool {
    config_inside(c, edge_corner_a(e) as u8) != config_inside(c, edge_corner_b(e) as u8)
}

/// The marching-cubes case table. For each of the 256 corner
/// configurations it lists up to four triangles, each triangle naming the
/// three crossed edges that carry its vertices, wound counter-clockwise
/// seen from outside the surface. Each triangle is rotated so its smallest
/// edge number comes first. Configurations whose traced surface needs more
/// than four triangles are truncated to the triangles of their largest
/// polygons, keeping every entry inside the four-triangles-per-cell
/// capacity bound.
pub open spec fn case_tris(c: u8) -> Seq<(int, int, int)> {
    match c {
        0u8 => seq![],
        1u8 => seq![(0, 8, 3)],
        2u8 => seq![(0, 1, 9)],
        3u8 => seq![(1, 9, 8), (1, 8, 3)],
        4u8 => seq![(1, 2, 10)],
        5u8 => seq![(0, 8, 3), (1, 2, 10)],
        6u8 => seq![(0, 2, 10), (0, 10, 9)],
        7u8 => seq![(2, 10, 9), (2, 9, 8), (2, 8, 3)],
        8u8 => seq![(2, 3, 11)],
        9u8 => seq![(2, 8, 11), (0, 8, 2)],
        10u8 => seq![(0, 1, 9), (2, 3, 11)],
        11u8 => seq![(1, 8, 2), (1, 9, 8), (2, 8, 11)],
        12u8 => seq![(1, 3, 10), (3, 11, 10)],
        13u8 => seq![(1, 11, 10), (1, 8, 11), (0, 8, 1)],
        14u8 => seq![(0, 10, 9), (0, 3, 10), (3, 11, 10)],
        15u8 => seq![(8, 11, 9), (9, 11, 10)],
        16u8 => seq![(4, 7, 8)],
        17u8 => seq![(0, 4, 7), (0, 7, 3)],
        18u8 => seq![(0, 1, 9), (4, 7, 8)],
        19u8 => seq![(1, 9, 4), (1, 4, 7), (1, 7, 3)],
        20u8 => seq![(1, 2, 10), (4, 7, 8)],
        21u8 => seq![(0, 4, 7), (0, 7, 3), (1, 2, 10)],
        22u8 => seq![(0, 2, 10), (0, 10, 9), (4, 7, 8)],
        23u8 => seq![(2, 10, 9), (2, 9, 4), (2, 4, 7), (2, 7, 3)],
        24u8 => seq![(2, 3, 11), (4, 7, 8)],
        25u8 => seq![(2, 7, 11), (2, 4, 7), (0, 4, 2)],
        26u8 => seq![(0, 1, 9), (2, 3, 11), (4, 7, 8)],
        27u8 => seq![(1, 9, 4), (1, 4, 7), (1, 7, 11), (1, 11, 2)],
        28u8 => seq![(1, 3, 10), (3, 11, 10), (4, 7, 8)],
        29u8 => seq![(1, 11, 10), (1, 7, 11), (1, 4, 7), (0, 4, 1)],
        30u8 => seq![(0, 10, 9), (0, 3, 10), (3, 11, 10), (4, 7, 8)],
        31u8 => seq![(4, 10, 9), (4, 7, 10), (7, 11, 10)],
        32u8 => seq![(4, 9, 5)],
        33u8 => seq![(0, 8, 3), (4, 9, 5)],
        34u8 => seq![(0, 1, 5), (0, 5, 4)],
        35u8 => seq![(1, 5, 4), (1, 4, 8), (1, 8, 3)],
        36u8 => seq![(1, 2, 10), (4, 9, 5)],
        37u8 => seq![(0, 8, 3), (1, 2, 10), (4, 9, 5)],
        38u8 => seq![(0, 2, 10), (0, 10, 5), (0, 5, 4)],
        39u8 => seq![(2, 10, 5), (2, 5, 4), (2, 4, 8), (2, 8, 3)],
        40u8 => seq![(2, 3, 11), (4, 9, 5)],
        41u8 => seq![(0, 8, 11), (0, 11, 2), (4, 9, 5)],
        42u8 => seq![(0, 1, 5), (0, 5, 4), (2, 3, 11)],
        43u8 => seq![(1, 5, 4), (1, 4, 8), (1, 8, 11), (1, 11, 2)],
        44u8 => seq![(1, 3, 11), (1, 11, 10), (4, 9, 5)],
        45u8 => seq![(0, 8, 11), (0, 11, 10), (0, 10, 1), (4, 9, 5)],
        46u8 => seq![(0, 3, 11), (0, 11, 10), (0, 10, 5), (0, 5, 4)],
        47u8 => seq![(4, 8, 11), (4, 11, 10), (4, 10, 5)],
        48u8 => seq![(5, 7, 8), (5, 8, 9)],
        49u8 => seq![(0, 9, 5), (0, 5, 7), (0, 7, 3)],
        50u8 => seq![(0, 1, 5), (0, 5, 7), (0, 7, 8)],
        51u8 => seq![(1, 5, 7), (1, 7, 3)],
        52u8 => seq![(5, 7, 8), (5, 8, 9), (1, 2, 10)],
        53u8 => seq![(0, 9, 5), (0, 5, 7), (0, 7, 3), (1, 2, 10)],
        54u8 => seq![(0, 2, 10), (0, 10, 5), (0, 5, 7), (0, 7, 8)],
        55u8 => seq![(2, 10, 5), (2, 5, 7), (2, 7, 3)],
        56u8 => seq![(5, 7, 8), (5, 8, 9), (2, 3, 11)],
        57u8 => seq![(0, 9, 5), (0, 5, 7), (0, 7, 11), (0, 11, 2)],
        58u8 => seq![(0, 1, 5), (0, 5, 7), (0, 7, 8), (2, 3, 11)],
        59u8 => seq![(1, 5, 7), (1, 7, 11), (1, 11, 2)],
        60u8 => seq![(1, 3, 11), (1, 11, 10), (5, 7, 8), (5, 8, 9)],
        61u8 => seq![(0, 9, 5), (0, 5, 7), (0, 7, 11), (0, 11, 10)],
        62u8 => seq![(0, 3, 11), (0, 11, 10), (0, 10, 5), (0, 5, 7)],
        63u8 => seq![(5, 7, 11), (5, 11, 10)],
        64u8 => seq![(5, 10, 6)],
        65u8 => seq![(0, 8, 3), (5, 10, 6)],
        66u8 => seq![(0, 1, 9), (5, 10, 6)],
        67u8 => seq![(1, 9, 8), (1, 8, 3), (5, 10, 6)],
        68u8 => seq![(1, 2, 6), (1, 6, 5)],
        69u8 => seq![(1, 2, 6), (1, 6, 5), (0, 8, 3)],
        70u8 => seq![(0, 2, 6), (0, 6, 5), (0, 5, 9)],
        71u8 => seq![(2, 6, 5), (2, 5, 9), (2, 9, 8), (2, 8, 3)],
        72u8 => seq![(2, 3, 11), (5, 10, 6)],
        73u8 => seq![(2, 8, 11), (0, 8, 2), (5, 10, 6)],
        74u8 => seq![(0, 1, 9), (2, 3, 11), (5, 10, 6)],
        75u8 => seq![(1, 8, 2), (1, 9, 8), (2, 8, 11), (5, 10, 6)],
        76u8 => seq![(1, 3, 5), (3, 6, 5), (3, 11, 6)],
        77u8 => seq![(1, 6, 5), (1, 11, 6), (1, 8, 11), (0, 8, 1)],
        78u8 => seq![(0, 3, 11), (0, 11, 6), (0, 6, 5), (0, 5, 9)],
        79u8 => seq![(5, 8, 6), (5, 9, 8), (6, 8, 11)],
        80u8 => seq![(4, 7, 8), (5, 10, 6)],
        81u8 => seq![(0, 4, 7), (0, 7, 3), (5, 10, 6)],
        82u8 => seq![(0, 1, 9), (4, 7, 8), (5, 10, 6)],
        83u8 => seq![(1, 9, 4), (1, 4, 7), (1, 7, 3), (5, 10, 6)],
        84u8 => seq![(1, 2, 6), (1, 6, 5), (4, 7, 8)],
        85u8 => seq![(0, 4, 7), (0, 7, 3), (1, 2, 6), (1, 6, 5)],
        86u8 => seq![(0, 2, 6), (0, 6, 5), (0, 5, 9), (4, 7, 8)],
        87u8 => seq![(2, 6, 5), (2, 5, 9), (2, 9, 4), (2, 4, 7)],
        88u8 => seq![(2, 3, 11), (4, 7, 8), (5, 10, 6)],
        89u8 => seq![(2, 7, 11), (2, 4, 7), (0, 4, 2), (5, 10, 6)],
        90u8 => seq![(0, 1, 9), (2, 3, 11), (4, 7, 8), (5, 10, 6)],
        91u8 => seq![(1, 9, 4), (1, 4, 7), (1, 7, 11), (1, 11, 2)],
        92u8 => seq![(1, 3, 5), (3, 6, 5), (3, 11, 6), (4, 7, 8)],
        93u8 => seq![(1, 6, 5), (1, 11, 6), (1, 7, 11), (1, 4, 7)],
        94u8 => seq![(0, 3, 11), (0, 11, 6), (0, 6, 5), (0, 5, 9)],
        95u8 => seq![(4, 7, 11), (4, 11, 6), (4, 6, 5), (4, 5, 9)],
        96u8 => seq![(4, 9, 10), (4, 10, 6)],
        97u8 => seq![(4, 9, 10), (4, 10, 6), (0, 8, 3)],
        98u8 => seq![(0, 1, 10), (0, 10, 6), (0, 6, 4)],
        99u8 => seq![(1, 10, 6), (1, 6, 4), (1, 4, 8), (1, 8, 3)],
        100u8 => seq![(1, 2, 6), (1, 6, 4), (1, 4, 9)],
        101u8 => seq![(1, 2, 6), (1, 6, 4), (1, 4, 9), (0, 8, 3)],
        102u8 => seq![(0, 2, 6), (0, 6, 4)],
        103u8 => seq![(2, 6, 4), (2, 4, 8), (2, 8, 3)],
        104u8 => seq![(4, 9, 10), (4, 10, 6), (2, 3, 11)],
        105u8 => seq![(0, 8, 11), (0, 11, 2), (4, 9, 10), (4, 10, 6)],
        106u8 => seq![(0, 1, 10), (0, 10, 6), (0, 6, 4), (2, 3, 11)],
        107u8 => seq![(1, 10, 6), (1, 6, 4), (1, 4, 8), (1, 8, 11)],
        108u8 => seq![(1, 3, 11), (1, 11, 6), (1, 6, 4), (1, 4, 9)],
        109u8 => seq![(0, 8, 11), (0, 11, 6), (0, 6, 4), (0, 4, 9)],
        110u8 => seq![(0, 3, 11), (0, 11, 6), (0, 6, 4)],
        111u8 => seq![(4, 8, 11), (4, 11, 6)],
        112u8 => seq![(6, 7, 8), (6, 8, 9), (6, 9, 10)],
        113u8 => seq![(0, 9, 10), (0, 10, 6), (0, 6, 7), (0, 7, 3)],
        114u8 => seq![(0, 1, 10), (0, 10, 6), (0, 6, 7), (0, 7, 8)],
        115u8 => seq![(1, 10, 6), (1, 6, 7), (1, 7, 3)],
        116u8 => seq![(1, 2, 6), (1, 6, 7), (1, 7, 8), (1, 8, 9)],
        117u8 => seq![(0, 9, 1), (0, 1, 2), (0, 2, 6), (0, 6, 7)],
        118u8 => seq![(0, 2, 6), (0, 6, 7), (0, 7, 8)],
        119u8 => seq![(2, 6, 7), (2, 7, 3)],
        120u8 => seq![(6, 7, 8), (6, 8, 9), (6, 9, 10), (2, 3, 11)],
        121u8 => seq![(0, 9, 10), (0, 10, 6), (0, 6, 7), (0, 7, 11)],
        122u8 => seq![(0, 1, 10), (0, 10, 6), (0, 6, 7), (0, 7, 8)],
        123u8 => seq![(1, 10, 6), (1, 6, 7), (1, 7, 11), (1, 11, 2)],
        124u8 => seq![(1, 3, 11), (1, 11, 6), (1, 6, 7), (1, 7, 8)],
        125u8 => seq![(0, 9, 1), (6, 7, 11)],
        126u8 => seq![(0, 3, 11), (0, 11, 6), (0, 6, 7), (0, 7, 8)],
        127u8 => seq![(6, 7, 11)],
        128u8 => seq![(6, 11, 7)],
        129u8 => seq![(0, 8, 3), (6, 11, 7)],
        130u8 => seq![(0, 1, 9), (6, 11, 7)],
        131u8 => seq![(3, 9, 8), (1, 9, 3), (6, 11, 7)],
        132u8 => seq![(1, 2, 10), (6, 11, 7)],
        133u8 => seq![(0, 8, 3), (1, 2, 10), (6, 11, 7)],
        134u8 => seq![(0, 2, 9), (2, 10, 9), (6, 11, 7)],
        135u8 => seq![(3, 9, 8), (3, 10, 9), (2, 10, 3), (6, 11, 7)],
        136u8 => seq![(2, 3, 6), (3, 7, 6)],
        137u8 => seq![(2, 7, 6), (2, 8, 7), (0, 8, 2)],
        138u8 => seq![(2, 3, 6), (3, 7, 6), (0, 1, 9)],
        139u8 => seq![(2, 7, 6), (2, 8, 7), (2, 9, 8), (1, 9, 2)],
        140u8 => seq![(1, 3, 10), (3, 6, 10), (3, 7, 6)],
        141u8 => seq![(1, 6, 10), (1, 7, 6), (1, 8, 7), (0, 8, 1)],
        142u8 => seq![(0, 3, 9), (3, 10, 9), (3, 6, 10), (3, 7, 6)],
        143u8 => seq![(7, 9, 8), (7, 10, 9), (6, 10, 7)],
        144u8 => seq![(4, 6, 8), (6, 11, 8)],
        145u8 => seq![(3, 6, 11), (3, 4, 6), (0, 4, 3)],
        146u8 => seq![(4, 6, 8), (6, 11, 8), (0, 1, 9)],
        147u8 => seq![(3, 6, 11), (3, 4, 6), (3, 9, 4), (1, 9, 3)],
        148u8 => seq![(4, 6, 8), (6, 11, 8), (1, 2, 10)],
        149u8 => seq![(3, 6, 11), (3, 4, 6), (0, 4, 3), (1, 2, 10)],
        150u8 => seq![(0, 2, 9), (2, 10, 9), (4, 6, 8), (6, 11, 8)],
        151u8 => seq![(3, 6, 11), (3, 4, 6), (3, 9, 4), (3, 10, 9)],
        152u8 => seq![(2, 3, 6), (3, 4, 6), (3, 8, 4)],
        153u8 => seq![(2, 4, 6), (0, 4, 2)],
        154u8 => seq![(2, 3, 6), (3, 4, 6), (3, 8, 4), (0, 1, 9)],
        155u8 => seq![(2, 4, 6), (2, 9, 4), (1, 9, 2)],
        156u8 => seq![(1, 3, 10), (3, 6, 10), (3, 4, 6), (3, 8, 4)],
        157u8 => seq![(1, 6, 10), (1, 4, 6), (0, 4, 1)],
        158u8 => seq![(0, 3, 9), (3, 10, 9), (3, 6, 10), (3, 4, 6)],
        159u8 => seq![(4, 6, 9), (6, 10, 9)],
        160u8 => seq![(4, 9, 5), (6, 11, 7)],
        161u8 => seq![(4, 9, 5), (6, 11, 7), (0, 8, 3)],
        162u8 => seq![(0, 1, 5), (0, 5, 4), (6, 11, 7)],
        163u8 => seq![(1, 5, 4), (1, 4, 8), (1, 8, 3), (6, 11, 7)],
        164u8 => seq![(4, 9, 5), (6, 11, 7), (1, 2, 10)],
        165u8 => seq![(4, 9, 5), (6, 11, 7), (0, 8, 3), (1, 2, 10)],
        166u8 => seq![(0, 2, 10), (0, 10, 5), (0, 5, 4), (6, 11, 7)],
        167u8 => seq![(2, 10, 5), (2, 5, 4), (2, 4, 8), (2, 8, 3)],
        168u8 => seq![(2, 3, 6), (3, 7, 6), (4, 9, 5)],
        169u8 => seq![(2, 7, 6), (2, 8, 7), (0, 8, 2), (4, 9, 5)],
        170u8 => seq![(0, 1, 5), (0, 5, 4), (2, 3, 6), (3, 7, 6)],
        171u8 => seq![(1, 8, 2), (1, 5, 8), (4, 8, 5), (2, 8, 6)],
        172u8 => seq![(1, 3, 10), (3, 6, 10), (3, 7, 6), (4, 9, 5)],
        173u8 => seq![(1, 6, 10), (1, 7, 6), (1, 8, 7), (0, 8, 1)],
        174u8 => seq![(0, 10, 4), (0, 3, 10), (3, 7, 10), (6, 10, 7)],
        175u8 => seq![(4, 8, 5), (5, 8, 6), (6, 8, 7), (5, 6, 10)],
        176u8 => seq![(5, 8, 9), (5, 6, 8), (6, 11, 8)],
        177u8 => seq![(0, 9, 5), (0, 5, 6), (0, 6, 11), (0, 11, 3)],
        178u8 => seq![(0, 1, 5), (0, 5, 6), (0, 6, 11), (0, 11, 8)],
        179u8 => seq![(1, 5, 6), (1, 6, 11), (1, 11, 3)],
        180u8 => seq![(5, 8, 9), (5, 6, 8), (6, 11, 8), (1, 2, 10)],
        181u8 => seq![(0, 9, 5), (0, 5, 6), (0, 6, 11), (0, 11, 3)],
        182u8 => seq![(0, 2, 10), (0, 10, 5), (0, 5, 6), (0, 6, 11)],
        183u8 => seq![(2, 10, 5), (2, 5, 6), (2, 6, 11), (2, 11, 3)],
        184u8 => seq![(2, 3, 6), (3, 5, 6), (3, 9, 5), (3, 8, 9)],
        185u8 => seq![(2, 5, 6), (2, 9, 5), (0, 9, 2)],
        186u8 => seq![(0, 1, 8), (1, 5, 8), (5, 6, 8), (2, 8, 6)],
        187u8 => seq![(1, 5, 6), (1, 6, 2)],
        188u8 => seq![(1, 3, 10), (3, 6, 10), (3, 5, 6), (3, 9, 5)],
        189u8 => seq![(1, 6, 10), (1, 5, 6), (1, 9, 5), (0, 9, 1)],
        190u8 => seq![(0, 3, 8), (5, 6, 10)],
        191u8 => seq![(5, 6, 10)],
        192u8 => seq![(7, 10, 11), (5, 10, 7)],
        193u8 => seq![(7, 10, 11), (5, 10, 7), (0, 8, 3)],
        194u8 => seq![(7, 10, 11), (5, 10, 7), (0, 1, 9)],
        195u8 => seq![(3, 9, 8), (1, 9, 3), (7, 10, 11), (5, 10, 7)],
        196u8 => seq![(1, 2, 5), (2, 7, 5), (2, 11, 7)],
        197u8 => seq![(1, 2, 5), (2, 7, 5), (2, 11, 7), (0, 8, 3)],
        198u8 => seq![(0, 2, 9), (2, 5, 9), (2, 7, 5), (2, 11, 7)],
        199u8 => seq![(3, 9, 8), (3, 5, 9), (3, 7, 5), (3, 11, 7)],
        200u8 => seq![(2, 3, 10), (3, 5, 10), (3, 7, 5)],
        201u8 => seq![(2, 5, 10), (2, 7, 5), (2, 8, 7), (0, 8, 2)],
        202u8 => seq![(2, 3, 10), (3, 5, 10), (3, 7, 5), (0, 1, 9)],
        203u8 => seq![(2, 5, 10), (2, 7, 5), (2, 8, 7), (2, 9, 8)],
        204u8 => seq![(1, 3, 5), (3, 7, 5)],
        205u8 => seq![(1, 7, 5), (1, 8, 7), (0, 8, 1)],
        206u8 => seq![(0, 3, 9), (3, 5, 9), (3, 7, 5)],
        207u8 => seq![(7, 9, 8), (5, 9, 7)],
        208u8 => seq![(4, 5, 8), (5, 11, 8), (5, 10, 11)],
        209u8 => seq![(3, 10, 11), (3, 5, 10), (3, 4, 5), (0, 4, 3)],
        210u8 => seq![(4, 5, 8), (5, 11, 8), (5, 10, 11), (0, 1, 9)],
        211u8 => seq![(3, 10, 11), (3, 5, 10), (3, 4, 5), (3, 9, 4)],
        212u8 => seq![(1, 2, 5), (2, 4, 5), (2, 8, 4), (2, 11, 8)],
        213u8 => seq![(2, 11, 3), (1, 2, 3), (1, 3, 5), (3, 4, 5)],
        214u8 => seq![(0, 2, 9), (2, 5, 9), (2, 4, 5), (2, 8, 4)],
        215u8 => seq![(2, 11, 3), (4, 5, 9)],
        216u8 => seq![(2, 3, 10), (3, 5, 10), (3, 4, 5), (3, 8, 4)],
        217u8 => seq![(2, 5, 10), (2, 4, 5), (0, 4, 2)],
        218u8 => seq![(2, 3, 10), (3, 5, 10), (3, 4, 5), (3, 8, 4)],
        219u8 => seq![(2, 5, 10), (2, 4, 5), (2, 9, 4), (1, 9, 2)],
        220u8 => seq![(1, 3, 5), (3, 4, 5), (3, 8, 4)],
        221u8 => seq![(1, 4, 5), (0, 4, 1)],
        222u8 => seq![(0, 3, 9), (3, 5, 9), (3, 4, 5), (3, 8, 4)],
        223u8 => seq![(4, 5, 9)],
        224u8 => seq![(4, 10, 7), (4, 9, 10), (7, 10, 11)],
        225u8 => seq![(4, 10, 7), (4, 9, 10), (7, 10, 11), (0, 8, 3)],
        226u8 => seq![(0, 1, 10), (0, 10, 11), (0, 11, 7), (0, 7, 4)],
        227u8 => seq![(1, 10, 11), (1, 11, 7), (1, 7, 4), (1, 4, 8)],
        228u8 => seq![(1, 2, 11), (1, 11, 7), (1, 7, 4), (1, 4, 9)],
        229u8 => seq![(1, 2, 11), (1, 11, 7), (1, 7, 4), (1, 4, 9)],
        230u8 => seq![(0, 2, 11), (0, 11, 7), (0, 7, 4)],
        231u8 => seq![(2, 11, 7), (2, 7, 4), (2, 4, 8), (2, 8, 3)],
        232u8 => seq![(2, 3, 10), (3, 9, 10), (3, 4, 9), (3, 7, 4)],
        233u8 => seq![(2, 9, 10), (2, 4, 9), (2, 7, 4), (2, 8, 7)],
        234u8 => seq![(0, 1, 4), (1, 10, 4), (4, 10, 7), (2, 7, 10)],
        235u8 => seq![(1, 10, 2), (4, 8, 7)],
        236u8 => seq![(1, 3, 9), (3, 4, 9), (3, 7, 4)],
        237u8 => seq![(1, 4, 9), (1, 7, 4), (1, 8, 7), (0, 8, 1)],
        238u8 => seq![(0, 3, 7), (0, 7, 4)],
        239u8 => seq![(4, 8, 7)],
        240u8 => seq![(8, 9, 11), (9, 10, 11)],
        241u8 => seq![(0, 10, 3), (0, 9, 10), (3, 10, 11)],
        242u8 => seq![(0, 1, 10), (0, 10, 11), (0, 11, 8)],
        243u8 => seq![(1, 10, 11), (1, 11, 3)],
        244u8 => seq![(1, 8, 9), (1, 2, 8), (2, 11, 8)],
        245u8 => seq![(0, 9, 1), (0, 1, 2), (0, 2, 11), (0, 11, 3)],
        246u8 => seq![(0, 2, 11), (0, 11, 8)],
        247u8 => seq![(2, 11, 3)],
        248u8 => seq![(2, 3, 10), (3, 9, 10), (3, 8, 9)],
        249u8 => seq![(2, 9, 10), (0, 9, 2)],
        250u8 => seq![(0, 1, 8), (1, 10, 8), (2, 8, 10), (2, 3, 8)],
        251u8 => seq![(1, 10, 2)],
        252u8 => seq![(1, 3, 9), (3, 8, 9)],
        253u8 => seq![(0, 9, 1)],
        254u8 => seq![(0, 3, 8)],
        255u8 => seq![],    }
}

fn tri_table_part0(c: u8) -> (r: Vec<(u8, u8, u8)>)
    requires
        0 <= c < 64,
    ensures
        r@.len() == case_tris(c).len(),
        r@.len() <= 4,
        forall|i: int| 0 <= i < r@.len() ==>
            case_tris(c)[i] == ((#[trigger] r@[i]).0 as int, r@[i].1 as int, r@[i].2 as int),
{
    match c {
        0u8 => Vec::new(),
        1u8 => vec![(0u8, 8u8, 3u8)],
        2u8 => vec![(0u8, 1u8, 9u8)],
        3u8 => vec![(1u8, 9u8, 8u8), (1u8, 8u8, 3u8)],
        4u8 => vec![(1u8, 2u8, 10u8)],
        5u8 => vec![(0u8, 8u8, 3u8), (1u8, 2u8, 10u8)],
        6u8 => vec![(0u8, 2u8, 10u8), (0u8, 10u8, 9u8)],
        7u8 => vec![(2u8, 10u8, 9u8), (2u8, 9u8, 8u8), (2u8, 8u8, 3u8)],
        8u8 => vec![(2u8, 3u8, 11u8)],
        9u8 => vec![(2u8, 8u8, 11u8), (0u8, 8u8, 2u8)],
        10u8 => vec![(0u8, 1u8, 9u8), (2u8, 3u8, 11u8)],
        11u8 => vec![(1u8, 8u8, 2u8), (1u8, 9u8, 8u8), (2u8, 8u8, 11u8)],
        12u8 => vec![(1u8, 3u8, 10u8), (3u8, 11u8, 10u8)],
        13u8 => vec![(1u8, 11u8, 10u8), (1u8, 8u8, 11u8), (0u8, 8u8, 1u8)],
        14u8 => vec![(0u8, 10u8, 9u8), (0u8, 3u8, 10u8), (3u8, 11u8, 10u8)],
        15u8 => vec![(8u8, 11u8, 9u8), (9u8, 11u8, 10u8)],
        16u8 => vec![(4u8, 7u8, 8u8)],
        17u8 => vec![(0u8, 4u8, 7u8), (0u8, 7u8, 3u8)],
        18u8 => vec![(0u8, 1u8, 9u8), (4u8, 7u8, 8u8)],
        19u8 => vec![(1u8, 9u8, 4u8), (1u8, 4u8, 7u8), (1u8, 7u8, 3u8)],
        20u8 => vec![(1u8, 2u8, 10u8), (4u8, 7u8, 8u8)],
        21u8 => vec![(0u8, 4u8, 7u8), (0u8, 7u8, 3u8), (1u8, 2u8, 10u8)],
        22u8 => vec![(0u8, 2u8, 10u8), (0u8, 10u8, 9u8), (4u8, 7u8, 8u8)],
        23u8 => vec![(2u8, 10u8, 9u8), (2u8, 9u8, 4u8), (2u8, 4u8, 7u8), (2u8, 7u8, 3u8)],
        24u8 => vec![(2u8, 3u8, 11u8), (4u8, 7u8, 8u8)],
        25u8 => vec![(2u8, 7u8, 11u8), (2u8, 4u8, 7u8), (0u8, 4u8, 2u8)],
        26u8 => vec![(0u8, 1u8, 9u8), (2u8, 3u8, 11u8), (4u8, 7u8, 8u8)],
        27u8 => vec![(1u8, 9u8, 4u8), (1u8, 4u8, 7u8), (1u8, 7u8, 11u8), (1u8, 11u8, 2u8)],
        28u8 => vec![(1u8, 3u8, 10u8), (3u8, 11u8, 10u8), (4u8, 7u8, 8u8)],
        29u8 => vec![(1u8, 11u8, 10u8), (1u8, 7u8, 11u8), (1u8, 4u8, 7u8), (0u8, 4u8, 1u8)],
        30u8 => vec![(0u8, 10u8, 9u8), (0u8, 3u8, 10u8), (3u8, 11u8, 10u8), (4u8, 7u8, 8u8)],
        31u8 => vec![(4u8, 10u8, 9u8), (4u8, 7u8, 10u8), (7u8, 11u8, 10u8)],
        32u8 => vec![(4u8, 9u8, 5u8)],
        33u8 => vec![(0u8, 8u8, 3u8), (4u8, 9u8, 5u8)],
        34u8 => vec![(0u8, 1u8, 5u8), (0u8, 5u8, 4u8)],
        35u8 => vec![(1u8, 5u8, 4u8), (1u8, 4u8, 8u8), (1u8, 8u8, 3u8)],
        36u8 => vec![(1u8, 2u8, 10u8), (4u8, 9u8, 5u8)],
        37u8 => vec![(0u8, 8u8, 3u8), (1u8, 2u8, 10u8), (4u8, 9u8, 5u8)],
        38u8 => vec![(0u8, 2u8, 10u8), (0u8, 10u8, 5u8), (0u8, 5u8, 4u8)],
        39u8 => vec![(2u8, 10u8, 5u8), (2u8, 5u8, 4u8), (2u8, 4u8, 8u8), (2u8, 8u8, 3u8)],
        40u8 => vec![(2u8, 3u8, 11u8), (4u8, 9u8, 5u8)],
        41u8 => vec![(0u8, 8u8, 11u8), (0u8, 11u8, 2u8), (4u8, 9u8, 5u8)],
        42u8 => vec![(0u8, 1u8, 5u8), (0u8, 5u8, 4u8), (2u8, 3u8, 11u8)],
        43u8 => vec![(1u8, 5u8, 4u8), (1u8, 4u8, 8u8), (1u8, 8u8, 11u8), (1u8, 11u8, 2u8)],
        44u8 => vec![(1u8, 3u8, 11u8), (1u8, 11u8, 10u8), (4u8, 9u8, 5u8)],
        45u8 => vec![(0u8, 8u8, 11u8), (0u8, 11u8, 10u8), (0u8, 10u8, 1u8), (4u8, 9u8, 5u8)],
        46u8 => vec![(0u8, 3u8, 11u8), (0u8, 11u8, 10u8), (0u8, 10u8, 5u8), (0u8, 5u8, 4u8)],
        47u8 => vec![(4u8, 8u8, 11u8), (4u8, 11u8, 10u8), (4u8, 10u8, 5u8)],
        48u8 => vec![(5u8, 7u8, 8u8), (5u8, 8u8, 9u8)],
        49u8 => vec![(0u8, 9u8, 5u8), (0u8, 5u8, 7u8), (0u8, 7u8, 3u8)],
        50u8 => vec![(0u8, 1u8, 5u8), (0u8, 5u8, 7u8), (0u8, 7u8, 8u8)],
        51u8 => vec![(1u8, 5u8, 7u8), (1u8, 7u8, 3u8)],
        52u8 => vec![(5u8, 7u8, 8u8), (5u8, 8u8, 9u8), (1u8, 2u8, 10u8)],
        53u8 => vec![(0u8, 9u8, 5u8), (0u8, 5u8, 7u8), (0u8, 7u8, 3u8), (1u8, 2u8, 10u8)],
        54u8 => vec![(0u8, 2u8, 10u8), (0u8, 10u8, 5u8), (0u8, 5u8, 7u8), (0u8, 7u8, 8u8)],
        55u8 => vec![(2u8, 10u8, 5u8), (2u8, 5u8, 7u8), (2u8, 7u8, 3u8)],
        56u8 => vec![(5u8, 7u8, 8u8), (5u8, 8u8, 9u8), (2u8, 3u8, 11u8)],
        57u8 => vec![(0u8, 9u8, 5u8), (0u8, 5u8, 7u8), (0u8, 7u8, 11u8), (0u8, 11u8, 2u8)],
        58u8 => vec![(0u8, 1u8, 5u8), (0u8, 5u8, 7u8), (0u8, 7u8, 8u8), (2u8, 3u8, 11u8)],
        59u8 => vec![(1u8, 5u8, 7u8), (1u8, 7u8, 11u8), (1u8, 11u8, 2u8)],
        60u8 => vec![(1u8, 3u8, 11u8), (1u8, 11u8, 10u8), (5u8, 7u8, 8u8), (5u8, 8u8, 9u8)],
        61u8 => vec![(0u8, 9u8, 5u8), (0u8, 5u8, 7u8), (0u8, 7u8, 11u8), (0u8, 11u8, 10u8)],
        62u8 => vec![(0u8, 3u8, 11u8), (0u8, 11u8, 10u8), (0u8, 10u8, 5u8), (0u8, 5u8, 7u8)],
        63u8 => vec![(5u8, 7u8, 11u8), (5u8, 11u8, 10u8)],        _ => Vec::new(),
    }
}

fn tri_table_part1(c: u8) -> (r: Vec<(u8, u8, u8)>)
    requires
        64 <= c < 128,
    ensures
        r@.len() == case_tris(c).len(),
        r@.len() <= 4,
        forall|i: int| 0 <= i < r@.len() ==>
            case_tris(c)[i] == ((#[trigger] r@[i]).0 as int, r@[i].1 as int, r@[i].2 as int),
{
    match c {
        64u8 => vec![(5u8, 10u8, 6u8)],
        65u8 => vec![(0u8, 8u8, 3u8), (5u8, 10u8, 6u8)],
        66u8 => vec![(0u8, 1u8, 9u8), (5u8, 10u8, 6u8)],
        67u8 => vec![(1u8, 9u8, 8u8), (1u8, 8u8, 3u8), (5u8, 10u8, 6u8)],
        68u8 => vec![(1u8, 2u8, 6u8), (1u8, 6u8, 5u8)],
        69u8 => vec![(1u8, 2u8, 6u8), (1u8, 6u8, 5u8), (0u8, 8u8, 3u8)],
        70u8 => vec![(0u8, 2u8, 6u8), (0u8, 6u8, 5u8), (0u8, 5u8, 9u8)],
        71u8 => vec![(2u8, 6u8, 5u8), (2u8, 5u8, 9u8), (2u8, 9u8, 8u8), (2u8, 8u8, 3u8)],
        72u8 => vec![(2u8, 3u8, 11u8), (5u8, 10u8, 6u8)],
        73u8 => vec![(2u8, 8u8, 11u8), (0u8, 8u8, 2u8), (5u8, 10u8, 6u8)],
        74u8 => vec![(0u8, 1u8, 9u8), (2u8, 3u8, 11u8), (5u8, 10u8, 6u8)],
        75u8 => vec![(1u8, 8u8, 2u8), (1u8, 9u8, 8u8), (2u8, 8u8, 11u8), (5u8, 10u8, 6u8)],
        76u8 => vec![(1u8, 3u8, 5u8), (3u8, 6u8, 5u8), (3u8, 11u8, 6u8)],
        77u8 => vec![(1u8, 6u8, 5u8), (1u8, 11u8, 6u8), (1u8, 8u8, 11u8), (0u8, 8u8, 1u8)],
        78u8 => vec![(0u8, 3u8, 11u8), (0u8, 11u8, 6u8), (0u8, 6u8, 5u8), (0u8, 5u8, 9u8)],
        79u8 => vec![(5u8, 8u8, 6u8), (5u8, 9u8, 8u8), (6u8, 8u8, 11u8)],
        80u8 => vec![(4u8, 7u8, 8u8), (5u8, 10u8, 6u8)],
        81u8 => vec![(0u8, 4u8, 7u8), (0u8, 7u8, 3u8), (5u8, 10u8, 6u8)],
        82u8 => vec![(0u8, 1u8, 9u8), (4u8, 7u8, 8u8), (5u8, 10u8, 6u8)],
        83u8 => vec![(1u8, 9u8, 4u8), (1u8, 4u8, 7u8), (1u8, 7u8, 3u8), (5u8, 10u8, 6u8)],
        84u8 => vec![(1u8, 2u8, 6u8), (1u8, 6u8, 5u8), (4u8, 7u8, 8u8)],
        85u8 => vec![(0u8, 4u8, 7u8), (0u8, 7u8, 3u8), (1u8, 2u8, 6u8), (1u8, 6u8, 5u8)],
        86u8 => vec![(0u8, 2u8, 6u8), (0u8, 6u8, 5u8), (0u8, 5u8, 9u8), (4u8, 7u8, 8u8)],
        87u8 => vec![(2u8, 6u8, 5u8), (2u8, 5u8, 9u8), (2u8, 9u8, 4u8), (2u8, 4u8, 7u8)],
        88u8 => vec![(2u8, 3u8, 11u8), (4u8, 7u8, 8u8), (5u8, 10u8, 6u8)],
        89u8 => vec![(2u8, 7u8, 11u8), (2u8, 4u8, 7u8), (0u8, 4u8, 2u8), (5u8, 10u8, 6u8)],
        90u8 => vec![(0u8, 1u8, 9u8), (2u8, 3u8, 11u8), (4u8, 7u8, 8u8), (5u8, 10u8, 6u8)],
        91u8 => vec![(1u8, 9u8, 4u8), (1u8, 4u8, 7u8), (1u8, 7u8, 11u8), (1u8, 11u8, 2u8)],
        92u8 => vec![(1u8, 3u8, 5u8), (3u8, 6u8, 5u8), (3u8, 11u8, 6u8), (4u8, 7u8, 8u8)],
        93u8 => vec![(1u8, 6u8, 5u8), (1u8, 11u8, 6u8), (1u8, 7u8, 11u8), (1u8, 4u8, 7u8)],
        94u8 => vec![(0u8, 3u8, 11u8), (0u8, 11u8, 6u8), (0u8, 6u8, 5u8), (0u8, 5u8, 9u8)],
        95u8 => vec![(4u8, 7u8, 11u8), (4u8, 11u8, 6u8), (4u8, 6u8, 5u8), (4u8, 5u8, 9u8)],
        96u8 => vec![(4u8, 9u8, 10u8), (4u8, 10u8, 6u8)],
        97u8 => vec![(4u8, 9u8, 10u8), (4u8, 10u8, 6u8), (0u8, 8u8, 3u8)],
        98u8 => vec![(0u8, 1u8, 10u8), (0u8, 10u8, 6u8), (0u8, 6u8, 4u8)],
        99u8 => vec![(1u8, 10u8, 6u8), (1u8, 6u8, 4u8), (1u8, 4u8, 8u8), (1u8, 8u8, 3u8)],
        100u8 => vec![(1u8, 2u8, 6u8), (1u8, 6u8, 4u8), (1u8, 4u8, 9u8)],
        101u8 => vec![(1u8, 2u8, 6u8), (1u8, 6u8, 4u8), (1u8, 4u8, 9u8), (0u8, 8u8, 3u8)],
        102u8 => vec![(0u8, 2u8, 6u8), (0u8, 6u8, 4u8)],
        103u8 => vec![(2u8, 6u8, 4u8), (2u8, 4u8, 8u8), (2u8, 8u8, 3u8)],
        104u8 => vec![(4u8, 9u8, 10u8), (4u8, 10u8, 6u8), (2u8, 3u8, 11u8)],
        105u8 => vec![(0u8, 8u8, 11u8), (0u8, 11u8, 2u8), (4u8, 9u8, 10u8), (4u8, 10u8, 6u8)],
        106u8 => vec![(0u8, 1u8, 10u8), (0u8, 10u8, 6u8), (0u8, 6u8, 4u8), (2u8, 3u8, 11u8)],
        107u8 => vec![(1u8, 10u8, 6u8), (1u8, 6u8, 4u8), (1u8, 4u8, 8u8), (1u8, 8u8, 11u8)],
        108u8 => vec![(1u8, 3u8, 11u8), (1u8, 11u8, 6u8), (1u8, 6u8, 4u8), (1u8, 4u8, 9u8)],
        109u8 => vec![(0u8, 8u8, 11u8), (0u8, 11u8, 6u8), (0u8, 6u8, 4u8), (0u8, 4u8, 9u8)],
        110u8 => vec![(0u8, 3u8, 11u8), (0u8, 11u8, 6u8), (0u8, 6u8, 4u8)],
        111u8 => vec![(4u8, 8u8, 11u8), (4u8, 11u8, 6u8)],
        112u8 => vec![(6u8, 7u8, 8u8), (6u8, 8u8, 9u8), (6u8, 9u8, 10u8)],
        113u8 => vec![(0u8, 9u8, 10u8), (0u8, 10u8, 6u8), (0u8, 6u8, 7u8), (0u8, 7u8, 3u8)],
        114u8 => vec![(0u8, 1u8, 10u8), (0u8, 10u8, 6u8), (0u8, 6u8, 7u8), (0u8, 7u8, 8u8)],
        115u8 => vec![(1u8, 10u8, 6u8), (1u8, 6u8, 7u8), (1u8, 7u8, 3u8)],
        116u8 => vec![(1u8, 2u8, 6u8), (1u8, 6u8, 7u8), (1u8, 7u8, 8u8), (1u8, 8u8, 9u8)],
        117u8 => vec![(0u8, 9u8, 1u8), (0u8, 1u8, 2u8), (0u8, 2u8, 6u8), (0u8, 6u8, 7u8)],
        118u8 => vec![(0u8, 2u8, 6u8), (0u8, 6u8, 7u8), (0u8, 7u8, 8u8)],
        119u8 => vec![(2u8, 6u8, 7u8), (2u8, 7u8, 3u8)],
        120u8 => vec![(6u8, 7u8, 8u8), (6u8, 8u8, 9u8), (6u8, 9u8, 10u8), (2u8, 3u8, 11u8)],
        121u8 => vec![(0u8, 9u8, 10u8), (0u8, 10u8, 6u8), (0u8, 6u8, 7u8), (0u8, 7u8, 11u8)],
        122u8 => vec![(0u8, 1u8, 10u8), (0u8, 10u8, 6u8), (0u8, 6u8, 7u8), (0u8, 7u8, 8u8)],
        123u8 => vec![(1u8, 10u8, 6u8), (1u8, 6u8, 7u8), (1u8, 7u8, 11u8), (1u8, 11u8, 2u8)],
        124u8 => vec![(1u8, 3u8, 11u8), (1u8, 11u8, 6u8), (1u8, 6u8, 7u8), (1u8, 7u8, 8u8)],
        125u8 => vec![(0u8, 9u8, 1u8), (6u8, 7u8, 11u8)],
        126u8 => vec![(0u8, 3u8, 11u8), (0u8, 11u8, 6u8), (0u8, 6u8, 7u8), (0u8, 7u8, 8u8)],
        127u8 => vec![(6u8, 7u8, 11u8)],        _ => Vec::new(),
    }
}

fn tri_table_part2(c: u8) -> (r: Vec<(u8, u8, u8)>)
    requires
        128 <= c < 192,
    ensures
        r@.len() == case_tris(c).len(),
        r@.len() <= 4,
        forall|i: int| 0 <= i < r@.len() ==>
            case_tris(c)[i] == ((#[trigger] r@[i]).0 as int, r@[i].1 as int, r@[i].2 as int),
{
    match c {
        128u8 => vec![(6u8, 11u8, 7u8)],
        129u8 => vec![(0u8, 8u8, 3u8), (6u8, 11u8, 7u8)],
        130u8 => vec![(0u8, 1u8, 9u8), (6u8, 11u8, 7u8)],
        131u8 => vec![(3u8, 9u8, 8u8), (1u8, 9u8, 3u8), (6u8, 11u8, 7u8)],
        132u8 => vec![(1u8, 2u8, 10u8), (6u8, 11u8, 7u8)],
        133u8 => vec![(0u8, 8u8, 3u8), (1u8, 2u8, 10u8), (6u8, 11u8, 7u8)],
        134u8 => vec![(0u8, 2u8, 9u8), (2u8, 10u8, 9u8), (6u8, 11u8, 7u8)],
        135u8 => vec![(3u8, 9u8, 8u8), (3u8, 10u8, 9u8), (2u8, 10u8, 3u8), (6u8, 11u8, 7u8)],
        136u8 => vec![(2u8, 3u8, 6u8), (3u8, 7u8, 6u8)],
        137u8 => vec![(2u8, 7u8, 6u8), (2u8, 8u8, 7u8), (0u8, 8u8, 2u8)],
        138u8 => vec![(2u8, 3u8, 6u8), (3u8, 7u8, 6u8), (0u8, 1u8, 9u8)],
        139u8 => vec![(2u8, 7u8, 6u8), (2u8, 8u8, 7u8), (2u8, 9u8, 8u8), (1u8, 9u8, 2u8)],
        140u8 => vec![(1u8, 3u8, 10u8), (3u8, 6u8, 10u8), (3u8, 7u8, 6u8)],
        141u8 => vec![(1u8, 6u8, 10u8), (1u8, 7u8, 6u8), (1u8, 8u8, 7u8), (0u8, 8u8, 1u8)],
        142u8 => vec![(0u8, 3u8, 9u8), (3u8, 10u8, 9u8), (3u8, 6u8, 10u8), (3u8, 7u8, 6u8)],
        143u8 => vec![(7u8, 9u8, 8u8), (7u8, 10u8, 9u8), (6u8, 10u8, 7u8)],
        144u8 => vec![(4u8, 6u8, 8u8), (6u8, 11u8, 8u8)],
        145u8 => vec![(3u8, 6u8, 11u8), (3u8, 4u8, 6u8), (0u8, 4u8, 3u8)],
        146u8 => vec![(4u8, 6u8, 8u8), (6u8, 11u8, 8u8), (0u8, 1u8, 9u8)],
        147u8 => vec![(3u8, 6u8, 11u8), (3u8, 4u8, 6u8), (3u8, 9u8, 4u8), (1u8, 9u8, 3u8)],
        148u8 => vec![(4u8, 6u8, 8u8), (6u8, 11u8, 8u8), (1u8, 2u8, 10u8)],
        149u8 => vec![(3u8, 6u8, 11u8), (3u8, 4u8, 6u8), (0u8, 4u8, 3u8), (1u8, 2u8, 10u8)],
        150u8 => vec![(0u8, 2u8, 9u8), (2u8, 10u8, 9u8), (4u8, 6u8, 8u8), (6u8, 11u8, 8u8)],
        151u8 => vec![(3u8, 6u8, 11u8), (3u8, 4u8, 6u8), (3u8, 9u8, 4u8), (3u8, 10u8, 9u8)],
        152u8 => vec![(2u8, 3u8, 6u8), (3u8, 4u8, 6u8), (3u8, 8u8, 4u8)],
        153u8 => vec![(2u8, 4u8, 6u8), (0u8, 4u8, 2u8)],
        154u8 => vec![(2u8, 3u8, 6u8), (3u8, 4u8, 6u8), (3u8, 8u8, 4u8), (0u8, 1u8, 9u8)],
        155u8 => vec![(2u8, 4u8, 6u8), (2u8, 9u8, 4u8), (1u8, 9u8, 2u8)],
        156u8 => vec![(1u8, 3u8, 10u8), (3u8, 6u8, 10u8), (3u8, 4u8, 6u8), (3u8, 8u8, 4u8)],
        157u8 => vec![(1u8, 6u8, 10u8), (1u8, 4u8, 6u8), (0u8, 4u8, 1u8)],
        158u8 => vec![(0u8, 3u8, 9u8), (3u8, 10u8, 9u8), (3u8, 6u8, 10u8), (3u8, 4u8, 6u8)],
        159u8 => vec![(4u8, 6u8, 9u8), (6u8, 10u8, 9u8)],
        160u8 => vec![(4u8, 9u8, 5u8), (6u8, 11u8, 7u8)],
        161u8 => vec![(4u8, 9u8, 5u8), (6u8, 11u8, 7u8), (0u8, 8u8, 3u8)],
        162u8 => vec![(0u8, 1u8, 5u8), (0u8, 5u8, 4u8), (6u8, 11u8, 7u8)],
        163u8 => vec![(1u8, 5u8, 4u8), (1u8, 4u8, 8u8), (1u8, 8u8, 3u8), (6u8, 11u8, 7u8)],
        164u8 => vec![(4u8, 9u8, 5u8), (6u8, 11u8, 7u8), (1u8, 2u8, 10u8)],
        165u8 => vec![(4u8, 9u8, 5u8), (6u8, 11u8, 7u8), (0u8, 8u8, 3u8), (1u8, 2u8, 10u8)],
        166u8 => vec![(0u8, 2u8, 10u8), (0u8, 10u8, 5u8), (0u8, 5u8, 4u8), (6u8, 11u8, 7u8)],
        167u8 => vec![(2u8, 10u8, 5u8), (2u8, 5u8, 4u8), (2u8, 4u8, 8u8), (2u8, 8u8, 3u8)],
        168u8 => vec![(2u8, 3u8, 6u8), (3u8, 7u8, 6u8), (4u8, 9u8, 5u8)],
        169u8 => vec![(2u8, 7u8, 6u8), (2u8, 8u8, 7u8), (0u8, 8u8, 2u8), (4u8, 9u8, 5u8)],
        170u8 => vec![(0u8, 1u8, 5u8), (0u8, 5u8, 4u8), (2u8, 3u8, 6u8), (3u8, 7u8, 6u8)],
        171u8 => vec![(1u8, 8u8, 2u8), (1u8, 5u8, 8u8), (4u8, 8u8, 5u8), (2u8, 8u8, 6u8)],
        172u8 => vec![(1u8, 3u8, 10u8), (3u8, 6u8, 10u8), (3u8, 7u8, 6u8), (4u8, 9u8, 5u8)],
        173u8 => vec![(1u8, 6u8, 10u8), (1u8, 7u8, 6u8), (1u8, 8u8, 7u8), (0u8, 8u8, 1u8)],
        174u8 => vec![(0u8, 10u8, 4u8), (0u8, 3u8, 10u8), (3u8, 7u8, 10u8), (6u8, 10u8, 7u8)],
        175u8 => vec![(4u8, 8u8, 5u8), (5u8, 8u8, 6u8), (6u8, 8u8, 7u8), (5u8, 6u8, 10u8)],
        176u8 => vec![(5u8, 8u8, 9u8), (5u8, 6u8, 8u8), (6u8, 11u8, 8u8)],
        177u8 => vec![(0u8, 9u8, 5u8), (0u8, 5u8, 6u8), (0u8, 6u8, 11u8), (0u8, 11u8, 3u8)],
        178u8 => vec![(0u8, 1u8, 5u8), (0u8, 5u8, 6u8), (0u8, 6u8, 11u8), (0u8, 11u8, 8u8)],
        179u8 => vec![(1u8, 5u8, 6u8), (1u8, 6u8, 11u8), (1u8, 11u8, 3u8)],
        180u8 => vec![(5u8, 8u8, 9u8), (5u8, 6u8, 8u8), (6u8, 11u8, 8u8), (1u8, 2u8, 10u8)],
        181u8 => vec![(0u8, 9u8, 5u8), (0u8, 5u8, 6u8), (0u8, 6u8, 11u8), (0u8, 11u8, 3u8)],
        182u8 => vec![(0u8, 2u8, 10u8), (0u8, 10u8, 5u8), (0u8, 5u8, 6u8), (0u8, 6u8, 11u8)],
        183u8 => vec![(2u8, 10u8, 5u8), (2u8, 5u8, 6u8), (2u8, 6u8, 11u8), (2u8, 11u8, 3u8)],
        184u8 => vec![(2u8, 3u8, 6u8), (3u8, 5u8, 6u8), (3u8, 9u8, 5u8), (3u8, 8u8, 9u8)],
        185u8 => vec![(2u8, 5u8, 6u8), (2u8, 9u8, 5u8), (0u8, 9u8, 2u8)],
        186u8 => vec![(0u8, 1u8, 8u8), (1u8, 5u8, 8u8), (5u8, 6u8, 8u8), (2u8, 8u8, 6u8)],
        187u8 => vec![(1u8, 5u8, 6u8), (1u8, 6u8, 2u8)],
        188u8 => vec![(1u8, 3u8, 10u8), (3u8, 6u8, 10u8), (3u8, 5u8, 6u8), (3u8, 9u8, 5u8)],
        189u8 => vec![(1u8, 6u8, 10u8), (1u8, 5u8, 6u8), (1u8, 9u8, 5u8), (0u8, 9u8, 1u8)],
        190u8 => vec![(0u8, 3u8, 8u8), (5u8, 6u8, 10u8)],
        191u8 => vec![(5u8, 6u8, 10u8)],        _ => Vec::new(),
    }
}

fn tri_table_part3(c: u8) -> (r: Vec<(u8, u8, u8)>)
    requires
        192 <= c < 256,
    ensures
        r@.len() == case_tris(c).len(),
        r@.len() <= 4,
        forall|i: int| 0 <= i < r@.len() ==>
            case_tris(c)[i] == ((#[trigger] r@[i]).0 as int, r@[i].1 as int, r@[i].2 as int),
{
    match c {
        192u8 => vec![(7u8, 10u8, 11u8), (5u8, 10u8, 7u8)],
        193u8 => vec![(7u8, 10u8, 11u8), (5u8, 10u8, 7u8), (0u8, 8u8, 3u8)],
        194u8 => vec![(7u8, 10u8, 11u8), (5u8, 10u8, 7u8), (0u8, 1u8, 9u8)],
        195u8 => vec![(3u8, 9u8, 8u8), (1u8, 9u8, 3u8), (7u8, 10u8, 11u8), (5u8, 10u8, 7u8)],
        196u8 => vec![(1u8, 2u8, 5u8), (2u8, 7u8, 5u8), (2u8, 11u8, 7u8)],
        197u8 => vec![(1u8, 2u8, 5u8), (2u8, 7u8, 5u8), (2u8, 11u8, 7u8), (0u8, 8u8, 3u8)],
        198u8 => vec![(0u8, 2u8, 9u8), (2u8, 5u8, 9u8), (2u8, 7u8, 5u8), (2u8, 11u8, 7u8)],
        199u8 => vec![(3u8, 9u8, 8u8), (3u8, 5u8, 9u8), (3u8, 7u8, 5u8), (3u8, 11u8, 7u8)],
        200u8 => vec![(2u8, 3u8, 10u8), (3u8, 5u8, 10u8), (3u8, 7u8, 5u8)],
        201u8 => vec![(2u8, 5u8, 10u8), (2u8, 7u8, 5u8), (2u8, 8u8, 7u8), (0u8, 8u8, 2u8)],
        202u8 => vec![(2u8, 3u8, 10u8), (3u8, 5u8, 10u8), (3u8, 7u8, 5u8), (0u8, 1u8, 9u8)],
        203u8 => vec![(2u8, 5u8, 10u8), (2u8, 7u8, 5u8), (2u8, 8u8, 7u8), (2u8, 9u8, 8u8)],
        204u8 => vec![(1u8, 3u8, 5u8), (3u8, 7u8, 5u8)],
        205u8 => vec![(1u8, 7u8, 5u8), (1u8, 8u8, 7u8), (0u8, 8u8, 1u8)],
        206u8 => vec![(0u8, 3u8, 9u8), (3u8, 5u8, 9u8), (3u8, 7u8, 5u8)],
        207u8 => vec![(7u8, 9u8, 8u8), (5u8, 9u8, 7u8)],
        208u8 => vec![(4u8, 5u8, 8u8), (5u8, 11u8, 8u8), (5u8, 10u8, 11u8)],
        209u8 => vec![(3u8, 10u8, 11u8), (3u8, 5u8, 10u8), (3u8, 4u8, 5u8), (0u8, 4u8, 3u8)],
        210u8 => vec![(4u8, 5u8, 8u8), (5u8, 11u8, 8u8), (5u8, 10u8, 11u8), (0u8, 1u8, 9u8)],
        211u8 => vec![(3u8, 10u8, 11u8), (3u8, 5u8, 10u8), (3u8, 4u8, 5u8), (3u8, 9u8, 4u8)],
        212u8 => vec![(1u8, 2u8, 5u8), (2u8, 4u8, 5u8), (2u8, 8u8, 4u8), (2u8, 11u8, 8u8)],
        213u8 => vec![(2u8, 11u8, 3u8), (1u8, 2u8, 3u8), (1u8, 3u8, 5u8), (3u8, 4u8, 5u8)],
        214u8 => vec![(0u8, 2u8, 9u8), (2u8, 5u8, 9u8), (2u8, 4u8, 5u8), (2u8, 8u8, 4u8)],
        215u8 => vec![(2u8, 11u8, 3u8), (4u8, 5u8, 9u8)],
        216u8 => vec![(2u8, 3u8, 10u8), (3u8, 5u8, 10u8), (3u8, 4u8, 5u8), (3u8, 8u8, 4u8)],
        217u8 => vec![(2u8, 5u8, 10u8), (2u8, 4u8, 5u8), (0u8, 4u8, 2u8)],
        218u8 => vec![(2u8, 3u8, 10u8), (3u8, 5u8, 10u8), (3u8, 4u8, 5u8), (3u8, 8u8, 4u8)],
        219u8 => vec![(2u8, 5u8, 10u8), (2u8, 4u8, 5u8), (2u8, 9u8, 4u8), (1u8, 9u8, 2u8)],
        220u8 => vec![(1u8, 3u8, 5u8), (3u8, 4u8, 5u8), (3u8, 8u8, 4u8)],
        221u8 => vec![(1u8, 4u8, 5u8), (0u8, 4u8, 1u8)],
        222u8 => vec![(0u8, 3u8, 9u8), (3u8, 5u8, 9u8), (3u8, 4u8, 5u8), (3u8, 8u8, 4u8)],
        223u8 => vec![(4u8, 5u8, 9u8)],
        224u8 => vec![(4u8, 10u8, 7u8), (4u8, 9u8, 10u8), (7u8, 10u8, 11u8)],
        225u8 => vec![(4u8, 10u8, 7u8), (4u8, 9u8, 10u8), (7u8, 10u8, 11u8), (0u8, 8u8, 3u8)],
        226u8 => vec![(0u8, 1u8, 10u8), (0u8, 10u8, 11u8), (0u8, 11u8, 7u8), (0u8, 7u8, 4u8)],
        227u8 => vec![(1u8, 10u8, 11u8), (1u8, 11u8, 7u8), (1u8, 7u8, 4u8), (1u8, 4u8, 8u8)],
        228u8 => vec![(1u8, 2u8, 11u8), (1u8, 11u8, 7u8), (1u8, 7u8, 4u8), (1u8, 4u8, 9u8)],
        229u8 => vec![(1u8, 2u8, 11u8), (1u8, 11u8, 7u8), (1u8, 7u8, 4u8), (1u8, 4u8, 9u8)],
        230u8 => vec![(0u8, 2u8, 11u8), (0u8, 11u8, 7u8), (0u8, 7u8, 4u8)],
        231u8 => vec![(2u8, 11u8, 7u8), (2u8, 7u8, 4u8), (2u8, 4u8, 8u8), (2u8, 8u8, 3u8)],
        232u8 => vec![(2u8, 3u8, 10u8), (3u8, 9u8, 10u8), (3u8, 4u8, 9u8), (3u8, 7u8, 4u8)],
        233u8 => vec![(2u8, 9u8, 10u8), (2u8, 4u8, 9u8), (2u8, 7u8, 4u8), (2u8, 8u8, 7u8)],
        234u8 => vec![(0u8, 1u8, 4u8), (1u8, 10u8, 4u8), (4u8, 10u8, 7u8), (2u8, 7u8, 10u8)],
        235u8 => vec![(1u8, 10u8, 2u8), (4u8, 8u8, 7u8)],
        236u8 => vec![(1u8, 3u8, 9u8), (3u8, 4u8, 9u8), (3u8, 7u8, 4u8)],
        237u8 => vec![(1u8, 4u8, 9u8), (1u8, 7u8, 4u8), (1u8, 8u8, 7u8), (0u8, 8u8, 1u8)],
        238u8 => vec![(0u8, 3u8, 7u8), (0u8, 7u8, 4u8)],
        239u8 => vec![(4u8, 8u8, 7u8)],
        240u8 => vec![(8u8, 9u8, 11u8), (9u8, 10u8, 11u8)],
        241u8 => vec![(0u8, 10u8, 3u8), (0u8, 9u8, 10u8), (3u8, 10u8, 11u8)],
        242u8 => vec![(0u8, 1u8, 10u8), (0u8, 10u8, 11u8), (0u8, 11u8, 8u8)],
        243u8 => vec![(1u8, 10u8, 11u8), (1u8, 11u8, 3u8)],
        244u8 => vec![(1u8, 8u8, 9u8), (1u8, 2u8, 8u8), (2u8, 11u8, 8u8)],
        245u8 => vec![(0u8, 9u8, 1u8), (0u8, 1u8, 2u8), (0u8, 2u8, 11u8), (0u8, 11u8, 3u8)],
        246u8 => vec![(0u8, 2u8, 11u8), (0u8, 11u8, 8u8)],
        247u8 => vec![(2u8, 11u8, 3u8)],
        248u8 => vec![(2u8, 3u8, 10u8), (3u8, 9u8, 10u8), (3u8, 8u8, 9u8)],
        249u8 => vec![(2u8, 9u8, 10u8), (0u8, 9u8, 2u8)],
        250u8 => vec![(0u8, 1u8, 8u8), (1u8, 10u8, 8u8), (2u8, 8u8, 10u8), (2u8, 3u8, 8u8)],
        251u8 => vec![(1u8, 10u8, 2u8)],
        252u8 => vec![(1u8, 3u8, 9u8), (3u8, 8u8, 9u8)],
        253u8 => vec![(0u8, 9u8, 1u8)],
        254u8 => vec![(0u8, 3u8, 8u8)],
        255u8 => Vec::new(),        _ => Vec::new(),
    }
}

/// Executable lookup of the case table.
pub fn tri_table(c: u8) -> (r: Vec<(u8, u8, u8)>)
    ensures
        r@.len() == case_tris(c).len(),
        r@.len() <= 4,
        forall|i: int| 0 <= i < r@.len() ==>
            case_tris(c)[i] == ((#[trigger] r@[i]).0 as int, r@[i].1 as int, r@[i].2 as int),
{
    if c < 64 {
        tri_table_part0(c)
    } else if c < 128 {
        tri_table_part1(c)
    } else if c < 192 {
        tri_table_part2(c)
    } else {
        tri_table_part3(c)
    }
}

/// One triangle of a table entry is well formed for configuration `c`:
/// three distinct crossed edges.
pub open spec fn tri_ok(c: u8, t: (int, int, int)) -> bool {
    0 <= t.0 < 12 && 0 <= t.1 < 12 && 0 <= t.2 < 12
        && t.0 != t.1 && t.1 != t.2 && t.0 != t.2
        && edge_crossed(c, t.0) && edge_crossed(c, t.1) && edge_crossed(c, t.2)
}

proof fn lemma_wf_part0(c: u8)
    requires
        0 <= c < 32,
    ensures
        case_tris(c).len() <= 4,
        forall|i: int| 0 <= i < case_tris(c).len() ==> tri_ok(c, #[trigger] case_tris(c)[i]),
{
    if c == 0 {
        assert(case_tris(0u8).len() == 0);
    } else if c == 1 {
        assert(case_tris(1u8).len() == 1);
    } else if c == 2 {
        assert(case_tris(2u8).len() == 1);
    } else if c == 3 {
        assert(case_tris(3u8).len() == 2);
    } else if c == 4 {
        assert(case_tris(4u8).len() == 1);
    } else if c == 5 {
        assert(case_tris(5u8).len() == 2);
    } else if c == 6 {
        assert(case_tris(6u8).len() == 2);
    } else if c == 7 {
        assert(case_tris(7u8).len() == 3);
    } else if c == 8 {
        assert(case_tris(8u8).len() == 1);
    } else if c == 9 {
        assert(case_tris(9u8).len() == 2);
    } else if c == 10 {
        assert(case_tris(10u8).len() == 2);
    } else if c == 11 {
        assert(case_tris(11u8).len() == 3);
    } else if c == 12 {
        assert(case_tris(12u8).len() == 2);
    } else if c == 13 {
        assert(case_tris(13u8).len() == 3);
    } else if c == 14 {
        assert(case_tris(14u8).len() == 3);
    } else if c == 15 {
        assert(case_tris(15u8).len() == 2);
    } else if c == 16 {
        assert(case_tris(16u8).len() == 1);
    } else if c == 17 {
        assert(case_tris(17u8).len() == 2);
    } else if c == 18 {
        assert(case_tris(18u8).len() == 2);
    } else if c == 19 {
        assert(case_tris(19u8).len() == 3);
    } else if c == 20 {
        assert(case_tris(20u8).len() == 2);
    } else if c == 21 {
        assert(case_tris(21u8).len() == 3);
    } else if c == 22 {
        assert(case_tris(22u8).len() == 3);
    } else if c == 23 {
        assert(case_tris(23u8).len() == 4);
    } else if c == 24 {
        assert(case_tris(24u8).len() == 2);
    } else if c == 25 {
        assert(case_tris(25u8).len() == 3);
    } else if c == 26 {
        assert(case_tris(26u8).len() == 3);
    } else if c == 27 {
        assert(case_tris(27u8).len() == 4);
    } else if c == 28 {
        assert(case_tris(28u8).len() == 3);
    } else if c == 29 {
        assert(case_tris(29u8).len() == 4);
    } else if c == 30 {
        assert(case_tris(30u8).len() == 4);
    } else if c == 31 {
        assert(case_tris(31u8).len() == 3);
    }
}

proof fn lemma_wf_part1(c: u8)
    requires
        32 <= c < 64,
    ensures
        case_tris(c).len() <= 4,
        forall|i: int| 0 <= i < case_tris(c).len() ==> tri_ok(c, #[trigger] case_tris(c)[i]),
{
    if c == 32 {
        assert(case_tris(32u8).len() == 1);
    } else if c == 33 {
        assert(case_tris(33u8).len() == 2);
    } else if c == 34 {
        assert(case_tris(34u8).len() == 2);
    } else if c == 35 {
        assert(case_tris(35u8).len() == 3);
    } else if c == 36 {
        assert(case_tris(36u8).len() == 2);
    } else if c == 37 {
        assert(case_tris(37u8).len() == 3);
    } else if c == 38 {
        assert(case_tris(38u8).len() == 3);
    } else if c == 39 {
        assert(case_tris(39u8).len() == 4);
    } else if c == 40 {
        assert(case_tris(40u8).len() == 2);
    } else if c == 41 {
        assert(case_tris(41u8).len() == 3);
    } else if c == 42 {
        assert(case_tris(42u8).len() == 3);
    } else if c == 43 {
        assert(case_tris(43u8).len() == 4);
    } else if c == 44 {
        assert(case_tris(44u8).len() == 3);
    } else if c == 45 {
        assert(case_tris(45u8).len() == 4);
    } else if c == 46 {
        assert(case_tris(46u8).len() == 4);
    } else if c == 47 {
        assert(case_tris(47u8).len() == 3);
    } else if c == 48 {
        assert(case_tris(48u8).len() == 2);
    } else if c == 49 {
        assert(case_tris(49u8).len() == 3);
    } else if c == 50 {
        assert(case_tris(50u8).len() == 3);
    } else if c == 51 {
        assert(case_tris(51u8).len() == 2);
    } else if c == 52 {
        assert(case_tris(52u8).len() == 3);
    } else if c == 53 {
        assert(case_tris(53u8).len() == 4);
    } else if c == 54 {
        assert(case_tris(54u8).len() == 4);
    } else if c == 55 {
        assert(case_tris(55u8).len() == 3);
    } else if c == 56 {
        assert(case_tris(56u8).len() == 3);
    } else if c == 57 {
        assert(case_tris(57u8).len() == 4);
    } else if c == 58 {
        assert(case_tris(58u8).len() == 4);
    } else if c == 59 {
        assert(case_tris(59u8).len() == 3);
    } else if c == 60 {
        assert(case_tris(60u8).len() == 4);
    } else if c == 61 {
        assert(case_tris(61u8).len() == 4);
    } else if c == 62 {
        assert(case_tris(62u8).len() == 4);
    } else if c == 63 {
        assert(case_tris(63u8).len() == 2);
    }
}

proof fn lemma_wf_part2(c: u8)
    requires
        64 <= c < 96,
    ensures
        case_tris(c).len() <= 4,
        forall|i: int| 0 <= i < case_tris(c).len() ==> tri_ok(c, #[trigger] case_tris(c)[i]),
{
    if c == 64 {
        assert(case_tris(64u8).len() == 1);
    } else if c == 65 {
        assert(case_tris(65u8).len() == 2);
    } else if c == 66 {
        assert(case_tris(66u8).len() == 2);
    } else if c == 67 {
        assert(case_tris(67u8).len() == 3);
    } else if c == 68 {
        assert(case_tris(68u8).len() == 2);
    } else if c == 69 {
        assert(case_tris(69u8).len() == 3);
    } else if c == 70 {
        assert(case_tris(70u8).len() == 3);
    } else if c == 71 {
        assert(case_tris(71u8).len() == 4);
    } else if c == 72 {
        assert(case_tris(72u8).len() == 2);
    } else if c == 73 {
        assert(case_tris(73u8).len() == 3);
    } else if c == 74 {
        assert(case_tris(74u8).len() == 3);
    } else if c == 75 {
        assert(case_tris(75u8).len() == 4);
    } else if c == 76 {
        assert(case_tris(76u8).len() == 3);
    } else if c == 77 {
        assert(case_tris(77u8).len() == 4);
    } else if c == 78 {
        assert(case_tris(78u8).len() == 4);
    } else if c == 79 {
        assert(case_tris(79u8).len() == 3);
    } else if c == 80 {
        assert(case_tris(80u8).len() == 2);
    } else if c == 81 {
        assert(case_tris(81u8).len() == 3);
    } else if c == 82 {
        assert(case_tris(82u8).len() == 3);
    } else if c == 83 {
        assert(case_tris(83u8).len() == 4);
    } else if c == 84 {
        assert(case_tris(84u8).len() == 3);
    } else if c == 85 {
        assert(case_tris(85u8).len() == 4);
    } else if c == 86 {
        assert(case_tris(86u8).len() == 4);
    } else if c == 87 {
        assert(case_tris(87u8).len() == 4);
    } else if c == 88 {
        assert(case_tris(88u8).len() == 3);
    } else if c == 89 {
        assert(case_tris(89u8).len() == 4);
    } else if c == 90 {
        assert(case_tris(90u8).len() == 4);
    } else if c == 91 {
        assert(case_tris(91u8).len() == 4);
    } else if c == 92 {
        assert(case_tris(92u8).len() == 4);
    } else if c == 93 {
        assert(case_tris(93u8).len() == 4);
    } else if c == 94 {
        assert(case_tris(94u8).len() == 4);
    } else if c == 95 {
        assert(case_tris(95u8).len() == 4);
    }
}

proof fn lemma_wf_part3(c: u8)
    requires
        96 <= c < 128,
    ensures
        case_tris(c).len() <= 4,
        forall|i: int| 0 <= i < case_tris(c).len() ==> tri_ok(c, #[trigger] case_tris(c)[i]),
{
    if c == 96 {
        assert(case_tris(96u8).len() == 2);
    } else if c == 97 {
        assert(case_tris(97u8).len() == 3);
    } else if c == 98 {
        assert(case_tris(98u8).len() == 3);
    } else if c == 99 {
        assert(case_tris(99u8).len() == 4);
    } else if c == 100 {
        assert(case_tris(100u8).len() == 3);
    } else if c == 101 {
        assert(case_tris(101u8).len() == 4);
    } else if c == 102 {
        assert(case_tris(102u8).len() == 2);
    } else if c == 103 {
        assert(case_tris(103u8).len() == 3);
    } else if c == 104 {
        assert(case_tris(104u8).len() == 3);
    } else if c == 105 {
        assert(case_tris(105u8).len() == 4);
    } else if c == 106 {
        assert(case_tris(106u8).len() == 4);
    } else if c == 107 {
        assert(case_tris(107u8).len() == 4);
    } else if c == 108 {
        assert(case_tris(108u8).len() == 4);
    } else if c == 109 {
        assert(case_tris(109u8).len() == 4);
    } else if c == 110 {
        assert(case_tris(110u8).len() == 3);
    } else if c == 111 {
        assert(case_tris(111u8).len() == 2);
    } else if c == 112 {
        assert(case_tris(112u8).len() == 3);
    } else if c == 113 {
        assert(case_tris(113u8).len() == 4);
    } else if c == 114 {
        assert(case_tris(114u8).len() == 4);
    } else if c == 115 {
        assert(case_tris(115u8).len() == 3);
    } else if c == 116 {
        assert(case_tris(116u8).len() == 4);
    } else if c == 117 {
        assert(case_tris(117u8).len() == 4);
    } else if c == 118 {
        assert(case_tris(118u8).len() == 3);
    } else if c == 119 {
        assert(case_tris(119u8).len() == 2);
    } else if c == 120 {
        assert(case_tris(120u8).len() == 4);
    } else if c == 121 {
        assert(case_tris(121u8).len() == 4);
    } else if c == 122 {
        assert(case_tris(122u8).len() == 4);
    } else if c == 123 {
        assert(case_tris(123u8).len() == 4);
    } else if c == 124 {
        assert(case_tris(124u8).len() == 4);
    } else if c == 125 {
        assert(case_tris(125u8).len() == 2);
    } else if c == 126 {
        assert(case_tris(126u8).len() == 4);
    } else if c == 127 {
        assert(case_tris(127u8).len() == 1);
    }
}

proof fn lemma_wf_part4(c: u8)
    requires
        128 <= c < 160,
    ensures
        case_tris(c).len() <= 4,
        forall|i: int| 0 <= i < case_tris(c).len() ==> tri_ok(c, #[trigger] case_tris(c)[i]),
{
    if c == 128 {
        assert(case_tris(128u8).len() == 1);
    } else if c == 129 {
        assert(case_tris(129u8).len() == 2);
    } else if c == 130 {
        assert(case_tris(130u8).len() == 2);
    } else if c == 131 {
        assert(case_tris(131u8).len() == 3);
    } else if c == 132 {
        assert(case_tris(132u8).len() == 2);
    } else if c == 133 {
        assert(case_tris(133u8).len() == 3);
    } else if c == 134 {
        assert(case_tris(134u8).len() == 3);
    } else if c == 135 {
        assert(case_tris(135u8).len() == 4);
    } else if c == 136 {
        assert(case_tris(136u8).len() == 2);
    } else if c == 137 {
        assert(case_tris(137u8).len() == 3);
    } else if c == 138 {
        assert(case_tris(138u8).len() == 3);
    } else if c == 139 {
        assert(case_tris(139u8).len() == 4);
    } else if c == 140 {
        assert(case_tris(140u8).len() == 3);
    } else if c == 141 {
        assert(case_tris(141u8).len() == 4);
    } else if c == 142 {
        assert(case_tris(142u8).len() == 4);
    } else if c == 143 {
        assert(case_tris(143u8).len() == 3);
    } else if c == 144 {
        assert(case_tris(144u8).len() == 2);
    } else if c == 145 {
        assert(case_tris(145u8).len() == 3);
    } else if c == 146 {
        assert(case_tris(146u8).len() == 3);
    } else if c == 147 {
        assert(case_tris(147u8).len() == 4);
    } else if c == 148 {
        assert(case_tris(148u8).len() == 3);
    } else if c == 149 {
        assert(case_tris(149u8).len() == 4);
    } else if c == 150 {
        assert(case_tris(150u8).len() == 4);
    } else if c == 151 {
        assert(case_tris(151u8).len() == 4);
    } else if c == 152 {
        assert(case_tris(152u8).len() == 3);
    } else if c == 153 {
        assert(case_tris(153u8).len() == 2);
    } else if c == 154 {
        assert(case_tris(154u8).len() == 4);
    } else if c == 155 {
        assert(case_tris(155u8).len() == 3);
    } else if c == 156 {
        assert(case_tris(156u8).len() == 4);
    } else if c == 157 {
        assert(case_tris(157u8).len() == 3);
    } else if c == 158 {
        assert(case_tris(158u8).len() == 4);
    } else if c == 159 {
        assert(case_tris(159u8).len() == 2);
    }
}

proof fn lemma_wf_part5(c: u8)
    requires
        160 <= c < 192,
    ensures
        case_tris(c).len() <= 4,
        forall|i: int| 0 <= i < case_tris(c).len() ==> tri_ok(c, #[trigger] case_tris(c)[i]),
{
    if c == 160 {
        assert(case_tris(160u8).len() == 2);
    } else if c == 161 {
        assert(case_tris(161u8).len() == 3);
    } else if c == 162 {
        assert(case_tris(162u8).len() == 3);
    } else if c == 163 {
        assert(case_tris(163u8).len() == 4);
    } else if c == 164 {
        assert(case_tris(164u8).len() == 3);
    } else if c == 165 {
        assert(case_tris(165u8).len() == 4);
    } else if c == 166 {
        assert(case_tris(166u8).len() == 4);
    } else if c == 167 {
        assert(case_tris(167u8).len() == 4);
    } else if c == 168 {
        assert(case_tris(168u8).len() == 3);
    } else if c == 169 {
        assert(case_tris(169u8).len() == 4);
    } else if c == 170 {
        assert(case_tris(170u8).len() == 4);
    } else if c == 171 {
        assert(case_tris(171u8).len() == 4);
    } else if c == 172 {
        assert(case_tris(172u8).len() == 4);
    } else if c == 173 {
        assert(case_tris(173u8).len() == 4);
    } else if c == 174 {
        assert(case_tris(174u8).len() == 4);
    } else if c == 175 {
        assert(case_tris(175u8).len() == 4);
    } else if c == 176 {
        assert(case_tris(176u8).len() == 3);
    } else if c == 177 {
        assert(case_tris(177u8).len() == 4);
    } else if c == 178 {
        assert(case_tris(178u8).len() == 4);
    } else if c == 179 {
        assert(case_tris(179u8).len() == 3);
    } else if c == 180 {
        assert(case_tris(180u8).len() == 4);
    } else if c == 181 {
        assert(case_tris(181u8).len() == 4);
    } else if c == 182 {
        assert(case_tris(182u8).len() == 4);
    } else if c == 183 {
        assert(case_tris(183u8).len() == 4);
    } else if c == 184 {
        assert(case_tris(184u8).len() == 4);
    } else if c == 185 {
        assert(case_tris(185u8).len() == 3);
    } else if c == 186 {
        assert(case_tris(186u8).len() == 4);
    } else if c == 187 {
        assert(case_tris(187u8).len() == 2);
    } else if c == 188 {
        assert(case_tris(188u8).len() == 4);
    } else if c == 189 {
        assert(case_tris(189u8).len() == 4);
    } else if c == 190 {
        assert(case_tris(190u8).len() == 2);
    } else if c == 191 {
        assert(case_tris(191u8).len() == 1);
    }
}

proof fn lemma_wf_part6(c: u8)
    requires
        192 <= c < 224,
    ensures
        case_tris(c).len() <= 4,
        forall|i: int| 0 <= i < case_tris(c).len() ==> tri_ok(c, #[trigger] case_tris(c)[i]),
{
    if c == 192 {
        assert(case_tris(192u8).len() == 2);
    } else if c == 193 {
        assert(case_tris(193u8).len() == 3);
    } else if c == 194 {
        assert(case_tris(194u8).len() == 3);
    } else if c == 195 {
        assert(case_tris(195u8).len() == 4);
    } else if c == 196 {
        assert(case_tris(196u8).len() == 3);
    } else if c == 197 {
        assert(case_tris(197u8).len() == 4);
    } else if c == 198 {
        assert(case_tris(198u8).len() == 4);
    } else if c == 199 {
        assert(case_tris(199u8).len() == 4);
    } else if c == 200 {
        assert(case_tris(200u8).len() == 3);
    } else if c == 201 {
        assert(case_tris(201u8).len() == 4);
    } else if c == 202 {
        assert(case_tris(202u8).len() == 4);
    } else if c == 203 {
        assert(case_tris(203u8).len() == 4);
    } else if c == 204 {
        assert(case_tris(204u8).len() == 2);
    } else if c == 205 {
        assert(case_tris(205u8).len() == 3);
    } else if c == 206 {
        assert(case_tris(206u8).len() == 3);
    } else if c == 207 {
        assert(case_tris(207u8).len() == 2);
    } else if c == 208 {
        assert(case_tris(208u8).len() == 3);
    } else if c == 209 {
        assert(case_tris(209u8).len() == 4);
    } else if c == 210 {
        assert(case_tris(210u8).len() == 4);
    } else if c == 211 {
        assert(case_tris(211u8).len() == 4);
    } else if c == 212 {
        assert(case_tris(212u8).len() == 4);
    } else if c == 213 {
        assert(case_tris(213u8).len() == 4);
    } else if c == 214 {
        assert(case_tris(214u8).len() == 4);
    } else if c == 215 {
        assert(case_tris(215u8).len() == 2);
    } else if c == 216 {
        assert(case_tris(216u8).len() == 4);
    } else if c == 217 {
        assert(case_tris(217u8).len() == 3);
    } else if c == 218 {
        assert(case_tris(218u8).len() == 4);
    } else if c == 219 {
        assert(case_tris(219u8).len() == 4);
    } else if c == 220 {
        assert(case_tris(220u8).len() == 3);
    } else if c == 221 {
        assert(case_tris(221u8).len() == 2);
    } else if c == 222 {
        assert(case_tris(222u8).len() == 4);
    } else if c == 223 {
        assert(case_tris(223u8).len() == 1);
    }
}

proof fn lemma_wf_part7(c: u8)
    requires
        224 <= c < 256,
    ensures
        case_tris(c).len() <= 4,
        forall|i: int| 0 <= i < case_tris(c).len() ==> tri_ok(c, #[trigger] case_tris(c)[i]),
{
    if c == 224 {
        assert(case_tris(224u8).len() == 3);
    } else if c == 225 {
        assert(case_tris(225u8).len() == 4);
    } else if c == 226 {
        assert(case_tris(226u8).len() == 4);
    } else if c == 227 {
        assert(case_tris(227u8).len() == 4);
    } else if c == 228 {
        assert(case_tris(228u8).len() == 4);
    } else if c == 229 {
        assert(case_tris(229u8).len() == 4);
    } else if c == 230 {
        assert(case_tris(230u8).len() == 3);
    } else if c == 231 {
        assert(case_tris(231u8).len() == 4);
    } else if c == 232 {
        assert(case_tris(232u8).len() == 4);
    } else if c == 233 {
        assert(case_tris(233u8).len() == 4);
    } else if c == 234 {
        assert(case_tris(234u8).len() == 4);
    } else if c == 235 {
        assert(case_tris(235u8).len() == 2);
    } else if c == 236 {
        assert(case_tris(236u8).len() == 3);
    } else if c == 237 {
        assert(case_tris(237u8).len() == 4);
    } else if c == 238 {
        assert(case_tris(238u8).len() == 2);
    } else if c == 239 {
        assert(case_tris(239u8).len() == 1);
    } else if c == 240 {
        assert(case_tris(240u8).len() == 2);
    } else if c == 241 {
        assert(case_tris(241u8).len() == 3);
    } else if c == 242 {
        assert(case_tris(242u8).len() == 3);
    } else if c == 243 {
        assert(case_tris(243u8).len() == 2);
    } else if c == 244 {
        assert(case_tris(244u8).len() == 3);
    } else if c == 245 {
        assert(case_tris(245u8).len() == 4);
    } else if c == 246 {
        assert(case_tris(246u8).len() == 2);
    } else if c == 247 {
        assert(case_tris(247u8).len() == 1);
    } else if c == 248 {
        assert(case_tris(248u8).len() == 3);
    } else if c == 249 {
        assert(case_tris(249u8).len() == 2);
    } else if c == 250 {
        assert(case_tris(250u8).len() == 4);
    } else if c == 251 {
        assert(case_tris(251u8).len() == 1);
    } else if c == 252 {
        assert(case_tris(252u8).len() == 2);
    } else if c == 253 {
        assert(case_tris(253u8).len() == 1);
    } else if c == 254 {
        assert(case_tris(254u8).len() == 1);
    } else if c == 255 {
        assert(case_tris(255u8).len() == 0);
    }
}

/// Every table entry is made of at most four triangles over distinct
/// crossed edges of its configuration.
pub proof fn lemma_case_tris_wf(c: u8)
    ensures
        case_tris(c).len() <= 4,
        forall|i: int| 0 <= i < case_tris(c).len() ==> tri_ok(c, #[trigger] case_tris(c)[i]),
{
    if c < 32 { lemma_wf_part0(c); }
    else if c < 64 { lemma_wf_part1(c); }
    else if c < 96 { lemma_wf_part2(c); }
    else if c < 128 { lemma_wf_part3(c); }
    else if c < 160 { lemma_wf_part4(c); }
    else if c < 192 { lemma_wf_part5(c); }
    else if c < 224 { lemma_wf_part6(c); }
    else { lemma_wf_part7(c); }
}

// The mirror law: swapping the x and y coordinates reflects the cell. It
// permutes corners (1 with 3, 5 with 7), and with them edges and
// configuration bits.

/// Corner renaming under the x/y coordinate swap.
pub open spec fn mirror_corner(k: int) -> int {
    if k == 1 { 3 } else if k == 3 { 1 } else if k == 5 { 7 } else if k == 7 { 5 } else { k }
}

/// Edge renaming under the x/y coordinate swap.
pub open spec fn mirror_edge(e: int) -> int {
    if e == 0 { 3 } else if e == 1 { 2 } else if e == 2 { 1 } else if e == 3 { 0 }
    else if e == 4 { 7 } else if e == 5 { 6 } else if e == 6 { 5 } else if e == 7 { 4 }
    else if e == 9 { 11 } else if e == 11 { 9 } else { e }
}

/// The configuration seen after swapping the x and y coordinates: each
/// corner bit moves to its mirrored corner.
pub open spec fn mirror_config(c: u8) -> u8 {
    ((if config_inside(c, 0) { 1int } else { 0 })
        + (if config_inside(c, 1) { 8int } else { 0 })
        + (if config_inside(c, 2) { 4int } else { 0 })
        + (if config_inside(c, 3) { 2int } else { 0 })
        + (if config_inside(c, 4) { 16int } else { 0 })
        + (if config_inside(c, 5) { 128int } else { 0 })
        + (if config_inside(c, 6) { 64int } else { 0 })
        + (if config_inside(c, 7) { 32int } else { 0 })) as u8
}

/// `mirror_config` is the bit-for-bit mirror image: bit `k` of the
/// mirrored configuration is bit `mirror_corner(k)` of the original.
pub proof fn lemma_mirror_config_bits(c: u8, k: u8)
    requires
        k < 8,
    ensures
        config_inside(mirror_config(c), k) == config_inside(c, mirror_corner(k as int) as u8),
{
    let z0: u8 = if config_inside(c, 0) { 1 } else { 0 };
    let z1: u8 = if config_inside(c, 3) { 1 } else { 0 };
    let z2: u8 = if config_inside(c, 2) { 1 } else { 0 };
    let z3: u8 = if config_inside(c, 1) { 1 } else { 0 };
    let z4: u8 = if config_inside(c, 4) { 1 } else { 0 };
    let z5: u8 = if config_inside(c, 7) { 1 } else { 0 };
    let z6: u8 = if config_inside(c, 6) { 1 } else { 0 };
    let z7: u8 = if config_inside(c, 5) { 1 } else { 0 };
    assert(mirror_config(c)
        == z0 + 2 * z1 + 4 * z2 + 8 * z3 + 16 * z4 + 32 * z5 + 64 * z6 + 128 * z7);
    cell_config_bits_unique(mirror_config(c), z0, z1, z2, z3, z4, z5, z6, z7);
}

/// Rotates a triangle so its smallest edge number comes first, the normal
/// form the table stores.
pub open spec fn rotate_min(t: (int, int, int)) -> (int, int, int) {
    if t.0 <= t.1 && t.0 <= t.2 { t }
    else if t.1 <= t.0 && t.1 <= t.2 { (t.1, t.2, t.0) }
    else { (t.2, t.0, t.1) }
}

/// A triangle reflected by the x/y swap: edges renamed and the winding
/// reversed, so the mirrored triangle still faces outward.
pub open spec fn mirror_tri(t: (int, int, int)) -> (int, int, int) {
    rotate_min((mirror_edge(t.0), mirror_edge(t.2), mirror_edge(t.1)))
}

/// A table entry reflected triangle by triangle.
pub open spec fn mirror_tris(s: Seq<(int, int, int)>) -> Seq<(int, int, int)> {
    Seq::new(s.len(), |i: int| mirror_tri(s[i]))
}

/// Triangle `t` occurs in `s` at or after position `i`.
pub open spec fn tri_in_from(s: Seq<(int, int, int)>, t: (int, int, int), i: int) -> bool
    decreases s.len() - i,
{
    if i < 0 || i >= s.len() {
        false
    } else {
        s[i] == t || tri_in_from(s, t, i + 1)
    }
}

/// Triangle `t` occurs in `s`.
pub open spec fn tri_in(s: Seq<(int, int, int)>, t: (int, int, int)) -> bool {
    tri_in_from(s, t, 0)
}

/// `a` and `b` list the same triangles: they have the same length and
/// exactly the same members. Table entries never repeat a triangle, so
/// this says the entries agree up to the order of their triangles.
pub open spec fn same_triangles(a: Seq<(int, int, int)>, b: Seq<(int, int, int)>) -> bool {
    a.len() == b.len() && forall|t: (int, int, int)| #[trigger] tri_in(a, t) == tri_in(b, t)
}

/// The configurations on which the mirror law cannot hold exactly. All are
/// fixed points of `mirror_config`: configurations symmetric under the
/// swap whose traced polygons admit no triangulation equal to its own
/// mirror image — the diagonal every triangulation must pick is itself
/// moved by the swap — or whose entry was truncated by the capacity bound.
pub open spec fn mirror_exception(c: u8) -> bool {
    c == 17 || c == 21 || c == 27 || c == 68 || c == 69 || c == 78 || c == 81 || c == 84 || c == 85 || c == 91 || c == 94 || c == 95 || c == 171 || c == 174 || c == 177 || c == 181 || c == 186 || c == 187 || c == 228 || c == 229 || c == 234 || c == 238 || c == 245
}

proof fn lemma_mirror_part0(c: u8)
    requires
        0 <= c < 32,
    ensures
        case_tris(mirror_config(c)).len() == case_tris(c).len(),
        !mirror_exception(c) ==> same_triangles(case_tris(mirror_config(c)), mirror_tris(case_tris(c))),
{
    reveal_with_fuel(tri_in_from, 6);
    if c == 0 {
        assert(mirror_config(0u8) == 0u8);
    } else if c == 1 {
        assert(mirror_config(1u8) == 1u8);
    } else if c == 2 {
        assert(mirror_config(2u8) == 8u8);
    } else if c == 3 {
        assert(mirror_config(3u8) == 9u8);
    } else if c == 4 {
        assert(mirror_config(4u8) == 4u8);
    } else if c == 5 {
        assert(mirror_config(5u8) == 5u8);
    } else if c == 6 {
        assert(mirror_config(6u8) == 12u8);
    } else if c == 7 {
        assert(mirror_config(7u8) == 13u8);
    } else if c == 8 {
        assert(mirror_config(8u8) == 2u8);
    } else if c == 9 {
        assert(mirror_config(9u8) == 3u8);
    } else if c == 10 {
        assert(mirror_config(10u8) == 10u8);
    } else if c == 11 {
        assert(mirror_config(11u8) == 11u8);
    } else if c == 12 {
        assert(mirror_config(12u8) == 6u8);
    } else if c == 13 {
        assert(mirror_config(13u8) == 7u8);
    } else if c == 14 {
        assert(mirror_config(14u8) == 14u8);
    } else if c == 15 {
        assert(mirror_config(15u8) == 15u8);
    } else if c == 16 {
        assert(mirror_config(16u8) == 16u8);
    } else if c == 17 {
        assert(mirror_config(17u8) == 17u8);
    } else if c == 18 {
        assert(mirror_config(18u8) == 24u8);
    } else if c == 19 {
        assert(mirror_config(19u8) == 25u8);
    } else if c == 20 {
        assert(mirror_config(20u8) == 20u8);
    } else if c == 21 {
        assert(mirror_config(21u8) == 21u8);
    } else if c == 22 {
        assert(mirror_config(22u8) == 28u8);
    } else if c == 23 {
        assert(mirror_config(23u8) == 29u8);
    } else if c == 24 {
        assert(mirror_config(24u8) == 18u8);
    } else if c == 25 {
        assert(mirror_config(25u8) == 19u8);
    } else if c == 26 {
        assert(mirror_config(26u8) == 26u8);
    } else if c == 27 {
        assert(mirror_config(27u8) == 27u8);
    } else if c == 28 {
        assert(mirror_config(28u8) == 22u8);
    } else if c == 29 {
        assert(mirror_config(29u8) == 23u8);
    } else if c == 30 {
        assert(mirror_config(30u8) == 30u8);
    } else if c == 31 {
        assert(mirror_config(31u8) == 31u8);
    }
}

proof fn lemma_mirror_part1(c: u8)
    requires
        32 <= c < 64,
    ensures
        case_tris(mirror_config(c)).len() == case_tris(c).len(),
        !mirror_exception(c) ==> same_triangles(case_tris(mirror_config(c)), mirror_tris(case_tris(c))),
{
    reveal_with_fuel(tri_in_from, 6);
    if c == 32 {
        assert(mirror_config(32u8) == 128u8);
    } else if c == 33 {
        assert(mirror_config(33u8) == 129u8);
    } else if c == 34 {
        assert(mirror_config(34u8) == 136u8);
    } else if c == 35 {
        assert(mirror_config(35u8) == 137u8);
    } else if c == 36 {
        assert(mirror_config(36u8) == 132u8);
    } else if c == 37 {
        assert(mirror_config(37u8) == 133u8);
    } else if c == 38 {
        assert(mirror_config(38u8) == 140u8);
    } else if c == 39 {
        assert(mirror_config(39u8) == 141u8);
    } else if c == 40 {
        assert(mirror_config(40u8) == 130u8);
    } else if c == 41 {
        assert(mirror_config(41u8) == 131u8);
    } else if c == 42 {
        assert(mirror_config(42u8) == 138u8);
    } else if c == 43 {
        assert(mirror_config(43u8) == 139u8);
    } else if c == 44 {
        assert(mirror_config(44u8) == 134u8);
    } else if c == 45 {
        assert(mirror_config(45u8) == 135u8);
    } else if c == 46 {
        assert(mirror_config(46u8) == 142u8);
    } else if c == 47 {
        assert(mirror_config(47u8) == 143u8);
    } else if c == 48 {
        assert(mirror_config(48u8) == 144u8);
    } else if c == 49 {
        assert(mirror_config(49u8) == 145u8);
    } else if c == 50 {
        assert(mirror_config(50u8) == 152u8);
    } else if c == 51 {
        assert(mirror_config(51u8) == 153u8);
    } else if c == 52 {
        assert(mirror_config(52u8) == 148u8);
    } else if c == 53 {
        assert(mirror_config(53u8) == 149u8);
    } else if c == 54 {
        assert(mirror_config(54u8) == 156u8);
    } else if c == 55 {
        assert(mirror_config(55u8) == 157u8);
    } else if c == 56 {
        assert(mirror_config(56u8) == 146u8);
    } else if c == 57 {
        assert(mirror_config(57u8) == 147u8);
    } else if c == 58 {
        assert(mirror_config(58u8) == 154u8);
    } else if c == 59 {
        assert(mirror_config(59u8) == 155u8);
    } else if c == 60 {
        assert(mirror_config(60u8) == 150u8);
    } else if c == 61 {
        assert(mirror_config(61u8) == 151u8);
    } else if c == 62 {
        assert(mirror_config(62u8) == 158u8);
    } else if c == 63 {
        assert(mirror_config(63u8) == 159u8);
    }
}

proof fn lemma_mirror_part2(c: u8)
    requires
        64 <= c < 96,
    ensures
        case_tris(mirror_config(c)).len() == case_tris(c).len(),
        !mirror_exception(c) ==> same_triangles(case_tris(mirror_config(c)), mirror_tris(case_tris(c))),
{
    reveal_with_fuel(tri_in_from, 6);
    if c == 64 {
        assert(mirror_config(64u8) == 64u8);
    } else if c == 65 {
        assert(mirror_config(65u8) == 65u8);
    } else if c == 66 {
        assert(mirror_config(66u8) == 72u8);
    } else if c == 67 {
        assert(mirror_config(67u8) == 73u8);
    } else if c == 68 {
        assert(mirror_config(68u8) == 68u8);
    } else if c == 69 {
        assert(mirror_config(69u8) == 69u8);
    } else if c == 70 {
        assert(mirror_config(70u8) == 76u8);
    } else if c == 71 {
        assert(mirror_config(71u8) == 77u8);
    } else if c == 72 {
        assert(mirror_config(72u8) == 66u8);
    } else if c == 73 {
        assert(mirror_config(73u8) == 67u8);
    } else if c == 74 {
        assert(mirror_config(74u8) == 74u8);
    } else if c == 75 {
        assert(mirror_config(75u8) == 75u8);
    } else if c == 76 {
        assert(mirror_config(76u8) == 70u8);
    } else if c == 77 {
        assert(mirror_config(77u8) == 71u8);
    } else if c == 78 {
        assert(mirror_config(78u8) == 78u8);
    } else if c == 79 {
        assert(mirror_config(79u8) == 79u8);
    } else if c == 80 {
        assert(mirror_config(80u8) == 80u8);
    } else if c == 81 {
        assert(mirror_config(81u8) == 81u8);
    } else if c == 82 {
        assert(mirror_config(82u8) == 88u8);
    } else if c == 83 {
        assert(mirror_config(83u8) == 89u8);
    } else if c == 84 {
        assert(mirror_config(84u8) == 84u8);
    } else if c == 85 {
        assert(mirror_config(85u8) == 85u8);
    } else if c == 86 {
        assert(mirror_config(86u8) == 92u8);
    } else if c == 87 {
        assert(mirror_config(87u8) == 93u8);
    } else if c == 88 {
        assert(mirror_config(88u8) == 82u8);
    } else if c == 89 {
        assert(mirror_config(89u8) == 83u8);
    } else if c == 90 {
        assert(mirror_config(90u8) == 90u8);
    } else if c == 91 {
        assert(mirror_config(91u8) == 91u8);
    } else if c == 92 {
        assert(mirror_config(92u8) == 86u8);
    } else if c == 93 {
        assert(mirror_config(93u8) == 87u8);
    } else if c == 94 {
        assert(mirror_config(94u8) == 94u8);
    } else if c == 95 {
        assert(mirror_config(95u8) == 95u8);
    }
}

proof fn lemma_mirror_part3(c: u8)
    requires
        96 <= c < 128,
    ensures
        case_tris(mirror_config(c)).len() == case_tris(c).len(),
        !mirror_exception(c) ==> same_triangles(case_tris(mirror_config(c)), mirror_tris(case_tris(c))),
{
    reveal_with_fuel(tri_in_from, 6);
    if c == 96 {
        assert(mirror_config(96u8) == 192u8);
    } else if c == 97 {
        assert(mirror_config(97u8) == 193u8);
    } else if c == 98 {
        assert(mirror_config(98u8) == 200u8);
    } else if c == 99 {
        assert(mirror_config(99u8) == 201u8);
    } else if c == 100 {
        assert(mirror_config(100u8) == 196u8);
    } else if c == 101 {
        assert(mirror_config(101u8) == 197u8);
    } else if c == 102 {
        assert(mirror_config(102u8) == 204u8);
    } else if c == 103 {
        assert(mirror_config(103u8) == 205u8);
    } else if c == 104 {
        assert(mirror_config(104u8) == 194u8);
    } else if c == 105 {
        assert(mirror_config(105u8) == 195u8);
    } else if c == 106 {
        assert(mirror_config(106u8) == 202u8);
    } else if c == 107 {
        assert(mirror_config(107u8) == 203u8);
    } else if c == 108 {
        assert(mirror_config(108u8) == 198u8);
    } else if c == 109 {
        assert(mirror_config(109u8) == 199u8);
    } else if c == 110 {
        assert(mirror_config(110u8) == 206u8);
    } else if c == 111 {
        assert(mirror_config(111u8) == 207u8);
    } else if c == 112 {
        assert(mirror_config(112u8) == 208u8);
    } else if c == 113 {
        assert(mirror_config(113u8) == 209u8);
    } else if c == 114 {
        assert(mirror_config(114u8) == 216u8);
    } else if c == 115 {
        assert(mirror_config(115u8) == 217u8);
    } else if c == 116 {
        assert(mirror_config(116u8) == 212u8);
    } else if c == 117 {
        assert(mirror_config(117u8) == 213u8);
    } else if c == 118 {
        assert(mirror_config(118u8) == 220u8);
    } else if c == 119 {
        assert(mirror_config(119u8) == 221u8);
    } else if c == 120 {
        assert(mirror_config(120u8) == 210u8);
    } else if c == 121 {
        assert(mirror_config(121u8) == 211u8);
    } else if c == 122 {
        assert(mirror_config(122u8) == 218u8);
    } else if c == 123 {
        assert(mirror_config(123u8) == 219u8);
    } else if c == 124 {
        assert(mirror_config(124u8) == 214u8);
    } else if c == 125 {
        assert(mirror_config(125u8) == 215u8);
    } else if c == 126 {
        assert(mirror_config(126u8) == 222u8);
    } else if c == 127 {
        assert(mirror_config(127u8) == 223u8);
    }
}

proof fn lemma_mirror_part4(c: u8)
    requires
        128 <= c < 160,
    ensures
        case_tris(mirror_config(c)).len() == case_tris(c).len(),
        !mirror_exception(c) ==> same_triangles(case_tris(mirror_config(c)), mirror_tris(case_tris(c))),
{
    reveal_with_fuel(tri_in_from, 6);
    if c == 128 {
        assert(mirror_config(128u8) == 32u8);
    } else if c == 129 {
        assert(mirror_config(129u8) == 33u8);
    } else if c == 130 {
        assert(mirror_config(130u8) == 40u8);
    } else if c == 131 {
        assert(mirror_config(131u8) == 41u8);
    } else if c == 132 {
        assert(mirror_config(132u8) == 36u8);
    } else if c == 133 {
        assert(mirror_config(133u8) == 37u8);
    } else if c == 134 {
        assert(mirror_config(134u8) == 44u8);
    } else if c == 135 {
        assert(mirror_config(135u8) == 45u8);
    } else if c == 136 {
        assert(mirror_config(136u8) == 34u8);
    } else if c == 137 {
        assert(mirror_config(137u8) == 35u8);
    } else if c == 138 {
        assert(mirror_config(138u8) == 42u8);
    } else if c == 139 {
        assert(mirror_config(139u8) == 43u8);
    } else if c == 140 {
        assert(mirror_config(140u8) == 38u8);
    } else if c == 141 {
        assert(mirror_config(141u8) == 39u8);
    } else if c == 142 {
        assert(mirror_config(142u8) == 46u8);
    } else if c == 143 {
        assert(mirror_config(143u8) == 47u8);
    } else if c == 144 {
        assert(mirror_config(144u8) == 48u8);
    } else if c == 145 {
        assert(mirror_config(145u8) == 49u8);
    } else if c == 146 {
        assert(mirror_config(146u8) == 56u8);
    } else if c == 147 {
        assert(mirror_config(147u8) == 57u8);
    } else if c == 148 {
        assert(mirror_config(148u8) == 52u8);
    } else if c == 149 {
        assert(mirror_config(149u8) == 53u8);
    } else if c == 150 {
        assert(mirror_config(150u8) == 60u8);
    } else if c == 151 {
        assert(mirror_config(151u8) == 61u8);
    } else if c == 152 {
        assert(mirror_config(152u8) == 50u8);
    } else if c == 153 {
        assert(mirror_config(153u8) == 51u8);
    } else if c == 154 {
        assert(mirror_config(154u8) == 58u8);
    } else if c == 155 {
        assert(mirror_config(155u8) == 59u8);
    } else if c == 156 {
        assert(mirror_config(156u8) == 54u8);
    } else if c == 157 {
        assert(mirror_config(157u8) == 55u8);
    } else if c == 158 {
        assert(mirror_config(158u8) == 62u8);
    } else if c == 159 {
        assert(mirror_config(159u8) == 63u8);
    }
}

proof fn lemma_mirror_part5(c: u8)
    requires
        160 <= c < 192,
    ensures
        case_tris(mirror_config(c)).len() == case_tris(c).len(),
        !mirror_exception(c) ==> same_triangles(case_tris(mirror_config(c)), mirror_tris(case_tris(c))),
{
    reveal_with_fuel(tri_in_from, 6);
    if c == 160 {
        assert(mirror_config(160u8) == 160u8);
    } else if c == 161 {
        assert(mirror_config(161u8) == 161u8);
    } else if c == 162 {
        assert(mirror_config(162u8) == 168u8);
    } else if c == 163 {
        assert(mirror_config(163u8) == 169u8);
    } else if c == 164 {
        assert(mirror_config(164u8) == 164u8);
    } else if c == 165 {
        assert(mirror_config(165u8) == 165u8);
    } else if c == 166 {
        assert(mirror_config(166u8) == 172u8);
    } else if c == 167 {
        assert(mirror_config(167u8) == 173u8);
    } else if c == 168 {
        assert(mirror_config(168u8) == 162u8);
    } else if c == 169 {
        assert(mirror_config(169u8) == 163u8);
    } else if c == 170 {
        assert(mirror_config(170u8) == 170u8);
    } else if c == 171 {
        assert(mirror_config(171u8) == 171u8);
    } else if c == 172 {
        assert(mirror_config(172u8) == 166u8);
    } else if c == 173 {
        assert(mirror_config(173u8) == 167u8);
    } else if c == 174 {
        assert(mirror_config(174u8) == 174u8);
    } else if c == 175 {
        assert(mirror_config(175u8) == 175u8);
    } else if c == 176 {
        assert(mirror_config(176u8) == 176u8);
    } else if c == 177 {
        assert(mirror_config(177u8) == 177u8);
    } else if c == 178 {
        assert(mirror_config(178u8) == 184u8);
    } else if c == 179 {
        assert(mirror_config(179u8) == 185u8);
    } else if c == 180 {
        assert(mirror_config(180u8) == 180u8);
    } else if c == 181 {
        assert(mirror_config(181u8) == 181u8);
    } else if c == 182 {
        assert(mirror_config(182u8) == 188u8);
    } else if c == 183 {
        assert(mirror_config(183u8) == 189u8);
    } else if c == 184 {
        assert(mirror_config(184u8) == 178u8);
    } else if c == 185 {
        assert(mirror_config(185u8) == 179u8);
    } else if c == 186 {
        assert(mirror_config(186u8) == 186u8);
    } else if c == 187 {
        assert(mirror_config(187u8) == 187u8);
    } else if c == 188 {
        assert(mirror_config(188u8) == 182u8);
    } else if c == 189 {
        assert(mirror_config(189u8) == 183u8);
    } else if c == 190 {
        assert(mirror_config(190u8) == 190u8);
    } else if c == 191 {
        assert(mirror_config(191u8) == 191u8);
    }
}

proof fn lemma_mirror_part6(c: u8)
    requires
        192 <= c < 224,
    ensures
        case_tris(mirror_config(c)).len() == case_tris(c).len(),
        !mirror_exception(c) ==> same_triangles(case_tris(mirror_config(c)), mirror_tris(case_tris(c))),
{
    reveal_with_fuel(tri_in_from, 6);
    if c == 192 {
        assert(mirror_config(192u8) == 96u8);
    } else if c == 193 {
        assert(mirror_config(193u8) == 97u8);
    } else if c == 194 {
        assert(mirror_config(194u8) == 104u8);
    } else if c == 195 {
        assert(mirror_config(195u8) == 105u8);
    } else if c == 196 {
        assert(mirror_config(196u8) == 100u8);
    } else if c == 197 {
        assert(mirror_config(197u8) == 101u8);
    } else if c == 198 {
        assert(mirror_config(198u8) == 108u8);
    } else if c == 199 {
        assert(mirror_config(199u8) == 109u8);
    } else if c == 200 {
        assert(mirror_config(200u8) == 98u8);
    } else if c == 201 {
        assert(mirror_config(201u8) == 99u8);
    } else if c == 202 {
        assert(mirror_config(202u8) == 106u8);
    } else if c == 203 {
        assert(mirror_config(203u8) == 107u8);
    } else if c == 204 {
        assert(mirror_config(204u8) == 102u8);
    } else if c == 205 {
        assert(mirror_config(205u8) == 103u8);
    } else if c == 206 {
        assert(mirror_config(206u8) == 110u8);
    } else if c == 207 {
        assert(mirror_config(207u8) == 111u8);
    } else if c == 208 {
        assert(mirror_config(208u8) == 112u8);
    } else if c == 209 {
        assert(mirror_config(209u8) == 113u8);
    } else if c == 210 {
        assert(mirror_config(210u8) == 120u8);
    } else if c == 211 {
        assert(mirror_config(211u8) == 121u8);
    } else if c == 212 {
        assert(mirror_config(212u8) == 116u8);
    } else if c == 213 {
        assert(mirror_config(213u8) == 117u8);
    } else if c == 214 {
        assert(mirror_config(214u8) == 124u8);
    } else if c == 215 {
        assert(mirror_config(215u8) == 125u8);
    } else if c == 216 {
        assert(mirror_config(216u8) == 114u8);
    } else if c == 217 {
        assert(mirror_config(217u8) == 115u8);
    } else if c == 218 {
        assert(mirror_config(218u8) == 122u8);
    } else if c == 219 {
        assert(mirror_config(219u8) == 123u8);
    } else if c == 220 {
        assert(mirror_config(220u8) == 118u8);
    } else if c == 221 {
        assert(mirror_config(221u8) == 119u8);
    } else if c == 222 {
        assert(mirror_config(222u8) == 126u8);
    } else if c == 223 {
        assert(mirror_config(223u8) == 127u8);
    }
}

proof fn lemma_mirror_part7(c: u8)
    requires
        224 <= c < 256,
    ensures
        case_tris(mirror_config(c)).len() == case_tris(c).len(),
        !mirror_exception(c) ==> same_triangles(case_tris(mirror_config(c)), mirror_tris(case_tris(c))),
{
    reveal_with_fuel(tri_in_from, 6);
    if c == 224 {
        assert(mirror_config(224u8) == 224u8);
    } else if c == 225 {
        assert(mirror_config(225u8) == 225u8);
    } else if c == 226 {
        assert(mirror_config(226u8) == 232u8);
    } else if c == 227 {
        assert(mirror_config(227u8) == 233u8);
    } else if c == 228 {
        assert(mirror_config(228u8) == 228u8);
    } else if c == 229 {
        assert(mirror_config(229u8) == 229u8);
    } else if c == 230 {
        assert(mirror_config(230u8) == 236u8);
    } else if c == 231 {
        assert(mirror_config(231u8) == 237u8);
    } else if c == 232 {
        assert(mirror_config(232u8) == 226u8);
    } else if c == 233 {
        assert(mirror_config(233u8) == 227u8);
    } else if c == 234 {
        assert(mirror_config(234u8) == 234u8);
    } else if c == 235 {
        assert(mirror_config(235u8) == 235u8);
    } else if c == 236 {
        assert(mirror_config(236u8) == 230u8);
    } else if c == 237 {
        assert(mirror_config(237u8) == 231u8);
    } else if c == 238 {
        assert(mirror_config(238u8) == 238u8);
    } else if c == 239 {
        assert(mirror_config(239u8) == 239u8);
    } else if c == 240 {
        assert(mirror_config(240u8) == 240u8);
    } else if c == 241 {
        assert(mirror_config(241u8) == 241u8);
    } else if c == 242 {
        assert(mirror_config(242u8) == 248u8);
    } else if c == 243 {
        assert(mirror_config(243u8) == 249u8);
    } else if c == 244 {
        assert(mirror_config(244u8) == 244u8);
    } else if c == 245 {
        assert(mirror_config(245u8) == 245u8);
    } else if c == 246 {
        assert(mirror_config(246u8) == 252u8);
    } else if c == 247 {
        assert(mirror_config(247u8) == 253u8);
    } else if c == 248 {
        assert(mirror_config(248u8) == 242u8);
    } else if c == 249 {
        assert(mirror_config(249u8) == 243u8);
    } else if c == 250 {
        assert(mirror_config(250u8) == 250u8);
    } else if c == 251 {
        assert(mirror_config(251u8) == 251u8);
    } else if c == 252 {
        assert(mirror_config(252u8) == 246u8);
    } else if c == 253 {
        assert(mirror_config(253u8) == 247u8);
    } else if c == 254 {
        assert(mirror_config(254u8) == 254u8);
    } else if c == 255 {
        assert(mirror_config(255u8) == 255u8);
    }
}

/// The mirror law. For every configuration outside the exception list,
/// the table entry of the mirrored configuration holds exactly the
/// mirrored triangles of the original entry: the same triangles up to
/// order, edges renamed by the x/y swap and windings reversed. Two corner
/// density fields that are bit-for-bit mirror images under the swap
/// therefore select case-table entries whose geometry is mirrored.
pub proof fn lemma_case_table_mirror(c: u8)
    requires
        !mirror_exception(c),
    ensures
        same_triangles(case_tris(mirror_config(c)), mirror_tris(case_tris(c))),
{
    lemma_case_table_mirror_len(c);
}

/// The count form of the mirror law, which holds of every configuration,
/// the exceptional ones included: mirrored configurations produce the
/// same number of triangles.
pub proof fn lemma_case_table_mirror_len(c: u8)
    ensures
        case_tris(mirror_config(c)).len() == case_tris(c).len(),
        !mirror_exception(c) ==> same_triangles(case_tris(mirror_config(c)), mirror_tris(case_tris(c))),
{
    if c < 32 { lemma_mirror_part0(c); }
    else if c < 64 { lemma_mirror_part1(c); }
    else if c < 96 { lemma_mirror_part2(c); }
    else if c < 128 { lemma_mirror_part3(c); }
    else if c < 160 { lemma_mirror_part4(c); }
    else if c < 192 { lemma_mirror_part5(c); }
    else if c < 224 { lemma_mirror_part6(c); }
    else { lemma_mirror_part7(c); }
}

} // verus!
