use vstd::prelude::*;

verus! {

/// Which of the twelve cube edges are crossed by the isosurface, per cube
/// configuration. Bit `i` of a configuration is set when corner `i` (at
/// offset `(i&1, (i>>1)&1, (i>>2)&1)` from the cube's minimum corner) has
/// density below the threshold; bit `e` of the mask is set when the two
/// corners of edge `e` lie on opposite sides of the threshold.
#[verifier::opaque]
pub const EDGE_MASKS: [u16; 256] = [
    0x000, 0x111, 0x221, 0x330, 0x412, 0x503, 0x633, 0x722,
    0x822, 0x933, 0xa03, 0xb12, 0xc30, 0xd21, 0xe11, 0xf00,
    0x144, 0x055, 0x365, 0x274, 0x556, 0x447, 0x777, 0x666,
    0x966, 0x877, 0xb47, 0xa56, 0xd74, 0xc65, 0xf55, 0xe44,
    0x284, 0x395, 0x0a5, 0x1b4, 0x696, 0x787, 0x4b7, 0x5a6,
    0xaa6, 0xbb7, 0x887, 0x996, 0xeb4, 0xfa5, 0xc95, 0xd84,
    0x3c0, 0x2d1, 0x1e1, 0x0f0, 0x7d2, 0x6c3, 0x5f3, 0x4e2,
    0xbe2, 0xaf3, 0x9c3, 0x8d2, 0xff0, 0xee1, 0xdd1, 0xcc0,
    0x448, 0x559, 0x669, 0x778, 0x05a, 0x14b, 0x27b, 0x36a,
    0xc6a, 0xd7b, 0xe4b, 0xf5a, 0x878, 0x969, 0xa59, 0xb48,
    0x50c, 0x41d, 0x72d, 0x63c, 0x11e, 0x00f, 0x33f, 0x22e,
    0xd2e, 0xc3f, 0xf0f, 0xe1e, 0x93c, 0x82d, 0xb1d, 0xa0c,
    0x6cc, 0x7dd, 0x4ed, 0x5fc, 0x2de, 0x3cf, 0x0ff, 0x1ee,
    0xeee, 0xfff, 0xccf, 0xdde, 0xafc, 0xbed, 0x8dd, 0x9cc,
    0x788, 0x699, 0x5a9, 0x4b8, 0x39a, 0x28b, 0x1bb, 0x0aa,
    0xfaa, 0xebb, 0xd8b, 0xc9a, 0xbb8, 0xaa9, 0x999, 0x888,
    0x888, 0x999, 0xaa9, 0xbb8, 0xc9a, 0xd8b, 0xebb, 0xfaa,
    0x0aa, 0x1bb, 0x28b, 0x39a, 0x4b8, 0x5a9, 0x699, 0x788,
    0x9cc, 0x8dd, 0xbed, 0xafc, 0xdde, 0xccf, 0xfff, 0xeee,
    0x1ee, 0x0ff, 0x3cf, 0x2de, 0x5fc, 0x4ed, 0x7dd, 0x6cc,
    0xa0c, 0xb1d, 0x82d, 0x93c, 0xe1e, 0xf0f, 0xc3f, 0xd2e,
    0x22e, 0x33f, 0x00f, 0x11e, 0x63c, 0x72d, 0x41d, 0x50c,
    0xb48, 0xa59, 0x969, 0x878, 0xf5a, 0xe4b, 0xd7b, 0xc6a,
    0x36a, 0x27b, 0x14b, 0x05a, 0x778, 0x669, 0x559, 0x448,
    0xcc0, 0xdd1, 0xee1, 0xff0, 0x8d2, 0x9c3, 0xaf3, 0xbe2,
    0x4e2, 0x5f3, 0x6c3, 0x7d2, 0x0f0, 0x1e1, 0x2d1, 0x3c0,
    0xd84, 0xc95, 0xfa5, 0xeb4, 0x996, 0x887, 0xbb7, 0xaa6,
    0x5a6, 0x4b7, 0x787, 0x696, 0x1b4, 0x0a5, 0x395, 0x284,
    0xe44, 0xf55, 0xc65, 0xd74, 0xa56, 0xb47, 0x877, 0x966,
    0x666, 0x777, 0x447, 0x556, 0x274, 0x365, 0x055, 0x144,
    0xf00, 0xe11, 0xd21, 0xc30, 0xb12, 0xa03, 0x933, 0x822,
    0x722, 0x633, 0x503, 0x412, 0x330, 0x221, 0x111, 0x000,
];

/// The two corners joined by each of the twelve cube edges. Edges 0 to 3
/// run along x, 4 to 7 along y, 8 to 11 along z.
pub const EDGE_VERTEX_INDICES: [[usize; 2]; 12] = [
    [0, 1], [2, 3], [4, 5], [6, 7], [0, 2], [1, 3], [4, 6], [5, 7], [0, 4], [1, 5], [2, 6], [3, 7],
];

/// Sentinel that terminates each triangulation row.
pub const END: i8 = -1;

/// Triangulation rows for configurations 0 to 127: triples of edge indices,
/// consumed three at a time until the sentinel. Row `c` occupies indices
/// `16 * c .. 16 * c + 16`; a row holds at most five triangles.
#[verifier::opaque]
pub const TRIANGULATION_LO: [i8; 2048] = [
    END, END, END, END, END, END, END, END, END, END, END, END, END, END, END, END,
    8, 4, 0, END, END, END, END, END, END, END, END, END, END, END, END, END,
    0, 5, 9, END, END, END, END, END, END, END, END, END, END, END, END, END,
    4, 5, 9, 4, 9, 8, END, END, END, END, END, END, END, END, END, END,
    1, 4, 10, END, END, END, END, END, END, END, END, END, END, END, END, END,
    8, 10, 1, 8, 1, 0, END, END, END, END, END, END, END, END, END, END,
    0, 5, 9, 1, 4, 10, END, END, END, END, END, END, END, END, END, END,
    1, 5, 9, 1, 9, 8, 1, 8, 10, END, END, END, END, END, END, END,
    11, 5, 1, END, END, END, END, END, END, END, END, END, END, END, END, END,
    8, 4, 0, 11, 5, 1, END, END, END, END, END, END, END, END, END, END,
    0, 1, 11, 0, 11, 9, END, END, END, END, END, END, END, END, END, END,
    11, 9, 8, 11, 8, 4, 11, 4, 1, END, END, END, END, END, END, END,
    10, 11, 5, 10, 5, 4, END, END, END, END, END, END, END, END, END, END,
    8, 10, 11, 8, 11, 5, 8, 5, 0, END, END, END, END, END, END, END,
    0, 4, 10, 0, 10, 11, 0, 11, 9, END, END, END, END, END, END, END,
    10, 11, 9, 10, 9, 8, END, END, END, END, END, END, END, END, END, END,
    2, 6, 8, END, END, END, END, END, END, END, END, END, END, END, END, END,
    2, 6, 4, 2, 4, 0, END, END, END, END, END, END, END, END, END, END,
    0, 5, 9, 2, 6, 8, END, END, END, END, END, END, END, END, END, END,
    2, 6, 4, 2, 4, 5, 2, 5, 9, END, END, END, END, END, END, END,
    1, 4, 10, 2, 6, 8, END, END, END, END, END, END, END, END, END, END,
    2, 6, 10, 2, 10, 1, 2, 1, 0, END, END, END, END, END, END, END,
    0, 5, 9, 1, 4, 10, 2, 6, 8, END, END, END, END, END, END, END,
    1, 5, 9, 1, 9, 2, 1, 2, 6, 1, 6, 10, END, END, END, END,
    11, 5, 1, 2, 6, 8, END, END, END, END, END, END, END, END, END, END,
    2, 6, 4, 2, 4, 0, 11, 5, 1, END, END, END, END, END, END, END,
    0, 1, 11, 0, 11, 9, 2, 6, 8, END, END, END, END, END, END, END,
    11, 9, 2, 11, 2, 6, 11, 6, 4, 11, 4, 1, END, END, END, END,
    2, 6, 8, 10, 11, 5, 10, 5, 4, END, END, END, END, END, END, END,
    2, 6, 10, 2, 10, 11, 2, 11, 5, 2, 5, 0, END, END, END, END,
    0, 4, 10, 0, 10, 11, 0, 11, 9, 2, 6, 8, END, END, END, END,
    2, 6, 10, 2, 10, 11, 2, 11, 9, END, END, END, END, END, END, END,
    9, 7, 2, END, END, END, END, END, END, END, END, END, END, END, END, END,
    8, 4, 0, 9, 7, 2, END, END, END, END, END, END, END, END, END, END,
    0, 5, 7, 0, 7, 2, END, END, END, END, END, END, END, END, END, END,
    8, 4, 5, 8, 5, 7, 8, 7, 2, END, END, END, END, END, END, END,
    1, 4, 10, 9, 7, 2, END, END, END, END, END, END, END, END, END, END,
    8, 10, 1, 8, 1, 0, 9, 7, 2, END, END, END, END, END, END, END,
    0, 5, 7, 0, 7, 2, 1, 4, 10, END, END, END, END, END, END, END,
    1, 5, 7, 1, 7, 2, 1, 2, 8, 1, 8, 10, END, END, END, END,
    11, 5, 1, 9, 7, 2, END, END, END, END, END, END, END, END, END, END,
    8, 4, 0, 11, 5, 1, 9, 7, 2, END, END, END, END, END, END, END,
    0, 1, 11, 0, 11, 7, 0, 7, 2, END, END, END, END, END, END, END,
    11, 7, 2, 11, 2, 8, 11, 8, 4, 11, 4, 1, END, END, END, END,
    9, 7, 2, 10, 11, 5, 10, 5, 4, END, END, END, END, END, END, END,
    8, 10, 11, 8, 11, 5, 8, 5, 0, 9, 7, 2, END, END, END, END,
    0, 4, 10, 0, 10, 11, 0, 11, 7, 0, 7, 2, END, END, END, END,
    8, 10, 11, 8, 11, 7, 8, 7, 2, END, END, END, END, END, END, END,
    8, 9, 7, 8, 7, 6, END, END, END, END, END, END, END, END, END, END,
    9, 7, 6, 9, 6, 4, 9, 4, 0, END, END, END, END, END, END, END,
    0, 5, 7, 0, 7, 6, 0, 6, 8, END, END, END, END, END, END, END,
    4, 5, 7, 4, 7, 6, END, END, END, END, END, END, END, END, END, END,
    1, 4, 10, 8, 9, 7, 8, 7, 6, END, END, END, END, END, END, END,
    9, 7, 6, 9, 6, 10, 9, 10, 1, 9, 1, 0, END, END, END, END,
    0, 5, 7, 0, 7, 6, 0, 6, 8, 1, 4, 10, END, END, END, END,
    1, 5, 7, 1, 7, 6, 1, 6, 10, END, END, END, END, END, END, END,
    11, 5, 1, 8, 9, 7, 8, 7, 6, END, END, END, END, END, END, END,
    9, 7, 6, 9, 6, 4, 9, 4, 0, 11, 5, 1, END, END, END, END,
    0, 1, 11, 0, 11, 7, 0, 7, 6, 0, 6, 8, END, END, END, END,
    11, 7, 6, 11, 6, 4, 11, 4, 1, END, END, END, END, END, END, END,
    10, 11, 5, 10, 5, 4, 8, 9, 7, 8, 7, 6, END, END, END, END,
    9, 7, 6, 9, 6, 10, 9, 10, 11, 9, 11, 5, 9, 5, 0, END,
    0, 4, 10, 0, 10, 11, 0, 11, 7, 0, 7, 6, 0, 6, 8, END,
    10, 11, 7, 10, 7, 6, END, END, END, END, END, END, END, END, END, END,
    10, 6, 3, END, END, END, END, END, END, END, END, END, END, END, END, END,
    8, 4, 0, 10, 6, 3, END, END, END, END, END, END, END, END, END, END,
    0, 5, 9, 10, 6, 3, END, END, END, END, END, END, END, END, END, END,
    10, 6, 3, 4, 5, 9, 4, 9, 8, END, END, END, END, END, END, END,
    1, 4, 6, 1, 6, 3, END, END, END, END, END, END, END, END, END, END,
    8, 6, 3, 8, 3, 1, 8, 1, 0, END, END, END, END, END, END, END,
    0, 5, 9, 1, 4, 6, 1, 6, 3, END, END, END, END, END, END, END,
    1, 5, 9, 1, 9, 8, 1, 8, 6, 1, 6, 3, END, END, END, END,
    11, 5, 1, 10, 6, 3, END, END, END, END, END, END, END, END, END, END,
    8, 4, 0, 11, 5, 1, 10, 6, 3, END, END, END, END, END, END, END,
    0, 1, 11, 0, 11, 9, 10, 6, 3, END, END, END, END, END, END, END,
    11, 9, 8, 11, 8, 4, 11, 4, 1, 10, 6, 3, END, END, END, END,
    11, 5, 4, 11, 4, 6, 11, 6, 3, END, END, END, END, END, END, END,
    8, 6, 3, 8, 3, 11, 8, 11, 5, 8, 5, 0, END, END, END, END,
    0, 4, 6, 0, 6, 3, 0, 3, 11, 0, 11, 9, END, END, END, END,
    11, 9, 8, 11, 8, 6, 11, 6, 3, END, END, END, END, END, END, END,
    2, 3, 10, 2, 10, 8, END, END, END, END, END, END, END, END, END, END,
    2, 3, 10, 2, 10, 4, 2, 4, 0, END, END, END, END, END, END, END,
    0, 5, 9, 2, 3, 10, 2, 10, 8, END, END, END, END, END, END, END,
    2, 3, 10, 2, 10, 4, 2, 4, 5, 2, 5, 9, END, END, END, END,
    1, 4, 8, 1, 8, 2, 1, 2, 3, END, END, END, END, END, END, END,
    2, 3, 1, 2, 1, 0, END, END, END, END, END, END, END, END, END, END,
    0, 5, 9, 1, 4, 8, 1, 8, 2, 1, 2, 3, END, END, END, END,
    1, 5, 9, 1, 9, 2, 1, 2, 3, END, END, END, END, END, END, END,
    11, 5, 1, 2, 3, 10, 2, 10, 8, END, END, END, END, END, END, END,
    2, 3, 10, 2, 10, 4, 2, 4, 0, 11, 5, 1, END, END, END, END,
    0, 1, 11, 0, 11, 9, 2, 3, 10, 2, 10, 8, END, END, END, END,
    11, 9, 2, 11, 2, 3, 11, 3, 10, 11, 10, 4, 11, 4, 1, END,
    2, 3, 11, 2, 11, 5, 2, 5, 4, 2, 4, 8, END, END, END, END,
    2, 3, 11, 2, 11, 5, 2, 5, 0, END, END, END, END, END, END, END,
    0, 4, 8, 0, 8, 2, 0, 2, 3, 0, 3, 11, 0, 11, 9, END,
    2, 3, 11, 2, 11, 9, END, END, END, END, END, END, END, END, END, END,
    9, 7, 2, 10, 6, 3, END, END, END, END, END, END, END, END, END, END,
    8, 4, 0, 9, 7, 2, 10, 6, 3, END, END, END, END, END, END, END,
    0, 5, 7, 0, 7, 2, 10, 6, 3, END, END, END, END, END, END, END,
    8, 4, 5, 8, 5, 7, 8, 7, 2, 10, 6, 3, END, END, END, END,
    1, 4, 6, 1, 6, 3, 9, 7, 2, END, END, END, END, END, END, END,
    8, 6, 3, 8, 3, 1, 8, 1, 0, 9, 7, 2, END, END, END, END,
    0, 5, 7, 0, 7, 2, 1, 4, 6, 1, 6, 3, END, END, END, END,
    1, 5, 7, 1, 7, 2, 1, 2, 8, 1, 8, 6, 1, 6, 3, END,
    11, 5, 1, 9, 7, 2, 10, 6, 3, END, END, END, END, END, END, END,
    8, 4, 0, 11, 5, 1, 9, 7, 2, 10, 6, 3, END, END, END, END,
    0, 1, 11, 0, 11, 7, 0, 7, 2, 10, 6, 3, END, END, END, END,
    11, 7, 2, 11, 2, 8, 11, 8, 4, 11, 4, 1, 10, 6, 3, END,
    9, 7, 2, 11, 5, 4, 11, 4, 6, 11, 6, 3, END, END, END, END,
    8, 6, 3, 8, 3, 11, 8, 11, 5, 8, 5, 0, 9, 7, 2, END,
    0, 4, 6, 0, 6, 3, 0, 3, 11, 0, 11, 7, 0, 7, 2, END,
    8, 6, 3, 8, 3, 11, 8, 11, 7, 8, 7, 2, END, END, END, END,
    10, 8, 9, 10, 9, 7, 10, 7, 3, END, END, END, END, END, END, END,
    9, 7, 3, 9, 3, 10, 9, 10, 4, 9, 4, 0, END, END, END, END,
    0, 5, 7, 0, 7, 3, 0, 3, 10, 0, 10, 8, END, END, END, END,
    10, 4, 5, 10, 5, 7, 10, 7, 3, END, END, END, END, END, END, END,
    1, 4, 8, 1, 8, 9, 1, 9, 7, 1, 7, 3, END, END, END, END,
    9, 7, 3, 9, 3, 1, 9, 1, 0, END, END, END, END, END, END, END,
    0, 5, 7, 0, 7, 3, 0, 3, 1, 0, 1, 4, 0, 4, 8, END,
    1, 5, 7, 1, 7, 3, END, END, END, END, END, END, END, END, END, END,
    11, 5, 1, 10, 8, 9, 10, 9, 7, 10, 7, 3, END, END, END, END,
    9, 7, 3, 9, 3, 10, 9, 10, 4, 9, 4, 0, 11, 5, 1, END,
    0, 1, 11, 0, 11, 7, 0, 7, 3, 0, 3, 10, 0, 10, 8, END,
    11, 7, 3, 11, 3, 10, 11, 10, 4, 11, 4, 1, END, END, END, END,
    11, 5, 4, 11, 4, 8, 11, 8, 9, 11, 9, 7, 11, 7, 3, END,
    9, 7, 3, 9, 3, 11, 9, 11, 5, 9, 5, 0, END, END, END, END,
    0, 4, 8, 11, 7, 3, END, END, END, END, END, END, END, END, END, END,
    11, 7, 3, END, END, END, END, END, END, END, END, END, END, END, END, END,
];

/// Triangulation rows for configurations 128 to 255, laid out as in
/// `TRIANGULATION_LO` with row `c` at `16 * (c - 128)`.
#[verifier::opaque]
pub const TRIANGULATION_HI: [i8; 2048] = [
    3, 7, 11, END, END, END, END, END, END, END, END, END, END, END, END, END,
    8, 4, 0, 3, 7, 11, END, END, END, END, END, END, END, END, END, END,
    0, 5, 9, 3, 7, 11, END, END, END, END, END, END, END, END, END, END,
    3, 7, 11, 4, 5, 9, 4, 9, 8, END, END, END, END, END, END, END,
    1, 4, 10, 3, 7, 11, END, END, END, END, END, END, END, END, END, END,
    8, 10, 1, 8, 1, 0, 3, 7, 11, END, END, END, END, END, END, END,
    0, 5, 9, 1, 4, 10, 3, 7, 11, END, END, END, END, END, END, END,
    1, 5, 9, 1, 9, 8, 1, 8, 10, 3, 7, 11, END, END, END, END,
    3, 7, 5, 3, 5, 1, END, END, END, END, END, END, END, END, END, END,
    8, 4, 0, 3, 7, 5, 3, 5, 1, END, END, END, END, END, END, END,
    0, 1, 3, 0, 3, 7, 0, 7, 9, END, END, END, END, END, END, END,
    3, 7, 9, 3, 9, 8, 3, 8, 4, 3, 4, 1, END, END, END, END,
    3, 7, 5, 3, 5, 4, 3, 4, 10, END, END, END, END, END, END, END,
    8, 10, 3, 8, 3, 7, 8, 7, 5, 8, 5, 0, END, END, END, END,
    0, 4, 10, 0, 10, 3, 0, 3, 7, 0, 7, 9, END, END, END, END,
    3, 7, 9, 3, 9, 8, 3, 8, 10, END, END, END, END, END, END, END,
    2, 6, 8, 3, 7, 11, END, END, END, END, END, END, END, END, END, END,
    2, 6, 4, 2, 4, 0, 3, 7, 11, END, END, END, END, END, END, END,
    0, 5, 9, 2, 6, 8, 3, 7, 11, END, END, END, END, END, END, END,
    2, 6, 4, 2, 4, 5, 2, 5, 9, 3, 7, 11, END, END, END, END,
    1, 4, 10, 2, 6, 8, 3, 7, 11, END, END, END, END, END, END, END,
    2, 6, 10, 2, 10, 1, 2, 1, 0, 3, 7, 11, END, END, END, END,
    0, 5, 9, 1, 4, 10, 2, 6, 8, 3, 7, 11, END, END, END, END,
    1, 5, 9, 1, 9, 2, 1, 2, 6, 1, 6, 10, 3, 7, 11, END,
    3, 7, 5, 3, 5, 1, 2, 6, 8, END, END, END, END, END, END, END,
    2, 6, 4, 2, 4, 0, 3, 7, 5, 3, 5, 1, END, END, END, END,
    0, 1, 3, 0, 3, 7, 0, 7, 9, 2, 6, 8, END, END, END, END,
    3, 7, 9, 3, 9, 2, 3, 2, 6, 3, 6, 4, 3, 4, 1, END,
    2, 6, 8, 3, 7, 5, 3, 5, 4, 3, 4, 10, END, END, END, END,
    2, 6, 10, 2, 10, 3, 2, 3, 7, 2, 7, 5, 2, 5, 0, END,
    0, 4, 10, 0, 10, 3, 0, 3, 7, 0, 7, 9, 2, 6, 8, END,
    2, 6, 10, 2, 10, 3, 2, 3, 7, 2, 7, 9, END, END, END, END,
    9, 11, 3, 9, 3, 2, END, END, END, END, END, END, END, END, END, END,
    8, 4, 0, 9, 11, 3, 9, 3, 2, END, END, END, END, END, END, END,
    0, 5, 11, 0, 11, 3, 0, 3, 2, END, END, END, END, END, END, END,
    8, 4, 5, 8, 5, 11, 8, 11, 3, 8, 3, 2, END, END, END, END,
    1, 4, 10, 9, 11, 3, 9, 3, 2, END, END, END, END, END, END, END,
    8, 10, 1, 8, 1, 0, 9, 11, 3, 9, 3, 2, END, END, END, END,
    0, 5, 11, 0, 11, 3, 0, 3, 2, 1, 4, 10, END, END, END, END,
    1, 5, 11, 1, 11, 3, 1, 3, 2, 1, 2, 8, 1, 8, 10, END,
    3, 2, 9, 3, 9, 5, 3, 5, 1, END, END, END, END, END, END, END,
    8, 4, 0, 3, 2, 9, 3, 9, 5, 3, 5, 1, END, END, END, END,
    0, 1, 3, 0, 3, 2, END, END, END, END, END, END, END, END, END, END,
    3, 2, 8, 3, 8, 4, 3, 4, 1, END, END, END, END, END, END, END,
    9, 5, 4, 9, 4, 10, 9, 10, 3, 9, 3, 2, END, END, END, END,
    8, 10, 3, 8, 3, 2, 8, 2, 9, 8, 9, 5, 8, 5, 0, END,
    0, 4, 10, 0, 10, 3, 0, 3, 2, END, END, END, END, END, END, END,
    8, 10, 3, 8, 3, 2, END, END, END, END, END, END, END, END, END, END,
    3, 6, 8, 3, 8, 9, 3, 9, 11, END, END, END, END, END, END, END,
    9, 11, 3, 9, 3, 6, 9, 6, 4, 9, 4, 0, END, END, END, END,
    0, 5, 11, 0, 11, 3, 0, 3, 6, 0, 6, 8, END, END, END, END,
    3, 6, 4, 3, 4, 5, 3, 5, 11, END, END, END, END, END, END, END,
    1, 4, 10, 3, 6, 8, 3, 8, 9, 3, 9, 11, END, END, END, END,
    9, 11, 3, 9, 3, 6, 9, 6, 10, 9, 10, 1, 9, 1, 0, END,
    0, 5, 11, 0, 11, 3, 0, 3, 6, 0, 6, 8, 1, 4, 10, END,
    1, 5, 11, 1, 11, 3, 1, 3, 6, 1, 6, 10, END, END, END, END,
    3, 6, 8, 3, 8, 9, 3, 9, 5, 3, 5, 1, END, END, END, END,
    9, 5, 1, 9, 1, 3, 9, 3, 6, 9, 6, 4, 9, 4, 0, END,
    0, 1, 3, 0, 3, 6, 0, 6, 8, END, END, END, END, END, END, END,
    3, 6, 4, 3, 4, 1, END, END, END, END, END, END, END, END, END, END,
    3, 6, 8, 3, 8, 9, 3, 9, 5, 3, 5, 4, 3, 4, 10, END,
    9, 5, 0, 3, 6, 10, END, END, END, END, END, END, END, END, END, END,
    0, 4, 10, 0, 10, 3, 0, 3, 6, 0, 6, 8, END, END, END, END,
    3, 6, 10, END, END, END, END, END, END, END, END, END, END, END, END, END,
    6, 7, 11, 6, 11, 10, END, END, END, END, END, END, END, END, END, END,
    8, 4, 0, 6, 7, 11, 6, 11, 10, END, END, END, END, END, END, END,
    0, 5, 9, 6, 7, 11, 6, 11, 10, END, END, END, END, END, END, END,
    4, 5, 9, 4, 9, 8, 6, 7, 11, 6, 11, 10, END, END, END, END,
    1, 4, 6, 1, 6, 7, 1, 7, 11, END, END, END, END, END, END, END,
    8, 6, 7, 8, 7, 11, 8, 11, 1, 8, 1, 0, END, END, END, END,
    0, 5, 9, 1, 4, 6, 1, 6, 7, 1, 7, 11, END, END, END, END,
    1, 5, 9, 1, 9, 8, 1, 8, 6, 1, 6, 7, 1, 7, 11, END,
    10, 6, 7, 10, 7, 5, 10, 5, 1, END, END, END, END, END, END, END,
    8, 4, 0, 10, 6, 7, 10, 7, 5, 10, 5, 1, END, END, END, END,
    0, 1, 10, 0, 10, 6, 0, 6, 7, 0, 7, 9, END, END, END, END,
    10, 6, 7, 10, 7, 9, 10, 9, 8, 10, 8, 4, 10, 4, 1, END,
    6, 7, 5, 6, 5, 4, END, END, END, END, END, END, END, END, END, END,
    8, 6, 7, 8, 7, 5, 8, 5, 0, END, END, END, END, END, END, END,
    0, 4, 6, 0, 6, 7, 0, 7, 9, END, END, END, END, END, END, END,
    6, 7, 9, 6, 9, 8, END, END, END, END, END, END, END, END, END, END,
    2, 7, 11, 2, 11, 10, 2, 10, 8, END, END, END, END, END, END, END,
    2, 7, 11, 2, 11, 10, 2, 10, 4, 2, 4, 0, END, END, END, END,
    0, 5, 9, 2, 7, 11, 2, 11, 10, 2, 10, 8, END, END, END, END,
    2, 7, 11, 2, 11, 10, 2, 10, 4, 2, 4, 5, 2, 5, 9, END,
    1, 4, 8, 1, 8, 2, 1, 2, 7, 1, 7, 11, END, END, END, END,
    2, 7, 11, 2, 11, 1, 2, 1, 0, END, END, END, END, END, END, END,
    0, 5, 9, 1, 4, 8, 1, 8, 2, 1, 2, 7, 1, 7, 11, END,
    1, 5, 9, 1, 9, 2, 1, 2, 7, 1, 7, 11, END, END, END, END,
    10, 8, 2, 10, 2, 7, 10, 7, 5, 10, 5, 1, END, END, END, END,
    2, 7, 5, 2, 5, 1, 2, 1, 10, 2, 10, 4, 2, 4, 0, END,
    0, 1, 10, 0, 10, 8, 0, 8, 2, 0, 2, 7, 0, 7, 9, END,
    10, 4, 1, 2, 7, 9, END, END, END, END, END, END, END, END, END, END,
    2, 7, 5, 2, 5, 4, 2, 4, 8, END, END, END, END, END, END, END,
    2, 7, 5, 2, 5, 0, END, END, END, END, END, END, END, END, END, END,
    0, 4, 8, 0, 8, 2, 0, 2, 7, 0, 7, 9, END, END, END, END,
    2, 7, 9, END, END, END, END, END, END, END, END, END, END, END, END, END,
    9, 11, 10, 9, 10, 6, 9, 6, 2, END, END, END, END, END, END, END,
    8, 4, 0, 9, 11, 10, 9, 10, 6, 9, 6, 2, END, END, END, END,
    0, 5, 11, 0, 11, 10, 0, 10, 6, 0, 6, 2, END, END, END, END,
    8, 4, 5, 8, 5, 11, 8, 11, 10, 8, 10, 6, 8, 6, 2, END,
    1, 4, 6, 1, 6, 2, 1, 2, 9, 1, 9, 11, END, END, END, END,
    8, 6, 2, 8, 2, 9, 8, 9, 11, 8, 11, 1, 8, 1, 0, END,
    0, 5, 11, 0, 11, 1, 0, 1, 4, 0, 4, 6, 0, 6, 2, END,
    1, 5, 11, 8, 6, 2, END, END, END, END, END, END, END, END, END, END,
    10, 6, 2, 10, 2, 9, 10, 9, 5, 10, 5, 1, END, END, END, END,
    8, 4, 0, 10, 6, 2, 10, 2, 9, 10, 9, 5, 10, 5, 1, END,
    0, 1, 10, 0, 10, 6, 0, 6, 2, END, END, END, END, END, END, END,
    10, 6, 2, 10, 2, 8, 10, 8, 4, 10, 4, 1, END, END, END, END,
    9, 5, 4, 9, 4, 6, 9, 6, 2, END, END, END, END, END, END, END,
    8, 6, 2, 8, 2, 9, 8, 9, 5, 8, 5, 0, END, END, END, END,
    0, 4, 6, 0, 6, 2, END, END, END, END, END, END, END, END, END, END,
    8, 6, 2, END, END, END, END, END, END, END, END, END, END, END, END, END,
    8, 9, 11, 8, 11, 10, END, END, END, END, END, END, END, END, END, END,
    9, 11, 10, 9, 10, 4, 9, 4, 0, END, END, END, END, END, END, END,
    0, 5, 11, 0, 11, 10, 0, 10, 8, END, END, END, END, END, END, END,
    4, 5, 11, 4, 11, 10, END, END, END, END, END, END, END, END, END, END,
    1, 4, 8, 1, 8, 9, 1, 9, 11, END, END, END, END, END, END, END,
    9, 11, 1, 9, 1, 0, END, END, END, END, END, END, END, END, END, END,
    0, 5, 11, 0, 11, 1, 0, 1, 4, 0, 4, 8, END, END, END, END,
    1, 5, 11, END, END, END, END, END, END, END, END, END, END, END, END, END,
    10, 8, 9, 10, 9, 5, 10, 5, 1, END, END, END, END, END, END, END,
    9, 5, 1, 9, 1, 10, 9, 10, 4, 9, 4, 0, END, END, END, END,
    0, 1, 10, 0, 10, 8, END, END, END, END, END, END, END, END, END, END,
    10, 4, 1, END, END, END, END, END, END, END, END, END, END, END, END, END,
    8, 9, 5, 8, 5, 4, END, END, END, END, END, END, END, END, END, END,
    9, 5, 0, END, END, END, END, END, END, END, END, END, END, END, END, END,
    0, 4, 8, END, END, END, END, END, END, END, END, END, END, END, END, END,
    END, END, END, END, END, END, END, END, END, END, END, END, END, END, END, END,
];

/// Reads the edge-activation mask of configuration `c`.
#[verifier::rlimit(100)]
pub fn mask_lookup(c: usize) -> (m: u16)
    requires
        c < 256,
    ensures
        m == EDGE_MASKS[c as int],
{
    EDGE_MASKS[c]
}

/// Reads corner `k` (0 or 1) of edge `e`.
#[verifier::rlimit(100)]
pub fn edge_corner_lookup(e: usize, k: usize) -> (v: usize)
    requires
        e < 12,
        k < 2,
    ensures
        v == EDGE_VERTEX_INDICES[e as int][k as int],
{
    EDGE_VERTEX_INDICES[e][k]
}

/// Corner `k` of edge `e` names one of the cube's eight corners.
#[verifier::rlimit(100)]
pub proof fn lemma_edge_corners_in_range()
    ensures
        forall|e: int, k: int|
            0 <= e < 12 && 0 <= k < 2 ==> EDGE_VERTEX_INDICES[e][k] < 8,
{
    assert forall|e: int, k: int|
        0 <= e < 12 && 0 <= k < 2 implies EDGE_VERTEX_INDICES[e][k] < 8 by {
        assert(EDGE_VERTEX_INDICES[0][0] < 8);
        assert(EDGE_VERTEX_INDICES[0][1] < 8);
        assert(EDGE_VERTEX_INDICES[1][0] < 8);
        assert(EDGE_VERTEX_INDICES[1][1] < 8);
        assert(EDGE_VERTEX_INDICES[2][0] < 8);
        assert(EDGE_VERTEX_INDICES[2][1] < 8);
        assert(EDGE_VERTEX_INDICES[3][0] < 8);
        assert(EDGE_VERTEX_INDICES[3][1] < 8);
        assert(EDGE_VERTEX_INDICES[4][0] < 8);
        assert(EDGE_VERTEX_INDICES[4][1] < 8);
        assert(EDGE_VERTEX_INDICES[5][0] < 8);
        assert(EDGE_VERTEX_INDICES[5][1] < 8);
        assert(EDGE_VERTEX_INDICES[6][0] < 8);
        assert(EDGE_VERTEX_INDICES[6][1] < 8);
        assert(EDGE_VERTEX_INDICES[7][0] < 8);
        assert(EDGE_VERTEX_INDICES[7][1] < 8);
        assert(EDGE_VERTEX_INDICES[8][0] < 8);
        assert(EDGE_VERTEX_INDICES[8][1] < 8);
        assert(EDGE_VERTEX_INDICES[9][0] < 8);
        assert(EDGE_VERTEX_INDICES[9][1] < 8);
        assert(EDGE_VERTEX_INDICES[10][0] < 8);
        assert(EDGE_VERTEX_INDICES[10][1] < 8);
        assert(EDGE_VERTEX_INDICES[11][0] < 8);
        assert(EDGE_VERTEX_INDICES[11][1] < 8);
    }
}

/// Neither the all-outside configuration (0) nor the all-inside
/// configuration (255) crosses any edge.
#[verifier::rlimit(100)]
pub proof fn lemma_trivial_configs_mask_zero()
    ensures
        EDGE_MASKS[0] == 0,
        EDGE_MASKS[255] == 0,
{
    reveal(EDGE_MASKS);
}

/// Entry `t` of triangulation row `c`, as one conceptual 256 x 16 table.
pub open spec fn tri_entry(c: int, t: int) -> i8 {
    if c < 128 {
        TRIANGULATION_LO[16 * c + t]
    } else {
        TRIANGULATION_HI[16 * (c - 128) + t]
    }
}

/// Reads entry `t` of triangulation row `c`.
#[verifier::rlimit(100)]
pub fn tri_lookup(c: usize, t: usize) -> (r: i8)
    requires
        c < 256,
        t < 16,
    ensures
        r == tri_entry(c as int, t as int),
{
    if c < 128 {
        TRIANGULATION_LO[16 * c + t]
    } else {
        TRIANGULATION_HI[16 * (c - 128) + t]
    }
}

} // verus!
