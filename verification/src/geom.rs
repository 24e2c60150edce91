//! Geometry utilities: the strict segment-crossing test used for
//! rectangle-overlap detection, over centipixel integer coordinates.

use vstd::prelude::*;

verus! {

/// Largest coordinate magnitude the exec geometry accepts: products of
/// coordinate differences must stay within `i64`.
pub const GEOM_LIMIT: i64 = 1100000000;

/// The cross product of `(b - a)` and `(c - a)`, up to sign: positive
/// exactly when the triple `(a, b, c)` winds one way, negative the other,
/// zero when collinear.
pub open spec fn orient_val(a: (int, int), b: (int, int), c: (int, int)) -> int {
    (c.1 - a.1) * (b.0 - a.0) - (b.1 - a.1) * (c.0 - a.0)
}

/// Strict orientation test of the point triple `(a, b, c)`.
pub open spec fn ccw_spec(a: (int, int), b: (int, int), c: (int, int)) -> bool {
    orient_val(a, b, c) > 0
}

/// Widens a centipixel point to mathematical integers.
pub open spec fn pti(p: (i64, i64)) -> (int, int) {
    (p.0 as int, p.1 as int)
}

/// True when a point's coordinates are within the geometry limit.
pub open spec fn pt_in_range(p: (i64, i64)) -> bool {
    -GEOM_LIMIT <= p.0 <= GEOM_LIMIT && -GEOM_LIMIT <= p.1 <= GEOM_LIMIT
}

/// Orientation test of the triple `(a, b, c)`.
pub fn ccw(a: (i64, i64), b: (i64, i64), c: (i64, i64)) -> (r: bool)
    requires
        pt_in_range(a),
        pt_in_range(b),
        pt_in_range(c),
    ensures
        r == ccw_spec(pti(a), pti(b), pti(c)),
{
    proof {
        assert((c.1 - a.1) * (b.0 - a.0) <= 4840000000000000000 && (c.1 - a.1) * (b.0 - a.0)
            >= -4840000000000000000) by (nonlinear_arith)
            requires
                -2200000000 <= c.1 - a.1 <= 2200000000,
                -2200000000 <= b.0 - a.0 <= 2200000000,
        ;
        assert((b.1 - a.1) * (c.0 - a.0) <= 4840000000000000000 && (b.1 - a.1) * (c.0 - a.0)
            >= -4840000000000000000) by (nonlinear_arith)
            requires
                -2200000000 <= b.1 - a.1 <= 2200000000,
                -2200000000 <= c.0 - a.0 <= 2200000000,
        ;
    }
    (c.1 - a.1) * (b.0 - a.0) > (b.1 - a.1) * (c.0 - a.0)
}

/// The strict crossing test of segments `(a, b)` and `(c, d)`: the
/// endpoints of each lie strictly on opposite orientation sides of the
/// other.
pub open spec fn segments_cross(a: (int, int), b: (int, int), c: (int, int), d: (int, int)) -> bool {
    ccw_spec(a, c, d) != ccw_spec(b, c, d) && ccw_spec(a, b, c) != ccw_spec(a, b, d)
}

/// Crossing test of two segments, each given by its two endpoints.
pub fn line_intersect(
    line: ((i64, i64), (i64, i64)),
    other_line: &((i64, i64), (i64, i64)),
) -> (r: bool)
    requires
        pt_in_range(line.0),
        pt_in_range(line.1),
        pt_in_range(other_line.0),
        pt_in_range(other_line.1),
    ensures
        r == segments_cross(pti(line.0), pti(line.1), pti(other_line.0), pti(other_line.1)),
{
    let a = line.0;
    let b = line.1;
    let c = other_line.0;
    let d = other_line.1;
    let first = ccw(a, c, d) != ccw(b, c, d);
    let second = ccw(a, b, c) != ccw(a, b, d);
    first && second
}

/// The orientation value is invariant under cyclic permutation of its
/// arguments.
proof fn lemma_orient_cyclic(a: (int, int), b: (int, int), c: (int, int))
    ensures
        orient_val(a, b, c) == orient_val(b, c, a),
{
    assert((c.1 - a.1) * (b.0 - a.0) - (b.1 - a.1) * (c.0 - a.0) == (a.1 - b.1) * (c.0 - b.0) - (c.1
        - b.1) * (a.0 - b.0)) by (nonlinear_arith);
}

/// The crossing test does not depend on the order of the two segments:
/// `segments_cross(a, b, c, d) == segments_cross(c, d, a, b)`.
pub proof fn lemma_segments_cross_symmetric(
    a: (int, int),
    b: (int, int),
    c: (int, int),
    d: (int, int),
)
    ensures
        segments_cross(a, b, c, d) == segments_cross(c, d, a, b),
{
    lemma_orient_cyclic(c, a, b);
    lemma_orient_cyclic(a, b, c);
    lemma_orient_cyclic(d, a, b);
    lemma_orient_cyclic(a, b, d);
    lemma_orient_cyclic(c, d, a);
    lemma_orient_cyclic(d, a, c);
    lemma_orient_cyclic(c, d, b);
    lemma_orient_cyclic(d, b, c);
}

/// A segment never crosses itself: the test is false when both segments
/// are the same.
pub proof fn lemma_segment_not_cross_itself(a: (int, int), b: (int, int))
    ensures
        !segments_cross(a, b, a, b),
{
    assert(orient_val(a, a, b) == 0) by (nonlinear_arith);
    assert(orient_val(b, a, b) == 0) by (nonlinear_arith);
}

/// Segments that share their first endpoints, or their second
/// endpoints, only touch there and never count as crossing.
pub proof fn lemma_shared_endpoint_does_not_cross(a: (int, int), b: (int, int), d: (int, int))
    ensures
        !segments_cross(a, b, a, d),
        !segments_cross(a, b, d, b),
{
    assert(orient_val(a, a, d) == 0) by (nonlinear_arith);
    assert(orient_val(a, b, a) == 0) by (nonlinear_arith);
    assert(orient_val(b, a, d) == -orient_val(a, b, d)) by (nonlinear_arith);
    assert(orient_val(b, d, b) == 0) by (nonlinear_arith);
    assert(orient_val(a, b, b) == 0) by (nonlinear_arith);
    assert(orient_val(a, d, b) == -orient_val(a, b, d)) by (nonlinear_arith);
}

/// The successor of corner index `i` around a quadrilateral.
pub open spec fn next_corner(i: int) -> int {
    if i == 3 {
        0
    } else {
        i + 1
    }
}

/// The `i`-th directed edge of the quadrilateral with corners `v`.
pub open spec fn quad_edge(v: Seq<(i64, i64)>, i: int) -> ((int, int), (int, int)) {
    (pti(v[i]), pti(v[next_corner(i)]))
}

/// Overlap test of two quadrilaterals: some edge of one strictly crosses
/// some edge of the other.  This misses one quadrilateral fully containing
/// the other without any edge crossing; for the similar-sized vehicle
/// footprints checked here that case does not arise, and the approximation
/// is kept deliberately.
pub open spec fn quads_overlap(v1: Seq<(i64, i64)>, v2: Seq<(i64, i64)>) -> bool {
    exists|i: int, j: int|
        0 <= i < 4 && 0 <= j < 4 && #[trigger] segments_cross(
            quad_edge(v1, i).0,
            quad_edge(v1, i).1,
            quad_edge(v2, j).0,
            quad_edge(v2, j).1,
        )
}

/// True when every corner is within the geometry limit.
pub open spec fn corners_in_range(v: Seq<(i64, i64)>) -> bool {
    forall|i: int| 0 <= i < 4 ==> pt_in_range(#[trigger] v[i])
}

/// Edge-crossing overlap test of two quadrilaterals, given as corner
/// arrays in cyclic order.
pub fn quads_intersect(v1: &[(i64, i64); 4], v2: &[(i64, i64); 4]) -> (r: bool)
    requires
        corners_in_range(v1@),
        corners_in_range(v2@),
    ensures
        r == quads_overlap(v1@, v2@),
{
    let mut i: usize = 0;
    while i < 4
        invariant
            0 <= i <= 4,
            corners_in_range(v1@),
            corners_in_range(v2@),
            forall|i0: int, j0: int|
                0 <= i0 < i && 0 <= j0 < 4 ==> !(#[trigger] segments_cross(
                    quad_edge(v1@, i0).0,
                    quad_edge(v1@, i0).1,
                    quad_edge(v2@, j0).0,
                    quad_edge(v2@, j0).1,
                )),
        decreases 4 - i,
    {
        let e1 = (v1[i], v1[if i == 3 { 0 } else { i + 1 }]);
        let mut j: usize = 0;
        while j < 4
            invariant
                0 <= i < 4,
                0 <= j <= 4,
                corners_in_range(v1@),
                corners_in_range(v2@),
                e1 == (v1@[i as int], v1@[next_corner(i as int)]),
                forall|j0: int|
                    0 <= j0 < j ==> !(#[trigger] segments_cross(
                        quad_edge(v1@, i as int).0,
                        quad_edge(v1@, i as int).1,
                        quad_edge(v2@, j0).0,
                        quad_edge(v2@, j0).1,
                    )),
            decreases 4 - j,
        {
            let e2 = (v2[j], v2[if j == 3 { 0 } else { j + 1 }]);
            if line_intersect(e1, &e2) {
                proof {
                    assert(e2 == (v2@[j as int], v2@[next_corner(j as int)]));
                    assert(segments_cross(
                        quad_edge(v1@, i as int).0,
                        quad_edge(v1@, i as int).1,
                        quad_edge(v2@, j as int).0,
                        quad_edge(v2@, j as int).1,
                    ));
                }
                return true;
            }
            j = j + 1;
        }
        i = i + 1;
    }
    false
}

} // verus!