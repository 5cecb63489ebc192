//! The mesh of the wireframe-cube demo: the eight corners of the cube
//! `[-1, 1]^3` and twelve triangles, two on each side, wound so that each
//! faces outwards.
use vstd::prelude::*;

verus! {

/// The corners, as coordinates in `{-1, 1}`.
pub open spec fn cube_vertices() -> Seq<[i8; 3]> {
    seq![
        [-1i8, -1i8, 1i8],
        [1i8, -1i8, 1i8],
        [1i8, 1i8, 1i8],
        [-1i8, 1i8, 1i8],
        [-1i8, -1i8, -1i8],
        [1i8, -1i8, -1i8],
        [1i8, 1i8, -1i8],
        [-1i8, 1i8, -1i8],
    ]
}

/// The triangles, as triples of corner indices.
pub open spec fn cube_faces() -> Seq<[usize; 3]> {
    seq![
        [0usize, 1usize, 2usize],
        [0usize, 2usize, 3usize],
        [5usize, 4usize, 7usize],
        [5usize, 7usize, 6usize],
        [3usize, 2usize, 6usize],
        [3usize, 6usize, 7usize],
        [4usize, 5usize, 1usize],
        [4usize, 1usize, 0usize],
        [1usize, 5usize, 6usize],
        [1usize, 6usize, 2usize],
        [4usize, 0usize, 3usize],
        [4usize, 3usize, 7usize],
    ]
}

/// Builds the cube mesh: its corners and its triangles.
pub fn make_cube() -> (mesh: (Vec<[i8; 3]>, Vec<[usize; 3]>))
    ensures
        mesh.0@ == cube_vertices(),
        mesh.1@ == cube_faces(),
{
    let vertices: Vec<[i8; 3]> = vec![
        [-1, -1, 1],
        [1, -1, 1],
        [1, 1, 1],
        [-1, 1, 1],
        [-1, -1, -1],
        [1, -1, -1],
        [1, 1, -1],
        [-1, 1, -1],
    ];
    let faces: Vec<[usize; 3]> = vec![
        [0, 1, 2],
        [0, 2, 3],
        [5, 4, 7],
        [5, 7, 6],
        [3, 2, 6],
        [3, 6, 7],
        [4, 5, 1],
        [4, 1, 0],
        [1, 5, 6],
        [1, 6, 2],
        [4, 0, 3],
        [4, 3, 7],
    ];
    assert(vertices@ =~= cube_vertices());
    assert(faces@ =~= cube_faces());
    (vertices, faces)
}


/// Coordinate `k` of corner `v`.
pub open spec fn corner_coord(v: int, k: int) -> int {
    cube_vertices()[v][k] as int
}

/// Corner index `j` of triangle `f`.
pub open spec fn face_corner(f: int, j: int) -> int {
    cube_faces()[f][j] as int
}

/// Coordinate `k` of the `j`-th corner of triangle `f`.
pub open spec fn face_coord(f: int, j: int, k: int) -> int {
    corner_coord(face_corner(f, j), k)
}

/// Coordinate `k` of the edge from the first to the `j`-th corner of `f`.
pub open spec fn edge(f: int, j: int, k: int) -> int {
    face_coord(f, j, k) - face_coord(f, 0, k)
}

/// Coordinate `k` of the normal of triangle `f` given by its winding (the
/// cross product of its two edges from the first corner).
pub open spec fn face_normal(f: int, k: int) -> int {
    if k == 0 {
        edge(f, 1, 1) * edge(f, 2, 2) - edge(f, 1, 2) * edge(f, 2, 1)
    } else if k == 1 {
        edge(f, 1, 2) * edge(f, 2, 0) - edge(f, 1, 0) * edge(f, 2, 2)
    } else {
        edge(f, 1, 0) * edge(f, 2, 1) - edge(f, 1, 1) * edge(f, 2, 0)
    }
}

/// Triangle `f` is wound counter-clockwise as seen from outside the cube:
/// its normal points away from the centre.
pub open spec fn faces_outward(f: int) -> bool {
    face_normal(f, 0) * face_coord(f, 0, 0) + face_normal(f, 1) * face_coord(f, 0, 1)
        + face_normal(f, 2) * face_coord(f, 0, 2) > 0
}

/// All three corners of triangle `f` lie on the side of the cube where
/// coordinate `axis` equals `sign`.
pub open spec fn on_side(f: int, axis: int, sign: int) -> bool {
    &&& face_coord(f, 0, axis) == sign
    &&& face_coord(f, 1, axis) == sign
    &&& face_coord(f, 2, axis) == sign
}

/// Every triangle names three corners that exist.
pub proof fn lemma_cube_indices_in_range()
    ensures
        forall|f: int, j: int|
            0 <= f < cube_faces().len() && 0 <= j < 3 ==> 0 <= #[trigger] face_corner(f, j)
                < cube_vertices().len(),
{
    assert(cube_faces().len() == 12);
    assert forall|f: int, j: int|
        0 <= f < cube_faces().len() && 0 <= j < 3 implies 0 <= #[trigger] face_corner(f, j)
            < cube_vertices().len() by {
        assert(f == 0 || f == 1 || f == 2 || f == 3 || f == 4 || f == 5 || f == 6 || f == 7
            || f == 8 || f == 9 || f == 10 || f == 11);
        assert(j == 0 || j == 1 || j == 2);
    }
}

/// The corners are the eight distinct points of `{-1, 1}^3`.
pub proof fn lemma_cube_corners()
    ensures
        cube_vertices().len() == 8,
        forall|v: int, k: int|
            0 <= v < 8 && 0 <= k < 3 ==> #[trigger] corner_coord(v, k) == 1 || corner_coord(v, k)
                == -1,
        forall|v: int, w: int|
            0 <= v < w < 8 ==> #[trigger] cube_vertices()[v] != #[trigger] cube_vertices()[w],
{
    assert forall|v: int, k: int| 0 <= v < 8 && 0 <= k < 3 implies #[trigger] corner_coord(v, k)
        == 1 || corner_coord(v, k) == -1 by {
        assert(v == 0 || v == 1 || v == 2 || v == 3 || v == 4 || v == 5 || v == 6 || v == 7);
        assert(k == 0 || k == 1 || k == 2);
    }
    assert forall|v: int, w: int| 0 <= v < w < 8 implies #[trigger] cube_vertices()[v]
        != #[trigger] cube_vertices()[w] by {
        assert(v == 0 || v == 1 || v == 2 || v == 3 || v == 4 || v == 5 || v == 6 || v == 7);
        assert(w == 0 || w == 1 || w == 2 || w == 3 || w == 4 || w == 5 || w == 6 || w == 7);
        if corner_coord(v, 0) != corner_coord(w, 0) {
        } else if corner_coord(v, 1) != corner_coord(w, 1) {
        } else {
            assert(corner_coord(v, 2) != corner_coord(w, 2));
        }
    }
}

/// Every triangle faces outwards.
pub proof fn lemma_cube_faces_outward()
    ensures
        forall|f: int| 0 <= f < cube_faces().len() ==> #[trigger] faces_outward(f),
{
    assert forall|f: int| 0 <= f < cube_faces().len() implies #[trigger] faces_outward(f) by {
        lemma_face_outward(f);
    }
}

proof fn lemma_face_outward(f: int)
    requires
        0 <= f < 12,
    ensures
        faces_outward(f),
{
    let x00 = face_coord(f, 0, 0);
    let x01 = face_coord(f, 0, 1);
    let x02 = face_coord(f, 0, 2);
    let x10 = face_coord(f, 1, 0);
    let x11 = face_coord(f, 1, 1);
    let x12 = face_coord(f, 1, 2);
    let x20 = face_coord(f, 2, 0);
    let x21 = face_coord(f, 2, 1);
    let x22 = face_coord(f, 2, 2);
    let n0 = face_normal(f, 0);
    let n1 = face_normal(f, 1);
    let n2 = face_normal(f, 2);
    // Each case reads the nine corner coordinates of the triangle and
    // evaluates the dot product of its normal with its first corner.
    if f == 0 {
        assert(x00 == -1 && x01 == -1 && x02 == 1 && x10 == 1 && x11 == -1);
        assert(x12 == 1 && x20 == 1 && x21 == 1 && x22 == 1);
        assert(n0 * x00 + n1 * x01 + n2 * x02 == 4) by (nonlinear_arith)
            requires
                n0 == (x11 - x01) * (x22 - x02) - (x12 - x02) * (x21 - x01),
                n1 == (x12 - x02) * (x20 - x00) - (x10 - x00) * (x22 - x02),
                n2 == (x10 - x00) * (x21 - x01) - (x11 - x01) * (x20 - x00),
                x00 == -1,
                x01 == -1,
                x02 == 1,
                x10 == 1,
                x11 == -1,
                x12 == 1,
                x20 == 1,
                x21 == 1,
                x22 == 1,
        ;
    } else if f == 1 {
        assert(x00 == -1 && x01 == -1 && x02 == 1 && x10 == 1 && x11 == 1);
        assert(x12 == 1 && x20 == -1 && x21 == 1 && x22 == 1);
        assert(n0 * x00 + n1 * x01 + n2 * x02 == 4) by (nonlinear_arith)
            requires
                n0 == (x11 - x01) * (x22 - x02) - (x12 - x02) * (x21 - x01),
                n1 == (x12 - x02) * (x20 - x00) - (x10 - x00) * (x22 - x02),
                n2 == (x10 - x00) * (x21 - x01) - (x11 - x01) * (x20 - x00),
                x00 == -1,
                x01 == -1,
                x02 == 1,
                x10 == 1,
                x11 == 1,
                x12 == 1,
                x20 == -1,
                x21 == 1,
                x22 == 1,
        ;
    } else if f == 2 {
        assert(x00 == 1 && x01 == -1 && x02 == -1 && x10 == -1 && x11 == -1);
        assert(x12 == -1 && x20 == -1 && x21 == 1 && x22 == -1);
        assert(n0 * x00 + n1 * x01 + n2 * x02 == 4) by (nonlinear_arith)
            requires
                n0 == (x11 - x01) * (x22 - x02) - (x12 - x02) * (x21 - x01),
                n1 == (x12 - x02) * (x20 - x00) - (x10 - x00) * (x22 - x02),
                n2 == (x10 - x00) * (x21 - x01) - (x11 - x01) * (x20 - x00),
                x00 == 1,
                x01 == -1,
                x02 == -1,
                x10 == -1,
                x11 == -1,
                x12 == -1,
                x20 == -1,
                x21 == 1,
                x22 == -1,
        ;
    } else if f == 3 {
        assert(x00 == 1 && x01 == -1 && x02 == -1 && x10 == -1 && x11 == 1);
        assert(x12 == -1 && x20 == 1 && x21 == 1 && x22 == -1);
        assert(n0 * x00 + n1 * x01 + n2 * x02 == 4) by (nonlinear_arith)
            requires
                n0 == (x11 - x01) * (x22 - x02) - (x12 - x02) * (x21 - x01),
                n1 == (x12 - x02) * (x20 - x00) - (x10 - x00) * (x22 - x02),
                n2 == (x10 - x00) * (x21 - x01) - (x11 - x01) * (x20 - x00),
                x00 == 1,
                x01 == -1,
                x02 == -1,
                x10 == -1,
                x11 == 1,
                x12 == -1,
                x20 == 1,
                x21 == 1,
                x22 == -1,
        ;
    } else if f == 4 {
        assert(x00 == -1 && x01 == 1 && x02 == 1 && x10 == 1 && x11 == 1);
        assert(x12 == 1 && x20 == 1 && x21 == 1 && x22 == -1);
        assert(n0 * x00 + n1 * x01 + n2 * x02 == 4) by (nonlinear_arith)
            requires
                n0 == (x11 - x01) * (x22 - x02) - (x12 - x02) * (x21 - x01),
                n1 == (x12 - x02) * (x20 - x00) - (x10 - x00) * (x22 - x02),
                n2 == (x10 - x00) * (x21 - x01) - (x11 - x01) * (x20 - x00),
                x00 == -1,
                x01 == 1,
                x02 == 1,
                x10 == 1,
                x11 == 1,
                x12 == 1,
                x20 == 1,
                x21 == 1,
                x22 == -1,
        ;
    } else if f == 5 {
        assert(x00 == -1 && x01 == 1 && x02 == 1 && x10 == 1 && x11 == 1);
        assert(x12 == -1 && x20 == -1 && x21 == 1 && x22 == -1);
        assert(n0 * x00 + n1 * x01 + n2 * x02 == 4) by (nonlinear_arith)
            requires
                n0 == (x11 - x01) * (x22 - x02) - (x12 - x02) * (x21 - x01),
                n1 == (x12 - x02) * (x20 - x00) - (x10 - x00) * (x22 - x02),
                n2 == (x10 - x00) * (x21 - x01) - (x11 - x01) * (x20 - x00),
                x00 == -1,
                x01 == 1,
                x02 == 1,
                x10 == 1,
                x11 == 1,
                x12 == -1,
                x20 == -1,
                x21 == 1,
                x22 == -1,
        ;
    } else if f == 6 {
        assert(x00 == -1 && x01 == -1 && x02 == -1 && x10 == 1 && x11 == -1);
        assert(x12 == -1 && x20 == 1 && x21 == -1 && x22 == 1);
        assert(n0 * x00 + n1 * x01 + n2 * x02 == 4) by (nonlinear_arith)
            requires
                n0 == (x11 - x01) * (x22 - x02) - (x12 - x02) * (x21 - x01),
                n1 == (x12 - x02) * (x20 - x00) - (x10 - x00) * (x22 - x02),
                n2 == (x10 - x00) * (x21 - x01) - (x11 - x01) * (x20 - x00),
                x00 == -1,
                x01 == -1,
                x02 == -1,
                x10 == 1,
                x11 == -1,
                x12 == -1,
                x20 == 1,
                x21 == -1,
                x22 == 1,
        ;
    } else if f == 7 {
        assert(x00 == -1 && x01 == -1 && x02 == -1 && x10 == 1 && x11 == -1);
        assert(x12 == 1 && x20 == -1 && x21 == -1 && x22 == 1);
        assert(n0 * x00 + n1 * x01 + n2 * x02 == 4) by (nonlinear_arith)
            requires
                n0 == (x11 - x01) * (x22 - x02) - (x12 - x02) * (x21 - x01),
                n1 == (x12 - x02) * (x20 - x00) - (x10 - x00) * (x22 - x02),
                n2 == (x10 - x00) * (x21 - x01) - (x11 - x01) * (x20 - x00),
                x00 == -1,
                x01 == -1,
                x02 == -1,
                x10 == 1,
                x11 == -1,
                x12 == 1,
                x20 == -1,
                x21 == -1,
                x22 == 1,
        ;
    } else if f == 8 {
        assert(x00 == 1 && x01 == -1 && x02 == 1 && x10 == 1 && x11 == -1);
        assert(x12 == -1 && x20 == 1 && x21 == 1 && x22 == -1);
        assert(n0 * x00 + n1 * x01 + n2 * x02 == 4) by (nonlinear_arith)
            requires
                n0 == (x11 - x01) * (x22 - x02) - (x12 - x02) * (x21 - x01),
                n1 == (x12 - x02) * (x20 - x00) - (x10 - x00) * (x22 - x02),
                n2 == (x10 - x00) * (x21 - x01) - (x11 - x01) * (x20 - x00),
                x00 == 1,
                x01 == -1,
                x02 == 1,
                x10 == 1,
                x11 == -1,
                x12 == -1,
                x20 == 1,
                x21 == 1,
                x22 == -1,
        ;
    } else if f == 9 {
        assert(x00 == 1 && x01 == -1 && x02 == 1 && x10 == 1 && x11 == 1);
        assert(x12 == -1 && x20 == 1 && x21 == 1 && x22 == 1);
        assert(n0 * x00 + n1 * x01 + n2 * x02 == 4) by (nonlinear_arith)
            requires
                n0 == (x11 - x01) * (x22 - x02) - (x12 - x02) * (x21 - x01),
                n1 == (x12 - x02) * (x20 - x00) - (x10 - x00) * (x22 - x02),
                n2 == (x10 - x00) * (x21 - x01) - (x11 - x01) * (x20 - x00),
                x00 == 1,
                x01 == -1,
                x02 == 1,
                x10 == 1,
                x11 == 1,
                x12 == -1,
                x20 == 1,
                x21 == 1,
                x22 == 1,
        ;
    } else if f == 10 {
        assert(x00 == -1 && x01 == -1 && x02 == -1 && x10 == -1 && x11 == -1);
        assert(x12 == 1 && x20 == -1 && x21 == 1 && x22 == 1);
        assert(n0 * x00 + n1 * x01 + n2 * x02 == 4) by (nonlinear_arith)
            requires
                n0 == (x11 - x01) * (x22 - x02) - (x12 - x02) * (x21 - x01),
                n1 == (x12 - x02) * (x20 - x00) - (x10 - x00) * (x22 - x02),
                n2 == (x10 - x00) * (x21 - x01) - (x11 - x01) * (x20 - x00),
                x00 == -1,
                x01 == -1,
                x02 == -1,
                x10 == -1,
                x11 == -1,
                x12 == 1,
                x20 == -1,
                x21 == 1,
                x22 == 1,
        ;
    } else {
        assert(x00 == -1 && x01 == -1 && x02 == -1 && x10 == -1 && x11 == 1);
        assert(x12 == 1 && x20 == -1 && x21 == 1 && x22 == -1);
        assert(n0 * x00 + n1 * x01 + n2 * x02 == 4) by (nonlinear_arith)
            requires
                n0 == (x11 - x01) * (x22 - x02) - (x12 - x02) * (x21 - x01),
                n1 == (x12 - x02) * (x20 - x00) - (x10 - x00) * (x22 - x02),
                n2 == (x10 - x00) * (x21 - x01) - (x11 - x01) * (x20 - x00),
                x00 == -1,
                x01 == -1,
                x02 == -1,
                x10 == -1,
                x11 == 1,
                x12 == 1,
                x20 == -1,
                x21 == 1,
                x22 == -1,
        ;
    }
}

/// The axis along which the three corners of triangle `f` agree (the first
/// such axis, or 2 if none of the first two qualifies).
pub open spec fn side_axis(f: int) -> int {
    if face_coord(f, 0, 0) == face_coord(f, 1, 0) && face_coord(f, 0, 0) == face_coord(f, 2, 0) {
        0
    } else if face_coord(f, 0, 1) == face_coord(f, 1, 1) && face_coord(f, 0, 1) == face_coord(
        f,
        2,
        1,
    ) {
        1
    } else {
        2
    }
}

/// The value, -1 or 1, that the corners of triangle `f` share on its side axis.
pub open spec fn side_sign(f: int) -> int {
    face_coord(f, 0, side_axis(f))
}

/// Every triangle lies on one side of the cube, the triangles come in six
/// pairs that each lie on one side, and no two pairs share a side: the
/// twelve triangles cover the six sides, two on each.
pub proof fn lemma_cube_sides()
    ensures
        forall|f: int|
            0 <= f < cube_faces().len() ==> on_side(f, #[trigger] side_axis(f), side_sign(f)),
        forall|p: int|
            0 <= p < 6 ==> #[trigger] side_axis(2 * p) == side_axis(2 * p + 1) && side_sign(2 * p)
                == side_sign(2 * p + 1),
        forall|p: int, q: int|
            0 <= p < q < 6 ==> #[trigger] side_axis(2 * p) != #[trigger] side_axis(2 * q)
                || side_sign(2 * p) != side_sign(2 * q),
{
    assert forall|f: int| 0 <= f < cube_faces().len() implies on_side(
        f,
        #[trigger] side_axis(f),
        side_sign(f),
    ) by {
        assert(f == 0 || f == 1 || f == 2 || f == 3 || f == 4 || f == 5 || f == 6 || f == 7
            || f == 8 || f == 9 || f == 10 || f == 11);
    }
    assert forall|p: int| 0 <= p < 6 implies #[trigger] side_axis(2 * p) == side_axis(2 * p + 1)
        && side_sign(2 * p) == side_sign(2 * p + 1) by {
        assert(p == 0 || p == 1 || p == 2 || p == 3 || p == 4 || p == 5);
    }
    assert forall|p: int, q: int| 0 <= p < q < 6 implies #[trigger] side_axis(2 * p)
        != #[trigger] side_axis(2 * q) || side_sign(2 * p) != side_sign(2 * q) by {
        assert(p == 0 || p == 1 || p == 2 || p == 3 || p == 4 || p == 5);
        assert(q == 0 || q == 1 || q == 2 || q == 3 || q == 4 || q == 5);
    }
}

/// Triangle `f`, read around its winding, goes straight from corner `a`
/// to corner `b`.
pub open spec fn face_has_edge(f: int, a: int, b: int) -> bool {
    ||| face_corner(f, 0) == a && face_corner(f, 1) == b
    ||| face_corner(f, 1) == a && face_corner(f, 2) == b
    ||| face_corner(f, 2) == a && face_corner(f, 0) == b
}

/// How many of the first `n` triangles contain the directed edge `a -> b`.
pub open spec fn edge_count(a: int, b: int, n: nat) -> nat
    decreases n,
{
    if n == 0 {
        0
    } else {
        edge_count(a, b, (n - 1) as nat) + if face_has_edge(n - 1, a, b) {
            1nat
        } else {
            0nat
        }
    }
}

proof fn lemma_edge_count_all(a: int, b: int)
    ensures
        edge_count(a, b, 12) == (if face_has_edge(0, a, b) { 1int } else { 0 }) + (if face_has_edge(
            1,
            a,
            b,
        ) {
            1int
        } else {
            0
        }) + (if face_has_edge(2, a, b) { 1int } else { 0 }) + (if face_has_edge(3, a, b) {
            1int
        } else {
            0
        }) + (if face_has_edge(4, a, b) { 1int } else { 0 }) + (if face_has_edge(5, a, b) {
            1int
        } else {
            0
        }) + (if face_has_edge(6, a, b) { 1int } else { 0 }) + (if face_has_edge(7, a, b) {
            1int
        } else {
            0
        }) + (if face_has_edge(8, a, b) { 1int } else { 0 }) + (if face_has_edge(9, a, b) {
            1int
        } else {
            0
        }) + (if face_has_edge(10, a, b) { 1int } else { 0 }) + (if face_has_edge(11, a, b) {
            1int
        } else {
            0
        }),
{
    reveal_with_fuel(edge_count, 13);
}

proof fn lemma_face_edges_paired(f: int, j: int)
    requires
        0 <= f < 12,
        0 <= j < 3,
    ensures
        edge_count(face_corner(f, j), face_corner(f, (j + 1) % 3), 12) == 1,
        edge_count(face_corner(f, (j + 1) % 3), face_corner(f, j), 12) == 1,
{
    let a = face_corner(f, j);
    let b = face_corner(f, (j + 1) % 3);
    lemma_edge_count_all(a, b);
    lemma_edge_count_all(b, a);
    assert(face_corner(0, 0) == 0 && face_corner(0, 1) == 1 && face_corner(0, 2) == 2);
    assert(face_corner(1, 0) == 0 && face_corner(1, 1) == 2 && face_corner(1, 2) == 3);
    assert(face_corner(2, 0) == 5 && face_corner(2, 1) == 4 && face_corner(2, 2) == 7);
    assert(face_corner(3, 0) == 5 && face_corner(3, 1) == 7 && face_corner(3, 2) == 6);
    assert(face_corner(4, 0) == 3 && face_corner(4, 1) == 2 && face_corner(4, 2) == 6);
    assert(face_corner(5, 0) == 3 && face_corner(5, 1) == 6 && face_corner(5, 2) == 7);
    assert(face_corner(6, 0) == 4 && face_corner(6, 1) == 5 && face_corner(6, 2) == 1);
    assert(face_corner(7, 0) == 4 && face_corner(7, 1) == 1 && face_corner(7, 2) == 0);
    assert(face_corner(8, 0) == 1 && face_corner(8, 1) == 5 && face_corner(8, 2) == 6);
    assert(face_corner(9, 0) == 1 && face_corner(9, 1) == 6 && face_corner(9, 2) == 2);
    assert(face_corner(10, 0) == 4 && face_corner(10, 1) == 0 && face_corner(10, 2) == 3);
    assert(face_corner(11, 0) == 4 && face_corner(11, 1) == 3 && face_corner(11, 2) == 7);
    assert(j == 0 || j == 1 || j == 2);
}

/// The triangles form a closed, consistently wound surface: every edge that
/// a triangle runs along, `a -> b`, is run along in that direction by that
/// triangle alone, and in the opposite direction `b -> a` by exactly one
/// triangle. So the mesh has no hole, no triangle twice, and no side
/// covered twice.
pub proof fn lemma_cube_closed_surface()
    ensures
        forall|f: int, j: int|
            0 <= f < cube_faces().len() && 0 <= j < 3 ==> edge_count(
                #[trigger] face_corner(f, j),
                face_corner(f, (j + 1) % 3),
                cube_faces().len(),
            ) == 1 && edge_count(face_corner(f, (j + 1) % 3), face_corner(f, j), cube_faces().len())
                == 1,
{
    assert forall|f: int, j: int| 0 <= f < cube_faces().len() && 0 <= j < 3 implies edge_count(
        #[trigger] face_corner(f, j),
        face_corner(f, (j + 1) % 3),
        cube_faces().len(),
    ) == 1 && edge_count(face_corner(f, (j + 1) % 3), face_corner(f, j), cube_faces().len())
        == 1 by {
        lemma_face_edges_paired(f, j);
    }
}

/// The two triangles on each side use all four corners of that side: every
/// corner lying on the side is a corner of one of them.
pub proof fn lemma_cube_sides_filled()
    ensures
        forall|p: int, v: int|
            0 <= p < 6 && 0 <= v < cube_vertices().len() && #[trigger] corner_coord(
                v,
                side_axis(2 * p),
            ) == side_sign(2 * p) ==> exists|j: int|
                0 <= j < 3 && (#[trigger] face_corner(2 * p, j) == v || face_corner(2 * p + 1, j)
                    == v),
{
    assert forall|p: int, v: int|
        0 <= p < 6 && 0 <= v < cube_vertices().len() && #[trigger] corner_coord(
            v,
            side_axis(2 * p),
        ) == side_sign(2 * p) implies exists|j: int|
        0 <= j < 3 && (#[trigger] face_corner(2 * p, j) == v || face_corner(2 * p + 1, j)
            == v) by {
        assert(p == 0 || p == 1 || p == 2 || p == 3 || p == 4 || p == 5);
        assert(v == 0 || v == 1 || v == 2 || v == 3 || v == 4 || v == 5 || v == 6 || v == 7);
        if face_corner(2 * p, 0) == v || face_corner(2 * p + 1, 0) == v {
            assert(0 <= 0 < 3 && (face_corner(2 * p, 0) == v || face_corner(2 * p + 1, 0) == v));
        } else if face_corner(2 * p, 1) == v || face_corner(2 * p + 1, 1) == v {
            assert(0 <= 1 < 3 && (face_corner(2 * p, 1) == v || face_corner(2 * p + 1, 1) == v));
        } else {
            assert(face_corner(2 * p, 2) == v || face_corner(2 * p + 1, 2) == v);
        }
    }
}

} // verus!
