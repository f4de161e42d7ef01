use vstd::prelude::*;

verus! {

/// One triangular face of an eight-vertex hull: three vertex indices and the
/// quad (see `quad_corners`) it was cut from.
#[derive(Clone, Copy, Debug)]
pub struct HullFace {
    pub quad: usize,
    pub triangle: [usize; 3],
}

/// The corners of quad `q` in winding order. Vertices 0 to 3 form the lower
/// ring, and vertex 4 + i sits above vertex i. Quad 0 is the lower ring, quad
/// 1 the upper ring, and quad 2 + i the side over the lower edge from vertex i
/// to vertex (i + 1) % 4. Quads 0 and 1, 2 and 4, 3 and 5 lie opposite one
/// another. With the lower ring counter-clockwise seen from above, each quad
/// winds counter-clockwise seen from outside.
pub open spec fn quad_spec(q: int) -> Seq<usize> {
    if q == 0 {
        seq![0usize, 1, 2, 3]
    } else if q == 1 {
        seq![4usize, 7, 6, 5]
    } else {
        let i = (q - 2) as usize;
        let j = ((q - 1) % 4) as usize;
        seq![i, (4 + i) as usize, (4 + j) as usize, j]
    }
}

/// Whether some corner in `prev` stands at the same point as vertex `c`.
pub open spec fn point_seen(ids: Seq<usize>, prev: Seq<usize>, c: usize) -> bool {
    exists|k: int| 0 <= k < prev.len() && ids[prev[k] as int] == ids[c as int]
}

/// The corners of `corners` whose point no earlier corner shares, in order.
/// Vertices `a` and `b` stand at the same point exactly when `ids[a] == ids[b]`.
pub open spec fn distinct_corners(ids: Seq<usize>, corners: Seq<usize>) -> Seq<usize>
    decreases corners.len(),
{
    if corners.len() == 0 {
        Seq::empty()
    } else {
        let prev = distinct_corners(ids, corners.drop_last());
        if point_seen(ids, prev, corners.last()) {
            prev
        } else {
            prev.push(corners.last())
        }
    }
}

/// A face as plain values: (quad, first, second, third vertex).
pub open spec fn face_view(f: HullFace) -> (usize, usize, usize, usize) {
    (f.quad, f.triangle[0], f.triangle[1], f.triangle[2])
}

/// The triangles cut from quad `q` whose distinct corners are `u`: two for four
/// corners, one for three, none below that. Each corner is named by the label
/// of its point, so that every face names one point alike. `reversed` turns
/// the winding round.
pub open spec fn quad_triangles(q: usize, ids: Seq<usize>, u: Seq<usize>, reversed: bool) -> Seq<
    (usize, usize, usize, usize),
> {
    let p = |k: int| ids[u[k] as int];
    if u.len() == 4 {
        if reversed {
            seq![(q, p(0), p(2), p(1)), (q, p(0), p(3), p(2))]
        } else {
            seq![(q, p(0), p(1), p(2)), (q, p(0), p(2), p(3))]
        }
    } else if u.len() == 3 {
        if reversed {
            seq![(q, p(0), p(2), p(1))]
        } else {
            seq![(q, p(0), p(1), p(2))]
        }
    } else {
        Seq::empty()
    }
}

/// The faces cut from quad `q`.
pub open spec fn quad_faces(ids: Seq<usize>, reversed: Seq<bool>, q: int) -> Seq<
    (usize, usize, usize, usize),
> {
    quad_triangles(q as usize, ids, distinct_corners(ids, quad_spec(q)), reversed[q])
}

/// The faces cut from the first `n` quads, quad by quad.
pub open spec fn faces_upto(ids: Seq<usize>, reversed: Seq<bool>, n: int) -> Seq<
    (usize, usize, usize, usize),
>
    decreases n,
{
    if n <= 0 {
        Seq::empty()
    } else {
        faces_upto(ids, reversed, n - 1) + quad_faces(ids, reversed, n - 1)
    }
}

/// Every face of the hull.
pub open spec fn hull_faces_spec(ids: Seq<usize>, reversed: Seq<bool>) -> Seq<
    (usize, usize, usize, usize),
> {
    faces_upto(ids, reversed, 6)
}

/// The corners of quad `q`, as `quad_spec` gives them.
pub fn quad_corners(q: usize) -> (r: [usize; 4])
    requires
        q < 6,
    ensures
        r@ == quad_spec(q as int),
{
    let r: [usize; 4] = if q == 0 {
        [0, 1, 2, 3]
    } else if q == 1 {
        [4, 7, 6, 5]
    } else {
        let i: usize = q - 2;
        let j: usize = (q - 1) % 4;
        [i, 4 + i, 4 + j, j]
    };
    assert(r@ =~= quad_spec(q as int));
    r
}

/// The corners of `corners` whose point no earlier corner shares.
fn quad_distinct_corners(ids: &[usize; 8], corners: [usize; 4]) -> (r: Vec<usize>)
    requires
        forall|k: int| 0 <= k < 4 ==> corners@[k] < 8,
    ensures
        r@ == distinct_corners(ids@, corners@),
        forall|k: int| 0 <= k < r@.len() ==> r@[k] < 8,
{
    let mut r: Vec<usize> = Vec::new();
    let mut i: usize = 0;
    while i < 4
        invariant
            i <= 4,
            forall|k: int| 0 <= k < 4 ==> corners@[k] < 8,
            r@ == distinct_corners(ids@, corners@.subrange(0, i as int)),
            forall|k: int| 0 <= k < r@.len() ==> r@[k] < 8,
        decreases 4 - i,
    {
        let c = corners[i];
        let mut seen = false;
        let mut k: usize = 0;
        while k < r.len()
            invariant
                k <= r@.len(),
                c < 8,
                forall|m: int| 0 <= m < r@.len() ==> r@[m] < 8,
                seen == exists|m: int| 0 <= m < k && ids@[r@[m] as int] == ids@[c as int],
            decreases r@.len() - k,
        {
            if ids[r[k]] == ids[c] {
                seen = true;
            }
            k = k + 1;
        }
        let ghost prev = corners@.subrange(0, i as int);
        assert(corners@.subrange(0, i as int + 1).drop_last() =~= prev);
        assert(corners@.subrange(0, i as int + 1).last() == c);
        if !seen {
            r.push(c);
        }
        i = i + 1;
    }
    assert(corners@.subrange(0, 4) =~= corners@);
    r
}

/// Appends the faces of quad `q`, whose distinct corners are `u`.
fn push_quad_triangles(
    faces: &mut Vec<HullFace>,
    q: usize,
    ids: &[usize; 8],
    u: &Vec<usize>,
    reversed: bool,
)
    requires
        forall|k: int| 0 <= k < u@.len() ==> u@[k] < 8,
    ensures
        final(faces)@.map_values(|f: HullFace| face_view(f)) == old(faces)@.map_values(
            |f: HullFace| face_view(f),
        ) + quad_triangles(q, ids@, u@, reversed),
{
    let ghost before = faces@;
    if u.len() == 4 {
        let (a, b, c, d) = (ids[u[0]], ids[u[1]], ids[u[2]], ids[u[3]]);
        if reversed {
            faces.push(HullFace { quad: q, triangle: [a, c, b] });
            faces.push(HullFace { quad: q, triangle: [a, d, c] });
        } else {
            faces.push(HullFace { quad: q, triangle: [a, b, c] });
            faces.push(HullFace { quad: q, triangle: [a, c, d] });
        }
    } else if u.len() == 3 {
        let (a, b, c) = (ids[u[0]], ids[u[1]], ids[u[2]]);
        if reversed {
            faces.push(HullFace { quad: q, triangle: [a, c, b] });
        } else {
            faces.push(HullFace { quad: q, triangle: [a, b, c] });
        }
    }
    assert(faces@.map_values(|f: HullFace| face_view(f)) =~= before.map_values(
        |f: HullFace| face_view(f),
    ) + quad_triangles(q, ids@, u@, reversed));
}

/// Derives the triangular faces of an eight-vertex hull, quad by quad (see
/// `quad_corners`). Vertices `a` and `b` stand at the same point exactly when
/// `ids[a] == ids[b]`; corners that repeat an earlier corner's point are
/// merged, so a quad with four distinct points gives two triangles, one with
/// three gives one, and one with fewer gives none. Each triangle names its
/// points by their labels: where `ids[i]` is the first vertex at the point of
/// vertex i, the faces index the vertices and no two name one point apart.
/// `reversed[q]` turns the winding of quad `q` round, so that its normals can
/// be made to point out.
pub fn hull_faces(ids: &[usize; 8], reversed: &[bool; 6]) -> (r: Vec<HullFace>)
    ensures
        r@.map_values(|f: HullFace| face_view(f)) == hull_faces_spec(ids@, reversed@),
{
    let mut faces: Vec<HullFace> = Vec::new();
    let mut q: usize = 0;
    while q < 6
        invariant
            q <= 6,
            faces@.map_values(|f: HullFace| face_view(f)) == faces_upto(ids@, reversed@, q as int),
        decreases 6 - q,
    {
        let corners = quad_corners(q);
        let u = quad_distinct_corners(ids, corners);
        push_quad_triangles(&mut faces, q, ids, &u, reversed[q]);
        q = q + 1;
    }
    faces
}

/// Where no two corners share a point, every corner is kept, in order.
proof fn lemma_corners_all_distinct(ids: Seq<usize>, corners: Seq<usize>)
    requires
        forall|k: int| 0 <= k < corners.len() ==> corners[k] < ids.len(),
        forall|a: int, b: int|
            0 <= a < corners.len() && 0 <= b < corners.len() && a != b ==> ids[corners[a] as int]
                != ids[corners[b] as int],
    ensures
        distinct_corners(ids, corners) == corners,
    decreases corners.len(),
{
    if corners.len() > 0 {
        let prev = corners.drop_last();
        lemma_corners_all_distinct(ids, prev);
        assert(!point_seen(ids, prev, corners.last())) by {
            if point_seen(ids, prev, corners.last()) {
                let k = choose|k: int|
                    0 <= k < prev.len() && ids[prev[k] as int] == ids[corners.last() as int];
                assert(ids[corners[k] as int] == ids[corners[corners.len() - 1] as int]);
            }
        }
        assert(prev.push(corners.last()) =~= corners);
    }
}

proof fn lemma_faces_upto_distinct(ids: Seq<usize>, reversed: Seq<bool>, n: int)
    requires
        ids.len() == 8,
        reversed.len() == 6,
        0 <= n <= 6,
        forall|a: int, b: int| 0 <= a < 8 && 0 <= b < 8 && a != b ==> ids[a] != ids[b],
    ensures
        faces_upto(ids, reversed, n).len() == 2 * n,
        forall|k: int| 0 <= k < 2 * n ==> #[trigger] faces_upto(ids, reversed, n)[k].0 == k / 2,
    decreases n,
{
    if n > 0 {
        lemma_faces_upto_distinct(ids, reversed, n - 1);
        let q = n - 1;
        let c = quad_spec(q);
        assert forall|a: int, b: int|
            0 <= a < c.len() && 0 <= b < c.len() && a != b implies ids[c[a] as int]
            != ids[c[b] as int] by {
            assert(c[a] != c[b]);
        }
        lemma_corners_all_distinct(ids, c);
        let prev = faces_upto(ids, reversed, n - 1);
        let cur = quad_faces(ids, reversed, q);
        assert(cur.len() == 2);
        assert forall|k: int| 0 <= k < 2 * n implies #[trigger] faces_upto(ids, reversed, n)[k].0
            == k / 2 by {
            if k >= 2 * q {
                assert(faces_upto(ids, reversed, n)[k] == cur[k - 2 * q]);
            } else {
                assert(faces_upto(ids, reversed, n)[k] == prev[k]);
            }
        }
    }
}

/// A hull whose eight vertices are eight distinct points has twelve faces: two
/// for each of its six quads, faces 2q and 2q + 1 being those of quad q.
pub proof fn lemma_distinct_hull_has_twelve_faces(ids: Seq<usize>, reversed: Seq<bool>)
    requires
        ids.len() == 8,
        reversed.len() == 6,
        forall|a: int, b: int| 0 <= a < 8 && 0 <= b < 8 && a != b ==> ids[a] != ids[b],
    ensures
        hull_faces_spec(ids, reversed).len() == 12,
        forall|k: int| 0 <= k < 12 ==> #[trigger] hull_faces_spec(ids, reversed)[k].0 == k / 2,
{
    lemma_faces_upto_distinct(ids, reversed, 6);
}

/// Labels each of eight vertices with the first vertex that stands at its
/// point: `same[i][j]` says whether vertices i and j stand at one point.
pub fn point_labels(same: &[[bool; 8]; 8]) -> (r: [usize; 8])
    ensures
        forall|i: int|
            0 <= i < 8 ==> {
                let l = #[trigger] r@[i] as int;
                &&& l <= i
                &&& (l == i || same@[i]@[l])
                &&& forall|j: int| 0 <= j < l ==> !same@[i]@[j]
            },
{
    let mut r: [usize; 8] = [0, 1, 2, 3, 4, 5, 6, 7];
    let mut i: usize = 0;
    while i < 8
        invariant
            i <= 8,
            r@.len() == 8,
            forall|k: int| i <= k < 8 ==> r@[k] == k,
            forall|k: int|
                0 <= k < i ==> {
                    let l = #[trigger] r@[k] as int;
                    &&& l <= k
                    &&& (l == k || same@[k]@[l])
                    &&& forall|j: int| 0 <= j < l ==> !same@[k]@[j]
                },
        decreases 8 - i,
    {
        let row = same[i];
        let mut j: usize = 0;
        while j < i && !row[j]
            invariant
                j <= i < 8,
                row@ == same@[i as int]@,
                forall|m: int| 0 <= m < j ==> !row@[m],
            decreases i - j,
        {
            j = j + 1;
        }
        r[i] = j;
        i = i + 1;
    }
    r
}

/// The point labels of a prism over the unit square whose corner i rises to
/// `heights[i]`: the lower ring is four distinct points, and vertex 4 + i is
/// vertex i again where corner i has no height.
pub open spec fn prism_ids_spec(heights: Seq<usize>) -> Seq<usize> {
    Seq::new(8, |k: int| if k < 4 || heights[k - 4] > 0 { k as usize } else { (k - 4) as usize })
}

/// The (x, z) position of corner i of the unit square, counter-clockwise seen
/// from above: (0, 0), (1, 0), (1, 1), (0, 1).
pub open spec fn corner_x(i: int) -> usize {
    if i == 1 || i == 2 { 1 } else { 0 }
}

pub open spec fn corner_z(i: int) -> usize {
    if i == 2 || i == 3 { 1 } else { 0 }
}

/// Vertex k of the prism in half units: the lower ring on the floor, and
/// vertex 4 + i above corner i at its height.
pub open spec fn prism_vertex_spec(heights: Seq<usize>, k: int) -> Seq<usize> {
    let i = if k < 4 { k } else { k - 4 };
    let y = if k < 4 { 0 } else { heights[i] };
    seq![(2 * corner_x(i)) as usize, y, (2 * corner_z(i)) as usize]
}

/// The point labels of a prism (see `prism_ids_spec`).
pub fn prism_point_ids(heights: &[usize; 4]) -> (r: [usize; 8])
    ensures
        r@ == prism_ids_spec(heights@),
{
    let mut r: [usize; 8] = [0, 1, 2, 3, 4, 5, 6, 7];
    let mut i: usize = 0;
    while i < 4
        invariant
            i <= 4,
            r@.len() == 8,
            forall|k: int| 0 <= k < 4 ==> r@[k] == k,
            forall|k: int| 4 + i <= k < 8 ==> r@[k] == k,
            forall|k: int| 4 <= k < 4 + i ==> r@[k] == prism_ids_spec(heights@)[k],
        decreases 4 - i,
    {
        if heights[i] == 0 {
            r[4 + i] = i;
        }
        i = i + 1;
    }
    assert(r@ =~= prism_ids_spec(heights@));
    r
}

/// The eight vertices of a prism in half units, as (x, y, z).
pub fn prism_vertices(heights: &[usize; 4]) -> (r: Vec<[usize; 3]>)
    ensures
        r@.len() == 8,
        forall|k: int| 0 <= k < 8 ==> (#[trigger] r@[k])@ == prism_vertex_spec(heights@, k),
{
    let mut r: Vec<[usize; 3]> = Vec::new();
    let mut k: usize = 0;
    while k < 8
        invariant
            k <= 8,
            r@.len() == k,
            forall|m: int| 0 <= m < k ==> (#[trigger] r@[m])@ == prism_vertex_spec(heights@, m),
        decreases 8 - k,
    {
        let i: usize = if k < 4 { k } else { k - 4 };
        let x: usize = if i == 1 || i == 2 { 2 } else { 0 };
        let z: usize = if i == 2 || i == 3 { 2 } else { 0 };
        let y: usize = if k < 4 { 0 } else { heights[i] };
        let v: [usize; 3] = [x, y, z];
        assert(v@ =~= prism_vertex_spec(heights@, k as int));
        r.push(v);
        k = k + 1;
    }
    r
}

/// The faces of a prism, wound as its quads are (see `quad_corners`).
pub fn prism_faces(heights: &[usize; 4]) -> (r: Vec<HullFace>)
    ensures
        r@.map_values(|f: HullFace| face_view(f)) == prism_faces_spec(heights@),
{
    let ids = prism_point_ids(heights);
    let reversed: [bool; 6] = [false, false, false, false, false, false];
    assert(reversed@ =~= seq![false, false, false, false, false, false]);
    hull_faces(&ids, &reversed)
}

/// The faces of a prism as `prism_faces` gives them.
pub open spec fn prism_faces_spec(heights: Seq<usize>) -> Seq<(usize, usize, usize, usize)> {
    hull_faces_spec(prism_ids_spec(heights), seq![false, false, false, false, false, false])
}

/// A prism whose four corners all rise above the floor, the unit cube among
/// them, has eight distinct vertices and so twelve faces, two for each quad.
pub proof fn lemma_raised_prism_has_twelve_faces(heights: Seq<usize>)
    requires
        heights.len() == 4,
        forall|i: int| 0 <= i < 4 ==> heights[i] > 0,
    ensures
        prism_faces_spec(heights).len() == 12,
        forall|k: int| 0 <= k < 12 ==> #[trigger] prism_faces_spec(heights)[k].0 == k / 2,
{
    let ids = prism_ids_spec(heights);
    assert forall|a: int, b: int| 0 <= a < 8 && 0 <= b < 8 && a != b implies ids[a] != ids[b] by {
        assert(ids[a] == a && ids[b] == b);
    }
    lemma_distinct_hull_has_twelve_faces(ids, seq![false, false, false, false, false, false]);
}

} // verus!
