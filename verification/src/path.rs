//! Control-point sequences of closed quadratic-curve paths.
//!
//! A path is an odd-length sequence of points: even positions hold anchors,
//! which lie on the curve, and each odd position holds the handle of the
//! segment between its two neighbours. The generators here fix the order and
//! the role of every point; the caller supplies the coordinates through a
//! closure, so the point type stays the caller's own.

use vstd::prelude::*;

verus! {

/// Lengths that a drawable path can have: odd, and at least one segment.
pub open spec fn is_path_len(n: nat) -> bool {
    n % 2 == 1 && n >= 3
}

/// Whether position `i` of a path holds a handle rather than an anchor.
pub open spec fn is_handle(i: int) -> bool {
    i % 2 == 1
}

/// Whether `n` is the length of a drawable path.
pub fn valid_path_len(n: usize) -> (ok: bool)
    ensures
        ok == is_path_len(n as nat),
{
    n % 2 == 1 && n >= 3
}

/// The outline of the square with corners at `(±1, ±1)`, counter-clockwise
/// from the upper right corner and back to it: corners at the anchors, the
/// middle of each edge at the handle between them.
pub open spec fn square_outline() -> Seq<(int, int)> {
    seq![
        (1int, 1int),
        (0int, 1int),
        (-1int, 1int),
        (-1int, 0int),
        (-1int, -1int),
        (0int, -1int),
        (1int, -1int),
        (1int, 0int),
        (1int, 1int),
    ]
}

/// The square outline is a drawable path that closes, whose anchors are the
/// four corners and whose handles halve the edges, so every segment is
/// straight.
pub proof fn lemma_square_outline()
    ensures
        is_path_len(square_outline().len()),
        square_outline().first() == square_outline().last(),
        forall|i: int|
            0 <= i < 9 && !is_handle(i) ==> {
                let p = #[trigger] square_outline()[i];
                (p.0 == 1 || p.0 == -1) && (p.1 == 1 || p.1 == -1)
            },
        forall|i: int|
            0 <= i < 9 && is_handle(i) ==> {
                let h = #[trigger] square_outline()[i];
                let a = square_outline()[i - 1];
                let b = square_outline()[i + 1];
                2 * h.0 == a.0 + b.0 && 2 * h.1 == a.1 + b.1
            },
{
    let s = square_outline();
    assert(s.len() == 9);
    assert forall|i: int| 0 <= i < 9 && !is_handle(i) implies {
        let p = #[trigger] square_outline()[i];
        (p.0 == 1 || p.0 == -1) && (p.1 == 1 || p.1 == -1)
    } by {
        assert(i == 0 || i == 2 || i == 4 || i == 6 || i == 8);
    }
    assert forall|i: int| 0 <= i < 9 && is_handle(i) implies {
        let h = #[trigger] square_outline()[i];
        let a = square_outline()[i - 1];
        let b = square_outline()[i + 1];
        2 * h.0 == a.0 + b.0 && 2 * h.1 == a.1 + b.1
    } by {
        assert(i == 1 || i == 3 || i == 5 || i == 7);
    }
}

/// Builds the nine control points of a square. `corner` is called once for
/// every entry of [`square_outline`], in order, with the entry's two signs,
/// and returns the point that stands there.
pub fn square_points<P, F: Fn(i8, i8) -> P>(corner: F) -> (points: Vec<P>)
    requires
        forall|x: i8, y: i8| -1 <= x <= 1 && -1 <= y <= 1 ==> call_requires(corner, (x, y)),
    ensures
        points.len() == 9,
        is_path_len(points.len() as nat),
        forall|i: int|
            0 <= i < 9 ==> call_ensures(
                corner,
                (square_outline()[i].0 as i8, square_outline()[i].1 as i8),
                #[trigger] points[i],
            ),
{
    let mut points: Vec<P> = Vec::new();
    points.push(corner(1, 1));
    points.push(corner(0, 1));
    points.push(corner(-1, 1));
    points.push(corner(-1, 0));
    points.push(corner(-1, -1));
    points.push(corner(0, -1));
    points.push(corner(1, -1));
    points.push(corner(1, 0));
    points.push(corner(1, 1));
    points
}

/// Number of segments that the arcs and circles of this library are cut
/// into.
pub const ARC_COMPONENTS: u32 = 8;

/// Number of control points of an arc cut into `n_components` segments.
pub open spec fn arc_len(n_components: nat) -> nat {
    2 * n_components + 1
}

/// The generators give paths: a square has nine control points, an arc of
/// [`ARC_COMPONENTS`] segments seventeen, and an arc of any number of
/// segments an odd number of at least three.
pub proof fn lemma_generated_lengths(n_components: nat)
    requires
        n_components >= 1,
    ensures
        square_outline().len() == 9,
        is_path_len(square_outline().len()),
        arc_len(ARC_COMPONENTS as nat) == 17,
        is_path_len(arc_len(n_components)),
{
}

/// Number of control points of an arc cut into `n_components` segments.
pub fn arc_point_count(n_components: u32) -> (n_points: u32)
    requires
        1 <= n_components <= 0x7fff_ffff,
    ensures
        n_points == arc_len(n_components as nat),
        is_path_len(n_points as nat),
{
    2 * n_components + 1
}

/// Builds the control points of an arc cut into `n_components` segments.
///
/// `point_at(i, steps, handle)` is called once for every position `i` from
/// first to last and returns the point that stands there. The point lies at
/// the fraction `i / steps` of the sweep, where `steps` is twice the number of
/// segments; `handle` says whether the position is a handle, which the caller
/// pushes outward so that the curve follows the arc.
pub fn arc_points<P, F: Fn(u32, u32, bool) -> P>(n_components: u32, point_at: F) -> (points: Vec<P>)
    requires
        1 <= n_components <= 0x7fff_ffff,
        forall|i: u32|
            i <= 2 * n_components ==> call_requires(
                point_at,
                (i, (2 * n_components) as u32, is_handle(i as int)),
            ),
    ensures
        points.len() == arc_len(n_components as nat),
        is_path_len(points.len() as nat),
        forall|i: int|
            0 <= i < points.len() ==> call_ensures(
                point_at,
                (i as u32, (2 * n_components) as u32, is_handle(i)),
                #[trigger] points[i],
            ),
{
    let steps: u32 = 2 * n_components;
    let mut points: Vec<P> = Vec::new();
    let mut i: u32 = 0;
    while i <= steps
        invariant_except_break
            i <= steps,
            points.len() == i,
        invariant
            steps == 2 * n_components,
            1 <= n_components <= 0x7fff_ffff,
            forall|k: u32|
                k <= 2 * n_components ==> call_requires(
                    point_at,
                    (k, (2 * n_components) as u32, is_handle(k as int)),
                ),
            forall|k: int|
                0 <= k < points.len() ==> call_ensures(
                    point_at,
                    (k as u32, steps, is_handle(k)),
                    #[trigger] points[k],
                ),
        ensures
            points.len() == steps + 1,
        decreases steps - i,
    {
        assert(call_requires(point_at, (i, (2 * n_components) as u32, is_handle(i as int))));
        let p = point_at(i, steps, i % 2 == 1);
        points.push(p);
        if i == steps {
            break ;
        }
        i += 1;
    }
    points
}

/// Position in the old sequence that position `i` of the new one copies.
pub open spec fn resample_index(i: int, old_len: int, new_len: int) -> int {
    i * old_len / new_len
}

/// `old` stretched or shrunk to `new_len` points by nearest-index lookup.
pub open spec fn resampled<P>(old: Seq<P>, new_len: nat) -> Seq<P> {
    Seq::new(new_len, |i: int| old[resample_index(i, old.len() as int, new_len as int)])
}

/// Every position of the new sequence copies a position that exists.
pub proof fn lemma_resample_index_in_range(i: int, old_len: int, new_len: int)
    requires
        0 <= i < new_len,
        0 < old_len,
    ensures
        0 <= resample_index(i, old_len, new_len) < old_len,
{
    assert(0 <= i * old_len) by (nonlinear_arith)
        requires
            0 <= i,
            0 < old_len,
    ;
    assert(i * old_len < new_len * old_len) by (nonlinear_arith)
        requires
            0 <= i < new_len,
            0 < old_len,
    ;
    assert(i * old_len / new_len < old_len) by (nonlinear_arith)
        requires
            0 <= i * old_len < new_len * old_len,
            0 < new_len,
    ;
    assert(0 <= i * old_len / new_len) by (nonlinear_arith)
        requires
            0 <= i * old_len,
            0 < new_len,
    ;
}

/// Resampling a sequence to its own length changes nothing.
pub proof fn lemma_resample_same_len<P>(s: Seq<P>)
    ensures
        resampled(s, s.len()) == s,
{
    let n = s.len() as int;
    assert forall|i: int| 0 <= i < n implies resample_index(i, n, n) == i by {
        assert(i * n / n == i) by (nonlinear_arith)
            requires
                0 < n,
        ;
    }
    assert(resampled(s, s.len()) =~= s);
}

/// Resampling keeps the order of the points: a later position never copies an
/// earlier point than a position before it.
pub proof fn lemma_resample_keeps_order(i: int, j: int, old_len: int, new_len: int)
    requires
        0 <= i <= j,
        0 <= old_len,
        0 < new_len,
    ensures
        resample_index(i, old_len, new_len) <= resample_index(j, old_len, new_len),
{
    assert(i * old_len <= j * old_len) by (nonlinear_arith)
        requires
            0 <= i <= j,
            0 <= old_len,
    ;
    assert(i * old_len / new_len <= j * old_len / new_len) by (nonlinear_arith)
        requires
            i * old_len <= j * old_len,
            0 < new_len,
    ;
}

/// Stretching loses no point: every position of the old sequence is copied
/// by some position of a new one that is at least as long.
pub proof fn lemma_resample_keeps_every_point(j: int, old_len: int, new_len: int)
    requires
        0 <= j < old_len <= new_len,
    ensures
        exists|i: int| 0 <= i < new_len && #[trigger] resample_index(i, old_len, new_len) == j,
{
    let i = (j * new_len + old_len - 1) / old_len;
    assert(0 <= j * new_len) by (nonlinear_arith)
        requires
            0 <= j,
            0 <= new_len,
    ;
    assert(j * new_len <= i * old_len < j * new_len + old_len) by (nonlinear_arith)
        requires
            0 < old_len,
            0 <= j * new_len,
            i == (j * new_len + old_len - 1) / old_len,
    ;
    assert(j * new_len + old_len <= (j + 1) * new_len) by (nonlinear_arith)
        requires
            old_len <= new_len,
    ;
    assert(i * old_len / new_len == j) by (nonlinear_arith)
        requires
            0 < new_len,
            j * new_len <= i * old_len < (j + 1) * new_len,
    ;
    assert(0 <= i < new_len) by (nonlinear_arith)
        requires
            0 <= j,
            0 < old_len <= new_len,
            j * new_len <= i * old_len < (j + 1) * new_len,
            j + 1 <= old_len,
    ;
    assert(resample_index(i, old_len, new_len) == j);
}

/// Stretching keeps the two ends: the first point stays first and the last
/// stays last, so a path that closes still closes.
pub proof fn lemma_resample_keeps_ends<P>(old: Seq<P>, new_len: nat)
    requires
        0 < old.len() <= new_len,
    ensures
        resampled(old, new_len).first() == old.first(),
        resampled(old, new_len).last() == old.last(),
        old.first() == old.last() ==> resampled(old, new_len).first() == resampled(
            old,
            new_len,
        ).last(),
{
    let n = old.len() as int;
    let m = new_len as int;
    assert(resample_index(0, n, m) == 0) by (nonlinear_arith)
        requires
            0 < m,
    {
        assert(0 * n == 0);
        assert(0int / m == 0);
    }
    assert((m - 1) * n / m == n - 1) by (nonlinear_arith)
        requires
            0 < n <= m,
    {
        assert((m - 1) * n == (n - 1) * m + (m - n));
        assert(0 <= m - n < m);
    }
    assert(resample_index(m - 1, n, m) == n - 1);
}

/// Copies `old` to a sequence of `new_len` points: position `i` of the result
/// holds the point at position `i * old.len() / new_len` of `old`.
pub fn resample<P: Copy>(old: &Vec<P>, new_len: usize) -> (out: Vec<P>)
    requires
        old.len() > 0 || new_len == 0,
    ensures
        out@ == resampled(old@, new_len as nat),
{
    let old_len: usize = old.len();
    let mut out: Vec<P> = Vec::new();
    let mut i: usize = 0;
    while i < new_len
        invariant
            i <= new_len,
            old_len == old.len(),
            old_len > 0 || new_len == 0,
            out.len() == i,
            forall|k: int|
                0 <= k < i ==> #[trigger] out[k] == old[resample_index(
                    k,
                    old_len as int,
                    new_len as int,
                )],
        decreases new_len - i,
    {
        proof {
            lemma_resample_index_in_range(i as int, old_len as int, new_len as int);
            let bound: int = 0xffff_ffff_ffff_ffff;
            assert(0 <= i * old_len <= bound * bound) by (nonlinear_arith)
                requires
                    0 <= i <= bound,
                    0 <= old_len <= bound,
            ;
            assert(bound * bound < 0x1_0000_0000_0000_0000_0000_0000_0000_0000) by (nonlinear_arith)
                requires
                    bound == 0xffff_ffff_ffff_ffff,
            ;
        }
        let wide: u128 = i as u128 * old_len as u128 / new_len as u128;
        let from: usize = wide as usize;
        out.push(old[from]);
        i += 1;
    }
    assert(out@ =~= resampled(old@, new_len as nat));
    out
}

/// Brings two point sequences to a common length, the longer of the two: the
/// shorter one is resampled, the longer one is returned as it came.
pub fn resample_pair<P: Copy>(a: Vec<P>, b: Vec<P>) -> (pair: (Vec<P>, Vec<P>))
    requires
        (a.len() == 0) == (b.len() == 0),
    ensures
        pair.0.len() == pair.1.len(),
        pair.0.len() == if a.len() >= b.len() {
            a.len()
        } else {
            b.len()
        },
        pair.0@ == resampled(a@, pair.0.len() as nat),
        pair.1@ == resampled(b@, pair.1.len() as nat),
        a.len() >= b.len() ==> pair.0@ == a@,
        b.len() >= a.len() ==> pair.1@ == b@,
{
    proof {
        lemma_resample_same_len(a@);
        lemma_resample_same_len(b@);
    }
    let a_len: usize = a.len();
    let b_len: usize = b.len();
    if a_len < b_len {
        let stretched = resample(&a, b_len);
        (stretched, b)
    } else if b_len < a_len {
        let stretched = resample(&b, a_len);
        (a, stretched)
    } else {
        (a, b)
    }
}

/// Two paths of different lengths, brought to the longer length, agree in
/// length, and point `i` of the stretched one is the point of the shorter at
/// position `i * shorter.len() / longer.len()`.
pub proof fn lemma_resample_to_longer<P>(shorter: Seq<P>, longer: Seq<P>)
    requires
        0 < shorter.len() < longer.len(),
    ensures
        resampled(shorter, longer.len()).len() == longer.len(),
        resampled(longer, longer.len()) == longer,
        forall|i: int|
            0 <= i < longer.len() ==> 0 <= #[trigger] resample_index(
                i,
                shorter.len() as int,
                longer.len() as int,
            ) < shorter.len(),
        forall|i: int|
            0 <= i < longer.len() ==> #[trigger] resampled(shorter, longer.len())[i]
                == shorter[i * shorter.len() / (longer.len() as int)],
        is_path_len(shorter.len()) && is_path_len(longer.len()) ==> is_path_len(
            resampled(shorter, longer.len()).len(),
        ),
{
    lemma_resample_same_len(longer);
    assert forall|i: int| 0 <= i < longer.len() implies 0 <= #[trigger] resample_index(
        i,
        shorter.len() as int,
        longer.len() as int,
    ) < shorter.len() by {
        lemma_resample_index_in_range(i, shorter.len() as int, longer.len() as int);
    }
}

} // verus!
