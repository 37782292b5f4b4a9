//! Uniform sampling of points inside a ball by rejection from the enclosing cube.
//!
//! Coordinates live on an integer grid: a caller picks how many grid steps make
//! one world unit and scales the radius accordingly.
use vstd::prelude::*;

verus! {

/// Largest grid radius the sampler accepts: three squared coordinates of this
/// size still fit in an `i64`.
pub const MAX_GRID_RADIUS: i64 = 0x4000_0000;

/// A point on the integer grid.
#[derive(Clone, Copy, Debug, PartialEq, Eq, Structural)]
pub struct Point3 {
    pub x: i64,
    pub y: i64,
    pub z: i64,
}

/// Squared Euclidean norm of a point.
pub open spec fn norm_sq(p: Point3) -> int {
    p.x * p.x + p.y * p.y + p.z * p.z
}

/// The point lies in the closed ball of radius `r` around the origin.
pub open spec fn in_ball(p: Point3, r: int) -> bool {
    norm_sq(p) <= r * r
}

/// The point lies in the closed cube `[-r, r]^3`.
pub open spec fn in_cube(p: Point3, r: int) -> bool {
    -r <= p.x <= r && -r <= p.y <= r && -r <= p.z <= r
}

/// The candidates of `s` that the ball of radius `r` accepts, in order.
pub open spec fn accepted(s: Seq<Point3>, r: int) -> Seq<Point3>
    decreases s.len(),
{
    if s.len() == 0 {
        Seq::empty()
    } else {
        let rest = accepted(s.drop_last(), r);
        if in_ball(s.last(), r) {
            rest.push(s.last())
        } else {
            rest
        }
    }
}

/// The first `n` elements of `s`, or all of them where `s` is shorter.
pub open spec fn first_n(s: Seq<Point3>, n: int) -> Seq<Point3> {
    if s.len() <= n {
        s
    } else {
        s.take(n)
    }
}

proof fn lemma_square_bound(a: int, r: int)
    requires
        0 <= r,
        -r <= a <= r,
    ensures
        0 <= a * a <= r * r,
{
    assert(0 <= a * a <= r * r) by (nonlinear_arith)
        requires
            0 <= r,
            -r <= a <= r,
    ;
}

proof fn lemma_coordinate_in_range(a: int, r: int)
    requires
        0 <= r,
        a * a <= r * r,
    ensures
        -r <= a <= r,
{
    assert(-r <= a <= r) by (nonlinear_arith)
        requires
            0 <= r,
            a * a <= r * r,
    ;
}

/// A point of the ball of radius `r` lies in the cube of the same radius.
pub proof fn lemma_ball_within_cube(p: Point3, r: int)
    requires
        0 <= r,
        in_ball(p, r),
    ensures
        in_cube(p, r),
{
    assert(0 <= p.x * p.x) by (nonlinear_arith);
    assert(0 <= p.y * p.y) by (nonlinear_arith);
    assert(0 <= p.z * p.z) by (nonlinear_arith);
    lemma_coordinate_in_range(p.x as int, r);
    lemma_coordinate_in_range(p.y as int, r);
    lemma_coordinate_in_range(p.z as int, r);
}

/// The only point of the ball of radius zero is the origin.
pub proof fn lemma_zero_ball_is_origin(p: Point3)
    requires
        in_ball(p, 0),
    ensures
        p == (Point3 { x: 0, y: 0, z: 0 }),
{
    lemma_ball_within_cube(p, 0);
}

/// Every candidate that rejection sampling keeps lies in the ball, and it
/// keeps no more candidates than it was offered.
pub proof fn lemma_accepted_in_ball(s: Seq<Point3>, r: int)
    ensures
        accepted(s, r).len() <= s.len(),
        forall|i: int| 0 <= i < accepted(s, r).len() ==> in_ball(#[trigger] accepted(s, r)[i], r),
    decreases s.len(),
{
    if s.len() > 0 {
        lemma_accepted_in_ball(s.drop_last(), r);
    }
}

/// Squared norm of a point whose coordinates are within the grid limit.
pub fn squared_norm(p: &Point3) -> (r: i64)
    requires
        in_cube(*p, MAX_GRID_RADIUS as int),
    ensures
        r == norm_sq(*p),
{
    proof {
        let m = MAX_GRID_RADIUS as int;
        lemma_square_bound(p.x as int, m);
        lemma_square_bound(p.y as int, m);
        lemma_square_bound(p.z as int, m);
        assert(m * m == 0x1000_0000_0000_0000);
    }
    p.x * p.x + p.y * p.y + p.z * p.z
}

/// Whether the ball of the given radius accepts a candidate point.
pub fn accepts(radius: i64, p: &Point3) -> (r: bool)
    requires
        0 <= radius <= MAX_GRID_RADIUS,
        in_cube(*p, MAX_GRID_RADIUS as int),
    ensures
        r == in_ball(*p, radius as int),
{
    proof {
        lemma_square_bound(radius as int, MAX_GRID_RADIUS as int);
    }
    radius * radius >= squared_norm(p)
}

/// Draws per point before the sampler gives up on a point and places it at
/// the centre. Each draw is accepted with probability above one quarter, so
/// the fallback is practically never taken; it only bounds the loop.
pub const MAX_DRAWS_PER_POINT: u32 = 512;

/// Relies on rand's `Rng::gen_range` over an inclusive range of the thread-local
/// generator: a uniform value between `lo` and `hi`, both included. It panics
/// on an empty range, which `requires` leaves out.
#[verifier::external_body]
fn draw_between(lo: i64, hi: i64) -> (r: i64)
    requires
        lo <= hi,
    ensures
        lo <= r <= hi,
{
    rand::Rng::gen_range(&mut rand::thread_rng(), lo..=hi)
}

/// A candidate drawn uniformly from the cube `[-radius, radius]^3`, one
/// independent draw per axis.
pub fn draw_candidate(radius: i64) -> (r: Point3)
    requires
        0 <= radius <= MAX_GRID_RADIUS,
    ensures
        in_cube(r, radius as int),
{
    let x = draw_between(-radius, radius);
    let y = draw_between(-radius, radius);
    let z = draw_between(-radius, radius);
    Point3 { x, y, z }
}

/// Rejection sampling over a given stream of candidates: keeps, in order, the
/// first `count` candidates that lie in the ball of radius `radius`. Where the
/// stream holds fewer, all accepted candidates are returned.
pub fn sample_from_candidates(radius: i64, count: usize, candidates: &Vec<Point3>) -> (r: Vec<
    Point3,
>)
    requires
        0 <= radius <= MAX_GRID_RADIUS,
        forall|i: int|
            0 <= i < candidates@.len() ==> in_cube(#[trigger] candidates@[i], MAX_GRID_RADIUS as int),
    ensures
        r@ == first_n(accepted(candidates@, radius as int), count as int),
{
    let mut out: Vec<Point3> = Vec::new();
    let mut i: usize = 0;
    while i < candidates.len()
        invariant
            0 <= radius <= MAX_GRID_RADIUS,
            i <= candidates@.len(),
            forall|k: int|
                0 <= k < candidates@.len() ==> in_cube(#[trigger] candidates@[k], MAX_GRID_RADIUS as int),
            out@ == first_n(accepted(candidates@.take(i as int), radius as int), count as int),
        decreases candidates@.len() - i,
    {
        let c = candidates[i];
        let ghost before = accepted(candidates@.take(i as int), radius as int);
        proof {
            assert(candidates@.take(i as int + 1).drop_last() =~= candidates@.take(i as int));
            assert(candidates@.take(i as int + 1).last() == c);
        }
        if accepts(radius, &c) {
            if out.len() < count {
                out.push(c);
                proof {
                    assert(out@ =~= before.push(c));
                }
            } else {
                proof {
                    assert(before.push(c).take(count as int) =~= before.take(count as int));
                }
            }
        }
        i = i + 1;
    }
    proof {
        assert(candidates@.take(i as int) =~= candidates@);
    }
    out
}

/// Samples `count` points uniformly from the grid points of the closed ball of
/// radius `radius`, by rejection from the enclosing cube. With radius zero
/// every point is the origin.
pub fn sample_points(radius: i64, count: usize) -> (r: Vec<Point3>)
    requires
        0 <= radius <= MAX_GRID_RADIUS,
    ensures
        r@.len() == count,
        forall|i: int| 0 <= i < r@.len() ==> in_ball(#[trigger] r@[i], radius as int),
        radius == 0 ==> forall|i: int|
            0 <= i < r@.len() ==> #[trigger] r@[i] == (Point3 { x: 0, y: 0, z: 0 }),
{
    let mut out: Vec<Point3> = Vec::new();
    let origin = Point3 { x: 0, y: 0, z: 0 };
    proof {
        assert(norm_sq(origin) == 0);
        assert(0 <= radius * radius) by (nonlinear_arith);
    }
    while out.len() < count
        invariant
            0 <= radius <= MAX_GRID_RADIUS,
            out@.len() <= count,
            in_ball(origin, radius as int),
            origin == (Point3 { x: 0, y: 0, z: 0 }),
            forall|i: int| 0 <= i < out@.len() ==> in_ball(#[trigger] out@[i], radius as int),
        decreases count - out@.len(),
    {
        let mut chosen = origin;
        let mut draws: u32 = 0;
        while draws < MAX_DRAWS_PER_POINT
            invariant
                0 <= radius <= MAX_GRID_RADIUS,
                in_ball(chosen, radius as int),
            decreases MAX_DRAWS_PER_POINT - draws,
        {
            let c = draw_candidate(radius);
            if accepts(radius, &c) {
                chosen = c;
                break;
            }
            draws = draws + 1;
        }
        out.push(chosen);
    }
    proof {
        assert forall|i: int| radius == 0 && 0 <= i < out@.len() implies #[trigger] out@[i] == origin by {
            lemma_zero_ball_is_origin(out@[i]);
        }
    }
    out
}

} // verus!
