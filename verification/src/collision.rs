//! Circle-against-circle overlap between entities.

use vstd::prelude::*;
use crate::entity::Entity;
use crate::vector::Vector2;

verus! {

/// Sum of the two collision radii.
pub open spec fn reach(a: Entity, b: Entity) -> int {
    a.collision_radius + b.collision_radius
}

/// The two circles touch or intersect: the distance between the centres is at
/// most the sum of the radii. Neither side is negative, so the squares are
/// compared, which needs no root.
pub open spec fn overlap(a: Entity, b: Entity) -> bool {
    a.position.distance_squared(b.position) <= reach(a, b) * reach(a, b)
}

/// Tests two entities for overlap.
pub fn overlaps(a: &Entity, b: &Entity) -> (r: bool)
    ensures
        r == overlap(*a, *b),
{
    let span: i128 = a.collision_radius as i128 + b.collision_radius as i128;
    let dx: i128 = a.position.x as i128 - b.position.x as i128;
    let dy: i128 = a.position.y as i128 - b.position.y as i128;
    if dx > span || dx < -span || dy > span || dy < -span {
        proof {
            lemma_far_on_one_axis(dx as int, dy as int, span as int);
        }
        false
    } else {
        proof {
            lemma_square_bound(dx as int, span as int);
            lemma_square_bound(dy as int, span as int);
            lemma_square_bound(span as int, span as int);
        }
        dx * dx + dy * dy <= span * span
    }
}

/// Indices of the obstacles that overlap `subject`, in ascending order.
pub fn sweep(subject: &Entity, obstacles: &Vec<Entity>) -> (hits: Vec<usize>)
    ensures
        is_sweep_of(hits@, *subject, obstacles@),
{
    let mut hits: Vec<usize> = Vec::new();
    let mut k: usize = 0;
    while k < obstacles.len()
        invariant
            k <= obstacles.len(),
            forall|i: int|
                0 <= i < hits@.len() ==> (#[trigger] hits@[i]) < k && overlap(
                    *subject,
                    obstacles@[hits@[i] as int],
                ),
            forall|i: int, j: int| 0 <= i < j < hits@.len() ==> hits@[i] < hits@[j],
            forall|j: int|
                0 <= j < k && overlap(*subject, #[trigger] obstacles@[j]) ==> hits@.contains(
                    j as usize,
                ),
        decreases obstacles.len() - k,
    {
        let ghost before = hits@;
        if overlaps(subject, &obstacles[k]) {
            hits.push(k);
            assert(hits@[before.len() as int] == k);
        }
        proof {
            assert forall|j: int|
                0 <= j < k + 1 && overlap(*subject, #[trigger] obstacles@[j]) implies hits@.contains(
                j as usize,
            ) by {
                if j < k {
                    let at = choose|at: int| 0 <= at < before.len() && before[at] == j as usize;
                    assert(hits@[at] == j as usize);
                } else {
                    assert(hits@[before.len() as int] == j as usize);
                }
            }
        }
        k += 1;
    }
    hits
}

/// `hits` lists, in ascending order and without repetition, exactly the
/// indices of `obstacles` whose entity overlaps `subject`.
pub open spec fn is_sweep_of(hits: Seq<usize>, subject: Entity, obstacles: Seq<Entity>) -> bool {
    &&& forall|i: int|
        0 <= i < hits.len() ==> (#[trigger] hits[i]) < obstacles.len() && overlap(
            subject,
            obstacles[hits[i] as int],
        )
    &&& forall|i: int, j: int| 0 <= i < j < hits.len() ==> hits[i] < hits[j]
    &&& forall|j: int|
        0 <= j < obstacles.len() && overlap(subject, #[trigger] obstacles[j]) ==> hits.contains(
            j as usize,
        )
}

/// Overlap does not depend on the order of the two entities.
pub proof fn lemma_overlap_symmetric(a: Entity, b: Entity)
    ensures
        overlap(a, b) == overlap(b, a),
{
    lemma_distance_symmetric(a.position, b.position);
}

/// Every entity overlaps itself: its radius is never negative, and its centre
/// is at distance zero from itself.
pub proof fn lemma_overlap_reflexive(a: Entity)
    ensures
        overlap(a, a),
{
    let r = reach(a, a);
    assert(r * r >= 0) by (nonlinear_arith);
}

/// Two entities level on one axis overlap exactly when their distance along
/// the other axis is at most the sum of their radii.
pub proof fn lemma_overlap_along_axis(a: Entity, b: Entity)
    ensures
        a.position.y == b.position.y ==> (overlap(a, b) <==> -reach(a, b) <= a.position.x
            - b.position.x <= reach(a, b)),
        a.position.x == b.position.x ==> (overlap(a, b) <==> -reach(a, b) <= a.position.y
            - b.position.y <= reach(a, b)),
{
    let dx = a.position.x - b.position.x;
    let dy = a.position.y - b.position.y;
    lemma_square_order(dx, reach(a, b));
    lemma_square_order(dy, reach(a, b));
    assert(dx == 0 ==> dx * dx == 0) by (nonlinear_arith);
    assert(dy == 0 ==> dy * dy == 0) by (nonlinear_arith);
}

/// The squared distance is the same in both directions.
pub proof fn lemma_distance_symmetric(p: Vector2, q: Vector2)
    ensures
        p.distance_squared(q) == q.distance_squared(p),
{
    let dx = p.x - q.x;
    let dy = p.y - q.y;
    assert(dx * dx == (-dx) * (-dx)) by (nonlinear_arith);
    assert(dy * dy == (-dy) * (-dy)) by (nonlinear_arith);
}

/// Centres further apart on one axis than `span` are further apart than
/// `span` in the plane.
proof fn lemma_far_on_one_axis(dx: int, dy: int, span: int)
    by (nonlinear_arith)
    requires
        span >= 0,
        dx > span || dx < -span || dy > span || dy < -span,
    ensures
        dx * dx + dy * dy > span * span,
{
}

/// Squares compare as the magnitudes do.
proof fn lemma_square_order(d: int, span: int)
    by (nonlinear_arith)
    requires
        span >= 0,
    ensures
        d * d <= span * span <==> -span <= d <= span,
{
}

/// A value within `span` of zero has a square of at most `span` squared.
proof fn lemma_square_bound(d: int, span: int)
    by (nonlinear_arith)
    requires
        0 <= span <= 0x2_0000_0000,
        -span <= d <= span,
    ensures
        0 <= d * d <= span * span,
        span * span <= 0x4_0000_0000_0000_0000,
{
}

} // verus!
