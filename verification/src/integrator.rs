//! One step of pairwise gravity with a softening floor, integrated by
//! semi-implicit Euler: every velocity is updated from the positions before
//! the step, then every position from its new velocity.

use crate::body::{Body, Params};
use crate::scalar::Scalar;
use vstd::prelude::*;

verus! {

/// What one body takes off the velocity of another in one step, per axis.
#[derive(Clone, Copy, Debug, PartialEq, Eq, Structural)]
pub struct Pull {
    pub x: Scalar,
    pub y: Scalar,
}

/// The squared length of the offset `(dx, dy)`.
pub open spec fn separation_squared(dx: Scalar, dy: Scalar) -> Scalar {
    dx.times(dx).plus(dy.times(dy))
}

/// The square of the softening floor.
pub open spec fn floor_squared(params: Params) -> Scalar {
    params.min_separation.times(params.min_separation)
}

/// A squared separation, raised to the squared floor where it is below it.
pub open spec fn softened(r2: Scalar, floor2: Scalar) -> Scalar {
    if r2.less_than(floor2) {
        floor2
    } else {
        r2
    }
}

/// The size of the attraction towards a mass at a softened squared separation.
pub open spec fn strength(mass: Scalar, g: Scalar, r2: Scalar) -> Scalar {
    mass.times(g).over(r2)
}

/// The strength with which `from` attracts `onto`.
pub open spec fn pull_strength(onto: Body, from: Body, params: Params) -> Scalar {
    let dx = onto.x_pos.minus(from.x_pos);
    let dy = onto.y_pos.minus(from.y_pos);
    strength(
        from.mass,
        params.gravitational_constant,
        softened(separation_squared(dx, dy), floor_squared(params)),
    )
}

/// The pull of `from` on `onto` per unit of time.
///
/// The strength divides by the softened squared separation; the direction
/// divides the offset by the length of the separation as it is, unsoftened.
pub open spec fn pull_rate(onto: Body, from: Body, params: Params) -> Pull {
    let dx = onto.x_pos.minus(from.x_pos);
    let dy = onto.y_pos.minus(from.y_pos);
    let magnitude = separation_squared(dx, dy).root();
    let s = pull_strength(onto, from, params);
    Pull { x: s.times(dx.over(magnitude)), y: s.times(dy.over(magnitude)) }
}

/// The pull of `from` on `onto` over one step: the rate times the time step.
pub open spec fn pull_between(onto: Body, from: Body, params: Params) -> Pull {
    let rate = pull_rate(onto, from, params);
    Pull { x: rate.x.times(params.time_step), y: rate.y.times(params.time_step) }
}

/// `body` with a pull taken off its velocity.
pub open spec fn pulled(body: Body, pull: Pull) -> Body {
    Body { x_vel: body.x_vel.minus(pull.x), y_vel: body.y_vel.minus(pull.y), ..body }
}

/// Body `i` after the pulls of the bodies before index `upto`, itself left
/// out, taken in the order of the collection. Every pull is computed from the
/// positions in `bodies`.
pub open spec fn accelerated(bodies: Seq<Body>, params: Params, i: int, upto: int) -> Body
    decreases upto,
{
    if upto <= 0 {
        bodies[i]
    } else {
        let before = accelerated(bodies, params, i, upto - 1);
        if upto - 1 == i {
            before
        } else {
            pulled(before, pull_between(bodies[i], bodies[upto - 1], params))
        }
    }
}

/// `body` carried along its velocity for one step.
pub open spec fn moved(body: Body, params: Params) -> Body {
    Body {
        x_pos: body.x_pos.plus(body.x_vel.times(params.time_step)),
        y_pos: body.y_pos.plus(body.y_vel.times(params.time_step)),
        ..body
    }
}

/// The collection after one step.
pub open spec fn stepped(bodies: Seq<Body>, params: Params) -> Seq<Body> {
    Seq::new(
        bodies.len(),
        |i: int| moved(accelerated(bodies, params, i, bodies.len() as int), params),
    )
}

/// Whether `after` is `before` with the same position and velocity as
/// numbers, and the same mass, radius and colour.
pub open spec fn same_motion(after: Body, before: Body) -> bool {
    &&& after.same_matter(before)
    &&& after.x_pos.same_number(before.x_pos)
    &&& after.y_pos.same_number(before.y_pos)
    &&& after.x_vel.same_number(before.x_vel)
    &&& after.y_vel.same_number(before.y_vel)
}

/// Whether a step of no duration finds nothing to spoil: the time step is
/// zero, every velocity is finite, every position is a number, and the rate
/// of every pull is finite.
pub open spec fn holds_still(bodies: Seq<Body>, params: Params) -> bool {
    &&& params.time_step.is_zero()
    &&& forall|i: int|
        0 <= i < bodies.len() ==> {
            &&& (#[trigger] bodies[i]).x_vel.is_finite()
            &&& bodies[i].y_vel.is_finite()
            &&& !bodies[i].x_pos.is_nan()
            &&& !bodies[i].y_pos.is_nan()
        }
    &&& forall|i: int, j: int|
        0 <= i < bodies.len() && 0 <= j < bodies.len() && i != j ==> {
            &&& (#[trigger] pull_rate(bodies[i], bodies[j], params)).x.is_finite()
            &&& pull_rate(bodies[i], bodies[j], params).y.is_finite()
        }
}

/// Pulls change a velocity and nothing else.
pub proof fn lemma_accelerated_keeps_place(bodies: Seq<Body>, params: Params, i: int, upto: int)
    ensures
        accelerated(bodies, params, i, upto).same_matter(bodies[i]),
        accelerated(bodies, params, i, upto).x_pos == bodies[i].x_pos,
        accelerated(bodies, params, i, upto).y_pos == bodies[i].y_pos,
    decreases upto,
{
    if upto > 0 {
        lemma_accelerated_keeps_place(bodies, params, i, upto - 1);
    }
}

/// A step creates and destroys no body and changes no mass, radius or colour.
pub proof fn lemma_stepped_keeps_matter(bodies: Seq<Body>, params: Params)
    ensures
        stepped(bodies, params).len() == bodies.len(),
        forall|i: int|
            0 <= i < bodies.len() ==> (#[trigger] stepped(bodies, params)[i]).same_matter(
                bodies[i],
            ),
{
    assert forall|i: int| 0 <= i < bodies.len() implies (#[trigger] stepped(
        bodies,
        params,
    )[i]).same_matter(bodies[i]) by {
        lemma_accelerated_keeps_place(bodies, params, i, bodies.len() as int);
    }
}

/// Below the floor, the squared separation does not matter: a pair closer
/// than the floor attracts with the strength of a pair of the same mass that
/// is exactly at the floor.
pub proof fn lemma_softening_floor(
    onto: Body,
    from: Body,
    onto_at_floor: Body,
    from_at_floor: Body,
    params: Params,
)
    requires
        from.mass == from_at_floor.mass,
        separation_squared(
            onto.x_pos.minus(from.x_pos),
            onto.y_pos.minus(from.y_pos),
        ).less_than(floor_squared(params)),
        separation_squared(
            onto_at_floor.x_pos.minus(from_at_floor.x_pos),
            onto_at_floor.y_pos.minus(from_at_floor.y_pos),
        ) == floor_squared(params),
    ensures
        pull_strength(onto, from, params) == pull_strength(onto_at_floor, from_at_floor, params),
        pull_strength(onto, from, params) == strength(
            from.mass,
            params.gravitational_constant,
            floor_squared(params),
        ),
{
}

/// A squared separation, raised to the squared floor where it is below it.
pub fn soften(r2: Scalar, floor2: Scalar) -> (r: Scalar)
    ensures
        r == softened(r2, floor2),
{
    if r2.lt(floor2) {
        floor2
    } else {
        r2
    }
}

/// The pull of `from` on `onto` over one step. Over a time step of zero, a
/// pull of finite rate is zero.
pub fn pull(onto: &Body, from: &Body, params: &Params) -> (p: Pull)
    ensures
        p == pull_between(*onto, *from, *params),
        params.time_step.is_zero() && pull_rate(*onto, *from, *params).x.is_finite()
            ==> p.x.is_zero(),
        params.time_step.is_zero() && pull_rate(*onto, *from, *params).y.is_finite()
            ==> p.y.is_zero(),
{
    let dx = onto.x_pos.sub(from.x_pos);
    let dy = onto.y_pos.sub(from.y_pos);
    let r2 = dx.mul(dx).add(dy.mul(dy));
    let magnitude = r2.sqrt();
    let floor2 = params.min_separation.mul(params.min_separation);
    let s = from.mass.mul(params.gravitational_constant).div(soften(r2, floor2));
    Pull {
        x: s.mul(dx.div(magnitude)).mul(params.time_step),
        y: s.mul(dy.div(magnitude)).mul(params.time_step),
    }
}

/// Advances the collection by one step, in place.
///
/// Every velocity is first updated by the pulls of all the other bodies,
/// computed from the positions before the step; then every position moves by
/// its new velocity. A step of no duration that finds every rate finite
/// leaves every position and velocity the number it was.
pub fn step(bodies: &mut Vec<Body>, params: &Params)
    ensures
        final(bodies)@ == stepped(old(bodies)@, *params),
        final(bodies)@.len() == old(bodies)@.len(),
        forall|i: int|
            0 <= i < old(bodies)@.len() ==> (#[trigger] final(bodies)@[i]).same_matter(
                old(bodies)@[i],
            ),
        holds_still(old(bodies)@, *params) ==> forall|i: int|
            0 <= i < old(bodies)@.len() ==> same_motion(
                #[trigger] final(bodies)@[i],
                old(bodies)@[i],
            ),
{
    let ghost before = bodies@;
    let ghost still = holds_still(before, *params);
    let n = bodies.len();
    let mut i: usize = 0;
    while i < n
        invariant
            i <= n,
            n == before.len(),
            bodies@.len() == n,
            still == holds_still(before, *params),
            forall|k: int|
                0 <= k < i ==> bodies@[k] == accelerated(before, *params, k, n as int),
            forall|k: int| i <= k < n ==> bodies@[k] == before[k],
            still ==> forall|k: int| 0 <= k < n ==> same_motion(#[trigger] bodies@[k], before[k]),
        decreases n - i,
    {
        let mut current: Body = bodies[i];
        let mut j: usize = 0;
        while j < n
            invariant
                i < n,
                j <= n,
                n == before.len(),
                bodies@.len() == n,
                still == holds_still(before, *params),
                current == accelerated(before, *params, i as int, j as int),
                still ==> same_motion(current, before[i as int]),
                bodies@[i as int] == before[i as int],
                forall|k: int|
                    0 <= k < i ==> bodies@[k] == accelerated(before, *params, k, n as int),
                forall|k: int| i <= k < n ==> bodies@[k] == before[k],
                still ==> forall|k: int|
                    0 <= k < n ==> same_motion(#[trigger] bodies@[k], before[k]),
            decreases n - j,
        {
            if i != j {
                let other: Body = bodies[j];
                let here: Body = bodies[i];
                proof {
                    lemma_accelerated_keeps_place(before, *params, j as int, n as int);
                    assert(pull_rate(here, other, *params) == pull_rate(
                        before[i as int],
                        before[j as int],
                        *params,
                    ));
                    assert(still ==> before[i as int].x_vel.is_finite());
                }
                let p = pull(&here, &other, params);
                assert(p == pull_between(before[i as int], before[j as int], *params));
                current.x_vel = current.x_vel.sub(p.x);
                current.y_vel = current.y_vel.sub(p.y);
            }
            j = j + 1;
        }
        bodies.set(i, current);
        i = i + 1;
    }
    let mut k: usize = 0;
    while k < n
        invariant
            k <= n,
            n == before.len(),
            bodies@.len() == n,
            still == holds_still(before, *params),
            forall|m: int|
                0 <= m < k ==> bodies@[m] == moved(
                    accelerated(before, *params, m, n as int),
                    *params,
                ),
            forall|m: int|
                k <= m < n ==> bodies@[m] == accelerated(before, *params, m, n as int),
            still ==> forall|m: int| 0 <= m < n ==> same_motion(#[trigger] bodies@[m], before[m]),
        decreases n - k,
    {
        let mut current: Body = bodies[k];
        proof {
            assert(still ==> same_motion(current, before[k as int]));
            assert(still ==> before[k as int].x_vel.is_finite());
        }
        current.x_pos = current.x_pos.add(current.x_vel.mul(params.time_step));
        current.y_pos = current.y_pos.add(current.y_vel.mul(params.time_step));
        bodies.set(k, current);
        k = k + 1;
    }
    proof {
        assert(bodies@ =~= stepped(before, *params));
        lemma_stepped_keeps_matter(before, *params);
    }
}

} // verus!
