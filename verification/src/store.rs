//! The body store: the ordered collection of bodies and the one selected for
//! editing.

use crate::body::{Body, Color, Params};
use crate::integrator::{holds_still, same_motion, step, stepped};
use crate::scalar::{Scalar, ONE_BITS, ZERO_BITS};
use vstd::prelude::*;

verus! {

/// A numeric attribute of a body.
#[derive(Clone, Copy, Debug, PartialEq, Eq, Structural)]
pub enum Field {
    Mass,
    Radius,
    XPosition,
    YPosition,
    XVelocity,
    YVelocity,
}

/// `body` with one attribute set. Mass and radius are raised to 1, a position
/// coordinate to 0; a velocity is taken as it is.
pub open spec fn edited(body: Body, field: Field, value: Scalar) -> Body {
    match field {
        Field::Mass => Body { mass: value.raised_to(Scalar { bits: ONE_BITS }), ..body },
        Field::Radius => Body { radius: value.raised_to(Scalar { bits: ONE_BITS }), ..body },
        Field::XPosition => Body { x_pos: value.raised_to(Scalar { bits: ZERO_BITS }), ..body },
        Field::YPosition => Body { y_pos: value.raised_to(Scalar { bits: ZERO_BITS }), ..body },
        Field::XVelocity => Body { x_vel: value, ..body },
        Field::YVelocity => Body { y_vel: value, ..body },
    }
}

/// Every body of the collection has a mass and a radius of at least 1.
pub open spec fn all_solid(bodies: Seq<Body>) -> bool {
    forall|i: int| 0 <= i < bodies.len() ==> (#[trigger] bodies[i]).is_solid()
}

/// What a store holds: the bodies in insertion order and the selected index.
pub struct StoreView {
    pub bodies: Seq<Body>,
    pub selected: nat,
}

impl StoreView {
    /// The selection names a body, or is 0 in an empty store; every body is
    /// solid.
    pub open spec fn wf(self) -> bool {
        &&& self.bodies.len() == 0 ==> self.selected == 0
        &&& self.bodies.len() > 0 ==> self.selected < self.bodies.len()
        &&& all_solid(self.bodies)
    }

    /// The empty store.
    pub open spec fn empty() -> StoreView {
        StoreView { bodies: Seq::empty(), selected: 0 }
    }

    /// The selection that follows a change of the collection's length: its
    /// last index, or 0 where nothing is left.
    pub open spec fn last_index(bodies: Seq<Body>) -> nat {
        if bodies.len() == 0 {
            0
        } else {
            (bodies.len() - 1) as nat
        }
    }

    /// The store with `body` appended and selected.
    pub open spec fn with_appended(self, body: Body) -> StoreView {
        StoreView { bodies: self.bodies.push(body), selected: self.bodies.len() }
    }

    /// The store with the standard body appended and selected.
    pub open spec fn create_default(self) -> StoreView {
        self.with_appended(Body::standard())
    }

    /// The store with a copy of body `index` appended and selected.
    pub open spec fn duplicate(self, index: int) -> StoreView {
        self.with_appended(self.bodies[index])
    }

    /// The store without body `index`; the selection jumps to the last body
    /// that is left.
    pub open spec fn delete(self, index: int) -> StoreView {
        StoreView {
            bodies: self.bodies.remove(index),
            selected: Self::last_index(self.bodies.remove(index)),
        }
    }

    /// The store with `index` selected.
    pub open spec fn select(self, index: int) -> StoreView {
        StoreView { selected: index as nat, ..self }
    }

    /// The store with one attribute of body `index` set.
    pub open spec fn edit_field(self, index: int, field: Field, value: Scalar) -> StoreView {
        StoreView { bodies: self.bodies.update(index, edited(self.bodies[index], field, value)), ..self }
    }

    /// The store with the colour of body `index` set.
    pub open spec fn recolor(self, index: int, color: Color) -> StoreView {
        StoreView { bodies: self.bodies.update(index, Body { rgb: color, ..self.bodies[index] }), ..self }
    }

    /// The store with its collection replaced; the selection stays.
    pub open spec fn with_bodies(self, bodies: Seq<Body>) -> StoreView {
        StoreView { bodies, ..self }
    }

    /// The store after one integration step.
    pub open spec fn advance(self, params: Params) -> StoreView {
        self.with_bodies(stepped(self.bodies, params))
    }
}

/// Owns the collection of bodies and the selection.
pub struct BodyStore {
    bodies: Vec<Body>,
    selected: usize,
}

impl View for BodyStore {
    type V = StoreView;

    closed spec fn view(&self) -> StoreView {
        StoreView { bodies: self.bodies@, selected: self.selected as nat }
    }
}

impl BodyStore {
    /// Whether the store is well formed.
    pub open spec fn wf(&self) -> bool {
        self@.wf()
    }

    /// An empty store.
    pub fn new() -> (s: BodyStore)
        ensures
            s.wf(),
            s@ == StoreView::empty(),
    {
        BodyStore { bodies: Vec::new(), selected: 0 }
    }

    /// The number of bodies.
    pub fn len(&self) -> (n: usize)
        ensures
            n == self@.bodies.len(),
    {
        self.bodies.len()
    }

    /// The selected index; in an empty store it is 0 and names nothing.
    pub fn selected(&self) -> (i: usize)
        ensures
            i == self@.selected,
    {
        self.selected
    }

    /// The bodies, in insertion order.
    pub fn bodies(&self) -> (b: &Vec<Body>)
        ensures
            b@ == self@.bodies,
    {
        &self.bodies
    }

    /// The body at `index`.
    pub fn body(&self, index: usize) -> (b: Body)
        requires
            index < self@.bodies.len(),
        ensures
            b == self@.bodies[index as int],
    {
        self.bodies[index]
    }

    /// A copy of the collection.
    pub fn snapshot(&self) -> (copy: Vec<Body>)
        ensures
            copy@ == self@.bodies,
    {
        let mut copy: Vec<Body> = Vec::new();
        let n = self.bodies.len();
        let mut i: usize = 0;
        while i < n
            invariant
                i <= n,
                n == self.bodies@.len(),
                copy@ == self.bodies@.take(i as int),
            decreases n - i,
        {
            copy.push(self.bodies[i]);
            assert(self.bodies@.take(i + 1) =~= self.bodies@.take(i as int).push(
                self.bodies@[i as int],
            ));
            i = i + 1;
        }
        assert(self.bodies@.take(n as int) =~= self.bodies@);
        copy
    }

    /// Appends the standard body and selects it; returns its index.
    pub fn create_default(&mut self) -> (index: usize)
        requires
            old(self).wf(),
        ensures
            final(self).wf(),
            final(self)@ == old(self)@.create_default(),
            index == old(self)@.bodies.len(),
    {
        self.append(Body::default())
    }

    /// Appends a copy of the body at `index` and selects it; returns the
    /// index of the copy.
    pub fn duplicate(&mut self, index: usize) -> (copy: usize)
        requires
            old(self).wf(),
            index < old(self)@.bodies.len(),
        ensures
            final(self).wf(),
            final(self)@ == old(self)@.duplicate(index as int),
            copy == old(self)@.bodies.len(),
    {
        let body: Body = self.bodies[index];
        self.append(body)
    }

    fn append(&mut self, body: Body) -> (index: usize)
        requires
            old(self).wf(),
            body.is_solid(),
        ensures
            final(self).wf(),
            final(self)@ == old(self)@.with_appended(body),
            index == old(self)@.bodies.len(),
    {
        let index = self.bodies.len();
        self.bodies.push(body);
        self.selected = index;
        index
    }

    /// Removes the body at `index`. The selection becomes the last index of
    /// what is left, or 0 where the store is now empty, whichever body was
    /// selected before.
    pub fn delete(&mut self, index: usize)
        requires
            old(self).wf(),
            index < old(self)@.bodies.len(),
        ensures
            final(self).wf(),
            final(self)@ == old(self)@.delete(index as int),
            final(self)@.bodies.len() == old(self)@.bodies.len() - 1,
            final(self)@.bodies.len() == 0 ==> final(self)@.selected == 0,
            final(self)@.bodies.len() > 0 ==> final(self)@.selected == final(self)@.bodies.len()
                - 1,
    {
        self.bodies.remove(index);
        if self.bodies.len() == 0 {
            self.selected = 0;
        } else {
            self.selected = self.bodies.len() - 1;
        }
    }

    /// Removes every body; the selection becomes 0.
    pub fn clear(&mut self)
        ensures
            final(self).wf(),
            final(self)@ == StoreView::empty(),
    {
        self.bodies.clear();
        self.selected = 0;
    }

    /// Selects the body at `index`.
    pub fn select(&mut self, index: usize)
        requires
            old(self).wf(),
            index < old(self)@.bodies.len(),
        ensures
            final(self).wf(),
            final(self)@ == old(self)@.select(index as int),
    {
        self.selected = index;
    }

    /// Sets one attribute of the body at `index`. A mass or radius below 1
    /// becomes 1, a position coordinate below 0 becomes 0, and so does a NaN
    /// in their place; a velocity is stored as given.
    pub fn edit_field(&mut self, index: usize, field: Field, value: Scalar)
        requires
            old(self).wf(),
            index < old(self)@.bodies.len(),
        ensures
            final(self).wf(),
            final(self)@ == old(self)@.edit_field(index as int, field, value),
    {
        let mut body: Body = self.bodies[index];
        match field {
            Field::Mass => {
                body.mass = value.clamp_floor(Scalar::one());
            },
            Field::Radius => {
                body.radius = value.clamp_floor(Scalar::one());
            },
            Field::XPosition => {
                body.x_pos = value.clamp_floor(Scalar::zero());
            },
            Field::YPosition => {
                body.y_pos = value.clamp_floor(Scalar::zero());
            },
            Field::XVelocity => {
                body.x_vel = value;
            },
            Field::YVelocity => {
                body.y_vel = value;
            },
        }
        self.bodies.set(index, body);
    }

    /// Sets the colour of the body at `index`.
    pub fn set_color(&mut self, index: usize, color: Color)
        requires
            old(self).wf(),
            index < old(self)@.bodies.len(),
        ensures
            final(self).wf(),
            final(self)@ == old(self)@.recolor(index as int, color),
    {
        let mut body: Body = self.bodies[index];
        body.rgb = color;
        self.bodies.set(index, body);
    }

    /// Replaces the collection by one of the same length; the selection
    /// stays.
    pub fn restore(&mut self, bodies: Vec<Body>)
        requires
            old(self).wf(),
            bodies@.len() == old(self)@.bodies.len(),
            all_solid(bodies@),
        ensures
            final(self).wf(),
            final(self)@ == old(self)@.with_bodies(bodies@),
    {
        self.bodies = bodies;
    }

    /// Advances the collection by one integration step. A step of no
    /// duration that finds every rate finite leaves every position and
    /// velocity the number it was.
    pub fn advance(&mut self, params: &Params)
        requires
            old(self).wf(),
        ensures
            final(self).wf(),
            final(self)@ == old(self)@.advance(*params),
            final(self)@.bodies.len() == old(self)@.bodies.len(),
            forall|i: int|
                0 <= i < old(self)@.bodies.len() ==> (#[trigger] final(self)@.bodies[i]).same_matter(
                    old(self)@.bodies[i],
                ),
            holds_still(old(self)@.bodies, *params) ==> forall|i: int|
                0 <= i < old(self)@.bodies.len() ==> same_motion(
                    #[trigger] final(self)@.bodies[i],
                    old(self)@.bodies[i],
                ),
    {
        step(&mut self.bodies, params);
    }
}

} // verus!
