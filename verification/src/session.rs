//! The session: a store, the parameters, and the switch between editing the
//! bodies and running the simulation on them.
//!
//! A run works on the live collection and keeps a copy of what it started
//! from; ending the run puts that copy back, so a run leaves no trace.

use crate::body::{Body, Color, Params};
use crate::integrator::{holds_still, lemma_stepped_keeps_matter, same_motion};
use crate::scalar::{Scalar, ZERO_BITS};
use crate::store::{BodyStore, Field, StoreView};
use vstd::prelude::*;

verus! {

/// The two modes of a session.
#[derive(Clone, Copy, Debug, PartialEq, Eq, Structural)]
pub enum SessionState {
    Editing,
    Running,
}

/// What a session holds.
pub struct SessionView {
    pub store: StoreView,
    pub params: Params,
    pub state: SessionState,
    /// The collection as it was when the run started; empty while editing.
    pub snapshot: Seq<Body>,
    /// The simulated time of the run; zero while editing.
    pub elapsed: Scalar,
}

impl SessionView {
    /// The store and the parameters are valid. While editing there is no
    /// snapshot and no elapsed time. While running there are at least two
    /// bodies, and the snapshot holds the same bodies in the same order,
    /// whatever their motion.
    pub open spec fn wf(self) -> bool {
        &&& self.store.wf()
        &&& self.params.is_valid()
        &&& self.state == SessionState::Editing ==> {
            &&& self.snapshot.len() == 0
            &&& self.elapsed.bits == ZERO_BITS
        }
        &&& self.state == SessionState::Running ==> {
            &&& self.store.bodies.len() >= 2
            &&& self.snapshot.len() == self.store.bodies.len()
            &&& forall|i: int|
                0 <= i < self.snapshot.len() ==> (#[trigger] self.store.bodies[i]).same_matter(
                    self.snapshot[i],
                )
        }
    }

    /// A session that edits an empty store under the standard parameters.
    pub open spec fn initial() -> SessionView {
        SessionView {
            store: StoreView::empty(),
            params: Params::standard(),
            state: SessionState::Editing,
            snapshot: Seq::empty(),
            elapsed: Scalar { bits: ZERO_BITS },
        }
    }

    /// The session with its store replaced.
    pub open spec fn with_store(self, store: StoreView) -> SessionView {
        SessionView { store, ..self }
    }

    /// The session with its parameters replaced.
    pub open spec fn with_params(self, params: Params) -> SessionView {
        SessionView { params, ..self }
    }

    /// Whether a run may start: at least two bodies.
    pub open spec fn can_start(self) -> bool {
        self.store.bodies.len() >= 2
    }

    /// The session after a request to start a run: running from time zero
    /// with a snapshot of the bodies, or unchanged with fewer than two.
    pub open spec fn start_run(self) -> SessionView {
        if self.can_start() {
            SessionView {
                state: SessionState::Running,
                snapshot: self.store.bodies,
                elapsed: Scalar { bits: ZERO_BITS },
                ..self
            }
        } else {
            self
        }
    }

    /// The session after one tick of a run.
    pub open spec fn tick(self) -> SessionView {
        SessionView {
            store: self.store.advance(self.params),
            elapsed: self.elapsed.plus(self.params.time_step),
            ..self
        }
    }

    /// The session after `n` ticks of a run.
    pub open spec fn ticks(self, n: nat) -> SessionView
        decreases n,
    {
        if n == 0 {
            self
        } else {
            self.ticks((n - 1) as nat).tick()
        }
    }

    /// The session after the end of a run: editing the snapshot.
    pub open spec fn end_run(self) -> SessionView {
        SessionView {
            store: self.store.with_bodies(self.snapshot),
            state: SessionState::Editing,
            snapshot: Seq::empty(),
            elapsed: Scalar { bits: ZERO_BITS },
            ..self
        }
    }
}

/// A tick keeps a running session well formed and running, and touches
/// neither the snapshot, the selection nor the parameters.
pub proof fn lemma_tick_keeps_run(s: SessionView)
    requires
        s.wf(),
        s.state == SessionState::Running,
    ensures
        s.tick().wf(),
        s.tick().state == SessionState::Running,
        s.tick().snapshot == s.snapshot,
        s.tick().params == s.params,
        s.tick().store.selected == s.store.selected,
        s.tick().store.bodies.len() == s.store.bodies.len(),
{
    lemma_stepped_keeps_matter(s.store.bodies, s.params);
    let after = s.tick();
    assert forall|i: int| 0 <= i < after.store.bodies.len() implies (
    #[trigger] after.store.bodies[i]).is_solid() by {
        assert(after.store.bodies[i].same_matter(s.store.bodies[i]));
        assert(s.store.bodies[i].is_solid());
    }
    assert forall|i: int| 0 <= i < after.snapshot.len() implies (
    #[trigger] after.store.bodies[i]).same_matter(after.snapshot[i]) by {
        assert(after.store.bodies[i].same_matter(s.store.bodies[i]));
        assert(s.store.bodies[i].same_matter(s.snapshot[i]));
    }
}

/// Any number of ticks keeps a running session well formed and running, and
/// touches neither the snapshot, the selection nor the parameters.
pub proof fn lemma_ticks_keep_run(s: SessionView, n: nat)
    requires
        s.wf(),
        s.state == SessionState::Running,
    ensures
        s.ticks(n).wf(),
        s.ticks(n).state == SessionState::Running,
        s.ticks(n).snapshot == s.snapshot,
        s.ticks(n).params == s.params,
        s.ticks(n).store.selected == s.store.selected,
        s.ticks(n).store.bodies.len() == s.store.bodies.len(),
    decreases n,
{
    if n > 0 {
        lemma_ticks_keep_run(s, (n - 1) as nat);
        lemma_tick_keeps_run(s.ticks((n - 1) as nat));
    }
}

/// A run leaves no trace: from a session that edits at least two bodies,
/// starting a run, ticking any number of times and ending the run gives back
/// the session as it was, with every body, in its order, bit for bit.
pub proof fn lemma_run_round_trip(s: SessionView, n: nat)
    requires
        s.wf(),
        s.state == SessionState::Editing,
        s.can_start(),
    ensures
        s.start_run().ticks(n).end_run() == s,
        s.start_run().ticks(n).end_run().store.bodies == s.store.bodies,
{
    let started = s.start_run();
    assert(started.wf()) by {
        assert(s.store.wf());
    }
    lemma_ticks_keep_run(started, n);
    let ended = started.ticks(n).end_run();
    assert(ended.snapshot =~= s.snapshot);
    assert(ended.store == s.store);
}

/// A store, the parameters of its simulation, and the state of the run.
pub struct Session {
    store: BodyStore,
    params: Params,
    state: SessionState,
    snapshot: Vec<Body>,
    elapsed: Scalar,
}

impl View for Session {
    type V = SessionView;

    closed spec fn view(&self) -> SessionView {
        SessionView {
            store: self.store@,
            params: self.params,
            state: self.state,
            snapshot: self.snapshot@,
            elapsed: self.elapsed,
        }
    }
}

impl Default for Session {
    fn default() -> (s: Session)
        ensures
            s.wf(),
            s@ == SessionView::initial(),
    {
        Session::new()
    }
}

impl Session {
    /// Whether the session is well formed.
    pub open spec fn wf(&self) -> bool {
        self@.wf()
    }

    /// A session that edits an empty store under the standard parameters.
    pub fn new() -> (s: Session)
        ensures
            s.wf(),
            s@ == SessionView::initial(),
    {
        Session {
            store: BodyStore::new(),
            params: Params::default(),
            state: SessionState::Editing,
            snapshot: Vec::new(),
            elapsed: Scalar::zero(),
        }
    }

    /// The bodies, in insertion order.
    pub fn bodies(&self) -> (b: &Vec<Body>)
        ensures
            b@ == self@.store.bodies,
    {
        self.store.bodies()
    }

    /// The number of bodies.
    pub fn len(&self) -> (n: usize)
        ensures
            n == self@.store.bodies.len(),
    {
        self.store.len()
    }

    /// The selected index; with no body it is 0 and names nothing.
    pub fn selected(&self) -> (i: usize)
        ensures
            i == self@.store.selected,
    {
        self.store.selected()
    }

    /// Whether the session is editing or running.
    pub fn state(&self) -> (s: SessionState)
        ensures
            s == self@.state,
    {
        self.state
    }

    /// The simulated time since the run started.
    pub fn elapsed(&self) -> (t: Scalar)
        ensures
            t == self@.elapsed,
    {
        self.elapsed
    }

    /// The parameters of the simulation.
    pub fn params(&self) -> (p: Params)
        ensures
            p == self@.params,
    {
        self.params
    }

    /// Appends the standard body and selects it; returns its index.
    pub fn create_default(&mut self) -> (index: usize)
        requires
            old(self).wf(),
            old(self)@.state == SessionState::Editing,
        ensures
            final(self).wf(),
            final(self)@ == old(self)@.with_store(old(self)@.store.create_default()),
            index == old(self)@.store.bodies.len(),
    {
        self.store.create_default()
    }

    /// Appends a copy of the body at `index` and selects it; returns the
    /// index of the copy.
    pub fn duplicate(&mut self, index: usize) -> (copy: usize)
        requires
            old(self).wf(),
            old(self)@.state == SessionState::Editing,
            index < old(self)@.store.bodies.len(),
        ensures
            final(self).wf(),
            final(self)@ == old(self)@.with_store(old(self)@.store.duplicate(index as int)),
            copy == old(self)@.store.bodies.len(),
    {
        self.store.duplicate(index)
    }

    /// Removes the body at `index`; the last body that is left becomes the
    /// selected one.
    pub fn delete(&mut self, index: usize)
        requires
            old(self).wf(),
            old(self)@.state == SessionState::Editing,
            index < old(self)@.store.bodies.len(),
        ensures
            final(self).wf(),
            final(self)@ == old(self)@.with_store(old(self)@.store.delete(index as int)),
            final(self)@.store.bodies.len() == 0 ==> final(self)@.store.selected == 0,
            final(self)@.store.bodies.len() > 0 ==> final(self)@.store.selected
                == final(self)@.store.bodies.len() - 1,
    {
        self.store.delete(index);
    }

    /// Removes every body; the selection becomes 0.
    pub fn clear(&mut self)
        requires
            old(self).wf(),
            old(self)@.state == SessionState::Editing,
        ensures
            final(self).wf(),
            final(self)@ == old(self)@.with_store(StoreView::empty()),
    {
        self.store.clear();
    }

    /// Selects the body at `index`.
    pub fn select(&mut self, index: usize)
        requires
            old(self).wf(),
            old(self)@.state == SessionState::Editing,
            index < old(self)@.store.bodies.len(),
        ensures
            final(self).wf(),
            final(self)@ == old(self)@.with_store(old(self)@.store.select(index as int)),
    {
        self.store.select(index);
    }

    /// Sets one attribute of the body at `index`, raised to its floor.
    pub fn edit_field(&mut self, index: usize, field: Field, value: Scalar)
        requires
            old(self).wf(),
            old(self)@.state == SessionState::Editing,
            index < old(self)@.store.bodies.len(),
        ensures
            final(self).wf(),
            final(self)@ == old(self)@.with_store(
                old(self)@.store.edit_field(index as int, field, value),
            ),
    {
        self.store.edit_field(index, field, value);
    }

    /// Sets the colour of the body at `index`.
    pub fn set_color(&mut self, index: usize, color: Color)
        requires
            old(self).wf(),
            old(self)@.state == SessionState::Editing,
            index < old(self)@.store.bodies.len(),
        ensures
            final(self).wf(),
            final(self)@ == old(self)@.with_store(old(self)@.store.recolor(index as int, color)),
    {
        self.store.set_color(index, color);
    }

    /// Sets the gravitational constant.
    pub fn set_gravitational_constant(&mut self, value: Scalar)
        requires
            old(self).wf(),
            old(self)@.state == SessionState::Editing,
        ensures
            final(self).wf(),
            final(self)@ == old(self)@.with_params(
                (Params { gravitational_constant: value, ..old(self)@.params }),
            ),
    {
        self.params.gravitational_constant = value;
    }

    /// Sets the softening floor; a value below 0, or a NaN, becomes 0.
    pub fn set_min_separation(&mut self, value: Scalar)
        requires
            old(self).wf(),
            old(self)@.state == SessionState::Editing,
        ensures
            final(self).wf(),
            final(self)@ == old(self)@.with_params(
                (Params {
                    min_separation: value.raised_to(Scalar { bits: ZERO_BITS }),
                    ..old(self)@.params
                }),
            ),
    {
        self.params.min_separation = value.clamp_floor(Scalar::zero());
    }

    /// Sets the time that one step advances.
    pub fn set_time_step(&mut self, value: Scalar)
        requires
            old(self).wf(),
            old(self)@.state == SessionState::Editing,
        ensures
            final(self).wf(),
            final(self)@ == old(self)@.with_params(
                (Params { time_step: value, ..old(self)@.params }),
            ),
    {
        self.params.time_step = value;
    }

    /// Starts a run where there are at least two bodies: keeps a snapshot of
    /// them, sets the elapsed time to zero and switches to running. With
    /// fewer bodies nothing changes and the session goes on editing.
    pub fn start_run(&mut self) -> (started: bool)
        requires
            old(self).wf(),
            old(self)@.state == SessionState::Editing,
        ensures
            final(self).wf(),
            final(self)@ == old(self)@.start_run(),
            started == old(self)@.can_start(),
            started ==> final(self)@.state == SessionState::Running,
            !started ==> final(self)@ == old(self)@,
    {
        if self.store.len() < 2 {
            return false;
        }
        self.snapshot = self.store.snapshot();
        self.elapsed = Scalar::zero();
        self.state = SessionState::Running;
        true
    }

    /// Adds one time step to the elapsed time, then advances the bodies by
    /// one integration step. With a time step of zero, where every velocity
    /// is finite, every position a number and every pull of finite rate,
    /// every position and velocity stays the number it was.
    pub fn tick(&mut self)
        requires
            old(self).wf(),
            old(self)@.state == SessionState::Running,
        ensures
            final(self).wf(),
            final(self)@ == old(self)@.tick(),
            final(self)@.state == SessionState::Running,
            holds_still(old(self)@.store.bodies, old(self)@.params) ==> forall|i: int|
                0 <= i < old(self)@.store.bodies.len() ==> same_motion(
                    #[trigger] final(self)@.store.bodies[i],
                    old(self)@.store.bodies[i],
                ),
    {
        proof {
            lemma_tick_keeps_run(self@);
        }
        self.elapsed = self.elapsed.add(self.params.time_step);
        self.store.advance(&self.params);
    }

    /// Ends the run: the bodies are again those of the snapshot, the
    /// snapshot and the elapsed time are dropped, and the session edits.
    pub fn end_run(&mut self)
        requires
            old(self).wf(),
            old(self)@.state == SessionState::Running,
        ensures
            final(self).wf(),
            final(self)@ == old(self)@.end_run(),
            final(self)@.state == SessionState::Editing,
            final(self)@.store.bodies == old(self)@.snapshot,
    {
        let mut saved: Vec<Body> = Vec::new();
        std::mem::swap(&mut self.snapshot, &mut saved);
        proof {
            assert forall|i: int| 0 <= i < saved@.len() implies (#[trigger] saved@[i]).is_solid() by {
                assert(self.store@.bodies[i].same_matter(saved@[i]));
                assert(self.store@.bodies[i].is_solid());
            }
        }
        self.store.restore(saved);
        self.elapsed = Scalar::zero();
        self.state = SessionState::Editing;
    }
}

} // verus!
