//! The families of steppers.
//!
//! Every stepper keeps what it carries from one call to the next in a buffer
//! that the caller owns: `init` makes the buffer, each step changes it in
//! place. A stepper itself holds no state and may serve any number of
//! buffers.
//!
//! The contracts of the traits say what holds of every stepper of a family.
//! Each stepper adds to them, in its own implementation, what exactly it
//! computes.

use crate::space::{Metric, Real, VectorSpace};
use vstd::prelude::*;

verus! {

/// A stepper that works on a buffer of slots.
pub trait Buffered {
    /// The number of slots that the stepper reads and writes. A buffer may
    /// have more; the others are left alone.
    spec fn slots(&self) -> nat;
}

/// A stepper that needs the derivative of the state only.
pub trait Integrator: Buffered {
    /// Makes the buffer for an integration that starts at `state`.
    fn init<R: Real, S: VectorSpace<R>, F: Fn(R, S) -> S>(
        &self,
        state: S,
        dt: R,
        force: F,
    ) -> (buffer: Vec<S>)
        ensures
            buffer.len() == self.slots(),
            buffer.len() >= 1,
            buffer[0] == state,
    ;

    /// Advances the buffer by one step of size `dt` from `time` and returns
    /// the new state, which is also left in slot 0.
    fn step<R: Real, S: VectorSpace<R>, F: Fn(R, S) -> S>(
        &self,
        time: R,
        state: &mut Vec<S>,
        dt: R,
        force: F,
    ) -> (out: S)
        requires
            old(state).len() >= self.slots(),
            forall|t: R, y: S| force.requires((t, y)),
        ensures
            final(state).len() == old(state).len(),
            final(state).len() >= 1,
            final(state)[0] == out,
            forall|i: int|
                self.slots() <= i < old(state).len() ==> final(state)[i] == old(state)[i],
    ;
}

/// A stepper that needs a velocity beside the derivative of the state.
pub trait VelIntegrator: Buffered {
    /// Makes the buffer for an integration that starts at `state`.
    fn init_with_vel<R: Real, S: VectorSpace<R>, V: Fn(R, S) -> S, F: Fn(R, S) -> S>(
        &self,
        state: S,
        dt: R,
        vel: V,
        force: F,
    ) -> (buffer: Vec<S>)
        ensures
            buffer.len() == self.slots(),
            buffer.len() >= 1,
            buffer[0] == state,
    ;

    /// Advances the buffer by one step of size `dt` from `time` and returns
    /// the new state, which is also left in slot 0.
    fn step_with_vel<R: Real, S: VectorSpace<R>, V: Fn(R, S) -> S, F: Fn(R, S) -> S>(
        &self,
        time: R,
        state: &mut Vec<S>,
        dt: R,
        velocity: V,
        force: F,
    ) -> (out: S)
        requires
            old(state).len() >= self.slots(),
            forall|t: R, y: S| velocity.requires((t, y)),
            forall|t: R, y: S| force.requires((t, y)),
        ensures
            final(state).len() == old(state).len(),
            final(state).len() >= 1,
            final(state)[0] == out,
            forall|i: int|
                self.slots() <= i < old(state).len() ==> final(state)[i] == old(state)[i],
    ;
}

/// A stepper that chooses its own step size, so that an estimate of the
/// error of each step stays below a tolerance.
pub trait AdaptiveIntegrator: Buffered {
    /// Makes the buffer for an integration that starts at `state` and at the
    /// time `t0`.
    fn adaptive_init<R: Real, S: VectorSpace<R>, M: Metric<S, R>, F: Fn(R, S) -> S>(
        &self,
        t0: R,
        state: S,
        ds: R,
        force: F,
        d: M,
    ) -> (buffer: Vec<(R, S)>)
        ensures
            buffer.len() == self.slots(),
            buffer.len() >= 1,
            buffer[0] == (t0, state),
    ;

    /// Tries at most `max_trials` step sizes. Where one is accepted, the
    /// buffer is advanced by it, and the new time and state are returned and
    /// left in slot 0. Where none is, slot 0 is as it was.
    fn adaptive_step<R: Real, S: VectorSpace<R>, M: Metric<S, R>, F: Fn(R, S) -> S>(
        &self,
        state: &mut Vec<(R, S)>,
        ds: R,
        force: F,
        d: M,
        max_trials: usize,
    ) -> (r: Option<(R, S)>)
        requires
            old(state).len() >= self.slots(),
            forall|t: R, y: S| force.requires((t, y)),
        ensures
            final(state).len() == old(state).len(),
            final(state).len() >= 1,
            match r {
                Some(accepted) => final(state)[0] == accepted,
                None => final(state)[0] == old(state)[0],
            },
            forall|i: int|
                self.slots() <= i < old(state).len() ==> final(state)[i] == old(state)[i],
    ;
}

} // verus!
