//! The Velocity-Verlet stepper for second-order systems.
//!
//! The buffer has two slots. Slot 0 accumulates the state; slot 1 carries
//! from one call to the next what the force gave at the end of the previous
//! step. The stepper assigns no further meaning to either slot.

use crate::coefficient::ONE_HALF;
use crate::integrator::{Buffered, VelIntegrator};
use crate::runge_kutta::{add_term, is_term_added};
use crate::space::{
    is_origin, is_product, is_repr, is_scaled, is_sum, is_vector_sum, Real, VectorSpace,
};
use vstd::prelude::*;

verus! {

/// `h` is `dt * dt * 1/2`.
pub open spec fn is_half_square<R: Real>(dt: R, h: R) -> bool {
    exists|q: R, w: R| is_product(dt, dt, q) && is_repr(ONE_HALF, w) && is_product(q, w, h)
}

/// `mid` is the state at which the force is evaluated:
/// `s + a * dt + v * (dt * dt * 1/2)`.
pub open spec fn is_midpoint_state<R: Real, S: VectorSpace<R>>(
    s: S,
    a: S,
    dt: R,
    v: S,
    mid: S,
) -> bool {
    exists|x1: S, x2: S, h: R, x3: S|
        is_scaled(a, dt, x1) && is_vector_sum::<R, S>(s, x1, x2) && is_half_square(dt, h)
            && is_scaled(v, h, x3) && is_vector_sum::<R, S>(x2, x3, mid)
}

/// One step from the slots `s` and `a`. The velocity is asked at `time` and
/// `a`, and makes the midpoint state; `new_a` is what `force` may return at
/// `time + dt` and the midpoint state; `out` is
/// `s + a * (dt * 1/2) + new_a * (dt * 1/2)`, added in this order.
pub open spec fn is_verlet_step<
    R: Real,
    S: VectorSpace<R>,
    V: Fn(R, S) -> S,
    F: Fn(R, S) -> S,
>(time: R, s: S, a: S, dt: R, velocity: V, force: F, new_a: S, out: S) -> bool {
    exists|v: S, mid: S, first: S, later: R|
        velocity.ensures((time, a), v) && is_midpoint_state(s, a, dt, v, mid) && is_term_added(
            s,
            a,
            dt,
            ONE_HALF,
            first,
        ) && is_sum(time, dt, later) && force.ensures((later, mid), new_a) && is_term_added(
            first,
            new_a,
            dt,
            ONE_HALF,
            out,
        )
}

/// The Velocity-Verlet method. It has no coefficients of its own.
#[derive(Clone, Copy, PartialEq, Eq, Debug, Hash)]
pub struct VelocityVerlet;

impl Buffered for VelocityVerlet {
    /// Two slots: the state, and what is carried between steps.
    open spec fn slots(&self) -> nat {
        2
    }
}

impl VelIntegrator for VelocityVerlet {
    /// The buffer holds the state, and the zero vector in the slot that is
    /// carried between steps.
    fn init_with_vel<R: Real, S: VectorSpace<R>, V: Fn(R, S) -> S, F: Fn(R, S) -> S>(
        &self,
        state: S,
        _dt: R,
        _vel: V,
        _force: F,
    ) -> (buffer: Vec<S>)
        ensures
            buffer.len() == 2,
            buffer[0] == state,
            is_origin::<R, S>(buffer[1]),
    {
        let mut buffer: Vec<S> = Vec::with_capacity(2);
        buffer.push(state);
        buffer.push(S::zero());
        buffer
    }

    /// Advances the buffer by one step of size `dt` from `time` and returns
    /// the new content of slot 0. Slot 1 is replaced by what the force gave.
    fn step_with_vel<R: Real, S: VectorSpace<R>, V: Fn(R, S) -> S, F: Fn(R, S) -> S>(
        &self,
        time: R,
        state: &mut Vec<S>,
        dt: R,
        velocity: V,
        force: F,
    ) -> (out: S)
        ensures
            final(state)@ == old(state)@.update(0, out).update(1, final(state)[1]),
            is_verlet_step(
                time,
                old(state)[0],
                old(state)[1],
                dt,
                velocity,
                force,
                final(state)[1],
                out,
            ),
    {
        let s = state[0];
        let a = state[1];
        let x1 = a.scale(dt);
        let x2 = s.plus(x1);
        let v = velocity(time, a);
        let q = dt.mul(dt);
        let w = R::repr(ONE_HALF);
        let h = q.mul(w);
        assert(is_product(dt, dt, q) && is_repr(ONE_HALF, w) && is_product(q, w, h));
        let x3 = v.scale(h);
        let mid = x2.plus(x3);
        assert(is_scaled(a, dt, x1) && is_vector_sum::<R, S>(s, x1, x2) && is_half_square(dt, h)
            && is_scaled(v, h, x3) && is_vector_sum::<R, S>(x2, x3, mid));
        let first = add_term(s, a, dt, ONE_HALF);
        let later = time.add(dt);
        let new_a = force(later, mid);
        let out = add_term(first, new_a, dt, ONE_HALF);
        state.set(0, out);
        state.set(1, new_a);
        proof {
            assert(velocity.ensures((time, a), v) && is_midpoint_state(s, a, dt, v, mid)
                && is_term_added(s, a, dt, ONE_HALF, first) && is_sum(time, dt, later)
                && force.ensures((later, mid), new_a) && is_term_added(
                first,
                new_a,
                dt,
                ONE_HALF,
                out,
            ));
            assert(state@ =~= old(state)@.update(0, out).update(1, new_a));
        }
        out
    }
}

} // verus!
