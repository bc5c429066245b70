//! Embedded Runge-Kutta pairs with a searched step size.
//!
//! A pair evaluates one run of stages and combines it twice, with the two rows
//! below the stage rows. The distance between the two estimates is held
//! against a tolerance: below it the trial step is accepted and the next one
//! is made half again as large, otherwise the trial step is halved and tried
//! again.

use crate::coefficient::{ONE_HALF, THREE_HALVES};
use crate::error::RKError;
use crate::integrator::{AdaptiveIntegrator, Buffered};
use crate::runge_kutta::{
    accumulate, are_stages, compute_k, fraction, is_fraction, is_weighted_sum, stage_count,
};
use crate::space::{is_distance, is_less, is_sum, Metric, Real, VectorSpace};
use crate::tableau::{
    array_matrix, classify, clone_table, is_adaptive_shape, matrix_of, table_from_rows,
    ButcherTableau, TableauKind,
};
use vstd::prelude::*;

verus! {

/// `out` is the estimate that row `stage_count(m) + which` of weights gives:
/// `which` is 0 for the estimate that is kept as the new state, 1 for the one
/// it is held against.
pub open spec fn is_estimate<R: Real, S: VectorSpace<R>>(
    m: Seq<Seq<u64>>,
    which: int,
    state: S,
    dt: R,
    ks: Seq<S>,
    out: S,
) -> bool {
    is_weighted_sum(m[stage_count(m) + which], state, dt, ks, stage_count(m), out)
}

/// `ks` is a full run of stages for a trial step of size `dt`, and `est1`,
/// `est2` are the two estimates made of it.
pub open spec fn is_trial<R: Real, S: VectorSpace<R>, F: Fn(R, S) -> S>(
    m: Seq<Seq<u64>>,
    time: R,
    state: S,
    dt: R,
    force: F,
    ks: Seq<S>,
    est1: S,
    est2: S,
) -> bool {
    &&& ks.len() == stage_count(m)
    &&& are_stages(m, time, state, dt, force, ks)
    &&& is_estimate(m, 0, state, dt, ks, est1)
    &&& is_estimate(m, 1, state, dt, ks, est2)
}

/// `verdict` is the answer to whether the two estimates are closer to each
/// other than the tolerance `ds`: whether their distance is below `ds`.
pub open spec fn is_verdict<R: Real, S, M: Metric<S, R>>(
    d: M,
    est1: S,
    est2: S,
    ds: R,
    verdict: bool,
) -> bool {
    exists|err: R| is_distance(d, est1, est2, err) && is_less(err, ds, verdict)
}

/// `dts` are the trial steps of a search that starts with `dt0`: the first
/// is `dt0`, and each further one is its predecessor times one half.
pub open spec fn are_trial_steps<R: Real>(dt0: R, dts: Seq<R>) -> bool {
    &&& dts.len() >= 1
    &&& dts[0] == dt0
    &&& forall|i: int| 1 <= i < dts.len() ==> is_fraction(dts[i - 1], ONE_HALF, #[trigger] dts[i])
}

/// A trial step of size `dt` can end in rejection.
pub open spec fn may_reject<R: Real, S: VectorSpace<R>, F: Fn(R, S) -> S, M: Metric<S, R>>(
    m: Seq<Seq<u64>>,
    time: R,
    state: S,
    dt: R,
    ds: R,
    force: F,
    d: M,
) -> bool {
    exists|ks: Seq<S>, est1: S, est2: S|
        is_trial(m, time, state, dt, force, ks, est1, est2) && is_verdict(
            d,
            est1,
            est2,
            ds,
            false,
        )
}

/// A trial step of size `dt` can end in acceptance with the estimates `est1`
/// and `est2`.
pub open spec fn may_accept<R: Real, S: VectorSpace<R>, F: Fn(R, S) -> S, M: Metric<S, R>>(
    m: Seq<Seq<u64>>,
    time: R,
    state: S,
    dt: R,
    ds: R,
    force: F,
    d: M,
    est1: S,
    est2: S,
) -> bool {
    &&& is_verdict(d, est1, est2, ds, true)
    &&& exists|ks: Seq<S>| is_trial(m, time, state, dt, force, ks, est1, est2)
}

/// What a search makes of the buffer `before` when it tries the steps `dts`,
/// which start with `before[1].0`. All but the last were rejected. Then
/// either the last was accepted: slot 0 holds the time advanced by it and
/// the kept estimate, which are also returned, and slot 1 holds that step
/// times three halves and the other estimate. Or the trials ran out: nothing
/// is returned, and only the trial step in slot 1 has changed, to the last of
/// `dts`, which was not tried.
pub open spec fn search_ends_after<
    R: Real,
    S: VectorSpace<R>,
    F: Fn(R, S) -> S,
    M: Metric<S, R>,
>(
    m: Seq<Seq<u64>>,
    before: Seq<(R, S)>,
    ds: R,
    force: F,
    d: M,
    max_trials: nat,
    after: Seq<(R, S)>,
    r: Option<(R, S)>,
    dts: Seq<R>,
) -> bool {
    let time = before[0].0;
    let state = before[0].1;
    let n = dts.len() - 1;
    &&& are_trial_steps(before[1].0, dts)
    &&& n <= max_trials
    &&& forall|i: int|
        0 <= i < n ==> may_reject(m, time, state, #[trigger] dts[i], ds, force, d)
    &&& match r {
        Some(accepted) => {
            &&& n < max_trials
            &&& is_sum(time, dts[n], accepted.0)
            &&& may_accept(m, time, state, dts[n], ds, force, d, accepted.1, after[1].1)
            &&& is_fraction(dts[n], THREE_HALVES, after[1].0)
            &&& after == before.update(0, accepted).update(1, after[1])
        },
        None => {
            &&& n == max_trials
            &&& after == before.update(1, (dts[n], before[1].1))
        },
    }
}

/// What a search of at most `max_trials` trials makes of the buffer `before`:
/// it ends after some run of trial steps, as [`search_ends_after`] says.
pub open spec fn is_search<R: Real, S: VectorSpace<R>, F: Fn(R, S) -> S, M: Metric<S, R>>(
    m: Seq<Seq<u64>>,
    before: Seq<(R, S)>,
    ds: R,
    force: F,
    d: M,
    max_trials: nat,
    after: Seq<(R, S)>,
    r: Option<(R, S)>,
) -> bool {
    exists|dts: Seq<R>| search_ends_after(m, before, ds, force, d, max_trials, after, r, dts)
}

/// Whether a matrix is taken as an embedded pair, and if not, why. A matrix
/// with one row more than columns that is not implicit is taken; a square
/// one that is not implicit has too many columns; an implicit one is
/// unsupported; any other is turned down as validation says.
pub open spec fn adaptive_verdict(m: Seq<Seq<u64>>) -> Option<RKError> {
    match classify(m) {
        Ok(TableauKind::Adaptive) => None,
        Ok(TableauKind::Fixed) => Some(
            RKError::TooManyColumns(m.len() as usize, m[0].len() as usize),
        ),
        Ok(_) => Some(RKError::UnsupportedImplicit),
        Err(e) => Some(e),
    }
}

/// An embedded pair of explicit Runge-Kutta methods, given by a tableau with
/// one row more than columns.
#[derive(PartialEq, Debug)]
pub struct AdaptiveRungeKutta {
    table: Vec<Vec<u64>>,
}

impl View for AdaptiveRungeKutta {
    type V = Seq<Seq<u64>>;

    closed spec fn view(&self) -> Seq<Seq<u64>> {
        matrix_of(self.table)
    }
}

impl Clone for AdaptiveRungeKutta {
    fn clone(&self) -> (copy: Self)
        ensures
            copy@ == self@,
    {
        proof {
            use_type_invariant(self);
        }
        AdaptiveRungeKutta { table: clone_table(&self.table) }
    }
}

impl AdaptiveRungeKutta {
    #[verifier::type_invariant]
    spec fn one_row_more(self) -> bool {
        is_adaptive_shape(matrix_of(self.table))
    }

    /// The pair that an array of coefficients describes. Only the shape is
    /// asked for: the named pairs are made this way.
    pub(crate) fn of_rows<const N: usize, const M: usize>(rows: &[[u64; M]; N]) -> (t: Self)
        requires
            M >= 1,
            N == M + 1,
        ensures
            t@ == array_matrix(*rows),
    {
        let table = table_from_rows(rows);
        assert(is_adaptive_shape(matrix_of(table)));
        AdaptiveRungeKutta { table }
    }

    /// The number of stages: one less than the number of columns. Below the
    /// stage rows there are exactly two rows of weights.
    pub fn order(&self) -> (n: usize)
        ensures
            is_adaptive_shape(self@),
            n == self@[0].len() - 1,
            n == stage_count(self@),
            self@.len() == n + 2,
    {
        proof {
            use_type_invariant(self);
        }
        self.table[0].len() - 1
    }

    /// Makes an embedded pair of a coefficient matrix, or says why the matrix
    /// is not one.
    pub fn from_matrix(rk_matrix: Vec<Vec<u64>>) -> (r: Result<Self, RKError>)
        ensures
            match adaptive_verdict(matrix_of(rk_matrix)) {
                None => r matches Ok(t) && t@ == matrix_of(rk_matrix),
                Some(e) => r matches Err(x) && x == e,
            },
    {
        let rows: usize = rk_matrix.len();
        let columns: usize = if rows > 0 {
            rk_matrix[0].len()
        } else {
            0
        };
        match ButcherTableau::new(rk_matrix) {
            Ok(ButcherTableau::Adaptive(t)) => Ok(AdaptiveRungeKutta { table: t }),
            Ok(ButcherTableau::Fixed(_)) => Err(RKError::TooManyColumns(rows, columns)),
            Ok(_) => Err(RKError::UnsupportedImplicit),
            Err(e) => Err(e),
        }
    }

    /// Makes one trial step of size `dt` from `state` at `time`, and returns
    /// the two estimates of the state after it.
    pub fn estimates<R: Real, S: VectorSpace<R>, F: Fn(R, S) -> S>(
        &self,
        time: R,
        state: S,
        dt: R,
        force: &F,
    ) -> (est: (S, S))
        requires
            forall|t: R, y: S| force.requires((t, y)),
        ensures
            exists|ks: Seq<S>| is_trial(self@, time, state, dt, *force, ks, est.0, est.1),
    {
        proof {
            use_type_invariant(self);
        }
        let order: usize = self.order();
        assert(self.table.len() == self@.len());
        let k = compute_k(&self.table, time, state, dt, force);
        let lower = &self.table[order];
        let higher = &self.table[order + 1];
        assert(lower@ == self@[order as int]);
        assert(higher@ == self@[order + 1]);
        assert(lower.len() == self.table@[0].len()) by {
            assert(self@[order as int].len() == self@[0].len());
        }
        assert(higher.len() == self.table@[0].len()) by {
            assert(self@[order + 1].len() == self@[0].len());
        }
        let est1 = accumulate(lower, state, dt, &k, order);
        let est2 = accumulate(higher, state, dt, &k, order);
        let est = (est1, est2);
        assert(is_trial(self@, time, state, dt, *force, k@, est.0, est.1));
        est
    }
}

impl Buffered for AdaptiveRungeKutta {
    /// Two slots: the accepted time and state, and the trial step with the
    /// estimate that the accepted one was held against.
    open spec fn slots(&self) -> nat {
        2
    }
}

impl AdaptiveIntegrator for AdaptiveRungeKutta {
    /// Slot 0 of the buffer holds the starting time and state; slot 1 holds
    /// the first trial step, for which the tolerance `ds` is taken, and room
    /// for an estimate.
    fn adaptive_init<R: Real, S: VectorSpace<R>, M: Metric<S, R>, F: Fn(R, S) -> S>(
        &self,
        t0: R,
        state: S,
        ds: R,
        _force: F,
        _d: M,
    ) -> (buffer: Vec<(R, S)>)
        ensures
            buffer@ == seq![(t0, state), (ds, state)],
    {
        let mut buffer: Vec<(R, S)> = Vec::with_capacity(2);
        buffer.push((t0, state));
        buffer.push((ds, state));
        assert(buffer@ =~= seq![(t0, state), (ds, state)]);
        buffer
    }

    /// Searches for a step size whose two estimates agree within the
    /// tolerance `ds`, starting from the trial step in slot 1 of the buffer
    /// and halving it after each rejection, for at most `max_trials` trials.
    /// On acceptance the buffer is advanced and the new time and state are
    /// returned. When the trials run out, the halved trial step is left in
    /// the buffer, so that a further call goes on where this one stopped.
    fn adaptive_step<R: Real, S: VectorSpace<R>, M: Metric<S, R>, F: Fn(R, S) -> S>(
        &self,
        state: &mut Vec<(R, S)>,
        ds: R,
        force: F,
        d: M,
        max_trials: usize,
    ) -> (r: Option<(R, S)>)
        ensures
            is_search(self@, old(state)@, ds, force, d, max_trials as nat, final(state)@, r),
            r matches Some(accepted) ==> final(state)[0] == accepted && is_verdict(
                d,
                accepted.1,
                final(state)[1].1,
                ds,
                true,
            ),
    {
        let time = state[0].0;
        let start = state[0].1;
        let scratch = state[1].1;
        let mut dt = state[1].0;
        let ghost mut dts: Seq<R> = seq![dt];
        let mut trials: usize = 0;
        while trials < max_trials
            invariant
                trials <= max_trials,
                state@ == old(state)@,
                state.len() >= 2,
                time == state[0].0,
                start == state[0].1,
                scratch == state[1].1,
                are_trial_steps(state[1].0, dts),
                dts.len() == trials + 1,
                dt == dts[trials as int],
                forall|t: R, y: S| force.requires((t, y)),
                forall|i: int|
                    0 <= i < trials ==> may_reject(
                        self@,
                        time,
                        start,
                        #[trigger] dts[i],
                        ds,
                        force,
                        d,
                    ),
            decreases max_trials - trials,
        {
            let (est1, est2) = self.estimates(time, start, dt, &force);
            let err = d.distance(est1, est2);
            let accept = err.lt(ds);
            assert(is_distance(d, est1, est2, err) && is_less(err, ds, accept));
            if accept {
                let next_dt = fraction(dt, THREE_HALVES);
                let accepted = (time.add(dt), est1);
                state.set(0, accepted);
                state.set(1, (next_dt, est2));
                proof {
                    assert(may_accept(self@, time, start, dt, ds, force, d, est1, est2));
                    assert(state@ =~= old(state)@.update(0, accepted).update(1, state@[1]));
                    assert(search_ends_after(
                        self@,
                        old(state)@,
                        ds,
                        force,
                        d,
                        max_trials as nat,
                        state@,
                        Some(accepted),
                        dts,
                    ));
                }
                return Some(accepted);
            }
            assert(may_reject(self@, time, start, dt, ds, force, d));
            dt = fraction(dt, ONE_HALF);
            proof {
                dts = dts.push(dt);
            }
            trials += 1;
        }
        state.set(1, (dt, scratch));
        proof {
            assert(state@ =~= old(state)@.update(1, (dts[max_trials as int], old(state)@[1].1)));
            assert(search_ends_after(
                self@,
                old(state)@,
                ds,
                force,
                d,
                max_trials as nat,
                state@,
                None::<(R, S)>,
                dts,
            ));
        }
        None
    }
}

} // verus!
