//! Explicit Runge-Kutta stepping with a fixed step.

use crate::coefficient::{coefficient_is_zero, is_zero};
use crate::error::RKError;
use crate::integrator::{Buffered, Integrator, VelIntegrator};
use crate::space::{is_product, is_repr, is_scaled, is_sum, is_vector_sum, Real, VectorSpace};
use crate::tableau::{
    array_matrix, classify, clone_table, has_stage_rows, is_fixed_shape, matrix_of,
    table_from_rows, ButcherTableau, TableauKind,
};
use vstd::prelude::*;

verus! {

/// The number of stages of a method with matrix `m`: one less than its columns.
pub open spec fn stage_count(m: Seq<Seq<u64>>) -> nat {
    (m[0].len() - 1) as nat
}

/// `h` is `dt * c`: what multiplying `dt` by the scalar decoded from the
/// coefficient `c` may give.
pub open spec fn is_fraction<R: Real>(dt: R, c: u64, h: R) -> bool {
    exists|w: R| is_repr(c, w) && is_product(dt, w, h)
}

/// `t` is the time `time + dt * c` at which a stage with time fraction `c` is
/// evaluated.
pub open spec fn is_stage_time<R: Real>(c: u64, time: R, dt: R, t: R) -> bool {
    exists|h: R| is_fraction(dt, c, h) && is_sum(time, h, t)
}

/// `out` is `acc + k * (dt * c)`.
pub open spec fn is_term_added<R: Real, S: VectorSpace<R>>(
    acc: S,
    k: S,
    dt: R,
    c: u64,
    out: S,
) -> bool {
    exists|h: R, v: S|
        is_fraction(dt, c, h) && is_scaled(k, h, v) && is_vector_sum::<R, S>(acc, v, out)
}

/// `out` is `base` with the first `n` weighted stages added, from left to
/// right. The stage `ks[j - 1]` enters as `ks[j - 1] * (dt * row[j])`; where
/// `row[j]` is zero it is left out, not added as a zero vector.
pub open spec fn is_weighted_sum<R: Real, S: VectorSpace<R>>(
    row: Seq<u64>,
    base: S,
    dt: R,
    ks: Seq<S>,
    n: nat,
    out: S,
) -> bool
    decreases n,
{
    if n == 0 {
        out == base
    } else {
        exists|before: S|
            is_weighted_sum(row, base, dt, ks, (n - 1) as nat, before) && #[trigger] is_next_sum(
                row[n as int],
                before,
                ks[n - 1],
                dt,
                out,
            )
    }
}

/// `out` is `before` with the stage `k` added under the weight `c`, or
/// `before` itself where `c` is zero.
pub open spec fn is_next_sum<R: Real, S: VectorSpace<R>>(
    c: u64,
    before: S,
    k: S,
    dt: R,
    out: S,
) -> bool {
    if is_zero(c) {
        out == before
    } else {
        is_term_added(before, k, dt, c, out)
    }
}

/// Stage `i` of `ks` is what `force` may return at the time of row `i` and at
/// `state` advanced by the stages before it, weighted by row `i`.
pub open spec fn is_stage<R: Real, S: VectorSpace<R>, F: Fn(R, S) -> S>(
    m: Seq<Seq<u64>>,
    time: R,
    state: S,
    dt: R,
    force: F,
    ks: Seq<S>,
    i: int,
) -> bool {
    exists|t: R, y: S|
        is_stage_time(m[i][0], time, dt, t) && is_weighted_sum(m[i], state, dt, ks, i as nat, y)
            && force.ensures((t, y), ks[i])
}

/// `ks` is a run of stage derivatives for one step from `state` at `time`.
pub open spec fn are_stages<R: Real, S: VectorSpace<R>, F: Fn(R, S) -> S>(
    m: Seq<Seq<u64>>,
    time: R,
    state: S,
    dt: R,
    force: F,
    ks: Seq<S>,
) -> bool {
    forall|i: int| 0 <= i < ks.len() ==> #[trigger] is_stage(m, time, state, dt, force, ks, i)
}

/// A weighted sum reads only the stages that it adds.
pub proof fn lemma_weighted_sum_prefix<R: Real, S: VectorSpace<R>>(
    row: Seq<u64>,
    base: S,
    dt: R,
    ks1: Seq<S>,
    ks2: Seq<S>,
    n: nat,
    out: S,
)
    requires
        n <= ks1.len(),
        n <= ks2.len(),
        forall|j: int| 0 <= j < n ==> ks1[j] == ks2[j],
        is_weighted_sum(row, base, dt, ks1, n, out),
    ensures
        is_weighted_sum(row, base, dt, ks2, n, out),
    decreases n,
{
    if n > 0 {
        let before = choose|before: S|
            is_weighted_sum(row, base, dt, ks1, (n - 1) as nat, before) && #[trigger] is_next_sum(
                row[n as int],
                before,
                ks1[n - 1],
                dt,
                out,
            );
        lemma_weighted_sum_prefix(row, base, dt, ks1, ks2, (n - 1) as nat, before);
        assert(is_weighted_sum(row, base, dt, ks2, (n - 1) as nat, before) && is_next_sum(
            row[n as int],
            before,
            ks2[n - 1],
            dt,
            out,
        ));
    }
}

/// Multiplies `dt` by the coefficient `c`.
pub fn fraction<R: Real>(dt: R, c: u64) -> (h: R)
    ensures
        is_fraction(dt, c, h),
{
    let w = R::repr(c);
    let h = dt.mul(w);
    assert(is_repr(c, w) && is_product(dt, w, h));
    h
}

/// Adds to `acc` the vector `k`, multiplied by `dt` times the coefficient
/// `c`.
pub fn add_term<R: Real, S: VectorSpace<R>>(acc: S, k: S, dt: R, c: u64) -> (out: S)
    ensures
        is_term_added(acc, k, dt, c, out),
{
    let h = fraction(dt, c);
    let v = k.scale(h);
    let out = acc.plus(v);
    assert(is_fraction(dt, c, h) && is_scaled(k, h, v) && is_vector_sum::<R, S>(acc, v, out));
    out
}

/// Adds to `base` the first `n` stages of `ks`, weighted by the entries 1 to
/// `n` of `row`.
pub fn accumulate<R: Real, S: VectorSpace<R>>(
    row: &Vec<u64>,
    base: S,
    dt: R,
    ks: &Vec<S>,
    n: usize,
) -> (sum: S)
    requires
        n <= ks.len(),
        n < row.len(),
    ensures
        is_weighted_sum(row@, base, dt, ks@, n as nat, sum),
{
    let mut sum = base;
    let mut j: usize = 1;
    while j <= n
        invariant
            1 <= j <= n + 1,
            n <= ks.len(),
            n < row.len(),
            is_weighted_sum(row@, base, dt, ks@, (j - 1) as nat, sum),
        decreases n + 1 - j,
    {
        let ghost before = sum;
        if !coefficient_is_zero(row[j]) {
            sum = add_term(sum, ks[j - 1], dt, row[j]);
        }
        assert(is_weighted_sum(row@, base, dt, ks@, (j - 1) as nat, before) && is_next_sum(
            row@[j as int],
            before,
            ks@[j - 1],
            dt,
            sum,
        ));
        j += 1;
    }
    sum
}

/// Evaluates the stages of one step: as many as the tableau has columns
/// beyond the first.
pub fn compute_k<R: Real, S: VectorSpace<R>, F: Fn(R, S) -> S>(
    tableau: &Vec<Vec<u64>>,
    time: R,
    state: S,
    dt: R,
    force: &F,
) -> (k: Vec<S>)
    requires
        has_stage_rows(matrix_of(*tableau)),
        forall|t: R, y: S| force.requires((t, y)),
    ensures
        k.len() == stage_count(matrix_of(*tableau)),
        are_stages(matrix_of(*tableau), time, state, dt, *force, k@),
{
    assert(matrix_of(*tableau)[0] == tableau@[0]@);
    let order: usize = tableau[0].len() - 1;
    let mut k: Vec<S> = Vec::with_capacity(order);
    let mut i: usize = 0;
    while i < order
        invariant
            i <= order,
            order == tableau@[0].len() - 1,
            has_stage_rows(matrix_of(*tableau)),
            forall|t: R, y: S| force.requires((t, y)),
            k.len() == i,
            are_stages(matrix_of(*tableau), time, state, dt, *force, k@),
        decreases order - i,
    {
        let row = &tableau[i];
        assert(row@ == matrix_of(*tableau)[i as int]);
        assert(row.len() == tableau@[0].len()) by {
            assert(matrix_of(*tableau)[i as int].len() == matrix_of(*tableau)[0].len());
        }
        let h = fraction(dt, row[0]);
        let t = time.add(h);
        assert(is_fraction(dt, row@[0], h) && is_sum(time, h, t));
        let y_i = accumulate(row, state, dt, &k, i);
        let ghost before = k@;
        let k_i = force(t, y_i);
        k.push(k_i);
        proof {
            let m = matrix_of(*tableau);
            assert forall|s: int| 0 <= s < k@.len() implies #[trigger] is_stage(
                m,
                time,
                state,
                dt,
                *force,
                k@,
                s,
            ) by {
                if s < i {
                    assert(is_stage(m, time, state, dt, *force, before, s));
                    let (ts, ys) = choose|ts: R, ys: S|
                        is_stage_time(m[s][0], time, dt, ts) && is_weighted_sum(
                            m[s],
                            state,
                            dt,
                            before,
                            s as nat,
                            ys,
                        ) && force.ensures((ts, ys), before[s]);
                    lemma_weighted_sum_prefix(m[s], state, dt, before, k@, s as nat, ys);
                    assert(is_stage_time(m[s][0], time, dt, ts) && is_weighted_sum(
                        m[s],
                        state,
                        dt,
                        k@,
                        s as nat,
                        ys,
                    ) && force.ensures((ts, ys), k@[s]));
                } else {
                    lemma_weighted_sum_prefix(m[s], state, dt, before, k@, s as nat, y_i);
                    assert(is_stage_time(m[s][0], time, dt, t) && is_weighted_sum(
                        m[s],
                        state,
                        dt,
                        k@,
                        s as nat,
                        y_i,
                    ) && force.ensures((t, y_i), k@[s]));
                }
            }
        }
        i += 1;
    }
    k
}

/// What a fixed-step tableau with matrix `m` makes of one step: with `ks` a
/// full run of stages, `out` is `state` with all of them added, weighted by
/// the row below the stage rows.
pub open spec fn is_step<R: Real, S: VectorSpace<R>, F: Fn(R, S) -> S>(
    m: Seq<Seq<u64>>,
    time: R,
    state: S,
    dt: R,
    force: F,
    ks: Seq<S>,
    out: S,
) -> bool {
    &&& ks.len() == stage_count(m)
    &&& are_stages(m, time, state, dt, force, ks)
    &&& is_weighted_sum(m[stage_count(m) as int], state, dt, ks, stage_count(m), out)
}

/// Whether a matrix is taken as a fixed-step method, and if not, why. A
/// square matrix that is not implicit is taken; an implicit square one is
/// unsupported; one with a row more than columns is not square; any other is
/// turned down as validation says.
pub open spec fn fixed_verdict(m: Seq<Seq<u64>>) -> Option<RKError> {
    match classify(m) {
        Ok(TableauKind::Fixed) => None,
        Ok(TableauKind::Implicit) => Some(RKError::UnsupportedImplicit),
        Ok(_) => Some(RKError::NonSquareTableau(m.len() as usize, m[0].len() as usize)),
        Err(e) => Some(e),
    }
}

/// An explicit Runge-Kutta method with a fixed step, given by a square
/// tableau.
#[derive(PartialEq, Debug)]
pub struct RungeKutta {
    table: Vec<Vec<u64>>,
}

impl Clone for RungeKutta {
    fn clone(&self) -> (copy: Self)
        ensures
            copy@ == self@,
    {
        proof {
            use_type_invariant(self);
        }
        RungeKutta { table: clone_table(&self.table) }
    }
}

impl View for RungeKutta {
    type V = Seq<Seq<u64>>;

    closed spec fn view(&self) -> Seq<Seq<u64>> {
        matrix_of(self.table)
    }
}

impl RungeKutta {
    #[verifier::type_invariant]
    spec fn square(self) -> bool {
        is_fixed_shape(matrix_of(self.table))
    }

    /// The method that a square array of coefficients describes. Only the shape
    /// is asked for: the named methods are made this way.
    pub(crate) fn of_square<const N: usize>(rows: &[[u64; N]; N]) -> (t: Self)
        requires
            N >= 1,
        ensures
            t@ == array_matrix(*rows),
    {
        let table = table_from_rows(rows);
        assert(is_fixed_shape(matrix_of(table)));
        RungeKutta { table }
    }

    /// The number of stages: one less than the number of rows, which is also
    /// one less than the number of columns.
    pub fn order(&self) -> (n: usize)
        ensures
            is_fixed_shape(self@),
            n == self@.len() - 1,
            n == stage_count(self@),
    {
        proof {
            use_type_invariant(self);
        }
        self.table.len() - 1
    }

    /// Makes a fixed-step method of a coefficient matrix, or says why the
    /// matrix is not one.
    pub fn from_matrix(rk_matrix: Vec<Vec<u64>>) -> (r: Result<Self, RKError>)
        ensures
            match fixed_verdict(matrix_of(rk_matrix)) {
                None => r matches Ok(t) && t@ == matrix_of(rk_matrix),
                Some(e) => r matches Err(x) && x == e,
            },
    {
        let rows: usize = rk_matrix.len();
        let columns: usize = if rows > 0 {
            rk_matrix[0].len()
        } else {
            0
        };
        match ButcherTableau::new(rk_matrix) {
            Ok(ButcherTableau::Fixed(t)) => Ok(RungeKutta { table: t }),
            Ok(ButcherTableau::Implicit(_)) => Err(RKError::UnsupportedImplicit),
            Ok(_) => Err(RKError::NonSquareTableau(rows, columns)),
            Err(e) => Err(e),
        }
    }
}

impl Buffered for RungeKutta {
    /// One slot, holding the state.
    open spec fn slots(&self) -> nat {
        1
    }
}

impl Integrator for RungeKutta {
    /// The buffer has one slot, holding the state.
    fn init<R: Real, S: VectorSpace<R>, F: Fn(R, S) -> S>(
        &self,
        state: S,
        _dt: R,
        _force: F,
    ) -> (buffer: Vec<S>)
        ensures
            buffer@ == seq![state],
    {
        let mut buffer: Vec<S> = Vec::with_capacity(1);
        buffer.push(state);
        assert(buffer@ =~= seq![state]);
        buffer
    }

    /// The stages are evaluated in order, each at the state advanced by the
    /// stages before it; the new state is the old one with all stages added,
    /// weighted by the last row.
    fn step<R: Real, S: VectorSpace<R>, F: Fn(R, S) -> S>(
        &self,
        time: R,
        state: &mut Vec<S>,
        dt: R,
        force: F,
    ) -> (out: S)
        ensures
            final(state)@ == old(state)@.update(0, out),
            exists|ks: Seq<S>| is_step(self@, time, old(state)[0], dt, force, ks, out),
    {
        proof {
            use_type_invariant(self);
        }
        let order: usize = self.order();
        let k = compute_k(&self.table, time, state[0], dt, &force);
        let weights = &self.table[order];
        assert(weights@ == self@[order as int]);
        let out = accumulate(weights, state[0], dt, &k, order);
        assert(is_step(self@, time, old(state)[0], dt, force, k@, out));
        state.set(0, out);
        out
    }
}

impl VelIntegrator for RungeKutta {
    /// The buffer has one slot, holding the state.
    fn init_with_vel<R: Real, S: VectorSpace<R>, V: Fn(R, S) -> S, F: Fn(R, S) -> S>(
        &self,
        state: S,
        _dt: R,
        _vel: V,
        _force: F,
    ) -> (buffer: Vec<S>)
        ensures
            buffer@ == seq![state],
    {
        let mut buffer: Vec<S> = Vec::with_capacity(1);
        buffer.push(state);
        assert(buffer@ =~= seq![state]);
        buffer
    }

    /// The same step as [`Integrator::step`]; the velocity is not consulted.
    fn step_with_vel<R: Real, S: VectorSpace<R>, V: Fn(R, S) -> S, F: Fn(R, S) -> S>(
        &self,
        time: R,
        state: &mut Vec<S>,
        dt: R,
        _velocity: V,
        force: F,
    ) -> (out: S)
        ensures
            final(state)@ == old(state)@.update(0, out),
            exists|ks: Seq<S>| is_step(self@, time, old(state)[0], dt, force, ks, out),
    {
        self.step(time, state, dt, force)
    }
}

} // verus!
