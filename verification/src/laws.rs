//! What holds of the steppers and of validation, for all inputs.

use crate::adaptive::{
    adaptive_verdict, are_trial_steps, is_estimate, is_search, is_trial, is_verdict, may_accept,
    may_reject, search_ends_after,
};
use crate::coefficient::{is_zero, ONE_HALF};
use crate::error::RKError;
use crate::runge_kutta::{
    are_stages, fixed_verdict, is_fraction, is_next_sum, is_stage, is_stage_time, is_step,
    is_term_added, is_weighted_sum, lemma_weighted_sum_prefix, stage_count,
};
use crate::space::{
    is_distance, is_less, is_product, is_repr, is_scaled, is_sum, is_vector_sum, Metric, Real,
    VectorSpace,
};
use crate::tableau::{
    classify, has_nonzero_from, is_adaptive_shape, is_fixed_shape, is_implicit, is_rectangular,
    TableauKind,
};
use crate::verlet::{is_half_square, is_midpoint_state, is_verlet_step};
use vstd::prelude::*;

verus! {

/// `f` returns one value only for each time and state.
pub open spec fn is_function<R, S, F: Fn(R, S) -> S>(f: F) -> bool {
    forall|t: R, y: S, a: S, b: S| f.ensures((t, y), a) && f.ensures((t, y), b) ==> a == b
}

/// Each operation of the scalar field `R` returns one value only for each
/// choice of its arguments.
pub open spec fn is_exact_field<R: Real>() -> bool {
    &&& forall|c: u64, a: R, b: R| is_repr(c, a) && is_repr(c, b) ==> a == b
    &&& forall|x: R, y: R, a: R, b: R| is_sum(x, y, a) && is_sum(x, y, b) ==> a == b
    &&& forall|x: R, y: R, a: R, b: R| is_product(x, y, a) && is_product(x, y, b) ==> a == b
    &&& forall|x: R, y: R, a: bool, b: bool| is_less(x, y, a) && is_less(x, y, b) ==> a == b
}

/// Each operation of the vector space `S` that the steppers use between
/// states returns one value only for each choice of its arguments.
pub open spec fn is_exact_space<R: Real, S: VectorSpace<R>>() -> bool {
    &&& forall|x: S, y: S, a: S, b: S|
        is_vector_sum::<R, S>(x, y, a) && is_vector_sum::<R, S>(x, y, b) ==> a == b
    &&& forall|x: S, k: R, a: S, b: S| is_scaled(x, k, a) && is_scaled(x, k, b) ==> a == b
}

/// The metric `d` returns one distance only for each pair of states.
pub open spec fn is_exact_metric<R: Real, S, M: Metric<S, R>>(d: M) -> bool {
    forall|x: S, y: S, a: R, b: R| is_distance(d, x, y, a) && is_distance(d, x, y, b) ==> a == b
}

/// A matrix that is taken as a fixed-step method is square, and the method
/// has one stage less than the matrix has rows.
pub proof fn law_fixed_order(m: Seq<Seq<u64>>)
    requires
        fixed_verdict(m) is None,
    ensures
        is_fixed_shape(m),
        stage_count(m) == m.len() - 1,
{
}

/// A matrix that is taken as an embedded pair has one stage less than it has
/// columns, and exactly two rows below the stage rows.
pub proof fn law_adaptive_order(m: Seq<Seq<u64>>)
    requires
        adaptive_verdict(m) is None,
    ensures
        is_adaptive_shape(m),
        stage_count(m) == m[0].len() - 1,
        m.len() == stage_count(m) + 2,
{
}

/// A matrix without rows is empty, whatever it is validated for.
pub proof fn law_no_rows(m: Seq<Seq<u64>>)
    requires
        m.len() == 0,
    ensures
        classify(m) == Err::<TableauKind, RKError>(RKError::EmptyTableau),
        fixed_verdict(m) == Some(RKError::EmptyTableau),
        adaptive_verdict(m) == Some(RKError::EmptyTableau),
{
}

/// A matrix with rows of different lengths is jagged, whatever it is
/// validated for.
pub proof fn law_unequal_rows(m: Seq<Seq<u64>>, i: int)
    requires
        0 <= i < m.len(),
        m[i].len() != m[0].len(),
    ensures
        classify(m) == Err::<TableauKind, RKError>(RKError::JaggedTableau),
        fixed_verdict(m) == Some(RKError::JaggedTableau),
        adaptive_verdict(m) == Some(RKError::JaggedTableau),
{
}

/// A rectangular matrix with more columns than rows has too many columns,
/// whatever it is validated for.
pub proof fn law_more_columns_than_rows(m: Seq<Seq<u64>>)
    requires
        m.len() >= 1,
        is_rectangular(m),
        m[0].len() > m.len(),
    ensures
        fixed_verdict(m) == Some(
            RKError::TooManyColumns(m.len() as usize, m[0].len() as usize),
        ),
        adaptive_verdict(m) == Some(
            RKError::TooManyColumns(m.len() as usize, m[0].len() as usize),
        ),
{
}

/// A square matrix with a coefficient that is not zero on or right of the
/// diagonal is not taken as a fixed-step method: it is implicit.
pub proof fn law_square_implicit(m: Seq<Seq<u64>>, i: int, j: int)
    requires
        is_fixed_shape(m),
        0 <= i < m.len(),
        i <= j < m[i].len(),
        !is_zero(m[i][j]),
    ensures
        fixed_verdict(m) == Some(RKError::UnsupportedImplicit),
{
    assert(has_nonzero_from(m[i], i));
    assert(is_implicit(m));
}

/// In an exact field the product of a scalar and a coefficient is one value.
pub proof fn lemma_fraction_unique<R: Real>(dt: R, c: u64, h1: R, h2: R)
    requires
        is_exact_field::<R>(),
        is_fraction(dt, c, h1),
        is_fraction(dt, c, h2),
    ensures
        h1 == h2,
{
    let w1 = choose|w: R| is_repr(c, w) && is_product(dt, w, h1);
    let w2 = choose|w: R| is_repr(c, w) && is_product(dt, w, h2);
    assert(w1 == w2);
}

/// In an exact field a stage has one time.
pub proof fn lemma_stage_time_unique<R: Real>(c: u64, time: R, dt: R, t1: R, t2: R)
    requires
        is_exact_field::<R>(),
        is_stage_time(c, time, dt, t1),
        is_stage_time(c, time, dt, t2),
    ensures
        t1 == t2,
{
    let h1 = choose|h: R| is_fraction(dt, c, h) && is_sum(time, h, t1);
    let h2 = choose|h: R| is_fraction(dt, c, h) && is_sum(time, h, t2);
    lemma_fraction_unique(dt, c, h1, h2);
}

/// In exact arithmetic adding a weighted stage gives one vector.
pub proof fn lemma_term_added_unique<R: Real, S: VectorSpace<R>>(
    acc: S,
    k: S,
    dt: R,
    c: u64,
    out1: S,
    out2: S,
)
    requires
        is_exact_field::<R>(),
        is_exact_space::<R, S>(),
        is_term_added(acc, k, dt, c, out1),
        is_term_added(acc, k, dt, c, out2),
    ensures
        out1 == out2,
{
    let (h1, v1) = choose|h: R, v: S|
        is_fraction(dt, c, h) && is_scaled(k, h, v) && is_vector_sum::<R, S>(acc, v, out1);
    let (h2, v2) = choose|h: R, v: S|
        is_fraction(dt, c, h) && is_scaled(k, h, v) && is_vector_sum::<R, S>(acc, v, out2);
    lemma_fraction_unique(dt, c, h1, h2);
    assert(v1 == v2);
}

/// In exact arithmetic a weighted sum is one vector.
pub proof fn lemma_weighted_sum_unique<R: Real, S: VectorSpace<R>>(
    row: Seq<u64>,
    base: S,
    dt: R,
    ks: Seq<S>,
    n: nat,
    out1: S,
    out2: S,
)
    requires
        is_exact_field::<R>(),
        is_exact_space::<R, S>(),
        is_weighted_sum(row, base, dt, ks, n, out1),
        is_weighted_sum(row, base, dt, ks, n, out2),
    ensures
        out1 == out2,
    decreases n,
{
    if n > 0 {
        let b1 = choose|before: S|
            is_weighted_sum(row, base, dt, ks, (n - 1) as nat, before) && #[trigger] is_next_sum(
                row[n as int],
                before,
                ks[n - 1],
                dt,
                out1,
            );
        let b2 = choose|before: S|
            is_weighted_sum(row, base, dt, ks, (n - 1) as nat, before) && #[trigger] is_next_sum(
                row[n as int],
                before,
                ks[n - 1],
                dt,
                out2,
            );
        lemma_weighted_sum_unique(row, base, dt, ks, (n - 1) as nat, b1, b2);
        if !is_zero(row[n as int]) {
            lemma_term_added_unique(b1, ks[n - 1], dt, row[n as int], out1, out2);
        }
    }
}

proof fn lemma_stages_agree<R: Real, S: VectorSpace<R>, F: Fn(R, S) -> S>(
    m: Seq<Seq<u64>>,
    time: R,
    state: S,
    dt: R,
    force: F,
    ks1: Seq<S>,
    ks2: Seq<S>,
    n: nat,
)
    requires
        is_exact_field::<R>(),
        is_exact_space::<R, S>(),
        is_function(force),
        ks1.len() == ks2.len(),
        n <= ks1.len(),
        are_stages(m, time, state, dt, force, ks1),
        are_stages(m, time, state, dt, force, ks2),
    ensures
        forall|i: int| 0 <= i < n ==> ks1[i] == ks2[i],
    decreases n,
{
    if n > 0 {
        let last = (n - 1) as int;
        lemma_stages_agree(m, time, state, dt, force, ks1, ks2, last as nat);
        assert(is_stage(m, time, state, dt, force, ks1, last));
        assert(is_stage(m, time, state, dt, force, ks2, last));
        let (t1, y1) = choose|t: R, y: S|
            is_stage_time(m[last][0], time, dt, t) && is_weighted_sum(
                m[last],
                state,
                dt,
                ks1,
                last as nat,
                y,
            ) && force.ensures((t, y), ks1[last]);
        let (t2, y2) = choose|t: R, y: S|
            is_stage_time(m[last][0], time, dt, t) && is_weighted_sum(
                m[last],
                state,
                dt,
                ks2,
                last as nat,
                y,
            ) && force.ensures((t, y), ks2[last]);
        lemma_stage_time_unique(m[last][0], time, dt, t1, t2);
        lemma_weighted_sum_prefix(m[last], state, dt, ks2, ks1, last as nat, y2);
        lemma_weighted_sum_unique(m[last], state, dt, ks1, last as nat, y1, y2);
    }
}

/// Where the arithmetic is exact and the derivative is a function, a step
/// has one run of stages only.
pub proof fn lemma_stages_unique<R: Real, S: VectorSpace<R>, F: Fn(R, S) -> S>(
    m: Seq<Seq<u64>>,
    time: R,
    state: S,
    dt: R,
    force: F,
    ks1: Seq<S>,
    ks2: Seq<S>,
)
    requires
        is_exact_field::<R>(),
        is_exact_space::<R, S>(),
        is_function(force),
        ks1.len() == ks2.len(),
        are_stages(m, time, state, dt, force, ks1),
        are_stages(m, time, state, dt, force, ks2),
    ensures
        ks1 == ks2,
{
    lemma_stages_agree(m, time, state, dt, force, ks1, ks2, ks1.len());
    assert(ks1 =~= ks2);
}

/// Determinism of the fixed step: where each operation of the arithmetic and
/// the derivative return one value only, the same tableau, time, state and
/// step size give the same stages and the same new state.
pub proof fn law_step_is_deterministic<R: Real, S: VectorSpace<R>, F: Fn(R, S) -> S>(
    m: Seq<Seq<u64>>,
    time: R,
    state: S,
    dt: R,
    force: F,
    ks1: Seq<S>,
    out1: S,
    ks2: Seq<S>,
    out2: S,
)
    requires
        is_exact_field::<R>(),
        is_exact_space::<R, S>(),
        is_function(force),
        is_step(m, time, state, dt, force, ks1, out1),
        is_step(m, time, state, dt, force, ks2, out2),
    ensures
        ks1 == ks2,
        out1 == out2,
{
    lemma_stages_unique(m, time, state, dt, force, ks1, ks2);
    lemma_weighted_sum_unique(
        m[stage_count(m) as int],
        state,
        dt,
        ks1,
        stage_count(m),
        out1,
        out2,
    );
}

/// Determinism of a trial: where each operation of the arithmetic and the
/// derivative return one value only, the same tableau, time, state and trial
/// step give the same two estimates.
pub proof fn law_trial_is_deterministic<R: Real, S: VectorSpace<R>, F: Fn(R, S) -> S>(
    m: Seq<Seq<u64>>,
    time: R,
    state: S,
    dt: R,
    force: F,
    ks1: Seq<S>,
    a1: S,
    b1: S,
    ks2: Seq<S>,
    a2: S,
    b2: S,
)
    requires
        is_exact_field::<R>(),
        is_exact_space::<R, S>(),
        is_function(force),
        is_trial(m, time, state, dt, force, ks1, a1, b1),
        is_trial(m, time, state, dt, force, ks2, a2, b2),
    ensures
        ks1 == ks2,
        a1 == a2,
        b1 == b2,
{
    lemma_stages_unique(m, time, state, dt, force, ks1, ks2);
    lemma_weighted_sum_unique(m[stage_count(m) + 0int], state, dt, ks1, stage_count(m), a1, a2);
    lemma_weighted_sum_unique(m[stage_count(m) + 1int], state, dt, ks1, stage_count(m), b1, b2);
}

/// In an exact field and under an exact metric, two estimates are held
/// against a tolerance with one answer only.
pub proof fn lemma_verdict_unique<R: Real, S, M: Metric<S, R>>(
    d: M,
    est1: S,
    est2: S,
    ds: R,
    v1: bool,
    v2: bool,
)
    requires
        is_exact_field::<R>(),
        is_exact_metric(d),
        is_verdict(d, est1, est2, ds, v1),
        is_verdict(d, est1, est2, ds, v2),
    ensures
        v1 == v2,
{
    let e1 = choose|err: R| is_distance(d, est1, est2, err) && is_less(err, ds, v1);
    let e2 = choose|err: R| is_distance(d, est1, est2, err) && is_less(err, ds, v2);
    assert(e1 == e2);
}

/// Where all that a trial calls returns one value only, a trial step is not
/// both rejected and accepted.
pub proof fn lemma_reject_excludes_accept<
    R: Real,
    S: VectorSpace<R>,
    F: Fn(R, S) -> S,
    M: Metric<S, R>,
>(m: Seq<Seq<u64>>, time: R, state: S, dt: R, ds: R, force: F, d: M, est1: S, est2: S)
    requires
        is_exact_field::<R>(),
        is_exact_space::<R, S>(),
        is_exact_metric(d),
        is_function(force),
        may_reject(m, time, state, dt, ds, force, d),
    ensures
        !may_accept(m, time, state, dt, ds, force, d, est1, est2),
{
    if may_accept(m, time, state, dt, ds, force, d, est1, est2) {
        let ks1 = choose|ks: Seq<S>| is_trial(m, time, state, dt, force, ks, est1, est2);
        let (ks2, a2, b2) = choose|ks: Seq<S>, a: S, b: S|
            is_trial(m, time, state, dt, force, ks, a, b) && is_verdict(d, a, b, ds, false);
        law_trial_is_deterministic(m, time, state, dt, force, ks1, est1, est2, ks2, a2, b2);
        lemma_verdict_unique(d, est1, est2, ds, true, false);
    }
}

/// In an exact field two runs of trial steps from one first step agree as far
/// as both go.
pub proof fn lemma_trial_steps_agree<R: Real>(dt0: R, dts1: Seq<R>, dts2: Seq<R>, i: int)
    requires
        is_exact_field::<R>(),
        are_trial_steps(dt0, dts1),
        are_trial_steps(dt0, dts2),
        0 <= i < dts1.len(),
        i < dts2.len(),
    ensures
        dts1[i] == dts2[i],
    decreases i,
{
    if i > 0 {
        lemma_trial_steps_agree(dt0, dts1, dts2, i - 1);
        lemma_fraction_unique(dts1[i - 1], ONE_HALF, dts1[i], dts2[i]);
    }
}

/// Every accepted step has its two estimates closer to each other than the
/// tolerance that was given for it, and is left in slot 0 of the buffer.
pub proof fn law_accepted_within_tolerance<
    R: Real,
    S: VectorSpace<R>,
    F: Fn(R, S) -> S,
    M: Metric<S, R>,
>(
    m: Seq<Seq<u64>>,
    before: Seq<(R, S)>,
    ds: R,
    force: F,
    d: M,
    max_trials: nat,
    after: Seq<(R, S)>,
    accepted: (R, S),
)
    requires
        before.len() >= 2,
        is_search(m, before, ds, force, d, max_trials, after, Some(accepted)),
    ensures
        is_verdict(d, accepted.1, after[1].1, ds, true),
        after[0] == accepted,
{
    let dts = choose|dts: Seq<R>|
        search_ends_after(m, before, ds, force, d, max_trials, after, Some(accepted), dts);
    assert(search_ends_after(m, before, ds, force, d, max_trials, after, Some(accepted), dts));
}

/// Determinism of the search: where each operation of the arithmetic, the
/// metric and the derivative return one value only, the same tableau,
/// buffer, tolerance and number of trials give the same result and leave the
/// same buffer.
pub proof fn law_search_is_deterministic<
    R: Real,
    S: VectorSpace<R>,
    F: Fn(R, S) -> S,
    M: Metric<S, R>,
>(
    m: Seq<Seq<u64>>,
    before: Seq<(R, S)>,
    ds: R,
    force: F,
    d: M,
    max_trials: nat,
    after1: Seq<(R, S)>,
    r1: Option<(R, S)>,
    after2: Seq<(R, S)>,
    r2: Option<(R, S)>,
)
    requires
        before.len() >= 2,
        is_exact_field::<R>(),
        is_exact_space::<R, S>(),
        is_exact_metric(d),
        is_function(force),
        is_search(m, before, ds, force, d, max_trials, after1, r1),
        is_search(m, before, ds, force, d, max_trials, after2, r2),
    ensures
        r1 == r2,
        after1 == after2,
{
    let time = before[0].0;
    let state = before[0].1;
    let dt0 = before[1].0;
    let dts1 = choose|dts: Seq<R>|
        search_ends_after(m, before, ds, force, d, max_trials, after1, r1, dts);
    let dts2 = choose|dts: Seq<R>|
        search_ends_after(m, before, ds, force, d, max_trials, after2, r2, dts);
    assert(search_ends_after(m, before, ds, force, d, max_trials, after1, r1, dts1));
    assert(search_ends_after(m, before, ds, force, d, max_trials, after2, r2, dts2));
    let n1 = dts1.len() - 1;
    let n2 = dts2.len() - 1;
    if n1 < n2 {
        lemma_trial_steps_agree(dt0, dts1, dts2, n1);
        assert(may_reject(m, time, state, dts2[n1], ds, force, d));
        let accepted = r1->Some_0;
        lemma_reject_excludes_accept(
            m,
            time,
            state,
            dts1[n1],
            ds,
            force,
            d,
            accepted.1,
            after1[1].1,
        );
        assert(false);
    }
    if n2 < n1 {
        lemma_trial_steps_agree(dt0, dts1, dts2, n2);
        assert(may_reject(m, time, state, dts1[n2], ds, force, d));
        let accepted = r2->Some_0;
        lemma_reject_excludes_accept(
            m,
            time,
            state,
            dts2[n2],
            ds,
            force,
            d,
            accepted.1,
            after2[1].1,
        );
        assert(false);
    }
    assert(n1 == n2);
    lemma_trial_steps_agree(dt0, dts1, dts2, n1);
    let dt = dts1[n1];
    if r1 is Some {
        let acc1 = r1->Some_0;
        let acc2 = r2->Some_0;
        let ks1 = choose|ks: Seq<S>| is_trial(m, time, state, dt, force, ks, acc1.1, after1[1].1);
        let ks2 = choose|ks: Seq<S>| is_trial(m, time, state, dt, force, ks, acc2.1, after2[1].1);
        law_trial_is_deterministic(
            m,
            time,
            state,
            dt,
            force,
            ks1,
            acc1.1,
            after1[1].1,
            ks2,
            acc2.1,
            after2[1].1,
        );
        lemma_fraction_unique(dt, crate::coefficient::THREE_HALVES, after1[1].0, after2[1].0);
        assert(acc1 == acc2);
        assert(after1[1] == after2[1]);
    }
}

/// Determinism of the Velocity-Verlet step: where each operation of the
/// arithmetic, the velocity and the force return one value only, the same
/// time, slots and step size give the same new slots.
pub proof fn law_verlet_is_deterministic<
    R: Real,
    S: VectorSpace<R>,
    V: Fn(R, S) -> S,
    F: Fn(R, S) -> S,
>(
    time: R,
    s: S,
    a: S,
    dt: R,
    velocity: V,
    force: F,
    new_a1: S,
    out1: S,
    new_a2: S,
    out2: S,
)
    requires
        is_exact_field::<R>(),
        is_exact_space::<R, S>(),
        is_function(velocity),
        is_function(force),
        is_verlet_step(time, s, a, dt, velocity, force, new_a1, out1),
        is_verlet_step(time, s, a, dt, velocity, force, new_a2, out2),
    ensures
        new_a1 == new_a2,
        out1 == out2,
{
    let (v1, mid1, first1, later1) = choose|v: S, mid: S, first: S, later: R|
        velocity.ensures((time, a), v) && is_midpoint_state(s, a, dt, v, mid) && is_term_added(
            s,
            a,
            dt,
            ONE_HALF,
            first,
        ) && is_sum(time, dt, later) && force.ensures((later, mid), new_a1) && is_term_added(
            first,
            new_a1,
            dt,
            ONE_HALF,
            out1,
        );
    let (v2, mid2, first2, later2) = choose|v: S, mid: S, first: S, later: R|
        velocity.ensures((time, a), v) && is_midpoint_state(s, a, dt, v, mid) && is_term_added(
            s,
            a,
            dt,
            ONE_HALF,
            first,
        ) && is_sum(time, dt, later) && force.ensures((later, mid), new_a2) && is_term_added(
            first,
            new_a2,
            dt,
            ONE_HALF,
            out2,
        );
    assert(v1 == v2);
    lemma_midpoint_unique(s, a, dt, v1, mid1, mid2);
    lemma_term_added_unique(s, a, dt, ONE_HALF, first1, first2);
    assert(later1 == later2);
    assert(new_a1 == new_a2);
    lemma_term_added_unique(first1, new_a1, dt, ONE_HALF, out1, out2);
}

/// In exact arithmetic the midpoint state is one vector.
pub proof fn lemma_midpoint_unique<R: Real, S: VectorSpace<R>>(
    s: S,
    a: S,
    dt: R,
    v: S,
    mid1: S,
    mid2: S,
)
    requires
        is_exact_field::<R>(),
        is_exact_space::<R, S>(),
        is_midpoint_state(s, a, dt, v, mid1),
        is_midpoint_state(s, a, dt, v, mid2),
    ensures
        mid1 == mid2,
{
    let (x1, x2, h, x3) = choose|x1: S, x2: S, h: R, x3: S|
        is_scaled(a, dt, x1) && is_vector_sum::<R, S>(s, x1, x2) && is_half_square(dt, h)
            && is_scaled(v, h, x3) && is_vector_sum::<R, S>(x2, x3, mid1);
    let (y1, y2, g, y3) = choose|x1: S, x2: S, h: R, x3: S|
        is_scaled(a, dt, x1) && is_vector_sum::<R, S>(s, x1, x2) && is_half_square(dt, h)
            && is_scaled(v, h, x3) && is_vector_sum::<R, S>(x2, x3, mid2);
    let (q1, w1) = choose|q: R, w: R|
        is_product(dt, dt, q) && is_repr(ONE_HALF, w) && is_product(q, w, h);
    let (q2, w2) = choose|q: R, w: R|
        is_product(dt, dt, q) && is_repr(ONE_HALF, w) && is_product(q, w, g);
    assert(q1 == q2 && w1 == w2);
    assert(h == g);
    assert(x1 == y1);
    assert(x2 == y2);
    assert(x3 == y3);
}

} // verus!
