//! Butcher tableaux: their shape, and how a coefficient matrix is classified.
//!
//! Row `i` of a tableau holds in column 0 the time fraction of stage `i` and in
//! columns `1..=i` the weights with which the earlier stages enter it. The
//! rows below the stage rows hold the weights of the final combination: one
//! such row for a fixed-step method, two for an embedded pair.

use crate::coefficient::{coefficient_is_zero, is_zero};
use crate::error::RKError;
use vstd::prelude::*;

verus! {

/// The matrix that a table of rows stands for.
pub open spec fn matrix_of(table: Vec<Vec<u64>>) -> Seq<Seq<u64>> {
    Seq::new(table@.len(), |i: int| table@[i]@)
}

/// Every row is as long as the first.
pub open spec fn is_rectangular(m: Seq<Seq<u64>>) -> bool {
    forall|i: int| 0 <= i < m.len() ==> (#[trigger] m[i]).len() == m[0].len()
}

/// Some entry of `row` at column `from` or further right is not zero.
pub open spec fn has_nonzero_from(row: Seq<u64>, from: int) -> bool {
    exists|j: int| from <= j < row.len() && !is_zero(#[trigger] row[j])
}

/// Some row `i` has an entry that is not zero in column `i` or further right.
pub open spec fn is_implicit(m: Seq<Seq<u64>>) -> bool {
    exists|i: int| 0 <= i < m.len() && has_nonzero_from(#[trigger] m[i], i)
}

/// The shape that the evaluation of stages asks for: rows of equal length with
/// at least one entry, and a row for each stage.
pub open spec fn has_stage_rows(m: Seq<Seq<u64>>) -> bool {
    &&& m.len() >= 1
    &&& is_rectangular(m)
    &&& m[0].len() >= 1
    &&& m.len() >= m[0].len() - 1
}

/// The shape of a fixed-step tableau: square and not empty.
pub open spec fn is_fixed_shape(m: Seq<Seq<u64>>) -> bool {
    &&& m.len() >= 1
    &&& is_rectangular(m)
    &&& m[0].len() == m.len()
}

/// The shape of an embedded pair: one row more than columns, and at least one
/// column.
pub open spec fn is_adaptive_shape(m: Seq<Seq<u64>>) -> bool {
    &&& is_rectangular(m)
    &&& m[0].len() >= 1
    &&& m.len() == m[0].len() + 1
}

/// The four classes of a well-shaped matrix.
#[derive(Clone, Copy, PartialEq, Eq, Debug, Structural)]
pub enum TableauKind {
    Fixed,
    Adaptive,
    Implicit,
    AdaptiveImplicit,
}

/// What validation makes of a matrix. The tests are made in this order: a
/// matrix without rows is empty; one with rows of different lengths is jagged;
/// one with more columns than rows has too many columns; one whose rows have
/// no entry is empty; one with two or more rows beyond the square is not
/// square. What is left is square or has one row more, and is implicit or not.
pub open spec fn classify(m: Seq<Seq<u64>>) -> Result<TableauKind, RKError> {
    if m.len() == 0 {
        Err(RKError::EmptyTableau)
    } else if !is_rectangular(m) {
        Err(RKError::JaggedTableau)
    } else if m[0].len() > m.len() {
        Err(RKError::TooManyColumns(m.len() as usize, m[0].len() as usize))
    } else if m[0].len() == 0 {
        Err(RKError::EmptyTableau)
    } else if m.len() > m[0].len() + 1 {
        Err(RKError::NonSquareTableau(m.len() as usize, m[0].len() as usize))
    } else if m.len() == m[0].len() {
        Ok(
            if is_implicit(m) {
                TableauKind::Implicit
            } else {
                TableauKind::Fixed
            },
        )
    } else {
        Ok(
            if is_implicit(m) {
                TableauKind::AdaptiveImplicit
            } else {
                TableauKind::Adaptive
            },
        )
    }
}

/// A validated coefficient matrix together with its class.
#[derive(PartialEq, Debug)]
pub enum ButcherTableau {
    Fixed(Vec<Vec<u64>>),
    Adaptive(Vec<Vec<u64>>),
    Implicit(Vec<Vec<u64>>),
    AdaptiveImplicit(Vec<Vec<u64>>),
}

impl Clone for ButcherTableau {
    fn clone(&self) -> (copy: Self)
        ensures
            copy.kind() == self.kind(),
            matrix_of(copy.table()) == matrix_of(self.table()),
    {
        match self {
            ButcherTableau::Fixed(t) => ButcherTableau::Fixed(clone_table(t)),
            ButcherTableau::Adaptive(t) => ButcherTableau::Adaptive(clone_table(t)),
            ButcherTableau::Implicit(t) => ButcherTableau::Implicit(clone_table(t)),
            ButcherTableau::AdaptiveImplicit(t) => ButcherTableau::AdaptiveImplicit(clone_table(t)),
        }
    }
}

/// The matrix that an array of rows stands for.
pub open spec fn array_matrix<const N: usize, const M: usize>(rows: [[u64; M]; N]) -> Seq<Seq<u64>> {
    Seq::new(N as nat, |i: int| rows@[i]@)
}

/// Copies an array of rows into a table.
pub fn table_from_rows<const N: usize, const M: usize>(rows: &[[u64; M]; N]) -> (table: Vec<Vec<u64>>)
    ensures
        matrix_of(table) == array_matrix(*rows),
{
    let mut table: Vec<Vec<u64>> = Vec::with_capacity(N);
    let mut i: usize = 0;
    while i < N
        invariant
            i <= N,
            table.len() == i,
            forall|a: int| 0 <= a < i ==> (#[trigger] table@[a])@ == rows@[a]@,
        decreases N - i,
    {
        let mut row: Vec<u64> = Vec::with_capacity(M);
        let mut j: usize = 0;
        while j < M
            invariant
                j <= M,
                i < N,
                row.len() == j,
                forall|b: int| 0 <= b < j ==> #[trigger] row@[b] == rows@[i as int]@[b],
            decreases M - j,
        {
            row.push(rows[i][j]);
            j += 1;
        }
        assert(row@ =~= rows@[i as int]@);
        table.push(row);
        i += 1;
    }
    assert(matrix_of(table) =~= array_matrix(*rows));
    table
}

/// Copies a table row by row.
pub fn clone_table(table: &Vec<Vec<u64>>) -> (copy: Vec<Vec<u64>>)
    ensures
        matrix_of(copy) == matrix_of(*table),
{
    let mut copy: Vec<Vec<u64>> = Vec::with_capacity(table.len());
    let mut i: usize = 0;
    while i < table.len()
        invariant
            i <= table.len(),
            copy.len() == i,
            forall|k: int| 0 <= k < i ==> (#[trigger] copy@[k])@ == table@[k]@,
        decreases table.len() - i,
    {
        let row = table[i].clone();
        assert(row@ =~= table@[i as int]@);
        copy.push(row);
        i += 1;
    }
    assert(matrix_of(copy) =~= matrix_of(*table));
    copy
}

/// Tells whether `row` has an entry that is not zero at column `from` or
/// further right.
pub fn row_has_nonzero_from(row: &Vec<u64>, from: usize) -> (found: bool)
    ensures
        found == has_nonzero_from(row@, from as int),
{
    let mut j: usize = from;
    while j < row.len()
        invariant
            from <= j,
            forall|k: int| from <= k < j && k < row.len() ==> is_zero(#[trigger] row@[k]),
        decreases row.len() - j,
    {
        if !coefficient_is_zero(row[j]) {
            return true;
        }
        j += 1;
    }
    false
}

/// Tells whether every row of `table` is as long as the first.
pub fn rows_are_equal_length(table: &Vec<Vec<u64>>) -> (ok: bool)
    ensures
        ok == is_rectangular(matrix_of(*table)),
{
    let mut i: usize = 0;
    while i < table.len()
        invariant
            i <= table.len(),
            forall|k: int| 0 <= k < i ==> (#[trigger] matrix_of(*table)[k]).len() == matrix_of(*table)[0].len(),
        decreases table.len() - i,
    {
        if table[i].len() != table[0].len() {
            assert(matrix_of(*table)[i as int].len() != matrix_of(*table)[0].len());
            return false;
        }
        i += 1;
    }
    true
}

/// Scans row `i` from column `i` rightwards, for every row, for an entry that
/// is not zero.
pub fn scan_implicit(table: &Vec<Vec<u64>>) -> (found: bool)
    ensures
        found == is_implicit(matrix_of(*table)),
{
    let mut i: usize = 0;
    while i < table.len()
        invariant
            i <= table.len(),
            forall|k: int| 0 <= k < i ==> !has_nonzero_from(#[trigger] matrix_of(*table)[k], k),
        decreases table.len() - i,
    {
        if row_has_nonzero_from(&table[i], i) {
            assert(has_nonzero_from(matrix_of(*table)[i as int], i as int));
            return true;
        }
        i += 1;
    }
    false
}

impl ButcherTableau {
    /// The class of this tableau.
    pub open spec fn kind(self) -> TableauKind {
        match self {
            ButcherTableau::Fixed(_) => TableauKind::Fixed,
            ButcherTableau::Adaptive(_) => TableauKind::Adaptive,
            ButcherTableau::Implicit(_) => TableauKind::Implicit,
            ButcherTableau::AdaptiveImplicit(_) => TableauKind::AdaptiveImplicit,
        }
    }

    /// The rows of this tableau.
    pub open spec fn table(self) -> Vec<Vec<u64>> {
        match self {
            ButcherTableau::Fixed(t) => t,
            ButcherTableau::Adaptive(t) => t,
            ButcherTableau::Implicit(t) => t,
            ButcherTableau::AdaptiveImplicit(t) => t,
        }
    }

    /// Validates and classifies a coefficient matrix. The result is the class
    /// that [`classify`] gives, holding the matrix unchanged, or the error
    /// that it gives.
    pub fn new(table: Vec<Vec<u64>>) -> (r: Result<ButcherTableau, RKError>)
        ensures
            match classify(matrix_of(table)) {
                Ok(kind) => r matches Ok(t) && t.kind() == kind && t.table() == table,
                Err(e) => r == Err::<ButcherTableau, RKError>(e),
            },
    {
        let rows: usize = table.len();
        if rows == 0 {
            return Err(RKError::EmptyTableau);
        }
        if !rows_are_equal_length(&table) {
            return Err(RKError::JaggedTableau);
        }
        let columns: usize = table[0].len();
        if columns > rows {
            return Err(RKError::TooManyColumns(rows, columns));
        }
        if columns == 0 {
            return Err(RKError::EmptyTableau);
        }
        if rows - columns > 1 {
            return Err(RKError::NonSquareTableau(rows, columns));
        }
        let implicit = scan_implicit(&table);
        if rows == columns {
            if implicit {
                Ok(ButcherTableau::Implicit(table))
            } else {
                Ok(ButcherTableau::Fixed(table))
            }
        } else {
            if implicit {
                Ok(ButcherTableau::AdaptiveImplicit(table))
            } else {
                Ok(ButcherTableau::Adaptive(table))
            }
        }
    }
}

} // verus!
