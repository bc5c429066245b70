//! The ways in which a coefficient matrix can fail to describe a usable method.

use vstd::prelude::*;
use vstd::string::StringExecFns;

verus! {

/// Why a coefficient matrix was turned down.
#[derive(Clone, Copy, PartialEq, Eq, Debug, Structural)]
pub enum RKError {
    /// The matrix has no row, or its rows have no entry.
    EmptyTableau,
    /// Some row differs in length from the first.
    JaggedTableau,
    /// There are more columns than rows; the fields are rows, then columns.
    TooManyColumns(usize, usize),
    /// The shape does not fit the kind of method asked for; the fields are
    /// rows, then columns.
    NonSquareTableau(usize, usize),
    /// A coefficient on or right of the diagonal is not zero.
    UnsupportedImplicit,
}

/// The character that stands for a single decimal digit.
pub open spec fn digit_char(d: nat) -> char
    recommends
        d < 10,
{
    if d == 0 {
        '0'
    } else if d == 1 {
        '1'
    } else if d == 2 {
        '2'
    } else if d == 3 {
        '3'
    } else if d == 4 {
        '4'
    } else if d == 5 {
        '5'
    } else if d == 6 {
        '6'
    } else if d == 7 {
        '7'
    } else if d == 8 {
        '8'
    } else {
        '9'
    }
}

/// The decimal numeral of `n`, most significant digit first, without leading
/// zeros.
pub open spec fn decimal_digits(n: nat) -> Seq<char>
    decreases n,
{
    if n < 10 {
        seq![digit_char(n)]
    } else {
        decimal_digits(n / 10).push(digit_char(n % 10))
    }
}

fn digit_str(d: usize) -> (s: &'static str)
    requires
        d < 10,
    ensures
        s@ == seq![digit_char(d as nat)],
{
    proof {
        reveal_strlit("0");
        reveal_strlit("1");
        reveal_strlit("2");
        reveal_strlit("3");
        reveal_strlit("4");
        reveal_strlit("5");
        reveal_strlit("6");
        reveal_strlit("7");
        reveal_strlit("8");
        reveal_strlit("9");
    }
    let s = if d == 0 {
        "0"
    } else if d == 1 {
        "1"
    } else if d == 2 {
        "2"
    } else if d == 3 {
        "3"
    } else if d == 4 {
        "4"
    } else if d == 5 {
        "5"
    } else if d == 6 {
        "6"
    } else if d == 7 {
        "7"
    } else if d == 8 {
        "8"
    } else {
        "9"
    };
    assert(s@ =~= seq![digit_char(d as nat)]);
    s
}

/// Writes `n` as a decimal numeral.
pub fn decimal(n: usize) -> (s: String)
    ensures
        s@ == decimal_digits(n as nat),
    decreases n,
{
    if n < 10 {
        String::from_str(digit_str(n))
    } else {
        let mut s = decimal(n / 10);
        s.append(digit_str(n % 10));
        assert(s@ =~= decimal_digits(n as nat));
        s
    }
}

impl RKError {
    /// The text of the diagnostic for this error.
    pub open spec fn message_spec(self) -> Seq<char> {
        match self {
            RKError::EmptyTableau => "Zero-length Runge-Kutta matrix"@,
            RKError::JaggedTableau => "Tableau is non-rectangular"@,
            RKError::TooManyColumns(r, c) => "Tableau has "@ + decimal_digits(r as nat)
                + " rows but "@ + decimal_digits(c as nat) + " columns"@,
            RKError::NonSquareTableau(r, c) => "Non-square tableau; number of rows is "@
                + decimal_digits(r as nat) + " but there is a row of length "@ + decimal_digits(
                c as nat,
            ),
            RKError::UnsupportedImplicit => "Implicit Runge-Kutta not supported"@,
        }
    }

    /// Renders the diagnostic for this error.
    pub fn message(&self) -> (s: String)
        ensures
            s@ == self.message_spec(),
    {
        match *self {
            RKError::EmptyTableau => String::from_str("Zero-length Runge-Kutta matrix"),
            RKError::JaggedTableau => String::from_str("Tableau is non-rectangular"),
            RKError::TooManyColumns(r, c) => {
                let mut s = String::from_str("Tableau has ");
                s.append(decimal(r).as_str());
                s.append(" rows but ");
                s.append(decimal(c).as_str());
                s.append(" columns");
                s
            },
            RKError::NonSquareTableau(r, c) => {
                let mut s = String::from_str("Non-square tableau; number of rows is ");
                s.append(decimal(r).as_str());
                s.append(" but there is a row of length ");
                s.append(decimal(c).as_str());
                s
            },
            RKError::UnsupportedImplicit => String::from_str("Implicit Runge-Kutta not supported"),
        }
    }
}

} // verus!
