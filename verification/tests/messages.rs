use numerical_integration::{decimal, RKError};

#[test]
fn decimal_numerals() {
    assert_eq!(decimal(0), "0");
    assert_eq!(decimal(7), "7");
    assert_eq!(decimal(9), "9");
    assert_eq!(decimal(10), "10");
    assert_eq!(decimal(105), "105");
    assert_eq!(decimal(1234567890), "1234567890");
    assert_eq!(decimal(usize::MAX), format!("{}", usize::MAX));
}

#[test]
fn message_of_empty() {
    assert_eq!(RKError::EmptyTableau.message(), "Zero-length Runge-Kutta matrix");
}

#[test]
fn message_of_jagged() {
    assert_eq!(RKError::JaggedTableau.message(), "Tableau is non-rectangular");
}

#[test]
fn message_of_too_many_columns() {
    assert_eq!(
        RKError::TooManyColumns(2, 3).message(),
        "Tableau has 2 rows but 3 columns"
    );
    assert_eq!(
        RKError::TooManyColumns(10, 120).message(),
        "Tableau has 10 rows but 120 columns"
    );
}

#[test]
fn message_of_non_square() {
    assert_eq!(
        RKError::NonSquareTableau(4, 2).message(),
        "Non-square tableau; number of rows is 4 but there is a row of length 2"
    );
    assert_eq!(
        RKError::NonSquareTableau(0, 31).message(),
        "Non-square tableau; number of rows is 0 but there is a row of length 31"
    );
}

#[test]
fn message_of_implicit() {
    assert_eq!(
        RKError::UnsupportedImplicit.message(),
        "Implicit Runge-Kutta not supported"
    );
}

#[test]
fn errors_compare_by_fields() {
    assert_eq!(RKError::TooManyColumns(1, 2), RKError::TooManyColumns(1, 2));
    assert_ne!(RKError::TooManyColumns(1, 2), RKError::TooManyColumns(2, 1));
    assert_ne!(RKError::TooManyColumns(1, 2), RKError::NonSquareTableau(1, 2));
    let e = RKError::JaggedTableau;
    let f = e;
    assert_eq!(e, f);
}
