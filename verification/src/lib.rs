//! Numerical integration of ordinary differential equations.
//!
//! The crate offers explicit Runge-Kutta steppers with a fixed step, embedded
//! Runge-Kutta pairs with a searched step, and the Velocity-Verlet stepper.
//! All of them work over an abstract scalar field and an abstract vector
//! space: the arithmetic is supplied by the caller through the traits of
//! [`space`], and every contract is stated over what the operations of those
//! traits return.
//!
//! What a stepper returns is the result of a fixed sequence of those
//! operations and of calls of the derivative. Where each of them returns one
//! value only for equal arguments, so does the stepper: [`laws`] holds the
//! proofs.

pub mod adaptive;
pub mod coefficient;
pub mod error;
pub mod integrator;
pub mod laws;
pub mod methods;
pub mod runge_kutta;
pub mod space;
pub mod tableau;
pub mod verlet;

pub use adaptive::AdaptiveRungeKutta;
pub use coefficient::{
    coefficient_is_zero, NEGATIVE_ZERO, ONE_HALF, POSITIVE_ZERO, THREE_HALVES,
};
pub use error::{decimal, RKError};
pub use integrator::{AdaptiveIntegrator, Buffered, Integrator, VelIntegrator};
pub use methods::{
    bogacki_shampine, dormand_prince, euler, euler_heun, heun2, heun3, midpoint, ralston, rk1,
    rk2, rk3, rk4, rk_3_8, rk_felberg, BOGACKI_SHAMPINE, DORMAND_PRINCE, EULER, EULER_HEUN,
    HEUN2, HEUN3, MIDPOINT, RALSTON, RK1, RK2, RK3, RK4, RK_3_8, RK_FELBERG,
};
pub use runge_kutta::{accumulate, add_term, compute_k, fraction, RungeKutta};
pub use space::{Metric, Real, VectorSpace};
pub use tableau::{
    clone_table, row_has_nonzero_from, rows_are_equal_length, scan_implicit, table_from_rows,
    ButcherTableau, TableauKind,
};
pub use verlet::VelocityVerlet;
