//! The named methods.
//!
//! Each method is given by its coefficients, written as the bit patterns of
//! the binary64 numbers nearest to the fractions shown, and by a function that
//! makes the stepper for it.

use crate::adaptive::AdaptiveRungeKutta;
use crate::runge_kutta::RungeKutta;
use crate::tableau::array_matrix;
use vstd::prelude::*;

verus! {

/// The first-order method of Euler.
///
/// ```text
/// 0  0
/// 0  1
/// ```
pub const RK1: [[u64; 2]; 2] = [
    [0, 0],
    [0, 0x3ff0_0000_0000_0000],
];

/// The second-order midpoint method.
///
/// ```text
///   0    0    0
/// 1/2  1/2    0
///   0    0    1
/// ```
pub const RK2: [[u64; 3]; 3] = [
    [0, 0, 0],
    [0x3fe0_0000_0000_0000, 0x3fe0_0000_0000_0000, 0],
    [0, 0, 0x3ff0_0000_0000_0000],
];

/// The second-order method of Heun.
///
/// ```text
///   0    0    0
///   1    1    0
///   0  1/2  1/2
/// ```
pub const HEUN2: [[u64; 3]; 3] = [
    [0, 0, 0],
    [0x3ff0_0000_0000_0000, 0x3ff0_0000_0000_0000, 0],
    [0, 0x3fe0_0000_0000_0000, 0x3fe0_0000_0000_0000],
];

/// The second-order method of Ralston.
///
/// ```text
///   0    0    0
/// 2/3  2/3    0
///   0  1/4  3/4
/// ```
pub const RALSTON: [[u64; 3]; 3] = [
    [0, 0, 0],
    [0x3fe5_5555_5555_5555, 0x3fe5_5555_5555_5555, 0],
    [0, 0x3fd0_0000_0000_0000, 0x3fe8_0000_0000_0000],
];

/// The third-order method of Kutta.
///
/// ```text
///   0    0    0    0
/// 1/2  1/2    0    0
///   1   -1    2    0
///   0  1/6  2/3  1/6
/// ```
pub const RK3: [[u64; 4]; 4] = [
    [0, 0, 0, 0],
    [0x3fe0_0000_0000_0000, 0x3fe0_0000_0000_0000, 0, 0],
    [0x3ff0_0000_0000_0000, 0xbff0_0000_0000_0000, 0x4000_0000_0000_0000, 0],
    [0, 0x3fc5_5555_5555_5555, 0x3fe5_5555_5555_5555, 0x3fc5_5555_5555_5555],
];

/// The third-order method of Heun.
///
/// ```text
///   0    0    0    0
/// 1/3  1/3    0    0
/// 2/3    0  2/3    0
///   0  1/4    0  3/4
/// ```
pub const HEUN3: [[u64; 4]; 4] = [
    [0, 0, 0, 0],
    [0x3fd5_5555_5555_5555, 0x3fd5_5555_5555_5555, 0, 0],
    [0x3fe5_5555_5555_5555, 0, 0x3fe5_5555_5555_5555, 0],
    [0, 0x3fd0_0000_0000_0000, 0, 0x3fe8_0000_0000_0000],
];

/// The classical fourth-order method.
///
/// ```text
///   0    0    0    0    0
/// 1/2  1/2    0    0    0
/// 1/2    0  1/2    0    0
///   1    0    0    1    0
///   0  1/6  1/3  1/3  1/6
/// ```
pub const RK4: [[u64; 5]; 5] = [
    [0, 0, 0, 0, 0],
    [0x3fe0_0000_0000_0000, 0x3fe0_0000_0000_0000, 0, 0, 0],
    [0x3fe0_0000_0000_0000, 0, 0x3fe0_0000_0000_0000, 0, 0],
    [0x3ff0_0000_0000_0000, 0, 0, 0x3ff0_0000_0000_0000, 0],
    [0, 0x3fc5_5555_5555_5555, 0x3fd5_5555_5555_5555, 0x3fd5_5555_5555_5555, 0x3fc5_5555_5555_5555],
];

/// The fourth-order three-eighths rule.
///
/// ```text
///    0     0     0     0     0
///  1/3   1/3     0     0     0
///  2/3  -1/3     1     0     0
///    1     1    -1     1     0
///    0   1/8   3/8   3/8   1/8
/// ```
pub const RK_3_8: [[u64; 5]; 5] = [
    [0, 0, 0, 0, 0],
    [0x3fd5_5555_5555_5555, 0x3fd5_5555_5555_5555, 0, 0, 0],
    [0x3fe5_5555_5555_5555, 0xbfd5_5555_5555_5555, 0x3ff0_0000_0000_0000, 0, 0],
    [0x3ff0_0000_0000_0000, 0x3ff0_0000_0000_0000, 0xbff0_0000_0000_0000, 0x3ff0_0000_0000_0000, 0],
    [0, 0x3fc0_0000_0000_0000, 0x3fd8_0000_0000_0000, 0x3fd8_0000_0000_0000, 0x3fc0_0000_0000_0000],
];

/// The embedded pair of Euler and Heun.
///
/// ```text
///   0    0    0
///   1    1    0
///   0  1/2  1/2
///   0    1    0
/// ```
pub const EULER_HEUN: [[u64; 3]; 4] = [
    [0, 0, 0],
    [0x3ff0_0000_0000_0000, 0x3ff0_0000_0000_0000, 0],
    [0, 0x3fe0_0000_0000_0000, 0x3fe0_0000_0000_0000],
    [0, 0x3ff0_0000_0000_0000, 0],
];

/// The embedded pair of Bogacki and Shampine.
///
/// ```text
///    0     0     0     0     0
///  1/2   1/2     0     0     0
///  3/4     0   3/4     0     0
///    1   2/9   1/3   4/9     0
///    0   2/9   1/3   4/9     0
///    0  7/24   1/4   1/3   1/8
/// ```
pub const BOGACKI_SHAMPINE: [[u64; 5]; 6] = [
    [0, 0, 0, 0, 0],
    [0x3fe0_0000_0000_0000, 0x3fe0_0000_0000_0000, 0, 0, 0],
    [0x3fe8_0000_0000_0000, 0, 0x3fe8_0000_0000_0000, 0, 0],
    [0x3ff0_0000_0000_0000, 0x3fcc_71c7_1c71_c71c, 0x3fd5_5555_5555_5555, 0x3fdc_71c7_1c71_c71c, 0],
    [0, 0x3fcc_71c7_1c71_c71c, 0x3fd5_5555_5555_5555, 0x3fdc_71c7_1c71_c71c, 0],
    [0, 0x3fd2_aaaa_aaaa_aaab, 0x3fd0_0000_0000_0000, 0x3fd5_5555_5555_5555, 0x3fc0_0000_0000_0000],
];

/// The embedded pair of Fehlberg.
///
/// ```text
///           0            0            0            0            0            0            0
///         1/4          1/4            0            0            0            0            0
///         3/8         3/32         9/32            0            0            0            0
///       12/13    1932/2197   -7200/2197    7296/2197            0            0            0
///           1      439/216           -8     3680/513    -845/4104            0            0
///         1/2        -8/27            2   -3544/2565    1859/4104       -11/40            0
///           0       16/135            0   6656/12825  28561/56430        -9/50         2/55
///           0       25/216            0    1408/2565    2197/4104         -1/5            0
/// ```
pub const RK_FELBERG: [[u64; 7]; 8] = [
    [0, 0, 0, 0, 0, 0, 0],
    [0x3fd0_0000_0000_0000, 0x3fd0_0000_0000_0000, 0, 0, 0, 0, 0],
    [0x3fd8_0000_0000_0000, 0x3fb8_0000_0000_0000, 0x3fd2_0000_0000_0000, 0, 0, 0, 0],
    [
        0x3fed_89d8_9d89_d89e,
        0x3fec_23e3_9189_614c,
        0xc00a_37b2_a108_bd3c,
        0x400a_912f_e408_db10,
        0,
        0,
        0,
    ],
    [
        0x3ff0_0000_0000_0000,
        0x4000_425e_d097_b426,
        0xc020_0000_0000_0000,
        0x401c_b1a7_2c69_cb1a,
        0xbfca_5ad2_96b4_a5ad,
        0,
        0,
    ],
    [
        0x3fe0_0000_0000_0000,
        0xbfd2_f684_bda1_2f68,
        0x4000_0000_0000_0000,
        0xbff6_1b58_ba09_61b6,
        0x3fdc_fd81_3f60_4fd8,
        0xbfd1_9999_9999_999a,
        0,
    ],
    [
        0,
        0x3fbe_573a_c901_e574,
        0,
        0x3fe0_9b89_459a_a352,
        0x3fe0_323a_aacf_d498,
        0xbfc7_0a3d_70a3_d70a,
        0x3fa2_9e41_29e4_129e,
    ],
    [
        0,
        0x3fbd_a12f_684b_da13,
        0,
        0x3fe1_90d1_3101_190d,
        0x3fe1_216f_485b_d217,
        0xbfc9_9999_9999_999a,
        0,
    ],
];

/// The embedded pair of Dormand and Prince.
///
/// ```text
///             0              0              0              0              0              0              0              0
///           1/5            1/5              0              0              0              0              0              0
///          3/10           3/40           9/40              0              0              0              0              0
///           2/5          44/45         -56/15           32/9              0              0              0              0
///           8/9     19372/6561    -25360/2187     64448/6561       -212/729              0              0              0
///             1      9017/3168        -355/33     46732/5247         49/176    -5103/18656              0              0
///             1         35/384              0       500/1113        125/192     -2187/6784          11/84              0
///             0         35/384              0       500/1113        125/192     -2187/6784          11/84              0
///             0     5179/57600              0     7571/16695        393/640  -92097/339200       187/2100            1/4
/// ```
pub const DORMAND_PRINCE: [[u64; 8]; 9] = [
    [0, 0, 0, 0, 0, 0, 0, 0],
    [0x3fc9_9999_9999_999a, 0x3fc9_9999_9999_999a, 0, 0, 0, 0, 0, 0],
    [0x3fd3_3333_3333_3333, 0x3fb3_3333_3333_3333, 0x3fcc_cccc_cccc_cccd, 0, 0, 0, 0, 0],
    [
        0x3fd9_9999_9999_999a,
        0x3fef_49f4_9f49_f49f,
        0xc00d_dddd_dddd_ddde,
        0x400c_71c7_1c71_c71c,
        0,
        0,
        0,
        0,
    ],
    [
        0x3fec_71c7_1c71_c71c,
        0x4007_9eec_0fc3_7181,
        0xc027_310b_d295_20e4,
        0x4023_a552_363c_5290,
        0xbfd2_9c9e_ba1e_3345,
        0,
        0,
        0,
    ],
    [
        0x3ff0_0000_0000_0000,
        0x4006_c52b_f5a8_14b0,
        0xc025_83e0_f83e_0f84,
        0x4021_d016_a372_1e8b,
        0x3fd1_d174_5d17_45d1,
        0xbfd1_8189_70d9_cc2f,
        0,
        0,
    ],
    [
        0x3ff0_0000_0000_0000,
        0x3fb7_5555_5555_5555,
        0,
        0x3fdc_c049_9a56_05fb,
        0x3fe4_d555_5555_5555,
        0xbfd4_a1cf_b2b7_8c13,
        0x3fc0_c30c_30c3_0c31,
        0,
    ],
    [
        0,
        0x3fb7_5555_5555_5555,
        0,
        0x3fdc_c049_9a56_05fb,
        0x3fe4_d555_5555_5555,
        0xbfd4_a1cf_b2b7_8c13,
        0x3fc0_c30c_30c3_0c31,
        0,
    ],
    [
        0,
        0x3fb7_048d_159e_26af,
        0,
        0x3fdd_05f7_03aa_30fa,
        0x3fe3_a666_6666_6666,
        0xbfd1_6075_785e_4908,
        0x3fb6_cbd3_2398_9ff0,
        0x3fd0_0000_0000_0000,
    ],
];

/// The method of Euler, under its usual name.
pub const EULER: [[u64; 2]; 2] = RK1;

/// The midpoint method, under its usual name.
pub const MIDPOINT: [[u64; 3]; 3] = RK2;

/// The stepper for [`EULER`].
pub fn euler() -> (method: RungeKutta)
    ensures
        method@ == array_matrix(EULER),
{
    RungeKutta::of_square(&EULER)
}

/// The stepper for [`MIDPOINT`].
pub fn midpoint() -> (method: RungeKutta)
    ensures
        method@ == array_matrix(MIDPOINT),
{
    RungeKutta::of_square(&MIDPOINT)
}

/// The stepper for [`RK1`].
pub fn rk1() -> (method: RungeKutta)
    ensures
        method@ == array_matrix(RK1),
{
    RungeKutta::of_square(&RK1)
}

/// The stepper for [`RK2`].
pub fn rk2() -> (method: RungeKutta)
    ensures
        method@ == array_matrix(RK2),
{
    RungeKutta::of_square(&RK2)
}

/// The stepper for [`HEUN2`].
pub fn heun2() -> (method: RungeKutta)
    ensures
        method@ == array_matrix(HEUN2),
{
    RungeKutta::of_square(&HEUN2)
}

/// The stepper for [`RALSTON`].
pub fn ralston() -> (method: RungeKutta)
    ensures
        method@ == array_matrix(RALSTON),
{
    RungeKutta::of_square(&RALSTON)
}

/// The stepper for [`RK3`].
pub fn rk3() -> (method: RungeKutta)
    ensures
        method@ == array_matrix(RK3),
{
    RungeKutta::of_square(&RK3)
}

/// The stepper for [`HEUN3`].
pub fn heun3() -> (method: RungeKutta)
    ensures
        method@ == array_matrix(HEUN3),
{
    RungeKutta::of_square(&HEUN3)
}

/// The stepper for [`RK4`].
pub fn rk4() -> (method: RungeKutta)
    ensures
        method@ == array_matrix(RK4),
{
    RungeKutta::of_square(&RK4)
}

/// The stepper for [`RK_3_8`].
pub fn rk_3_8() -> (method: RungeKutta)
    ensures
        method@ == array_matrix(RK_3_8),
{
    RungeKutta::of_square(&RK_3_8)
}

/// The stepper for [`EULER_HEUN`].
pub fn euler_heun() -> (method: AdaptiveRungeKutta)
    ensures
        method@ == array_matrix(EULER_HEUN),
{
    AdaptiveRungeKutta::of_rows(&EULER_HEUN)
}

/// The stepper for [`BOGACKI_SHAMPINE`].
pub fn bogacki_shampine() -> (method: AdaptiveRungeKutta)
    ensures
        method@ == array_matrix(BOGACKI_SHAMPINE),
{
    AdaptiveRungeKutta::of_rows(&BOGACKI_SHAMPINE)
}

/// The stepper for [`RK_FELBERG`].
pub fn rk_felberg() -> (method: AdaptiveRungeKutta)
    ensures
        method@ == array_matrix(RK_FELBERG),
{
    AdaptiveRungeKutta::of_rows(&RK_FELBERG)
}

/// The stepper for [`DORMAND_PRINCE`].
pub fn dormand_prince() -> (method: AdaptiveRungeKutta)
    ensures
        method@ == array_matrix(DORMAND_PRINCE),
{
    AdaptiveRungeKutta::of_rows(&DORMAND_PRINCE)
}

} // verus!
