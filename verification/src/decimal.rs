//! The binary64 numbers nearest to the decimal literals that the defaults use.
use vstd::prelude::*;

verus! {

/// -1e19
pub const DM1E19: u64 = 0xc3e1_58e4_6091_3d00;

/// -1
pub const DM1: u64 = 0xbff0_0000_0000_0000;

/// 0
pub const D0: u64 = 0x0000_0000_0000_0000;

/// 1e-20
pub const D1EM20: u64 = 0x3bc7_9ca1_0c92_4223;

/// 1e-12
pub const D1EM12: u64 = 0x3d71_9799_812d_ea11;

/// 1e-11
pub const D1EM11: u64 = 0x3da5_fd7f_e179_6495;

/// 1e-10
pub const D1EM10: u64 = 0x3ddb_7cdf_d9d7_bdbb;

/// 1e-9
pub const D1EM9: u64 = 0x3e11_2e0b_e826_d695;

/// 1e-8
pub const D1EM8: u64 = 0x3e45_798e_e230_8c3a;

/// 1e-6
pub const D1EM6: u64 = 0x3eb0_c6f7_a0b5_ed8d;

/// 1e-5
pub const D1EM5: u64 = 0x3ee4_f8b5_88e3_68f1;

/// 1e-4
pub const D1EM4: u64 = 0x3f1a_36e2_eb1c_432d;

/// 1e-3
pub const D1EM3: u64 = 0x3f50_624d_d2f1_a9fc;

/// 1e-2
pub const D1EM2: u64 = 0x3f84_7ae1_47ae_147b;

/// 0.05
pub const D5EM2: u64 = 0x3fa9_9999_9999_999a;

/// 0.1
pub const D1EM1: u64 = 0x3fb9_9999_9999_999a;

/// 0.2
pub const D2EM1: u64 = 0x3fc9_9999_9999_999a;

/// 0.25
pub const D25EM2: u64 = 0x3fd0_0000_0000_0000;

/// 0.5
pub const D5EM1: u64 = 0x3fe0_0000_0000_0000;

/// 0.8
pub const D8EM1: u64 = 0x3fe9_9999_9999_999a;

/// 0.99
pub const D99EM2: u64 = 0x3fef_ae14_7ae1_47ae;

/// 0.9999
pub const D9999EM4: u64 = 0x3fef_ff2e_48e8_a71e;

/// 0.999999999
pub const D999999999EM9: u64 = 0x3fef_ffff_ff76_8fa1;

/// 1
pub const D1: u64 = 0x3ff0_0000_0000_0000;

/// 1.1
pub const D11EM1: u64 = 0x3ff1_9999_9999_999a;

/// 1.5
pub const D15EM1: u64 = 0x3ff8_0000_0000_0000;

/// 2.3
pub const D23EM1: u64 = 0x4002_6666_6666_6666;

/// 5
pub const D5: u64 = 0x4014_0000_0000_0000;

/// 8
pub const D8: u64 = 0x4020_0000_0000_0000;

/// 10
pub const D1E1: u64 = 0x4024_0000_0000_0000;

/// 64
pub const D64: u64 = 0x4050_0000_0000_0000;

/// 1e2
pub const D1E2: u64 = 0x4059_0000_0000_0000;

/// 1e3
pub const D1E3: u64 = 0x408f_4000_0000_0000;

/// 1e4
pub const D1E4: u64 = 0x40c3_8800_0000_0000;

/// 1e5
pub const D1E5: u64 = 0x40f8_6a00_0000_0000;

/// 1e6
pub const D1E6: u64 = 0x412e_8480_0000_0000;

/// 1e10
pub const D1E10: u64 = 0x4202_a05f_2000_0000;

/// 1e19
pub const D1E19: u64 = 0x43e1_58e4_6091_3d00;

/// 1e20
pub const D1E20: u64 = 0x4415_af1d_78b5_8c40;

/// 1/3
pub const ONE_THIRD: u64 = 0x3fd5_5555_5555_5555;

/// The distance from 1 to the next larger number, 2^-52.
pub const EPSILON: u64 = 0x3cb0_0000_0000_0000;

/// Ten times the distance from 1 to the next larger number.
pub const TEN_EPSILON: u64 = 0x3ce4_0000_0000_0000;

} // verus!
