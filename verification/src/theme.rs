//! The colors of the default theme, written `0xAARRGGBB`.
use vstd::prelude::*;

verus! {

pub const FG0: u32 = 0xff_C8_BA_A4;

pub const FG1: u32 = 0xff_cd_c0_ad;

pub const FG2: u32 = 0xff_be_ae_94;

pub const BG0: u32 = 0xff_25_22_21;

pub const BG1: u32 = 0xa0_30_2c_2b;

pub const BG2: u32 = 0xff_30_2c_2b;

pub const YELLOW: u32 = 0xff_d9_b2_7c;

pub const GREEN: u32 = 0xff_95_a8_82;

pub const BLUE: u32 = 0xff_72_87_97;

pub const PURPLE: u32 = 0xff_99_83_96;

pub const BEIGE: u32 = 0xff_ab_93_82;

pub const ORANGE: u32 = 0xff_d0_8b_65;

pub const RED: u32 = 0xff_c6_5f_5f;

} // verus!
