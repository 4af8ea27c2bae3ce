//! Bit flags that select the parts of a line's prefix.

use vstd::prelude::*;

verus! {

#[allow(non_upper_case_globals)]
pub const Nano: u8 = 0;

#[allow(non_upper_case_globals)]
pub const Date: u8 = 1;

#[allow(non_upper_case_globals)]
pub const Time: u8 = 2;

#[allow(non_upper_case_globals)]
pub const Microseconds: u8 = 4;

#[allow(non_upper_case_globals)]
pub const LongFileName: u8 = 8;

#[allow(non_upper_case_globals)]
pub const ShortFileName: u8 = 16;

#[allow(non_upper_case_globals)]
pub const LevelFlag: u8 = 32;

} // verus!
