//! Bit flags of the powers an AML authority can hold, combined in one `u8`.
use vstd::prelude::*;

verus! {

pub const VIEW_TRANSACTIONS: u8 = 1 << 0;

pub const FREEZE_ACCOUNTS: u8 = 1 << 1;

pub const SEIZE_FUNDS: u8 = 1 << 2;

pub const MODIFY_BLACKLIST: u8 = 1 << 3;

} // verus!
