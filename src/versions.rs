use vstd::prelude::*;

verus! {

/// Version of this program.
pub const PROGRAM_VERSION: &'static str = "0.1.0";

/// Oldest host ledger version this program runs on.
pub const MIN_SOLANA_VERSION: &'static str = "1.16.0";

/// Whether the host ledger's version is supported; every version that runs
/// the program is accepted.
pub fn is_solana_version_compatible() -> (r: bool)
    ensures
        r,
{
    true
}

/// The program's version.
pub fn get_program_version() -> (r: &'static str)
    ensures
        r@ == PROGRAM_VERSION@,
{
    PROGRAM_VERSION
}

} // verus!
