use vstd::prelude::*;
use vstd::string::StringSliceAdditionalSpecFns;

use crate::constants::{KYC_ORACLE_STATE_SEED, KYC_USER_SEED, MAX_TRANSACTION_AMOUNT, MINT_INFO_SEED};
use crate::error::MicaEurError;
use crate::keys::Pubkey;

verus! {

/// Refuses an amount above the largest amount of one transaction.
pub fn check_transaction_amount(amount: u64) -> (r: Result<(), MicaEurError>)
    ensures
        amount > MAX_TRANSACTION_AMOUNT ==> r == Err::<(), MicaEurError>(
            MicaEurError::TransactionAmountExceedsMaximum,
        ),
        amount <= MAX_TRANSACTION_AMOUNT ==> r is Ok,
{
    if amount > MAX_TRANSACTION_AMOUNT {
        return Err(MicaEurError::TransactionAmountExceedsMaximum);
    }
    Ok(())
}

/// Bytes of a type-length header of one mint extension.
pub const EXTENSION_HEADER_LEN: usize = 8;

/// Relies on spl_token_2022's `Pack` impl for `Mint`: a base mint packs into
/// `Mint::LEN`, 82 bytes.
#[verifier::external_body]
fn mint_packed_len() -> (r: usize)
    ensures
        r == 82,
{
    <spl_token_2022::state::Mint as anchor_lang::solana_program::program_pack::Pack>::get_packed_len()
}

/// Relies on std::mem::size_of for spl_token_2022's `DefaultAccountState`, a
/// struct of one `u8`: 1 byte.
#[verifier::external_body]
fn default_account_state_len() -> (r: usize)
    ensures
        r == 1,
{
    std::mem::size_of::<spl_token_2022::extension::default_account_state::DefaultAccountState>()
}

/// Relies on std::mem::size_of for spl_token_2022's `MetadataPointer`, two
/// optional 32-byte keys: 64 bytes.
#[verifier::external_body]
fn metadata_pointer_len() -> (r: usize)
    ensures
        r == 64,
{
    std::mem::size_of::<spl_token_2022::extension::metadata_pointer::MetadataPointer>()
}

/// Relies on std::mem::size_of for spl_token_2022's `TransferHook`, two
/// optional 32-byte keys: 64 bytes.
#[verifier::external_body]
fn transfer_hook_len() -> (r: usize)
    ensures
        r == 64,
{
    std::mem::size_of::<spl_token_2022::extension::transfer_hook::TransferHook>()
}

/// Relies on std::mem::size_of for spl_token_2022's `PermanentDelegate`, one
/// optional 32-byte key: 32 bytes.
#[verifier::external_body]
fn permanent_delegate_len() -> (r: usize)
    ensures
        r == 32,
{
    std::mem::size_of::<spl_token_2022::extension::permanent_delegate::PermanentDelegate>()
}

/// Space for a mint with its four extensions: the base mint, the four
/// extension bodies, and a type-length header for each.
pub fn get_mint_size_with_extensions() -> (r: usize)
    ensures
        r == 82 + 1 + 64 + 64 + 32 + 4 * EXTENSION_HEADER_LEN,
{
    mint_packed_len() + default_account_state_len() + metadata_pointer_len() + transfer_hook_len()
        + permanent_delegate_len() + 4 * EXTENSION_HEADER_LEN
}

/// The program-derived address for the seeds under the program, with its bump
/// seed, or none where no bump seed gives one.
pub uninterp spec fn program_address_of(seeds: Seq<Seq<u8>>, program_id: Seq<u8>) -> Option<
    (Seq<u8>, u8),
>;

/// View of a found address and bump seed.
pub open spec fn found_view(found: Option<(Pubkey, u8)>) -> Option<(Seq<u8>, u8)> {
    match found {
        Some((address, bump)) => Some((address@, bump)),
        None => None,
    }
}

/// Views of a list of seeds.
pub open spec fn seeds_view(seeds: Seq<Vec<u8>>) -> Seq<Seq<u8>> {
    seeds.map_values(|s: Vec<u8>| s@)
}

/// Relies on Pubkey::try_find_program_address of solana_pubkey (as anchor_lang
/// re-exports it): the address and bump depend on the seeds and the program id
/// alone.
#[verifier::external_body]
fn try_find_program_address(seeds: &Vec<Vec<u8>>, program_id: &Pubkey) -> (r: Option<
    (Pubkey, u8),
>)
    ensures
        found_view(r) == program_address_of(seeds_view(seeds@), program_id@),
{
    let seeds: Vec<&[u8]> = seeds.iter().map(|s| s.as_slice()).collect();
    let program_id = anchor_lang::prelude::Pubkey::new_from_array(*program_id);
    anchor_lang::prelude::Pubkey::try_find_program_address(&seeds, &program_id).map(
        |(address, bump)| (address.to_bytes(), bump),
    )
}

fn bytes_to_vec(bytes: &[u8]) -> (r: Vec<u8>)
    ensures
        r@ == bytes@,
{
    let mut out: Vec<u8> = Vec::new();
    let mut i: usize = 0;
    while i < bytes.len()
        invariant
            i <= bytes@.len(),
            out@ =~= bytes@.subrange(0, i as int),
        decreases bytes.len() - i,
    {
        out.push(bytes[i]);
        i = i + 1;
    }
    assert(out@ =~= bytes@);
    out
}

/// Address of the mint-info record of `mint`.
pub fn find_mint_info_pda(mint: &Pubkey, program_id: &Pubkey) -> (r: Option<(Pubkey, u8)>)
    ensures
        found_view(r) == program_address_of(
            seq![MINT_INFO_SEED.spec_bytes(), mint@],
            program_id@,
        ),
{
    let mut seeds: Vec<Vec<u8>> = Vec::new();
    seeds.push(bytes_to_vec(MINT_INFO_SEED.as_bytes()));
    seeds.push(bytes_to_vec(mint.as_slice()));
    assert(seeds_view(seeds@) =~= seq![MINT_INFO_SEED.spec_bytes(), mint@]);
    try_find_program_address(&seeds, program_id)
}

/// Address of the KYC oracle state.
pub fn find_kyc_oracle_state_pda(program_id: &Pubkey) -> (r: Option<(Pubkey, u8)>)
    ensures
        found_view(r) == program_address_of(
            seq![KYC_ORACLE_STATE_SEED.spec_bytes()],
            program_id@,
        ),
{
    let mut seeds: Vec<Vec<u8>> = Vec::new();
    seeds.push(bytes_to_vec(KYC_ORACLE_STATE_SEED.as_bytes()));
    assert(seeds_view(seeds@) =~= seq![KYC_ORACLE_STATE_SEED.spec_bytes()]);
    try_find_program_address(&seeds, program_id)
}

/// Address of the KYC record of `user`.
pub fn find_kyc_user_pda(user: &Pubkey, program_id: &Pubkey) -> (r: Option<(Pubkey, u8)>)
    ensures
        found_view(r) == program_address_of(seq![KYC_USER_SEED.spec_bytes(), user@], program_id@),
{
    let mut seeds: Vec<Vec<u8>> = Vec::new();
    seeds.push(bytes_to_vec(KYC_USER_SEED.as_bytes()));
    seeds.push(bytes_to_vec(user.as_slice()));
    assert(seeds_view(seeds@) =~= seq![KYC_USER_SEED.spec_bytes(), user@]);
    try_find_program_address(&seeds, program_id)
}

/// Which of the extensions that a compliant mint needs are present on a mint.
#[derive(Clone, Copy, Debug, PartialEq, Eq)]
pub struct MintExtensions {
    pub default_account_state: bool,
    pub permanent_delegate: bool,
    pub transfer_hook: bool,
    pub metadata_pointer: bool,
}

impl MintExtensions {
    /// Whether all four extensions are present.
    pub fn has_required_extensions(&self) -> (r: bool)
        ensures
            r == (self.default_account_state && self.permanent_delegate && self.transfer_hook
                && self.metadata_pointer),
    {
        self.default_account_state && self.permanent_delegate && self.transfer_hook
            && self.metadata_pointer
    }
}

} // verus!
