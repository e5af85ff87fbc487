use vstd::prelude::*;

use crate::constants::MIN_VERIFICATION_LEVEL_FOR_MINT_REDEEM;
use crate::error::MicaEurError;
use crate::keys::{bytes32_eq, Hash32, Pubkey};
use crate::kyc_oracle::{eligible, is_kyc_verified, KycStatus, KycUser};
use crate::merkle_info::zero_hash;

verus! {

/// Metadata of the EUR token, one record per mint.
#[derive(Clone, Debug)]
pub struct MintInfo {
    /// The mint's address.
    pub mint: Pubkey,
    /// Who can mint new tokens and attest reserves.
    pub issuer: Pubkey,
    /// Who can freeze and thaw accounts.
    pub freeze_authority: Pubkey,
    /// Who can seize tokens.
    pub permanent_delegate: Pubkey,
    /// URI of the whitepaper.
    pub whitepaper_uri: String,
    pub is_active: bool,
    pub creation_time: i64,
    /// Merkle root of the latest reserve attestation.
    pub reserve_merkle_root: Hash32,
    /// IPFS CID of the latest reserve attestation.
    pub reserve_ipfs_cid: String,
    pub last_reserve_update: i64,
}

/// A balance or state change that the ledger is to perform once a gate passes.
#[derive(Clone, Copy, Debug, PartialEq, Eq)]
pub enum LedgerAction {
    /// Credit `amount` to `account`, signed by `authority`.
    MintTo { mint: Pubkey, account: Pubkey, authority: Pubkey, amount: u64 },
    /// Debit `amount` from `account`, signed by its owner `authority`.
    Burn { mint: Pubkey, account: Pubkey, authority: Pubkey, amount: u64 },
    /// Freeze `account`, signed by `authority`.
    Freeze { mint: Pubkey, account: Pubkey, authority: Pubkey },
    /// Thaw `account`, signed by `authority`.
    Thaw { mint: Pubkey, account: Pubkey, authority: Pubkey },
    /// Move `amount` from `from` to `to`, signed by `authority` in place of the
    /// owner of `from`.
    Transfer { from: Pubkey, to: Pubkey, authority: Pubkey, amount: u64 },
}

/// Why an operation on `mint` is refused by the record's state, if it is: the
/// mint must be active and be the one of the record.
pub open spec fn mint_state_refusal(info: MintInfo, mint: Pubkey) -> Option<MicaEurError> {
    if !info.is_active {
        Some(MicaEurError::MintInactive)
    } else if mint@ != info.mint@ {
        Some(MicaEurError::MintMismatch)
    } else {
        None
    }
}

/// Why an operation reserved to `role` is refused, if it is: the caller must be
/// that key, and then the mint's state must pass.
pub open spec fn role_refusal(
    info: MintInfo,
    role: Pubkey,
    role_error: MicaEurError,
    caller: Pubkey,
    mint: Pubkey,
) -> Option<MicaEurError> {
    if caller@ != role@ {
        Some(role_error)
    } else {
        mint_state_refusal(info, mint)
    }
}

/// Why a mint is refused, if it is: the issuer's gate, then the recipient's
/// KYC record, which must belong to the account's owner, be verified and
/// unexpired at `now` (else `UserNotVerified`, whichever of the two fails), and
/// be at least at level 2.
pub open spec fn mint_refusal(
    info: MintInfo,
    caller: Pubkey,
    mint: Pubkey,
    token_owner: Pubkey,
    kyc_user: KycUser,
    now: i64,
) -> Option<MicaEurError> {
    if role_refusal(info, info.issuer, MicaEurError::NotMintAuthority, caller, mint) is Some {
        role_refusal(info, info.issuer, MicaEurError::NotMintAuthority, caller, mint)
    } else if kyc_user.user@ != token_owner@ {
        Some(MicaEurError::TokenAccountOwnerMismatch)
    } else if kyc_user.status != KycStatus::Verified || now >= kyc_user.expiry_time {
        Some(MicaEurError::UserNotVerified)
    } else if kyc_user.verification_level < MIN_VERIFICATION_LEVEL_FOR_MINT_REDEEM {
        Some(MicaEurError::InsufficientVerificationLevel)
    } else {
        None
    }
}

/// Checks the mint's state (see `mint_state_refusal`).
fn check_mint_state(info: &MintInfo, mint: &Pubkey) -> (r: Result<(), MicaEurError>)
    ensures
        match mint_state_refusal(*info, *mint) {
            Some(e) => r == Err::<(), MicaEurError>(e),
            None => r is Ok,
        },
{
    if !info.is_active {
        return Err(MicaEurError::MintInactive);
    }
    if !bytes32_eq(mint, &info.mint) {
        return Err(MicaEurError::MintMismatch);
    }
    Ok(())
}

/// Checks that an operation reserved to `role` may proceed (see `role_refusal`).
fn check_role(
    info: &MintInfo,
    role: &Pubkey,
    role_error: MicaEurError,
    caller: &Pubkey,
    mint: &Pubkey,
) -> (r: Result<(), MicaEurError>)
    ensures
        match role_refusal(*info, *role, role_error, *caller, *mint) {
            Some(e) => r == Err::<(), MicaEurError>(e),
            None => r is Ok,
        },
{
    if !bytes32_eq(caller, role) {
        return Err(role_error);
    }
    check_mint_state(info, mint)
}

/// The record of a new, active mint with its three authorities fixed, created
/// at `now`, with no reserve attested yet. The record is created once:
/// refused when `existing`, the mint's record slot, already holds one.
pub fn initialize_euro_mint(
    existing: &Option<MintInfo>,
    mint: &Pubkey,
    issuer: &Pubkey,
    freeze_authority: &Pubkey,
    permanent_delegate: &Pubkey,
    whitepaper_uri: String,
    now: i64,
) -> (r: Result<MintInfo, MicaEurError>)
    ensures
        r is Err <==> existing is Some,
        r is Err ==> r == Err::<MintInfo, MicaEurError>(MicaEurError::AlreadyInitialized),
        r is Ok ==> {
            &&& r->Ok_0.mint == *mint
            &&& r->Ok_0.issuer == *issuer
            &&& r->Ok_0.freeze_authority == *freeze_authority
            &&& r->Ok_0.permanent_delegate == *permanent_delegate
            &&& r->Ok_0.whitepaper_uri@ == whitepaper_uri@
            &&& r->Ok_0.is_active
            &&& r->Ok_0.creation_time == now
            &&& r->Ok_0.reserve_merkle_root@ == zero_hash()
            &&& r->Ok_0.reserve_ipfs_cid@ == Seq::<char>::empty()
            &&& r->Ok_0.last_reserve_update == now
        },
{
    if existing.is_some() {
        return Err(MicaEurError::AlreadyInitialized);
    }
    let root: Hash32 = [0u8; 32];
    assert(root@ =~= zero_hash());
    Ok(MintInfo {
        mint: *mint,
        issuer: *issuer,
        freeze_authority: *freeze_authority,
        permanent_delegate: *permanent_delegate,
        whitepaper_uri,
        is_active: true,
        creation_time: now,
        reserve_merkle_root: root,
        reserve_ipfs_cid: String::new(),
        last_reserve_update: now,
    })
}

/// Mints `amount` to `token_account`, owned by `token_owner`, whose KYC record
/// is `kyc_user`: unless refused (see `mint_refusal`), the ledger credits
/// the account under the issuer and then thaws it under the freeze authority.
pub fn mint_tokens(
    info: &MintInfo,
    caller: &Pubkey,
    mint: &Pubkey,
    token_account: &Pubkey,
    token_owner: &Pubkey,
    kyc_user: &KycUser,
    amount: u64,
    now: i64,
) -> (r: Result<Vec<LedgerAction>, MicaEurError>)
    ensures
        match mint_refusal(*info, *caller, *mint, *token_owner, *kyc_user, now) {
            Some(e) => r == Err::<Vec<LedgerAction>, MicaEurError>(e),
            None => r is Ok && r->Ok_0@ == seq![
                LedgerAction::MintTo {
                    mint: info.mint,
                    account: *token_account,
                    authority: info.issuer,
                    amount,
                },
                LedgerAction::Thaw {
                    mint: info.mint,
                    account: *token_account,
                    authority: info.freeze_authority,
                },
            ],
        },
{
    check_role(info, &info.issuer, MicaEurError::NotMintAuthority, caller, mint)?;
    if !bytes32_eq(&kyc_user.user, token_owner) {
        return Err(MicaEurError::TokenAccountOwnerMismatch);
    }
    if !is_kyc_verified(kyc_user, now) {
        return Err(MicaEurError::UserNotVerified);
    }
    if kyc_user.verification_level < MIN_VERIFICATION_LEVEL_FOR_MINT_REDEEM {
        return Err(MicaEurError::InsufficientVerificationLevel);
    }
    let mut actions: Vec<LedgerAction> = Vec::new();
    actions.push(
        LedgerAction::MintTo {
            mint: info.mint,
            account: *token_account,
            authority: info.issuer,
            amount,
        },
    );
    actions.push(
        LedgerAction::Thaw {
            mint: info.mint,
            account: *token_account,
            authority: info.freeze_authority,
        },
    );
    Ok(actions)
}

/// Redeems `amount` from `token_account` under its owner's own authority; no
/// KYC check beyond what the ledger makes. Refused when the mint is inactive
/// or is not the one of the record.
pub fn burn_tokens(
    info: &MintInfo,
    mint: &Pubkey,
    owner: &Pubkey,
    token_account: &Pubkey,
    amount: u64,
) -> (r: Result<LedgerAction, MicaEurError>)
    ensures
        match mint_state_refusal(*info, *mint) {
            Some(e) => r == Err::<LedgerAction, MicaEurError>(e),
            None => r == Ok::<LedgerAction, MicaEurError>(
                LedgerAction::Burn {
                    mint: info.mint,
                    account: *token_account,
                    authority: *owner,
                    amount,
                },
            ),
        },
{
    check_mint_state(info, mint)?;
    Ok(LedgerAction::Burn { mint: info.mint, account: *token_account, authority: *owner, amount })
}

/// Freezes `token_account`: only the freeze authority, on an active mint.
pub fn freeze_account(
    info: &MintInfo,
    caller: &Pubkey,
    mint: &Pubkey,
    token_account: &Pubkey,
) -> (r: Result<LedgerAction, MicaEurError>)
    ensures
        match role_refusal(
            *info,
            info.freeze_authority,
            MicaEurError::NotFreezeAuthority,
            *caller,
            *mint,
        ) {
            Some(e) => r == Err::<LedgerAction, MicaEurError>(e),
            None => r == Ok::<LedgerAction, MicaEurError>(
                LedgerAction::Freeze {
                    mint: info.mint,
                    account: *token_account,
                    authority: info.freeze_authority,
                },
            ),
        },
{
    check_role(info, &info.freeze_authority, MicaEurError::NotFreezeAuthority, caller, mint)?;
    Ok(
        LedgerAction::Freeze {
            mint: info.mint,
            account: *token_account,
            authority: info.freeze_authority,
        },
    )
}

/// Thaws `token_account`: only the freeze authority, on an active mint.
pub fn thaw_account(
    info: &MintInfo,
    caller: &Pubkey,
    mint: &Pubkey,
    token_account: &Pubkey,
) -> (r: Result<LedgerAction, MicaEurError>)
    ensures
        match role_refusal(
            *info,
            info.freeze_authority,
            MicaEurError::NotFreezeAuthority,
            *caller,
            *mint,
        ) {
            Some(e) => r == Err::<LedgerAction, MicaEurError>(e),
            None => r == Ok::<LedgerAction, MicaEurError>(
                LedgerAction::Thaw {
                    mint: info.mint,
                    account: *token_account,
                    authority: info.freeze_authority,
                },
            ),
        },
{
    check_role(info, &info.freeze_authority, MicaEurError::NotFreezeAuthority, caller, mint)?;
    Ok(
        LedgerAction::Thaw {
            mint: info.mint,
            account: *token_account,
            authority: info.freeze_authority,
        },
    )
}

/// Seizes `amount` from `from_account` into `to_account` without the owner's
/// consent: only the permanent delegate, on an active mint.
pub fn seize_tokens(
    info: &MintInfo,
    caller: &Pubkey,
    mint: &Pubkey,
    from_account: &Pubkey,
    to_account: &Pubkey,
    amount: u64,
) -> (r: Result<LedgerAction, MicaEurError>)
    ensures
        match role_refusal(
            *info,
            info.permanent_delegate,
            MicaEurError::NotPermanentDelegate,
            *caller,
            *mint,
        ) {
            Some(e) => r == Err::<LedgerAction, MicaEurError>(e),
            None => r == Ok::<LedgerAction, MicaEurError>(
                LedgerAction::Transfer {
                    from: *from_account,
                    to: *to_account,
                    authority: info.permanent_delegate,
                    amount,
                },
            ),
        },
{
    check_role(info, &info.permanent_delegate, MicaEurError::NotPermanentDelegate, caller, mint)?;
    Ok(
        LedgerAction::Transfer {
            from: *from_account,
            to: *to_account,
            authority: info.permanent_delegate,
            amount,
        },
    )
}

/// Records a new reserve attestation: root, CID and `now`. Only the issuer, on
/// an active mint; the root is declared, not checked. Refused with the record
/// unchanged.
pub fn update_reserve_proof(
    info: &mut MintInfo,
    caller: &Pubkey,
    merkle_root: Hash32,
    ipfs_cid: String,
    now: i64,
) -> (r: Result<(), MicaEurError>)
    ensures
        match role_refusal(
            *old(info),
            old(info).issuer,
            MicaEurError::NotMintAuthority,
            *caller,
            old(info).mint,
        ) {
            Some(e) => r == Err::<(), MicaEurError>(e) && *final(info) == *old(info),
            None => {
                &&& r is Ok
                &&& final(info).reserve_merkle_root == merkle_root
                &&& final(info).reserve_ipfs_cid@ == ipfs_cid@
                &&& final(info).last_reserve_update == now
                &&& final(info).mint == old(info).mint
                &&& final(info).issuer == old(info).issuer
                &&& final(info).freeze_authority == old(info).freeze_authority
                &&& final(info).permanent_delegate == old(info).permanent_delegate
                &&& final(info).whitepaper_uri == old(info).whitepaper_uri
                &&& final(info).is_active == old(info).is_active
                &&& final(info).creation_time == old(info).creation_time
            },
        },
{
    let mint = info.mint;
    let issuer = info.issuer;
    check_role(info, &issuer, MicaEurError::NotMintAuthority, caller, &mint)?;
    info.reserve_merkle_root = merkle_root;
    info.reserve_ipfs_cid = ipfs_cid;
    info.last_reserve_update = now;
    Ok(())
}

/// A mint passes only for the issuer, on an active mint, toward an account
/// whose owner's KYC record is eligible at level 2 with no country restriction.
pub proof fn lemma_mint_fails_closed(
    info: MintInfo,
    caller: Pubkey,
    mint: Pubkey,
    token_owner: Pubkey,
    kyc_user: KycUser,
    now: i64,
)
    ensures
        mint_refusal(info, caller, mint, token_owner, kyc_user, now) is None <==> {
            &&& caller@ == info.issuer@
            &&& info.is_active
            &&& mint@ == info.mint@
            &&& kyc_user.user@ == token_owner@
            &&& eligible(kyc_user, MIN_VERIFICATION_LEVEL_FOR_MINT_REDEEM, Seq::empty(), now)
        },
{
}

/// A seizure passes only for the permanent delegate recorded at the mint's
/// creation, and for it whenever the mint is active and the one of the record.
pub proof fn lemma_seize_only_by_delegate(info: MintInfo, caller: Pubkey, mint: Pubkey)
    ensures
        role_refusal(info, info.permanent_delegate, MicaEurError::NotPermanentDelegate, caller, mint)
            is None <==> caller@ == info.permanent_delegate@ && info.is_active && mint@
            == info.mint@,
{
}

} // verus!
