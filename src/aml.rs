use vstd::prelude::*;

use crate::aml_powers::MODIFY_BLACKLIST;
use crate::error::MicaEurError;
use crate::keys::Pubkey;

verus! {

/// An AML authority registered with the issuer or regulator.
#[derive(Clone, Debug)]
pub struct AmlAuthority {
    /// Signer that controls this record.
    pub authority: Pubkey,
    /// External identifier, such as an LEI or a registration number.
    pub authority_id: String,
    /// Bit field of powers (see `aml_powers`).
    pub powers: u8,
    pub is_active: bool,
    pub creation_time: i64,
    /// Last time the authority performed an AML action.
    pub last_action_time: i64,
}

impl AmlAuthority {
    /// Whether any bit of `power_flag` is among the authority's powers.
    pub fn has_power(&self, power_flag: u8) -> (r: bool)
        ensures
            r == (self.powers & power_flag != 0),
    {
        (self.powers & power_flag) != 0
    }
}

/// A blacklisting of one user by an AML authority.
#[derive(Clone, Copy, Debug)]
pub struct BlacklistEntry {
    /// The blacklisted user.
    pub user: Pubkey,
    /// The AML authority that created the entry.
    pub authority: Pubkey,
    /// Application-specific reason code.
    pub reason: u8,
    pub is_active: bool,
    pub creation_time: i64,
}

/// Why an authority may not change the blacklist, if it may not: it must be
/// active and hold `MODIFY_BLACKLIST`.
pub open spec fn blacklist_refusal(aml_authority: AmlAuthority) -> Option<MicaEurError> {
    if !aml_authority.is_active {
        Some(MicaEurError::AmlAuthorityInactive)
    } else if aml_authority.powers & MODIFY_BLACKLIST == 0 {
        Some(MicaEurError::UnauthorizedAmlAuthority)
    } else {
        None
    }
}

/// Checks that an authority may change the blacklist.
fn check_blacklist_power(aml_authority: &AmlAuthority) -> (r: Result<(), MicaEurError>)
    ensures
        match blacklist_refusal(*aml_authority) {
            Some(e) => r == Err::<(), MicaEurError>(e),
            None => r is Ok,
        },
{
    if !aml_authority.is_active {
        return Err(MicaEurError::AmlAuthorityInactive);
    }
    if !aml_authority.has_power(MODIFY_BLACKLIST) {
        return Err(MicaEurError::UnauthorizedAmlAuthority);
    }
    Ok(())
}

/// A new, active authority record created at `now`.
pub fn register_aml_authority(
    authority: &Pubkey,
    authority_id: String,
    powers: u8,
    now: i64,
) -> (r: AmlAuthority)
    ensures
        r.authority == *authority,
        r.authority_id@ == authority_id@,
        r.powers == powers,
        r.is_active,
        r.creation_time == now,
        r.last_action_time == now,
{
    AmlAuthority {
        authority: *authority,
        authority_id,
        powers,
        is_active: true,
        creation_time: now,
        last_action_time: now,
    }
}

/// Blacklists `user`: an active entry created at `now` by the authority, whose
/// last action time becomes `now`. Refused, with the authority unchanged, when
/// it is inactive or lacks `MODIFY_BLACKLIST`.
pub fn create_blacklist_entry(
    aml_authority: &mut AmlAuthority,
    user: &Pubkey,
    reason: u8,
    now: i64,
) -> (r: Result<BlacklistEntry, MicaEurError>)
    ensures
        match blacklist_refusal(*old(aml_authority)) {
            Some(e) => r == Err::<BlacklistEntry, MicaEurError>(e) && *final(aml_authority) == *old(
                aml_authority,
            ),
            None => {
                &&& r == Ok::<BlacklistEntry, MicaEurError>(
                    (BlacklistEntry {
                        user: *user,
                        authority: old(aml_authority).authority,
                        reason,
                        is_active: true,
                        creation_time: now,
                    }),
                )
                &&& *final(aml_authority) == (AmlAuthority {
                    last_action_time: now,
                    ..*old(aml_authority)
                })
            },
        },
{
    check_blacklist_power(aml_authority)?;
    let entry = BlacklistEntry {
        user: *user,
        authority: aml_authority.authority,
        reason,
        is_active: true,
        creation_time: now,
    };
    aml_authority.last_action_time = now;
    Ok(entry)
}

/// Lifts a blacklisting: the entry becomes inactive but stays on record, and
/// the authority's last action time becomes `now`. Refused, with both records
/// unchanged, under the same conditions as creation.
pub fn deactivate_blacklist_entry(
    aml_authority: &mut AmlAuthority,
    blacklist_entry: &mut BlacklistEntry,
    now: i64,
) -> (r: Result<(), MicaEurError>)
    ensures
        match blacklist_refusal(*old(aml_authority)) {
            Some(e) => {
                &&& r == Err::<(), MicaEurError>(e)
                &&& *final(aml_authority) == *old(aml_authority)
                &&& *final(blacklist_entry) == *old(blacklist_entry)
            },
            None => {
                &&& r is Ok
                &&& *final(blacklist_entry) == (BlacklistEntry {
                    is_active: false,
                    ..*old(blacklist_entry)
                })
                &&& *final(aml_authority) == (AmlAuthority {
                    last_action_time: now,
                    ..*old(aml_authority)
                })
            },
        },
{
    check_blacklist_power(aml_authority)?;
    blacklist_entry.is_active = false;
    aml_authority.last_action_time = now;
    Ok(())
}

/// Deactivates an authority; the record stays, and no privileged action
/// passes for it any more.
pub fn deactivate_aml_authority(aml_authority: &mut AmlAuthority, now: i64)
    ensures
        *final(aml_authority) == (AmlAuthority {
            is_active: false,
            last_action_time: now,
            ..*old(aml_authority)
        }),
{
    aml_authority.is_active = false;
    aml_authority.last_action_time = now;
}

/// Replaces the powers of an authority.
pub fn update_aml_authority_powers(aml_authority: &mut AmlAuthority, new_powers: u8, now: i64)
    ensures
        *final(aml_authority) == (AmlAuthority {
            powers: new_powers,
            last_action_time: now,
            ..*old(aml_authority)
        }),
{
    aml_authority.powers = new_powers;
    aml_authority.last_action_time = now;
}

/// Only an active authority that holds `MODIFY_BLACKLIST` may create or lift a
/// blacklisting: an inactive one is refused whatever its powers.
pub proof fn lemma_blacklist_change_needs_active_power(aml_authority: AmlAuthority)
    ensures
        blacklist_refusal(aml_authority) is None <==> aml_authority.is_active
            && aml_authority.powers & MODIFY_BLACKLIST != 0,
        !aml_authority.is_active ==> blacklist_refusal(aml_authority) == Some(
            MicaEurError::AmlAuthorityInactive,
        ),
{
}

} // verus!
