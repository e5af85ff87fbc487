use vstd::prelude::*;
use vstd::string::StringSliceAdditionalSpecFns;
use vstd::utf8::encode_utf8;

use crate::constants::{is_country_supported, is_supported_country};
use crate::error::MicaEurError;
use crate::keys::{bytes32_eq, Hash32, Pubkey};

verus! {

/// Seconds in one day, the unit of a verification's validity.
pub const SECONDS_PER_DAY: i64 = 86400;

/// Highest KYC verification level.
pub const MAX_VERIFICATION_LEVEL: u8 = 3;

/// Where a user stands in KYC verification.
#[derive(Clone, Copy, PartialEq, Eq, Debug, Structural)]
pub enum KycStatus {
    Unverified,
    Pending,
    Verified,
    Rejected,
    Expired,
    Suspended,
}

/// The KYC record of one user.
#[derive(Clone, Debug)]
pub struct KycUser {
    /// Authority that registered the user and alone may update the record.
    pub authority: Pubkey,
    /// The user's wallet.
    pub user: Pubkey,
    pub status: KycStatus,
    /// Level of verification, 0 to 3.
    pub verification_level: u8,
    /// When the record was last written.
    pub verification_time: i64,
    /// When the verification runs out; meaningful only while `Verified`.
    pub expiry_time: i64,
    /// ISO 3166-1 alpha-2 code.
    pub country_code: String,
    /// Bank code (Bankleitzahl).
    pub blz: String,
    /// SHA-256 digest of the IBAN.
    pub iban_hash: Hash32,
    /// Which provider verified the user.
    pub verification_provider: String,
}

impl KycUser {
    /// A well-formed record: its level is at most 3 and its country is on the
    /// whitelist.
    pub open spec fn wf(&self) -> bool {
        &&& self.verification_level <= MAX_VERIFICATION_LEVEL
        &&& is_supported_country(self.country_code@)
    }
}

/// Oracle-wide counters.
#[derive(Clone, Copy, Debug)]
pub struct KycOracleState {
    /// Authority that controls the oracle.
    pub authority: Pubkey,
    /// Number of registered users.
    pub user_count: u64,
    /// Number of users whose record is `Verified`.
    pub verified_user_count: u64,
    /// When the oracle was last written.
    pub last_update_time: i64,
}

/// Whether a record meets a requirement: verified, at least at the level, not
/// expired at `now`, and from an allowed country when the list is not empty.
pub open spec fn eligible(
    user: KycUser,
    required_level: u8,
    allowed_countries: Seq<Seq<char>>,
    now: i64,
) -> bool {
    &&& user.status == KycStatus::Verified
    &&& user.verification_level >= required_level
    &&& now < user.expiry_time
    &&& (allowed_countries.len() == 0 || allowed_countries.contains(user.country_code@))
}

/// Why a registration is refused, if it is.
pub open spec fn register_refusal(
    oracle: KycOracleState,
    authority: Pubkey,
    registered: bool,
    country_code: Seq<char>,
) -> Option<MicaEurError> {
    if oracle.authority@ != authority@ {
        Some(MicaEurError::UnauthorizedKycAuthority)
    } else if registered {
        Some(MicaEurError::UserAlreadyRegistered)
    } else if encode_utf8(country_code).len() != 2 {
        Some(MicaEurError::InvalidCountryCode)
    } else if !is_supported_country(country_code) {
        Some(MicaEurError::UnsupportedCountry)
    } else {
        None
    }
}

/// Why a status update is refused, if it is.
pub open spec fn update_refusal(
    oracle: KycOracleState,
    user: KycUser,
    authority: Pubkey,
    status: KycStatus,
    verification_level: u8,
    expiry_days: i64,
) -> Option<MicaEurError> {
    if oracle.authority@ != authority@ || user.authority@ != authority@ {
        Some(MicaEurError::UnauthorizedKycAuthority)
    } else if verification_level > MAX_VERIFICATION_LEVEL {
        Some(MicaEurError::InvalidVerificationLevel)
    } else if status == KycStatus::Verified && expiry_days <= 0 {
        Some(MicaEurError::InvalidExpiryDate)
    } else {
        None
    }
}

/// The verified counter after one record goes from `was_verified` to
/// `now_verified`: up by one on a new verification, down by one (never below
/// zero) when a verification ends, else unchanged.
pub open spec fn verified_count_after(count: u64, was_verified: bool, now_verified: bool) -> u64 {
    if now_verified && !was_verified {
        (count + 1) as u64
    } else if was_verified && !now_verified {
        if count == 0 {
            0
        } else {
            (count - 1) as u64
        }
    } else {
        count
    }
}

/// A new oracle with no user, controlled by `authority`. The oracle is
/// created once: refused when `existing`, its state slot, already holds one.
pub fn initialize_kyc_oracle(
    existing: &Option<KycOracleState>,
    authority: &Pubkey,
    now: i64,
) -> (r: Result<KycOracleState, MicaEurError>)
    ensures
        r is Err <==> existing is Some,
        r is Err ==> r == Err::<KycOracleState, MicaEurError>(MicaEurError::AlreadyInitialized),
        r is Ok ==> r->Ok_0 == (KycOracleState {
            authority: *authority,
            user_count: 0,
            verified_user_count: 0,
            last_update_time: now,
        }),
{
    if existing.is_some() {
        return Err(MicaEurError::AlreadyInitialized);
    }
    Ok(
        KycOracleState {
            authority: *authority,
            user_count: 0,
            verified_user_count: 0,
            last_update_time: now,
        },
    )
}

/// Registers a user: a `Pending` record at level 0 with no expiry, counted in
/// `user_count`. Refused, with the oracle unchanged, when the caller is not the
/// oracle's authority, the user's record slot `existing` already holds a
/// record, or the country code is malformed or not supported.
pub fn register_kyc_user(
    oracle: &mut KycOracleState,
    existing: &Option<KycUser>,
    authority: &Pubkey,
    user: &Pubkey,
    blz: String,
    iban_hash: Hash32,
    country_code: String,
    verification_provider: String,
    now: i64,
) -> (r: Result<KycUser, MicaEurError>)
    requires
        old(oracle).user_count < u64::MAX,
    ensures
        match register_refusal(*old(oracle), *authority, existing is Some, country_code@) {
            Some(e) => r == Err::<KycUser, MicaEurError>(e) && *final(oracle) == *old(oracle),
            None => {
                &&& r is Ok
                &&& r->Ok_0.authority == *authority
                &&& r->Ok_0.user == *user
                &&& r->Ok_0.status == KycStatus::Pending
                &&& r->Ok_0.verification_level == 0
                &&& r->Ok_0.verification_time == now
                &&& r->Ok_0.expiry_time == 0
                &&& r->Ok_0.country_code@ == country_code@
                &&& r->Ok_0.blz@ == blz@
                &&& r->Ok_0.iban_hash == iban_hash
                &&& r->Ok_0.verification_provider@ == verification_provider@
                &&& final(oracle).authority == old(oracle).authority
                &&& final(oracle).user_count == old(oracle).user_count + 1
                &&& final(oracle).verified_user_count == old(oracle).verified_user_count
                &&& final(oracle).last_update_time == now
            },
        },
        r is Ok ==> r->Ok_0.wf(),
        r is Ok ==> forall|level: u8, allowed: Seq<Seq<char>>, t: i64|
            !eligible(r->Ok_0, level, allowed, t),
{
    if !bytes32_eq(&oracle.authority, authority) {
        return Err(MicaEurError::UnauthorizedKycAuthority);
    }
    if existing.is_some() {
        return Err(MicaEurError::UserAlreadyRegistered);
    }
    let code = country_code.as_str();
    assert(code.spec_bytes() == encode_utf8(country_code@));
    if code.as_bytes().len() != 2 {
        return Err(MicaEurError::InvalidCountryCode);
    }
    if !is_country_supported(code) {
        return Err(MicaEurError::UnsupportedCountry);
    }
    let record = KycUser {
        authority: *authority,
        user: *user,
        status: KycStatus::Pending,
        verification_level: 0,
        verification_time: now,
        expiry_time: 0,
        country_code,
        blz,
        iban_hash,
        verification_provider,
    };
    oracle.user_count = oracle.user_count + 1;
    oracle.last_update_time = now;
    Ok(record)
}

/// Sets a user's status and level. A verification runs `expiry_days` days from
/// `now`. The verified counter is adjusted against the status held before the
/// write. Refused, with both records unchanged, when the caller is not the
/// authority of the oracle and of the record, the level is above 3, or a
/// verification has no positive number of days.
pub fn update_kyc_status(
    oracle: &mut KycOracleState,
    kyc_user: &mut KycUser,
    authority: &Pubkey,
    status: KycStatus,
    verification_level: u8,
    expiry_days: i64,
    now: i64,
) -> (r: Result<(), MicaEurError>)
    requires
        status == KycStatus::Verified && expiry_days > 0 ==> expiry_days * SECONDS_PER_DAY
            <= i64::MAX && now + expiry_days * SECONDS_PER_DAY <= i64::MAX,
        status == KycStatus::Verified && old(kyc_user).status != KycStatus::Verified
            ==> old(oracle).verified_user_count < u64::MAX,
    ensures
        old(kyc_user).wf() ==> final(kyc_user).wf(),
        match update_refusal(
            *old(oracle),
            *old(kyc_user),
            *authority,
            status,
            verification_level,
            expiry_days,
        ) {
            Some(e) => {
                &&& r == Err::<(), MicaEurError>(e)
                &&& *final(oracle) == *old(oracle)
                &&& *final(kyc_user) == *old(kyc_user)
            },
            None => {
                &&& r is Ok
                &&& final(kyc_user).status == status
                &&& final(kyc_user).verification_level == verification_level
                &&& final(kyc_user).verification_time == now
                &&& final(kyc_user).expiry_time == if status == KycStatus::Verified {
                    (now + expiry_days * SECONDS_PER_DAY) as i64
                } else {
                    old(kyc_user).expiry_time
                }
                &&& final(kyc_user).authority == old(kyc_user).authority
                &&& final(kyc_user).user == old(kyc_user).user
                &&& final(kyc_user).country_code == old(kyc_user).country_code
                &&& final(kyc_user).blz == old(kyc_user).blz
                &&& final(kyc_user).iban_hash == old(kyc_user).iban_hash
                &&& final(kyc_user).verification_provider == old(
                    kyc_user,
                ).verification_provider
                &&& final(oracle).verified_user_count == verified_count_after(
                    old(oracle).verified_user_count,
                    old(kyc_user).status == KycStatus::Verified,
                    status == KycStatus::Verified,
                )
                &&& final(oracle).authority == old(oracle).authority
                &&& final(oracle).user_count == old(oracle).user_count
                &&& final(oracle).last_update_time == now
            },
        },
{
    if !bytes32_eq(&oracle.authority, authority) || !bytes32_eq(&kyc_user.authority, authority) {
        return Err(MicaEurError::UnauthorizedKycAuthority);
    }
    if verification_level > MAX_VERIFICATION_LEVEL {
        return Err(MicaEurError::InvalidVerificationLevel);
    }
    if status == KycStatus::Verified && expiry_days <= 0 {
        return Err(MicaEurError::InvalidExpiryDate);
    }
    let was_verified = kyc_user.status == KycStatus::Verified;
    kyc_user.status = status;
    kyc_user.verification_level = verification_level;
    kyc_user.verification_time = now;
    if status == KycStatus::Verified {
        kyc_user.expiry_time = now + expiry_days * SECONDS_PER_DAY;
        if !was_verified {
            oracle.verified_user_count = oracle.verified_user_count + 1;
        }
    } else if was_verified {
        if oracle.verified_user_count > 0 {
            oracle.verified_user_count = oracle.verified_user_count - 1;
        }
    }
    oracle.last_update_time = now;
    Ok(())
}

/// Views of a sequence of strings.
pub open spec fn strings_view(strings: Seq<String>) -> Seq<Seq<char>> {
    strings.map_values(|c: String| c@)
}

/// Whether the user meets a requirement at `now` (see `eligible`); an empty
/// list of countries places no restriction.
pub fn is_eligible(
    kyc_user: &KycUser,
    required_level: u8,
    allowed_countries: &Vec<String>,
    now: i64,
) -> (r: bool)
    ensures
        r == eligible(*kyc_user, required_level, strings_view(allowed_countries@), now),
{
    let ghost allowed = strings_view(allowed_countries@);
    if !(kyc_user.status == KycStatus::Verified) || kyc_user.verification_level < required_level
        || now >= kyc_user.expiry_time {
        return false;
    }
    if allowed_countries.len() == 0 {
        return true;
    }
    let mut j: usize = 0;
    while j < allowed_countries.len()
        invariant
            j <= allowed_countries@.len(),
            allowed == strings_view(allowed_countries@),
            allowed.len() > 0,
            kyc_user.status == KycStatus::Verified,
            kyc_user.verification_level >= required_level,
            now < kyc_user.expiry_time,
            forall|k: int| 0 <= k < j ==> allowed[k] != kyc_user.country_code@,
        decreases allowed_countries.len() - j,
    {
        if allowed_countries[j] == kyc_user.country_code {
            assert(allowed[j as int] == kyc_user.country_code@);
            assert(allowed.contains(kyc_user.country_code@));
            return true;
        }
        j = j + 1;
    }
    false
}

/// Whether the user is verified and unexpired at `now`, at any level and from
/// any country. A record whose expiry time is zero is never verified.
pub fn is_kyc_verified(kyc_user: &KycUser, now: i64) -> (r: bool)
    ensures
        r == eligible(*kyc_user, 0, Seq::empty(), now),
{
    kyc_user.status == KycStatus::Verified && now < kyc_user.expiry_time
}

/// The number of `Verified` records among `users`.
pub open spec fn count_verified(users: Seq<KycUser>) -> nat
    decreases users.len(),
{
    if users.len() == 0 {
        0
    } else {
        count_verified(users.drop_last()) + if users.last().status == KycStatus::Verified {
            1nat
        } else {
            0nat
        }
    }
}

proof fn lemma_count_verified_update(users: Seq<KycUser>, i: int, updated: KycUser)
    requires
        0 <= i < users.len(),
    ensures
        count_verified(users.update(i, updated)) + (if users[i].status == KycStatus::Verified {
            1nat
        } else {
            0nat
        }) == count_verified(users) + (if updated.status == KycStatus::Verified {
            1nat
        } else {
            0nat
        }),
    decreases users.len(),
{
    let u = users.update(i, updated);
    if i == users.len() - 1 {
        assert(u.drop_last() =~= users.drop_last());
    } else {
        assert(u.drop_last() =~= users.drop_last().update(i, updated));
        lemma_count_verified_update(users.drop_last(), i, updated);
    }
}

/// The verified counter stays equal to the number of verified records across a
/// status update of one record: a repeated verification does not count twice,
/// and a verification that ends takes one off.
pub proof fn lemma_verified_count_tracks_update(
    users: Seq<KycUser>,
    i: int,
    updated: KycUser,
    count: u64,
)
    requires
        0 <= i < users.len(),
        count == count_verified(users),
        updated.status == KycStatus::Verified && users[i].status != KycStatus::Verified
            ==> count < u64::MAX,
    ensures
        verified_count_after(count, users[i].status == KycStatus::Verified, updated.status
            == KycStatus::Verified) == count_verified(users.update(i, updated)),
{
    lemma_count_verified_update(users, i, updated);
    if users[i].status == KycStatus::Verified && updated.status != KycStatus::Verified {
        assert(count_verified(users) >= 1);
    }
}

/// Registering a user, whose record is `Pending`, leaves the number of verified
/// records as it was.
pub proof fn lemma_verified_count_tracks_registration(users: Seq<KycUser>, registered: KycUser)
    requires
        registered.status == KycStatus::Pending,
    ensures
        count_verified(users.push(registered)) == count_verified(users),
{
    assert(users.push(registered).drop_last() =~= users);
}

/// The records after status updates applied in order, each replacing the
/// record at its index.
pub open spec fn apply_updates(users: Seq<KycUser>, updates: Seq<(int, KycUser)>) -> Seq<KycUser>
    decreases updates.len(),
{
    if updates.len() == 0 {
        users
    } else {
        apply_updates(users.update(updates[0].0, updates[0].1), updates.drop_first())
    }
}

/// The verified counter after the same updates, each adjusting it against the
/// status its record held just before.
pub open spec fn count_after_updates(
    count: u64,
    users: Seq<KycUser>,
    updates: Seq<(int, KycUser)>,
) -> u64
    decreases updates.len(),
{
    if updates.len() == 0 {
        count
    } else {
        count_after_updates(
            verified_count_after(
                count,
                users[updates[0].0].status == KycStatus::Verified,
                updates[0].1.status == KycStatus::Verified,
            ),
            users.update(updates[0].0, updates[0].1),
            updates.drop_first(),
        )
    }
}

proof fn lemma_count_verified_bounded(users: Seq<KycUser>)
    ensures
        count_verified(users) <= users.len(),
    decreases users.len(),
{
    if users.len() > 0 {
        lemma_count_verified_bounded(users.drop_last());
    }
}

/// After any sequence of status updates, the verified counter equals the
/// number of verified records, provided it did before.
pub proof fn lemma_verified_count_after_updates(
    users: Seq<KycUser>,
    updates: Seq<(int, KycUser)>,
    count: u64,
)
    requires
        users.len() < u64::MAX,
        count == count_verified(users),
        forall|k: int| 0 <= k < updates.len() ==> 0 <= #[trigger] updates[k].0 < users.len(),
    ensures
        count_after_updates(count, users, updates) == count_verified(apply_updates(users, updates)),
    decreases updates.len(),
{
    if updates.len() > 0 {
        let (i, updated) = updates[0];
        lemma_count_verified_bounded(users);
        lemma_verified_count_tracks_update(users, i, updated, count);
        let next = users.update(i, updated);
        let rest = updates.drop_first();
        assert forall|k: int| 0 <= k < rest.len() implies 0 <= #[trigger] rest[k].0 < next.len() by {
            assert(rest[k] == updates[k + 1]);
        }
        lemma_verified_count_after_updates(
            next,
            rest,
            verified_count_after(
                count,
                users[i].status == KycStatus::Verified,
                updated.status == KycStatus::Verified,
            ),
        );
    }
}

} // verus!
