use mica_eur::error::MicaEurError;
use mica_eur::kyc_oracle::{
    initialize_kyc_oracle, is_eligible, is_kyc_verified, register_kyc_user, update_kyc_status,
    KycOracleState, KycStatus, KycUser,
};

const AUTHORITY: [u8; 32] = [1; 32];
const USER: [u8; 32] = [2; 32];
const T0: i64 = 1_700_000_000;
const DAY: i64 = 86_400;

fn register(oracle: &mut KycOracleState, country: &str) -> Result<KycUser, MicaEurError> {
    register_kyc_user(
        oracle,
        &None,
        &AUTHORITY,
        &USER,
        "10020030".to_string(),
        [9; 32],
        country.to_string(),
        "provider".to_string(),
        T0,
    )
}

fn registered() -> (KycOracleState, KycUser) {
    let mut oracle = initialize_kyc_oracle(&None, &AUTHORITY, T0).unwrap();
    let user = register(&mut oracle, "DE").unwrap();
    (oracle, user)
}

#[test]
fn new_oracle_has_no_users() {
    let oracle = initialize_kyc_oracle(&None, &AUTHORITY, T0).unwrap();
    assert_eq!(oracle.authority, AUTHORITY);
    assert_eq!(oracle.user_count, 0);
    assert_eq!(oracle.verified_user_count, 0);
    assert_eq!(oracle.last_update_time, T0);
}

#[test]
fn fresh_user_is_pending_level_zero_and_never_eligible() {
    let (oracle, user) = registered();
    assert_eq!(user.status, KycStatus::Pending);
    assert_eq!(user.verification_level, 0);
    assert_eq!(user.expiry_time, 0);
    assert_eq!(user.verification_time, T0);
    assert_eq!(user.country_code, "DE");
    assert_eq!(user.blz, "10020030");
    assert_eq!(user.iban_hash, [9; 32]);
    assert_eq!(user.verification_provider, "provider");
    assert_eq!(user.authority, AUTHORITY);
    assert_eq!(user.user, USER);
    assert_eq!(oracle.user_count, 1);
    assert_eq!(oracle.verified_user_count, 0);
    assert!(!is_eligible(&user, 0, &vec![], T0));
    assert!(!is_kyc_verified(&user, T0));
}

#[test]
fn register_rejects_malformed_country_code() {
    let mut oracle = initialize_kyc_oracle(&None, &AUTHORITY, T0).unwrap();
    assert_eq!(register(&mut oracle, "D").unwrap_err(), MicaEurError::InvalidCountryCode);
    assert_eq!(register(&mut oracle, "DEU").unwrap_err(), MicaEurError::InvalidCountryCode);
    assert_eq!(register(&mut oracle, "").unwrap_err(), MicaEurError::InvalidCountryCode);
    assert_eq!(oracle.user_count, 0);
}

#[test]
fn register_rejects_unsupported_country() {
    let mut oracle = initialize_kyc_oracle(&None, &AUTHORITY, T0).unwrap();
    assert_eq!(register(&mut oracle, "US").unwrap_err(), MicaEurError::UnsupportedCountry);
    assert_eq!(register(&mut oracle, "de").unwrap_err(), MicaEurError::UnsupportedCountry);
    assert_eq!(oracle.user_count, 0);
}

#[test]
fn register_rejects_foreign_authority() {
    let mut oracle = initialize_kyc_oracle(&None, &[5; 32], T0).unwrap();
    assert_eq!(
        register(&mut oracle, "DE").unwrap_err(),
        MicaEurError::UnauthorizedKycAuthority
    );
    assert_eq!(oracle.user_count, 0);
}

#[test]
fn register_counts_users() {
    let mut oracle = initialize_kyc_oracle(&None, &AUTHORITY, T0).unwrap();
    register(&mut oracle, "FR").unwrap();
    register(&mut oracle, "SE").unwrap();
    assert_eq!(oracle.user_count, 2);
}

#[test]
fn update_rejects_level_above_three() {
    let (mut oracle, mut user) = registered();
    let r = update_kyc_status(&mut oracle, &mut user, &AUTHORITY, KycStatus::Verified, 4, 30, T0);
    assert_eq!(r, Err(MicaEurError::InvalidVerificationLevel));
    assert_eq!(user.status, KycStatus::Pending);
    assert_eq!(oracle.verified_user_count, 0);
}

#[test]
fn update_rejects_verification_without_positive_days() {
    let (mut oracle, mut user) = registered();
    for days in [0, -1] {
        let r =
            update_kyc_status(&mut oracle, &mut user, &AUTHORITY, KycStatus::Verified, 2, days, T0);
        assert_eq!(r, Err(MicaEurError::InvalidExpiryDate));
    }
    assert_eq!(user.status, KycStatus::Pending);
    // days are only checked for a verification
    let r = update_kyc_status(&mut oracle, &mut user, &AUTHORITY, KycStatus::Rejected, 0, 0, T0);
    assert_eq!(r, Ok(()));
    assert_eq!(user.status, KycStatus::Rejected);
}

#[test]
fn update_rejects_foreign_authority() {
    let (mut oracle, mut user) = registered();
    let r = update_kyc_status(&mut oracle, &mut user, &[5; 32], KycStatus::Verified, 2, 30, T0);
    assert_eq!(r, Err(MicaEurError::UnauthorizedKycAuthority));
    assert_eq!(user.status, KycStatus::Pending);
}

#[test]
fn verification_sets_expiry_and_counts_once() {
    let (mut oracle, mut user) = registered();
    update_kyc_status(&mut oracle, &mut user, &AUTHORITY, KycStatus::Verified, 2, 30, T0 + 5)
        .unwrap();
    assert_eq!(user.status, KycStatus::Verified);
    assert_eq!(user.verification_level, 2);
    assert_eq!(user.verification_time, T0 + 5);
    assert_eq!(user.expiry_time, T0 + 5 + 30 * DAY);
    assert_eq!(oracle.verified_user_count, 1);
    assert_eq!(oracle.last_update_time, T0 + 5);
    // verified -> verified does not count twice
    update_kyc_status(&mut oracle, &mut user, &AUTHORITY, KycStatus::Verified, 3, 60, T0 + 9)
        .unwrap();
    assert_eq!(oracle.verified_user_count, 1);
    assert_eq!(user.expiry_time, T0 + 9 + 60 * DAY);
    assert_eq!(user.verification_level, 3);
}

#[test]
fn ending_a_verification_decrements_the_count() {
    let (mut oracle, mut user) = registered();
    update_kyc_status(&mut oracle, &mut user, &AUTHORITY, KycStatus::Verified, 2, 30, T0).unwrap();
    update_kyc_status(&mut oracle, &mut user, &AUTHORITY, KycStatus::Suspended, 2, 0, T0 + 1)
        .unwrap();
    assert_eq!(oracle.verified_user_count, 0);
    // the expiry is kept but the record is no longer eligible
    assert_eq!(user.expiry_time, T0 + 30 * DAY);
    assert!(!is_kyc_verified(&user, T0 + 2));
    // non-verified -> non-verified leaves the count alone
    update_kyc_status(&mut oracle, &mut user, &AUTHORITY, KycStatus::Expired, 0, 0, T0 + 3)
        .unwrap();
    assert_eq!(oracle.verified_user_count, 0);
}

#[test]
fn decrement_is_floored_at_zero() {
    let (mut oracle, mut user) = registered();
    update_kyc_status(&mut oracle, &mut user, &AUTHORITY, KycStatus::Verified, 2, 30, T0).unwrap();
    oracle.verified_user_count = 0;
    update_kyc_status(&mut oracle, &mut user, &AUTHORITY, KycStatus::Rejected, 0, 0, T0).unwrap();
    assert_eq!(oracle.verified_user_count, 0);
}

#[test]
fn count_follows_two_users() {
    let mut oracle = initialize_kyc_oracle(&None, &AUTHORITY, T0).unwrap();
    let mut a = register(&mut oracle, "DE").unwrap();
    let mut b = register(&mut oracle, "AT").unwrap();
    update_kyc_status(&mut oracle, &mut a, &AUTHORITY, KycStatus::Verified, 1, 10, T0).unwrap();
    update_kyc_status(&mut oracle, &mut b, &AUTHORITY, KycStatus::Verified, 2, 10, T0).unwrap();
    assert_eq!(oracle.verified_user_count, 2);
    update_kyc_status(&mut oracle, &mut a, &AUTHORITY, KycStatus::Verified, 2, 10, T0).unwrap();
    assert_eq!(oracle.verified_user_count, 2);
    update_kyc_status(&mut oracle, &mut b, &AUTHORITY, KycStatus::Pending, 0, 0, T0).unwrap();
    assert_eq!(oracle.verified_user_count, 1);
    update_kyc_status(&mut oracle, &mut a, &AUTHORITY, KycStatus::Unverified, 0, 0, T0).unwrap();
    assert_eq!(oracle.verified_user_count, 0);
}

#[test]
fn register_verify_then_expire_scenario() {
    let (mut oracle, mut user) = registered();
    assert_eq!(user.status, KycStatus::Pending);
    update_kyc_status(&mut oracle, &mut user, &AUTHORITY, KycStatus::Verified, 2, 365, T0).unwrap();
    assert!(is_eligible(&user, 2, &vec![], T0 + 1));
    assert!(!is_eligible(&user, 2, &vec![], T0 + 365 * DAY));
    assert!(!is_eligible(&user, 2, &vec![], T0 + 365 * DAY + 1));
}

#[test]
fn eligibility_needs_level_and_allowed_country() {
    let (mut oracle, mut user) = registered();
    update_kyc_status(&mut oracle, &mut user, &AUTHORITY, KycStatus::Verified, 2, 30, T0).unwrap();
    assert!(is_eligible(&user, 2, &vec![], T0));
    assert!(!is_eligible(&user, 3, &vec![], T0));
    assert!(!is_eligible(&user, 2, &vec!["FR".to_string()], T0));
    assert!(is_eligible(&user, 2, &vec!["FR".to_string(), "DE".to_string()], T0));
    assert!(is_kyc_verified(&user, T0 + 30 * DAY - 1));
    assert!(!is_kyc_verified(&user, T0 + 30 * DAY));
}

#[test]
fn verified_record_without_expiry_is_never_eligible() {
    let (_, mut user) = registered();
    user.status = KycStatus::Verified;
    user.verification_level = 3;
    user.expiry_time = 0;
    assert!(!is_kyc_verified(&user, T0));
    assert!(!is_eligible(&user, 0, &vec![], T0));
}

#[test]
fn oracle_is_created_once() {
    let first = initialize_kyc_oracle(&None, &AUTHORITY, T0).unwrap();
    let again = initialize_kyc_oracle(&Some(first), &[5; 32], T0 + 1);
    assert_eq!(again.unwrap_err(), MicaEurError::AlreadyInitialized);
    assert_eq!(first.authority, AUTHORITY);
}

#[test]
fn user_is_registered_once() {
    let (mut oracle, user) = registered();
    let again = register_kyc_user(
        &mut oracle,
        &Some(user),
        &AUTHORITY,
        &USER,
        String::new(),
        [0; 32],
        "DE".to_string(),
        String::new(),
        T0 + 1,
    );
    assert_eq!(again.unwrap_err(), MicaEurError::UserAlreadyRegistered);
    assert_eq!(oracle.user_count, 1);
}
