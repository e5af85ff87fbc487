use mica_eur::constants::{
    is_country_supported, EUR_DECIMALS, SUPPORTED_COUNTRIES, MAX_TRANSACTION_AMOUNT,
    MIN_VERIFICATION_LEVEL_FOR_MINT_REDEEM, MIN_VERIFICATION_LEVEL_FOR_TRANSFERS,
};
use mica_eur::error::MicaEurError;
use mica_eur::keys::bytes32_eq;
use anchor_lang::prelude::Pubkey;
use mica_eur::mint_utils::{
    check_transaction_amount, find_kyc_oracle_state_pda, find_kyc_user_pda, find_mint_info_pda,
    MintExtensions,
};
use mica_eur::versions::{get_program_version, is_solana_version_compatible};

#[test]
fn all_member_states_are_supported() {
    let codes = [
        "AT", "BE", "BG", "HR", "CY", "CZ", "DK", "EE", "FI", "FR", "DE", "GR", "HU", "IE", "IT",
        "LV", "LT", "LU", "MT", "NL", "PL", "PT", "RO", "SK", "SI", "ES", "SE",
    ];
    for c in codes {
        assert!(is_country_supported(c), "{c}");
    }
}

#[test]
fn whitelist_holds_the_member_states() {
    assert_eq!(SUPPORTED_COUNTRIES.len(), 27);
    assert!(SUPPORTED_COUNTRIES.contains(&"DE"));
    assert!(!SUPPORTED_COUNTRIES.contains(&"GB"));
    for c in SUPPORTED_COUNTRIES {
        assert!(is_country_supported(c), "{c}");
    }
}

#[test]
fn other_codes_are_not_supported() {
    for c in ["US", "GB", "CH", "NO", "de", "D", "DEU", "", "ZZ"] {
        assert!(!is_country_supported(c), "{c}");
    }
}

#[test]
fn constants_have_their_values() {
    assert_eq!(MAX_TRANSACTION_AMOUNT, 100_000_000_000_000);
    assert_eq!(EUR_DECIMALS, 9);
    assert_eq!(MIN_VERIFICATION_LEVEL_FOR_TRANSFERS, 1);
    assert_eq!(MIN_VERIFICATION_LEVEL_FOR_MINT_REDEEM, 2);
}

#[test]
fn transaction_amount_limit_is_inclusive() {
    assert_eq!(check_transaction_amount(0), Ok(()));
    assert_eq!(check_transaction_amount(MAX_TRANSACTION_AMOUNT), Ok(()));
    assert_eq!(
        check_transaction_amount(MAX_TRANSACTION_AMOUNT + 1),
        Err(MicaEurError::TransactionAmountExceedsMaximum)
    );
}

#[test]
fn versions() {
    assert_eq!(get_program_version(), "0.1.0");
    assert!(is_solana_version_compatible());
}

#[test]
fn keys_compare_bytewise() {
    let a = [7u8; 32];
    let mut b = a;
    assert!(bytes32_eq(&a, &b));
    b[31] = 8;
    assert!(!bytes32_eq(&a, &b));
}

#[test]
fn error_messages() {
    assert_eq!(MicaEurError::UserNotVerified.message(), "User is not KYC verified");
    assert_eq!(MicaEurError::InvalidCountryCode.message(), "Invalid country code format");
    assert_eq!(MicaEurError::AlreadyInitialized.message(), "The record has already been created");
}

#[test]
fn mint_size_covers_base_extensions_and_headers() {
    assert_eq!(mica_eur::mint_utils::get_mint_size_with_extensions(), 82 + 1 + 64 + 64 + 32 + 32);
}

#[test]
fn required_extensions_are_all_four() {
    let all = MintExtensions {
        default_account_state: true,
        permanent_delegate: true,
        transfer_hook: true,
        metadata_pointer: true,
    };
    assert!(all.has_required_extensions());
    assert!(!MintExtensions { transfer_hook: false, ..all }.has_required_extensions());
    assert!(!MintExtensions { default_account_state: false, ..all }.has_required_extensions());
    assert!(!MintExtensions { permanent_delegate: false, ..all }.has_required_extensions());
    assert!(!MintExtensions { metadata_pointer: false, ..all }.has_required_extensions());
}

#[test]
fn derived_addresses_match_the_ledger_derivation() {
    let program = [42u8; 32];
    let program_key = Pubkey::new_from_array(program);
    let mint = [7u8; 32];
    let (addr, bump) = Pubkey::find_program_address(&[b"mint-info", &mint], &program_key);
    assert_eq!(find_mint_info_pda(&mint, &program), Some((addr.to_bytes(), bump)));
    assert_ne!(addr.to_bytes(), mint);
    let (addr, bump) = Pubkey::find_program_address(&[b"kyc-oracle-state"], &program_key);
    assert_eq!(find_kyc_oracle_state_pda(&program), Some((addr.to_bytes(), bump)));
    let user = [8u8; 32];
    let (addr, bump) = Pubkey::find_program_address(&[b"kyc-user", &user], &program_key);
    assert_eq!(find_kyc_user_pda(&user, &program), Some((addr.to_bytes(), bump)));
    assert_ne!(find_kyc_user_pda(&user, &program), find_kyc_user_pda(&mint, &program));
}
