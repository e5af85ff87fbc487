use vstd::prelude::*;

verus! {

/// Every way in which an operation of this crate can be refused.
#[derive(Clone, Copy, PartialEq, Eq, Debug, Structural)]
pub enum MicaEurError {
    UserNotVerified,
    UserVerificationExpired,
    InsufficientVerificationLevel,
    TransactionAmountExceedsMaximum,
    UnsupportedCountry,
    AccountAlreadyFrozen,
    AccountNotFrozen,
    NotMintAuthority,
    InvalidKycStatus,
    InvalidVerificationLevel,
    InvalidExpiryDate,
    UserAlreadyRegistered,
    InvalidCountryCode,
    TokenAccountOwnerMismatch,
    AmlAuthorityInactive,
    UnauthorizedAmlAuthority,
    UnauthorizedKycAuthority,
    MintInactive,
    MintMismatch,
    NotFreezeAuthority,
    NotPermanentDelegate,
    AlreadyInitialized,
}

impl MicaEurError {
    /// The human-readable message of the error.
    pub fn message(&self) -> (r: &'static str)
        ensures
            match self {
            MicaEurError::UserNotVerified => r@ == "User is not KYC verified"@,
            MicaEurError::UserVerificationExpired => r@ == "User KYC verification has expired"@,
            MicaEurError::InsufficientVerificationLevel => r@ == "User's KYC verification level is insufficient for this operation"@,
            MicaEurError::TransactionAmountExceedsMaximum => r@ == "Transaction amount exceeds maximum allowed"@,
            MicaEurError::UnsupportedCountry => r@ == "Country not supported under MiCA regulation"@,
            MicaEurError::AccountAlreadyFrozen => r@ == "Account is already frozen"@,
            MicaEurError::AccountNotFrozen => r@ == "Account is not frozen"@,
            MicaEurError::NotMintAuthority => r@ == "Caller is not the mint authority"@,
            MicaEurError::InvalidKycStatus => r@ == "Invalid KYC status"@,
            MicaEurError::InvalidVerificationLevel => r@ == "Invalid verification level"@,
            MicaEurError::InvalidExpiryDate => r@ == "Invalid expiry date"@,
            MicaEurError::UserAlreadyRegistered => r@ == "User already registered for KYC"@,
            MicaEurError::InvalidCountryCode => r@ == "Invalid country code format"@,
            MicaEurError::TokenAccountOwnerMismatch => r@ == "Token account does not belong to the KYC verified user"@,
            MicaEurError::AmlAuthorityInactive => r@ == "AML authority is not active"@,
            MicaEurError::UnauthorizedAmlAuthority => r@ == "AML authority lacks the required power"@,
            MicaEurError::UnauthorizedKycAuthority => r@ == "Caller is not the KYC authority"@,
            MicaEurError::MintInactive => r@ == "The mint is not active"@,
            MicaEurError::MintMismatch => r@ == "The mint does not match the mint info"@,
            MicaEurError::NotFreezeAuthority => r@ == "Caller is not the freeze authority"@,
            MicaEurError::NotPermanentDelegate => r@ == "Caller is not the permanent delegate"@,
            MicaEurError::AlreadyInitialized => r@ == "The record has already been created"@,
            },
    {
        match self {
            MicaEurError::UserNotVerified => "User is not KYC verified",
            MicaEurError::UserVerificationExpired => "User KYC verification has expired",
            MicaEurError::InsufficientVerificationLevel => {
                "User's KYC verification level is insufficient for this operation"
            },
            MicaEurError::TransactionAmountExceedsMaximum => {
                "Transaction amount exceeds maximum allowed"
            },
            MicaEurError::UnsupportedCountry => "Country not supported under MiCA regulation",
            MicaEurError::AccountAlreadyFrozen => "Account is already frozen",
            MicaEurError::AccountNotFrozen => "Account is not frozen",
            MicaEurError::NotMintAuthority => "Caller is not the mint authority",
            MicaEurError::InvalidKycStatus => "Invalid KYC status",
            MicaEurError::InvalidVerificationLevel => "Invalid verification level",
            MicaEurError::InvalidExpiryDate => "Invalid expiry date",
            MicaEurError::UserAlreadyRegistered => "User already registered for KYC",
            MicaEurError::InvalidCountryCode => "Invalid country code format",
            MicaEurError::TokenAccountOwnerMismatch => {
                "Token account does not belong to the KYC verified user"
            },
            MicaEurError::AmlAuthorityInactive => "AML authority is not active",
            MicaEurError::UnauthorizedAmlAuthority => "AML authority lacks the required power",
            MicaEurError::UnauthorizedKycAuthority => "Caller is not the KYC authority",
            MicaEurError::MintInactive => "The mint is not active",
            MicaEurError::MintMismatch => "The mint does not match the mint info",
            MicaEurError::NotFreezeAuthority => "Caller is not the freeze authority",
            MicaEurError::NotPermanentDelegate => "Caller is not the permanent delegate",
            MicaEurError::AlreadyInitialized => "The record has already been created",
        }
    }
}

} // verus!
