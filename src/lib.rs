//! Compliance core of a fiat-backed euro token: KYC oracle, AML authorities and
//! blacklist, Merkle attestation of reserves, and the gated token lifecycle.
//!
//! Every operation takes the current time and the verified caller key as plain
//! values and returns either the new records or the ledger actions to perform,
//! so that the host decides nothing that is not stated here.

pub mod aml;
pub mod aml_powers;
pub mod constants;
pub mod error;
pub mod keys;
pub mod kyc_oracle;
pub mod merkle_info;
pub mod mint_utils;
pub mod token_lifecycle;
pub mod versions;
