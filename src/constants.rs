use vstd::prelude::*;
use vstd::string::StringSliceAdditionalSpecFns;
use vstd::utf8::{decode_utf8, encode_utf8, encode_utf8_decode_utf8};

verus! {

/// Seed of the mint-info record's address, as UTF-8 bytes.
pub const MINT_INFO_SEED: &'static str = "mint-info";

/// Seed of the KYC oracle state's address, as UTF-8 bytes.
pub const KYC_ORACLE_STATE_SEED: &'static str = "kyc-oracle-state";

/// Seed of a KYC user record's address, as UTF-8 bytes.
pub const KYC_USER_SEED: &'static str = "kyc-user";

/// Lowest KYC level that allows transfers.
pub const MIN_VERIFICATION_LEVEL_FOR_TRANSFERS: u8 = 1;

/// Lowest KYC level that allows minting and redeeming.
pub const MIN_VERIFICATION_LEVEL_FOR_MINT_REDEEM: u8 = 2;

/// Largest amount of one transaction: 100,000 EUR with 9 decimals.
pub const MAX_TRANSACTION_AMOUNT: u64 = 100_000 * 1_000_000_000;

/// Decimals of the EUR token.
pub const EUR_DECIMALS: u8 = 9;

/// Number of supported countries.
pub const SUPPORTED_COUNTRY_COUNT: usize = 27;

/// Whitelist of supported countries (ISO 3166-1 alpha-2 codes): the member
/// states of the European Union.
pub const SUPPORTED_COUNTRIES: [&'static str; SUPPORTED_COUNTRY_COUNT] = [
    "AT", "BE", "BG", "HR", "CY", "CZ", "DK", "EE", "FI", "FR",
    "DE", "GR", "HU", "IE", "IT", "LV", "LT", "LU", "MT", "NL",
    "PL", "PT", "RO", "SK", "SI", "ES", "SE",
];

/// Whether a country code is on the whitelist.
pub open spec fn is_supported_country(code: Seq<char>) -> bool {
    exists|i: int| 0 <= i < SUPPORTED_COUNTRY_COUNT && #[trigger] SUPPORTED_COUNTRIES[i]@ == code
}

/// Equality of two strings, compared byte by byte.
fn str_eq(a: &str, b: &str) -> (r: bool)
    ensures
        r == (a@ == b@),
{
    let x = a.as_bytes();
    let y = b.as_bytes();
    proof {
        encode_utf8_decode_utf8(a@);
        encode_utf8_decode_utf8(b@);
    }
    if x.len() != y.len() {
        return false;
    }
    let mut i: usize = 0;
    while i < x.len()
        invariant
            x@ == encode_utf8(a@),
            y@ == encode_utf8(b@),
            decode_utf8(encode_utf8(a@)) == a@,
            decode_utf8(encode_utf8(b@)) == b@,
            x@.len() == y@.len(),
            i <= x@.len(),
            forall|j: int| 0 <= j < i ==> x@[j] == y@[j],
        decreases x.len() - i,
    {
        if x[i] != y[i] {
            assert(x@[i as int] != y@[i as int]);
            assert(x@ != y@);
            return false;
        }
        i = i + 1;
    }
    assert(x@ =~= y@);
    true
}

/// Whether the country code is on the whitelist of supported countries.
pub fn is_country_supported(country_code: &str) -> (r: bool)
    ensures
        r == is_supported_country(country_code@),
{
    let mut i: usize = 0;
    while i < SUPPORTED_COUNTRY_COUNT
        invariant
            i <= SUPPORTED_COUNTRY_COUNT,
            forall|j: int| 0 <= j < i ==> SUPPORTED_COUNTRIES[j]@ != country_code@,
        decreases SUPPORTED_COUNTRY_COUNT - i,
    {
        if str_eq(SUPPORTED_COUNTRIES[i], country_code) {
            return true;
        }
        i = i + 1;
    }
    false
}

} // verus!
