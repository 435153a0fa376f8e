//! Calls into other crates. Each function here makes one such call, and its
//! contract is believed, not proved.

use crate::text;
use vstd::prelude::*;

verus! {

/// What `url::Url::parse` makes of an input: the serialization of the URL, or
/// the text of the parse error.
pub uninterp spec fn parsed_url(input: Seq<char>) -> Result<Seq<char>, Seq<char>>;

/// The checksummed text of an account address.
pub uninterp spec fn address_display(bytes: Seq<u8>) -> Seq<char>;

/// The `Debug` text of a duration of `nanos` nanoseconds.
pub uninterp spec fn duration_debug(nanos: u64) -> Seq<char>;

/// The number whose 64-bit limbs, least significant first, are `limbs`.
pub open spec fn limbs_value(limbs: Seq<u64>) -> nat
    decreases limbs.len(),
{
    if limbs.len() == 0 {
        0
    } else {
        limbs[0] as nat + 0x1_0000_0000_0000_0000 * limbs_value(limbs.drop_first())
    }
}

/// Calls `url::Url::parse`. Claims that the outcome is a function of the input
/// alone, which `parsed_url` names: on success the serialization that the URL
/// displays as, on failure the display text of the error.
#[verifier::external_body]
pub(crate) fn parse_url(input: &str) -> (r: Result<String, String>)
    ensures
        match r {
            Ok(serialization) => parsed_url(input@) == Ok::<Seq<char>, Seq<char>>(serialization@),
            Err(reason) => parsed_url(input@) == Err::<Seq<char>, Seq<char>>(reason@),
        },
{
    match url::Url::parse(input) {
        Ok(url) => Ok(url.to_string()),
        Err(error) => Err(error.to_string()),
    }
}

/// Calls the `Display` of `alloy_primitives::B256`. Claims that a hash is
/// displayed as `0x` and two lower-case hexadecimal digits for each byte.
#[verifier::external_body]
pub(crate) fn hash_text(hash: &[u8; 32]) -> (r: String)
    ensures
        r@ == text::hex_text(hash@),
{
    alloy_primitives::B256::from(*hash).to_string()
}

/// Calls the `Display` of `alloy_primitives::U256`. Claims that the number with
/// these limbs is displayed in decimal.
#[verifier::external_body]
pub(crate) fn u256_text(limbs: &[u64; 4]) -> (r: String)
    ensures
        r@ == text::decimal(limbs_value(limbs@)),
{
    alloy_primitives::U256::from_limbs(*limbs).to_string()
}

/// Calls the `Display` of `alloy_primitives::Address`. Claims that the text is
/// a function of the address bytes alone, which `address_display` names.
#[verifier::external_body]
pub(crate) fn address_text(bytes: &[u8; 20]) -> (r: String)
    ensures
        r@ == address_display(bytes@),
{
    alloy_primitives::Address::from(*bytes).to_string()
}

/// Calls the `Debug` of `std::time::Duration`. Claims that the text is a
/// function of the number of nanoseconds alone, which `duration_debug` names.
#[verifier::external_body]
pub(crate) fn duration_text(nanos: u64) -> (r: String)
    ensures
        r@ == duration_debug(nanos),
{
    format!("{:?}", std::time::Duration::from_nanos(nanos))
}

} // verus!
