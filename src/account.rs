//! Layout of the on-chain price account and the on-chain program's errors.
use vstd::prelude::*;

use vstd::utf8::encode_utf8;

use crate::models::PPM;

verus! {

/// Bytes of the account's fields besides its two text fields: the
/// initialised flag (1), price, confidence, timestamp and consensus score (8
/// each), the length of an empty signature (4) and the signer key (32).
pub const PAYLOAD_FIXED_BYTES: usize = 69;

/// Room left in the account for a signature and later fields.
pub const ACCOUNT_SLACK_BYTES: usize = 256;

/// Length of the UTF-8 encoding of `s`.
pub open spec fn utf8_len(s: Seq<char>) -> int {
    encode_utf8(s).len() as int
}

/// Encoded length of the first `j` texts: four length bytes and the UTF-8
/// bytes of each.
pub open spec fn texts_len_upto(ss: Seq<String>, j: int) -> int
    decreases j,
{
    if j <= 0 {
        0
    } else {
        texts_len_upto(ss, j - 1) + 4 + utf8_len(ss[j - 1]@)
    }
}

/// Encoded length of the asset symbol followed by the list of sources: each
/// string and the list itself carry four length bytes.
pub open spec fn texts_encoded_len(asset: Seq<char>, sources: Seq<String>) -> int {
    4 + utf8_len(asset) + 4 + texts_len_upto(sources, sources.len() as int)
}

/// Size of an account holding a payload for `asset` and `sources`, with
/// room to spare.
pub open spec fn account_size(asset: Seq<char>, sources: Seq<String>) -> int {
    PAYLOAD_FIXED_BYTES + texts_encoded_len(asset, sources) + ACCOUNT_SLACK_BYTES
}

/// The texts can be encoded: every length fits in four bytes.
pub open spec fn encodable_texts(asset: Seq<char>, sources: Seq<String>) -> bool {
    &&& utf8_len(asset) <= u32::MAX
    &&& sources.len() <= u32::MAX
    &&& forall|i: int| 0 <= i < sources.len() ==> utf8_len(#[trigger] sources[i]@) <= u32::MAX
}

/// Relies on `borsh::object_length` with borsh's encoding of `str`, of slices
/// and of pairs: a pair is its two parts in order; a string is its length as
/// four bytes followed by its UTF-8 bytes; a slice is its length as four bytes
/// followed by each element. It fails only on a length that does not fit in
/// four bytes, which `requires` leaves out.
#[verifier::external_body]
fn borsh_texts_len(asset: &str, sources: &[String]) -> (r: usize)
    requires
        encodable_texts(asset@, sources@),
        texts_encoded_len(asset@, sources@) <= usize::MAX,
    ensures
        r == texts_encoded_len(asset@, sources@),
{
    borsh::object_length(&(asset, sources)).unwrap()
}

/// Bytes to allocate for a price account for `asset` and `sources`.
pub fn get_account_size(asset: &str, sources: &[String]) -> (r: usize)
    requires
        encodable_texts(asset@, sources@),
        account_size(asset@, sources@) <= usize::MAX,
    ensures
        r == account_size(asset@, sources@),
{
    let texts = borsh_texts_len(asset, sources);
    PAYLOAD_FIXED_BYTES + texts + ACCOUNT_SLACK_BYTES
}

/// Failures of the on-chain program.
#[derive(Clone, Copy, Debug, PartialEq, Eq, Structural)]
pub enum PriceOracleError {
    UninitializedAccount,
    InvalidSignature,
    AccountAlreadyInitialized,
    InvalidPriceData,
    ConsensusFailed,
}

impl PriceOracleError {
    /// The custom program error code: the variant's position.
    pub fn code(&self) -> (r: u32)
        ensures
            r == match *self {
                PriceOracleError::UninitializedAccount => 0u32,
                PriceOracleError::InvalidSignature => 1,
                PriceOracleError::AccountAlreadyInitialized => 2,
                PriceOracleError::InvalidPriceData => 3,
                PriceOracleError::ConsensusFailed => 4,
            },
    {
        match self {
            PriceOracleError::UninitializedAccount => 0,
            PriceOracleError::InvalidSignature => 1,
            PriceOracleError::AccountAlreadyInitialized => 2,
            PriceOracleError::InvalidPriceData => 3,
            PriceOracleError::ConsensusFailed => 4,
        }
    }
}

/// The program's check of a submitted result: the price must be positive
/// and the confidence at most one.
pub fn check_price_submission(price: i64, confidence: u64) -> (r: Result<(), PriceOracleError>)
    ensures
        r == (if price <= 0 || confidence > PPM {
            Err(PriceOracleError::InvalidPriceData)
        } else {
            Ok(())
        }),
{
    if price <= 0 || confidence > PPM {
        return Err(PriceOracleError::InvalidPriceData);
    }
    Ok(())
}

} // verus!
