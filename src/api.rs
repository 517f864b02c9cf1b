//! Values of the HTTP interface that serves signed data.
use vstd::prelude::*;
use vstd::string::StringExecFns;

verus! {

/// The bytes that `text` encodes in standard base64 (standard alphabet,
/// with padding), when it is such an encoding.
pub uninterp spec fn base64_decoding(text: Seq<char>) -> Option<Seq<u8>>;

/// Relies on `base64::engine::general_purpose::STANDARD.decode`: decoding
/// depends on the text alone and fails exactly when it is no standard
/// encoding.
#[verifier::external_body]
fn decode_base64(text: &str) -> (r: Option<Vec<u8>>)
    ensures
        match r {
            Some(v) => base64_decoding(text@) == Some(v@),
            None => base64_decoding(text@) is None,
        },
{
    base64::Engine::decode(&base64::engine::general_purpose::STANDARD, text).ok()
}

/// The SHA-256 digest of `data`.
pub uninterp spec fn sha256_of(data: Seq<u8>) -> Seq<u8>;

/// Relies on `sha2::Sha256::digest`: the digest depends on the data alone
/// and is 32 bytes long.
#[verifier::external_body]
fn sha256_digest(data: &[u8]) -> (r: Vec<u8>)
    ensures
        r@ == sha256_of(data@),
        r@.len() == 32,
{
    <sha2::Sha256 as sha2::Digest>::digest(data).to_vec()
}

/// An ed25519 signature encoding the parser accepts: 64 bytes, the three
/// high bits of the last one clear.
pub open spec fn signature_encoding_ok(sig: Seq<u8>) -> bool {
    sig.len() == 64 && sig[63] & 0xe0u8 == 0
}

/// Relies on `ed25519::Signature::from_bytes` (ed25519-dalek's signature
/// type): it accepts exactly 64 bytes whose last byte has its three high bits
/// clear.
#[verifier::external_body]
fn parses_as_signature(sig: &[u8]) -> (r: bool)
    ensures
        r == signature_encoding_ok(sig@),
{
    ed25519_dalek::Signature::from_bytes(sig).is_ok()
}

/// The 32 bytes `key` decompress to a point of the curve.
pub uninterp spec fn ed25519_point_decodes(key: Seq<u8>) -> bool;

/// Relies on `ed25519_dalek::PublicKey::from_bytes`: it accepts exactly the
/// 32-byte strings that decompress to a curve point.
#[verifier::external_body]
fn parses_as_public_key(key: &[u8]) -> (r: bool)
    ensures
        r == (key@.len() == 32 && ed25519_point_decodes(key@)),
{
    ed25519_dalek::PublicKey::from_bytes(key).is_ok()
}

/// `sig` is a signature of `msg` under `key` by ed25519's strict rules.
pub uninterp spec fn ed25519_strict_verifies(key: Seq<u8>, msg: Seq<u8>, sig: Seq<u8>) -> bool;

/// Relies on `ed25519_dalek::PublicKey::verify_strict`, with the key and the
/// signature read by their `from_bytes`: the verdict depends on the three
/// byte strings alone.
#[verifier::external_body]
fn verify_strict(key: &[u8], msg: &[u8], sig: &[u8]) -> (r: bool)
    requires
        key@.len() == 32 && ed25519_point_decodes(key@),
        signature_encoding_ok(sig@),
    ensures
        r == ed25519_strict_verifies(key@, msg@, sig@),
{
    let public_key = ed25519_dalek::PublicKey::from_bytes(key).unwrap();
    let signature = ed25519_dalek::Signature::from_bytes(sig).unwrap();
    public_key.verify_strict(msg, &signature).is_ok()
}

/// The verdict on a base64 `signature` by the base64 public key `signer`
/// over the SHA-256 digest of `payload`: `None` when either does not decode
/// or parse.
pub open spec fn payload_verdict(payload: Seq<u8>, signature: Seq<char>, signer: Seq<char>) -> Option<bool> {
    match (base64_decoding(signature), base64_decoding(signer)) {
        (Some(sig), Some(key)) => if signature_encoding_ok(sig) && key.len() == 32
            && ed25519_point_decodes(key) {
            Some(ed25519_strict_verifies(key, sha256_of(payload), sig))
        } else {
            None
        },
        _ => None,
    }
}

/// Failures of an API request.
#[derive(Clone, Debug, PartialEq, Eq)]
pub enum ApiError {
    NotFound(String),
    BadRequest(String),
    Unauthorized(String),
    InternalServerError(String),
    SignatureVerificationFailed,
    SolanaError(String),
}

impl ApiError {
    /// The HTTP status the error is answered with.
    pub fn status_code(&self) -> (r: u16)
        ensures
            r == match *self {
                ApiError::NotFound(_) => 404u16,
                ApiError::BadRequest(_) => 400,
                ApiError::Unauthorized(_) => 401,
                ApiError::InternalServerError(_) => 500,
                ApiError::SignatureVerificationFailed => 400,
                ApiError::SolanaError(_) => 500,
            },
    {
        match self {
            ApiError::NotFound(_) => 404,
            ApiError::BadRequest(_) => 400,
            ApiError::Unauthorized(_) => 401,
            ApiError::InternalServerError(_) => 500,
            ApiError::SignatureVerificationFailed => 400,
            ApiError::SolanaError(_) => 500,
        }
    }
}

/// Body of an error answer.
#[derive(Clone, Debug)]
pub struct ErrorResponse {
    pub status: String,
    pub message: String,
}

/// Body of the answer to a verification request.
#[derive(Clone, Copy, Debug, PartialEq, Eq, Structural)]
pub struct VerifyResponse {
    pub valid: bool,
}

/// Query naming an asset.
#[derive(Clone, Debug)]
pub struct AssetQuery {
    pub asset: String,
}

/// Checks signatures on signed payloads.
#[derive(Clone, Copy, Debug)]
pub struct VerificationService {}

impl VerificationService {
    pub fn new() -> (r: Self) {
        VerificationService {  }
    }

    /// Checks a base64 `signature` by the base64 public key `signer` over
    /// the SHA-256 digest of `payload`, the canonical JSON text of the signed
    /// data. Text that is no base64 is a bad request; a signature or key of
    /// the wrong form fails verification; otherwise the answer says whether
    /// the signature holds.
    pub fn verify_payload(&self, payload: &[u8], signature: &str, signer: &str) -> (r: Result<bool, ApiError>)
        ensures
            match r {
                Ok(valid) => payload_verdict(payload@, signature@, signer@) == Some(valid),
                Err(ApiError::BadRequest(_)) => base64_decoding(signature@) is None
                    || base64_decoding(signer@) is None,
                Err(e) => e == ApiError::SignatureVerificationFailed && base64_decoding(
                    signature@,
                ) is Some && base64_decoding(signer@) is Some && payload_verdict(
                    payload@,
                    signature@,
                    signer@,
                ) is None,
            },
    {
        let digest = sha256_digest(payload);
        let sig = match decode_base64(signature) {
            Some(v) => v,
            None => {
                return Err(ApiError::BadRequest(String::from_str("Invalid base64 encoding")));
            },
        };
        let key = match decode_base64(signer) {
            Some(v) => v,
            None => {
                return Err(ApiError::BadRequest(String::from_str("Invalid base64 encoding")));
            },
        };
        if !parses_as_signature(sig.as_slice()) || !parses_as_public_key(key.as_slice()) {
            return Err(ApiError::SignatureVerificationFailed);
        }
        Ok(verify_strict(key.as_slice(), digest.as_slice(), sig.as_slice()))
    }
}

} // verus!
