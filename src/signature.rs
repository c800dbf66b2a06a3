//! The signature verifier: recovers the address that signed the challenge.
use alloy_signer::Signature;
use std::str::FromStr;
use vstd::prelude::*;

verus! {

/// The 65 bytes (r, s, v) that a signature text stands for, or none where the
/// text is not a signature.
pub uninterp spec fn signature_bytes_of(text: Seq<char>) -> Option<Seq<u8>>;

/// The 20-byte address that signed `message` (prefixed and hashed the EIP-191
/// way) with the raw signature `sig`, or none where recovery fails.
pub uninterp spec fn signer_of(sig: Seq<u8>, message: Seq<u8>) -> Option<Seq<u8>>;

/// Relies on alloy_signer::Signature::from_str to read a hex signature text,
/// handed back through Signature::as_bytes as r, s and v.
#[verifier::external_body]
fn parse_signature(text: &str) -> (r: Option<[u8; 65]>)
    ensures
        match r {
            Some(b) => signature_bytes_of(text@) == Some(b@),
            None => signature_bytes_of(text@) is None,
        },
{
    Signature::from_str(text).ok().map(|s| s.as_bytes())
}

/// Relies on alloy_signer::Signature::recover_address_from_msg to recover the
/// signing address; the bytes are turned back into a Signature by from_raw_array.
#[verifier::external_body]
fn recover_signer(sig: &[u8; 65], message: &[u8]) -> (r: Option<[u8; 20]>)
    ensures
        match r {
            Some(a) => signer_of(sig@, message@) == Some(a@),
            None => signer_of(sig@, message@) is None,
        },
{
    let s = Signature::from_raw_array(sig).ok()?;
    s.recover_address_from_msg(message).ok().map(|a| a.into_array())
}

/// Why no address could be recovered.
#[derive(Clone, Copy, Debug, PartialEq, Eq, Structural)]
pub enum VerifyError {
    /// The text is not a signature in its canonical recoverable form.
    MalformedSignature,
    /// The signature does not yield an address for the challenge.
    RecoveryFailed,
}

/// What `recover` returns for a challenge and a signature text.
pub open spec fn recovered(challenge: Seq<u8>, signature: Seq<char>) -> Result<Seq<u8>, VerifyError> {
    match signature_bytes_of(signature) {
        None => Err(VerifyError::MalformedSignature),
        Some(b) => match signer_of(b, challenge) {
            None => Err(VerifyError::RecoveryFailed),
            Some(a) => Ok(a),
        },
    }
}

pub open spec fn recovered_view(r: Result<[u8; 20], VerifyError>) -> Result<Seq<u8>, VerifyError> {
    match r {
        Ok(a) => Ok(a@),
        Err(e) => Err(e),
    }
}

/// Recovers the address that signed `challenge` with the hex signature text
/// `signature`. The challenge is always the configured one, never the visitor's.
pub fn recover(challenge: &[u8], signature: &str) -> (r: Result<[u8; 20], VerifyError>)
    ensures
        recovered_view(r) == recovered(challenge@, signature@),
{
    match parse_signature(signature) {
        None => Err(VerifyError::MalformedSignature),
        Some(b) => match recover_signer(&b, challenge) {
            None => Err(VerifyError::RecoveryFailed),
            Some(a) => Ok(a),
        },
    }
}

} // verus!
