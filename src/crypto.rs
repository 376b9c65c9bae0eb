use vstd::prelude::*;
use vstd::string::StringSliceAdditionalSpecFns;

verus! {

/// nacl's error value, returned by `nacl::sign::verify` and carried opaquely.
#[verifier::external_type_specification]
#[verifier::external_body]
pub struct ExNaclError(nacl::Error);

/// Whether the Ed25519 check of `sig` over `msg` under the 32-byte key `pk`
/// accepts: what `nacl::sign::verify` returns in `Ok`.
pub uninterp spec fn ed25519_accepts(sig: Seq<u8>, msg: Seq<u8>, pk: Seq<u8>) -> bool;

/// Relies on nacl::sign::verify: it fails exactly when the key is not 32
/// bytes long, answers `false` for a signature shorter than 64 bytes, and
/// otherwise answers the Ed25519 check.
#[verifier::external_body]
fn nacl_verify(sig: &[u8], msg: &[u8], pk: &[u8]) -> (r: Result<bool, nacl::Error>)
    ensures
        r.is_err() == (pk@.len() != 32),
        match r {
            Ok(v) => v == ed25519_accepts(sig@, msg@, pk@) && (sig@.len() < 64 ==> !v),
            Err(_) => true,
        },
{
    nacl::sign::verify(sig, msg, pk)
}

/// The verdict of a detached signature check over raw bytes: an evaluation
/// error (a key of the wrong length) counts as a rejection.
pub open spec fn verdict_spec(sig: Seq<u8>, msg: Seq<u8>, pk: Seq<u8>) -> bool {
    pk.len() == 32 && ed25519_accepts(sig, msg, pk)
}

/// Checks `sig` over `msg` under `pk`, folding an evaluation error into
/// `false`.
pub fn verify_detached(sig: &[u8], msg: &[u8], pk: &[u8]) -> (r: bool)
    ensures
        r == verdict_spec(sig@, msg@, pk@),
        pk@.len() != 32 ==> !r,
        sig@.len() < 64 ==> !r,
{
    match nacl_verify(sig, msg, pk) {
        Ok(v) => v,
        Err(_) => false,
    }
}

/// Checks a signature carried as text: the bytes of `signature`, `payload`
/// and `pub_key` are handed to the check as they stand.
pub fn verify_text(signature: &str, payload: &str, pub_key: &str) -> (r: bool)
    ensures
        r == verdict_spec(signature.spec_bytes(), payload.spec_bytes(), pub_key.spec_bytes()),
{
    verify_detached(signature.as_bytes(), payload.as_bytes(), pub_key.as_bytes())
}

} // verus!
