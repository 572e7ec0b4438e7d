//! The signing identity: a key pair that signs messages and names its holder.

use sessionless::hex::IntoHex;
use vstd::prelude::*;

verus! {

/// `sessionless::Sessionless`: a secp256k1 context with a private and a public
/// key. Its fields are private to its crate.
#[verifier::external_type_specification]
#[verifier::external_body]
pub struct ExSessionless(sessionless::Sessionless);

/// The hex text of the public key held by `identity`.
pub uninterp spec fn public_key_hex(identity: sessionless::Sessionless) -> Seq<char>;

/// The hex text of the signature that `identity` gives to `message`.
pub uninterp spec fn signature_hex(identity: sessionless::Sessionless, message: Seq<char>) -> Seq<
    char,
>;

/// `Sessionless::public_key`, hex-encoded by `IntoHex::to_hex`: the compressed
/// public key of the context as lower-case hex. It depends on the context alone.
#[verifier::external_body]
pub(crate) fn identifier_of(identity: &sessionless::Sessionless) -> (r: String)
    ensures
        r@ == public_key_hex(*identity),
{
    identity.public_key().to_hex()
}

/// `Sessionless::sign`, hex-encoded by `IntoHex::to_hex`: the compact ECDSA
/// signature over the Keccak-256 digest of the message. The nonce is derived
/// from key and digest, so the result depends on the context and the message
/// alone.
#[verifier::external_body]
pub(crate) fn sign_text(identity: &sessionless::Sessionless, message: &str) -> (r: String)
    ensures
        r@ == signature_hex(*identity, message@),
{
    identity.sign(message).to_hex()
}

} // verus!
