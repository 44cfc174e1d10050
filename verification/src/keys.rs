//! The key material that the library carries but never looks into.
//!
//! Public keys, signatures and the session key pair are values of the `nostr`
//! crate. The library moves them around and hands them back to that crate;
//! what is said about them here is believed, not proved.

use nostr::secp256k1::schnorr::Signature;
use nostr::secp256k1::XOnlyPublicKey;
use nostr::Keys;
use vstd::prelude::*;

verus! {

/// `nostr::secp256k1::XOnlyPublicKey`: a public key, carried as it is.
#[verifier::external_type_specification]
#[verifier::external_body]
pub struct ExXOnlyPublicKey(XOnlyPublicKey);

/// `nostr::secp256k1::schnorr::Signature`: a signature, carried as it is.
#[verifier::external_type_specification]
#[verifier::external_body]
pub struct ExSignature(Signature);

/// `nostr::Keys`: a key pair, or a public key alone, carried as it is.
#[verifier::external_type_specification]
#[verifier::external_body]
pub struct ExKeys(Keys);

/// The public half of a key pair, as `nostr::Keys::public_key` returns it.
pub uninterp spec fn public_key_of(keys: Keys) -> XOnlyPublicKey;

/// `nostr::Keys::public_key` reads the stored public key: the same key pair
/// always gives the same public key.
pub assume_specification[ Keys::public_key ](keys: &Keys) -> (res: XOnlyPublicKey)
    ensures
        res == public_key_of(*keys),
;

/// Whether a key pair holds its secret key, so that `nostr::Keys::secret_key`
/// gives one. A pair made from a public key alone holds none.
pub uninterp spec fn has_secret_key(keys: Keys) -> bool;

/// `nostr::Keys::generate` draws a secret key from the system's random source
/// and makes the pair from it. Nothing is said of which key it is, only that
/// the pair holds it.
pub assume_specification[ Keys::generate ]() -> (res: Keys)
    ensures
        has_secret_key(res),
;

/// `Keys` derives `Clone` over plain key data: the copy is the same key pair.
pub assume_specification[ <Keys as Clone>::clone ](keys: &Keys) -> (res: Keys)
    ensures
        res == *keys,
;

/// A public key is plain data that is copied bit by bit: the copy is the same
/// key.
pub assume_specification[ <XOnlyPublicKey as Clone>::clone ](key: &XOnlyPublicKey) -> (res:
    XOnlyPublicKey)
    ensures
        res == *key,
;

/// A signature is plain data that is copied bit by bit: the copy is the same
/// signature.
pub assume_specification[ <Signature as Clone>::clone ](signature: &Signature) -> (res: Signature)
    ensures
        res == *signature,
;

/// The `npub` text of a public key: what `to_bech32` gives for it, or the
/// empty text where the encoder fails.
pub uninterp spec fn npub_of(key: XOnlyPublicKey) -> Seq<char>;

/// Calls `nostr::nips::nip19::ToBech32::to_bech32` on the key. The encoding is
/// a function of the key alone; an encoder failure is turned into the empty
/// text.
#[verifier::external_body]
pub(crate) fn key_to_bech32(key: &XOnlyPublicKey) -> (res: String)
    ensures
        res@ == npub_of(*key),
{
    nostr::nips::nip19::ToBech32::to_bech32(key).unwrap_or_default()
}

} // verus!
