//! The ownership check that runs before any proving work: a recoverable
//! signature over a canonical challenge message must prove control of the
//! key behind the supplied address.

use vstd::prelude::*;

use crate::address::{address_class, classify_address, AddressClass};
use crate::types::OwnershipError;

verus! {

/// The canonical domain-separated challenge that an ownership signature
/// must sign.  Fixed for the lifetime of the protocol.
pub open spec fn spec_challenge() -> Seq<char> {
    "balance-proof ownership challenge v1"@
}

/// The challenge string handed to signers; its view is `spec_challenge()`.
pub fn challenge_message() -> (r: &'static str)
    ensures
        r@ == spec_challenge(),
{
    "balance-proof ownership challenge v1"
}

/// Whether `sig` is a valid recoverable signature over Bitcoin's
/// message-signing hash of `msg` by the key behind the pay-to-pubkey-hash
/// address `addr`; a function of the three strings alone.
pub uninterp spec fn p2pkh_signature_valid(addr: Seq<char>, sig: Seq<char>, msg: Seq<char>) -> bool;

/// Relies on bitcoin::sign_message::MessageSignature::is_signed_by_address,
/// with MessageSignature::from_base64 and signed_msg_hash converting the
/// arguments; every failure along the way counts as an invalid signature.
#[verifier::external_body]
fn check_p2pkh_signature(addr: &str, sig: &str, msg: &str) -> (r: bool)
    ensures
        r == p2pkh_signature_valid(addr@, sig@, msg@),
{
    let a = match addr.parse::<bitcoin::Address<bitcoin::address::NetworkUnchecked>>() {
        Ok(a) => match a.require_network(bitcoin::Network::Bitcoin) {
            Ok(a) => a,
            Err(_) => return false,
        },
        Err(_) => return false,
    };
    let s = match bitcoin::sign_message::MessageSignature::from_base64(sig) {
        Ok(s) => s,
        Err(_) => return false,
    };
    let secp = bitcoin::secp256k1::Secp256k1::verification_only();
    let h = bitcoin::sign_message::signed_msg_hash(msg);
    s.is_signed_by_address(&secp, &a, h).unwrap_or(false)
}

/// Ownership of `addr` is established by `sig`: the address is a mainnet
/// pay-to-pubkey-hash address and the signature signs the canonical
/// challenge with its key.
pub open spec fn ownership_holds(addr: Seq<char>, sig: Seq<char>) -> bool {
    address_class(addr) == AddressClass::P2pkh && p2pkh_signature_valid(
        addr,
        sig,
        spec_challenge(),
    )
}

/// The outcome the ownership check owes for every pair of inputs.
pub open spec fn spec_verify_ownership(addr: Seq<char>, sig: Seq<char>) -> Result<
    (),
    OwnershipError,
> {
    if address_class(addr) == AddressClass::Invalid {
        Err(OwnershipError::MalformedAddress)
    } else if address_class(addr) != AddressClass::P2pkh {
        Err(OwnershipError::UnsupportedAddressType)
    } else if !p2pkh_signature_valid(addr, sig, spec_challenge()) {
        Err(OwnershipError::InvalidSignature)
    } else {
        Ok(())
    }
}

/// Check that `signature` proves control of the key behind `address`.
///
/// Fails fast and purely: a malformed address is rejected before any
/// cryptography, an address kind without an implemented check is reported
/// as unsupported, and a cryptographic mismatch as an invalid signature.
pub fn verify_bitcoin_signature(address: &str, signature: &str) -> (r: Result<(), OwnershipError>)
    ensures
        r == spec_verify_ownership(address@, signature@),
        r is Ok <==> ownership_holds(address@, signature@),
{
    match classify_address(address) {
        AddressClass::Invalid => Err(OwnershipError::MalformedAddress),
        AddressClass::Other => Err(OwnershipError::UnsupportedAddressType),
        AddressClass::P2pkh => {
            if check_p2pkh_signature(address, signature, challenge_message()) {
                Ok(())
            } else {
                Err(OwnershipError::InvalidSignature)
            }
        },
    }
}

} // verus!
