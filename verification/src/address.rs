//! Address classification: what the statement and the ownership check
//! read of a Bitcoin address string, computed by the bitcoin crate.

use vstd::prelude::*;

verus! {

/// What an address string is to this library: not an address at all, a
/// mainnet pay-to-pubkey-hash address (the one kind whose ownership
/// signature check is implemented), or some other valid mainnet address.
#[derive(Clone, Copy, Debug, PartialEq, Eq, Structural)]
pub enum AddressClass {
    Invalid,
    P2pkh,
    Other,
}

/// How `s` classifies as a mainnet Bitcoin address; a function of the
/// string alone.
pub uninterp spec fn address_class(s: Seq<char>) -> AddressClass;

/// The locking script a mainnet address string derives; a function of the
/// string alone.
pub uninterp spec fn address_script(s: Seq<char>) -> Seq<u8>;

/// Relies on bitcoin::Address::script_pubkey (with FromStr and
/// require_network converting the argument): the locking script derived
/// from a mainnet address string; empty where the string is no valid
/// mainnet address, which the statement never compares against, since it
/// first requires the address to classify as valid.
#[verifier::external_body]
pub(crate) fn script_of_address(s: &str) -> (r: Vec<u8>)
    ensures
        r@ == address_script(s@),
{
    let parsed = match s.parse::<bitcoin::Address<bitcoin::address::NetworkUnchecked>>() {
        Ok(a) => a,
        Err(_) => return Vec::new(),
    };
    match parsed.require_network(bitcoin::Network::Bitcoin) {
        Ok(a) => a.script_pubkey().into_bytes(),
        Err(_) => Vec::new(),
    }
}

/// Relies on bitcoin::Address's FromStr together with
/// Address::require_network and Address::address_type: parses `s`,
/// requires the mainnet network, and reports whether the result is a
/// pay-to-pubkey-hash address.
#[verifier::external_body]
pub(crate) fn classify_address(s: &str) -> (r: AddressClass)
    ensures
        r == address_class(s@),
{
    let parsed = match s.parse::<bitcoin::Address<bitcoin::address::NetworkUnchecked>>() {
        Ok(a) => a,
        Err(_) => return AddressClass::Invalid,
    };
    match parsed.require_network(bitcoin::Network::Bitcoin) {
        Ok(a) => match a.address_type() {
            Some(bitcoin::AddressType::P2pkh) => AddressClass::P2pkh,
            _ => AddressClass::Other,
        },
        Err(_) => AddressClass::Invalid,
    }
}

} // verus!
