//! The balance statement: the predicate a proof attests to.  It holds of a
//! witness exactly when the address is a valid mainnet address, every
//! output carries a well-formed transaction id, no outpoint occurs twice,
//! and the summed amounts fit in 64 bits and reach the threshold.

use vstd::prelude::*;

use crate::address::{address_class, address_script, classify_address, script_of_address, AddressClass};
use crate::types::{BalanceInput, UTXO};

verus! {

/// An ASCII hexadecimal digit.
pub open spec fn is_hex_char(c: char) -> bool {
    let u = c as u32;
    (48 <= u && u <= 57) || (97 <= u && u <= 102) || (65 <= u && u <= 70)
}

/// A well-formed transaction id: a 32-byte hash written as exactly 64
/// hexadecimal characters.
pub open spec fn txid_ok(t: Seq<char>) -> bool {
    t.len() == 64 && forall|i: int| 0 <= i < t.len() ==> is_hex_char(#[trigger] t[i])
}

/// Every output in the set carries a well-formed transaction id.
pub open spec fn utxos_wf(s: Seq<UTXO>) -> bool {
    forall|i: int| 0 <= i < s.len() ==> txid_ok(#[trigger] s[i].txid@)
}

/// Two outputs name the same outpoint: same transaction id, same index.
pub open spec fn same_outpoint(a: UTXO, b: UTXO) -> bool {
    a.txid@ == b.txid@ && a.vout == b.vout
}

/// No outpoint occurs twice in the set; a duplicate would let one output
/// count twice toward the total.
pub open spec fn outpoints_unique(s: Seq<UTXO>) -> bool {
    forall|i: int, j: int|
        0 <= i < j < s.len() ==> !same_outpoint(#[trigger] s[i], #[trigger] s[j])
}

/// Every output in the set is locked by `script`: with `script` derived
/// from the witness's address, each output is genuinely controlled by
/// that address, and an output locked to any other script fails the
/// statement.
pub open spec fn utxos_owned(s: Seq<UTXO>, script: Seq<u8>) -> bool {
    forall|i: int| 0 <= i < s.len() ==> (#[trigger] s[i].script_pubkey@) == script
}

/// The exact amount the set holds, as an unbounded integer.
pub open spec fn sum_amounts(s: Seq<UTXO>) -> int
    decreases s.len(),
{
    if s.len() == 0 {
        0
    } else {
        sum_amounts(s.drop_last()) + s.last().amount
    }
}

/// A prefix never sums to more than the whole set: amounts are unsigned.
pub proof fn lemma_sum_prefix(s: Seq<UTXO>, i: int)
    requires
        0 <= i <= s.len(),
    ensures
        sum_amounts(s.take(i)) <= sum_amounts(s),
    decreases s.len() - i,
{
    if i == s.len() {
        assert(s.take(i) =~= s);
    } else {
        lemma_sum_prefix(s, i + 1);
        assert(s.take(i + 1).drop_last() =~= s.take(i));
        assert(s.take(i + 1).last() == s[i]);
    }
}

/// The balance statement itself.  A proof artifact exists for a witness
/// exactly when this predicate holds of it.
pub open spec fn statement_holds(w: BalanceInput) -> bool {
    &&& address_class(w.address@) != AddressClass::Invalid
    &&& utxos_wf(w.utxo_set@)
    &&& utxos_owned(w.utxo_set@, address_script(w.address@))
    &&& outpoints_unique(w.utxo_set@)
    &&& sum_amounts(w.utxo_set@) <= u64::MAX
    &&& w.threshold_amount <= sum_amounts(w.utxo_set@)
}

/// Whether `s` is exactly 64 hexadecimal characters.
fn check_txid(s: &str) -> (r: bool)
    ensures
        r == txid_ok(s@),
{
    let n = s.unicode_len();
    if n != 64 {
        return false;
    }
    let mut i: usize = 0;
    while i < 64
        invariant
            s@.len() == 64,
            0 <= i <= 64,
            forall|k: int| 0 <= k < i ==> is_hex_char(#[trigger] s@[k]),
        decreases 64 - i,
    {
        let u = s.get_char(i) as u32;
        if !((48 <= u && u <= 57) || (97 <= u && u <= 102) || (65 <= u && u <= 70)) {
            assert(!is_hex_char(s@[i as int]));
            return false;
        }
        i = i + 1;
    }
    true
}

/// Character-for-character string equality.
fn str_eq(a: &str, b: &str) -> (r: bool)
    ensures
        r == (a@ == b@),
{
    let n = a.unicode_len();
    if n != b.unicode_len() {
        return false;
    }
    let mut i: usize = 0;
    while i < n
        invariant
            a@.len() == n,
            b@.len() == n,
            0 <= i <= n,
            forall|k: int| 0 <= k < i ==> a@[k] == b@[k],
        decreases n - i,
    {
        if a.get_char(i) != b.get_char(i) {
            assert(a@[i as int] != b@[i as int]);
            return false;
        }
        i = i + 1;
    }
    assert(a@ =~= b@);
    true
}

/// Byte-for-byte equality of two byte strings.
fn bytes_eq(a: &[u8], b: &[u8]) -> (r: bool)
    ensures
        r == (a@ == b@),
{
    let n = a.len();
    if n != b.len() {
        return false;
    }
    let mut i: usize = 0;
    while i < n
        invariant
            a@.len() == n,
            b@.len() == n,
            0 <= i <= n,
            forall|k: int| 0 <= k < i ==> a@[k] == b@[k],
        decreases n - i,
    {
        if a[i] != b[i] {
            assert(a@[i as int] != b@[i as int]);
            return false;
        }
        i = i + 1;
    }
    assert(a@ =~= b@);
    true
}

/// Whether every output in the set is locked by exactly `script`.
fn check_owned(utxos: &Vec<UTXO>, script: &Vec<u8>) -> (r: bool)
    ensures
        r == utxos_owned(utxos@, script@),
{
    let n = utxos.len();
    let mut i: usize = 0;
    while i < n
        invariant
            n == utxos@.len(),
            0 <= i <= n,
            forall|k: int| 0 <= k < i ==> (#[trigger] utxos@[k].script_pubkey@) == script@,
        decreases n - i,
    {
        if !bytes_eq(utxos[i].script_pubkey.as_slice(), script.as_slice()) {
            return false;
        }
        i = i + 1;
    }
    true
}

/// Whether two outputs name the same outpoint.
fn outpoint_eq(a: &UTXO, b: &UTXO) -> (r: bool)
    ensures
        r == same_outpoint(*a, *b),
{
    str_eq(a.txid.as_str(), b.txid.as_str()) && a.vout == b.vout
}

/// Whether some outpoint occurs twice in the set.
fn has_duplicate_outpoint(utxos: &Vec<UTXO>) -> (r: bool)
    ensures
        r == !outpoints_unique(utxos@),
{
    let n = utxos.len();
    let mut i: usize = 0;
    while i < n
        invariant
            n == utxos@.len(),
            0 <= i <= n,
            forall|p: int, q: int|
                0 <= p < q < n && p < i ==> !same_outpoint(#[trigger] utxos@[p], #[trigger] utxos@[q]),
        decreases n - i,
    {
        let mut j: usize = i + 1;
        while j < n
            invariant
                n == utxos@.len(),
                0 <= i < j <= n,
                forall|q: int| i < q < j ==> !same_outpoint(utxos@[i as int], #[trigger] utxos@[q]),
            decreases n - j,
        {
            if outpoint_eq(&utxos[i], &utxos[j]) {
                assert(same_outpoint(utxos@[i as int], utxos@[j as int]));
                return true;
            }
            j = j + 1;
        }
        i = i + 1;
    }
    false
}

/// Whether every output in the set carries a well-formed transaction id.
fn check_utxos_wf(utxos: &Vec<UTXO>) -> (r: bool)
    ensures
        r == utxos_wf(utxos@),
{
    let n = utxos.len();
    let mut i: usize = 0;
    while i < n
        invariant
            n == utxos@.len(),
            0 <= i <= n,
            forall|k: int| 0 <= k < i ==> txid_ok(#[trigger] utxos@[k].txid@),
        decreases n - i,
    {
        if !check_txid(utxos[i].txid.as_str()) {
            return false;
        }
        i = i + 1;
    }
    true
}

/// Sum the amounts, reporting overflow of 64 bits as `None` rather than a
/// wrapped or saturated value: a total beyond 64 bits cannot be a real
/// balance, and the statement must fail on it.
fn sum_with_check(utxos: &Vec<UTXO>) -> (r: Option<u64>)
    ensures
        r is Some <==> sum_amounts(utxos@) <= u64::MAX,
        r is Some ==> r->0 == sum_amounts(utxos@),
{
    let n = utxos.len();
    let mut total: u64 = 0;
    let mut i: usize = 0;
    while i < n
        invariant
            n == utxos@.len(),
            0 <= i <= n,
            total == sum_amounts(utxos@.take(i as int)),
        decreases n - i,
    {
        let amt = utxos[i].amount;
        proof {
            assert(utxos@.take(i + 1).drop_last() =~= utxos@.take(i as int));
            assert(utxos@.take(i + 1).last() == utxos@[i as int]);
        }
        if amt > u64::MAX - total {
            proof {
                lemma_sum_prefix(utxos@, i + 1);
            }
            return None;
        }
        total = total + amt;
        i = i + 1;
    }
    proof {
        assert(utxos@.take(n as int) =~= utxos@);
    }
    Some(total)
}

/// Evaluate the balance statement against a witness.
///
/// Returns the threshold to commit publicly exactly when the statement
/// holds; on any failure — malformed address, malformed or duplicated
/// output, an output locked to a script other than the address's,
/// overflowing total, or a total below the threshold — returns `None`,
/// and no artifact can be built.
pub fn eval_statement(w: &BalanceInput) -> (r: Option<u64>)
    ensures
        r == if statement_holds(*w) {
            Some(w.threshold_amount)
        } else {
            None::<u64>
        },
{
    if classify_address(w.address.as_str()) == AddressClass::Invalid {
        return None;
    }
    if !check_utxos_wf(&w.utxo_set) {
        return None;
    }
    let script = script_of_address(w.address.as_str());
    if !check_owned(&w.utxo_set, &script) {
        return None;
    }
    if has_duplicate_outpoint(&w.utxo_set) {
        return None;
    }
    match sum_with_check(&w.utxo_set) {
        None => None,
        Some(total) => {
            if total < w.threshold_amount {
                None
            } else {
                Some(w.threshold_amount)
            }
        },
    }
}

} // verus!
