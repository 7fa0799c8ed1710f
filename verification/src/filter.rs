//! Filter sets: which transactions a subscription asks for, by the accounts
//! that a transaction touches.

use crate::address::Address;
use vstd::prelude::*;

verus! {

/// A filter set over account addresses.
///
/// A transaction touches an address when the address is among its account
/// keys. It matches the filter set when it touches none of the excluded
/// addresses, all of the required ones, and, unless that list is empty, one
/// of `account_include`. A filter set with three empty lists matches
/// nothing.
#[derive(Debug, PartialEq, Eq)]
pub struct FilterSet {
    pub account_include: Vec<Address>,
    pub account_exclude: Vec<Address>,
    pub account_required: Vec<Address>,
}

/// A filter set as three lists of byte strings.
pub struct FilterModel {
    pub account_include: Seq<Seq<u8>>,
    pub account_exclude: Seq<Seq<u8>>,
    pub account_required: Seq<Seq<u8>>,
}

/// The byte strings of a list of addresses.
pub open spec fn address_bytes(addresses: Seq<Address>) -> Seq<Seq<u8>> {
    Seq::new(addresses.len(), |i: int| addresses[i]@)
}

/// The byte strings of a list of account keys.
pub open spec fn key_bytes(keys: Seq<Vec<u8>>) -> Seq<Seq<u8>> {
    Seq::new(keys.len(), |i: int| keys[i]@)
}

/// Some address of `addresses` is among `keys`.
pub open spec fn touches_any(keys: Seq<Seq<u8>>, addresses: Seq<Seq<u8>>) -> bool {
    exists|i: int| 0 <= i < addresses.len() && keys.contains(#[trigger] addresses[i])
}

/// Every address of `addresses` is among `keys`.
pub open spec fn touches_all(keys: Seq<Seq<u8>>, addresses: Seq<Seq<u8>>) -> bool {
    forall|i: int| 0 <= i < addresses.len() ==> keys.contains(#[trigger] addresses[i])
}

impl FilterModel {
    /// All three lists are empty.
    pub open spec fn is_vacuous(self) -> bool {
        &&& self.account_include.len() == 0
        &&& self.account_exclude.len() == 0
        &&& self.account_required.len() == 0
    }

    /// A transaction with the account keys `keys` matches the filter set.
    pub open spec fn matches(self, keys: Seq<Seq<u8>>) -> bool {
        &&& !self.is_vacuous()
        &&& !touches_any(keys, self.account_exclude)
        &&& touches_all(keys, self.account_required)
        &&& (self.account_include.len() == 0 || touches_any(keys, self.account_include))
    }
}

impl View for FilterSet {
    type V = FilterModel;

    open spec fn view(&self) -> FilterModel {
        FilterModel {
            account_include: address_bytes(self.account_include@),
            account_exclude: address_bytes(self.account_exclude@),
            account_required: address_bytes(self.account_required@),
        }
    }
}

/// Whether `address` is among `keys`.
fn touches(keys: &[Vec<u8>], address: &Address) -> (found: bool)
    ensures
        found == key_bytes(keys@).contains(address@),
{
    let mut i: usize = 0;
    while i < keys.len()
        invariant
            i <= keys@.len(),
            forall|j: int| 0 <= j < i ==> key_bytes(keys@)[j] != address@,
        decreases keys@.len() - i,
    {
        if address.is_key(keys[i].as_slice()) {
            assert(key_bytes(keys@)[i as int] == address@);
            return true;
        }
        i += 1;
    }
    false
}

/// Whether some address of `addresses` is among `keys`.
fn any_touched(keys: &[Vec<u8>], addresses: &Vec<Address>) -> (found: bool)
    ensures
        found == touches_any(key_bytes(keys@), address_bytes(addresses@)),
{
    let mut i: usize = 0;
    while i < addresses.len()
        invariant
            i <= addresses@.len(),
            forall|j: int|
                0 <= j < i ==> !key_bytes(keys@).contains(#[trigger] address_bytes(addresses@)[j]),
        decreases addresses@.len() - i,
    {
        if touches(keys, &addresses[i]) {
            assert(key_bytes(keys@).contains(address_bytes(addresses@)[i as int]));
            return true;
        }
        i += 1;
    }
    false
}

/// Whether every address of `addresses` is among `keys`.
fn all_touched(keys: &[Vec<u8>], addresses: &Vec<Address>) -> (all: bool)
    ensures
        all == touches_all(key_bytes(keys@), address_bytes(addresses@)),
{
    let mut i: usize = 0;
    while i < addresses.len()
        invariant
            i <= addresses@.len(),
            forall|j: int|
                0 <= j < i ==> key_bytes(keys@).contains(#[trigger] address_bytes(addresses@)[j]),
        decreases addresses@.len() - i,
    {
        if !touches(keys, &addresses[i]) {
            assert(!key_bytes(keys@).contains(address_bytes(addresses@)[i as int]));
            return false;
        }
        i += 1;
    }
    true
}

impl FilterSet {
    /// Whether all three lists are empty, so that the filter set matches
    /// nothing.
    pub fn is_vacuous(&self) -> (vacuous: bool)
        ensures
            vacuous == self@.is_vacuous(),
    {
        self.account_include.len() == 0 && self.account_exclude.len() == 0
            && self.account_required.len() == 0
    }

    /// Whether a transaction with the account keys `keys` matches.
    pub fn matches(&self, keys: &[Vec<u8>]) -> (matched: bool)
        ensures
            matched == self@.matches(key_bytes(keys@)),
    {
        !self.is_vacuous() && !any_touched(keys, &self.account_exclude) && all_touched(
            keys,
            &self.account_required,
        ) && (self.account_include.len() == 0 || any_touched(keys, &self.account_include))
    }
}

/// A filter set with three empty lists matches no transaction.
pub proof fn lemma_vacuous_matches_nothing(filter: FilterModel, keys: Seq<Seq<u8>>)
    requires
        filter.is_vacuous(),
    ensures
        !filter.matches(keys),
{
}

/// An excluded address that the transaction touches rejects it, whatever
/// the other two lists hold.
pub proof fn lemma_exclude_overrides(filter: FilterModel, keys: Seq<Seq<u8>>, i: int)
    requires
        0 <= i < filter.account_exclude.len(),
        keys.contains(filter.account_exclude[i]),
    ensures
        !filter.matches(keys),
{
}

} // verus!
