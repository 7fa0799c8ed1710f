//! The filter registry: the named filter sets that a subscription wants
//! active. Each declaration answers with the control message that carries
//! all of them to the server.

use crate::address::{address_error, is_address_text, Address, AddressError};
use crate::base58::decoded;
use crate::filter::{address_bytes, key_bytes, FilterModel, FilterSet};
use crate::mapping::{
    any_matches, declared, has_name, lemma_declared_valid, lemma_position_unique, message_of,
    valid_mapping, Mapping,
};
use crate::message::{
    all_address_texts, decoded_all, filter_of, texts, ControlMessage, NamedWireFilter,
};
use vstd::prelude::*;

verus! {

/// One of the three address lists of a filter declaration.
#[derive(Clone, Copy, Debug, PartialEq, Eq)]
pub enum AddressList {
    AccountInclude,
    AccountExclude,
    AccountRequired,
}

/// Why a filter declaration was refused. A refused declaration changes
/// nothing and sends nothing.
#[derive(Clone, Copy, Debug, PartialEq, Eq)]
pub enum InvalidFilterError {
    /// The filter name is empty.
    EmptyName,
    /// The text at `index` of `list` is not the base-58 text of an
    /// address, for the reason given; the texts before it, and the lists
    /// before `list`, are.
    MalformedAddress { list: AddressList, index: usize, reason: AddressError },
    /// All three lists are empty: the filter set would match nothing.
    NoConstraint,
}

/// The text at `index` is the first of the list that is not the base-58
/// text of an address.
pub open spec fn first_malformed(texts: Seq<Seq<char>>, index: int) -> bool {
    &&& 0 <= index < texts.len()
    &&& !is_address_text(texts[index])
    &&& forall|i: int| 0 <= i < index ==> is_address_text(#[trigger] texts[i])
}

/// The position of the first text of the list that is not the base-58 text
/// of an address.
pub open spec fn first_malformed_index(texts: Seq<Seq<char>>) -> int {
    choose|index: int| first_malformed(texts, index)
}

/// The error for a list whose first malformed text stands at some
/// position.
pub open spec fn malformed(list: AddressList, texts: Seq<Seq<char>>) -> InvalidFilterError {
    InvalidFilterError::MalformedAddress {
        list,
        index: first_malformed_index(texts) as usize,
        reason: address_error(texts[first_malformed_index(texts)]),
    }
}

/// Why a declaration with these arguments is refused, and `None` where it
/// is accepted. The name is looked at first, then the three lists in the
/// order of the parameters, then whether any list holds anything.
pub open spec fn refusal(
    name: Seq<char>,
    account_include: Seq<Seq<char>>,
    account_exclude: Seq<Seq<char>>,
    account_required: Seq<Seq<char>>,
) -> Option<InvalidFilterError> {
    if name.len() == 0 {
        Some(InvalidFilterError::EmptyName)
    } else if !all_address_texts(account_include) {
        Some(malformed(AddressList::AccountInclude, account_include))
    } else if !all_address_texts(account_exclude) {
        Some(malformed(AddressList::AccountExclude, account_exclude))
    } else if !all_address_texts(account_required) {
        Some(malformed(AddressList::AccountRequired, account_required))
    } else if account_include.len() == 0 && account_exclude.len() == 0 && account_required.len()
        == 0 {
        Some(InvalidFilterError::NoConstraint)
    } else {
        None
    }
}

/// Why a declaration of a filter set is refused, and `None` where it is
/// accepted.
pub open spec fn filter_refusal(name: Seq<char>, filter: FilterModel) -> Option<
    InvalidFilterError,
> {
    if name.len() == 0 {
        Some(InvalidFilterError::EmptyName)
    } else if filter.is_vacuous() {
        Some(InvalidFilterError::NoConstraint)
    } else {
        None
    }
}

/// The error of a result, if it is one.
pub open spec fn error_of<T>(result: Result<T, InvalidFilterError>) -> Option<InvalidFilterError> {
    match result {
        Ok(_) => None,
        Err(error) => Some(error),
    }
}

/// At most one text of a list is its first malformed one.
pub proof fn lemma_first_malformed_unique(texts: Seq<Seq<char>>, index: int)
    requires
        first_malformed(texts, index),
    ensures
        !all_address_texts(texts),
        first_malformed_index(texts) == index,
{
}

/// A declaration with three empty lists is refused under every name, so no
/// control message comes of it.
pub proof fn lemma_empty_lists_refused(name: Seq<char>)
    ensures
        refusal(name, Seq::empty(), Seq::empty(), Seq::empty()) is Some,
        filter_refusal(
            name,
            FilterModel {
                account_include: Seq::empty(),
                account_exclude: Seq::empty(),
                account_required: Seq::empty(),
            },
        ) is Some,
{
}

/// A filter set of the registry with its name.
#[derive(Debug)]
struct Entry {
    name: String,
    filter: FilterSet,
}

/// The named filter sets that a subscription wants active.
///
/// The registry is the one place that knows the wanted state. Every control
/// message carries all of it, so a name is replaced by declaring it again,
/// and taken away by starting a new registry without it.
#[derive(Debug)]
pub struct FilterRegistry {
    entries: Vec<Entry>,
}

impl View for FilterRegistry {
    type V = Mapping;

    /// The names and filter sets, in the order in which the names were
    /// first declared.
    closed spec fn view(&self) -> Mapping {
        Seq::new(self.entries@.len(), |i: int| (self.entries@[i].name@, self.entries@[i].filter@))
    }
}

/// The addresses that a list of base-58 texts stands for, or the position
/// of the first text that stands for none.
fn parse_addresses(strings: &[String]) -> (parsed: Result<Vec<Address>, (usize, AddressError)>)
    ensures
        match parsed {
            Ok(addresses) => all_address_texts(texts(strings@)) && address_bytes(addresses@)
                == decoded_all(texts(strings@)),
            Err((index, reason)) => first_malformed(texts(strings@), index as int) && reason
                == address_error(texts(strings@)[index as int]),
        },
{
    let mut addresses: Vec<Address> = Vec::new();
    let mut i: usize = 0;
    while i < strings.len()
        invariant
            i <= strings@.len(),
            addresses@.len() == i,
            forall|j: int| 0 <= j < i ==> is_address_text(#[trigger] texts(strings@)[j]),
            forall|j: int|
                0 <= j < i ==> decoded(texts(strings@)[j]) == Some((#[trigger] addresses@[j])@),
        decreases strings@.len() - i,
    {
        match Address::from_base58(strings[i].as_str()) {
            Ok(address) => {
                addresses.push(address);
            },
            Err(reason) => {
                return Err((i, reason));
            },
        }
        i += 1;
    }
    Ok(addresses)
}

impl FilterRegistry {
    #[verifier::type_invariant]
    spec fn well_formed(self) -> bool {
        valid_mapping(self@)
    }

    /// A registry without filter sets.
    pub fn new() -> (registry: FilterRegistry)
        ensures
            registry@ == Mapping::empty(),
    {
        FilterRegistry { entries: Vec::new() }
    }

    /// The number of named filter sets.
    pub fn len(&self) -> (len: usize)
        ensures
            len == self@.len(),
    {
        self.entries.len()
    }

    /// The position of the entry with the name `name`.
    fn find(&self, name: &String) -> (position: Option<usize>)
        ensures
            match position {
                Some(index) => index < self@.len() && self@[index as int].0 == name@,
                None => !has_name(self@, name@),
            },
    {
        let mut i: usize = 0;
        while i < self.entries.len()
            invariant
                i <= self.entries@.len(),
                forall|j: int| 0 <= j < i ==> (#[trigger] self@[j]).0 != name@,
            decreases self.entries@.len() - i,
        {
            if self.entries[i].name == *name {
                return Some(i);
            }
            i += 1;
        }
        None
    }

    /// The control message for the registry as it is: every named filter
    /// set, and no request type.
    pub fn message(&self) -> (message: ControlMessage)
        ensures
            valid_mapping(self@),
            message@ == message_of(self@),
            message.request_type is None,
    {
        proof {
            use_type_invariant(self);
        }
        let mut transactions: Vec<NamedWireFilter> = Vec::new();
        let mut i: usize = 0;
        while i < self.entries.len()
            invariant
                i <= self.entries@.len(),
                transactions@.len() == i,
                forall|j: int| 0 <= j < i ==> (#[trigger] transactions@[j])@ == message_of(self@)[j],
            decreases self.entries@.len() - i,
        {
            let entry = &self.entries[i];
            transactions.push(
                NamedWireFilter { name: entry.name.clone(), filter: entry.filter.to_wire() },
            );
            i += 1;
        }
        ControlMessage { transactions, request_type: None }
    }

    /// Declares `filter` under `name`, and returns the control message that
    /// carries the registry after it. A name that is declared again has its
    /// filter set replaced.
    pub fn declare_filter(&mut self, name: &str, filter: FilterSet) -> (result: Result<
        ControlMessage,
        InvalidFilterError,
    >)
        ensures
            error_of(result) == filter_refusal(name@, filter@),
            valid_mapping(final(self)@),
            match result {
                Ok(message) => {
                    &&& final(self)@ == declared(old(self)@, name@, filter@)
                    &&& message@ == message_of(final(self)@)
                    &&& message.request_type is None
                },
                Err(_) => final(self)@ == old(self)@,
            },
    {
        proof {
            use_type_invariant(&*self);
        }
        if name.is_empty() {
            return Err(InvalidFilterError::EmptyName);
        }
        if filter.is_vacuous() {
            return Err(InvalidFilterError::NoConstraint);
        }
        let owned = name.to_owned();
        let position = self.find(&owned);
        let ghost before = self@;
        let ghost model = filter@;
        proof {
            lemma_declared_valid(before, name@, model);
        }
        let mut entries: Vec<Entry> = Vec::new();
        std::mem::swap(&mut entries, &mut self.entries);
        match position {
            Some(index) => {
                proof {
                    lemma_position_unique(before, name@, index as int);
                }
                entries.set(index, Entry { name: owned, filter });
            },
            None => {
                entries.push(Entry { name: owned, filter });
            },
        }
        assert(Seq::new(entries@.len(), |i: int| (entries@[i].name@, entries@[i].filter@))
            =~= declared(before, name@, model));
        self.entries = entries;
        Ok(self.message())
    }

    /// Declares under `name` the filter set that the three lists of
    /// base-58 address texts describe, and returns the control message that
    /// carries the registry after it. A declaration with an empty name, with
    /// a text that is no address, or with three empty lists is refused.
    pub fn declare(
        &mut self,
        name: &str,
        account_include: &[String],
        account_exclude: &[String],
        account_required: &[String],
    ) -> (result: Result<ControlMessage, InvalidFilterError>)
        ensures
            error_of(result) == refusal(
                name@,
                texts(account_include@),
                texts(account_exclude@),
                texts(account_required@),
            ),
            valid_mapping(final(self)@),
            match result {
                Ok(message) => {
                    &&& final(self)@ == declared(
                        old(self)@,
                        name@,
                        filter_of(
                            texts(account_include@),
                            texts(account_exclude@),
                            texts(account_required@),
                        ),
                    )
                    &&& message@ == message_of(final(self)@)
                    &&& message.request_type is None
                },
                Err(_) => final(self)@ == old(self)@,
            },
    {
        proof {
            use_type_invariant(&*self);
        }
        if name.is_empty() {
            return Err(InvalidFilterError::EmptyName);
        }
        let included = match parse_addresses(account_include) {
            Ok(addresses) => addresses,
            Err((index, reason)) => {
                proof {
                    lemma_first_malformed_unique(texts(account_include@), index as int);
                }
                return Err(
                    InvalidFilterError::MalformedAddress { list: AddressList::AccountInclude, index, reason },
                );
            },
        };
        let excluded = match parse_addresses(account_exclude) {
            Ok(addresses) => addresses,
            Err((index, reason)) => {
                proof {
                    lemma_first_malformed_unique(texts(account_exclude@), index as int);
                }
                return Err(
                    InvalidFilterError::MalformedAddress { list: AddressList::AccountExclude, index, reason },
                );
            },
        };
        let required = match parse_addresses(account_required) {
            Ok(addresses) => addresses,
            Err((index, reason)) => {
                proof {
                    lemma_first_malformed_unique(texts(account_required@), index as int);
                }
                return Err(
                    InvalidFilterError::MalformedAddress { list: AddressList::AccountRequired, index, reason },
                );
            },
        };
        let filter = FilterSet {
            account_include: included,
            account_exclude: excluded,
            account_required: required,
        };
        self.declare_filter(name, filter)
    }

    /// Whether a transaction with the account keys `keys` matches the
    /// subscription: whether it matches one of the filter sets.
    pub fn matches(&self, keys: &[Vec<u8>]) -> (matched: bool)
        ensures
            matched == any_matches(self@, key_bytes(keys@)),
    {
        let mut i: usize = 0;
        while i < self.entries.len()
            invariant
                i <= self.entries@.len(),
                forall|j: int| 0 <= j < i ==> !(#[trigger] self@[j]).1.matches(key_bytes(keys@)),
            decreases self.entries@.len() - i,
        {
            if self.entries[i].filter.matches(keys) {
                assert(self@[i as int].1.matches(key_bytes(keys@)));
                return true;
            }
            i += 1;
        }
        false
    }
}

} // verus!
