//! The control message: the filter sets of a subscription as the outbound
//! half of the channel carries them, with addresses in base-58 text.

use crate::address::{is_address_text, Address};
use crate::base58::{decoded, encoded, lemma_encode_decode};
use crate::filter::{address_bytes, FilterModel, FilterSet};
use vstd::prelude::*;

verus! {

/// A filter set as the control message carries it: addresses as base-58
/// text.
#[derive(Debug, PartialEq, Eq)]
pub struct WireFilter {
    pub account_include: Vec<String>,
    pub account_exclude: Vec<String>,
    pub account_required: Vec<String>,
}

/// A filter set of the control message with its name.
#[derive(Debug, PartialEq, Eq)]
pub struct NamedWireFilter {
    pub name: String,
    pub filter: WireFilter,
}

/// What else a request on the control channel can be. The registry leaves
/// the field that holds it empty.
#[derive(Debug, PartialEq, Eq)]
pub enum RequestType {
    Filter(WireFilter),
    SubscribeAll(bool),
}

/// The message on the outbound half of the channel: the whole mapping from
/// filter names to filter sets, never a difference to an earlier message.
#[derive(Debug, PartialEq, Eq)]
pub struct ControlMessage {
    pub transactions: Vec<NamedWireFilter>,
    pub request_type: Option<RequestType>,
}

/// A wire filter as three lists of texts.
pub struct WireFilterModel {
    pub account_include: Seq<Seq<char>>,
    pub account_exclude: Seq<Seq<char>>,
    pub account_required: Seq<Seq<char>>,
}

/// The texts of a list of strings.
pub open spec fn texts(strings: Seq<String>) -> Seq<Seq<char>> {
    Seq::new(strings.len(), |i: int| strings[i]@)
}

impl View for WireFilter {
    type V = WireFilterModel;

    open spec fn view(&self) -> WireFilterModel {
        WireFilterModel {
            account_include: texts(self.account_include@),
            account_exclude: texts(self.account_exclude@),
            account_required: texts(self.account_required@),
        }
    }
}

impl View for NamedWireFilter {
    type V = (Seq<char>, WireFilterModel);

    open spec fn view(&self) -> (Seq<char>, WireFilterModel) {
        (self.name@, self.filter@)
    }
}

/// Named wire filters in the order of a control message.
pub type WireMapping = Seq<(Seq<char>, WireFilterModel)>;

impl View for ControlMessage {
    type V = WireMapping;

    /// The named filter sets of the message, in its order.
    open spec fn view(&self) -> WireMapping {
        Seq::new(self.transactions@.len(), |i: int| self.transactions@[i]@)
    }
}

/// The base-58 texts of a list of byte strings.
pub open spec fn encoded_all(addresses: Seq<Seq<u8>>) -> Seq<Seq<char>> {
    Seq::new(addresses.len(), |i: int| encoded(addresses[i]))
}

/// The byte strings that a list of base-58 texts stands for.
pub open spec fn decoded_all(texts: Seq<Seq<char>>) -> Seq<Seq<u8>> {
    Seq::new(texts.len(), |i: int| decoded(texts[i]).unwrap())
}

/// Every text of the list is the base-58 text of an address.
pub open spec fn all_address_texts(texts: Seq<Seq<char>>) -> bool {
    forall|i: int| 0 <= i < texts.len() ==> is_address_text(#[trigger] texts[i])
}

/// A filter set as the control message carries it.
pub open spec fn wire_of(filter: FilterModel) -> WireFilterModel {
    WireFilterModel {
        account_include: encoded_all(filter.account_include),
        account_exclude: encoded_all(filter.account_exclude),
        account_required: encoded_all(filter.account_required),
    }
}

/// The filter set that three lists of address texts declare.
pub open spec fn filter_of(
    account_include: Seq<Seq<char>>,
    account_exclude: Seq<Seq<char>>,
    account_required: Seq<Seq<char>>,
) -> FilterModel {
    FilterModel {
        account_include: decoded_all(account_include),
        account_exclude: decoded_all(account_exclude),
        account_required: decoded_all(account_required),
    }
}

/// The control message carries the address texts as they were declared.
pub proof fn lemma_wire_of_declared(
    account_include: Seq<Seq<char>>,
    account_exclude: Seq<Seq<char>>,
    account_required: Seq<Seq<char>>,
)
    requires
        all_address_texts(account_include),
        all_address_texts(account_exclude),
        all_address_texts(account_required),
    ensures
        wire_of(filter_of(account_include, account_exclude, account_required)) == (WireFilterModel {
            account_include,
            account_exclude,
            account_required,
        }),
{
    lemma_encoded_all_decoded_all(account_include);
    lemma_encoded_all_decoded_all(account_exclude);
    lemma_encoded_all_decoded_all(account_required);
}

/// Encoding the addresses of a list of address texts gives the texts.
pub proof fn lemma_encoded_all_decoded_all(texts: Seq<Seq<char>>)
    requires
        all_address_texts(texts),
    ensures
        encoded_all(decoded_all(texts)) == texts,
{
    assert forall|i: int| 0 <= i < texts.len() implies encoded(decoded(texts[i]).unwrap())
        == texts[i] by {
        lemma_encode_decode(texts[i]);
    }
}

/// The base-58 texts of a list of addresses.
fn encode_addresses(addresses: &Vec<Address>) -> (strings: Vec<String>)
    ensures
        texts(strings@) == encoded_all(address_bytes(addresses@)),
{
    let mut strings: Vec<String> = Vec::new();
    let mut i: usize = 0;
    while i < addresses.len()
        invariant
            i <= addresses@.len(),
            strings@.len() == i,
            forall|j: int| 0 <= j < i ==> (#[trigger] strings@[j])@ == encoded(addresses@[j]@),
        decreases addresses@.len() - i,
    {
        strings.push(addresses[i].to_base58());
        i += 1;
    }
    strings
}

impl FilterSet {
    /// The filter set as the control message carries it.
    pub fn to_wire(&self) -> (wire: WireFilter)
        ensures
            wire@ == wire_of(self@),
    {
        WireFilter {
            account_include: encode_addresses(&self.account_include),
            account_exclude: encode_addresses(&self.account_exclude),
            account_required: encode_addresses(&self.account_required),
        }
    }
}

} // verus!
