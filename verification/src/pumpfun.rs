//! The subscription for newly created PumpFun mints.

use crate::address::Address;
use crate::base58::encoded;
use crate::filter::FilterSet;
use crate::message::{ControlMessage, NamedWireFilter, WireFilterModel};
use vstd::prelude::*;

verus! {

/// The mint authority of the PumpFun program, which signs every
/// transaction that creates a mint. In base-58 text it reads
/// `TSLvdd1pWpHVjahSpsvCXUbgwsL3JAcvokwaKt1eokM`.
pub const TARGET_MINT_AUTHORITY: [u8; 32] = [
    6, 197, 193, 206, 99, 141, 37, 103, 210, 100, 104, 176, 94, 185, 81, 209,
    162, 141, 204, 110, 18, 52, 130, 181, 198, 117, 20, 151, 112, 230, 43, 242,
];

/// The name of the filter set for new mints.
pub const NEW_MINT_FILTER: &'static str = "pumpfun";

/// The control message that asks for the transactions that create a mint:
/// one filter set, named `pumpfun`, that requires the mint authority and
/// has no other constraint.
pub fn pumpfun_new_mint_request() -> (request: ControlMessage)
    ensures
        request@ == seq![
            (
                NEW_MINT_FILTER@,
                WireFilterModel {
                    account_include: Seq::empty(),
                    account_exclude: Seq::empty(),
                    account_required: seq![encoded(TARGET_MINT_AUTHORITY@)],
                },
            ),
        ],
        request.request_type is None,
{
    let filter = FilterSet {
        account_include: Vec::new(),
        account_exclude: Vec::new(),
        account_required: vec![Address::new(TARGET_MINT_AUTHORITY)],
    };
    let named = NamedWireFilter { name: NEW_MINT_FILTER.to_owned(), filter: filter.to_wire() };
    let request = ControlMessage { transactions: vec![named], request_type: None };
    assert(request@[0].1.account_include =~= Seq::empty());
    assert(request@[0].1.account_exclude =~= Seq::empty());
    assert(request@[0].1.account_required =~= seq![encoded(TARGET_MINT_AUTHORITY@)]);
    assert(request@ =~= seq![request@[0]]);
    request
}

} // verus!
