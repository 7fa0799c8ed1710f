use shredlink_client::address::{Address, AddressError};
use shredlink_client::filter::FilterSet;
use shredlink_client::pumpfun::{pumpfun_new_mint_request, NEW_MINT_FILTER, TARGET_MINT_AUTHORITY};
use shredlink_client::message::{ControlMessage, NamedWireFilter, WireFilter};
use shredlink_client::registry::{AddressList, FilterRegistry, InvalidFilterError};

const AUTH: &str = "TSLvdd1pWpHVjahSpsvCXUbgwsL3JAcvokwaKt1eokM";
const TOKEN: &str = "TokenkegQfeZyiNwAJbNbGKPFXCWuBvf9Ss623VQ5DA";
const WRAPPED: &str = "So11111111111111111111111111111111111111112";
const SYSTEM: &str = "11111111111111111111111111111111";

fn strings(texts: &[&str]) -> Vec<String> {
    texts.iter().map(|text| text.to_string()).collect()
}

fn addresses(texts: &[&str]) -> Vec<Address> {
    texts.iter().map(|text| Address::from_base58(text).unwrap()).collect()
}

fn filter(account_include: &[&str], account_exclude: &[&str], account_required: &[&str]) -> FilterSet {
    FilterSet {
        account_include: addresses(account_include),
        account_exclude: addresses(account_exclude),
        account_required: addresses(account_required),
    }
}

fn keys(texts: &[&str]) -> Vec<Vec<u8>> {
    texts.iter().map(|text| Address::from_base58(text).unwrap().as_bytes().to_vec()).collect()
}

fn wire(name: &str, account_include: &[&str], account_exclude: &[&str], account_required: &[&str]) -> NamedWireFilter {
    NamedWireFilter {
        name: name.to_string(),
        filter: WireFilter {
            account_include: strings(account_include),
            account_exclude: strings(account_exclude),
            account_required: strings(account_required),
        },
    }
}

#[test]
fn vacuous_filter_matches_nothing() {
    let vacuous = filter(&[], &[], &[]);
    assert!(vacuous.is_vacuous());
    assert!(!vacuous.matches(&keys(&[AUTH, TOKEN])));
    assert!(!vacuous.matches(&[]));
}

#[test]
fn required_needs_all() {
    let both = filter(&[], &[], &[AUTH, TOKEN]);
    assert!(!both.is_vacuous());
    assert!(both.matches(&keys(&[SYSTEM, TOKEN, AUTH])));
    assert!(!both.matches(&keys(&[SYSTEM, AUTH])));
    assert!(!both.matches(&keys(&[TOKEN])));
    assert!(!both.matches(&[]));
}

#[test]
fn account_include_needs_any() {
    let either = filter(&[AUTH, TOKEN], &[], &[]);
    assert!(either.matches(&keys(&[SYSTEM, TOKEN])));
    assert!(either.matches(&keys(&[AUTH])));
    assert!(!either.matches(&keys(&[SYSTEM, WRAPPED])));
    assert!(!either.matches(&[]));
}

#[test]
fn exclude_overrides_the_other_lists() {
    let guarded = filter(&[TOKEN], &[WRAPPED], &[AUTH]);
    assert!(guarded.matches(&keys(&[AUTH, TOKEN])));
    assert!(!guarded.matches(&keys(&[AUTH, TOKEN, WRAPPED])));
    assert!(!guarded.matches(&keys(&[WRAPPED, AUTH, TOKEN])));
}

#[test]
fn exclude_alone_matches_what_it_does_not_name() {
    let only_exclude = filter(&[], &[WRAPPED], &[]);
    assert!(!only_exclude.is_vacuous());
    assert!(only_exclude.matches(&keys(&[AUTH])));
    assert!(only_exclude.matches(&[]));
    assert!(!only_exclude.matches(&keys(&[AUTH, WRAPPED])));
}

#[test]
fn matching_goes_by_whole_keys() {
    let required = filter(&[], &[], &[TOKEN]);
    let mut short = keys(&[TOKEN]);
    short[0].pop();
    assert!(!required.matches(&short));
    let mut long = keys(&[TOKEN]);
    long[0].push(0);
    assert!(!required.matches(&long));
}

#[test]
fn to_wire_writes_base58_texts() {
    let wire_filter = filter(&[TOKEN], &[WRAPPED, SYSTEM], &[AUTH]).to_wire();
    assert_eq!(
        wire_filter,
        WireFilter {
            account_include: strings(&[TOKEN]),
            account_exclude: strings(&[WRAPPED, SYSTEM]),
            account_required: strings(&[AUTH]),
        }
    );
}

#[test]
fn declare_with_three_empty_lists_is_refused() {
    let mut registry = FilterRegistry::new();
    assert_eq!(registry.declare("pumpfun", &[], &[], &[]), Err(InvalidFilterError::NoConstraint));
    assert_eq!(registry.len(), 0);
    assert_eq!(registry.message(), ControlMessage { transactions: vec![], request_type: None });
    assert_eq!(
        registry.declare_filter("pumpfun", filter(&[], &[], &[])),
        Err(InvalidFilterError::NoConstraint)
    );
    assert_eq!(registry.len(), 0);
}

#[test]
fn declare_with_empty_name_is_refused() {
    let mut registry = FilterRegistry::new();
    assert_eq!(
        registry.declare("", &[], &[], &strings(&[AUTH])),
        Err(InvalidFilterError::EmptyName)
    );
    assert_eq!(registry.declare("", &[], &[], &[]), Err(InvalidFilterError::EmptyName));
    assert_eq!(
        registry.declare("", &strings(&["not an address"]), &[], &[]),
        Err(InvalidFilterError::EmptyName)
    );
    assert_eq!(
        registry.declare_filter("", filter(&[], &[], &[AUTH])),
        Err(InvalidFilterError::EmptyName)
    );
    assert_eq!(registry.len(), 0);
}

#[test]
fn declare_with_malformed_address_is_refused() {
    let mut registry = FilterRegistry::new();
    assert_eq!(
        registry.declare("a", &strings(&[AUTH, "0", TOKEN, "l"]), &strings(&["x"]), &[]),
        Err(InvalidFilterError::MalformedAddress {
            list: AddressList::AccountInclude,
            index: 1,
            reason: AddressError::NotBase58,
        })
    );
    assert_eq!(
        registry.declare("a", &strings(&[AUTH]), &strings(&[TOKEN, WRAPPED, "2"]), &strings(&[""])),
        Err(InvalidFilterError::MalformedAddress {
            list: AddressList::AccountExclude,
            index: 2,
            reason: AddressError::WrongLength,
        })
    );
    assert_eq!(
        registry.declare("a", &[], &[], &strings(&[&AUTH[..42]])),
        Err(InvalidFilterError::MalformedAddress {
            list: AddressList::AccountRequired,
            index: 0,
            reason: AddressError::WrongLength,
        })
    );
    assert_eq!(registry.len(), 0);
    assert_eq!(registry.message().transactions, vec![]);
}

#[test]
fn refused_declaration_leaves_the_registry_as_it_was() {
    let mut registry = FilterRegistry::new();
    let before = registry.declare("keep", &[], &[], &strings(&[AUTH])).unwrap();
    assert_eq!(
        registry.declare("keep", &[], &[], &strings(&["O"])),
        Err(InvalidFilterError::MalformedAddress {
            list: AddressList::AccountRequired,
            index: 0,
            reason: AddressError::NotBase58,
        })
    );
    assert_eq!(registry.declare("keep", &[], &[], &[]), Err(InvalidFilterError::NoConstraint));
    assert_eq!(registry.declare("", &[], &[], &strings(&[TOKEN])), Err(InvalidFilterError::EmptyName));
    assert_eq!(registry.message(), before);
}

#[test]
fn declare_returns_the_whole_mapping() {
    let mut registry = FilterRegistry::new();
    let first = registry.declare("mints", &[], &[], &strings(&[AUTH])).unwrap();
    assert_eq!(
        first,
        ControlMessage { transactions: vec![wire("mints", &[], &[], &[AUTH])], request_type: None }
    );
    let second = registry.declare("tokens", &strings(&[TOKEN, WRAPPED]), &strings(&[SYSTEM]), &[]).unwrap();
    assert_eq!(
        second,
        ControlMessage {
            transactions: vec![
                wire("mints", &[], &[], &[AUTH]),
                wire("tokens", &[TOKEN, WRAPPED], &[SYSTEM], &[]),
            ],
            request_type: None,
        }
    );
    assert_eq!(registry.len(), 2);
    assert_eq!(registry.message(), second);
}

#[test]
fn declare_twice_gives_identical_messages() {
    let mut registry = FilterRegistry::new();
    registry.declare("other", &strings(&[TOKEN]), &[], &[]).unwrap();
    let once = registry.declare("pumpfun", &[], &strings(&[WRAPPED]), &strings(&[AUTH])).unwrap();
    let twice = registry.declare("pumpfun", &[], &strings(&[WRAPPED]), &strings(&[AUTH])).unwrap();
    assert_eq!(once, twice);
    assert_eq!(registry.len(), 2);
    assert_eq!(registry.message(), once);
}

#[test]
fn declare_again_replaces_and_does_not_accumulate() {
    let mut registry = FilterRegistry::new();
    let first = registry.declare("pumpfun", &[], &[], &strings(&[AUTH])).unwrap();
    assert_eq!(first.transactions, vec![wire("pumpfun", &[], &[], &[AUTH])]);
    let second = registry.declare("pumpfun", &[], &[], &strings(&[TOKEN, WRAPPED])).unwrap();
    assert_eq!(
        second,
        ControlMessage {
            transactions: vec![wire("pumpfun", &[], &[], &[TOKEN, WRAPPED])],
            request_type: None,
        }
    );
    assert_eq!(registry.len(), 1);
}

#[test]
fn declare_again_keeps_the_place_of_the_name() {
    let mut registry = FilterRegistry::new();
    registry.declare("a", &strings(&[AUTH]), &[], &[]).unwrap();
    registry.declare("b", &strings(&[TOKEN]), &[], &[]).unwrap();
    registry.declare("c", &strings(&[WRAPPED]), &[], &[]).unwrap();
    let message = registry.declare("b", &[], &strings(&[SYSTEM]), &[]).unwrap();
    assert_eq!(
        message.transactions,
        vec![
            wire("a", &[AUTH], &[], &[]),
            wire("b", &[], &[SYSTEM], &[]),
            wire("c", &[WRAPPED], &[], &[]),
        ]
    );
}

#[test]
fn names_differ_by_any_character() {
    let mut registry = FilterRegistry::new();
    registry.declare("pumpfun", &strings(&[AUTH]), &[], &[]).unwrap();
    let message = registry.declare("Pumpfun", &strings(&[TOKEN]), &[], &[]).unwrap();
    assert_eq!(message.transactions.len(), 2);
}

#[test]
fn declare_filter_agrees_with_declare() {
    let mut by_text = FilterRegistry::new();
    let mut by_value = FilterRegistry::new();
    let from_text = by_text.declare("f", &strings(&[TOKEN]), &strings(&[WRAPPED]), &strings(&[AUTH]));
    let from_value = by_value.declare_filter("f", filter(&[TOKEN], &[WRAPPED], &[AUTH]));
    assert!(from_text.is_ok());
    assert_eq!(from_text, from_value);
}

#[test]
fn subscription_matches_if_one_filter_set_does() {
    let mut registry = FilterRegistry::new();
    assert!(!registry.matches(&keys(&[AUTH])));
    registry.declare("mints", &[], &[], &strings(&[AUTH])).unwrap();
    registry.declare("tokens", &strings(&[TOKEN]), &strings(&[WRAPPED]), &[]).unwrap();
    assert!(registry.matches(&keys(&[SYSTEM, AUTH])));
    assert!(registry.matches(&keys(&[TOKEN])));
    assert!(registry.matches(&keys(&[AUTH, TOKEN, WRAPPED])));
    assert!(!registry.matches(&keys(&[TOKEN, WRAPPED])));
    assert!(!registry.matches(&keys(&[SYSTEM])));
}

#[test]
fn new_mint_request_requires_the_mint_authority() {
    assert_eq!(NEW_MINT_FILTER, "pumpfun");
    assert_eq!(
        pumpfun_new_mint_request(),
        ControlMessage { transactions: vec![wire("pumpfun", &[], &[], &[AUTH])], request_type: None }
    );
    assert_eq!(Address::new(TARGET_MINT_AUTHORITY), Address::from_base58(AUTH).unwrap());
}

#[test]
fn new_mint_request_is_what_the_registry_declares() {
    let mut registry = FilterRegistry::new();
    let declared = registry.declare("pumpfun", &[], &[], &strings(&[AUTH]));
    assert_eq!(declared, Ok(pumpfun_new_mint_request()));
}
