//! The mapping from filter names to filter sets, as mathematics: what
//! declaring a filter set does to it, and the control message that carries
//! it.

use crate::filter::FilterModel;
use crate::message::{wire_of, WireMapping};
use vstd::prelude::*;

verus! {

/// Named filter sets, in the order in which the names were first declared.
pub type Mapping = Seq<(Seq<char>, FilterModel)>;

/// The control message for a mapping: every named filter set, in order.
pub open spec fn message_of(entries: Mapping) -> WireMapping {
    Seq::new(entries.len(), |i: int| (entries[i].0, wire_of(entries[i].1)))
}

/// Some entry of the mapping has the name `name`.
pub open spec fn has_name(entries: Mapping, name: Seq<char>) -> bool {
    exists|i: int| 0 <= i < entries.len() && (#[trigger] entries[i]).0 == name
}

/// The position of an entry with the name `name`.
pub open spec fn position_of(entries: Mapping, name: Seq<char>) -> int {
    choose|i: int| 0 <= i < entries.len() && (#[trigger] entries[i]).0 == name
}

/// No two entries of the mapping have the same name.
pub open spec fn distinct_names(entries: Mapping) -> bool {
    forall|i: int, j: int|
        0 <= i < j < entries.len() ==> (#[trigger] entries[i]).0 != (#[trigger] entries[j]).0
}

/// The mapping after `filter` was declared under `name`: the entry of that
/// name is replaced where it stands, and a new name is added at the end.
pub open spec fn declared(entries: Mapping, name: Seq<char>, filter: FilterModel) -> Mapping {
    if has_name(entries, name) {
        entries.update(position_of(entries, name), (name, filter))
    } else {
        entries.push((name, filter))
    }
}

/// A transaction with the account keys `keys` matches some filter set of
/// the mapping.
pub open spec fn any_matches(entries: Mapping, keys: Seq<Seq<u8>>) -> bool {
    exists|i: int| 0 <= i < entries.len() && (#[trigger] entries[i]).1.matches(keys)
}

/// The mapping as a map from names to filter sets.
pub open spec fn as_map(entries: Mapping) -> Map<Seq<char>, FilterModel> {
    Map::new(
        |name: Seq<char>| has_name(entries, name),
        |name: Seq<char>| entries[position_of(entries, name)].1,
    )
}

/// A mapping that a registry can hold: names are distinct and not empty,
/// and no filter set is vacuous.
pub open spec fn valid_mapping(entries: Mapping) -> bool {
    &&& distinct_names(entries)
    &&& forall|i: int|
        0 <= i < entries.len() ==> (#[trigger] entries[i]).0.len() > 0 && !entries[i].1.is_vacuous()
}

/// The names of a mapping are distinct, so a name has one position.
pub proof fn lemma_position_unique(entries: Mapping, name: Seq<char>, index: int)
    requires
        distinct_names(entries),
        0 <= index < entries.len(),
        entries[index].0 == name,
    ensures
        has_name(entries, name),
        position_of(entries, name) == index,
{
}

/// Declaring a filter set keeps a mapping valid.
pub proof fn lemma_declared_valid(entries: Mapping, name: Seq<char>, filter: FilterModel)
    requires
        valid_mapping(entries),
        name.len() > 0,
        !filter.is_vacuous(),
    ensures
        valid_mapping(declared(entries, name, filter)),
{
    lemma_declare_replaces(entries, name, filter);
}

/// Declaring replaces and does not accumulate: afterwards the mapping holds
/// `filter` under `name`, every other name as before, and each name once.
pub proof fn lemma_declare_replaces(entries: Mapping, name: Seq<char>, filter: FilterModel)
    requires
        distinct_names(entries),
    ensures
        distinct_names(declared(entries, name, filter)),
        as_map(declared(entries, name, filter)) == as_map(entries).insert(name, filter),
        declared(entries, name, filter).len() == if has_name(entries, name) {
            entries.len()
        } else {
            entries.len() + 1
        },
{
    let after = declared(entries, name, filter);
    let at = if has_name(entries, name) {
        position_of(entries, name)
    } else {
        entries.len() as int
    };
    assert(after[at] == (name, filter));
    assert forall|i: int| 0 <= i < after.len() && i != at implies after[i] == entries[i]
        && after[i].0 != name by {}
    assert forall|other: Seq<char>| has_name(after, other) <==> (other == name || has_name(
        entries,
        other,
    )) by {}
    assert forall|other: Seq<char>| has_name(after, other) implies #[trigger] as_map(after)[other]
        == as_map(entries).insert(name, filter)[other] by {
        let i = position_of(after, other);
        if i != at {
            lemma_position_unique(entries, other, i);
        }
    }
}

/// Declaring the same filter set under the same name a second time changes
/// neither the mapping nor the control message.
pub proof fn lemma_declare_idempotent(entries: Mapping, name: Seq<char>, filter: FilterModel)
    requires
        distinct_names(entries),
    ensures
        declared(declared(entries, name, filter), name, filter) == declared(entries, name, filter),
        message_of(declared(declared(entries, name, filter), name, filter)) == message_of(
            declared(entries, name, filter),
        ),
{
    let once = declared(entries, name, filter);
    let at = if has_name(entries, name) {
        position_of(entries, name)
    } else {
        entries.len() as int
    };
    lemma_declare_replaces(entries, name, filter);
    lemma_position_unique(once, name, at);
}

/// No control message of a registry carries a filter set with three empty
/// lists.
pub proof fn lemma_message_never_vacuous(entries: Mapping, i: int)
    requires
        valid_mapping(entries),
        0 <= i < entries.len(),
    ensures
        message_of(entries)[i].0 == entries[i].0,
        message_of(entries)[i].1.account_include.len() > 0 || message_of(
            entries,
        )[i].1.account_exclude.len() > 0 || message_of(entries)[i].1.account_required.len() > 0,
{
}

} // verus!
