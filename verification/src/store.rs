//! The concurrent collections that tables are kept in, the clock and the
//! random numbers: what this library calls outside itself, and what it takes
//! on trust about each call.
//!
//! A collection of `flurry` can be changed through a shared reference. This
//! library never does so: every function here that changes a collection takes
//! it by exclusive reference. What a collection holds is therefore settled by
//! its value, and the functions below that name it (`pack_members`,
//! `element_entries` and the others) can speak of it in contracts.

use vstd::prelude::*;

use crate::element::{
    Action, ActionView, ElementState, ElementView, ItemState, ItemView, Property, PropertyView,
};
use crate::model::{TableView, Timestamp};
use crate::session::TableState;
use crate::table::{swept, Retention};

verus! {

#[verifier::external_type_specification]
#[verifier::external_body]
pub struct ExDefaultHashBuilder(flurry::DefaultHashBuilder);

#[verifier::external_type_specification]
#[verifier::external_body]
#[verifier::reject_recursive_types(K)]
#[verifier::reject_recursive_types(V)]
#[verifier::reject_recursive_types(S)]
pub struct ExHashMap<K, V, S>(flurry::HashMap<K, V, S>);

#[verifier::external_type_specification]
#[verifier::external_body]
#[verifier::reject_recursive_types(T)]
#[verifier::reject_recursive_types(S)]
pub struct ExHashSet<T, S>(flurry::HashSet<T, S>);

/// The icon packs that a set holds.
pub uninterp spec fn pack_members(packs: flurry::HashSet<u32>) -> Set<u32>;

/// `flurry::HashSet::new`: the new set holds nothing.
#[verifier::external_body]
pub(crate) fn packs_new() -> (fresh: flurry::HashSet<u32>)
    ensures
        pack_members(fresh) == Set::<u32>::empty(),
{
    flurry::HashSet::new()
}

/// `flurry::HashSet::insert`: the pack is in the set afterwards and nothing
/// else has changed; the result tells whether it was absent before.
#[verifier::external_body]
pub(crate) fn packs_insert(packs: &mut flurry::HashSet<u32>, pack: u32) -> (added: bool)
    ensures
        pack_members(*final(packs)) == pack_members(*old(packs)).insert(pack),
        added == !pack_members(*old(packs)).contains(pack),
{
    let guard = packs.guard();
    packs.insert(pack, &guard)
}

/// `flurry::HashSet::contains`: whether the pack is in the set.
#[verifier::external_body]
pub(crate) fn packs_contains(packs: &flurry::HashSet<u32>, pack: u32) -> (found: bool)
    ensures
        found == pack_members(*packs).contains(pack),
{
    let guard = packs.guard();
    packs.contains(&pack, &guard)
}

/// `flurry::HashSet::iter`: every pack of the set, each once, in no
/// particular order.
#[verifier::external_body]
pub(crate) fn packs_list(packs: &flurry::HashSet<u32>) -> (list: Vec<u32>)
    ensures
        list@.no_duplicates(),
        list@.to_set() == pack_members(*packs),
{
    let guard = packs.guard();
    packs.iter(&guard).copied().collect()
}

/// The elements that a map holds, by identifier.
pub uninterp spec fn element_entries(elements: flurry::HashMap<u32, ElementState>) -> Map<
    u32,
    ElementView,
>;

/// `flurry::HashMap::new`: the new map holds nothing.
#[verifier::external_body]
pub(crate) fn elements_new() -> (fresh: flurry::HashMap<u32, ElementState>)
    ensures
        element_entries(fresh) == (Map::<u32, ElementView>::empty()),
{
    flurry::HashMap::new()
}

/// `flurry::HashMap::insert`: the map holds the element under the identifier
/// afterwards, in place of whatever it held there, and nothing else has
/// changed.
#[verifier::external_body]
pub(crate) fn elements_insert(
    elements: &mut flurry::HashMap<u32, ElementState>,
    id: u32,
    element: ElementState,
)
    ensures
        element_entries(*final(elements)) == element_entries(*old(elements)).insert(id, element@),
{
    let guard = elements.guard();
    elements.insert(id, element, &guard);
}

/// `flurry::HashMap::get`: a copy of the element under the identifier, if the
/// map holds one.
#[verifier::external_body]
pub(crate) fn elements_get(elements: &flurry::HashMap<u32, ElementState>, id: u32) -> (found:
    Option<ElementState>)
    ensures
        found is Some == element_entries(*elements).contains_key(id),
        found matches Some(element) ==> element@ == element_entries(*elements)[id],
{
    let guard = elements.guard();
    elements.get(&id, &guard).cloned()
}

/// `flurry::HashMap::remove`: the map holds nothing under the identifier
/// afterwards and nothing else has changed; the result tells whether it held
/// an element there before.
#[verifier::external_body]
pub(crate) fn elements_remove(
    elements: &mut flurry::HashMap<u32, ElementState>,
    id: u32,
) -> (removed: bool)
    ensures
        element_entries(*final(elements)) == element_entries(*old(elements)).remove(id),
        removed == element_entries(*old(elements)).contains_key(id),
{
    let guard = elements.guard();
    elements.remove(&id, &guard).is_some()
}

/// Whether a list of elements with their identifiers shows exactly what a
/// map holds: every listed identifier is in the map with that element, every
/// identifier of the map is listed, and none is listed twice.
pub open spec fn lists_entries(
    list: Seq<(u32, ElementState)>,
    entries: Map<u32, ElementView>,
) -> bool {
    &&& forall|i: int|
        0 <= i < list.len() ==> entries.contains_key((#[trigger] list[i]).0) && entries[list[i].0]
            == list[i].1@
    &&& forall|id: u32| #[trigger]
        entries.contains_key(id) ==> exists|i: int|
            0 <= i < list.len() && (#[trigger] list[i]).0 == id
    &&& forall|i: int, j: int|
        0 <= i < j < list.len() ==> (#[trigger] list[i]).0 != (#[trigger] list[j]).0
}

/// `flurry::HashMap::iter`: a copy of every element of the map with its
/// identifier, each identifier once, in no particular order.
#[verifier::external_body]
pub(crate) fn elements_list(elements: &flurry::HashMap<u32, ElementState>) -> (list: Vec<
    (u32, ElementState),
>)
    ensures
        lists_entries(list@, element_entries(*elements)),
{
    let guard = elements.guard();
    elements.iter(&guard).map(|(id, element)| (*id, element.clone())).collect()
}

/// The tables that a map holds, by code.
pub uninterp spec fn table_entries(tables: flurry::HashMap<String, TableState>) -> Map<
    Seq<char>,
    TableView,
>;

/// `flurry::HashMap::new`: the new map holds nothing.
#[verifier::external_body]
pub(crate) fn tables_new() -> (fresh: flurry::HashMap<String, TableState>)
    ensures
        table_entries(fresh) == (Map::<Seq<char>, TableView>::empty()),
{
    flurry::HashMap::new()
}

/// `flurry::HashMap::try_insert`: where the map holds nothing under the code
/// the table goes in under it, and where it holds a table there the map stays
/// as it was; the result tells which.
#[verifier::external_body]
pub(crate) fn tables_try_insert(
    tables: &mut flurry::HashMap<String, TableState>,
    code: String,
    table: TableState,
) -> (inserted: bool)
    ensures
        inserted == !table_entries(*old(tables)).contains_key(code@),
        inserted ==> table_entries(*final(tables)) == table_entries(*old(tables)).insert(
            code@,
            table@,
        ),
        !inserted ==> table_entries(*final(tables)) == table_entries(*old(tables)),
{
    let guard = tables.guard();
    tables.try_insert(code, table, &guard).is_ok()
}

/// `flurry::HashMap::insert`: the map holds the table under the code
/// afterwards, in place of whatever it held there, and nothing else has
/// changed.
#[verifier::external_body]
pub(crate) fn tables_insert(
    tables: &mut flurry::HashMap<String, TableState>,
    code: String,
    table: TableState,
)
    ensures
        table_entries(*final(tables)) == table_entries(*old(tables)).insert(code@, table@),
{
    let guard = tables.guard();
    tables.insert(code, table, &guard);
}

/// `flurry::HashMap::get`: a snapshot of the table under the code, if the map
/// holds one.
#[verifier::external_body]
pub(crate) fn tables_get(tables: &flurry::HashMap<String, TableState>, code: &str) -> (found:
    Option<TableState>)
    ensures
        found is Some == table_entries(*tables).contains_key(code@),
        found matches Some(table) ==> table@ == table_entries(*tables)[code@],
{
    let guard = tables.guard();
    tables.get(code, &guard).cloned()
}

/// `flurry::HashMap::contains_key`: whether the map holds a table under the
/// code.
#[verifier::external_body]
pub(crate) fn tables_contains(tables: &flurry::HashMap<String, TableState>, code: &str) -> (found:
    bool)
    ensures
        found == table_entries(*tables).contains_key(code@),
{
    let guard = tables.guard();
    tables.contains_key(code, &guard)
}

/// `flurry::HashMap::retain` with a retention rule: the tables that the rule
/// keeps stay as they were, and the others are gone.
#[verifier::external_body]
pub(crate) fn tables_retain<R: Retention>(
    tables: &mut flurry::HashMap<String, TableState>,
    rule: &R,
)
    ensures
        table_entries(*final(tables)) == swept(table_entries(*old(tables)), *rule),
{
    let guard = tables.guard();
    tables.retain(|code, table| rule.keep(code, table), &guard);
}

/// The items that a set holds.
pub uninterp spec fn item_members(items: flurry::HashSet<ItemState>) -> Set<ItemView>;

/// `Clone` for `flurry::HashSet`: the copy holds what the set holds.
#[verifier::external_body]
pub(crate) fn item_set_copy(items: &flurry::HashSet<ItemState>) -> (copy: flurry::HashSet<
    ItemState,
>)
    ensures
        item_members(copy) == item_members(*items),
{
    items.clone()
}

/// The items that a map holds, by name.
pub uninterp spec fn item_entries(items: flurry::HashMap<String, ItemState>) -> Map<
    Seq<char>,
    ItemView,
>;

/// `Clone` for `flurry::HashMap`: the copy holds what the map holds.
#[verifier::external_body]
pub(crate) fn item_map_copy(items: &flurry::HashMap<String, ItemState>) -> (copy: flurry::HashMap<
    String,
    ItemState,
>)
    ensures
        item_entries(copy) == item_entries(*items),
{
    items.clone()
}

/// The state entries that a map holds, by name.
pub uninterp spec fn property_entries(state: flurry::HashMap<String, Property>) -> Map<
    Seq<char>,
    PropertyView,
>;

/// `flurry::HashMap::new`: the new map holds nothing.
#[verifier::external_body]
pub(crate) fn props_new() -> (fresh: flurry::HashMap<String, Property>)
    ensures
        property_entries(fresh) == (Map::<Seq<char>, PropertyView>::empty()),
{
    flurry::HashMap::new()
}

/// `Clone` for `flurry::HashMap`: the copy holds what the map holds.
#[verifier::external_body]
pub(crate) fn props_copy(state: &flurry::HashMap<String, Property>) -> (copy: flurry::HashMap<
    String,
    Property,
>)
    ensures
        property_entries(copy) == property_entries(*state),
{
    state.clone()
}

/// Whether a list of state entries with their names shows exactly what a map
/// holds: every listed name is in the map with that entry, every name of the
/// map is listed, and none is listed twice.
pub open spec fn lists_properties(
    list: Seq<(String, Property)>,
    entries: Map<Seq<char>, PropertyView>,
) -> bool {
    &&& forall|i: int|
        0 <= i < list.len() ==> entries.contains_key((#[trigger] list[i]).0@) && entries[list[i].0@]
            == list[i].1@
    &&& forall|name: Seq<char>| #[trigger]
        entries.contains_key(name) ==> exists|i: int|
            0 <= i < list.len() && (#[trigger] list[i]).0@ == name
    &&& forall|i: int, j: int|
        0 <= i < j < list.len() ==> (#[trigger] list[i]).0@ != (#[trigger] list[j]).0@
}

/// `flurry::HashMap::iter`: a copy of every entry of the map with its name,
/// each name once, in no particular order.
#[verifier::external_body]
pub(crate) fn props_list(state: &flurry::HashMap<String, Property>) -> (list: Vec<
    (String, Property),
>)
    ensures
        lists_properties(list@, property_entries(*state)),
{
    let guard = state.guard();
    state.iter(&guard).map(|(name, entry)| (name.clone(), entry.clone())).collect()
}

/// The actions that a map holds, by name.
pub uninterp spec fn action_entries(actions: flurry::HashMap<String, Action>) -> Map<
    Seq<char>,
    ActionView,
>;

/// `flurry::HashMap::new`: the new map holds nothing.
#[verifier::external_body]
pub(crate) fn actions_new() -> (fresh: flurry::HashMap<String, Action>)
    ensures
        action_entries(fresh) == (Map::<Seq<char>, ActionView>::empty()),
{
    flurry::HashMap::new()
}

/// Whether a list of actions with their names shows exactly what a map
/// holds: every listed name is in the map with that action, every name of the
/// map is listed, and none is listed twice.
pub open spec fn lists_actions(
    list: Seq<(String, Action)>,
    entries: Map<Seq<char>, ActionView>,
) -> bool {
    &&& forall|i: int|
        0 <= i < list.len() ==> entries.contains_key((#[trigger] list[i]).0@) && entries[list[i].0@]
            == list[i].1@
    &&& forall|name: Seq<char>| #[trigger]
        entries.contains_key(name) ==> exists|i: int|
            0 <= i < list.len() && (#[trigger] list[i]).0@ == name
    &&& forall|i: int, j: int|
        0 <= i < j < list.len() ==> (#[trigger] list[i]).0@ != (#[trigger] list[j]).0@
}

/// `flurry::HashMap::iter`: a copy of every action of the map with its name,
/// each name once, in no particular order.
#[verifier::external_body]
pub(crate) fn actions_list(actions: &flurry::HashMap<String, Action>) -> (list: Vec<
    (String, Action),
>)
    ensures
        lists_actions(list@, action_entries(*actions)),
{
    let guard = actions.guard();
    actions.iter(&guard).map(|(name, action)| (name.clone(), action.clone())).collect()
}

/// `Clone` for `flurry::HashMap`: the copy holds what the map holds.
#[verifier::external_body]
pub(crate) fn actions_copy(actions: &flurry::HashMap<String, Action>) -> (copy: flurry::HashMap<
    String,
    Action,
>)
    ensures
        action_entries(copy) == action_entries(*actions),
{
    actions.clone()
}

/// `chrono::Utc::now`: the clock's reading at the moment of the call, as
/// seconds and nanoseconds since the Unix epoch. Nothing is claimed of it.
#[verifier::external_body]
pub(crate) fn now() -> Timestamp {
    let reading = chrono::Utc::now();
    Timestamp { secs: reading.timestamp(), nanos: reading.timestamp_subsec_nanos() }
}

/// `rand::Rng::gen` on the thread's generator: a number drawn at random.
/// Nothing is claimed of it.
#[verifier::external_body]
pub(crate) fn random_u16() -> u16 {
    rand::Rng::gen::<u16>(&mut rand::thread_rng())
}

} // verus!
