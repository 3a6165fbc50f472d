//! What holds of every table and every message, stated over the model and
//! proved from it.

use vstd::prelude::*;

use crate::model::{
    accepts, after, amended, broadcast, delivered, fresh_table, has_id_left, tables_after,
    SharingView, TableView, Timestamp, UpdateView,
};
use crate::session::tester_table;
use crate::table::{swept, RetainAll, Retention};

verus! {

/// The table after a run of messages, taken in order.
pub open spec fn run(table: TableView, updates: Seq<UpdateView>) -> TableView
    decreases updates.len(),
{
    if updates.len() == 0 {
        table
    } else {
        after(run(table, updates.drop_last()), updates.last())
    }
}

/// How many new elements a table takes in the course of a run of messages.
pub open spec fn elements_made(table: TableView, updates: Seq<UpdateView>) -> nat
    decreases updates.len(),
{
    if updates.len() == 0 {
        0
    } else {
        let before = run(table, updates.drop_last());
        let made = elements_made(table, updates.drop_last());
        if updates.last() is ElementCreate && accepts(before, updates.last()) {
            made + 1
        } else {
            made
        }
    }
}

/// A table is consistent when it has finitely many elements and packs, every
/// element is stored under its own identifier, and every element's icon pack
/// is loaded.
pub open spec fn consistent(table: TableView) -> bool {
    &&& table.elements.dom().finite()
    &&& table.icon_packs.finite()
    &&& forall|id: u32| #[trigger]
        table.elements.contains_key(id) ==> table.elements[id].element_id == id
            && table.icon_packs.contains(table.elements[id].icon_pack)
}

/// Every identifier on the table lies below the counter: the counter has
/// never handed out what it will hand out next.
pub open spec fn below_counter(table: TableView) -> bool {
    forall|id: u32| #[trigger] table.elements.contains_key(id) ==> id < table.next_id
}

/// The counter never goes down: a message leaves it where it was, or, where
/// it puts a new element on the table, moves it up by one.
pub proof fn lemma_counter_never_falls(table: TableView, update: UpdateView)
    ensures
        after(table, update).next_id == if update is ElementCreate && accepts(table, update) {
            table.next_id + 1
        } else {
            table.next_id as int
        },
        after(table, update).next_id >= table.next_id,
{
}

/// A run of messages moves the counter up by the number of elements made,
/// and never down.
pub proof fn lemma_counter_counts(table: TableView, updates: Seq<UpdateView>)
    ensures
        run(table, updates).next_id == table.next_id + elements_made(table, updates),
        run(table, updates).next_id >= table.next_id,
    decreases updates.len(),
{
    if updates.len() > 0 {
        lemma_counter_counts(table, updates.drop_last());
    }
}

/// Identifiers are handed out in strictly increasing order: of two new
/// elements that a table takes, with any messages in between, removals
/// included, the later one gets the larger identifier.
pub proof fn lemma_ids_increase(
    table: TableView,
    first: UpdateView,
    between: Seq<UpdateView>,
    second: UpdateView,
)
    requires
        first is ElementCreate,
        second is ElementCreate,
        accepts(table, first),
        accepts(run(after(table, first), between), second),
    ensures
        amended(table, first)->ElementCreate_id < amended(
            run(after(table, first), between),
            second,
        )->ElementCreate_id,
{
    lemma_counter_counts(after(table, first), between);
}

/// An identifier is not used again: a new element never takes the place of
/// an element that is on the table, and afterwards every identifier on the
/// table still lies below the counter.
pub proof fn lemma_ids_not_reused(table: TableView, update: UpdateView)
    requires
        below_counter(table),
    ensures
        below_counter(after(table, update)),
        update is ElementCreate && accepts(table, update) ==> {
            &&& !table.elements.contains_key(table.next_id)
            &&& after(table, update).elements.dom() == table.elements.dom().insert(table.next_id)
        },
{
}

/// Through a whole run of messages every identifier on the table stays below
/// the counter.
pub proof fn lemma_run_stays_below_counter(table: TableView, updates: Seq<UpdateView>)
    requires
        below_counter(table),
    ensures
        below_counter(run(table, updates)),
    decreases updates.len(),
{
    if updates.len() > 0 {
        let earlier = updates.drop_last();
        lemma_run_stays_below_counter(table, earlier);
        lemma_ids_not_reused(run(table, earlier), updates.last());
    }
}

/// A table that has given out every identifier takes no new element: the
/// message is dropped, nothing changes and nothing is sent.
pub proof fn lemma_no_id_left(table: TableView, update: UpdateView)
    requires
        update is ElementCreate,
        !has_id_left(table),
    ensures
        after(table, update) == table,
        broadcast(table, update) is None,
{
}

/// A new table is consistent and has handed out no identifier.
pub proof fn lemma_fresh_table_consistent(
    created: Timestamp,
    name: Seq<char>,
    sharing: SharingView,
    host: Option<Seq<char>>,
    icon_packs: Set<u32>,
)
    requires
        icon_packs.finite(),
    ensures
        consistent(fresh_table(created, name, sharing, host, icon_packs)),
        below_counter(fresh_table(created, name, sharing, host, icon_packs)),
{
}

/// The tester table is consistent, and its one identifier lies below its
/// counter.
pub proof fn lemma_tester_table_consistent(created: Timestamp)
    ensures
        consistent(tester_table(created)),
        below_counter(tester_table(created)),
{
}

/// No message makes a consistent table inconsistent.
pub proof fn lemma_consistency_kept(table: TableView, update: UpdateView)
    requires
        consistent(table),
    ensures
        consistent(after(table, update)),
{
}

/// No run of messages makes a consistent table inconsistent.
pub proof fn lemma_run_stays_consistent(table: TableView, updates: Seq<UpdateView>)
    requires
        consistent(table),
    ensures
        consistent(run(table, updates)),
    decreases updates.len(),
{
    if updates.len() > 0 {
        lemma_run_stays_consistent(table, updates.drop_last());
        lemma_consistency_kept(run(table, updates.drop_last()), updates.last());
    }
}

/// An element keeps what it was made with: as long as it is on the table, no
/// message changes its identifier, its icon, its state or its actions. Only
/// its position can change.
pub proof fn lemma_elements_keep_identity(table: TableView, update: UpdateView, id: u32)
    requires
        below_counter(table),
        table.elements.contains_key(id),
        after(table, update).elements.contains_key(id),
    ensures
        ({
            let before = table.elements[id];
            let now = after(table, update).elements[id];
            &&& now.element_id == before.element_id
            &&& now.icon_pack == before.icon_pack
            &&& now.icon_id == before.icon_id
            &&& now.public_state == before.public_state
            &&& now.private_state == before.private_state
            &&& now.action == before.action
        }),
{
}

/// A loaded pack stays loaded: no message takes a pack out of a table.
pub proof fn lemma_packs_stay_loaded(table: TableView, update: UpdateView, pack: u32)
    requires
        table.icon_packs.contains(pack),
    ensures
        after(table, update).icon_packs.contains(pack),
{
}

/// No message changes a table's name, its sharing, its host or the moment it
/// was made.
pub proof fn lemma_metadata_fixed(table: TableView, update: UpdateView)
    ensures
        after(table, update).created == table.created,
        after(table, update).name == table.name,
        after(table, update).sharing == table.sharing,
        after(table, update).host == table.host,
{
}

/// Loading a pack that is not loaded yet, twice in a row, sends one message:
/// the first load goes out and puts the pack into the table, the second is
/// dropped and changes nothing.
pub proof fn lemma_load_twice(table: TableView, pack: u32)
    requires
        !table.icon_packs.contains(pack),
    ensures
        ({
            let load = UpdateView::IconpackLoad { pack };
            let once = after(table, load);
            &&& broadcast(table, load) == Some(load)
            &&& broadcast(once, load) is None
            &&& after(once, load) == once
            &&& once.icon_packs == table.icon_packs.insert(pack)
        }),
{
}

/// Loading a pack that is loaded already sends nothing and changes nothing.
pub proof fn lemma_load_again(table: TableView, pack: u32)
    requires
        table.icon_packs.contains(pack),
    ensures
        broadcast(table, UpdateView::IconpackLoad { pack }) is None,
        after(table, UpdateView::IconpackLoad { pack }) == table,
{
}

/// A pack of the table stands exactly once in any listing of its packs that
/// has no duplicates.
pub proof fn lemma_listed_once(list: Seq<u32>, packs: Set<u32>, pack: u32)
    requires
        list.no_duplicates(),
        list.to_set() == packs,
        packs.contains(pack),
    ensures
        exists|i: int|
            0 <= i < list.len() && #[trigger] list[i] == pack && forall|j: int|
                0 <= j < list.len() && #[trigger] list[j] == pack ==> j == i,
{
    // The pack is in the list because it is in the set; where it stands is
    // the only place, because the list has no duplicates.
    assert(list.contains(pack));
    let i = choose|i: int| 0 <= i < list.len() && list[i] == pack;
    assert(forall|j: int| 0 <= j < list.len() && #[trigger] list[j] == pack ==> j == i);
}

/// A new element is taken exactly where its icon pack is loaded and the table
/// has an identifier left to give.
pub proof fn lemma_create_taken(table: TableView, update: UpdateView)
    requires
        update is ElementCreate,
    ensures
        accepts(table, update) <==> table.icon_packs.contains(update->icon_pack) && has_id_left(
            table,
        ),
{
}

/// A new element whose icon pack is not loaded is dropped: no element is
/// made and nothing is sent.
pub proof fn lemma_create_needs_pack(table: TableView, update: UpdateView)
    requires
        update matches UpdateView::ElementCreate { icon_pack, .. } && !table.icon_packs.contains(
            icon_pack,
        ),
    ensures
        after(table, update) == table,
        broadcast(table, update) is None,
{
}

/// A move or a removal that names an element which is not on the table is
/// dropped: nothing changes and nothing is sent.
pub proof fn lemma_missing_element(table: TableView, update: UpdateView)
    requires
        match update {
            UpdateView::Position { id, .. } => !table.elements.contains_key(id),
            UpdateView::ElementDelete { id } => !table.elements.contains_key(id),
            _ => false,
        },
    ensures
        after(table, update) == table,
        broadcast(table, update) is None,
{
}

/// A message goes out if and only if the table takes it, and a message that
/// the table does not take changes nothing.
pub proof fn lemma_dropped_changes_nothing(table: TableView, update: UpdateView)
    ensures
        broadcast(table, update) is Some <==> accepts(table, update),
        !accepts(table, update) ==> after(table, update) == table,
{
}

/// An action is always dropped.
pub proof fn lemma_action_inert(table: TableView, update: UpdateView)
    requires
        update is Action,
    ensures
        after(table, update) == table,
        broadcast(table, update) is None,
{
}

/// A message addressed to a code that no table has is dropped: nothing is
/// sent and the registry stays as it was.
pub proof fn lemma_unknown_table(
    tables: Map<Seq<char>, TableView>,
    code: Seq<char>,
    update: UpdateView,
)
    requires
        !tables.contains_key(code),
    ensures
        tables_after(tables, code, update) == tables,
        delivered(tables, code, update) is None,
{
}

/// A message registers no table and takes none out of the registry.
pub proof fn lemma_codes_stay(tables: Map<Seq<char>, TableView>, code: Seq<char>, update: UpdateView)
    ensures
        tables_after(tables, code, update).dom() == tables.dom(),
{
    assert(tables_after(tables, code, update).dom() =~= tables.dom());
}

/// A message changes no table but the one it is addressed to.
pub proof fn lemma_other_tables_untouched(
    tables: Map<Seq<char>, TableView>,
    code: Seq<char>,
    update: UpdateView,
    other: Seq<char>,
)
    requires
        other != code,
    ensures
        tables_after(tables, code, update).contains_key(other) == tables.contains_key(other),
        tables.contains_key(other) ==> tables_after(tables, code, update)[other] == tables[other],
{
}

/// A sweep never adds a table and never changes one: under any rule, what
/// stands in the registry afterwards stood there before, as it is.
pub proof fn lemma_sweep_only_drops<R: Retention>(
    tables: Map<Seq<char>, TableView>,
    rule: R,
    code: Seq<char>,
)
    requires
        swept(tables, rule).contains_key(code),
    ensures
        tables.contains_key(code),
        swept(tables, rule)[code] == tables[code],
        rule.keeps(code, tables[code]),
{
}

/// Under the rule that keeps every table, the sweep changes nothing.
pub proof fn lemma_sweep_keeps_all(tables: Map<Seq<char>, TableView>)
    ensures
        swept(tables, RetainAll) == tables,
{
}

/// A removed element is gone: a move that names it afterwards is dropped.
pub proof fn lemma_move_after_delete(table: TableView, id: u32, top: usize, left: usize)
    requires
        table.elements.contains_key(id),
    ensures
        ({
            let removed = after(table, UpdateView::ElementDelete { id });
            &&& broadcast(table, UpdateView::ElementDelete { id }) == Some(
                UpdateView::ElementDelete { id },
            )
            &&& !removed.elements.contains_key(id)
            &&& broadcast(removed, UpdateView::Position { id, top, left }) is None
            &&& after(removed, UpdateView::Position { id, top, left }) == removed
        }),
{
}

} // verus!
