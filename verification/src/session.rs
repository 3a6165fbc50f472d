//! One table: its metadata, its elements and its loaded icon packs, and the
//! processing of one update message against it.

use vstd::prelude::*;

use crate::element::{placed, ElementState, ElementView};
use crate::model::{
    after, broadcast, fresh_table, SharingView, TableView, Timestamp, UpdateView,
};
use crate::store::{
    element_entries, elements_get, elements_insert, elements_list, elements_new, elements_remove,
    lists_entries, now, pack_members, packs_contains, packs_insert, packs_list, packs_new,
};
use crate::update::TableUpdate;

verus! {

/// Who may join a table. The table only records it.
#[derive(Debug, PartialEq, Eq)]
pub enum SharingType {
    /// Anyone who knows the code.
    Public {},
    /// Anyone who knows the code and the password.
    Password { password: String },
    /// Only users that the host has listed.
    Whitelist {},
}

impl View for SharingType {
    type V = SharingView;

    open spec fn view(&self) -> SharingView {
        match *self {
            SharingType::Public {} => SharingView::Public,
            SharingType::Password { password } => SharingView::Password { password: password@ },
            SharingType::Whitelist {} => SharingView::Whitelist,
        }
    }
}

impl Clone for SharingType {
    fn clone(&self) -> (copy: Self)
        ensures
            copy@ == self@,
    {
        match self {
            SharingType::Public {} => SharingType::Public {},
            SharingType::Password { password } => SharingType::Password {
                password: password.clone(),
            },
            SharingType::Whitelist {} => SharingType::Whitelist {},
        }
    }
}

/// The view of an optional string.
pub open spec fn text_of(text: Option<String>) -> Option<Seq<char>> {
    match text {
        Some(s) => Some(s@),
        None => None,
    }
}

/// The view of a message that may or may not go out.
pub open spec fn message_of(sent: Option<TableUpdate>) -> Option<UpdateView> {
    match sent {
        Some(message) => Some(message@),
        None => None,
    }
}

/// One live table.
#[derive(Debug)]
pub struct TableState {
    created: Timestamp,
    name: String,
    sharing: SharingType,
    host: Option<String>,
    cur_id: u32,
    elements: flurry::HashMap<u32, ElementState>,
    icon_packs: flurry::HashSet<u32>,
}

impl View for TableState {
    type V = TableView;

    closed spec fn view(&self) -> TableView {
        TableView {
            created: self.created,
            name: self.name@,
            sharing: self.sharing@,
            host: text_of(self.host),
            next_id: self.cur_id,
            elements: element_entries(self.elements),
            icon_packs: pack_members(self.icon_packs),
        }
    }
}

/// A table to try things out on: one element, made from the one loaded icon
/// pack, in the upper left corner.
pub open spec fn tester_table(created: Timestamp) -> TableView {
    TableView {
        created,
        name: "Default Tester"@,
        sharing: SharingView::Public,
        host: None,
        next_id: 2,
        elements: Map::empty().insert(1u32, placed(1, 1, 1, 0, 0)),
        icon_packs: Set::empty().insert(1u32),
    }
}

/// A set that holds the packs of a list.
pub fn packs_from(list: &Vec<u32>) -> (packs: flurry::HashSet<u32>)
    ensures
        pack_members(packs) == list@.to_set(),
{
    let mut packs = packs_new();
    let mut i: usize = 0;
    while i < list.len()
        invariant
            i <= list.len(),
            pack_members(packs) == list@.take(i as int).to_set(),
        decreases list.len() - i,
    {
        packs_insert(&mut packs, list[i]);
        proof {
            let before = list@.take(i as int);
            assert(list@.take(i + 1) =~= before.push(list@[i as int]));
            before.lemma_push_to_set_commute(list@[i as int]);
        }
        i += 1;
    }
    proof {
        assert(list@.take(list@.len() as int) =~= list@);
    }
    packs
}

/// A map that holds the elements of a list, each under its identifier.
fn elements_from(
    list: Vec<(u32, ElementState)>,
    Ghost(target): Ghost<Map<u32, ElementView>>,
) -> (elements: flurry::HashMap<u32, ElementState>)
    requires
        lists_entries(list@, target),
    ensures
        element_entries(elements) == target,
{
    let mut list = list;
    let mut elements = elements_new();
    while list.len() > 0
        invariant
            forall|i: int|
                0 <= i < list@.len() ==> target.contains_key((#[trigger] list@[i]).0)
                    && target[list@[i].0] == list@[i].1@,
            forall|i: int, j: int|
                0 <= i < j < list@.len() ==> (#[trigger] list@[i]).0 != (#[trigger] list@[j]).0,
            forall|id: u32| #[trigger]
                target.contains_key(id) ==> element_entries(elements).contains_key(id)
                    || exists|i: int| 0 <= i < list@.len() && (#[trigger] list@[i]).0 == id,
            forall|id: u32| #[trigger]
                element_entries(elements).contains_key(id) ==> target.contains_key(id)
                    && element_entries(elements)[id] == target[id],
        decreases list@.len(),
    {
        let ghost before = list@;
        let (id, element) = list.pop().unwrap();
        elements_insert(&mut elements, id, element);
        proof {
            assert forall|other: u32| #[trigger]
                target.contains_key(other) implies element_entries(elements).contains_key(other)
                || exists|i: int| 0 <= i < list@.len() && (#[trigger] list@[i]).0 == other by {
                if other != id && !element_entries(elements).contains_key(other) {
                    let k = choose|k: int|
                        0 <= k < before.len() && (#[trigger] before[k]).0 == other;
                    assert(list@[k].0 == other);
                }
            }
        }
    }
    elements
}

impl TableState {
    /// A table made at the given moment, with the given icon packs loaded and
    /// no elements.
    pub fn at(
        created: Timestamp,
        name: String,
        sharing: SharingType,
        host: Option<String>,
        icon_packs: flurry::HashSet<u32>,
    ) -> (table: Self)
        ensures
            table@ == fresh_table(
                created,
                name@,
                sharing@,
                text_of(host),
                pack_members(icon_packs),
            ),
    {
        TableState {
            created,
            name,
            sharing,
            host,
            cur_id: 1,
            elements: elements_new(),
            icon_packs,
        }
    }

    /// A table made now, with the given icon packs loaded and no elements.
    pub fn new(
        name: String,
        sharing: SharingType,
        host: Option<String>,
        icon_packs: flurry::HashSet<u32>,
    ) -> (table: Self)
        ensures
            table@ == fresh_table(
                table@.created,
                name@,
                sharing@,
                text_of(host),
                pack_members(icon_packs),
            ),
    {
        TableState::at(now(), name, sharing, host, icon_packs)
    }

    /// A table to try things out on, made now.
    pub fn tester() -> (table: Self)
        ensures
            table@ == tester_table(table@.created),
    {
        let mut elements = elements_new();
        elements_insert(&mut elements, 1, ElementState::new(1, 1, 1, 0, 0));
        let mut icon_packs = packs_new();
        packs_insert(&mut icon_packs, 1);
        TableState {
            created: now(),
            name: "Default Tester".to_string(),
            sharing: SharingType::Public {},
            host: None,
            cur_id: 2,
            elements,
            icon_packs,
        }
    }

    /// When the table was made.
    pub fn created(&self) -> (created: Timestamp)
        ensures
            created == self@.created,
    {
        self.created
    }

    /// The name that the table is shown under.
    pub fn name(&self) -> (name: &String)
        ensures
            name@ == self@.name,
    {
        &self.name
    }

    /// Who may join the table.
    pub fn sharing(&self) -> (sharing: &SharingType)
        ensures
            sharing@ == self@.sharing,
    {
        &self.sharing
    }

    /// The user that made the table, if one was signed in.
    pub fn host(&self) -> (host: &Option<String>)
        ensures
            text_of(*host) == self@.host,
    {
        &self.host
    }

    /// The identifier that the next new element will get.
    pub fn next_element_id(&self) -> (id: u32)
        ensures
            id == self@.next_id,
    {
        self.cur_id
    }

    /// A copy of the element with the given identifier, if the table has one.
    pub fn element(&self, id: u32) -> (found: Option<ElementState>)
        ensures
            found is Some == self@.elements.contains_key(id),
            found matches Some(element) ==> element@ == self@.elements[id],
    {
        elements_get(&self.elements, id)
    }

    /// Whether the icon pack is loaded into the table.
    pub fn has_icon_pack(&self, pack: u32) -> (loaded: bool)
        ensures
            loaded == self@.icon_packs.contains(pack),
    {
        packs_contains(&self.icon_packs, pack)
    }

    /// A copy of every element on the table with its identifier, each once,
    /// in no particular order.
    pub fn elements(&self) -> (list: Vec<(u32, ElementState)>)
        ensures
            lists_entries(list@, self@.elements),
    {
        elements_list(&self.elements)
    }

    /// The icon packs loaded into the table, each once, in no particular
    /// order.
    pub fn icon_packs(&self) -> (list: Vec<u32>)
        ensures
            list@.no_duplicates(),
            list@.to_set() == self@.icon_packs,
    {
        packs_list(&self.icon_packs)
    }

    /// Processes one message: changes the table as the protocol says and
    /// returns what is to be sent to every viewer of the table, the sender
    /// included, or `None` where the message is dropped.
    pub fn apply(&mut self, update: TableUpdate) -> (sent: Option<TableUpdate>)
        ensures
            final(self)@ == after(old(self)@, update@),
            message_of(sent) == broadcast(old(self)@, update@),
    {
        match update {
            TableUpdate::Position { id, top, left } => {
                match elements_get(&self.elements, id) {
                    Some(element) => {
                        elements_insert(&mut self.elements, id, element.moved_to(top, left));
                        Some(TableUpdate::Position { id, top, left })
                    },
                    None => None,
                }
            },
            TableUpdate::IconpackLoad { pack } => {
                if packs_insert(&mut self.icon_packs, pack) {
                    Some(TableUpdate::IconpackLoad { pack })
                } else {
                    // Putting in what was there has left the set as it was.
                    assert(pack_members(self.icon_packs) =~= pack_members(old(self).icon_packs));
                    None
                }
            },
            TableUpdate::ElementCreate { icon_pack, icon_id, id: _, top, left } => {
                if !packs_contains(&self.icon_packs, icon_pack) {
                    return None;
                }
                if self.cur_id == u32::MAX {
                    // Every identifier has been given out; the counter
                    // cannot rise, so no element is made.
                    return None;
                }
                let id = self.cur_id;
                self.cur_id = id + 1;
                elements_insert(
                    &mut self.elements,
                    id,
                    ElementState::new(id, icon_pack, icon_id, top, left),
                );
                Some(TableUpdate::ElementCreate { icon_pack, icon_id, id, top, left })
            },
            TableUpdate::ElementDelete { id } => {
                if elements_remove(&mut self.elements, id) {
                    Some(TableUpdate::ElementDelete { id })
                } else {
                    // Taking out what was not there has left the map as it was.
                    assert(element_entries(self.elements) =~= element_entries(
                        old(self).elements,
                    ));
                    None
                }
            },
            TableUpdate::Action { .. } => None,
        }
    }
}

impl Clone for TableState {
    /// A snapshot: a table of its own that shows what this one shows now, and
    /// that later changes to this one do not reach.
    fn clone(&self) -> (copy: Self)
        ensures
            copy@ == self@,
    {
        let host = match &self.host {
            Some(user) => Some(user.clone()),
            None => None,
        };
        TableState {
            created: self.created,
            name: self.name.clone(),
            sharing: self.sharing.clone(),
            host,
            cur_id: self.cur_id,
            elements: elements_from(
                elements_list(&self.elements),
                Ghost(element_entries(self.elements)),
            ),
            icon_packs: packs_from(&packs_list(&self.icon_packs)),
        }
    }
}

} // verus!
