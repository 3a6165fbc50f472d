//! The mathematical model of a table and of the update protocol: what a table
//! is at any moment, and what one message does to it.

use vstd::prelude::*;

use crate::element::{placed, ElementView};

verus! {

/// A moment in time: whole seconds since the Unix epoch and the nanoseconds
/// past that second.
#[derive(Debug, Clone, Copy, PartialEq, Eq, Structural)]
pub struct Timestamp {
    pub secs: i64,
    pub nanos: u32,
}

/// Who may join a table, as the model sees it.
pub enum SharingView {
    Public,
    Password { password: Seq<char> },
    Whitelist,
}

/// A table at one moment.
pub struct TableView {
    /// When the table was made.
    pub created: Timestamp,
    /// The name it is shown under.
    pub name: Seq<char>,
    /// Who may join.
    pub sharing: SharingView,
    /// The user that made it, if one was signed in.
    pub host: Option<Seq<char>>,
    /// The identifier that the next new element gets.
    pub next_id: u32,
    /// The elements on the table, by identifier.
    pub elements: Map<u32, ElementView>,
    /// The icon packs loaded into the table.
    pub icon_packs: Set<u32>,
}

/// One message of the update protocol.
pub enum UpdateView {
    ElementDelete { id: u32 },
    Position { id: u32, top: usize, left: usize },
    IconpackLoad { pack: u32 },
    ElementCreate { icon_pack: u32, icon_id: u32, id: u32, top: usize, left: usize },
    Action { act: Seq<char> },
}

/// A table that has just been made: no elements yet, and the first element
/// will get the identifier 1.
pub open spec fn fresh_table(
    created: Timestamp,
    name: Seq<char>,
    sharing: SharingView,
    host: Option<Seq<char>>,
    icon_packs: Set<u32>,
) -> TableView {
    TableView {
        created,
        name,
        sharing,
        host,
        next_id: 1,
        elements: Map::empty(),
        icon_packs,
    }
}

/// Whether a table still has an identifier to give: its counter can rise.
/// A table that has given out every identifier takes no new element.
pub open spec fn has_id_left(table: TableView) -> bool {
    table.next_id < u32::MAX
}

/// Whether a table takes a message: a move or a removal needs its element, a
/// new element needs its icon pack loaded and an identifier left to give, a
/// pack is loaded only once, and an action is never taken.
pub open spec fn accepts(table: TableView, update: UpdateView) -> bool {
    match update {
        UpdateView::ElementDelete { id } => table.elements.contains_key(id),
        UpdateView::Position { id, .. } => table.elements.contains_key(id),
        UpdateView::IconpackLoad { pack } => !table.icon_packs.contains(pack),
        UpdateView::ElementCreate { icon_pack, .. } => table.icon_packs.contains(icon_pack)
            && has_id_left(table),
        UpdateView::Action { .. } => false,
    }
}

/// The message as viewers receive it once the table has taken it. A new
/// element carries the identifier that the table gave it, whatever the sender
/// wrote there; every other message goes out as it came in.
pub open spec fn amended(table: TableView, update: UpdateView) -> UpdateView {
    match update {
        UpdateView::ElementCreate { icon_pack, icon_id, top, left, .. } => {
            UpdateView::ElementCreate { icon_pack, icon_id, id: table.next_id, top, left }
        },
        _ => update,
    }
}

/// What goes out to the table's viewers for a message: the amended message if
/// the table takes it, nothing otherwise.
pub open spec fn broadcast(table: TableView, update: UpdateView) -> Option<UpdateView> {
    if accepts(table, update) {
        Some(amended(table, update))
    } else {
        None
    }
}

/// The table after a message. A message that is not taken leaves it as it
/// was.
pub open spec fn after(table: TableView, update: UpdateView) -> TableView {
    if !accepts(table, update) {
        table
    } else {
        match update {
            UpdateView::ElementDelete { id } => TableView {
                elements: table.elements.remove(id),
                ..table
            },
            UpdateView::Position { id, top, left } => TableView {
                elements: table.elements.insert(
                    id,
                    ElementView { top, left, ..table.elements[id] },
                ),
                ..table
            },
            UpdateView::IconpackLoad { pack } => TableView {
                icon_packs: table.icon_packs.insert(pack),
                ..table
            },
            UpdateView::ElementCreate { icon_pack, icon_id, top, left, .. } => TableView {
                next_id: (table.next_id + 1) as u32,
                elements: table.elements.insert(
                    table.next_id,
                    placed(table.next_id, icon_pack, icon_id, top, left),
                ),
                ..table
            },
            UpdateView::Action { .. } => table,
        }
    }
}

/// What goes out for a message addressed to a table by its code: what the
/// table says, or nothing where no table has that code.
pub open spec fn delivered(
    tables: Map<Seq<char>, TableView>,
    code: Seq<char>,
    update: UpdateView,
) -> Option<UpdateView> {
    if tables.contains_key(code) {
        broadcast(tables[code], update)
    } else {
        None
    }
}

/// The registry after a message addressed to a table by its code. Only that
/// table can change; where no table has the code, nothing does.
pub open spec fn tables_after(
    tables: Map<Seq<char>, TableView>,
    code: Seq<char>,
    update: UpdateView,
) -> Map<Seq<char>, TableView> {
    if tables.contains_key(code) {
        tables.insert(code, after(tables[code], update))
    } else {
        tables
    }
}

} // verus!
