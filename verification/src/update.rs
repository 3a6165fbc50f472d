//! The messages that clients send over a table's live channel.

use vstd::prelude::*;

use crate::model::UpdateView;

verus! {

/// One message on a table's live channel. The same shape travels both ways:
/// from a client to the table, and from the table to every viewer.
#[derive(Debug, PartialEq, Eq)]
pub enum TableUpdate {
    /// Take the element off the table.
    ElementDelete { id: u32 },
    /// Move the element.
    Position { id: u32, top: usize, left: usize },
    /// Make the icons of a pack available on the table.
    IconpackLoad { pack: u32 },
    /// Put a new element on the table. The table chooses `id`; what the
    /// sender writes there is ignored.
    ElementCreate { icon_pack: u32, icon_id: u32, id: u32, top: usize, left: usize },
    /// Reserved: no table acts on it.
    Action { act: String },
}

impl View for TableUpdate {
    type V = UpdateView;

    open spec fn view(&self) -> UpdateView {
        match *self {
            TableUpdate::ElementDelete { id } => UpdateView::ElementDelete { id },
            TableUpdate::Position { id, top, left } => UpdateView::Position { id, top, left },
            TableUpdate::IconpackLoad { pack } => UpdateView::IconpackLoad { pack },
            TableUpdate::ElementCreate { icon_pack, icon_id, id, top, left } => {
                UpdateView::ElementCreate { icon_pack, icon_id, id, top, left }
            },
            TableUpdate::Action { act } => UpdateView::Action { act: act@ },
        }
    }
}

impl Clone for TableUpdate {
    fn clone(&self) -> (copy: Self)
        ensures
            copy@ == self@,
    {
        match self {
            TableUpdate::ElementDelete { id } => TableUpdate::ElementDelete { id: *id },
            TableUpdate::Position { id, top, left } => TableUpdate::Position {
                id: *id,
                top: *top,
                left: *left,
            },
            TableUpdate::IconpackLoad { pack } => TableUpdate::IconpackLoad { pack: *pack },
            TableUpdate::ElementCreate { icon_pack, icon_id, id, top, left } => {
                TableUpdate::ElementCreate {
                    icon_pack: *icon_pack,
                    icon_id: *icon_id,
                    id: *id,
                    top: *top,
                    left: *left,
                }
            },
            TableUpdate::Action { act } => TableUpdate::Action { act: act.clone() },
        }
    }
}

} // verus!
