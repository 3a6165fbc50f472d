//! One placed item on a table: which icon it shows, where it lies, and the
//! state reserved for later interactive behaviour.

use std::cmp::Ordering;
use vstd::prelude::*;
use vstd::std_specs::cmp::{PartialEqSpecImpl, PartialOrdSpecImpl};

use crate::store::{
    action_entries, actions_copy, actions_list, actions_new, item_entries, item_map_copy,
    item_members, item_set_copy, lists_actions, lists_properties, property_entries, props_copy,
    props_list, props_new,
};

verus! {

/// A value that an element's state can hold.
#[derive(Debug, Hash, PartialEq, Eq, PartialOrd, Ord)]
pub enum ItemState {
    /// A reference to one icon of a pack.
    Icon { icon_pack: u32, icon_id: u32 },
    /// A number.
    Num(usize),
    /// A piece of text.
    Str(String),
}

/// A value that an element's state can hold, as the model sees it.
pub enum ItemView {
    Icon { icon_pack: u32, icon_id: u32 },
    Num(usize),
    Str(Seq<char>),
}

impl View for ItemState {
    type V = ItemView;

    open spec fn view(&self) -> ItemView {
        match *self {
            ItemState::Icon { icon_pack, icon_id } => ItemView::Icon { icon_pack, icon_id },
            ItemState::Num(number) => ItemView::Num(number),
            ItemState::Str(text) => ItemView::Str(text@),
        }
    }
}

impl Clone for ItemState {
    fn clone(&self) -> (copy: Self)
        ensures
            copy@ == self@,
    {
        match self {
            ItemState::Icon { icon_pack, icon_id } => ItemState::Icon {
                icon_pack: *icon_pack,
                icon_id: *icon_id,
            },
            ItemState::Num(number) => ItemState::Num(*number),
            ItemState::Str(text) => ItemState::Str(text.clone()),
        }
    }
}

/// One named entry of an element's state.
#[derive(Debug)]
pub enum Property {
    /// A single item.
    Single(ItemState),
    /// A set of items.
    List(flurry::HashSet<ItemState>),
    /// Items by name.
    Obj(flurry::HashMap<String, ItemState>),
}

/// One named entry of an element's state, as the model sees it.
pub enum PropertyView {
    Single(ItemView),
    List(Set<ItemView>),
    Obj(Map<Seq<char>, ItemView>),
}

impl View for Property {
    type V = PropertyView;

    open spec fn view(&self) -> PropertyView {
        match *self {
            Property::Single(item) => PropertyView::Single(item@),
            Property::List(items) => PropertyView::List(item_members(items)),
            Property::Obj(items) => PropertyView::Obj(item_entries(items)),
        }
    }
}

impl Clone for Property {
    fn clone(&self) -> (copy: Self)
        ensures
            copy@ == self@,
    {
        match self {
            Property::Single(item) => Property::Single(item.clone()),
            Property::List(items) => Property::List(item_set_copy(items)),
            Property::Obj(items) => Property::Obj(item_map_copy(items)),
        }
    }
}

/// What an element can be asked to do. No message of the protocol carries one
/// out yet.
#[derive(Debug, Hash, PartialEq, Eq, PartialOrd, Ord)]
pub enum Action {
    /// Draw from the named state entry.
    Draw(String),
    /// Select within the named state entry.
    Select(String),
}

/// What an element can be asked to do, as the model sees it.
pub enum ActionView {
    Draw(Seq<char>),
    Select(Seq<char>),
}

impl View for Action {
    type V = ActionView;

    open spec fn view(&self) -> ActionView {
        match *self {
            Action::Draw(entry) => ActionView::Draw(entry@),
            Action::Select(entry) => ActionView::Select(entry@),
        }
    }
}

impl Clone for Action {
    fn clone(&self) -> (copy: Self)
        ensures
            copy@ == self@,
    {
        match self {
            Action::Draw(entry) => Action::Draw(entry.clone()),
            Action::Select(entry) => Action::Select(entry.clone()),
        }
    }
}

/// An element at one moment: its identity, its icon, its position, and the
/// state and actions reserved for later interactive behaviour.
pub struct ElementView {
    pub icon_pack: u32,
    pub icon_id: u32,
    pub element_id: u32,
    pub top: usize,
    pub left: usize,
    /// The state that every viewer may see.
    pub public_state: Map<Seq<char>, PropertyView>,
    /// The state that only the element's owner may see.
    pub private_state: Map<Seq<char>, PropertyView>,
    /// The actions that the element offers.
    pub action: Map<Seq<char>, ActionView>,
}

/// An element that has just been put on a table: it has no state and offers
/// no actions.
pub open spec fn placed(
    element_id: u32,
    icon_pack: u32,
    icon_id: u32,
    top: usize,
    left: usize,
) -> ElementView {
    ElementView {
        icon_pack,
        icon_id,
        element_id,
        top,
        left,
        public_state: Map::empty(),
        private_state: Map::empty(),
        action: Map::empty(),
    }
}

/// An element as a table stores it.
#[derive(Debug)]
pub struct ElementState {
    icon_pack: u32,
    icon_id: u32,
    element_id: u32,
    top: usize,
    left: usize,
    public_state: flurry::HashMap<String, Property>,
    private_state: flurry::HashMap<String, Property>,
    action: flurry::HashMap<String, Action>,
}

impl View for ElementState {
    type V = ElementView;

    closed spec fn view(&self) -> ElementView {
        ElementView {
            icon_pack: self.icon_pack,
            icon_id: self.icon_id,
            element_id: self.element_id,
            top: self.top,
            left: self.left,
            public_state: property_entries(self.public_state),
            private_state: property_entries(self.private_state),
            action: action_entries(self.action),
        }
    }
}

impl ElementState {
    /// A new element with the given identity, icon and position, and with no
    /// state and no actions.
    pub fn new(element_id: u32, icon_pack: u32, icon_id: u32, top: usize, left: usize) -> (el: Self)
        ensures
            el@ == placed(element_id, icon_pack, icon_id, top, left),
    {
        ElementState {
            icon_pack,
            icon_id,
            element_id,
            top,
            left,
            public_state: props_new(),
            private_state: props_new(),
            action: actions_new(),
        }
    }

    /// The same element at another position.
    pub fn moved_to(self, top: usize, left: usize) -> (el: Self)
        ensures
            el@ == (ElementView { top, left, ..self@ }),
    {
        ElementState { top, left, ..self }
    }

    /// The identifier that the table gave this element.
    pub fn element_id(&self) -> (id: u32)
        ensures
            id == self@.element_id,
    {
        self.element_id
    }

    /// The icon pack that the element's icon comes from.
    pub fn icon_pack(&self) -> (pack: u32)
        ensures
            pack == self@.icon_pack,
    {
        self.icon_pack
    }

    /// The icon within its pack.
    pub fn icon_id(&self) -> (icon: u32)
        ensures
            icon == self@.icon_id,
    {
        self.icon_id
    }

    /// The distance from the table's upper edge.
    pub fn top(&self) -> (top: usize)
        ensures
            top == self@.top,
    {
        self.top
    }

    /// The distance from the table's left edge.
    pub fn left(&self) -> (left: usize)
        ensures
            left == self@.left,
    {
        self.left
    }

    /// A copy of the state that every viewer may see: each entry with its
    /// name, each name once, in no particular order.
    pub fn public_state(&self) -> (list: Vec<(String, Property)>)
        ensures
            lists_properties(list@, self@.public_state),
    {
        props_list(&self.public_state)
    }

    /// A copy of the state that only the element's owner may see: each entry
    /// with its name, each name once, in no particular order.
    pub fn private_state(&self) -> (list: Vec<(String, Property)>)
        ensures
            lists_properties(list@, self@.private_state),
    {
        props_list(&self.private_state)
    }

    /// A copy of the actions that the element offers: each with its name,
    /// each name once, in no particular order.
    pub fn action(&self) -> (list: Vec<(String, Action)>)
        ensures
            lists_actions(list@, self@.action),
    {
        actions_list(&self.action)
    }
}

impl Clone for ElementState {
    fn clone(&self) -> (el: Self)
        ensures
            el@ == self@,
    {
        ElementState {
            icon_pack: self.icon_pack,
            icon_id: self.icon_id,
            element_id: self.element_id,
            top: self.top,
            left: self.left,
            public_state: props_copy(&self.public_state),
            private_state: props_copy(&self.private_state),
            action: actions_copy(&self.action),
        }
    }
}

impl PartialEq for ElementState {
    /// Two records are the same element when they bear the same identifier.
    fn eq(&self, other: &Self) -> (same: bool) {
        self.element_id == other.element_id
    }
}

impl PartialEqSpecImpl for ElementState {
    open spec fn obeys_eq_spec() -> bool {
        true
    }

    open spec fn eq_spec(&self, other: &Self) -> bool {
        self@.element_id == other@.element_id
    }
}

impl Eq for ElementState {

}

impl PartialOrd for ElementState {
    /// Elements are ordered by their identifiers, and so by their age.
    fn partial_cmp(&self, other: &Self) -> (order: Option<Ordering>) {
        if self.element_id < other.element_id {
            Some(Ordering::Less)
        } else if self.element_id == other.element_id {
            Some(Ordering::Equal)
        } else {
            Some(Ordering::Greater)
        }
    }
}

impl PartialOrdSpecImpl for ElementState {
    open spec fn obeys_partial_cmp_spec() -> bool {
        true
    }

    open spec fn partial_cmp_spec(&self, other: &Self) -> Option<Ordering> {
        if self@.element_id < other@.element_id {
            Some(Ordering::Less)
        } else if self@.element_id == other@.element_id {
            Some(Ordering::Equal)
        } else {
            Some(Ordering::Greater)
        }
    }
}

} // verus!
