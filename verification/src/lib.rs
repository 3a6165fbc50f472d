//! A shared tabletop: a registry of live tables, each holding placed elements
//! and loaded icon packs, and the update protocol that validates one client
//! message against a table and decides what every viewer is told.
//!
//! The [`model`] says what a table is and what a message does to it; the
//! [`laws`] say what follows for every table. [`session`] and [`table`] hold
//! the tables and the registry that keep to the model, and [`store`] lists
//! what is taken on trust about the collections underneath.
//!
//! A table and the registry are changed through an exclusive reference. A
//! server that answers many clients at once shares the registry behind a
//! lock and sends what [`table::handle_message`] returns to the viewers of
//! the table.

pub mod account;
pub mod code;
pub mod element;
pub mod icons;
pub mod laws;
pub mod model;
pub mod page;
pub mod response;
pub mod session;
pub mod store;
pub mod table;
pub mod update;

pub use page::{index, pages, Page, TemplateCtx};
pub use response::{APIResponse, Empty, Error};
