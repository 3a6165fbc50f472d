//! The registry of live tables and what its endpoints decide: making a table,
//! looking one up, and passing a message on to the table it names.

use vstd::prelude::*;
use vstd::string::*;

use crate::code::{table_code, upper_hex};
use crate::model::{delivered, fresh_table, tables_after, SharingView, TableView, Timestamp};
use crate::response::{APIResponse, Error};
use crate::session::{message_of, text_of};
use crate::store::{
    now, pack_members, packs_insert, packs_new, random_u16, table_entries, tables_contains,
    tables_get, tables_insert, tables_new, tables_retain, tables_try_insert,
};

pub use crate::element::ElementState;
pub use crate::icons::{default_packs, get_icon_pack, Icon, IconPack, IconType, ItemPack};
pub use crate::page::{create, find_table, table};
pub use crate::session::{tester_table, SharingType, TableState};
pub use crate::update::TableUpdate;

verus! {

/// The seconds between two sweeps of the registry: four hours.
pub const SWEEP_INTERVAL_SECS: u64 = 4 * 60 * 60;

/// The table endpoints as one unit that a server mounts.
pub struct Routes;

impl Routes {
    /// The name under which the unit announces itself. It is the name that
    /// the account endpoints announce themselves under, too.
    pub fn name(&self) -> (name: &'static str)
        ensures
            name@ == "Account Routes"@,
    {
        "Account Routes"
    }
}

/// Why the icon catalog could not resolve a name.
#[derive(Debug, Clone, Copy, PartialEq, Eq, Structural)]
pub enum CatalogError {
    /// The catalog has no pack of that name.
    NotFound,
    /// The catalog could not be read.
    Internal,
}

/// What the catalog made of a list of pack names, in the order of the names:
/// the first failure, or else the set of the identifiers that it found.
pub open spec fn catalog_outcome(found: Seq<Result<u32, CatalogError>>) -> Result<
    Set<u32>,
    CatalogError,
>
    decreases found.len(),
{
    if found.len() == 0 {
        Ok(Set::empty())
    } else {
        match catalog_outcome(found.drop_last()) {
            Err(failure) => Err(failure),
            Ok(packs) => match found.last() {
                Ok(pack) => Ok(packs.insert(pack)),
                Err(failure) => Err(failure),
            },
        }
    }
}

/// A failure among the first answers is the failure of the whole list.
proof fn lemma_failure_stays(found: Seq<Result<u32, CatalogError>>, n: int)
    requires
        0 <= n <= found.len(),
        catalog_outcome(found.take(n)) is Err,
    ensures
        catalog_outcome(found) == catalog_outcome(found.take(n)),
    decreases found.len() - n,
{
    if n < found.len() {
        assert(found.take(n + 1).drop_last() =~= found.take(n));
        lemma_failure_stays(found, n + 1);
    } else {
        assert(found.take(n) =~= found);
    }
}

/// Collects the icon packs that the catalog found for a list of names.
/// `found` holds the catalog's answers in the order of the names; answers
/// after the first failure do not matter.
pub fn lookup_ids(found: &Vec<Result<u32, CatalogError>>) -> (ids: Result<
    flurry::HashSet<u32>,
    CatalogError,
>)
    ensures
        match ids {
            Ok(packs) => catalog_outcome(found@) == Ok::<Set<u32>, CatalogError>(
                pack_members(packs),
            ),
            Err(failure) => catalog_outcome(found@) == Err::<Set<u32>, CatalogError>(failure),
        },
{
    let mut packs = packs_new();
    let mut i: usize = 0;
    while i < found.len()
        invariant
            i <= found.len(),
            catalog_outcome(found@.take(i as int)) == Ok::<Set<u32>, CatalogError>(
                pack_members(packs),
            ),
        decreases found.len() - i,
    {
        proof {
            assert(found@.take(i + 1).drop_last() =~= found@.take(i as int));
        }
        match found[i] {
            Ok(pack) => {
                packs_insert(&mut packs, pack);
            },
            Err(failure) => {
                proof {
                    lemma_failure_stays(found@, i + 1);
                }
                return Err(failure);
            },
        }
        i += 1;
    }
    proof {
        assert(found@.take(found@.len() as int) =~= found@);
    }
    Ok(packs)
}

/// A retention rule for the periodic sweep: which tables stay in the
/// registry.
pub trait Retention {
    /// Whether the rule keeps the table that stands under the code.
    spec fn keeps(&self, code: Seq<char>, table: TableView) -> bool;

    /// Whether the rule keeps the table that stands under the code.
    fn keep(&self, code: &String, table: &TableState) -> (kept: bool)
        ensures
            kept == self.keeps(code@, table@),
    ;
}

/// The rule that keeps every table.
#[derive(Debug, Clone, Copy)]
pub struct RetainAll;

impl Retention for RetainAll {
    open spec fn keeps(&self, code: Seq<char>, table: TableView) -> bool {
        true
    }

    fn keep(&self, code: &String, table: &TableState) -> (kept: bool) {
        true
    }
}

/// The registry after a sweep under a rule: the tables that the rule keeps,
/// each as it was.
pub open spec fn swept<R: Retention>(tables: Map<Seq<char>, TableView>, rule: R) -> Map<
    Seq<char>,
    TableView,
> {
    Map::new(
        |code: Seq<char>| tables.contains_key(code) && rule.keeps(code, tables[code]),
        |code: Seq<char>| tables[code],
    )
}

/// The registry of live tables, by code.
#[derive(Debug)]
pub struct GlobalState {
    map: flurry::HashMap<String, TableState>,
}

impl View for GlobalState {
    type V = Map<Seq<char>, TableView>;

    closed spec fn view(&self) -> Map<Seq<char>, TableView> {
        table_entries(self.map)
    }
}

impl GlobalState {
    /// A registry that holds no table.
    pub fn new() -> (state: Self)
        ensures
            state@ == (Map::<Seq<char>, TableView>::empty()),
    {
        GlobalState { map: tables_new() }
    }

    /// Whether a table is registered under the code.
    pub fn contains(&self, code: &str) -> (found: bool)
        ensures
            found == self@.contains_key(code@),
    {
        tables_contains(&self.map, code)
    }

    /// A snapshot of the table registered under the code, if there is one.
    pub fn lookup(&self, code: &str) -> (found: Option<TableState>)
        ensures
            found is Some == self@.contains_key(code@),
            found matches Some(table) ==> table@ == self@[code@],
    {
        tables_get(&self.map, code)
    }

    /// Registers a table under a code that is still free. Where the code is
    /// taken the registry stays as it was and the result is `false`.
    pub fn register(&mut self, code: String, table: TableState) -> (registered: bool)
        ensures
            registered == !old(self)@.contains_key(code@),
            registered ==> final(self)@ == old(self)@.insert(code@, table@),
            !registered ==> final(self)@ == old(self)@,
    {
        tables_try_insert(&mut self.map, code, table)
    }

    /// Drops the tables that the given rule does not keep.
    pub fn sweep_with<R: Retention>(&mut self, rule: &R)
        ensures
            final(self)@ == swept(old(self)@, *rule),
    {
        tables_retain(&mut self.map, rule)
    }

    /// The periodic sweep. No rule for dropping tables is set, so it keeps
    /// every table.
    pub fn sweep(&mut self)
        ensures
            final(self)@ == old(self)@,
    {
        self.sweep_with(&RetainAll);
    }
}

/// Passes a message on to the table that `id` names and returns what is to be
/// sent to every viewer of that table. Where no table has that code, or the
/// table drops the message, nothing is sent and nothing changes.
///
/// The registry hands out no exclusive reference to a table that it holds, so
/// the table is taken out as a snapshot, changed, and put back in place of
/// the one that was there.
pub fn handle_message(id: &str, state: &mut GlobalState, update: TableUpdate) -> (sent: Option<
    TableUpdate,
>)
    ensures
        final(state)@ == tables_after(old(state)@, id@, update@),
        message_of(sent) == delivered(old(state)@, id@, update@),
{
    match tables_get(&state.map, id) {
        None => None,
        Some(table) => {
            let mut table = table;
            let sent = table.apply(update);
            if sent.is_some() {
                tables_insert(&mut state.map, id.to_owned(), table);
            }
            sent
        },
    }
}

/// The answer to a successful request for a new table.
#[derive(Debug)]
pub struct TableName {
    /// The code under which the table is registered.
    pub id: String,
}

/// The body of a request for a new table.
#[derive(Debug)]
pub struct TableOptions {
    /// The name to show the table under.
    pub name: String,
    /// Who may join.
    pub sharing: SharingType,
    /// The names of the icon packs to load.
    pub icons: Vec<String>,
}

/// Whether `response` and `after` are what a request for a new table gives
/// when the code drawn for it is `number` and the clock says `created`:
/// a catalog failure is passed on and a taken code is an internal error, both
/// without a change to the registry; otherwise the new table stands under the
/// code and the code is the answer.
pub open spec fn creates(
    number: u16,
    created: Timestamp,
    name: Seq<char>,
    sharing: SharingView,
    host: Option<Seq<char>>,
    found: Seq<Result<u32, CatalogError>>,
    before: Map<Seq<char>, TableView>,
    after: Map<Seq<char>, TableView>,
    response: APIResponse<TableName>,
) -> bool {
    let code = upper_hex(number as nat);
    match catalog_outcome(found) {
        Err(CatalogError::NotFound) => {
            &&& response matches APIResponse::NotFound(error)
            &&& error@ == "Icon pack not found"@
            &&& after == before
        },
        Err(CatalogError::Internal) => {
            &&& response matches APIResponse::InternalError(error)
            &&& error@ == "Internal Error"@
            &&& after == before
        },
        Ok(packs) => if before.contains_key(code) {
            &&& response matches APIResponse::InternalError(error)
            &&& error@ == "Internal Error"@
            &&& after == before
        } else {
            &&& response matches APIResponse::Okay(table)
            &&& table.id@ == code
            &&& after == before.insert(code, fresh_table(created, name, sharing, host, packs))
        },
    }
}

/// Makes a table under the code that `number` names, stamped `created`.
/// `found` holds the catalog's answers for the pack names of `options`, in
/// their order.
pub fn create_table_as(
    number: u16,
    created: Timestamp,
    options: TableOptions,
    state: &mut GlobalState,
    host: Option<String>,
    found: &Vec<Result<u32, CatalogError>>,
) -> (response: APIResponse<TableName>)
    ensures
        creates(
            number,
            created,
            options.name@,
            options.sharing@,
            text_of(host),
            found@,
            old(state)@,
            final(state)@,
            response,
        ),
{
    let ids = match lookup_ids(found) {
        Ok(ids) => ids,
        Err(CatalogError::NotFound) => {
            return APIResponse::not_found(Error::new("Icon pack not found".to_owned()));
        },
        Err(CatalogError::Internal) => {
            return APIResponse::internal_error(Error::new("Internal Error".to_owned()));
        },
    };
    let table = TableState::at(created, options.name, options.sharing, host, ids);
    let id = table_code(number);
    if state.register(id.clone(), table) {
        APIResponse::ok(TableName { id })
    } else {
        APIResponse::internal_error(Error::new("Internal Error".to_owned()))
    }
}

/// Makes a table under a code drawn at random, stamped with the present
/// moment. `found` holds the catalog's answers for the pack names of
/// `options`, in their order.
pub fn create_table(
    options: TableOptions,
    state: &mut GlobalState,
    host: Option<String>,
    found: &Vec<Result<u32, CatalogError>>,
) -> (response: APIResponse<TableName>)
    ensures
        exists|number: u16, created: Timestamp|
            creates(
                number,
                created,
                options.name@,
                options.sharing@,
                text_of(host),
                found@,
                old(state)@,
                final(state)@,
                response,
            ),
{
    create_table_as(random_u16(), now(), options, state, host, found)
}

/// The text that says that nothing is registered under `id`.
pub open spec fn not_found_text(id: Seq<char>) -> Seq<char> {
    "`"@ + id + "` not found"@
}

/// The state of the table that `id` names, as a snapshot, or the answer that
/// there is no such table.
pub fn table_state(id: &str, state: &GlobalState) -> (response: APIResponse<TableState>)
    ensures
        match response {
            APIResponse::Okay(table) => state@.contains_key(id@) && table@ == state@[id@],
            APIResponse::NotFound(error) => !state@.contains_key(id@) && error@ == not_found_text(
                id@,
            ),
            APIResponse::InternalError(_) => false,
        },
{
    match state.lookup(id) {
        Some(table) => APIResponse::ok(table),
        None => {
            let mut text = "`".to_owned();
            text.append(id);
            text.append("` not found");
            APIResponse::not_found(Error::new(text))
        },
    }
}

} // verus!
