//! Pages: what a template is given to render, and where a redirect leads.

use vstd::prelude::*;

use crate::account::{str_eq, UserInfo, UserView};
use crate::icons::{cards_pack, default_packs, icons_pack, ItemPack};
use crate::table::GlobalState;

verus! {

/// What every template is given.
#[derive(Debug)]
pub struct TemplateCtx {
    /// The name of the page.
    pub page: &'static str,
    /// A complaint to show, if there is one.
    pub error: Option<&'static str>,
    /// The user who is signed in, if one is.
    pub user: Option<UserInfo>,
    /// The address that the browser's address bar is to show instead of the
    /// one requested.
    pub update_url: Option<&'static str>,
}

/// What every template is given, as the model sees it.
pub struct TemplateView {
    pub page: Seq<char>,
    pub error: Option<Seq<char>>,
    pub user: Option<UserView>,
    pub update_url: Option<Seq<char>>,
}

/// The view of an optional piece of fixed text.
pub open spec fn fixed_text(text: Option<&'static str>) -> Option<Seq<char>> {
    match text {
        Some(s) => Some(s@),
        None => None,
    }
}

/// The view of an optional user.
pub open spec fn user_view(user: Option<UserInfo>) -> Option<UserView> {
    match user {
        Some(info) => Some(info@),
        None => None,
    }
}

impl View for TemplateCtx {
    type V = TemplateView;

    open spec fn view(&self) -> TemplateView {
        TemplateView {
            page: self.page@,
            error: fixed_text(self.error),
            user: user_view(self.user),
            update_url: fixed_text(self.update_url),
        }
    }
}

/// A page to render: the status to answer with, the template, and what the
/// template is given.
#[derive(Debug)]
pub struct Rendered {
    pub status: u16,
    pub template: &'static str,
    pub context: TemplateCtx,
}

impl View for Rendered {
    type V = (u16, Seq<char>, TemplateView);

    open spec fn view(&self) -> (u16, Seq<char>, TemplateView) {
        (self.status, self.template@, self.context@)
    }
}

/// How lasting a redirect is.
#[derive(Debug, Clone, Copy, PartialEq, Eq, Structural)]
pub enum RedirectKind {
    /// Fetch the other page instead, this time: status 303.
    SeeOther,
    /// Ask the other address instead, this time: status 307.
    Temporary,
    /// Ask the other address instead, from now on: status 308.
    Permanent,
}

/// A redirect to a fixed address.
#[derive(Debug)]
pub struct Redirect {
    pub kind: RedirectKind,
    pub target: &'static str,
}

impl View for Redirect {
    type V = (RedirectKind, Seq<char>);

    open spec fn view(&self) -> (RedirectKind, Seq<char>) {
        (self.kind, self.target@)
    }
}

/// A page that shows nothing but, perhaps, the user: status 200, the
/// template named like the page.
pub open spec fn plain_page(page: Seq<char>, user: Option<UserView>) -> (
    u16,
    Seq<char>,
    TemplateView,
) {
    (200, page, TemplateView { page, error: None, user, update_url: None })
}

/// Builds a page that shows nothing but, perhaps, the user.
fn plain(page: &'static str, user: Option<UserInfo>) -> (rendered: Rendered)
    ensures
        rendered@ == plain_page(page@, user_view(user)),
{
    Rendered {
        status: 200,
        template: page,
        context: TemplateCtx { page, error: None, user, update_url: None },
    }
}

/// The front page. It shows no user.
pub fn index() -> (rendered: Rendered)
    ensures
        rendered@ == plain_page("index"@, None),
{
    plain("index", None)
}

/// The pages that are served under their own name.
#[derive(Debug, Clone, Copy, PartialEq, Eq, Structural)]
pub enum Page {
    /// The form that asks for a table's code.
    Find,
}

impl Page {
    /// The name of the page's template, which is also its path segment.
    pub open spec fn spec_file_name(&self) -> Seq<char> {
        match self {
            Page::Find => "find"@,
        }
    }

    /// The page that a path segment names; an error for any other segment.
    pub fn from_param(param: &str) -> (page: Result<Page, ()>)
        ensures
            match page {
                Ok(found) => found.spec_file_name() == param@,
                Err(_) => forall|any: Page| any.spec_file_name() != param@,
            },
    {
        if str_eq(param, "find") {
            Ok(Page::Find)
        } else {
            Err(())
        }
    }

    /// The name of the page's template, which is also its path segment.
    pub fn file_name(&self) -> (name: &'static str)
        ensures
            name@ == self.spec_file_name(),
    {
        match self {
            Page::Find => "find",
        }
    }
}

/// One of the pages that are served under their own name.
pub fn pages(page: Page, user: Option<UserInfo>) -> (rendered: Rendered)
    ensures
        rendered@ == plain_page(page.spec_file_name(), user_view(user)),
{
    plain(page.file_name(), user)
}

/// What the page that makes a table is given: the common context and the
/// packs on offer.
#[derive(Debug)]
pub struct CreateCtx {
    pub tem: TemplateCtx,
    pub item_packs: Vec<ItemPack>,
}

/// The page that makes a table, with the packs on offer: the cards, then the
/// icons.
pub fn create(user: Option<UserInfo>) -> (context: CreateCtx)
    ensures
        context.tem@ == (TemplateView {
            page: "create"@,
            error: None,
            user: user_view(user),
            update_url: None,
        }),
        context.item_packs@.len() == 2,
        context.item_packs@[0]@ == cards_pack(),
        context.item_packs@[1]@ == icons_pack(),
{
    CreateCtx {
        tem: TemplateCtx { page: "create", error: None, user, update_url: None },
        item_packs: default_packs(),
    }
}

/// The page of the table that `id` names, or the status 404 where no table
/// has that code.
pub fn table(id: &str, user: Option<UserInfo>, state: &GlobalState) -> (page: Result<Rendered, u16>)
    ensures
        match page {
            Ok(rendered) => state@.contains_key(id@) && rendered@ == plain_page(
                "table"@,
                user_view(user),
            ),
            Err(status) => !state@.contains_key(id@) && status == 404,
        },
{
    if state.contains(id) {
        Ok(plain("table", user))
    } else {
        Err(404)
    }
}

/// The answer to a search for the table that `code` names: `Ok` where the
/// table exists, and the caller then leads on to the table's page; otherwise
/// the search form again, with status 400 and a complaint.
pub fn find_table(code: &str, state: &GlobalState, user: Option<UserInfo>) -> (found: Result<
    (),
    Rendered,
>)
    ensures
        match found {
            Ok(_) => state@.contains_key(code@),
            Err(rendered) => !state@.contains_key(code@) && rendered@ == (
                400u16,
                "find"@,
                TemplateView {
                    page: "find"@,
                    error: Some("Table not found"@),
                    user: user_view(user),
                    update_url: None,
                },
            ),
        },
{
    if state.contains(code) {
        Ok(())
    } else {
        Err(
            Rendered {
                status: 400,
                template: "find",
                context: TemplateCtx {
                    page: "find",
                    error: Some("Table not found"),
                    user,
                    update_url: None,
                },
            },
        )
    }
}

} // verus!
