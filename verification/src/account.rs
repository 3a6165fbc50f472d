//! Accounts: who a user is, what a user may do, and which page answers each
//! outcome of signing in, signing up and changing a password.

use vstd::prelude::*;

use crate::page::{Redirect, RedirectKind, Rendered, TemplateCtx, TemplateView};

verus! {

/// The account endpoints as one unit that a server mounts.
pub struct Routes;

impl Routes {
    /// The name under which the unit announces itself.
    pub fn name(&self) -> (name: &'static str)
        ensures
            name@ == "Account Routes"@,
    {
        "Account Routes"
    }
}

/// What a user is allowed to be. The user store keeps it as a number: 2 for
/// an administrator, 3 for an ordinary user.
#[derive(Debug, Clone, Copy, PartialEq, Eq, Structural)]
pub enum Role {
    Admin,
    User,
}

impl Role {
    /// The role that the user store keeps as `number`, if there is one.
    pub open spec fn of(number: i32) -> Option<Role> {
        if number == 2 {
            Some(Role::Admin)
        } else if number == 3 {
            Some(Role::User)
        } else {
            None
        }
    }

    /// The number that the user store keeps for the role.
    pub open spec fn spec_repr(self) -> i32 {
        match self {
            Role::Admin => 2,
            Role::User => 3,
        }
    }

    /// The role that a path segment names, if it names one: `admin` is the
    /// administrator and `owner` the ordinary user.
    pub open spec fn named(param: Seq<char>) -> Option<Role> {
        if param == "admin"@ {
            Some(Role::Admin)
        } else if param == "owner"@ {
            Some(Role::User)
        } else {
            None
        }
    }

    /// The role that the user store keeps as `number`; an error for a number
    /// that stands for no role.
    pub fn try_from(number: i32) -> (role: Result<Role, ()>)
        ensures
            match role {
                Ok(found) => Role::of(number) == Some(found),
                Err(_) => Role::of(number) is None,
            },
    {
        if number == 2 {
            Ok(Role::Admin)
        } else if number == 3 {
            Ok(Role::User)
        } else {
            Err(())
        }
    }

    /// The number that the user store keeps for the role.
    #[verifier::when_used_as_spec(spec_repr)]
    pub fn repr(self) -> (number: i32)
        ensures
            number == self.spec_repr(),
    {
        match self {
            Role::Admin => 2,
            Role::User => 3,
        }
    }

    /// The role that a path segment names; an error for any other segment.
    pub fn from_param(param: &str) -> (role: Result<Role, ()>)
        ensures
            match role {
                Ok(found) => Role::named(param@) == Some(found),
                Err(_) => Role::named(param@) is None,
            },
    {
        if str_eq(param, "admin") {
            Ok(Role::Admin)
        } else if str_eq(param, "owner") {
            Ok(Role::User)
        } else {
            Err(())
        }
    }
}

/// Reading a role back from its number gives the role, and a number that
/// stands for a role is the number of that role.
pub proof fn lemma_role_round_trip(role: Role, number: i32)
    ensures
        Role::of(role.spec_repr()) == Some(role),
        Role::of(number) matches Some(found) ==> found.spec_repr() == number,
{
}

/// Whether two strings hold the same text.
pub fn str_eq(a: &str, b: &str) -> (same: bool)
    ensures
        same == (a@ == b@),
{
    a.to_owned() == b.to_owned()
}

/// What the server knows of a user.
#[derive(Debug)]
pub struct UserInfo {
    username: String,
    email: String,
    role: Role,
}

/// What the server knows of a user, as the model sees it.
pub struct UserView {
    pub username: Seq<char>,
    pub email: Seq<char>,
    pub role: Role,
}

impl View for UserInfo {
    type V = UserView;

    closed spec fn view(&self) -> UserView {
        UserView { username: self.username@, email: self.email@, role: self.role }
    }
}

impl UserInfo {
    /// A user with the given name, address and role.
    pub fn new(username: String, email: String, role: Role) -> (user: Self)
        ensures
            user@ == (UserView { username: username@, email: email@, role }),
    {
        UserInfo { username, email, role }
    }

    /// A user who has just signed up: an ordinary user.
    pub fn signed_up(username: String, email: String) -> (user: Self)
        ensures
            user@ == (UserView { username: username@, email: email@, role: Role::User }),
    {
        UserInfo { username, email, role: Role::User }
    }

    /// The user as the user store keeps one, or `None` where the stored role
    /// is no role.
    pub fn from_row(username: String, email: String, role: i32) -> (user: Option<Self>)
        ensures
            match user {
                Some(found) => Role::of(role) == Some(found@.role) && found@.username == username@
                    && found@.email == email@,
                None => Role::of(role) is None,
            },
    {
        match Role::try_from(role) {
            Ok(role) => Some(UserInfo { username, email, role }),
            Err(_) => None,
        }
    }

    /// The user's name.
    pub fn username(&self) -> (username: &String)
        ensures
            username@ == self@.username,
    {
        &self.username
    }

    /// The user's address.
    pub fn email(&self) -> (email: &String)
        ensures
            email@ == self@.email,
    {
        &self.email
    }

    /// The user's role.
    pub fn role(&self) -> (role: Role)
        ensures
            role == self@.role,
    {
        self.role
    }

    /// Whether the user may see the administration panel: administrators
    /// may.
    pub fn may_view_admin_panel(&self) -> (allowed: bool)
        ensures
            allowed == (self@.role == Role::Admin),
    {
        match self.role {
            Role::Admin => true,
            Role::User => false,
        }
    }

    /// Whether the user may manage other users: administrators may.
    pub fn may_manage_users(&self) -> (allowed: bool)
        ensures
            allowed == (self@.role == Role::Admin),
    {
        match self.role {
            Role::Admin => true,
            Role::User => false,
        }
    }
}

impl Clone for UserInfo {
    fn clone(&self) -> (copy: Self)
        ensures
            copy@ == self@,
    {
        UserInfo {
            username: self.username.clone(),
            email: self.email.clone(),
            role: self.role,
        }
    }
}

/// How an attempt to sign in or to sign up ended.
#[derive(Debug)]
pub enum AuthOutcome {
    /// The user is signed in.
    Accepted(UserInfo),
    /// The attempt was turned down.
    Refused,
    /// The user store failed.
    Failed,
}

/// How an attempt to change a password ended.
#[derive(Debug)]
pub enum PasswordOutcome {
    /// The password is changed.
    Changed(UserInfo),
    /// The old password was wrong.
    Wrong(UserInfo),
    /// The user store failed.
    Failed,
}

/// The page that answers an attempt to sign in or up: the front page for a
/// user who is now signed in, and otherwise the form again, with the status
/// and the words for a refusal or for a failure of the user store.
pub open spec fn auth_page(
    outcome: AuthOutcome,
    form: Seq<char>,
    refused_status: u16,
    refused: Seq<char>,
) -> (u16, Seq<char>, TemplateView) {
    match outcome {
        AuthOutcome::Accepted(user) => (
            200,
            "index"@,
            TemplateView { page: "index"@, error: None, user: Some(user@), update_url: Some("/"@) },
        ),
        AuthOutcome::Refused => (
            refused_status,
            form,
            TemplateView { page: form, error: Some(refused), user: None, update_url: None },
        ),
        AuthOutcome::Failed => (
            500,
            form,
            TemplateView {
                page: form,
                error: Some("Internal Server Error"@),
                user: None,
                update_url: None,
            },
        ),
    }
}

/// Builds the page that answers an attempt to sign in or up.
fn answer_auth(
    outcome: AuthOutcome,
    form: &'static str,
    refused_status: u16,
    refused: &'static str,
) -> (page: Rendered)
    ensures
        page@ == auth_page(outcome, form@, refused_status, refused@),
{
    match outcome {
        AuthOutcome::Accepted(user) => Rendered {
            status: 200,
            template: "index",
            context: TemplateCtx {
                page: "index",
                error: None,
                user: Some(user),
                update_url: Some("/"),
            },
        },
        AuthOutcome::Refused => Rendered {
            status: refused_status,
            template: form,
            context: TemplateCtx { page: form, error: Some(refused), user: None, update_url: None },
        },
        AuthOutcome::Failed => Rendered {
            status: 500,
            template: form,
            context: TemplateCtx {
                page: form,
                error: Some("Internal Server Error"),
                user: None,
                update_url: None,
            },
        },
    }
}

/// The page that answers an attempt to sign in with a name and a password.
/// A refusal is status 401.
pub fn login(outcome: AuthOutcome) -> (page: Rendered)
    ensures
        page@ == auth_page(outcome, "account/login"@, 401, "Username or password is incorrect"@),
{
    answer_auth(outcome, "account/login", 401, "Username or password is incorrect")
}

/// The page that answers an attempt to sign in through Google. A refusal is
/// status 401.
pub fn google_login(outcome: AuthOutcome) -> (page: Rendered)
    ensures
        page@ == auth_page(outcome, "account/login"@, 401, "Account not found"@),
{
    answer_auth(outcome, "account/login", 401, "Account not found")
}

/// The page that answers an attempt to sign up. A refusal is status 400.
pub fn create_user(outcome: AuthOutcome) -> (page: Rendered)
    ensures
        page@ == auth_page(outcome, "account/create"@, 400, "Username is already taken"@),
{
    answer_auth(outcome, "account/create", 400, "Username is already taken")
}

/// The page that answers an attempt to change a password: the account page
/// in every case, with status 200 after a change, with status 401 and a
/// complaint after a wrong old password, and with status 500 after a failure
/// of the user store.
pub open spec fn password_page(outcome: PasswordOutcome) -> (u16, Seq<char>, TemplateView) {
    match outcome {
        PasswordOutcome::Changed(user) => (
            200,
            "account/update"@,
            TemplateView {
                page: "account/update"@,
                error: None,
                user: Some(user@),
                update_url: Some("account/update"@),
            },
        ),
        PasswordOutcome::Wrong(user) => (
            401,
            "account/update"@,
            TemplateView {
                page: "account/update"@,
                error: Some("Invalid Password"@),
                user: Some(user@),
                update_url: Some("account/update"@),
            },
        ),
        PasswordOutcome::Failed => (
            500,
            "account/update"@,
            TemplateView {
                page: "account/update"@,
                error: Some("Internal Server Error"@),
                user: None,
                update_url: Some("account/update"@),
            },
        ),
    }
}

/// The page that answers an attempt to change a password.
pub fn update_account_password(outcome: PasswordOutcome) -> (page: Rendered)
    ensures
        page@ == password_page(outcome),
{
    let (status, error, user) = match outcome {
        PasswordOutcome::Changed(user) => (200u16, None, Some(user)),
        PasswordOutcome::Wrong(user) => (401u16, Some("Invalid Password"), Some(user)),
        PasswordOutcome::Failed => (500u16, Some("Internal Server Error"), None),
    };
    Rendered {
        status,
        template: "account/update",
        context: TemplateCtx {
            page: "account/update",
            error,
            user,
            update_url: Some("account/update"),
        },
    }
}

/// A page of the account area that shows no user: the given template, under
/// the page name of the sign-in form.
pub open spec fn anonymous_page(template: Seq<char>) -> (u16, Seq<char>, TemplateView) {
    (
        200,
        template,
        TemplateView { page: "account/login"@, error: None, user: None, update_url: None },
    )
}

/// Builds a page of the account area that shows no user.
fn anonymous(template: &'static str) -> (page: Rendered)
    ensures
        page@ == anonymous_page(template@),
{
    Rendered {
        status: 200,
        template,
        context: TemplateCtx { page: "account/login", error: None, user: None, update_url: None },
    }
}

/// The sign-in form, or a redirect to the front page for a user who is
/// signed in already.
pub fn login_page(signed_in: bool) -> (page: Result<Rendered, Redirect>)
    ensures
        match page {
            Ok(form) => !signed_in && form@ == anonymous_page("account/login"@),
            Err(redirect) => signed_in && redirect@ == (RedirectKind::SeeOther, "/"@),
        },
{
    if signed_in {
        Err(Redirect { kind: RedirectKind::SeeOther, target: "/" })
    } else {
        Ok(anonymous("account/login"))
    }
}

/// The sign-up form, or a redirect to the front page for a user who is
/// signed in already.
pub fn create_account_page(signed_in: bool) -> (page: Result<Rendered, Redirect>)
    ensures
        match page {
            Ok(form) => !signed_in && form@ == anonymous_page("account/create"@),
            Err(redirect) => signed_in && redirect@ == (RedirectKind::SeeOther, "/"@),
        },
{
    if signed_in {
        Err(Redirect { kind: RedirectKind::SeeOther, target: "/" })
    } else {
        Ok(anonymous("account/create"))
    }
}

/// The page shown after signing out.
pub fn logout_page() -> (page: Rendered)
    ensures
        page@ == anonymous_page("account/logout"@),
{
    anonymous("account/logout")
}

/// The account area's root leads to the account page, for good.
pub fn account_redirect() -> (redirect: Redirect)
    ensures
        redirect@ == (RedirectKind::Permanent, "/account/update"@),
{
    Redirect { kind: RedirectKind::Permanent, target: "/account/update" }
}

/// The account page for a signed-in user, or a redirect to the sign-in form.
pub fn update_account_page(user: Option<UserInfo>) -> (page: Result<Rendered, Redirect>)
    ensures
        match page {
            Ok(shown) => user matches Some(info) && shown@ == (
                200u16,
                "account/update"@,
                TemplateView {
                    page: "account/update"@,
                    error: None,
                    user: Some(info@),
                    update_url: None,
                },
            ),
            Err(redirect) => user is None && redirect@ == (
                RedirectKind::SeeOther,
                "/account/login"@,
            ),
        },
{
    match user {
        Some(info) => Ok(
            Rendered {
                status: 200,
                template: "account/update",
                context: TemplateCtx {
                    page: "account/update",
                    error: None,
                    user: Some(info),
                    update_url: None,
                },
            },
        ),
        None => Err(Redirect { kind: RedirectKind::SeeOther, target: "/account/login" }),
    }
}

/// The administration panel, shown to the administrator `user`.
pub fn admin_panel(user: UserInfo) -> (page: Rendered)
    ensures
        page@ == (
            200u16,
            "admin/panel"@,
            TemplateView { page: "admin/panel"@, error: None, user: Some(user@), update_url: None },
        ),
{
    Rendered {
        status: 200,
        template: "admin/panel",
        context: TemplateCtx {
            page: "admin/panel",
            error: None,
            user: Some(user),
            update_url: None,
        },
    }
}

/// The status for a request into the administration area by anyone who may
/// not enter: 401.
pub fn get_admin_redirect() -> (status: u16)
    ensures
        status == 401,
{
    401
}

/// The status for a submission into the administration area by anyone who
/// may not enter: 401.
pub fn post_admin_redirect() -> (status: u16)
    ensures
        status == 401,
{
    401
}

/// Any other request into the account area leads to the sign-in form, for
/// now.
pub fn get_account_redirect() -> (redirect: Redirect)
    ensures
        redirect@ == (RedirectKind::Temporary, "/account/login"@),
{
    Redirect { kind: RedirectKind::Temporary, target: "/account/login" }
}

/// Any other submission into the account area leads to the sign-in form, for
/// now.
pub fn post_account_redirect() -> (redirect: Redirect)
    ensures
        redirect@ == (RedirectKind::Temporary, "/account/login"@),
{
    Redirect { kind: RedirectKind::Temporary, target: "/account/login" }
}

} // verus!
