use tabletop::account::{
    account_redirect, admin_panel, create_account_page, create_user, get_account_redirect,
    get_admin_redirect, google_login, login, login_page, logout_page, post_account_redirect,
    post_admin_redirect, update_account_page, update_account_password, AuthOutcome,
    PasswordOutcome, Role, Routes, UserInfo,
};
use tabletop::icons::{default_packs, get_icon_pack, Icon, IconRow, IconType};
use tabletop::page::{create, find_table, index, pages, table, Page, RedirectKind, Rendered};
use tabletop::table::{CatalogError, GlobalState, TableState};
use tabletop::{APIResponse, Empty, Error, TemplateCtx};

fn ada() -> UserInfo {
    UserInfo::new("ada".to_string(), "ada@example.org".to_string(), Role::Admin)
}

fn bob() -> UserInfo {
    UserInfo::signed_up("bob".to_string(), "bob@example.org".to_string())
}

fn shown(context: &TemplateCtx) -> (&str, Option<&str>, Option<String>, Option<&str>) {
    (
        context.page,
        context.error,
        context.user.as_ref().map(|user| user.username().clone()),
        context.update_url,
    )
}

fn summary(page: &Rendered) -> (u16, &str, &str, Option<&str>, Option<String>, Option<&str>) {
    let (name, error, user, update_url) = shown(&page.context);
    (page.status, page.template, name, error, user, update_url)
}

#[test]
fn api_responses_carry_their_status() {
    assert_eq!(APIResponse::ok(5u8).status(), 200);
    assert_eq!(APIResponse::<u8>::not_found(Error::new("gone".to_string())).status(), 404);
    assert_eq!(APIResponse::<u8>::internal_error(Error::new("oops".to_string())).status(), 500);
    assert!(matches!(APIResponse::ok(5u8), APIResponse::Okay(5)));
    match APIResponse::<u8>::not_found(Error::new("gone".to_string())) {
        APIResponse::NotFound(error) => assert_eq!(error.text(), "gone"),
        _ => panic!("not a not-found answer"),
    }
    match APIResponse::<u8>::internal_error(Error::new("oops".to_string())) {
        APIResponse::InternalError(error) => assert_eq!(error.text(), "oops"),
        _ => panic!("not an internal error"),
    }
    assert!(matches!(APIResponse::empty(), APIResponse::Okay(Empty {})));
    assert!(matches!(APIResponse::<u32>::default(), APIResponse::Okay(0)));
    assert_eq!(Empty::default(), Empty {});
}

#[test]
fn roles_are_stored_as_numbers() {
    assert_eq!(Role::try_from(2), Ok(Role::Admin));
    assert_eq!(Role::try_from(3), Ok(Role::User));
    assert_eq!(Role::try_from(1), Err(()));
    assert_eq!(Role::try_from(0), Err(()));
    assert_eq!(Role::try_from(-2), Err(()));
    assert_eq!(Role::try_from(i32::MAX), Err(()));
    assert_eq!(Role::Admin.repr(), 2);
    assert_eq!(Role::User.repr(), 3);
    assert_eq!(Role::from_param("admin"), Ok(Role::Admin));
    assert_eq!(Role::from_param("owner"), Ok(Role::User));
    assert_eq!(Role::from_param("user"), Err(()));
    assert_eq!(Role::from_param("Admin"), Err(()));
    assert_eq!(Role::from_param(""), Err(()));
}

#[test]
fn users_are_read_from_their_rows() {
    let user = UserInfo::from_row("ada".to_string(), "a@b.c".to_string(), 2).unwrap();
    assert_eq!(user.username(), "ada");
    assert_eq!(user.email(), "a@b.c");
    assert_eq!(user.role(), Role::Admin);
    assert!(UserInfo::from_row("ada".to_string(), "a@b.c".to_string(), 4).is_none());
    assert_eq!(bob().role(), Role::User);
    assert!(ada().may_view_admin_panel());
    assert!(ada().may_manage_users());
    assert!(!bob().may_view_admin_panel());
    assert!(!bob().may_manage_users());
    assert_eq!(Routes.name(), "Account Routes");
}

#[test]
fn signing_in_answers_with_a_page() {
    assert_eq!(
        summary(&login(AuthOutcome::Accepted(ada()))),
        (200, "index", "index", None, Some("ada".to_string()), Some("/"))
    );
    assert_eq!(
        summary(&login(AuthOutcome::Refused)),
        (
            401,
            "account/login",
            "account/login",
            Some("Username or password is incorrect"),
            None,
            None
        )
    );
    assert_eq!(
        summary(&login(AuthOutcome::Failed)),
        (500, "account/login", "account/login", Some("Internal Server Error"), None, None)
    );
    assert_eq!(
        summary(&google_login(AuthOutcome::Accepted(bob()))),
        (200, "index", "index", None, Some("bob".to_string()), Some("/"))
    );
    assert_eq!(
        summary(&google_login(AuthOutcome::Refused)),
        (401, "account/login", "account/login", Some("Account not found"), None, None)
    );
    assert_eq!(
        summary(&google_login(AuthOutcome::Failed)),
        (500, "account/login", "account/login", Some("Internal Server Error"), None, None)
    );
}

#[test]
fn signing_up_answers_with_a_page() {
    assert_eq!(
        summary(&create_user(AuthOutcome::Accepted(bob()))),
        (200, "index", "index", None, Some("bob".to_string()), Some("/"))
    );
    assert_eq!(
        summary(&create_user(AuthOutcome::Refused)),
        (400, "account/create", "account/create", Some("Username is already taken"), None, None)
    );
    assert_eq!(
        summary(&create_user(AuthOutcome::Failed)),
        (500, "account/create", "account/create", Some("Internal Server Error"), None, None)
    );
}

#[test]
fn changing_a_password_answers_with_the_account_page() {
    assert_eq!(
        summary(&update_account_password(PasswordOutcome::Changed(ada()))),
        (
            200,
            "account/update",
            "account/update",
            None,
            Some("ada".to_string()),
            Some("account/update")
        )
    );
    assert_eq!(
        summary(&update_account_password(PasswordOutcome::Wrong(ada()))),
        (
            401,
            "account/update",
            "account/update",
            Some("Invalid Password"),
            Some("ada".to_string()),
            Some("account/update")
        )
    );
    assert_eq!(
        summary(&update_account_password(PasswordOutcome::Failed)),
        (
            500,
            "account/update",
            "account/update",
            Some("Internal Server Error"),
            None,
            Some("account/update")
        )
    );
}

#[test]
fn account_pages_and_redirects() {
    let form = login_page(false).unwrap();
    assert_eq!(summary(&form), (200, "account/login", "account/login", None, None, None));
    let away = login_page(true).unwrap_err();
    assert_eq!((away.kind, away.target), (RedirectKind::SeeOther, "/"));
    let form = create_account_page(false).unwrap();
    assert_eq!(summary(&form), (200, "account/create", "account/login", None, None, None));
    let away = create_account_page(true).unwrap_err();
    assert_eq!((away.kind, away.target), (RedirectKind::SeeOther, "/"));
    assert_eq!(
        summary(&logout_page()),
        (200, "account/logout", "account/login", None, None, None)
    );
    let root = account_redirect();
    assert_eq!((root.kind, root.target), (RedirectKind::Permanent, "/account/update"));
    let page = update_account_page(Some(bob())).unwrap();
    assert_eq!(
        summary(&page),
        (200, "account/update", "account/update", None, Some("bob".to_string()), None)
    );
    let away = update_account_page(None).unwrap_err();
    assert_eq!((away.kind, away.target), (RedirectKind::SeeOther, "/account/login"));
    assert_eq!(
        summary(&admin_panel(ada())),
        (200, "admin/panel", "admin/panel", None, Some("ada".to_string()), None)
    );
    assert_eq!(get_admin_redirect(), 401);
    assert_eq!(post_admin_redirect(), 401);
    let get = get_account_redirect();
    assert_eq!((get.kind, get.target), (RedirectKind::Temporary, "/account/login"));
    let post = post_account_redirect();
    assert_eq!((post.kind, post.target), (RedirectKind::Temporary, "/account/login"));
}

#[test]
fn the_front_page_and_the_named_pages() {
    assert_eq!(summary(&index()), (200, "index", "index", None, None, None));
    assert_eq!(Page::from_param("find"), Ok(Page::Find));
    assert_eq!(Page::from_param("create"), Err(()));
    assert_eq!(Page::from_param("Find"), Err(()));
    assert_eq!(Page::Find.file_name(), "find");
    assert_eq!(
        summary(&pages(Page::Find, Some(bob()))),
        (200, "find", "find", None, Some("bob".to_string()), None)
    );
    assert_eq!(summary(&pages(Page::Find, None)), (200, "find", "find", None, None, None));
}

#[test]
fn the_page_that_makes_a_table_offers_two_packs() {
    let context = create(Some(ada()));
    assert_eq!(shown(&context.tem), ("create", None, Some("ada".to_string()), None));
    let offered: Vec<(&str, &str, &str, &str, bool, Option<&str>)> = context
        .item_packs
        .iter()
        .map(|pack| {
            (
                pack.id.as_str(),
                pack.name.as_str(),
                pack.desc.as_str(),
                pack.author.as_str(),
                pack.default,
                pack.img.as_deref(),
            )
        })
        .collect();
    assert_eq!(
        offered,
        vec![
            ("cards", "Cards", "A 52 pack of cards, along with the jokers", "Loading_M_", true, None),
            ("icons", "Icons", "A wide variety of icons", "Loading_M_", false, None),
        ]
    );
    assert_eq!(default_packs().len(), 2);
}

#[test]
fn table_pages_need_a_registered_table() {
    let mut state = GlobalState::new();
    assert_eq!(table("abc", None, &state).unwrap_err(), 404);
    assert!(find_table("abc", &state, None).is_err());
    assert!(state.register("abc".to_string(), TableState::tester()));
    let page = table("abc", Some(bob()), &state).unwrap();
    assert_eq!(summary(&page), (200, "table", "table", None, Some("bob".to_string()), None));
    assert_eq!(table("abcd", None, &state).unwrap_err(), 404);
    assert!(find_table("abc", &state, None).is_ok());
    let form = find_table("xyz", &state, Some(ada())).unwrap_err();
    assert_eq!(
        summary(&form),
        (400, "find", "find", Some("Table not found"), Some("ada".to_string()), None)
    );
}

#[test]
fn icon_kinds_are_stored_as_numbers() {
    assert_eq!(IconType::try_from(1), Ok(IconType::Image));
    assert_eq!(IconType::try_from(2), Ok(IconType::Icon));
    assert_eq!(IconType::try_from(3), Ok(IconType::Svg));
    assert_eq!(IconType::try_from(0), Err(()));
    assert_eq!(IconType::try_from(4), Err(()));
    assert_eq!(IconType::try_from(-1), Err(()));
    assert_eq!(IconType::try_from(i32::MIN), Err(()));
    assert_eq!(IconType::Image.repr(), 1);
    assert_eq!(IconType::Icon.repr(), 2);
    assert_eq!(IconType::Svg.repr(), 3);
}

fn row(ty: i32, icon_id: u32, name: &str, img: &str) -> Result<IconRow, CatalogError> {
    Ok(IconRow { ty, icon_id, name: name.to_string(), img: img.to_string() })
}

#[test]
fn an_icon_pack_is_answered_with_its_icons_in_order() {
    let rows = vec![
        row(3, 7, "queen", "/q.svg"),
        row(1, 8, "king", "/k.png"),
        row(2, 9, "ace", "fa-ace"),
    ];
    let pack = match get_icon_pack(Ok("cards".to_string()), &rows) {
        APIResponse::Okay(pack) => pack,
        other => panic!("status {}", other.status()),
    };
    assert_eq!(pack.name, "cards");
    assert_eq!(pack.icons.len(), 3);
    assert!(matches!(&pack.icons[0],
        Icon::Svg { id: 7, name, src } if name == "queen" && src == "/q.svg"));
    assert!(matches!(&pack.icons[1],
        Icon::Image { id: 8, name, src } if name == "king" && src == "/k.png"));
    assert!(matches!(&pack.icons[2],
        Icon::Icon { id: 9, name, class } if name == "ace" && class == "fa-ace"));
    let empty = match get_icon_pack(Ok("none".to_string()), &vec![]) {
        APIResponse::Okay(pack) => pack,
        other => panic!("status {}", other.status()),
    };
    assert_eq!(empty.name, "none");
    assert!(empty.icons.is_empty());
}

#[test]
fn an_icon_pack_that_cannot_be_read_is_an_error() {
    let rows = vec![row(1, 8, "king", "/k.png")];
    match get_icon_pack(Err(CatalogError::NotFound), &rows) {
        APIResponse::NotFound(error) => assert_eq!(error.text(), "Icon pack not found"),
        other => panic!("status {}", other.status()),
    }
    match get_icon_pack(Err(CatalogError::Internal), &rows) {
        APIResponse::InternalError(error) => assert_eq!(error.text(), "Icon pack not found"),
        other => panic!("status {}", other.status()),
    }
    let broken = vec![row(1, 8, "king", "/k.png"), Err(CatalogError::Internal), row(9, 1, "?", "?")];
    match get_icon_pack(Ok("cards".to_string()), &broken) {
        APIResponse::InternalError(error) => assert_eq!(error.text(), "Internal Error"),
        other => panic!("status {}", other.status()),
    }
}

#[test]
fn a_row_of_unknown_kind_is_an_internal_error() {
    let cases = vec![
        vec![row(1, 8, "king", "/k.png"), row(4, 1, "?", "?")],
        vec![row(0, 8, "king", "/k.png")],
        vec![row(-1, 8, "king", "/k.png"), row(2, 9, "ace", "fa-ace")],
        vec![row(3, 7, "queen", "/q.svg"), row(i32::MAX, 1, "?", "?"), Err(CatalogError::NotFound)],
    ];
    for rows in cases {
        let response = get_icon_pack(Ok("cards".to_string()), &rows);
        assert_eq!(response.status(), 500);
        match response {
            APIResponse::InternalError(error) => assert_eq!(error.text(), "Internal Error"),
            _ => unreachable!(),
        }
    }
    // Where the pack itself is not found, its rows are not looked at.
    let rows = vec![row(4, 1, "?", "?")];
    assert_eq!(get_icon_pack(Err(CatalogError::NotFound), &rows).status(), 404);
}

#[test]
fn rows_describe_icons_by_their_kind() {
    let unknown = IconRow { ty: 12, icon_id: 1, name: "n".to_string(), img: "i".to_string() };
    assert!(unknown.to_icon().is_none());
    let known = IconRow { ty: 2, icon_id: 1, name: "n".to_string(), img: "i".to_string() };
    assert!(matches!(known.to_icon(),
        Some(Icon::Icon { id: 1, name, class }) if name == "n" && class == "i"));
}
