use tabletop::model::Timestamp;
use tabletop::session::{SharingType, TableState};
use tabletop::table::{
    create_table, create_table_as, handle_message, table_state, CatalogError, GlobalState,
    TableOptions,
};
use tabletop::update::TableUpdate;
use tabletop::APIResponse;

fn game_night_options() -> TableOptions {
    TableOptions {
        name: "Game Night".to_string(),
        sharing: SharingType::Public {},
        icons: vec!["cards".to_string()],
    }
}

/// A registry in which the table "Game Night" has just been made under the
/// code `A1F3`. The catalog knows the pack `cards` as number 7.
fn with_game_night() -> (GlobalState, String) {
    let mut state = GlobalState::new();
    let found: Vec<Result<u32, CatalogError>> = vec![Ok(7)];
    let created = Timestamp { secs: 1_700_000_000, nanos: 250 };
    let code = match create_table_as(0xA1F3, created, game_night_options(), &mut state, None, &found)
    {
        APIResponse::Okay(name) => name.id,
        other => panic!("no table was made: {:?}", other),
    };
    (state, code)
}

/// The same registry after pack 1 has been loaded into the table.
fn with_pack_loaded() -> (GlobalState, String) {
    let (mut state, code) = with_game_night();
    handle_message(&code, &mut state, TableUpdate::IconpackLoad { pack: 1 });
    (state, code)
}

fn snapshot(state: &GlobalState, code: &str) -> TableState {
    match table_state(code, state) {
        APIResponse::Okay(table) => table,
        other => panic!("the table was not found: status {}", other.status()),
    }
}

fn new_element() -> TableUpdate {
    TableUpdate::ElementCreate { icon_pack: 1, icon_id: 5, id: 0, top: 10, left: 20 }
}

#[test]
fn create_table_then_get_state() {
    let (state, code) = with_game_night();
    assert_eq!(code, "A1F3");
    let response = table_state(&code, &state);
    assert_eq!(response.status(), 200);
    let table = snapshot(&state, &code);
    assert_eq!(table.name(), "Game Night");
    assert!(table.elements().is_empty());
    assert_eq!(table.icon_packs(), vec![7]);
    assert_eq!(table.next_element_id(), 1);
    assert_eq!(table.created(), Timestamp { secs: 1_700_000_000, nanos: 250 });
    assert_eq!(*table.sharing(), SharingType::Public {});
    assert_eq!(*table.host(), None);
}

#[test]
fn create_table_with_a_drawn_code() {
    let mut state = GlobalState::new();
    let found: Vec<Result<u32, CatalogError>> = vec![Ok(7)];
    let host = Some("ada".to_string());
    let code = match create_table(game_night_options(), &mut state, host, &found) {
        APIResponse::Okay(name) => name.id,
        other => panic!("no table was made: {:?}", other),
    };
    assert!((1..=4).contains(&code.len()));
    assert!(code.chars().all(|c| c.is_ascii_digit() || ('A'..='F').contains(&c)));
    assert!(!code.starts_with('0') || code == "0");
    let table = snapshot(&state, &code);
    assert_eq!(table.name(), "Game Night");
    assert_eq!(*table.host(), Some("ada".to_string()));
    assert!(table.elements().is_empty());
    assert_eq!(table.icon_packs(), vec![7]);
    assert!(table.created().secs > 1_600_000_000);
}

#[test]
fn drawn_codes_differ_from_draw_to_draw() {
    let mut state = GlobalState::new();
    let found: Vec<Result<u32, CatalogError>> = vec![];
    let mut codes = Vec::new();
    for _ in 0..12 {
        if let APIResponse::Okay(name) =
            create_table(game_night_options(), &mut state, None, &found)
        {
            assert!(state.contains(&name.id));
            codes.push(name.id);
        }
    }
    codes.sort();
    codes.dedup();
    assert!(codes.len() >= 2);
}

#[test]
fn icon_pack_load_is_broadcast_once() {
    let (mut state, code) = with_game_night();
    let load = TableUpdate::IconpackLoad { pack: 1 };
    assert_eq!(handle_message(&code, &mut state, load.clone()), Some(load.clone()));
    assert_eq!(handle_message(&code, &mut state, load), None);
    let mut packs = snapshot(&state, &code).icon_packs();
    packs.sort();
    assert_eq!(packs, vec![1, 7]);
}

#[test]
fn a_pack_given_at_creation_is_loaded_already() {
    let (mut state, code) = with_game_night();
    assert_eq!(handle_message(&code, &mut state, TableUpdate::IconpackLoad { pack: 7 }), None);
    assert_eq!(snapshot(&state, &code).icon_packs(), vec![7]);
}

#[test]
fn element_create_gets_server_ids() {
    let (mut state, code) = with_pack_loaded();
    let first = handle_message(&code, &mut state, new_element());
    assert_eq!(
        first,
        Some(TableUpdate::ElementCreate { icon_pack: 1, icon_id: 5, id: 1, top: 10, left: 20 })
    );
    let second = handle_message(&code, &mut state, new_element());
    assert_eq!(
        second,
        Some(TableUpdate::ElementCreate { icon_pack: 1, icon_id: 5, id: 2, top: 10, left: 20 })
    );
    let table = snapshot(&state, &code);
    let mut ids: Vec<u32> = table.elements().iter().map(|pair| pair.0).collect();
    ids.sort();
    assert_eq!(ids, vec![1, 2]);
    let element = table.element(2).expect("element 2 is on the table");
    assert_eq!(element.element_id(), 2);
    assert_eq!(element.icon_pack(), 1);
    assert_eq!(element.icon_id(), 5);
    assert_eq!(element.top(), 10);
    assert_eq!(element.left(), 20);
    assert_eq!(table.next_element_id(), 3);
}

#[test]
fn element_create_ignores_the_senders_id() {
    let (mut state, code) = with_pack_loaded();
    let sent = handle_message(
        &code,
        &mut state,
        TableUpdate::ElementCreate { icon_pack: 1, icon_id: 9, id: 77, top: 3, left: 4 },
    );
    assert_eq!(
        sent,
        Some(TableUpdate::ElementCreate { icon_pack: 1, icon_id: 9, id: 1, top: 3, left: 4 })
    );
    let table = snapshot(&state, &code);
    assert!(table.element(77).is_none());
    assert!(table.element(1).is_some());
}

#[test]
fn delete_then_position_is_dropped() {
    let (mut state, code) = with_pack_loaded();
    handle_message(&code, &mut state, new_element());
    handle_message(&code, &mut state, new_element());
    let delete = TableUpdate::ElementDelete { id: 1 };
    assert_eq!(handle_message(&code, &mut state, delete.clone()), Some(delete));
    let moved = TableUpdate::Position { id: 1, top: 0, left: 0 };
    assert_eq!(handle_message(&code, &mut state, moved), None);
    let table = snapshot(&state, &code);
    assert!(table.element(1).is_none());
    let other = table.element(2).unwrap();
    assert_eq!((other.top(), other.left()), (10, 20));
}

#[test]
fn state_of_an_unregistered_code_is_not_found() {
    let state = GlobalState::new();
    match table_state("ZZZZ", &state) {
        APIResponse::NotFound(error) => assert_eq!(error.text(), "`ZZZZ` not found"),
        other => panic!("status {}", other.status()),
    }
    assert_eq!(table_state("ZZZZ", &state).status(), 404);
}
