use tabletop::model::Timestamp;
use tabletop::session::{packs_from, SharingType, TableState};
use tabletop::table::{handle_message, GlobalState};
use tabletop::update::TableUpdate;

fn table_with_packs(packs: Vec<u32>) -> TableState {
    TableState::at(
        Timestamp { secs: 10, nanos: 20 },
        "Chess".to_string(),
        SharingType::Password { password: "rook".to_string() },
        Some("ada".to_string()),
        packs_from(&packs),
    )
}

fn create(icon_pack: u32, top: usize, left: usize) -> TableUpdate {
    TableUpdate::ElementCreate { icon_pack, icon_id: 1, id: 0, top, left }
}

fn issued(sent: Option<TableUpdate>) -> u32 {
    match sent {
        Some(TableUpdate::ElementCreate { id, .. }) => id,
        other => panic!("no element was made: {:?}", other),
    }
}

fn sorted_ids(table: &TableState) -> Vec<u32> {
    let mut ids: Vec<u32> = table.elements().iter().map(|pair| pair.0).collect();
    ids.sort();
    ids
}

fn sorted_packs(table: &TableState) -> Vec<u32> {
    let mut packs = table.icon_packs();
    packs.sort();
    packs
}

#[test]
fn a_new_table_keeps_what_it_was_given() {
    let table = table_with_packs(vec![3, 1, 3]);
    assert_eq!(table.created(), Timestamp { secs: 10, nanos: 20 });
    assert_eq!(table.name(), "Chess");
    assert_eq!(*table.sharing(), SharingType::Password { password: "rook".to_string() });
    assert_eq!(*table.host(), Some("ada".to_string()));
    assert_eq!(table.next_element_id(), 1);
    assert!(table.elements().is_empty());
    assert_eq!(sorted_packs(&table), vec![1, 3]);
    assert!(table.has_icon_pack(3));
    assert!(!table.has_icon_pack(2));
}

#[test]
fn a_table_made_now_starts_empty() {
    let table = TableState::new(
        "Now".to_string(),
        SharingType::Whitelist {},
        None,
        packs_from(&vec![4]),
    );
    assert_eq!(table.name(), "Now");
    assert_eq!(*table.sharing(), SharingType::Whitelist {});
    assert_eq!(table.next_element_id(), 1);
    assert!(table.elements().is_empty());
    assert_eq!(table.icon_packs(), vec![4]);
    assert!(table.created().secs > 1_600_000_000);
}

#[test]
fn the_tester_table_has_one_element() {
    let table = TableState::tester();
    assert_eq!(table.name(), "Default Tester");
    assert_eq!(*table.sharing(), SharingType::Public {});
    assert_eq!(*table.host(), None);
    assert_eq!(table.next_element_id(), 2);
    assert_eq!(table.icon_packs(), vec![1]);
    assert_eq!(sorted_ids(&table), vec![1]);
    let element = table.element(1).unwrap();
    assert_eq!(
        (element.element_id(), element.icon_pack(), element.icon_id(), element.top(), element.left()),
        (1, 1, 1, 0, 0)
    );
}

#[test]
fn ids_increase_and_are_not_reused_after_a_delete() {
    let mut table = table_with_packs(vec![1]);
    let a = issued(table.apply(create(1, 0, 0)));
    let b = issued(table.apply(create(1, 0, 0)));
    assert_eq!((a, b), (1, 2));
    assert_eq!(
        table.apply(TableUpdate::ElementDelete { id: b }),
        Some(TableUpdate::ElementDelete { id: b })
    );
    assert_eq!(
        table.apply(TableUpdate::ElementDelete { id: a }),
        Some(TableUpdate::ElementDelete { id: a })
    );
    let c = issued(table.apply(create(1, 0, 0)));
    assert_eq!(c, 3);
    assert_eq!(sorted_ids(&table), vec![3]);
    assert_eq!(table.next_element_id(), 4);
}

#[test]
fn loading_a_pack_twice_is_sent_once() {
    let mut table = table_with_packs(vec![]);
    let load = TableUpdate::IconpackLoad { pack: 8 };
    assert_eq!(table.apply(load.clone()), Some(load.clone()));
    assert_eq!(table.apply(load), None);
    assert_eq!(table.icon_packs(), vec![8]);
    assert_eq!(table.icon_packs().iter().filter(|pack| **pack == 8).count(), 1);
}

#[test]
fn an_element_needs_its_pack_loaded() {
    let mut table = table_with_packs(vec![1]);
    assert_eq!(table.apply(create(2, 5, 5)), None);
    assert!(table.elements().is_empty());
    assert_eq!(table.next_element_id(), 1);
    // Once the pack is loaded the same message is taken, under the first
    // identifier: the dropped message has used none up.
    table.apply(TableUpdate::IconpackLoad { pack: 2 });
    assert_eq!(issued(table.apply(create(2, 5, 5))), 1);
}

#[test]
fn a_missing_element_is_neither_moved_nor_removed() {
    let mut table = table_with_packs(vec![1]);
    table.apply(create(1, 7, 8));
    assert_eq!(table.apply(TableUpdate::Position { id: 2, top: 1, left: 1 }), None);
    assert_eq!(table.apply(TableUpdate::ElementDelete { id: 2 }), None);
    assert_eq!(table.apply(TableUpdate::Position { id: 0, top: 1, left: 1 }), None);
    assert_eq!(sorted_ids(&table), vec![1]);
    let element = table.element(1).unwrap();
    assert_eq!((element.top(), element.left()), (7, 8));
    assert_eq!(table.next_element_id(), 2);
}

#[test]
fn a_move_changes_the_position_and_nothing_else() {
    let mut table = table_with_packs(vec![1]);
    table.apply(create(1, 7, 8));
    table.apply(create(1, 9, 9));
    let moved = TableUpdate::Position { id: 1, top: 100, left: 200 };
    assert_eq!(table.apply(moved.clone()), Some(moved));
    let first = table.element(1).unwrap();
    assert_eq!(
        (first.element_id(), first.icon_pack(), first.icon_id(), first.top(), first.left()),
        (1, 1, 1, 100, 200)
    );
    let second = table.element(2).unwrap();
    assert_eq!((second.top(), second.left()), (9, 9));
    assert_eq!(sorted_ids(&table), vec![1, 2]);
}

#[test]
fn a_move_to_the_largest_position() {
    let mut table = table_with_packs(vec![1]);
    table.apply(create(1, 0, 0));
    let moved = TableUpdate::Position { id: 1, top: usize::MAX, left: usize::MAX };
    assert_eq!(table.apply(moved.clone()), Some(moved));
    let element = table.element(1).unwrap();
    assert_eq!((element.top(), element.left()), (usize::MAX, usize::MAX));
}

#[test]
fn an_action_is_dropped() {
    let mut table = table_with_packs(vec![1]);
    table.apply(create(1, 0, 0));
    assert_eq!(table.apply(TableUpdate::Action { act: "draw".to_string() }), None);
    assert_eq!(sorted_ids(&table), vec![1]);
    assert_eq!(table.icon_packs(), vec![1]);
    assert_eq!(table.next_element_id(), 2);
}

/// A registry that holds the tester table under the code `abc`.
fn with_tester() -> GlobalState {
    let mut state = GlobalState::new();
    assert!(state.register("abc".to_string(), TableState::tester()));
    state
}

#[test]
fn a_message_for_an_unknown_table_is_dropped() {
    let mut state = with_tester();
    let updates = vec![
        TableUpdate::Position { id: 1, top: 1, left: 1 },
        TableUpdate::IconpackLoad { pack: 5 },
        TableUpdate::ElementCreate { icon_pack: 1, icon_id: 1, id: 0, top: 0, left: 0 },
        TableUpdate::ElementDelete { id: 1 },
        TableUpdate::Action { act: "x".to_string() },
    ];
    for update in updates {
        assert_eq!(handle_message("nowhere", &mut state, update), None);
    }
    assert!(!state.contains("nowhere"));
    let tester = state.lookup("abc").unwrap();
    assert_eq!(sorted_ids(&tester), vec![1]);
    assert_eq!(tester.icon_packs(), vec![1]);
    assert_eq!(tester.next_element_id(), 2);
}

#[test]
fn a_message_changes_only_its_own_table() {
    let mut state = with_tester();
    assert!(state.register("other".to_string(), table_with_packs(vec![1])));
    let sent = handle_message("abc", &mut state, create(1, 4, 4));
    assert_eq!(issued(sent), 2);
    assert_eq!(sorted_ids(&state.lookup("abc").unwrap()), vec![1, 2]);
    assert!(state.lookup("other").unwrap().elements().is_empty());
    let sent = handle_message("other", &mut state, create(1, 4, 4));
    assert_eq!(issued(sent), 1);
    assert_eq!(sorted_ids(&state.lookup("abc").unwrap()), vec![1, 2]);
}

#[test]
fn a_snapshot_does_not_follow_the_table() {
    let mut table = table_with_packs(vec![1]);
    table.apply(create(1, 1, 1));
    let snapshot = table.clone();
    table.apply(create(1, 2, 2));
    table.apply(TableUpdate::IconpackLoad { pack: 6 });
    table.apply(TableUpdate::Position { id: 1, top: 50, left: 60 });
    assert_eq!(sorted_ids(&snapshot), vec![1]);
    assert_eq!(snapshot.icon_packs(), vec![1]);
    assert_eq!(snapshot.next_element_id(), 2);
    assert_eq!(snapshot.name(), "Chess");
    let element = snapshot.element(1).unwrap();
    assert_eq!((element.top(), element.left()), (1, 1));
    assert_eq!(sorted_ids(&table), vec![1, 2]);
    assert_eq!(sorted_packs(&table), vec![1, 6]);
}

#[test]
fn a_registry_snapshot_does_not_follow_the_table() {
    let mut state = with_tester();
    let before = state.lookup("abc").unwrap();
    handle_message("abc", &mut state, TableUpdate::ElementDelete { id: 1 });
    assert_eq!(sorted_ids(&before), vec![1]);
    assert!(state.lookup("abc").unwrap().elements().is_empty());
}

#[test]
fn elements_are_listed_once_each() {
    let mut table = table_with_packs(vec![1]);
    for n in 0..40usize {
        table.apply(create(1, n, n + 1));
    }
    table.apply(TableUpdate::ElementDelete { id: 17 });
    let listed = table.elements();
    assert_eq!(listed.len(), 39);
    let expected: Vec<u32> = (1..=40).filter(|id| *id != 17).collect();
    assert_eq!(sorted_ids(&table), expected);
    for (id, element) in &listed {
        assert_eq!(element.element_id(), *id);
        assert_eq!(element.top() + 1, *id as usize);
        assert_eq!(element.left(), *id as usize);
    }
}

#[test]
fn elements_compare_by_identifier() {
    let mut table = table_with_packs(vec![1]);
    table.apply(create(1, 1, 1));
    table.apply(create(1, 1, 1));
    let first = table.element(1).unwrap();
    let second = table.element(2).unwrap();
    let moved = first.clone().moved_to(9, 9);
    assert!(first == moved);
    assert!(first != second);
    assert!(first < second);
    assert!(second > first);
    assert_eq!(first.partial_cmp(&moved), Some(std::cmp::Ordering::Equal));
}

#[test]
fn a_new_element_has_no_state() {
    let mut table = table_with_packs(vec![1]);
    table.apply(create(1, 1, 1));
    table.apply(TableUpdate::Position { id: 1, top: 2, left: 3 });
    let element = table.element(1).unwrap();
    assert!(element.public_state().is_empty());
    assert!(table.clone().element(1).unwrap().public_state().is_empty());
}

#[test]
fn a_copied_message_says_the_same() {
    let messages = vec![
        TableUpdate::Position { id: 1, top: 1, left: 2 },
        TableUpdate::IconpackLoad { pack: 5 },
        TableUpdate::ElementCreate { icon_pack: 1, icon_id: 2, id: 3, top: 4, left: 5 },
        TableUpdate::ElementDelete { id: 1 },
        TableUpdate::Action { act: "draw".to_string() },
    ];
    for message in &messages {
        assert_eq!(message.clone(), *message);
    }
    assert_ne!(messages[0], messages[3]);
}

#[test]
fn a_new_element_offers_no_actions_and_hides_nothing() {
    let mut table = table_with_packs(vec![1]);
    table.apply(create(1, 1, 1));
    let element = table.element(1).unwrap();
    assert!(element.private_state().is_empty());
    assert!(element.action().is_empty());
    let copy = element.clone();
    assert!(copy.private_state().is_empty());
    assert!(copy.action().is_empty());
    assert_eq!(copy.element_id(), 1);
}
