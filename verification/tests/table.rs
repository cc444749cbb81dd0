use std::collections::BTreeMap;

use dbgui::scheme::{ArticlesRow, OperationsRow};
use dbgui::table::{Event, Response, State};

fn named(name: &str) -> ArticlesRow {
    ArticlesRow { name: Some(String::from(name)) }
}

fn articles() -> State<ArticlesRow> {
    let mut values = BTreeMap::new();
    values.insert(1, named("rent"));
    values.insert(2, named("food"));
    State::new(values)
}

#[test]
fn fresh_table_edits_nothing() {
    let state = articles();
    assert!(!state.is_changing());
    assert_eq!(state.edited(), None);
    assert_eq!(state.inner().len(), 2);
    assert_eq!(state.inner().get(&2), Some(&named("food")));
    assert!(state.regular_enabled(true));
    assert!(!state.regular_enabled(false));
}

#[test]
fn edit_puts_a_copy_of_the_row_under_the_editor() {
    let mut state = articles();
    assert_eq!(state.apply(Event::Edit(2), true), None);
    assert!(state.is_changing());
    assert_eq!(state.edited(), Some(&(Some(2), named("food"))));
    assert_eq!(state.inner().get(&2), Some(&named("food")));
    assert!(!state.regular_enabled(true));
}

#[test]
fn edit_of_a_missing_row_changes_nothing() {
    let mut state = articles();
    assert_eq!(state.apply(Event::Edit(3), true), None);
    assert!(!state.is_changing());
}

#[test]
fn confirm_asks_for_an_update_of_the_edited_row() {
    let mut state = articles();
    state.apply(Event::Edit(1), true);
    state.change(named("rent and heat"));
    assert_eq!(state.edited(), Some(&(Some(1), named("rent and heat"))));
    assert_eq!(
        state.apply(Event::Confirm, true),
        Some(Response::Update(1, named("rent and heat")))
    );
    assert!(state.is_changing());
    assert_eq!(state.inner().get(&1), Some(&named("rent")));
}

#[test]
fn confirm_of_a_new_row_asks_for_an_insert() {
    let mut state: State<OperationsRow> = State::new(BTreeMap::new());
    state.insert_new_row();
    assert_eq!(state.edited(), Some(&(None, OperationsRow::default())));
    let row = OperationsRow {
        article_id: Some(1),
        balance_id: None,
        debit: Some(100),
        credit: Some(0),
        create_date: None,
    };
    state.change(row);
    assert_eq!(state.apply(Event::Confirm, true), Some(Response::Insert(row)));
}

#[test]
fn confirm_without_an_editor_asks_nothing() {
    let mut state = articles();
    assert_eq!(state.apply(Event::Confirm, true), None);
}

#[test]
fn cancel_closes_the_editor() {
    let mut state = articles();
    state.apply(Event::Edit(1), true);
    assert_eq!(state.apply(Event::Cancel, true), None);
    assert!(!state.is_changing());
    state.insert_new_row();
    assert!(state.is_changing());
    assert_eq!(state.apply(Event::Cancel, true), None);
    assert_eq!(state.edited(), None);
}

#[test]
fn delete_asks_for_the_row_to_go() {
    let mut state = articles();
    assert_eq!(state.apply(Event::Delete(2), true), Some(Response::Delete(2)));
    assert_eq!(state.inner().len(), 2);
    assert_eq!(state.apply(Event::Delete(5), true), None);
}

#[test]
fn other_rows_are_locked_while_one_is_edited() {
    let mut state = articles();
    state.apply(Event::Edit(1), true);
    assert_eq!(state.apply(Event::Delete(2), true), None);
    assert_eq!(state.apply(Event::Edit(2), true), None);
    assert_eq!(state.edited(), Some(&(Some(1), named("rent"))));
}

#[test]
fn nothing_works_while_an_operation_is_in_flight() {
    let mut state = articles();
    assert_eq!(state.apply(Event::Edit(1), false), None);
    assert!(!state.is_changing());
    assert_eq!(state.apply(Event::Delete(1), false), None);
    state.apply(Event::Edit(1), true);
    assert_eq!(state.apply(Event::Confirm, false), None);
    assert_eq!(state.apply(Event::Cancel, false), None);
    assert!(state.is_changing());
}

#[test]
fn change_without_an_editor_is_dropped() {
    let mut state = articles();
    state.change(named("lost"));
    assert_eq!(state.edited(), None);
    assert_eq!(state.inner().get(&1), Some(&named("rent")));
}
