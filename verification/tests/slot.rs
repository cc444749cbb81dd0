use std::collections::BTreeMap;

use dbgui::scheme::ArticlesRow;
use dbgui::slot::{Completion, CompletionKind, Slot, Status};

/// A promise that a test settles by hand.
struct Pending {
    finished: bool,
    ending: Completion<BTreeMap<i32, ArticlesRow>>,
}

fn articles(names: &[(i32, &str)]) -> BTreeMap<i32, ArticlesRow> {
    let mut table = BTreeMap::new();
    for (id, name) in names {
        table.insert(*id, ArticlesRow { name: Some(String::from(*name)) });
    }
    table
}

fn tick(slot: &mut Slot<BTreeMap<i32, ArticlesRow>, Pending>) {
    slot.drive(|promise| promise.finished, |promise| promise.ending);
}

#[test]
fn new_slot_is_idle_and_empty() {
    let slot: Slot<u32, u8> = Slot::new();
    assert!(slot.is_idle());
    assert_eq!(slot.value(), None);
    assert_eq!(slot.error_message(), None);
    assert_eq!(slot.pending(), None);
    assert_eq!(slot.authorization_status(), Status::Ready);
}

#[test]
fn slot_with_request_waits() {
    let slot: Slot<u32, u8> = Slot::with_request(4);
    assert!(!slot.is_idle());
    assert_eq!(slot.pending(), Some(&4));
    assert_eq!(slot.authorization_status(), Status::Waiting);
}

#[test]
fn busy_slot_gives_a_second_promise_back() {
    let mut slot: Slot<u32, u8> = Slot::new();
    assert_eq!(slot.submit(1), None);
    assert_eq!(slot.submit(2), Some(2));
    assert_eq!(slot.submit(3), Some(3));
    assert_eq!(slot.pending(), Some(&1));
}

#[test]
fn slot_never_holds_more_than_one_promise() {
    let mut slot: Slot<u32, u32> = Slot::new();
    let mut accepted = 0;
    let mut consumed = 0;
    for round in 0..40u32 {
        if slot.submit(round).is_none() {
            accepted += 1;
        }
        let held = if slot.is_idle() { 0 } else { 1 };
        assert_eq!(accepted, consumed + held);
        let before = slot.is_idle();
        slot.drive(|_| round % 3 == 2, |promise| Completion::Success(promise));
        if !before && slot.is_idle() {
            consumed += 1;
        }
        let held = if slot.is_idle() { 0 } else { 1 };
        assert_eq!(accepted, consumed + held);
    }
    assert_eq!(consumed, 13);
    assert_eq!(accepted, 14);
    assert_eq!(slot.value(), Some(&36));
}

#[test]
fn unfinished_promise_stays_in_the_slot() {
    let table = articles(&[(1, "rent")]);
    let mut slot = Slot::with_request(Pending { finished: false, ending: Completion::Success(table) });
    tick(&mut slot);
    tick(&mut slot);
    assert!(!slot.is_idle());
    assert_eq!(slot.value(), None);
    assert_eq!(slot.error_message(), None);
}

#[test]
fn finished_promise_is_consumed_once_and_slot_is_idle_again() {
    let table = articles(&[(1, "rent"), (2, "food")]);
    let mut slot =
        Slot::with_request(Pending { finished: true, ending: Completion::Success(table.clone()) });
    let mut taken = 0;
    slot.drive(
        |promise| promise.finished,
        |promise| {
            taken += 1;
            promise.ending
        },
    );
    assert!(slot.is_idle());
    assert_eq!(slot.value(), Some(&table));
    slot.drive(
        |promise| promise.finished,
        |promise| {
            taken += 1;
            promise.ending
        },
    );
    assert_eq!(taken, 1);
    assert!(slot.is_idle());
    assert_eq!(slot.value(), Some(&table));
}

#[test]
fn idle_slot_asks_nothing_on_a_tick() {
    let mut slot: Slot<u32, u8> = Slot::new();
    let mut asked = false;
    slot.drive(
        |_| {
            asked = true;
            true
        },
        |_| Completion::Success(1),
    );
    assert!(!asked);
    assert!(slot.is_idle());
    assert_eq!(slot.value(), None);
}

#[test]
fn success_replaces_the_value_and_clears_the_message() {
    let mut slot: Slot<u32, u8> = Slot::new();
    slot.settle(Completion::Failure(String::from("connection lost")));
    assert_eq!(slot.error_message(), Some(&String::from("connection lost")));
    slot.settle(Completion::Success(8));
    assert_eq!(slot.value(), Some(&8));
    assert_eq!(slot.error_message(), None);
}

#[test]
fn duplicate_key_failure_leaves_the_articles_as_they_were() {
    let shown = articles(&[(1, "rent"), (2, "food")]);
    let mut slot: Slot<BTreeMap<i32, ArticlesRow>, Pending> = Slot::new();
    slot.settle(Completion::Success(shown.clone()));
    let other = articles(&[(7, "other")]);
    let mut neighbour: Slot<BTreeMap<i32, ArticlesRow>, Pending> = Slot::new();
    neighbour.settle(Completion::Success(other.clone()));

    let error = "duplicate key value violates unique constraint \"articles_name_key\"";
    assert_eq!(
        slot.submit(Pending { finished: true, ending: Completion::Failure(String::from(error)) })
            .map(|_| ()),
        None
    );
    tick(&mut slot);

    assert!(slot.is_idle());
    assert_eq!(slot.value(), Some(&shown));
    let message = slot.error_message().expect("a failure sets the message");
    assert!(!message.is_empty());
    assert_eq!(message, error);
    assert_eq!(neighbour.value(), Some(&other));
    assert_eq!(neighbour.error_message(), None);
    assert_eq!(slot.authorization_status(), Status::Repeat);
}

#[test]
fn task_panic_is_told_apart_from_an_operation_error() {
    let duplicate: Completion<u32> =
        Completion::classify(Ok(Err(String::from("duplicate key value"))));
    let panic: Completion<u32> = Completion::classify(Err(String::from("task 7 panicked")));
    let fine: Completion<u32> = Completion::classify(Ok(Ok(3)));
    assert_eq!(duplicate, Completion::Failure(String::from("duplicate key value")));
    assert_eq!(panic, Completion::TaskFailure(String::from("task 7 panicked")));
    assert_eq!(fine, Completion::Success(3));
    assert_eq!(duplicate.kind(), CompletionKind::Failure);
    assert_eq!(panic.kind(), CompletionKind::TaskFailure);
    assert_eq!(fine.kind(), CompletionKind::Success);
    assert_ne!(duplicate.kind(), panic.kind());
}

#[test]
fn task_failure_without_a_handler_is_shown_like_an_error() {
    let mut slot: Slot<u32, u8> = Slot::new();
    slot.settle(Completion::Success(5));
    slot.settle(Completion::TaskFailure(String::from("task 7 panicked")));
    assert_eq!(slot.value(), Some(&5));
    assert_eq!(slot.error_message(), Some(&String::from("task 7 panicked")));
}

#[test]
fn task_failure_goes_to_the_handler_where_there_is_one() {
    let mut slot: Slot<u32, u8> = Slot::with_request(1);
    slot.settle(Completion::Success(5));
    let escalated =
        slot.drive_escalating(|_| true, |_| Completion::TaskFailure(String::from("panicked")));
    assert_eq!(escalated, Some(String::from("panicked")));
    assert!(slot.is_idle());
    assert_eq!(slot.value(), Some(&5));
    assert_eq!(slot.error_message(), None);
}

#[test]
fn handler_sees_nothing_of_the_other_endings() {
    let mut slot: Slot<u32, u8> = Slot::with_request(1);
    assert_eq!(slot.drive_escalating(|_| false, |_| Completion::Success(2)), None);
    assert!(!slot.is_idle());
    assert_eq!(slot.drive_escalating(|_| true, |_| Completion::Failure(String::from("no"))), None);
    assert!(slot.is_idle());
    assert_eq!(slot.error_message(), Some(&String::from("no")));
    assert_eq!(slot.submit(2), None);
    assert_eq!(slot.drive_escalating(|_| true, |_| Completion::Success(9)), None);
    assert_eq!(slot.value(), Some(&9));
    assert_eq!(slot.error_message(), None);
    assert_eq!(slot.settle_escalating(Completion::TaskFailure(String::from("x"))), Some(String::from("x")));
    assert_eq!(slot.settle_escalating(Completion::Success(1)), None);
}

#[test]
fn value_can_be_taken_out_once() {
    let mut slot: Slot<String, u8> = Slot::new();
    slot.settle(Completion::Success(String::from("session")));
    assert_eq!(slot.take_value(), Some(String::from("session")));
    assert_eq!(slot.take_value(), None);
    assert_eq!(slot.value(), None);
}

#[test]
fn status_follows_promise_and_message() {
    let mut slot: Slot<u32, u8> = Slot::new();
    assert_eq!(slot.authorization_status(), Status::Ready);
    assert_eq!(slot.submit(1), None);
    assert_eq!(slot.authorization_status(), Status::Waiting);
    slot.drive(|_| true, |_| Completion::Failure(String::from("password authentication failed")));
    assert_eq!(slot.authorization_status(), Status::Repeat);
    assert_eq!(slot.submit(2), None);
    assert_eq!(slot.authorization_status(), Status::Waiting);
    slot.drive(|_| true, |_| Completion::Success(1));
    assert_eq!(slot.authorization_status(), Status::Ready);
}

#[test]
fn value_is_worked_on_in_place() {
    let mut slot: Slot<Vec<u8>, u8> = Slot::with_request(1);
    assert!(slot.value_mut().is_none());
    slot.settle(Completion::Failure(String::from("late")));
    slot.settle(Completion::Success(vec![1, 2]));
    slot.settle(Completion::Failure(String::from("late")));
    if let Some(value) = slot.value_mut() {
        value.push(3);
    }
    assert_eq!(slot.value(), Some(&vec![1, 2, 3]));
    assert_eq!(slot.error_message(), Some(&String::from("late")));
    assert_eq!(slot.pending(), Some(&1));
}
