use alias_check::checker::check;
use alias_check::scope::{BorrowKind, ConflictReport, Event, Scope, Violation};
use alias_check::wrapper::Foo;

const FOO: u64 = 1;
const BAR: u64 = 2;
const X: u64 = 10;
const Y: u64 = 11;
const Z: u64 = 12;
const W: u64 = 13;

fn create(reference: u64, kind: BorrowKind, binding: u64) -> Event {
    Event::Create { reference, kind, binding }
}

fn run(events: Vec<Event>) -> Result<(), ConflictReport> {
    check(&Scope { events })
}

#[test]
fn foo_new_holds_its_value() {
    let foo = Foo::new("hello");
    assert_eq!(foo.data, "hello");
    let bar = Foo::new(7u32);
    assert_eq!(bar.data, 7);
}

#[test]
fn exclusive_then_shared_conflicts() {
    let r = run(vec![
        Event::Declare(FOO),
        create(X, BorrowKind::Exclusive, FOO),
        create(Y, BorrowKind::Shared, FOO),
        Event::Use(X),
        Event::Use(Y),
    ]);
    assert_eq!(
        r,
        Err(ConflictReport {
            kind: Violation::SharedVsExclusive,
            at: 2,
            binding: Some(FOO),
            reference: Y,
            live_at: Some(1),
            live_ref: Some(X),
        })
    );
}

#[test]
fn shared_then_exclusive_conflicts() {
    let r = run(vec![
        Event::Declare(FOO),
        create(X, BorrowKind::Shared, FOO),
        create(Y, BorrowKind::Exclusive, FOO),
        Event::Use(X),
        Event::Use(Y),
    ]);
    let e = r.unwrap_err();
    assert_eq!(e.kind, Violation::ExclusiveVsAny);
    assert_eq!(e.binding, Some(FOO));
    assert_eq!(e.at, 2);
    assert_eq!(e.live_ref, Some(X));
}

#[test]
fn exclusive_and_shared_on_distinct_bindings() {
    let r = run(vec![
        Event::Declare(FOO),
        Event::Declare(BAR),
        create(X, BorrowKind::Exclusive, FOO),
        create(Y, BorrowKind::Shared, BAR),
        Event::Use(X),
        Event::Use(Y),
    ]);
    assert_eq!(r, Ok(()));
}

#[test]
fn many_shared_references() {
    let r = run(vec![
        Event::Declare(FOO),
        create(X, BorrowKind::Shared, FOO),
        create(Y, BorrowKind::Shared, FOO),
        Event::Use(X),
        Event::Use(Y),
    ]);
    assert_eq!(r, Ok(()));
    let mut events = vec![Event::Declare(FOO)];
    for i in 0..50u64 {
        events.push(create(100 + i, BorrowKind::Shared, FOO));
    }
    for i in 0..50u64 {
        events.push(Event::Use(100 + i));
    }
    assert_eq!(run(events), Ok(()));
}

#[test]
fn two_exclusive_references_conflict() {
    let r = run(vec![
        Event::Declare(FOO),
        create(X, BorrowKind::Exclusive, FOO),
        create(Y, BorrowKind::Exclusive, FOO),
        Event::Use(X),
        Event::Use(Y),
    ]);
    assert_eq!(
        r,
        Err(ConflictReport {
            kind: Violation::ExclusiveVsAny,
            at: 2,
            binding: Some(FOO),
            reference: Y,
            live_at: Some(1),
            live_ref: Some(X),
        })
    );
}

#[test]
fn two_exclusive_references_on_distinct_bindings() {
    let r = run(vec![
        Event::Declare(FOO),
        Event::Declare(BAR),
        create(X, BorrowKind::Exclusive, FOO),
        create(Y, BorrowKind::Exclusive, BAR),
        Event::Use(X),
        Event::Use(Y),
    ]);
    assert_eq!(r, Ok(()));
}

#[test]
fn unused_references_are_not_live() {
    let r = run(vec![
        Event::Declare(FOO),
        create(X, BorrowKind::Exclusive, FOO),
        create(Y, BorrowKind::Exclusive, FOO),
        create(Z, BorrowKind::Shared, FOO),
        create(W, BorrowKind::Shared, FOO),
        Event::Use(W),
    ]);
    assert_eq!(r, Ok(()));
}

#[test]
fn reference_dead_after_last_use() {
    let r = run(vec![
        Event::Declare(FOO),
        create(X, BorrowKind::Exclusive, FOO),
        Event::Use(X),
        create(Y, BorrowKind::Exclusive, FOO),
        Event::Use(Y),
        create(Z, BorrowKind::Shared, FOO),
        Event::Use(Z),
    ]);
    assert_eq!(r, Ok(()));
}

#[test]
fn use_after_conflicting_creation_keeps_reference_live() {
    let r = run(vec![
        Event::Declare(FOO),
        create(X, BorrowKind::Exclusive, FOO),
        Event::Use(X),
        create(Y, BorrowKind::Shared, FOO),
        Event::Use(X),
    ]);
    assert_eq!(r.unwrap_err().kind, Violation::SharedVsExclusive);
}

#[test]
fn recreated_name_starts_a_new_reference() {
    let r = run(vec![
        Event::Declare(FOO),
        create(X, BorrowKind::Exclusive, FOO),
        create(X, BorrowKind::Exclusive, FOO),
        Event::Use(X),
    ]);
    assert_eq!(r, Ok(()));
}

#[test]
fn undeclared_binding_is_reported() {
    let r = run(vec![
        Event::Declare(FOO),
        create(X, BorrowKind::Shared, BAR),
        Event::Use(X),
    ]);
    assert_eq!(
        r,
        Err(ConflictReport {
            kind: Violation::UnknownBinding,
            at: 1,
            binding: Some(BAR),
            reference: X,
            live_at: None,
            live_ref: None,
        })
    );
}

#[test]
fn declaration_after_borrow_is_too_late() {
    let r = run(vec![
        create(X, BorrowKind::Shared, FOO),
        Event::Declare(FOO),
    ]);
    assert_eq!(r.unwrap_err().kind, Violation::UnknownBinding);
}

#[test]
fn unknown_reference_use_is_reported() {
    let r = run(vec![Event::Declare(FOO), Event::Use(X)]);
    assert_eq!(
        r,
        Err(ConflictReport {
            kind: Violation::UnknownBinding,
            at: 1,
            binding: None,
            reference: X,
            live_at: None,
            live_ref: None,
        })
    );
}

#[test]
fn first_violation_is_reported() {
    let r = run(vec![
        create(Z, BorrowKind::Shared, BAR),
        Event::Declare(FOO),
        create(X, BorrowKind::Exclusive, FOO),
        create(Y, BorrowKind::Exclusive, FOO),
        Event::Use(X),
    ]);
    assert_eq!(r.unwrap_err().at, 0);
}

#[test]
fn earliest_live_reference_is_named() {
    let r = run(vec![
        Event::Declare(FOO),
        create(X, BorrowKind::Shared, FOO),
        create(Y, BorrowKind::Shared, FOO),
        create(Z, BorrowKind::Exclusive, FOO),
        Event::Use(Y),
        Event::Use(X),
    ]);
    let e = r.unwrap_err();
    assert_eq!(e.live_at, Some(1));
    assert_eq!(e.live_ref, Some(X));
}

#[test]
fn empty_scope_is_ok() {
    assert_eq!(run(vec![]), Ok(()));
    assert_eq!(run(vec![Event::Declare(FOO)]), Ok(()));
}

#[test]
fn check_twice_gives_same_result() {
    let scope = Scope {
        events: vec![
            Event::Declare(FOO),
            create(X, BorrowKind::Exclusive, FOO),
            create(Y, BorrowKind::Shared, FOO),
            Event::Use(X),
            Event::Use(Y),
        ],
    };
    let first = check(&scope);
    let second = check(&scope);
    assert_eq!(first, second);
    assert!(first.is_err());
}
