//! The single-pass checker over a scope's events.
use vstd::prelude::*;
use crate::scope::{
    created_before, creates, declared_before, fault_at, first_blocker, lemma_first_blocker, first_fault, is_exclusive,
    live_at, used_at, verdict, BorrowKind, ConflictReport, Event, Scope, Violation,
};

verus! {

/// Whether binding `b` is declared before position `p`.
fn declared_before_at(ev: &Vec<Event>, b: u64, p: usize) -> (r: bool)
    requires
        p <= ev@.len(),
    ensures
        r == declared_before(ev@, b, p as int),
{
    let mut i: usize = 0;
    while i < p
        invariant
            i <= p <= ev@.len(),
            forall|k: int| 0 <= k < i ==> ev@[k] != Event::Declare(b),
        decreases p - i,
    {
        match ev[i] {
            Event::Declare(d) => {
                if d == b {
                    return true;
                }
            },
            _ => {},
        }
        i = i + 1;
    }
    false
}

/// Whether a reference named `r` is taken before position `p`.
fn created_before_at(ev: &Vec<Event>, r: u64, p: usize) -> (res: bool)
    requires
        p <= ev@.len(),
    ensures
        res == created_before(ev@, r, p as int),
{
    let mut i: usize = 0;
    while i < p
        invariant
            i <= p <= ev@.len(),
            forall|k: int| 0 <= k < i ==> !creates(#[trigger] ev@[k], r),
        decreases p - i,
    {
        match ev[i] {
            Event::Create { reference, .. } => {
                if reference == r {
                    return true;
                }
            },
            _ => {},
        }
        i = i + 1;
    }
    false
}

/// Whether the reference created at `c` is live at `p`: scans forward from its
/// creation until its name is taken again, looking for a use after `p`.
fn is_live(ev: &Vec<Event>, c: usize, p: usize) -> (res: bool)
    requires
        c < p < ev@.len(),
        ev@[c as int] is Create,
    ensures
        res == live_at(ev@, c as int, p as int),
{
    let r = match ev[c] {
        Event::Create { reference, .. } => reference,
        _ => 0,
    };
    let mut i: usize = c + 1;
    while i < ev.len()
        invariant
            c < i <= ev@.len(),
            c < p < ev@.len(),
            r == ev@[c as int]->Create_reference,
            ev@[c as int] is Create,
            forall|k: int| c < k < i ==> !creates(#[trigger] ev@[k], r),
            forall|k: int| p < k < i ==> ev@[k] != Event::Use(r),
        decreases ev@.len() - i,
    {
        match ev[i] {
            Event::Create { reference, .. } => {
                if reference == r {
                    assert forall|j: int| p < j && used_at(ev@, c as int, j) implies false by {
                        if j > i {
                            assert(creates(ev@[i as int], r));
                        }
                    }
                    return false;
                }
            },
            Event::Use(u) => {
                if u == r && i > p {
                    assert(used_at(ev@, c as int, i as int));
                    return true;
                }
            },
            _ => {},
        }
        i = i + 1;
    }
    false
}

/// The earliest reference created before `p` that blocks the one created at `p`.
fn find_blocker(ev: &Vec<Event>, p: usize) -> (res: Option<usize>)
    requires
        p < ev@.len(),
        ev@[p as int] is Create,
    ensures
        res matches Some(c) ==> first_blocker(ev@, p as int, 0) == Some(c as int),
        res is None ==> first_blocker(ev@, p as int, 0) is None,
{
    let (b, excl) = match ev[p] {
        Event::Create { binding, kind, .. } => (binding, kind == BorrowKind::Exclusive),
        _ => (0, false),
    };
    let mut c: usize = 0;
    while c < p
        invariant
            c <= p < ev@.len(),
            ev@[p as int] is Create,
            b == ev@[p as int]->Create_binding,
            excl == is_exclusive(ev@[p as int]),
            first_blocker(ev@, p as int, 0) == first_blocker(ev@, p as int, c as int),
        decreases p - c,
    {
        let hit = match ev[c] {
            Event::Create { binding, kind, .. } => {
                binding == b && (excl || kind == BorrowKind::Exclusive) && is_live(ev, c, p)
            },
            _ => false,
        };
        if hit {
            return Some(c);
        }
        c = c + 1;
    }
    None
}

/// What is wrong with the event at `p`, if anything.
fn fault(ev: &Vec<Event>, p: usize) -> (res: Option<ConflictReport>)
    requires
        p < ev@.len(),
    ensures
        res == fault_at(ev@, p as int),
{
    match ev[p] {
        Event::Declare(_) => None,
        Event::Use(r) => {
            if created_before_at(ev, r, p) {
                None
            } else {
                Some(
                    ConflictReport {
                        kind: Violation::UnknownBinding,
                        at: p,
                        binding: None,
                        reference: r,
                        live_at: None,
                        live_ref: None,
                    },
                )
            }
        },
        Event::Create { reference, kind, binding } => {
            if !declared_before_at(ev, binding, p) {
                Some(
                    ConflictReport {
                        kind: Violation::UnknownBinding,
                        at: p,
                        binding: Some(binding),
                        reference,
                        live_at: None,
                        live_ref: None,
                    },
                )
            } else {
                match find_blocker(ev, p) {
                    None => None,
                    Some(c) => {
                        proof {
                            lemma_first_blocker(ev@, p as int, 0);
                        }
                        let live_ref = match ev[c] {
                            Event::Create { reference, .. } => reference,
                            _ => 0,
                        };
                        Some(
                            ConflictReport {
                                kind: match kind {
                                    BorrowKind::Exclusive => Violation::ExclusiveVsAny,
                                    BorrowKind::Shared => Violation::SharedVsExclusive,
                                },
                                at: p,
                                binding: Some(binding),
                                reference,
                                live_at: Some(c),
                                live_ref: Some(live_ref),
                            },
                        )
                    },
                }
            }
        },
    }
}

/// Checks a scope against the aliasing rule: returns the first event that breaks
/// it, with the violation and the references concerned, or `Ok` if none does.
pub fn check(scope: &Scope) -> (res: Result<(), ConflictReport>)
    ensures
        res == verdict(scope@),
{
    let ev = &scope.events;
    let mut p: usize = 0;
    while p < ev.len()
        invariant
            p <= ev@.len(),
            ev@ == scope@,
            first_fault(ev@, 0) == first_fault(ev@, p as int),
        decreases ev@.len() - p,
    {
        match fault(ev, p) {
            Some(report) => {
                return Err(report);
            },
            None => {},
        }
        p = p + 1;
    }
    Ok(())
}

} // verus!
