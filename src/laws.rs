//! Properties of the aliasing rule, proved over the model that `check` meets.
use vstd::prelude::*;
use crate::scope::{
    blocks, borrows, created_before, declared_before, fault_at, first_blocker, first_fault,
    is_exclusive, lemma_first_blocker, live_at, used_at, verdict, Event, Scope, Violation,
};

verus! {

/// Every reference is taken of a binding declared before, and every used name
/// was made a reference before.
pub open spec fn well_scoped(ev: Seq<Event>) -> bool {
    forall|p: int|
        0 <= p < ev.len() ==> match #[trigger] ev[p] {
            Event::Declare(_) => true,
            Event::Create { binding, .. } => declared_before(ev, binding, p),
            Event::Use(r) => created_before(ev, r, p),
        }
}

/// A fault found from `p` on is the fault of its own event, and the events
/// between `p` and it are sound; none found means every event from `p` on is sound.
pub proof fn lemma_first_fault(ev: Seq<Event>, p: int)
    requires
        0 <= p,
        ev.len() <= usize::MAX,
    ensures
        first_fault(ev, p) matches Some(r) ==> {
            &&& p <= r.at < ev.len()
            &&& fault_at(ev, r.at as int) == Some(r)
            &&& forall|q: int| p <= q < r.at ==> fault_at(ev, q) is None
        },
        first_fault(ev, p) is None ==> forall|q: int| p <= q < ev.len() ==> fault_at(ev, q) is None,
    decreases ev.len() - p,
{
    if p < ev.len() && fault_at(ev, p) is None {
        lemma_first_fault(ev, p + 1);
    }
}

/// With only shared references ever taken, no number of them conflicts: the only
/// fault left is an unknown binding, and a well-scoped scope checks `Ok`.
pub proof fn lemma_shared_only(ev: Seq<Event>)
    requires
        ev.len() <= usize::MAX,
        forall|i: int| 0 <= i < ev.len() ==> !is_exclusive(#[trigger] ev[i]),
    ensures
        verdict(ev) matches Err(r) ==> r.kind == Violation::UnknownBinding,
        well_scoped(ev) ==> verdict(ev) == Ok::<(), crate::scope::ConflictReport>(()),
{
    lemma_first_fault(ev, 0);
    assert forall|p: int| 0 <= p < ev.len() && ev[p] is Create implies first_blocker(
        ev,
        p,
        0,
    ) is None by {
        lemma_first_blocker(ev, p, 0);
        assert(!is_exclusive(ev[p]));
        if let Some(k) = first_blocker(ev, p, 0) {
            assert(!is_exclusive(ev[k]));
        }
    }
    if let Some(r) = first_fault(ev, 0) {
        let q = r.at as int;
        assert(ev[q] is Create ==> first_blocker(ev, q, 0) is None);
        if well_scoped(ev) {
            assert(match ev[q] {
                Event::Declare(_) => true,
                Event::Create { binding, .. } => declared_before(ev, binding, q),
                Event::Use(r) => created_before(ev, r, q),
            });
        }
    }
}

/// Taking an exclusive reference while another reference of the same binding is
/// live is a conflict: `check` fails at that event or before.
pub proof fn lemma_exclusive_conflicts(ev: Seq<Event>, c: int, p: int)
    requires
        0 <= c < p < ev.len() <= usize::MAX,
        is_exclusive(ev[p]),
        borrows(ev[c], ev[p]->Create_binding),
        live_at(ev, c, p),
    ensures
        verdict(ev) is Err,
        verdict(ev) matches Err(r) ==> r.at <= p,
        verdict(ev) matches Err(r) ==> (r.at == p ==> r.kind == Violation::ExclusiveVsAny
            || r.kind == Violation::UnknownBinding),
{
    lemma_first_blocker(ev, p, 0);
    assert(blocks(ev, c, p));
    assert(fault_at(ev, p) is Some);
    lemma_first_fault(ev, 0);
    if first_fault(ev, 0) is None {
        assert(fault_at(ev, p) is None);
    }
}

/// References to distinct bindings never conflict: a reported conflict names a
/// live reference of the very binding that the offending event borrows.
pub proof fn lemma_conflict_same_binding(ev: Seq<Event>)
    requires
        ev.len() <= usize::MAX,
    ensures
        verdict(ev) matches Err(r) ==> (r.kind != Violation::UnknownBinding ==> {
            &&& r.binding is Some
            &&& r.live_at is Some
            &&& r.live_at->0 < r.at
            &&& borrows(ev[r.at as int], r.binding->0)
            &&& borrows(ev[r.live_at->0 as int], r.binding->0)
            &&& live_at(ev, r.live_at->0 as int, r.at as int)
        }),
{
    lemma_first_fault(ev, 0);
    match first_fault(ev, 0) {
        Some(r) => lemma_first_blocker(ev, r.at as int, 0),
        None => {},
    }
}

/// A well-scoped scope in which no binding is borrowed twice checks `Ok`, whatever
/// the kinds of its references.
pub proof fn lemma_distinct_bindings(ev: Seq<Event>)
    requires
        ev.len() <= usize::MAX,
        well_scoped(ev),
        forall|i: int, j: int|
            0 <= i < j < ev.len() && ev[i] is Create && ev[j] is Create ==> ev[i]->Create_binding
                != ev[j]->Create_binding,
    ensures
        verdict(ev) == Ok::<(), crate::scope::ConflictReport>(()),
{
    lemma_first_fault(ev, 0);
    if let Some(r) = first_fault(ev, 0) {
        let q = r.at as int;
        lemma_first_blocker(ev, q, 0);
        assert(match ev[q] {
            Event::Declare(_) => true,
            Event::Create { binding, .. } => declared_before(ev, binding, q),
            Event::Use(r) => created_before(ev, r, q),
        });
    }
}

/// A reference whose last use comes before position `p` is not live at `p`, and
/// so blocks nothing created there.
pub proof fn lemma_dead_after_last_use(ev: Seq<Event>, c: int, p: int)
    requires
        0 <= c < p < ev.len(),
        forall|j: int| used_at(ev, c, j) ==> j < p,
    ensures
        !live_at(ev, c, p),
        !blocks(ev, c, p),
{
}

/// Checking is a function of the events alone: two scopes with the same events
/// get the same verdict, so checking one scope twice gives the same result.
pub proof fn lemma_check_deterministic(s1: &Scope, s2: &Scope)
    requires
        s1@ == s2@,
    ensures
        verdict(s1@) == verdict(s2@),
{
}

} // verus!
