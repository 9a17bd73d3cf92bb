//! The events of a scope and the rule they are held to.
use vstd::prelude::*;

verus! {

/// How a reference borrows its binding.
#[derive(Clone, Copy, Debug, PartialEq, Eq, Structural)]
pub enum BorrowKind {
    /// Read-only; any number may be live together.
    Shared,
    /// Read-write; live only alone.
    Exclusive,
}

/// One step of a scope, in program order. Bindings and references are named by
/// numbers; a use names the reference, and so the binding of its latest creation.
#[derive(Clone, Copy, Debug, PartialEq, Eq)]
pub enum Event {
    /// A binding comes into existence.
    Declare(u64),
    /// A reference to `binding` is taken. Taking it again under the same name
    /// starts a new reference, and later uses of the name belong to the new one.
    Create { reference: u64, kind: BorrowKind, binding: u64 },
    /// A reference is used.
    Use(u64),
}

/// The three ways a scope can break the rule.
#[derive(Clone, Copy, Debug, PartialEq, Eq)]
pub enum Violation {
    /// An exclusive reference is taken while another reference of its binding is live.
    ExclusiveVsAny,
    /// A shared reference is taken while an exclusive reference of its binding is live.
    SharedVsExclusive,
    /// A reference is taken of a binding not declared before, or a name is used
    /// that no earlier event made a reference.
    UnknownBinding,
}

/// What `check` reports of the first event that breaks the rule.
#[derive(Clone, Copy, Debug, PartialEq, Eq)]
pub struct ConflictReport {
    pub kind: Violation,
    /// Position of the offending event in the scope.
    pub at: usize,
    /// The binding concerned; `None` where a used name has no reference.
    pub binding: Option<u64>,
    /// The reference taken, or the name used, at `at`.
    pub reference: u64,
    /// Position of the creation of the earliest live reference that conflicts.
    pub live_at: Option<usize>,
    /// Name of that reference.
    pub live_ref: Option<u64>,
}

/// An ordered list of events.
pub struct Scope {
    pub events: Vec<Event>,
}

impl View for Scope {
    type V = Seq<Event>;

    open spec fn view(&self) -> Seq<Event> {
        self.events@
    }
}

/// `e` takes a reference named `r`.
pub open spec fn creates(e: Event, r: u64) -> bool {
    e matches Event::Create { reference, .. } && reference == r
}

/// `e` takes a reference of binding `b`.
pub open spec fn borrows(e: Event, b: u64) -> bool {
    e matches Event::Create { binding, .. } && binding == b
}

/// `e` takes an exclusive reference.
pub open spec fn is_exclusive(e: Event) -> bool {
    e matches Event::Create { kind, .. } && kind == BorrowKind::Exclusive
}

/// Binding `b` is declared by some event before position `p`.
pub open spec fn declared_before(ev: Seq<Event>, b: u64, p: int) -> bool {
    exists|i: int| 0 <= i < p && ev[i] == Event::Declare(b)
}

/// Some event before position `p` takes a reference named `r`.
pub open spec fn created_before(ev: Seq<Event>, r: u64, p: int) -> bool {
    exists|i: int| 0 <= i < p && creates(ev[i], r)
}

/// The reference created at `c` is used at `j`: `j` uses its name, with no
/// new creation of that name in between.
pub open spec fn used_at(ev: Seq<Event>, c: int, j: int) -> bool {
    &&& 0 <= c < j < ev.len()
    &&& ev[c] matches Event::Create { reference, .. }
    &&& ev[j] == Event::Use(reference)
    &&& forall|i: int| c < i < j ==> !creates(#[trigger] ev[i], reference)
}

/// The reference created at `c` is live at the later position `p`: it is used
/// after `p`. A reference dies right after its last use.
pub open spec fn live_at(ev: Seq<Event>, c: int, p: int) -> bool {
    &&& 0 <= c < p
    &&& exists|j: int| p < j && used_at(ev, c, j)
}

/// The reference created at `c` is live at `p` and stands against the one
/// created at `p`: same binding, and one of the two is exclusive.
pub open spec fn blocks(ev: Seq<Event>, c: int, p: int) -> bool {
    &&& ev[p] matches Event::Create { binding, .. }
    &&& borrows(ev[c], binding)
    &&& live_at(ev, c, p)
    &&& (is_exclusive(ev[p]) || is_exclusive(ev[c]))
}

/// The first position at or after `c`, and before `p`, of a reference that blocks
/// the one created at `p`.
pub open spec fn first_blocker(ev: Seq<Event>, p: int, c: int) -> Option<int>
    decreases p - c,
{
    if c < 0 || c >= p {
        None
    } else if blocks(ev, c, p) {
        Some(c)
    } else {
        first_blocker(ev, p, c + 1)
    }
}

/// A blocker found from `c` on lies in `[c, p)` and blocks; none found means
/// nothing in `[c, p)` blocks.
pub proof fn lemma_first_blocker(ev: Seq<Event>, p: int, c: int)
    requires
        0 <= c,
    ensures
        first_blocker(ev, p, c) matches Some(k) ==> c <= k < p && blocks(ev, k, p),
        first_blocker(ev, p, c) is None ==> forall|k: int| c <= k < p ==> !blocks(ev, k, p),
    decreases p - c,
{
    if c < p && !blocks(ev, c, p) {
        lemma_first_blocker(ev, p, c + 1);
    }
}

/// What is wrong with the event at `p`, if anything.
pub open spec fn fault_at(ev: Seq<Event>, p: int) -> Option<ConflictReport> {
    match ev[p] {
        Event::Declare(_) => None,
        Event::Use(r) => if created_before(ev, r, p) {
            None
        } else {
            Some(ConflictReport {
                kind: Violation::UnknownBinding,
                at: p as usize,
                binding: None,
                reference: r,
                live_at: None,
                live_ref: None,
            })
        },
        Event::Create { reference, kind, binding } => if !declared_before(ev, binding, p) {
            Some(ConflictReport {
                kind: Violation::UnknownBinding,
                at: p as usize,
                binding: Some(binding),
                reference,
                live_at: None,
                live_ref: None,
            })
        } else {
            match first_blocker(ev, p, 0) {
                None => None,
                Some(c) => Some(ConflictReport {
                    kind: if kind == BorrowKind::Exclusive {
                        Violation::ExclusiveVsAny
                    } else {
                        Violation::SharedVsExclusive
                    },
                    at: p as usize,
                    binding: Some(binding),
                    reference,
                    live_at: Some(c as usize),
                    live_ref: Some(ev[c]->Create_reference),
                }),
            }
        },
    }
}

/// The first fault at or after position `p`.
pub open spec fn first_fault(ev: Seq<Event>, p: int) -> Option<ConflictReport>
    decreases ev.len() - p,
{
    if p < 0 || p >= ev.len() {
        None
    } else if fault_at(ev, p) is Some {
        fault_at(ev, p)
    } else {
        first_fault(ev, p + 1)
    }
}

/// The verdict on a whole scope: the first event that breaks the rule, or `Ok`.
pub open spec fn verdict(ev: Seq<Event>) -> Result<(), ConflictReport> {
    match first_fault(ev, 0) {
        None => Ok(()),
        Some(r) => Err(r),
    }
}

} // verus!
