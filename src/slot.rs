//! The current-terminal slot: at most one published snapshot, replaced by a
//! setup and cleared by a reset.
//!
//! The database behind the snapshots keeps a single global cursor. Whoever
//! holds a `Slot` (behind one lock) also owns that cursor: a setup frees the old
//! cursor and initializes a new one before it calls `Slot::setup`, and a reset
//! frees it where `Slot::reset` says so.
use vstd::prelude::*;
use std::sync::Arc;
use crate::term::{term_of, Answers, Term, TermView};

verus! {

/// The status with which the database's initialization reports success.
pub const OK: i32 = 0;

/// Whether an initialization that returned `status` succeeded, so that the
/// capabilities are to be queried.
pub fn init_succeeded(status: i32) -> (r: bool)
    ensures
        r == (status == OK),
{
    status == OK
}

/// What an optional shared snapshot holds.
pub open spec fn view_shared(t: Option<Arc<Term>>) -> Option<TermView> {
    match t {
        Some(t) => Some(t@),
        None => None,
    }
}

/// A setup that returned `r` where the database gave `answers` leaves the slot
/// holding `post`: the returned snapshot, which is none exactly where the
/// initialization failed.
pub open spec fn setup_leaves(answers: Option<Answers>, r: Option<Arc<Term>>, post: Option<TermView>) -> bool {
    &&& (answers is None <==> r is None)
    &&& post == view_shared(r)
}

/// A reset of the slot `pre` that returned `free_cursor` leaves it `post`:
/// empty, with the cursor freed exactly where a snapshot was there.
pub open spec fn reset_leaves(pre: Option<TermView>, free_cursor: bool, post: Option<TermView>) -> bool {
    &&& free_cursor == (pre is Some)
    &&& post is None
}

/// The current terminal's snapshot, or none.
pub struct Slot {
    current: Option<Arc<Term>>,
}

impl View for Slot {
    type V = Option<TermView>;

    closed spec fn view(&self) -> Option<TermView> {
        view_shared(self.current)
    }
}

impl Slot {
    /// An empty slot: no terminal has been set up.
    pub fn new() -> (r: Slot)
        ensures
            r@ is None,
    {
        Slot { current: None }
    }

    /// The snapshot in the slot, shared with the caller; none where no setup
    /// succeeded since the last reset or failed setup.
    pub fn term(&self) -> (r: Option<Arc<Term>>)
        ensures
            view_shared(r) == self@,
    {
        match &self.current {
            Some(t) => Some(Arc::clone(t)),
            None => None,
        }
    }

    /// Publishes the outcome of an initialization of the database. `answers` is
    /// `None` where it failed: the slot is then cleared, since the old snapshot
    /// no longer matches the database. Else the snapshot of the answers is
    /// built, handed once to `configure` to override what it will, and then
    /// stored and returned, shared. Snapshots handed out before stay valid.
    pub fn setup<F: Fn(&mut Term)>(&mut self, answers: Option<Answers>, configure: F) -> (r: Option<
        Arc<Term>,
    >)
        requires
            forall|t: &mut Term| configure.requires((t,)),
        ensures
            setup_leaves(answers, r, final(self)@),
            answers matches Some(a) ==> exists|m: &mut Term|
                (*m)@ == term_of(a) && #[trigger] configure.ensures((m,), ()) && view_shared(r)
                    == Some((*final(m))@),
    {
        match answers {
            None => {
                self.current = None;
                None
            }
            Some(a) => {
                let mut t = Term::new(&a);
                configure(&mut t);
                let t = Arc::new(t);
                self.current = Some(Arc::clone(&t));
                Some(t)
            }
        }
    }

    /// Clears the slot. Returns whether it held a snapshot, in which case the
    /// database's cursor is to be freed and set to null.
    pub fn reset(&mut self) -> (free_cursor: bool)
        ensures
            reset_leaves(old(self)@, free_cursor, final(self)@),
    {
        match self.current {
            Some(_) => {
                self.current = None;
                true
            }
            None => false,
        }
    }
}

/// Before any setup there is no snapshot: on a new slot, which `term()` only
/// reads, every call of `term()` returns none.
pub proof fn law_term_before_setup(fresh: Option<TermView>, r: Option<Arc<Term>>)
    requires
        fresh is None,
        view_shared(r) == fresh,
    ensures
        r is None,
{
}

/// A setup replaces the whole snapshot: after setups with `a` and then `b`,
/// the slot holds exactly what the second returned, every field of it from
/// the second's answers, and nothing of what the first published.
pub proof fn law_later_setup_wins(
    a: Option<Answers>,
    ra: Option<Arc<Term>>,
    mid: Option<TermView>,
    b: Option<Answers>,
    rb: Option<Arc<Term>>,
    post: Option<TermView>,
)
    requires
        setup_leaves(a, ra, mid),
        setup_leaves(b, rb, post),
    ensures
        post == view_shared(rb),
        b is Some <==> post is Some,
{
}

/// Resetting twice is resetting once: the slot is empty after either, and
/// the second frees no cursor.
pub proof fn law_reset_idempotent(
    pre: Option<TermView>,
    free1: bool,
    mid: Option<TermView>,
    free2: bool,
    post: Option<TermView>,
)
    requires
        reset_leaves(pre, free1, mid),
        reset_leaves(mid, free2, post),
    ensures
        post == mid,
        post is None,
        !free2,
{
}

/// A failed setup after a successful one leaves the slot empty, not holding
/// the earlier snapshot.
pub proof fn law_failed_setup_clears(
    a: Answers,
    ra: Option<Arc<Term>>,
    mid: Option<TermView>,
    rb: Option<Arc<Term>>,
    post: Option<TermView>,
)
    requires
        setup_leaves(Some(a), ra, mid),
        setup_leaves(None, rb, post),
    ensures
        mid is Some,
        rb is None,
        post is None,
{
}

/// The callback's overrides take precedence: where `configure` turns a
/// snapshot `t` into `edit(t)` (say, sets one field and keeps the others),
/// a setup with `answers` publishes `edit` of the database's snapshot, so the
/// overridden fields hold the callback's values and all others the database's.
pub proof fn law_override_precedence<F: Fn(&mut Term)>(
    answers: Answers,
    configure: F,
    edit: spec_fn(TermView) -> TermView,
    r: Option<Arc<Term>>,
)
    requires
        forall|m: &mut Term| #[trigger] configure.ensures((m,), ()) ==> (*final(m))@ == edit((*m)@),
        exists|m: &mut Term|
            (*m)@ == term_of(answers) && #[trigger] configure.ensures((m,), ()) && view_shared(r)
                == Some((*final(m))@),
    ensures
        view_shared(r) == Some(edit(term_of(answers))),
{
}

} // verus!
