use vstd::prelude::*;
use crate::dates::Date;
use crate::store::{Store, StoredLift, StoredSession};

verus! {

/// One lift as entered at the prompts: exercise, weight, reps and sets
/// (the quantities in tenths).
#[derive(Clone, Copy, PartialEq, Eq, Structural, Debug)]
pub struct LiftEntry {
    pub exercise_id: i32,
    pub weight: u64,
    pub reps: u64,
    pub sets: u64,
}

/// The outcome of one pass through the single-lift sub-dialogue: a
/// completed entry, or a cancellation that aborts only that attempt.
#[derive(Clone, Copy, PartialEq, Eq, Structural, Debug)]
pub enum LiftAttempt {
    Completed(LiftEntry),
    Cancelled,
}

/// The entries of the completed attempts, in order; cancelled attempts
/// leave no trace.
pub open spec fn completed_entries(s: Seq<LiftAttempt>) -> Seq<LiftEntry>
    decreases s.len(),
{
    if s.len() == 0 {
        Seq::empty()
    } else {
        completed_entries(s.drop_last()) + match s.last() {
            LiftAttempt::Completed(e) => seq![e],
            LiftAttempt::Cancelled => Seq::empty(),
        }
    }
}

/// There are never more completed entries than attempts.
pub proof fn lemma_completed_entries_len(s: Seq<LiftAttempt>)
    ensures
        completed_entries(s).len() <= s.len(),
    decreases s.len(),
{
    if s.len() > 0 {
        lemma_completed_entries_len(s.drop_last());
    }
}

/// A session being recorded: its date and the lifts successfully entered
/// so far.  Nothing reaches the store until `finish_session` commits the
/// whole draft at once.
pub struct SessionDraft {
    pub date: Date,
    pub lifts: Vec<LiftEntry>,
}

impl SessionDraft {
    /// An empty draft for a session on `date`.
    pub fn new(date: Date) -> (d: SessionDraft)
        ensures
            d.date == date,
            d.lifts@.len() == 0,
    {
        SessionDraft { date, lifts: Vec::new() }
    }

    /// Record the outcome of one lift sub-dialogue: a completed attempt
    /// adds its entry, a cancelled one changes nothing.
    pub fn apply_attempt(&mut self, a: LiftAttempt)
        ensures
            final(self).date == old(self).date,
            final(self).lifts@ == old(self).lifts@ + match a {
                LiftAttempt::Completed(e) => seq![e],
                LiftAttempt::Cancelled => Seq::<LiftEntry>::empty(),
            },
    {
        match a {
            LiftAttempt::Completed(e) => {
                self.lifts.push(e);
                proof {
                    assert(self.lifts@ =~= old(self).lifts@ + seq![e]);
                }
            },
            LiftAttempt::Cancelled => {
                proof {
                    assert(self.lifts@ =~= old(self).lifts@ + Seq::<LiftEntry>::empty());
                }
            },
        }
    }

    /// The number of lifts successfully entered so far.
    pub fn lift_count(&self) -> (n: usize)
        ensures
            n == self.lifts@.len(),
    {
        self.lifts.len()
    }

    /// The draft a whole sequence of attempts leaves behind: exactly the
    /// completed entries, in order.
    pub fn from_attempts(date: Date, attempts: &Vec<LiftAttempt>) -> (d: SessionDraft)
        ensures
            d.date == date,
            d.lifts@ == completed_entries(attempts@),
    {
        let mut d = SessionDraft::new(date);
        let mut i: usize = 0;
        proof {
            assert(attempts@.take(0) =~= Seq::<LiftAttempt>::empty());
            assert(d.lifts@ =~= completed_entries(attempts@.take(0)));
        }
        while i < attempts.len()
            invariant
                0 <= i <= attempts@.len(),
                d.date == date,
                d.lifts@ == completed_entries(attempts@.take(i as int)),
            decreases attempts@.len() - i,
        {
            proof {
                assert(attempts@.take(i + 1).drop_last() =~= attempts@.take(i as int));
                assert(attempts@.take(i + 1).last() == attempts@[i as int]);
            }
            d.apply_attempt(attempts[i]);
            i = i + 1;
        }
        proof {
            assert(attempts@.take(attempts@.len() as int) =~= attempts@);
        }
        d
    }
}

/// The lift rows a committed draft adds: the drafted entries in order,
/// under consecutive identifiers from `first_id`, every row referencing
/// the new session `session_id`.
pub open spec fn committed_lifts(entries: Seq<LiftEntry>, first_id: int, session_id: i32) -> Seq<StoredLift> {
    Seq::new(entries.len(), |j: int| StoredLift {
        id: (first_id + j) as i32,
        exercise_id: entries[j].exercise_id,
        session_id: session_id,
        weight: entries[j].weight,
        reps: entries[j].reps,
        sets: entries[j].sets,
    })
}

/// The lift rows that belong to one session.
pub open spec fn lifts_for_session(lifts: Seq<StoredLift>, session_id: i32) -> Seq<StoredLift> {
    lifts.filter(|l: StoredLift| l.session_id == session_id)
}

proof fn lemma_all_pos_filter_full(s: Seq<StoredLift>, pred: spec_fn(StoredLift) -> bool)
    requires
        forall|i: int| 0 <= i < s.len() ==> pred(#[trigger] s[i]),
    ensures
        s.filter(pred) == s,
    decreases s.len(),
{
    reveal(Seq::filter);
    if s.len() > 0 {
        let rest = s.drop_last();
        assert(forall|i: int| 0 <= i < rest.len() ==> rest[i] == s[i]);
        lemma_all_pos_filter_full(rest, pred);
        assert(pred(s.last()));
        assert(rest.push(s.last()) =~= s);
    }
}

/// The persisted lift count for a committed session equals exactly the
/// count of its completed lift entries: the new session identifier owns
/// the new rows and no others — before the commit, no row carried it.
pub proof fn lemma_committed_lift_count(pre: Store, post: Store, entries: Seq<LiftEntry>, id: i32)
    requires
        pre.wf(),
        id == pre.next_session_id,
        post.lifts@ == pre.lifts@ + committed_lifts(entries, pre.next_lift_id as int, id),
    ensures
        lifts_for_session(pre.lifts@, id).len() == 0,
        lifts_for_session(post.lifts@, id) == committed_lifts(
            entries, pre.next_lift_id as int, id),
        lifts_for_session(post.lifts@, id).len() == entries.len(),
{
    let pred = |l: StoredLift| l.session_id == id;
    let news = committed_lifts(entries, pre.next_lift_id as int, id);
    assert forall|i: int| 0 <= i < pre.lifts@.len()
        implies !pred(#[trigger] pre.lifts@[i]) by {
        let sid = pre.lifts@[i].session_id;
        assert(pre.has_session(sid));
        let k = choose|k: int| 0 <= k < pre.sessions@.len()
            && (#[trigger] pre.sessions@[k]).id == sid;
        assert(pre.sessions@[k].id < id);
    }
    assert(pre.lifts@.all(|l: StoredLift| !pred(l)));
    pre.lifts@.lemma_all_neg_filter_empty(pred);
    assert(forall|j: int| 0 <= j < news.len() ==> pred(#[trigger] news[j]));
    lemma_all_pos_filter_full(news, pred);
    Seq::filter_distributes_over_add(pre.lifts@, news, pred);
    assert(lifts_for_session(post.lifts@, id) =~= news);
}

/// How the session-recording workflow ended.
#[derive(Clone, Copy, PartialEq, Eq, Structural, Debug)]
pub enum SessionOutcome {
    /// The session was committed under this identifier.
    Committed(i32),
    /// Nothing was written.
    Cancelled,
}

impl Store {
    /// Commit a drafted session atomically: one session row and all its
    /// lift rows appear together.
    pub fn commit_session(&mut self, draft: &SessionDraft) -> (id: i32)
        requires
            old(self).wf(),
            forall|j: int| 0 <= j < draft.lifts@.len()
                ==> old(self).has_exercise((#[trigger] draft.lifts@[j]).exercise_id),
            old(self).next_session_id < i32::MAX,
            old(self).next_lift_id + draft.lifts@.len() <= i32::MAX,
        ensures
            final(self).wf(),
            id == old(self).next_session_id,
            final(self).sessions@ == old(self).sessions@.push(StoredSession { id, date: draft.date }),
            final(self).lifts@ == old(self).lifts@
                + committed_lifts(draft.lifts@, old(self).next_lift_id as int, id),
            final(self).exercises == old(self).exercises,
            final(self).next_session_id == old(self).next_session_id + 1,
            final(self).next_lift_id == old(self).next_lift_id + draft.lifts@.len(),
            final(self).next_exercise_id == old(self).next_exercise_id,
    {
        let id = self.next_session_id;
        self.sessions.push(StoredSession { id, date: draft.date });
        self.next_session_id = self.next_session_id + 1;
        let ghost first_id = self.next_lift_id as int;
        let mut j: usize = 0;
        proof {
            assert(self.lifts@ =~= old(self).lifts@
                + committed_lifts(draft.lifts@.take(0), first_id, id));
        }
        while j < draft.lifts.len()
            invariant
                0 <= j <= draft.lifts@.len(),
                id == old(self).next_session_id,
                first_id == old(self).next_lift_id as int,
                first_id + draft.lifts@.len() <= i32::MAX,
                self.next_lift_id == first_id + j,
                self.lifts@ == old(self).lifts@
                    + committed_lifts(draft.lifts@.take(j as int), first_id, id),
                self.sessions@ == old(self).sessions@.push(StoredSession { id, date: draft.date }),
                self.exercises == old(self).exercises,
                self.next_session_id == old(self).next_session_id + 1,
                self.next_exercise_id == old(self).next_exercise_id,
            decreases draft.lifts@.len() - j,
        {
            let e = draft.lifts[j];
            self.lifts.push(StoredLift {
                id: self.next_lift_id,
                exercise_id: e.exercise_id,
                session_id: id,
                weight: e.weight,
                reps: e.reps,
                sets: e.sets,
            });
            self.next_lift_id = self.next_lift_id + 1;
            j = j + 1;
            proof {
                assert(self.lifts@ =~= old(self).lifts@
                    + committed_lifts(draft.lifts@.take(j as int), first_id, id));
            }
        }
        proof {
            assert(draft.lifts@.take(draft.lifts@.len() as int) =~= draft.lifts@);
            let s = self;
            let news = committed_lifts(draft.lifts@, first_id, id);
            assert forall|i: int| 0 <= i < s.lifts@.len()
                implies (#[trigger] s.lifts@[i]).id < s.next_lift_id by {
                if i < old(self).lifts@.len() {
                    assert(old(self).lifts@[i].id < old(self).next_lift_id);
                } else {
                    assert(s.lifts@[i] == news[i - old(self).lifts@.len()]);
                }
            }
            assert forall|i: int, k: int| 0 <= i < k < s.lifts@.len()
                implies (#[trigger] s.lifts@[i]).id != (#[trigger] s.lifts@[k]).id by {
                let n0 = old(self).lifts@.len() as int;
                if i < n0 && k >= n0 {
                    assert(old(self).lifts@[i].id < old(self).next_lift_id);
                    assert(s.lifts@[k] == news[k - n0]);
                } else if i >= n0 {
                    assert(s.lifts@[i] == news[i - n0]);
                    assert(s.lifts@[k] == news[k - n0]);
                }
            }
            assert forall|i: int| 0 <= i < s.sessions@.len()
                implies (#[trigger] s.sessions@[i]).id < s.next_session_id by {
                if i < old(self).sessions@.len() {
                    assert(old(self).sessions@[i].id < old(self).next_session_id);
                }
            }
            assert forall|i: int, k: int| 0 <= i < k < s.sessions@.len()
                implies (#[trigger] s.sessions@[i]).id != (#[trigger] s.sessions@[k]).id by {
                let n0 = old(self).sessions@.len() as int;
                if k < n0 {
                } else {
                    assert(s.sessions@[k].id == id);
                    if i < n0 {
                        assert(old(self).sessions@[i].id < old(self).next_session_id);
                    }
                }
            }
            assert forall|i: int| 0 <= i < s.lifts@.len()
                implies s.has_session((#[trigger] s.lifts@[i]).session_id) by {
                let n0 = old(self).lifts@.len() as int;
                if i < n0 {
                    assert(old(self).has_session(old(self).lifts@[i].session_id));
                    let k = choose|k: int| 0 <= k < old(self).sessions@.len()
                        && (#[trigger] old(self).sessions@[k]).id == old(self).lifts@[i].session_id;
                    assert(s.sessions@[k].id == s.lifts@[i].session_id);
                } else {
                    assert(s.lifts@[i] == news[i - n0]);
                    assert(s.sessions@[s.sessions@.len() - 1].id == id);
                }
            }
            assert forall|i: int| 0 <= i < s.lifts@.len()
                implies s.has_exercise((#[trigger] s.lifts@[i]).exercise_id) by {
                let n0 = old(self).lifts@.len() as int;
                let ex = if i < n0 { old(self).lifts@[i].exercise_id } else {
                    draft.lifts@[i - n0].exercise_id
                };
                if i >= n0 {
                    assert(s.lifts@[i] == news[i - n0]);
                }
                assert(old(self).has_exercise(ex));
                let k = choose|k: int| 0 <= k < old(self).exercises@.len()
                    && (#[trigger] old(self).exercises@[k]).id == ex;
                assert(s.exercises@[k].id == ex);
            }
        }
        id
    }

    /// The confirm-commit step: commit the draft if and only if it holds at
    /// least one lift and the confirmation input is empty; otherwise leave
    /// the store exactly as it was — a session with no lifts, or one the
    /// user declined, is never visible in storage.
    pub fn finish_session(&mut self, draft: &SessionDraft, confirm: &str) -> (r: SessionOutcome)
        requires
            old(self).wf(),
            forall|j: int| 0 <= j < draft.lifts@.len()
                ==> old(self).has_exercise((#[trigger] draft.lifts@[j]).exercise_id),
            old(self).next_session_id < i32::MAX,
            old(self).next_lift_id + draft.lifts@.len() <= i32::MAX,
        ensures
            final(self).wf(),
            if draft.lifts@.len() >= 1 && confirm@ == Seq::<char>::empty() {
                &&& r == SessionOutcome::Committed(old(self).next_session_id)
                &&& final(self).sessions@ == old(self).sessions@.push(StoredSession {
                    id: old(self).next_session_id, date: draft.date })
                &&& final(self).lifts@ == old(self).lifts@ + committed_lifts(
                    draft.lifts@, old(self).next_lift_id as int, old(self).next_session_id)
                &&& final(self).exercises == old(self).exercises
            } else {
                &&& r == SessionOutcome::Cancelled
                &&& *final(self) == *old(self)
            },
    {
        if draft.lift_count() == 0 {
            return SessionOutcome::Cancelled;
        }
        if !crate::input::confirms(confirm) {
            return SessionOutcome::Cancelled;
        }
        let id = self.commit_session(draft);
        SessionOutcome::Committed(id)
    }

    /// The whole recording workflow over a fixed sequence of lift-attempt
    /// outcomes: exactly the completed attempts are drafted, and the store
    /// gains the session row and those lift rows together — or, when no
    /// lift was completed or the confirmation input was not empty, nothing
    /// at all.
    pub fn record_session(&mut self, date: Date, attempts: &Vec<LiftAttempt>, confirm: &str)
        -> (r: SessionOutcome)
        requires
            old(self).wf(),
            forall|j: int| 0 <= j < completed_entries(attempts@).len()
                ==> old(self).has_exercise(
                    (#[trigger] completed_entries(attempts@)[j]).exercise_id),
            old(self).next_session_id < i32::MAX,
            old(self).next_lift_id + attempts@.len() <= i32::MAX,
        ensures
            final(self).wf(),
            ({
                let entries = completed_entries(attempts@);
                if entries.len() >= 1 && confirm@ == Seq::<char>::empty() {
                    &&& r == SessionOutcome::Committed(old(self).next_session_id)
                    &&& final(self).sessions@ == old(self).sessions@.push(StoredSession {
                        id: old(self).next_session_id, date })
                    &&& final(self).lifts@ == old(self).lifts@ + committed_lifts(
                        entries, old(self).next_lift_id as int, old(self).next_session_id)
                    &&& final(self).lifts@.len() == old(self).lifts@.len() + entries.len()
                    &&& final(self).exercises == old(self).exercises
                } else {
                    &&& r == SessionOutcome::Cancelled
                    &&& *final(self) == *old(self)
                }
            }),
    {
        proof {
            lemma_completed_entries_len(attempts@);
        }
        let draft = SessionDraft::from_attempts(date, attempts);
        self.finish_session(&draft, confirm)
    }
}

} // verus!
