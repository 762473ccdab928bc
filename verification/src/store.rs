use vstd::prelude::*;
use crate::dates::Date;
use crate::exercises::Exercise;

verus! {

/// One recorded lift: a performance of an exercise within a session.
/// Weight, reps and sets are held in tenths.
#[derive(Clone, Copy, PartialEq, Eq, Structural, Debug)]
pub struct StoredLift {
    pub id: i32,
    pub exercise_id: i32,
    pub session_id: i32,
    pub weight: u64,
    pub reps: u64,
    pub sets: u64,
}

/// One logged workout: a row with its identifier and date.
#[derive(Clone, Copy, PartialEq, Eq, Structural, Debug)]
pub struct StoredSession {
    pub id: i32,
    pub date: Date,
}

/// The record store: exercises, sessions and lifts, with the identifiers
/// the next inserts will use.  This is the model the session-recording
/// workflow and the personal-record resolver are verified against.
pub struct Store {
    pub exercises: Vec<Exercise>,
    pub sessions: Vec<StoredSession>,
    pub lifts: Vec<StoredLift>,
    pub next_exercise_id: i32,
    pub next_session_id: i32,
    pub next_lift_id: i32,
}

impl Store {
    /// Whether some session row carries identifier `id`.
    pub open spec fn has_session(&self, id: i32) -> bool {
        exists|i: int| 0 <= i < self.sessions@.len() && (#[trigger] self.sessions@[i]).id == id
    }

    /// Whether some exercise row carries identifier `id`.
    pub open spec fn has_exercise(&self, id: i32) -> bool {
        exists|i: int| 0 <= i < self.exercises@.len() && (#[trigger] self.exercises@[i]).id == id
    }

    /// Well-formedness: identifiers are unique and below the next free one,
    /// and a lift never exists without its session and exercise.
    pub open spec fn wf(&self) -> bool {
        &&& forall|i: int| 0 <= i < self.sessions@.len()
            ==> (#[trigger] self.sessions@[i]).id < self.next_session_id
        &&& forall|i: int, j: int| 0 <= i < j < self.sessions@.len()
            ==> (#[trigger] self.sessions@[i]).id != (#[trigger] self.sessions@[j]).id
        &&& forall|i: int| 0 <= i < self.exercises@.len()
            ==> (#[trigger] self.exercises@[i]).id < self.next_exercise_id
        &&& forall|i: int, j: int| 0 <= i < j < self.exercises@.len()
            ==> (#[trigger] self.exercises@[i]).id != (#[trigger] self.exercises@[j]).id
        &&& forall|i: int| 0 <= i < self.lifts@.len()
            ==> (#[trigger] self.lifts@[i]).id < self.next_lift_id
        &&& forall|i: int, j: int| 0 <= i < j < self.lifts@.len()
            ==> (#[trigger] self.lifts@[i]).id != (#[trigger] self.lifts@[j]).id
        &&& forall|i: int| 0 <= i < self.lifts@.len()
            ==> self.has_session((#[trigger] self.lifts@[i]).session_id)
        &&& forall|i: int| 0 <= i < self.lifts@.len()
            ==> self.has_exercise((#[trigger] self.lifts@[i]).exercise_id)
    }

    /// An empty store.
    pub fn new() -> (s: Store)
        ensures
            s.wf(),
            s.exercises@.len() == 0,
            s.sessions@.len() == 0,
            s.lifts@.len() == 0,
            s.next_exercise_id == 1,
            s.next_session_id == 1,
            s.next_lift_id == 1,
    {
        Store {
            exercises: Vec::new(),
            sessions: Vec::new(),
            lifts: Vec::new(),
            next_exercise_id: 1,
            next_session_id: 1,
            next_lift_id: 1,
        }
    }

    /// Add an exercise under the next free identifier and return that
    /// identifier.
    pub fn insert_exercise(&mut self, name: String) -> (id: i32)
        requires
            old(self).wf(),
            old(self).next_exercise_id < i32::MAX,
        ensures
            final(self).wf(),
            id == old(self).next_exercise_id,
            final(self).exercises@.len() == old(self).exercises@.len() + 1,
            forall|i: int| 0 <= i < old(self).exercises@.len()
                ==> final(self).exercises@[i] == old(self).exercises@[i],
            final(self).exercises@.last().id == id,
            final(self).exercises@.last().name@ == name@,
            final(self).sessions == old(self).sessions,
            final(self).lifts == old(self).lifts,
            final(self).next_exercise_id == old(self).next_exercise_id + 1,
            final(self).next_session_id == old(self).next_session_id,
            final(self).next_lift_id == old(self).next_lift_id,
    {
        let id = self.next_exercise_id;
        self.exercises.push(Exercise { id, name });
        self.next_exercise_id = self.next_exercise_id + 1;
        proof {
            assert forall|i: int| 0 <= i < self.lifts@.len()
                implies self.has_exercise((#[trigger] self.lifts@[i]).exercise_id) by {
                let ex = self.lifts@[i].exercise_id;
                assert(old(self).has_exercise(ex));
                let k = choose|k: int| 0 <= k < old(self).exercises@.len()
                    && (#[trigger] old(self).exercises@[k]).id == ex;
                assert(self.exercises@[k].id == ex);
            }
            assert forall|i: int| 0 <= i < self.lifts@.len()
                implies self.has_session((#[trigger] self.lifts@[i]).session_id) by {
                let sid = self.lifts@[i].session_id;
                assert(old(self).has_session(sid));
                let k = choose|k: int| 0 <= k < old(self).sessions@.len()
                    && (#[trigger] old(self).sessions@[k]).id == sid;
                assert(self.sessions@[k].id == sid);
            }
        }
        id
    }

    /// The name of the exercise with identifier `id`, if it exists.
    pub fn exercise_name(&self, id: i32) -> (r: Option<String>)
        ensures
            match r {
                Some(n) => exists|i: int| 0 <= i < self.exercises@.len()
                    && (#[trigger] self.exercises@[i]).id == id
                    && n@ == self.exercises@[i].name@,
                None => !self.has_exercise(id),
            },
    {
        let mut i: usize = 0;
        while i < self.exercises.len()
            invariant
                0 <= i <= self.exercises@.len(),
                forall|j: int| 0 <= j < i ==> (#[trigger] self.exercises@[j]).id != id,
            decreases self.exercises@.len() - i,
        {
            if self.exercises[i].id == id {
                return Some(self.exercises[i].name.clone());
            }
            i = i + 1;
        }
        None
    }

    /// The best weight ever recorded for `exercise_id` at exactly `reps`
    /// (both in tenths), or `None` when no such lift was ever recorded.
    pub fn weight_pr(&self, exercise_id: i32, reps: u64) -> (r: Option<u64>)
        ensures
            match r {
                Some(w) => {
                    &&& exists|i: int| 0 <= i < self.lifts@.len()
                        && (#[trigger] self.lifts@[i]).exercise_id == exercise_id
                        && self.lifts@[i].reps == reps && self.lifts@[i].weight == w
                    &&& forall|i: int| 0 <= i < self.lifts@.len()
                        && (#[trigger] self.lifts@[i]).exercise_id == exercise_id
                        && self.lifts@[i].reps == reps ==> self.lifts@[i].weight <= w
                },
                None => forall|i: int| 0 <= i < self.lifts@.len()
                    ==> !((#[trigger] self.lifts@[i]).exercise_id == exercise_id
                        && self.lifts@[i].reps == reps),
            },
    {
        let mut best: Option<u64> = None;
        let mut i: usize = 0;
        while i < self.lifts.len()
            invariant
                0 <= i <= self.lifts@.len(),
                match best {
                    Some(w) => {
                        &&& exists|j: int| 0 <= j < i
                            && (#[trigger] self.lifts@[j]).exercise_id == exercise_id
                            && self.lifts@[j].reps == reps && self.lifts@[j].weight == w
                        &&& forall|j: int| 0 <= j < i
                            && (#[trigger] self.lifts@[j]).exercise_id == exercise_id
                            && self.lifts@[j].reps == reps ==> self.lifts@[j].weight <= w
                    },
                    None => forall|j: int| 0 <= j < i
                        ==> !((#[trigger] self.lifts@[j]).exercise_id == exercise_id
                            && self.lifts@[j].reps == reps),
                },
            decreases self.lifts@.len() - i,
        {
            let l = self.lifts[i];
            if l.exercise_id == exercise_id && l.reps == reps {
                match best {
                    Some(w) => {
                        if l.weight > w {
                            best = Some(l.weight);
                        }
                    },
                    None => {
                        best = Some(l.weight);
                    },
                }
            }
            i = i + 1;
        }
        best
    }

    /// The best rep count ever recorded for `exercise_id` at exactly
    /// `weight` (both in tenths), or `None` when no such lift exists.
    pub fn reps_pr(&self, exercise_id: i32, weight: u64) -> (r: Option<u64>)
        ensures
            match r {
                Some(v) => {
                    &&& exists|i: int| 0 <= i < self.lifts@.len()
                        && (#[trigger] self.lifts@[i]).exercise_id == exercise_id
                        && self.lifts@[i].weight == weight && self.lifts@[i].reps == v
                    &&& forall|i: int| 0 <= i < self.lifts@.len()
                        && (#[trigger] self.lifts@[i]).exercise_id == exercise_id
                        && self.lifts@[i].weight == weight ==> self.lifts@[i].reps <= v
                },
                None => forall|i: int| 0 <= i < self.lifts@.len()
                    ==> !((#[trigger] self.lifts@[i]).exercise_id == exercise_id
                        && self.lifts@[i].weight == weight),
            },
    {
        let mut best: Option<u64> = None;
        let mut i: usize = 0;
        while i < self.lifts.len()
            invariant
                0 <= i <= self.lifts@.len(),
                match best {
                    Some(v) => {
                        &&& exists|j: int| 0 <= j < i
                            && (#[trigger] self.lifts@[j]).exercise_id == exercise_id
                            && self.lifts@[j].weight == weight && self.lifts@[j].reps == v
                        &&& forall|j: int| 0 <= j < i
                            && (#[trigger] self.lifts@[j]).exercise_id == exercise_id
                            && self.lifts@[j].weight == weight ==> self.lifts@[j].reps <= v
                    },
                    None => forall|j: int| 0 <= j < i
                        ==> !((#[trigger] self.lifts@[j]).exercise_id == exercise_id
                            && self.lifts@[j].weight == weight),
                },
            decreases self.lifts@.len() - i,
        {
            let l = self.lifts[i];
            if l.exercise_id == exercise_id && l.weight == weight {
                match best {
                    Some(v) => {
                        if l.reps > v {
                            best = Some(l.reps);
                        }
                    },
                    None => {
                        best = Some(l.reps);
                    },
                }
            }
            i = i + 1;
        }
        best
    }

    /// A session whose date no other session exceeds — the most recent
    /// workout — or `None` when no session was ever logged.
    pub fn last_session(&self) -> (r: Option<StoredSession>)
        ensures
            match r {
                Some(s) => {
                    &&& exists|i: int| 0 <= i < self.sessions@.len()
                        && #[trigger] self.sessions@[i] == s
                    &&& forall|i: int| 0 <= i < self.sessions@.len()
                        ==> (#[trigger] self.sessions@[i]).date.days <= s.date.days
                },
                None => self.sessions@.len() == 0,
            },
    {
        let mut best: Option<StoredSession> = None;
        let mut i: usize = 0;
        while i < self.sessions.len()
            invariant
                0 <= i <= self.sessions@.len(),
                match best {
                    Some(s) => {
                        &&& exists|j: int| 0 <= j < i && #[trigger] self.sessions@[j] == s
                        &&& forall|j: int| 0 <= j < i
                            ==> (#[trigger] self.sessions@[j]).date.days <= s.date.days
                    },
                    None => i == 0,
                },
            decreases self.sessions@.len() - i,
        {
            let s = self.sessions[i];
            match best {
                Some(b) => {
                    if s.date.days >= b.date.days {
                        best = Some(s);
                    }
                },
                None => {
                    best = Some(s);
                },
            }
            i = i + 1;
        }
        best
    }

    /// The date of the session with identifier `id`, if it exists.
    pub fn session_date(&self, id: i32) -> (r: Option<Date>)
        ensures
            match r {
                Some(d) => exists|i: int| 0 <= i < self.sessions@.len()
                    && (#[trigger] self.sessions@[i]).id == id && self.sessions@[i].date == d,
                None => !self.has_session(id),
            },
    {
        let mut i: usize = 0;
        while i < self.sessions.len()
            invariant
                0 <= i <= self.sessions@.len(),
                forall|j: int| 0 <= j < i ==> (#[trigger] self.sessions@[j]).id != id,
            decreases self.sessions@.len() - i,
        {
            if self.sessions[i].id == id {
                return Some(self.sessions[i].date);
            }
            i = i + 1;
        }
        None
    }
}

} // verus!
