use vstd::prelude::*;
use vstd::string::{StringExecFns, StrSliceExecFns};
use crate::numfmt::{spec_udec, spec_tenths, u64_to_string, tenths_to_string, TENTHS_LIMIT};
use crate::plan::{WeightRule, RepsRule, Prescription, PlanDay};
use crate::store::Store;

verus! {

/// Bounds under which rendering arithmetic cannot overflow.
pub open spec fn prescription_bounded(p: Prescription) -> bool {
    &&& match p.weight {
        WeightRule::RelativeToMax(pc) => pc <= 1000,
        WeightRule::Fixed(w) => w <= TENTHS_LIMIT,
    }
    &&& match p.reps {
        RepsRule::Amrap => true,
        RepsRule::Fixed(r) => r <= TENTHS_LIMIT,
    }
    &&& p.sets <= TENTHS_LIMIT
}

/// Whether every prescription of the day is within rendering bounds;
/// lets an unverified caller check a plan before asking for a render.
pub fn day_bounded(day: &PlanDay) -> (r: bool)
    ensures
        r == forall|i: int| 0 <= i < day.prescriptions@.len()
            ==> prescription_bounded(#[trigger] day.prescriptions@[i]),
{
    let mut i: usize = 0;
    while i < day.prescriptions.len()
        invariant
            0 <= i <= day.prescriptions@.len(),
            forall|j: int| 0 <= j < i ==> prescription_bounded(#[trigger] day.prescriptions@[j]),
        decreases day.prescriptions@.len() - i,
    {
        let p = day.prescriptions[i];
        let w_ok = match p.weight {
            WeightRule::RelativeToMax(pc) => pc <= 1000,
            WeightRule::Fixed(w) => w <= TENTHS_LIMIT,
        };
        let r_ok = match p.reps {
            RepsRule::Amrap => true,
            RepsRule::Fixed(r) => r <= TENTHS_LIMIT,
        };
        if !(w_ok && r_ok && p.sets <= TENTHS_LIMIT) {
            return false;
        }
        i = i + 1;
    }
    true
}

/// The personal-record lookup a prescription needs before it can be
/// rendered (quantities in tenths).
#[derive(Clone, Copy, PartialEq, Eq, Structural, Debug)]
pub enum PrQuery {
    /// The best weight at this fixed rep count.
    WeightAtReps { exercise_id: i32, reps: u64 },
    /// The best rep count at this fixed weight.
    RepsAtWeight { exercise_id: i32, weight: u64 },
}

/// Rendering failures.
#[derive(Clone, Copy, PartialEq, Eq, Structural, Debug)]
pub enum RenderError {
    /// A percent-of-max weight under an as-many-as-possible rep rule has
    /// no defined meaning; the whole render reports this rather than
    /// guessing one.
    AmrapOfMax,
}

/// Whether a prescription has a defined rendering.
pub open spec fn render_ok(p: Prescription) -> bool {
    !(p.weight is RelativeToMax && p.reps is Amrap)
}

/// Which record lookup a prescription needs: the weight max at a fixed rep
/// count for a percent-of-max weight, the rep max at a fixed weight for an
/// as-many-as-possible target, and none otherwise.
pub fn pr_query(p: &Prescription) -> (r: Option<PrQuery>)
    ensures
        match (p.weight, p.reps) {
            (WeightRule::RelativeToMax(_), RepsRule::Fixed(reps)) => r == Some(
                PrQuery::WeightAtReps { exercise_id: p.exercise_id, reps }),
            (WeightRule::Fixed(w), RepsRule::Amrap) => r == Some(
                PrQuery::RepsAtWeight { exercise_id: p.exercise_id, weight: w }),
            _ => r is None,
        },
{
    match (p.weight, p.reps) {
        (WeightRule::RelativeToMax(_), RepsRule::Fixed(reps)) => Some(
            PrQuery::WeightAtReps { exercise_id: p.exercise_id, reps }),
        (WeightRule::Fixed(w), RepsRule::Amrap) => Some(
            PrQuery::RepsAtWeight { exercise_id: p.exercise_id, weight: w }),
        _ => None,
    }
}

/// The effective weight of a renderable prescription, in tenths: a fixed
/// weight verbatim; a percent-of-max weight scaled from the looked-up
/// record, `None` (displayed "?") when no record exists.
pub open spec fn spec_eff_weight(p: Prescription, pr: Option<u64>) -> Option<int> {
    match p.weight {
        WeightRule::Fixed(w) => Some(w as int),
        WeightRule::RelativeToMax(pc) => match pr {
            Some(w) => Some(w * pc / 100),
            None => None,
        },
    }
}

/// The effective reps of a renderable prescription, in tenths: a fixed
/// count verbatim; an as-many-as-possible target from the looked-up rep
/// record, `None` (displayed "?") when no record exists.
pub open spec fn spec_eff_reps(p: Prescription, pr: Option<u64>) -> Option<int> {
    match p.reps {
        RepsRule::Fixed(r) => Some(r as int),
        RepsRule::Amrap => match pr {
            Some(v) => Some(v as int),
            None => None,
        },
    }
}

/// A quantity or the "?" placeholder.
pub open spec fn spec_opt_tenths(v: Option<int>) -> Seq<char> {
    match v {
        Some(t) => spec_tenths(t as nat),
        None => seq!['?'],
    }
}

/// The display line of a renderable prescription: name, sets, "x", the rep
/// target (with a leading ">" when it is an as-many-as-possible attempt),
/// the effective weight in kg (with a leading ">" when it is a full
/// percent-of-max attempt), then the "*AMRAP*" and "*PR*" tags.
pub open spec fn spec_line(name: Seq<char>, p: Prescription, pr: Option<u64>) -> Seq<char> {
    let amrap = p.reps is Amrap;
    let pr100 = p.weight == WeightRule::RelativeToMax(100u32);
    name + seq![' '] + spec_udec(p.sets as nat) + seq!['x']
        + (if amrap { seq!['>'] } else { Seq::<char>::empty() })
        + spec_opt_tenths(spec_eff_reps(p, pr)) + seq![' ']
        + (if pr100 { seq!['>'] } else { Seq::<char>::empty() })
        + spec_opt_tenths(spec_eff_weight(p, pr)) + seq!['k', 'g']
        + (if amrap { seq![' ', '*', 'A', 'M', 'R', 'A', 'P', '*'] } else { Seq::<char>::empty() })
        + (if pr100 { seq![' ', '*', 'P', 'R', '*'] } else { Seq::<char>::empty() })
}

/// Render one prescription against the answer to its record lookup.
pub fn render_line(name: &str, p: &Prescription, pr: Option<u64>) -> (r: Result<String, RenderError>)
    requires
        prescription_bounded(*p),
        pr matches Some(v) ==> v <= TENTHS_LIMIT,
    ensures
        match r {
            Ok(s) => render_ok(*p) && s@ == spec_line(name@, *p, pr),
            Err(e) => !render_ok(*p) && e == RenderError::AmrapOfMax,
        },
{
    let weight_opt: Option<u64> = match p.weight {
        WeightRule::RelativeToMax(pc) => match p.reps {
            RepsRule::Amrap => {
                return Err(RenderError::AmrapOfMax);
            },
            RepsRule::Fixed(_) => match pr {
                Some(w) => {
                    let ghost wi: int = w as int;
                    let ghost pi: int = pc as int;
                    proof {
                        assert(wi * pi <= 1000000000000) by (nonlinear_arith)
                            requires 0 <= wi <= 1000000000 && 0 <= pi <= 1000;
                    }
                    Some(w * (pc as u64) / 100)
                },
                None => None,
            },
        },
        WeightRule::Fixed(w) => Some(w),
    };
    let reps_opt: Option<u64> = match p.reps {
        RepsRule::Fixed(rv) => Some(rv),
        RepsRule::Amrap => pr,
    };
    let is_amrap = matches!(p.reps, RepsRule::Amrap);
    let pr100 = match p.weight {
        WeightRule::RelativeToMax(pc) => pc == 100,
        WeightRule::Fixed(_) => false,
    };
    proof {
        reveal_strlit(" ");
        reveal_strlit("x");
        reveal_strlit(">");
        reveal_strlit("?");
        reveal_strlit("kg");
        reveal_strlit(" *AMRAP*");
        reveal_strlit(" *PR*");
    }
    let mut s = String::from_str(name);
    s.append(" ");
    s.append(u64_to_string(p.sets).as_str());
    s.append("x");
    if is_amrap {
        s.append(">");
    }
    match reps_opt {
        Some(rv) => {
            s.append(tenths_to_string(rv).as_str());
        },
        None => {
            s.append("?");
        },
    }
    s.append(" ");
    if pr100 {
        s.append(">");
    }
    match weight_opt {
        Some(w) => {
            s.append(tenths_to_string(w).as_str());
        },
        None => {
            s.append("?");
        },
    }
    s.append("kg");
    if is_amrap {
        s.append(" *AMRAP*");
    }
    if pr100 {
        s.append(" *PR*");
    }
    proof {
        assert(s@ =~= spec_line(name@, *p, pr));
    }
    Ok(s)
}

/// Whether `ans` is what the record store answers for the lookup a
/// prescription needs: the best weight at the fixed rep count, the best
/// rep count at the fixed weight, or no answer where no lookup is needed.
pub open spec fn pr_answer_ok(store: Store, p: Prescription, ans: Option<u64>) -> bool {
    match (p.weight, p.reps) {
        (WeightRule::RelativeToMax(_), RepsRule::Fixed(reps)) => match ans {
            Some(w) => {
                &&& exists|i: int| 0 <= i < store.lifts@.len()
                    && (#[trigger] store.lifts@[i]).exercise_id == p.exercise_id
                    && store.lifts@[i].reps == reps && store.lifts@[i].weight == w
                &&& forall|i: int| 0 <= i < store.lifts@.len()
                    && (#[trigger] store.lifts@[i]).exercise_id == p.exercise_id
                    && store.lifts@[i].reps == reps ==> store.lifts@[i].weight <= w
            },
            None => forall|i: int| 0 <= i < store.lifts@.len()
                ==> !((#[trigger] store.lifts@[i]).exercise_id == p.exercise_id
                    && store.lifts@[i].reps == reps),
        },
        (WeightRule::Fixed(w), RepsRule::Amrap) => match ans {
            Some(v) => {
                &&& exists|i: int| 0 <= i < store.lifts@.len()
                    && (#[trigger] store.lifts@[i]).exercise_id == p.exercise_id
                    && store.lifts@[i].weight == w && store.lifts@[i].reps == v
                &&& forall|i: int| 0 <= i < store.lifts@.len()
                    && (#[trigger] store.lifts@[i]).exercise_id == p.exercise_id
                    && store.lifts@[i].weight == w ==> store.lifts@[i].reps <= v
            },
            None => forall|i: int| 0 <= i < store.lifts@.len()
                ==> !((#[trigger] store.lifts@[i]).exercise_id == p.exercise_id
                    && store.lifts@[i].weight == w),
        },
        _ => ans is None,
    }
}

/// Whether every lift the store holds keeps its quantities within the
/// rendering bounds.
pub open spec fn lifts_bounded(store: Store) -> bool {
    forall|i: int| 0 <= i < store.lifts@.len()
        ==> (#[trigger] store.lifts@[i]).weight <= TENTHS_LIMIT
            && store.lifts@[i].reps <= TENTHS_LIMIT
}

/// The record answers a day needs, one per prescription in order, read
/// from the store: exactly what each prescription's lookup yields.
pub fn day_answers(store: &Store, day: &PlanDay) -> (r: Vec<Option<u64>>)
    requires
        lifts_bounded(*store),
    ensures
        r@.len() == day.prescriptions@.len(),
        forall|i: int| 0 <= i < r@.len()
            ==> pr_answer_ok(*store, day.prescriptions@[i], #[trigger] r@[i]),
        forall|i: int| 0 <= i < r@.len()
            ==> ((#[trigger] r@[i]) matches Some(v) ==> v <= TENTHS_LIMIT),
{
    let mut r: Vec<Option<u64>> = Vec::new();
    let mut i: usize = 0;
    while i < day.prescriptions.len()
        invariant
            0 <= i <= day.prescriptions@.len(),
            lifts_bounded(*store),
            r@.len() == i,
            forall|j: int| 0 <= j < i
                ==> pr_answer_ok(*store, day.prescriptions@[j], #[trigger] r@[j]),
            forall|j: int| 0 <= j < i
                ==> ((#[trigger] r@[j]) matches Some(v) ==> v <= TENTHS_LIMIT),
        decreases day.prescriptions@.len() - i,
    {
        let p = day.prescriptions[i];
        let ans: Option<u64> = match pr_query(&p) {
            Some(PrQuery::WeightAtReps { exercise_id, reps }) => {
                store.weight_pr(exercise_id, reps)
            },
            Some(PrQuery::RepsAtWeight { exercise_id, weight }) => {
                store.reps_pr(exercise_id, weight)
            },
            None => None,
        };
        r.push(ans);
        i = i + 1;
    }
    r
}

/// A full percent-of-max prescription renders as a record attempt: its
/// line always ends with the " *PR*" tag.  An as-many-as-possible
/// prescription renders as an AMRAP attempt: its line carries the
/// " *AMRAP*" tag — as the final suffix, or right before the record tag
/// when the line carries both.
pub proof fn lemma_line_marks(name: Seq<char>, p: Prescription, pr: Option<u64>)
    ensures
        ({
            let l = spec_line(name, p, pr);
            let pr_tag = seq![' ', '*', 'P', 'R', '*'];
            let amrap_tag = seq![' ', '*', 'A', 'M', 'R', 'A', 'P', '*'];
            &&& p.weight == WeightRule::RelativeToMax(100u32)
                ==> l.len() >= 5 && l.skip(l.len() - 5) == pr_tag
            &&& (p.reps is Amrap && p.weight != WeightRule::RelativeToMax(100u32))
                ==> l.len() >= 8 && l.skip(l.len() - 8) == amrap_tag
            &&& (p.reps is Amrap && p.weight == WeightRule::RelativeToMax(100u32))
                ==> l.len() >= 13 && l.skip(l.len() - 13) == amrap_tag + pr_tag
        }),
{
    let l = spec_line(name, p, pr);
    let pr_tag = seq![' ', '*', 'P', 'R', '*'];
    let amrap_tag = seq![' ', '*', 'A', 'M', 'R', 'A', 'P', '*'];
    if p.weight == WeightRule::RelativeToMax(100u32) {
        assert(l.skip(l.len() - 5) =~= pr_tag);
        if p.reps is Amrap {
            assert(l.skip(l.len() - 13) =~= amrap_tag + pr_tag);
        }
    } else if p.reps is Amrap {
        assert(l.skip(l.len() - 8) =~= amrap_tag);
    }
}

/// The answer line of the record dialogue: the exercise name, then the
/// best weight and the rep count it was achieved at (both in tenths).
pub fn pr_line(name: &str, weight: u64, reps: u64) -> (s: String)
    ensures
        s@ == name@ + seq![':', ' '] + spec_tenths(weight as nat) + seq!['x']
            + spec_tenths(reps as nat),
{
    proof {
        reveal_strlit(": ");
        reveal_strlit("x");
    }
    let mut s = String::from_str(name);
    s.append(": ");
    s.append(tenths_to_string(weight).as_str());
    s.append("x");
    s.append(tenths_to_string(reps).as_str());
    proof {
        assert(s@ =~= name@ + seq![':', ' '] + spec_tenths(weight as nat) + seq!['x']
            + spec_tenths(reps as nat));
    }
    s
}

/// Render a whole day against the answers to its record lookups, one per
/// prescription, in order.  The render succeeds as a whole — every line in
/// order — or reports the first undefined prescription and renders nothing.
pub fn render_day(day: &PlanDay, names: &Vec<String>, prs: &Vec<Option<u64>>)
    -> (r: Result<Vec<String>, RenderError>)
    requires
        names@.len() == day.prescriptions@.len(),
        prs@.len() == day.prescriptions@.len(),
        forall|i: int| 0 <= i < day.prescriptions@.len()
            ==> prescription_bounded(#[trigger] day.prescriptions@[i]),
        forall|i: int| 0 <= i < prs@.len()
            ==> ((#[trigger] prs@[i]) matches Some(v) ==> v <= TENTHS_LIMIT),
    ensures
        match r {
            Ok(lines) => {
                &&& forall|i: int| 0 <= i < day.prescriptions@.len()
                    ==> render_ok(#[trigger] day.prescriptions@[i])
                &&& lines@.len() == day.prescriptions@.len()
                &&& forall|i: int| 0 <= i < lines@.len()
                    ==> (#[trigger] lines@[i])@ == spec_line(
                        names@[i]@, day.prescriptions@[i], prs@[i])
            },
            Err(e) => {
                &&& exists|i: int| 0 <= i < day.prescriptions@.len()
                    && !render_ok(#[trigger] day.prescriptions@[i])
                &&& e == RenderError::AmrapOfMax
            },
        },
{
    let mut lines: Vec<String> = Vec::new();
    let mut i: usize = 0;
    while i < day.prescriptions.len()
        invariant
            0 <= i <= day.prescriptions@.len(),
            names@.len() == day.prescriptions@.len(),
            prs@.len() == day.prescriptions@.len(),
            forall|j: int| 0 <= j < day.prescriptions@.len()
                ==> prescription_bounded(#[trigger] day.prescriptions@[j]),
            forall|j: int| 0 <= j < prs@.len()
                ==> ((#[trigger] prs@[j]) matches Some(v) ==> v <= TENTHS_LIMIT),
            lines@.len() == i,
            forall|j: int| 0 <= j < i ==> render_ok(#[trigger] day.prescriptions@[j]),
            forall|j: int| 0 <= j < i
                ==> (#[trigger] lines@[j])@ == spec_line(
                    names@[j]@, day.prescriptions@[j], prs@[j]),
        decreases day.prescriptions@.len() - i,
    {
        let p = day.prescriptions[i];
        match render_line(names[i].as_str(), &p, prs[i]) {
            Ok(line) => {
                lines.push(line);
            },
            Err(e) => {
                return Err(e);
            },
        }
        i = i + 1;
    }
    Ok(lines)
}

} // verus!
