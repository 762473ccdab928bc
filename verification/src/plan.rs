use vstd::prelude::*;
use vstd::string::StringExecFns;
use crate::parse::{is_int_string, int_string_val, parse_signed, SIGNED_LIMIT};

verus! {

/// How the weight of a prescription is determined: a percentage of the
/// historical max, or a fixed weight in tenths.
#[derive(Clone, Copy, PartialEq, Eq, Structural, Debug)]
pub enum WeightRule {
    RelativeToMax(u32),
    Fixed(u64),
}

/// How the reps of a prescription are determined: as many as possible, or
/// a fixed count in tenths.
#[derive(Clone, Copy, PartialEq, Eq, Structural, Debug)]
pub enum RepsRule {
    Amrap,
    Fixed(u64),
}

/// One prescription of a plan day: an exercise, its weight and reps rules,
/// and how many sets to perform.
#[derive(Clone, Copy, PartialEq, Eq, Structural, Debug)]
pub struct Prescription {
    pub exercise_id: i32,
    pub weight: WeightRule,
    pub reps: RepsRule,
    pub sets: u64,
}

/// One day of the cyclical training plan.
pub struct PlanDay {
    pub name: String,
    pub prescriptions: Vec<Prescription>,
}

/// Persisted plan cursor: the index of the training day currently shown.
///
/// The cursor is kept in range `0 <= day_id < plan_len` by `advance` and
/// `retreat`, which wrap around the cyclical plan in both directions.
pub struct Config {
    pub day_id: usize,
}

impl Config {
    /// Fallback cursor used when no persisted cursor can be read: day 0.
    pub fn default() -> (c: Config)
        ensures
            c.day_id == 0,
    {
        Config { day_id: 0 }
    }

    /// Move the cursor one day forward, wrapping from the last day to day 0.
    pub fn advance(&mut self, plan_len: usize)
        requires
            plan_len >= 1,
            old(self).day_id < plan_len,
        ensures
            final(self).day_id == (old(self).day_id + 1) % (plan_len as int),
            final(self).day_id < plan_len,
    {
        let ghost i: int = old(self).day_id as int;
        let ghost n: int = plan_len as int;
        if self.day_id + 1 == plan_len {
            proof {
                assert((i + 1) % n == 0) by (nonlinear_arith)
                    requires n >= 1 && i + 1 == n;
            }
            self.day_id = 0;
        } else {
            proof {
                assert((i + 1) % n == i + 1) by (nonlinear_arith)
                    requires n >= 1 && 0 <= i && i + 1 < n;
            }
            self.day_id = self.day_id + 1;
        }
    }

    /// Move the cursor one day back, wrapping from day 0 to the last day.
    ///
    /// Written as `(day_id + plan_len - 1) % plan_len` so that the result is
    /// always in range: a truncating `%` on `day_id - 1` would go negative at 0.
    pub fn retreat(&mut self, plan_len: usize)
        requires
            plan_len >= 1,
            old(self).day_id < plan_len,
        ensures
            final(self).day_id == (old(self).day_id + plan_len - 1) % (plan_len as int),
            final(self).day_id < plan_len,
    {
        let ghost i: int = old(self).day_id as int;
        let ghost n: int = plan_len as int;
        if self.day_id == 0 {
            proof {
                assert((0 + n - 1) % n == n - 1) by (nonlinear_arith)
                    requires n >= 1;
            }
            self.day_id = plan_len - 1;
        } else {
            proof {
                assert((i + n - 1) % n == i - 1) by (nonlinear_arith)
                    requires n >= 1 && 1 <= i < n;
            }
            self.day_id = self.day_id - 1;
        }
    }
}

/// The cursor a persisted cursor text yields: the written day index when
/// it parses as a whole number in range for the plan, and the day-0
/// fallback for a missing, unparsable or out-of-range value.
pub fn config_from_text(s: &str, plan_len: usize) -> (c: Config)
    requires
        plan_len >= 1,
    ensures
        c.day_id < plan_len,
        c.day_id == ({
            let v = int_string_val(s@);
            if is_int_string(s@) && -(SIGNED_LIMIT as int) <= v <= SIGNED_LIMIT as int
                && 0 <= v < plan_len as int { v } else { 0int }
        }),
{
    match parse_signed(s) {
        Some(v) if 0 <= v && (v as u64) < (plan_len as u64) => {
            Config { day_id: v as usize }
        },
        _ => Config { day_id: 0 },
    }
}

fn day3(name: &str, p0: Prescription, p1: Prescription, p2: Prescription) -> (d: PlanDay)
    ensures
        d.name@ == name@,
        d.prescriptions@ == seq![p0, p1, p2],
{
    let mut v: Vec<Prescription> = Vec::new();
    v.push(p0);
    v.push(p1);
    v.push(p2);
    proof {
        assert(v@ =~= seq![p0, p1, p2]);
    }
    PlanDay { name: String::from_str(name), prescriptions: v }
}

/// The prescriptions of day `i` of the built-in plan.
pub open spec fn spec_default_day_prescriptions(i: int) -> Seq<Prescription> {
    if i == 0 {
        seq![
            (Prescription { exercise_id: 1, weight: WeightRule::RelativeToMax(90), reps: RepsRule::Fixed(50), sets: 5 }),
            (Prescription { exercise_id: 2, weight: WeightRule::RelativeToMax(90), reps: RepsRule::Fixed(50), sets: 5 }),
            (Prescription { exercise_id: 3, weight: WeightRule::RelativeToMax(100), reps: RepsRule::Fixed(50), sets: 1 }),
        ]
    } else if i == 1 {
        seq![
            (Prescription { exercise_id: 1, weight: WeightRule::RelativeToMax(72), reps: RepsRule::Fixed(50), sets: 2 }),
            (Prescription { exercise_id: 4, weight: WeightRule::RelativeToMax(81), reps: RepsRule::Fixed(50), sets: 3 }),
            (Prescription { exercise_id: 5, weight: WeightRule::Fixed(0), reps: RepsRule::Amrap, sets: 1 }),
        ]
    } else if i == 2 {
        seq![
            (Prescription { exercise_id: 1, weight: WeightRule::RelativeToMax(100), reps: RepsRule::Fixed(50), sets: 1 }),
            (Prescription { exercise_id: 4, weight: WeightRule::RelativeToMax(100), reps: RepsRule::Fixed(50), sets: 1 }),
            (Prescription { exercise_id: 6, weight: WeightRule::RelativeToMax(100), reps: RepsRule::Fixed(30), sets: 5 }),
        ]
    } else if i == 3 {
        seq![
            (Prescription { exercise_id: 1, weight: WeightRule::RelativeToMax(90), reps: RepsRule::Fixed(50), sets: 5 }),
            (Prescription { exercise_id: 4, weight: WeightRule::RelativeToMax(90), reps: RepsRule::Fixed(50), sets: 5 }),
            (Prescription { exercise_id: 3, weight: WeightRule::RelativeToMax(100), reps: RepsRule::Fixed(50), sets: 1 }),
        ]
    } else if i == 4 {
        seq![
            (Prescription { exercise_id: 1, weight: WeightRule::RelativeToMax(72), reps: RepsRule::Fixed(50), sets: 2 }),
            (Prescription { exercise_id: 2, weight: WeightRule::RelativeToMax(81), reps: RepsRule::Fixed(50), sets: 3 }),
            (Prescription { exercise_id: 5, weight: WeightRule::Fixed(0), reps: RepsRule::Amrap, sets: 1 }),
        ]
    } else {
        seq![
            (Prescription { exercise_id: 1, weight: WeightRule::RelativeToMax(100), reps: RepsRule::Fixed(50), sets: 1 }),
            (Prescription { exercise_id: 2, weight: WeightRule::RelativeToMax(100), reps: RepsRule::Fixed(50), sets: 1 }),
            (Prescription { exercise_id: 6, weight: WeightRule::RelativeToMax(100), reps: RepsRule::Fixed(30), sets: 5 }),
        ]
    }
}

/// The built-in cyclical plan: six days alternating volume, recovery and
/// record-attempt work on the bench press and the overhead press, passed
/// to the plan dialogue at startup.  Quantities are in tenths, so a rep
/// target of 5 reads 50.
pub fn default_plan() -> (r: Vec<PlanDay>)
    ensures
        r@.len() == 6,
        forall|i: int| 0 <= i < 6
            ==> (#[trigger] r@[i]).prescriptions@ == spec_default_day_prescriptions(i),
        r@[0].name@ == "Volume Bench"@,
        r@[1].name@ == "Recovery Press"@,
        r@[2].name@ == "PR Press"@,
        r@[3].name@ == "Volume Press"@,
        r@[4].name@ == "Recovery Bench"@,
        r@[5].name@ == "PR Bench"@,
{
    let mut v: Vec<PlanDay> = Vec::new();
    v.push(day3(
        "Volume Bench",
        Prescription { exercise_id: 1, weight: WeightRule::RelativeToMax(90), reps: RepsRule::Fixed(50), sets: 5 },
        Prescription { exercise_id: 2, weight: WeightRule::RelativeToMax(90), reps: RepsRule::Fixed(50), sets: 5 },
        Prescription { exercise_id: 3, weight: WeightRule::RelativeToMax(100), reps: RepsRule::Fixed(50), sets: 1 },
    ));
    v.push(day3(
        "Recovery Press",
        Prescription { exercise_id: 1, weight: WeightRule::RelativeToMax(72), reps: RepsRule::Fixed(50), sets: 2 },
        Prescription { exercise_id: 4, weight: WeightRule::RelativeToMax(81), reps: RepsRule::Fixed(50), sets: 3 },
        Prescription { exercise_id: 5, weight: WeightRule::Fixed(0), reps: RepsRule::Amrap, sets: 1 },
    ));
    v.push(day3(
        "PR Press",
        Prescription { exercise_id: 1, weight: WeightRule::RelativeToMax(100), reps: RepsRule::Fixed(50), sets: 1 },
        Prescription { exercise_id: 4, weight: WeightRule::RelativeToMax(100), reps: RepsRule::Fixed(50), sets: 1 },
        Prescription { exercise_id: 6, weight: WeightRule::RelativeToMax(100), reps: RepsRule::Fixed(30), sets: 5 },
    ));
    v.push(day3(
        "Volume Press",
        Prescription { exercise_id: 1, weight: WeightRule::RelativeToMax(90), reps: RepsRule::Fixed(50), sets: 5 },
        Prescription { exercise_id: 4, weight: WeightRule::RelativeToMax(90), reps: RepsRule::Fixed(50), sets: 5 },
        Prescription { exercise_id: 3, weight: WeightRule::RelativeToMax(100), reps: RepsRule::Fixed(50), sets: 1 },
    ));
    v.push(day3(
        "Recovery Bench",
        Prescription { exercise_id: 1, weight: WeightRule::RelativeToMax(72), reps: RepsRule::Fixed(50), sets: 2 },
        Prescription { exercise_id: 2, weight: WeightRule::RelativeToMax(81), reps: RepsRule::Fixed(50), sets: 3 },
        Prescription { exercise_id: 5, weight: WeightRule::Fixed(0), reps: RepsRule::Amrap, sets: 1 },
    ));
    v.push(day3(
        "PR Bench",
        Prescription { exercise_id: 1, weight: WeightRule::RelativeToMax(100), reps: RepsRule::Fixed(50), sets: 1 },
        Prescription { exercise_id: 2, weight: WeightRule::RelativeToMax(100), reps: RepsRule::Fixed(50), sets: 1 },
        Prescription { exercise_id: 6, weight: WeightRule::RelativeToMax(100), reps: RepsRule::Fixed(30), sets: 5 },
    ));
    v
}

/// Advancing and then retreating (with the same plan length) brings the
/// cursor back to where it started, for every plan length >= 1 and every
/// starting index in range; so does retreating and then advancing.
pub proof fn lemma_advance_retreat_round_trip(i: int, n: int)
    requires
        n >= 1,
        0 <= i < n,
    ensures
        ((i + 1) % n + n - 1) % n == i,
        ((i + n - 1) % n + 1) % n == i,
{
    if i + 1 == n {
        assert((i + 1) % n == 0) by (nonlinear_arith)
            requires n >= 1 && i + 1 == n;
        assert((n - 1) % n == n - 1) by (nonlinear_arith)
            requires n >= 1;
    } else {
        assert((i + 1) % n == i + 1) by (nonlinear_arith)
            requires n >= 1 && 0 <= i && i + 1 < n;
        assert((i + n) % n == i) by (nonlinear_arith)
            requires n >= 1 && 0 <= i < n;
    }
    if i == 0 {
        assert((0 + n - 1) % n == n - 1) by (nonlinear_arith)
            requires n >= 1;
        assert((n - 1 + 1) % n == 0) by (nonlinear_arith)
            requires n >= 1;
    } else {
        assert((i + n - 1) % n == i - 1) by (nonlinear_arith)
            requires n >= 1 && 1 <= i < n;
        assert((i - 1 + 1) % n == i) by (nonlinear_arith)
            requires n >= 1 && 1 <= i < n;
    }
}

} // verus!
