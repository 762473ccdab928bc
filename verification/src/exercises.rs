use vstd::prelude::*;
use vstd::string::StrSliceExecFns;
use vstd::seq_lib::*;

verus! {

/// A known exercise: its storage identifier and its display name.
#[derive(Debug, PartialEq, Eq)]
pub struct Exercise {
    pub id: i32,
    pub name: String,
}

impl View for Exercise {
    type V = (i32, Seq<char>);

    open spec fn view(&self) -> (i32, Seq<char>) {
        (self.id, self.name@)
    }
}

impl Clone for Exercise {
    fn clone(&self) -> (r: Exercise)
        ensures
            r@ == self@,
    {
        Exercise { id: self.id, name: self.name.clone() }
    }
}

/// The models of a list of exercises.
pub open spec fn views_of(s: Seq<Exercise>) -> Seq<(i32, Seq<char>)> {
    s.map_values(|e: Exercise| e@)
}

/// The lower-cased form of a character sequence — what `str::to_lowercase`
/// returns.  The mapping depends on the characters alone, so it is given a
/// name rather than written out.
pub uninterp spec fn lower_of(s: Seq<char>) -> Seq<char>;

/// Relies on str::to_lowercase: the result depends on the characters
/// alone, and an empty string stays empty.
#[verifier::external_body]
fn lowercase(s: &str) -> (r: String)
    ensures
        r@ == lower_of(s@),
        s@.len() == 0 ==> r@.len() == 0,
{
    s.to_lowercase()
}

/// Case-insensitive prefix match: the lower-cased input equals the first
/// `lower_of(input).len()` characters of the lower-cased name.  Empty
/// input never matches.
pub open spec fn name_matches(input: Seq<char>, name: Seq<char>) -> bool {
    let li = lower_of(input);
    let ln = lower_of(name);
    input.len() >= 1 && li.len() <= ln.len() && li == ln.take(li.len() as int)
}

/// The exercises whose names `input` matches, in their original order.
pub open spec fn spec_candidates(input: Seq<char>, known: Seq<(i32, Seq<char>)>) -> Seq<(i32, Seq<char>)> {
    known.filter(|e: (i32, Seq<char>)| name_matches(input, e.1))
}

/// Whether `input` is a case-insensitive prefix of `name`.
pub fn matches_name(input: &str, name: &str) -> (r: bool)
    ensures
        r == name_matches(input@, name@),
{
    if input.unicode_len() == 0 {
        return false;
    }
    let li = lowercase(input);
    let ln = lowercase(name);
    let llen = li.as_str().unicode_len();
    let nlen = ln.as_str().unicode_len();
    if llen > nlen {
        return false;
    }
    let mut i: usize = 0;
    while i < llen
        invariant
            0 <= i <= llen,
            li@ == lower_of(input@),
            ln@ == lower_of(name@),
            llen == li@.len(),
            nlen == ln@.len(),
            llen <= nlen,
            forall|j: int| 0 <= j < i ==> li@[j] == #[trigger] ln@[j],
        decreases llen - i,
    {
        let a = li.as_str().get_char(i);
        let b = ln.as_str().get_char(i);
        if a != b {
            proof {
                assert(lower_of(name@).take(llen as int)[i as int] == ln@[i as int]);
            }
            return false;
        }
        i = i + 1;
    }
    proof {
        assert(li@ =~= ln@.take(llen as int));
    }
    true
}

/// The list of exercises that `input` matches, in order.
pub fn match_candidates(input: &str, known: &Vec<Exercise>) -> (r: Vec<Exercise>)
    ensures
        views_of(r@) == spec_candidates(input@, views_of(known@)),
{
    let ghost pred = |e: (i32, Seq<char>)| name_matches(input@, e.1);
    let mut r: Vec<Exercise> = Vec::new();
    let mut i: usize = 0;
    proof {
        assert(views_of(known@.take(0)) =~= Seq::<(i32, Seq<char>)>::empty());
        assert(views_of(r@) =~= views_of(known@.take(0)).filter(pred));
    }
    while i < known.len()
        invariant
            0 <= i <= known@.len(),
            pred == (|e: (i32, Seq<char>)| name_matches(input@, e.1)),
            views_of(r@) == views_of(known@.take(i as int)).filter(pred),
        decreases known@.len() - i,
    {
        let ghost prev = views_of(known@.take(i as int));
        let ghost m = known@[i as int]@;
        proof {
            assert(views_of(known@.take(i + 1)) =~= prev + seq![m]) by {
                assert(known@.take(i + 1).drop_last() =~= known@.take(i as int));
                assert(forall|j: int| 0 <= j < i
                    ==> #[trigger] views_of(known@.take(i + 1))[j] == views_of(known@.take(i as int))[j]);
            }
            Seq::filter_distributes_over_add(prev, seq![m], pred);
            reveal_with_fuel(Seq::<_>::filter, 2);
            let e0 = Seq::<(i32, Seq<char>)>::empty();
            assert(e0.filter(pred) == e0);
            assert(seq![m].drop_last() =~= e0);
            assert(seq![m].last() == m);
            if pred(m) {
                assert(seq![m].filter(pred) == e0.push(m));
                assert(e0.push(m) =~= seq![m]);
            } else {
                assert(seq![m].filter(pred) == e0);
            }
        }
        if matches_name(input, known[i].name.as_str()) {
            r.push(known[i].clone());
            proof {
                assert(views_of(r@) =~= prev.filter(pred) + seq![m]);
            }
        } else {
            proof {
                assert(views_of(r@) =~= prev.filter(pred));
            }
        }
        i = i + 1;
        proof {
            assert(views_of(r@) =~= views_of(known@.take(i as int)).filter(pred));
        }
    }
    proof {
        assert(known@.take(known@.len() as int) =~= known@);
    }
    r
}

/// How free-text exercise input resolves against the known exercises.
#[derive(Debug, PartialEq, Eq)]
pub enum MatchResult {
    /// Exactly one exercise matched.
    Matched(Exercise),
    /// More than one matched; the caller must re-prompt with the candidates.
    Ambiguous(Vec<Exercise>),
    /// None matched; the caller must re-prompt.
    NoMatch,
}

/// Resolve free-text input against the known exercises: the unique match,
/// the full candidate list when several match, or no match at all.
pub fn match_exercise(input: &str, known: &Vec<Exercise>) -> (r: MatchResult)
    ensures
        ({
            let c = spec_candidates(input@, views_of(known@));
            &&& (c.len() == 0 <==> r is NoMatch)
            &&& c.len() == 1 ==> (r matches MatchResult::Matched(e) && e@ == c[0])
            &&& c.len() > 1 ==> (r matches MatchResult::Ambiguous(v) && views_of(v@) == c)
        }),
{
    let mut cands = match_candidates(input, known);
    let n = cands.len();
    proof {
        assert(views_of(cands@).len() == cands@.len());
    }
    if n == 0 {
        MatchResult::NoMatch
    } else if n == 1 {
        match cands.pop() {
            Some(e) => {
                proof {
                    assert(views_of(cands@ + seq![e])[0] == e@);
                }
                MatchResult::Matched(e)
            },
            None => MatchResult::NoMatch,
        }
    } else {
        MatchResult::Ambiguous(cands)
    }
}

/// The names of the exercises, each separated from the next by "; ".
pub open spec fn spec_joined(names: Seq<Seq<char>>) -> Seq<char>
    decreases names.len(),
{
    if names.len() == 0 {
        Seq::empty()
    } else if names.len() == 1 {
        names[0]
    } else {
        spec_joined(names.drop_last()) + seq![';', ' '] + names.last()
    }
}

/// The names held by a list of exercises.
pub open spec fn names_of(s: Seq<Exercise>) -> Seq<Seq<char>> {
    s.map_values(|e: Exercise| e.name@)
}

/// All the exercise names joined by "; ", for re-prompt messages.
pub fn exercises_string(exercises: &Vec<Exercise>) -> (s: String)
    ensures
        s@ == spec_joined(names_of(exercises@)),
{
    let mut s = String::new();
    let mut i: usize = 0;
    proof {
        reveal_strlit("; ");
        assert(names_of(exercises@.take(0)) =~= Seq::<Seq<char>>::empty());
        assert(s@ =~= spec_joined(names_of(exercises@.take(0))));
    }
    while i < exercises.len()
        invariant
            0 <= i <= exercises@.len(),
            s@ == spec_joined(names_of(exercises@.take(i as int))),
        decreases exercises@.len() - i,
    {
        proof {
            reveal_strlit("; ");
            assert(names_of(exercises@.take(i + 1)).drop_last() =~= names_of(exercises@.take(i as int))) by {
                assert(exercises@.take(i + 1).drop_last() =~= exercises@.take(i as int));
                assert(forall|j: int| 0 <= j < i
                    ==> #[trigger] names_of(exercises@.take(i + 1))[j]
                        == names_of(exercises@.take(i as int))[j]);
            }
            assert(names_of(exercises@.take(i + 1)).last() == exercises@[i as int].name@);
        }
        if i > 0 {
            s.append("; ");
        }
        s.append(exercises[i].name.as_str());
        i = i + 1;
        proof {
            assert(s@ =~= spec_joined(names_of(exercises@.take(i as int))));
        }
    }
    proof {
        assert(exercises@.take(exercises@.len() as int) =~= exercises@);
    }
    s
}

/// A class of exercise with its own defaults at lift entry, an explicit
/// stand-in for keying defaults to fixed storage identifiers.
#[derive(PartialEq, Eq, Structural, Clone, Copy, Debug)]
pub enum DefaultClass {
    /// Bodyweight work: weight defaults to 0, reps must be entered.
    Bodyweight,
    /// Single-rep technique work: reps default to 1.
    SingleRep,
    /// Everything else: reps default to 5.
    Standard,
}

/// Default weight, reps and sets (in tenths) offered at the prompts for one
/// lift; `None` means the value must be entered.
#[derive(PartialEq, Eq, Structural, Clone, Copy, Debug)]
pub struct LiftDefaults {
    pub weight: Option<u64>,
    pub reps: Option<u64>,
    pub sets: Option<u64>,
}

/// The prompt defaults of an exercise class.
pub fn defaults_for(class: DefaultClass) -> (r: LiftDefaults)
    ensures
        class is Bodyweight ==> r == (LiftDefaults {
            weight: Some(0u64), reps: None, sets: Some(10u64) }),
        class is SingleRep ==> r == (LiftDefaults {
            weight: None, reps: Some(10u64), sets: Some(10u64) }),
        class is Standard ==> r == (LiftDefaults {
            weight: None, reps: Some(50u64), sets: Some(10u64) }),
{
    match class {
        DefaultClass::Bodyweight => LiftDefaults { weight: Some(0), reps: None, sets: Some(10) },
        DefaultClass::SingleRep => LiftDefaults { weight: None, reps: Some(10), sets: Some(10) },
        DefaultClass::Standard => LiftDefaults { weight: None, reps: Some(50), sets: Some(10) },
    }
}

/// The default rep count (in tenths) offered when asking for a personal
/// record of an exercise class.
pub fn pr_reps_default(class: DefaultClass) -> (r: Option<u64>)
    ensures
        class is Bodyweight ==> r is None,
        class is SingleRep ==> r == Some(10u64),
        class is Standard ==> r == Some(50u64),
{
    match class {
        DefaultClass::Bodyweight => None,
        DefaultClass::SingleRep => Some(10),
        DefaultClass::Standard => Some(50),
    }
}

/// The class assigned to an exercise identifier: the first assignment that
/// names it, or `Standard`.
pub open spec fn spec_class_for(id: i32, assignments: Seq<(i32, DefaultClass)>) -> DefaultClass
    decreases assignments.len(),
{
    if assignments.len() == 0 {
        DefaultClass::Standard
    } else if assignments[0].0 == id {
        assignments[0].1
    } else {
        spec_class_for(id, assignments.skip(1))
    }
}

/// Look an exercise identifier up in a class-assignment table.
pub fn class_for(id: i32, assignments: &Vec<(i32, DefaultClass)>) -> (r: DefaultClass)
    ensures
        r == spec_class_for(id, assignments@),
{
    let mut i: usize = 0;
    proof {
        assert(assignments@.skip(0) =~= assignments@);
    }
    while i < assignments.len()
        invariant
            0 <= i <= assignments@.len(),
            spec_class_for(id, assignments@) == spec_class_for(id, assignments@.skip(i as int)),
            forall|j: int| 0 <= j < i ==> (#[trigger] assignments@[j]).0 != id,
        decreases assignments@.len() - i,
    {
        proof {
            assert(assignments@.skip(i as int)[0] == assignments@[i as int]);
            assert(assignments@.skip(i as int).skip(1) =~= assignments@.skip(i + 1));
        }
        if assignments[i].0 == id {
            return assignments[i].1;
        }
        i = i + 1;
    }
    proof {
        assert(assignments@.skip(i as int) =~= Seq::<(i32, DefaultClass)>::empty());
    }
    DefaultClass::Standard
}

/// The assignments for the seeded exercise list: chin-ups are bodyweight
/// work, cleans and snatches are single-rep technique work.
pub fn default_class_assignments() -> (r: Vec<(i32, DefaultClass)>)
    ensures
        r@ =~= seq![
            (5i32, DefaultClass::Bodyweight),
            (6i32, DefaultClass::SingleRep),
            (10i32, DefaultClass::SingleRep),
        ],
{
    let mut v: Vec<(i32, DefaultClass)> = Vec::new();
    v.push((5, DefaultClass::Bodyweight));
    v.push((6, DefaultClass::SingleRep));
    v.push((10, DefaultClass::SingleRep));
    v
}

} // verus!
