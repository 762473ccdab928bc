use liftsql::exercises::{
    class_for, default_class_assignments, defaults_for, exercises_string, match_candidates,
    match_exercise, pr_reps_default, DefaultClass, Exercise, LiftDefaults, MatchResult,
};

fn known(names: &[&str]) -> Vec<Exercise> {
    names
        .iter()
        .enumerate()
        .map(|(i, n)| Exercise { id: (i + 1) as i32, name: n.to_string() })
        .collect()
}

#[test]
fn unique_prefix_matches() {
    let ks = known(&["Squat", "Bench", "Deadlift"]);
    match match_exercise("s", &ks) {
        MatchResult::Matched(e) => assert_eq!(e.name, "Squat"),
        other => panic!("expected a unique match, got {:?}", other),
    }
    match match_exercise("b", &ks) {
        MatchResult::Matched(e) => assert_eq!(e.name, "Bench"),
        other => panic!("expected a unique match, got {:?}", other),
    }
}

#[test]
fn empty_input_never_matches() {
    let ks = known(&["Squat", "Bench", "Deadlift"]);
    assert_eq!(match_exercise("", &ks), MatchResult::NoMatch);
}

#[test]
fn unknown_input_has_no_match() {
    let ks = known(&["Squat", "Bench", "Deadlift"]);
    assert_eq!(match_exercise("x", &ks), MatchResult::NoMatch);
}

#[test]
fn shared_prefix_is_ambiguous() {
    let ks = known(&["Squat", "Snatch"]);
    match match_exercise("s", &ks) {
        MatchResult::Ambiguous(v) => {
            let names: Vec<&str> = v.iter().map(|e| e.name.as_str()).collect();
            assert_eq!(names, vec!["Squat", "Snatch"]);
        },
        other => panic!("expected an ambiguous match, got {:?}", other),
    }
}

#[test]
fn matching_ignores_case() {
    let ks = known(&["Squat", "Bench", "Deadlift"]);
    match match_exercise("DEAD", &ks) {
        MatchResult::Matched(e) => assert_eq!(e.name, "Deadlift"),
        other => panic!("expected a unique match, got {:?}", other),
    }
    match match_exercise("sQ", &ks) {
        MatchResult::Matched(e) => assert_eq!(e.name, "Squat"),
        other => panic!("expected a unique match, got {:?}", other),
    }
}

#[test]
fn matching_ignores_case_beyond_ascii() {
    let ks = known(&["Äpfel", "Übungen"]);
    match match_exercise("ä", &ks) {
        MatchResult::Matched(e) => assert_eq!(e.name, "Äpfel"),
        other => panic!("expected a unique match, got {:?}", other),
    }
    match match_exercise("üBUNG", &ks) {
        MatchResult::Matched(e) => assert_eq!(e.name, "Übungen"),
        other => panic!("expected a unique match, got {:?}", other),
    }
}

#[test]
fn longer_input_than_name_does_not_match() {
    let ks = known(&["Squat"]);
    assert_eq!(match_exercise("squats", &ks), MatchResult::NoMatch);
}

#[test]
fn candidates_keep_order() {
    let ks = known(&["Press", "Pulldown", "Squat"]);
    let cands = match_candidates("p", &ks);
    let names: Vec<&str> = cands.iter().map(|e| e.name.as_str()).collect();
    assert_eq!(names, vec!["Press", "Pulldown"]);
}

#[test]
fn names_join_with_separator() {
    let ks = known(&["Squat", "Bench", "Deadlift"]);
    assert_eq!(exercises_string(&ks), "Squat; Bench; Deadlift");
    let one = known(&["Squat"]);
    assert_eq!(exercises_string(&one), "Squat");
    let none: Vec<Exercise> = Vec::new();
    assert_eq!(exercises_string(&none), "");
}

#[test]
fn default_classes_follow_assignments() {
    let table = default_class_assignments();
    assert_eq!(class_for(5, &table), DefaultClass::Bodyweight);
    assert_eq!(class_for(6, &table), DefaultClass::SingleRep);
    assert_eq!(class_for(10, &table), DefaultClass::SingleRep);
    assert_eq!(class_for(1, &table), DefaultClass::Standard);
    assert_eq!(class_for(7, &table), DefaultClass::Standard);
}

#[test]
fn lift_defaults_per_class() {
    assert_eq!(
        defaults_for(DefaultClass::Bodyweight),
        LiftDefaults { weight: Some(0), reps: None, sets: Some(10) }
    );
    assert_eq!(
        defaults_for(DefaultClass::SingleRep),
        LiftDefaults { weight: None, reps: Some(10), sets: Some(10) }
    );
    assert_eq!(
        defaults_for(DefaultClass::Standard),
        LiftDefaults { weight: None, reps: Some(50), sets: Some(10) }
    );
}

#[test]
fn pr_reps_defaults_per_class() {
    assert_eq!(pr_reps_default(DefaultClass::Bodyweight), None);
    assert_eq!(pr_reps_default(DefaultClass::SingleRep), Some(10));
    assert_eq!(pr_reps_default(DefaultClass::Standard), Some(50));
}
