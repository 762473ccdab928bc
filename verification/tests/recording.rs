use liftsql::dates::Date;
use liftsql::plan::{PlanDay, Prescription, RepsRule, WeightRule};
use liftsql::render::{day_answers, pr_query, render_day, render_line, PrQuery};
use liftsql::recorder::{LiftAttempt, LiftEntry, SessionDraft, SessionOutcome};
use liftsql::store::Store;

fn seeded_store() -> Store {
    let mut store = Store::new();
    assert_eq!(store.insert_exercise("Squat".to_string()), 1);
    assert_eq!(store.insert_exercise("Bench".to_string()), 2);
    assert_eq!(store.insert_exercise("Deadlift".to_string()), 3);
    store
}

fn entry(exercise_id: i32, weight: u64, reps: u64, sets: u64) -> LiftEntry {
    LiftEntry { exercise_id, weight, reps, sets }
}

#[test]
fn committed_session_keeps_exactly_the_successful_lifts() {
    let mut store = seeded_store();
    let date = Date::from_ymd(2024, 1, 5);
    let attempts = vec![
        LiftAttempt::Completed(entry(1, 1000, 50, 50)),
        LiftAttempt::Cancelled,
        LiftAttempt::Completed(entry(2, 800, 50, 50)),
        LiftAttempt::Cancelled,
        LiftAttempt::Completed(entry(1, 1025, 30, 10)),
    ];
    let outcome = store.record_session(date, &attempts, "");
    let id = match outcome {
        SessionOutcome::Committed(id) => id,
        SessionOutcome::Cancelled => panic!("expected a commit"),
    };
    assert_eq!(store.sessions.len(), 1);
    assert_eq!(store.sessions[0].id, id);
    assert_eq!(store.sessions[0].date, date);
    // Exactly the three completed entries, in order, all on the new session.
    assert_eq!(store.lifts.len(), 3);
    for l in &store.lifts {
        assert_eq!(l.session_id, id);
    }
    assert_eq!(store.lifts[0].exercise_id, 1);
    assert_eq!(store.lifts[0].weight, 1000);
    assert_eq!(store.lifts[1].exercise_id, 2);
    assert_eq!(store.lifts[2].weight, 1025);
}

#[test]
fn session_with_no_successful_lift_leaves_no_row() {
    let mut store = seeded_store();
    let date = Date::from_ymd(2024, 1, 5);
    let attempts = vec![LiftAttempt::Cancelled, LiftAttempt::Cancelled];
    let outcome = store.record_session(date, &attempts, "");
    assert_eq!(outcome, SessionOutcome::Cancelled);
    assert_eq!(store.sessions.len(), 0);
    assert_eq!(store.lifts.len(), 0);
}

#[test]
fn declined_confirmation_discards_everything() {
    let mut store = seeded_store();
    let date = Date::from_ymd(2024, 1, 5);
    let attempts = vec![LiftAttempt::Completed(entry(1, 1000, 50, 50))];
    let outcome = store.record_session(date, &attempts, "n");
    assert_eq!(outcome, SessionOutcome::Cancelled);
    assert_eq!(store.sessions.len(), 0);
    assert_eq!(store.lifts.len(), 0);
}

#[test]
fn draft_counts_only_completed_attempts() {
    let mut draft = SessionDraft::new(Date::from_ymd(2024, 1, 5));
    draft.apply_attempt(LiftAttempt::Cancelled);
    assert_eq!(draft.lift_count(), 0);
    draft.apply_attempt(LiftAttempt::Completed(entry(1, 1000, 50, 10)));
    draft.apply_attempt(LiftAttempt::Cancelled);
    draft.apply_attempt(LiftAttempt::Completed(entry(2, 800, 50, 10)));
    assert_eq!(draft.lift_count(), 2);
}

#[test]
fn weight_record_is_the_best_at_that_exact_rep_count() {
    let mut store = seeded_store();
    let date = Date::from_ymd(2024, 1, 5);
    let attempts = vec![
        LiftAttempt::Completed(entry(1, 1000, 50, 10)),
        LiftAttempt::Completed(entry(1, 1100, 50, 10)),
        LiftAttempt::Completed(entry(1, 1050, 50, 10)),
        LiftAttempt::Completed(entry(1, 1200, 30, 10)),
        LiftAttempt::Completed(entry(2, 2000, 50, 10)),
    ];
    assert!(matches!(store.record_session(date, &attempts, ""), SessionOutcome::Committed(_)));
    // Best at exactly 5 reps; the heavier triple does not count.
    assert_eq!(store.weight_pr(1, 50), Some(1100));
    assert_eq!(store.weight_pr(1, 30), Some(1200));
    // No interpolation across rep counts.
    assert_eq!(store.weight_pr(1, 10), None);
    assert_eq!(store.weight_pr(3, 50), None);
}

#[test]
fn rep_record_is_the_best_at_that_exact_weight() {
    let mut store = seeded_store();
    let date = Date::from_ymd(2024, 1, 5);
    let attempts = vec![
        LiftAttempt::Completed(entry(1, 0, 80, 10)),
        LiftAttempt::Completed(entry(1, 0, 120, 10)),
        LiftAttempt::Completed(entry(1, 100, 200, 10)),
    ];
    assert!(matches!(store.record_session(date, &attempts, ""), SessionOutcome::Committed(_)));
    assert_eq!(store.reps_pr(1, 0), Some(120));
    assert_eq!(store.reps_pr(1, 100), Some(200));
    assert_eq!(store.reps_pr(1, 50), None);
    assert_eq!(store.reps_pr(2, 0), None);
}

#[test]
fn last_session_is_the_most_recent_by_date() {
    let mut store = seeded_store();
    let lift = vec![LiftAttempt::Completed(entry(1, 1000, 50, 10))];
    let d1 = Date::from_ymd(2024, 1, 1);
    let d2 = Date::from_ymd(2024, 1, 9);
    let d3 = Date::from_ymd(2024, 1, 5);
    assert!(matches!(store.record_session(d1, &lift, ""), SessionOutcome::Committed(1)));
    assert!(matches!(store.record_session(d2, &lift, ""), SessionOutcome::Committed(2)));
    assert!(matches!(store.record_session(d3, &lift, ""), SessionOutcome::Committed(3)));
    let last = store.last_session().unwrap();
    assert_eq!(last.id, 2);
    assert_eq!(last.date, d2);
    assert_eq!(store.session_date(3), Some(d3));
    assert_eq!(store.session_date(9), None);
    assert_eq!(Store::new().last_session(), None);
}

#[test]
fn exercise_names_resolve_by_identifier() {
    let store = seeded_store();
    assert_eq!(store.exercise_name(2), Some("Bench".to_string()));
    assert_eq!(store.exercise_name(9), None);
}

#[test]
fn recorded_session_drives_the_plan_render() {
    let mut store = seeded_store();
    let date = Date::from_ymd(2024, 1, 5);
    let attempts = vec![LiftAttempt::Completed(entry(1, 1000, 50, 50))];
    assert!(matches!(store.record_session(date, &attempts, ""), SessionOutcome::Committed(_)));

    let p = Prescription {
        exercise_id: 1,
        weight: WeightRule::RelativeToMax(90),
        reps: RepsRule::Fixed(50),
        sets: 5,
    };
    let answer = match pr_query(&p) {
        Some(PrQuery::WeightAtReps { exercise_id, reps }) => store.weight_pr(exercise_id, reps),
        _ => panic!("expected a weight lookup"),
    };
    assert_eq!(answer, Some(1000));
    let name = store.exercise_name(1).unwrap();
    let line = render_line(&name, &p, answer).unwrap();
    assert_eq!(line, "Squat 5x5 90kg");
}

#[test]
fn whole_day_renders_from_the_store() {
    let mut store = seeded_store();
    let date = Date::from_ymd(2024, 1, 5);
    let attempts = vec![
        LiftAttempt::Completed(entry(1, 1000, 50, 50)),
        LiftAttempt::Completed(entry(2, 0, 100, 10)),
    ];
    assert!(matches!(store.record_session(date, &attempts, ""), SessionOutcome::Committed(_)));

    let day = PlanDay {
        name: "Mixed".to_string(),
        prescriptions: vec![
            Prescription {
                exercise_id: 1,
                weight: WeightRule::RelativeToMax(90),
                reps: RepsRule::Fixed(50),
                sets: 5,
            },
            Prescription {
                exercise_id: 2,
                weight: WeightRule::Fixed(0),
                reps: RepsRule::Amrap,
                sets: 1,
            },
            Prescription {
                exercise_id: 3,
                weight: WeightRule::RelativeToMax(100),
                reps: RepsRule::Fixed(50),
                sets: 1,
            },
        ],
    };
    let answers = day_answers(&store, &day);
    assert_eq!(answers, vec![Some(1000), Some(100), None]);
    let names = vec![
        store.exercise_name(1).unwrap(),
        store.exercise_name(2).unwrap(),
        store.exercise_name(3).unwrap(),
    ];
    let lines = render_day(&day, &names, &answers).unwrap();
    assert_eq!(
        lines,
        vec!["Squat 5x5 90kg", "Bench 1x>10 0kg *AMRAP*", "Deadlift 1x5 >?kg *PR*"]
    );
}

#[test]
fn identifiers_grow_across_commits() {
    let mut store = seeded_store();
    let lift = vec![
        LiftAttempt::Completed(entry(1, 1000, 50, 10)),
        LiftAttempt::Completed(entry(2, 800, 50, 10)),
    ];
    let d = Date::from_ymd(2024, 1, 1);
    assert_eq!(store.record_session(d, &lift, ""), SessionOutcome::Committed(1));
    assert_eq!(store.record_session(d, &lift, ""), SessionOutcome::Committed(2));
    assert_eq!(store.lifts.len(), 4);
    let ids: Vec<i32> = store.lifts.iter().map(|l| l.id).collect();
    assert_eq!(ids, vec![1, 2, 3, 4]);
}
