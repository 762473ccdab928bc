use liftsql::input::confirms;
use liftsql::plan::{config_from_text, default_plan, Config, PlanDay, Prescription, RepsRule, WeightRule};
use liftsql::render::{
    day_bounded, pr_line, pr_query, render_day, render_line, PrQuery, RenderError,
};

#[test]
fn advance_then_retreat_returns() {
    for len in 1..=7usize {
        for start in 0..len {
            let mut c = Config { day_id: start };
            c.advance(len);
            c.retreat(len);
            assert_eq!(c.day_id, start);
            c.retreat(len);
            c.advance(len);
            assert_eq!(c.day_id, start);
        }
    }
}

#[test]
fn retreat_wraps_at_day_zero() {
    let mut c = Config::default();
    assert_eq!(c.day_id, 0);
    c.retreat(6);
    assert_eq!(c.day_id, 5);
    c.advance(6);
    assert_eq!(c.day_id, 0);
}

#[test]
fn advance_wraps_at_last_day() {
    let mut c = Config { day_id: 5 };
    c.advance(6);
    assert_eq!(c.day_id, 0);
}

#[test]
fn persisted_cursor_text_resolves_or_falls_back() {
    assert_eq!(config_from_text("3", 6).day_id, 3);
    assert_eq!(config_from_text("0", 6).day_id, 0);
    assert_eq!(config_from_text("5", 6).day_id, 5);
    assert_eq!(config_from_text("6", 6).day_id, 0);
    assert_eq!(config_from_text("-1", 6).day_id, 0);
    assert_eq!(config_from_text("", 6).day_id, 0);
    assert_eq!(config_from_text("nonsense", 6).day_id, 0);
}

#[test]
fn empty_reply_confirms() {
    assert!(confirms(""));
    assert!(!confirms("n"));
    assert!(!confirms(" "));
}

#[test]
fn built_in_plan_shape() {
    let plan = default_plan();
    assert_eq!(plan.len(), 6);
    let names: Vec<&str> = plan.iter().map(|d| d.name.as_str()).collect();
    assert_eq!(
        names,
        vec![
            "Volume Bench",
            "Recovery Press",
            "PR Press",
            "Volume Press",
            "Recovery Bench",
            "PR Bench"
        ]
    );
    for day in &plan {
        assert_eq!(day.prescriptions.len(), 3);
        assert!(day_bounded(day));
    }
    assert_eq!(
        plan[0].prescriptions[0],
        Prescription {
            exercise_id: 1,
            weight: WeightRule::RelativeToMax(90),
            reps: RepsRule::Fixed(50),
            sets: 5
        }
    );
}

#[test]
fn ninety_percent_of_hundred_kilos() {
    let p = Prescription {
        exercise_id: 1,
        weight: WeightRule::RelativeToMax(90),
        reps: RepsRule::Fixed(50),
        sets: 5,
    };
    let line = render_line("Squat", &p, Some(1000)).unwrap();
    assert_eq!(line, "Squat 5x5 90kg");
}

#[test]
fn full_max_is_marked_as_record_attempt() {
    let p = Prescription {
        exercise_id: 1,
        weight: WeightRule::RelativeToMax(100),
        reps: RepsRule::Fixed(50),
        sets: 1,
    };
    let line = render_line("Squat", &p, Some(1000)).unwrap();
    assert_eq!(line, "Squat 1x5 >100kg *PR*");
    assert!(line.ends_with(" *PR*"));
}

#[test]
fn amrap_is_marked_as_amrap_attempt() {
    let p = Prescription {
        exercise_id: 5,
        weight: WeightRule::Fixed(0),
        reps: RepsRule::Amrap,
        sets: 1,
    };
    let line = render_line("Chinups", &p, Some(120)).unwrap();
    assert_eq!(line, "Chinups 1x>12 0kg *AMRAP*");
    assert!(line.ends_with(" *AMRAP*"));
}

#[test]
fn missing_record_renders_placeholder() {
    let p = Prescription {
        exercise_id: 1,
        weight: WeightRule::RelativeToMax(72),
        reps: RepsRule::Fixed(50),
        sets: 2,
    };
    let line = render_line("Press", &p, None).unwrap();
    assert_eq!(line, "Press 2x5 ?kg");

    let q = Prescription {
        exercise_id: 5,
        weight: WeightRule::Fixed(0),
        reps: RepsRule::Amrap,
        sets: 1,
    };
    let line = render_line("Chinups", &q, None).unwrap();
    assert_eq!(line, "Chinups 1x>? 0kg *AMRAP*");
}

#[test]
fn fractional_weights_render_with_tenths() {
    let p = Prescription {
        exercise_id: 1,
        weight: WeightRule::RelativeToMax(90),
        reps: RepsRule::Fixed(50),
        sets: 5,
    };
    // 102.5 kg record scaled to 90% truncates to 92.2 in tenths.
    let line = render_line("Bench", &p, Some(1025)).unwrap();
    assert_eq!(line, "Bench 5x5 92.2kg");
}

#[test]
fn amrap_of_max_is_an_error() {
    let p = Prescription {
        exercise_id: 1,
        weight: WeightRule::RelativeToMax(90),
        reps: RepsRule::Amrap,
        sets: 1,
    };
    assert_eq!(render_line("Squat", &p, None), Err(RenderError::AmrapOfMax));
}

#[test]
fn queries_follow_the_rules() {
    let a = Prescription {
        exercise_id: 3,
        weight: WeightRule::RelativeToMax(90),
        reps: RepsRule::Fixed(50),
        sets: 5,
    };
    assert_eq!(pr_query(&a), Some(PrQuery::WeightAtReps { exercise_id: 3, reps: 50 }));
    let b = Prescription {
        exercise_id: 5,
        weight: WeightRule::Fixed(200),
        reps: RepsRule::Amrap,
        sets: 1,
    };
    assert_eq!(pr_query(&b), Some(PrQuery::RepsAtWeight { exercise_id: 5, weight: 200 }));
    let c = Prescription {
        exercise_id: 5,
        weight: WeightRule::Fixed(200),
        reps: RepsRule::Fixed(50),
        sets: 1,
    };
    assert_eq!(pr_query(&c), None);
}

#[test]
fn whole_day_renders_every_line() {
    let day = PlanDay {
        name: "Volume Bench".to_string(),
        prescriptions: vec![
            Prescription {
                exercise_id: 1,
                weight: WeightRule::RelativeToMax(90),
                reps: RepsRule::Fixed(50),
                sets: 5,
            },
            Prescription {
                exercise_id: 3,
                weight: WeightRule::RelativeToMax(100),
                reps: RepsRule::Fixed(50),
                sets: 1,
            },
        ],
    };
    let names = vec!["Squat".to_string(), "Deadlift".to_string()];
    let prs = vec![Some(1000), None];
    let lines = render_day(&day, &names, &prs).unwrap();
    assert_eq!(lines, vec!["Squat 5x5 90kg", "Deadlift 1x5 >?kg *PR*"]);
}

#[test]
fn day_with_undefined_prescription_fails_as_a_whole() {
    let day = PlanDay {
        name: "Broken".to_string(),
        prescriptions: vec![Prescription {
            exercise_id: 1,
            weight: WeightRule::RelativeToMax(90),
            reps: RepsRule::Amrap,
            sets: 1,
        }],
    };
    let names = vec!["Squat".to_string()];
    let prs = vec![None];
    assert_eq!(render_day(&day, &names, &prs), Err(RenderError::AmrapOfMax));
}

#[test]
fn record_answer_line() {
    assert_eq!(pr_line("Squat", 1425, 50), "Squat: 142.5x5");
    assert_eq!(pr_line("Bench", 1000, 10), "Bench: 100x1");
}
