use liftsql::dates::{ago_string, days_in_month, Date};
use liftsql::input::{
    date_command, is_cancel, menu_command, number_input, plan_command, DateCommand, MenuCommand,
    NumberInput, PlanCommand,
};
use liftsql::numfmt::{tenths_to_string, u64_to_string};
use liftsql::parse::{parse_signed, parse_tenths};

#[test]
fn four_days_ago() {
    let then = Date::from_ymd(2024, 1, 1);
    let now = Date::from_ymd(2024, 1, 5);
    assert_eq!(then.days_until(&now), 4);
    assert_eq!(ago_string(&then, &now), "4 days ago");
}

#[test]
fn future_session_is_marked_ahead() {
    let then = Date::from_ymd(2024, 1, 5);
    let now = Date::from_ymd(2024, 1, 1);
    assert_eq!(ago_string(&then, &now), "4 days AHEAD");
}

#[test]
fn one_day_is_singular() {
    let then = Date::from_ymd(2024, 1, 4);
    let now = Date::from_ymd(2024, 1, 5);
    assert_eq!(ago_string(&then, &now), "1 day ago");
    assert_eq!(ago_string(&now, &then), "1 day AHEAD");
    assert_eq!(ago_string(&now, &now), "0 days ago");
}

#[test]
fn day_numbers_cross_month_and_leap_boundaries() {
    assert_eq!(Date::from_ymd(2024, 2, 1).days_until(&Date::from_ymd(2024, 3, 1)), 29);
    assert_eq!(Date::from_ymd(2023, 2, 1).days_until(&Date::from_ymd(2023, 3, 1)), 28);
    assert_eq!(Date::from_ymd(2023, 12, 31).days_until(&Date::from_ymd(2024, 1, 1)), 1);
    assert_eq!(Date::from_ymd(1, 1, 1).days, 1);
}

#[test]
fn month_lengths() {
    assert_eq!(days_in_month(2024, 2), 29);
    assert_eq!(days_in_month(2023, 2), 28);
    assert_eq!(days_in_month(1900, 2), 28);
    assert_eq!(days_in_month(2000, 2), 29);
    assert_eq!(days_in_month(2024, 4), 30);
    assert_eq!(days_in_month(2024, 12), 31);
}

#[test]
fn subtracting_days_moves_the_date() {
    let d = Date::from_ymd(2024, 1, 5);
    let e = d.minus_days(4);
    assert_eq!(e, Date::from_ymd(2024, 1, 1));
    let f = d.minus_days(-2);
    assert_eq!(f, Date::from_ymd(2024, 1, 7));
}

#[test]
fn signed_numbers_parse_exactly() {
    assert_eq!(parse_signed("4"), Some(4));
    assert_eq!(parse_signed("-3"), Some(-3));
    assert_eq!(parse_signed("+2"), Some(2));
    assert_eq!(parse_signed("0"), Some(0));
    assert_eq!(parse_signed(""), None);
    assert_eq!(parse_signed("-"), None);
    assert_eq!(parse_signed("q"), None);
    assert_eq!(parse_signed("1a"), None);
    assert_eq!(parse_signed("12345678901234567890"), None);
}

#[test]
fn quantities_parse_to_tenths() {
    assert_eq!(parse_tenths("90"), Some(900));
    assert_eq!(parse_tenths("90.5"), Some(905));
    assert_eq!(parse_tenths("0"), Some(0));
    assert_eq!(parse_tenths("0.5"), Some(5));
    assert_eq!(parse_tenths(""), None);
    assert_eq!(parse_tenths("90.25"), None);
    assert_eq!(parse_tenths("."), None);
    assert_eq!(parse_tenths("5."), None);
    assert_eq!(parse_tenths(".5"), None);
    assert_eq!(parse_tenths("-5"), None);
    assert_eq!(parse_tenths("abc"), None);
}

#[test]
fn numbers_format_exactly() {
    assert_eq!(u64_to_string(0), "0");
    assert_eq!(u64_to_string(7), "7");
    assert_eq!(u64_to_string(1234), "1234");
    assert_eq!(tenths_to_string(900), "90");
    assert_eq!(tenths_to_string(905), "90.5");
    assert_eq!(tenths_to_string(5), "0.5");
    assert_eq!(tenths_to_string(0), "0");
}

#[test]
fn menu_inputs_dispatch() {
    assert_eq!(menu_command("n"), MenuCommand::NewSession);
    assert_eq!(menu_command("p"), MenuCommand::ShowPlan);
    assert_eq!(menu_command("g"), MenuCommand::GetPr);
    assert_eq!(menu_command("a"), MenuCommand::AddExercise);
    assert_eq!(menu_command("q"), MenuCommand::Quit);
    assert_eq!(menu_command("c"), MenuCommand::Quit);
    assert_eq!(menu_command("zz"), MenuCommand::Invalid);
    assert_eq!(menu_command(""), MenuCommand::Invalid);
}

#[test]
fn plan_inputs_dispatch() {
    assert_eq!(plan_command("n"), PlanCommand::Next);
    assert_eq!(plan_command("p"), PlanCommand::Prev);
    assert_eq!(plan_command("q"), PlanCommand::Quit);
    assert_eq!(plan_command("c"), PlanCommand::Quit);
    assert_eq!(plan_command("x"), PlanCommand::Invalid);
}

#[test]
fn date_inputs_resolve() {
    assert_eq!(date_command(""), DateCommand::UseCurrent);
    assert_eq!(date_command("4"), DateCommand::DaysAgo(4));
    assert_eq!(date_command("-1"), DateCommand::DaysAgo(-1));
    assert_eq!(date_command("q"), DateCommand::Cancel);
    assert_eq!(date_command("c"), DateCommand::Cancel);
    assert_eq!(date_command("hello"), DateCommand::Invalid);
}

#[test]
fn numeric_prompt_inputs_resolve() {
    assert_eq!(number_input("q", Some(50)), NumberInput::Cancelled);
    assert_eq!(number_input("c", None), NumberInput::Cancelled);
    assert_eq!(number_input("", Some(50)), NumberInput::Value(50));
    assert_eq!(number_input("", None), NumberInput::Retry);
    assert_eq!(number_input("72.5", Some(50)), NumberInput::Value(725));
    assert_eq!(number_input("not a number", Some(50)), NumberInput::Retry);
    assert!(is_cancel("q") && is_cancel("c") && !is_cancel("Q") && !is_cancel(""));
}
