use vstd::prelude::*;
use vstd::string::StrSliceExecFns;
use crate::numfmt::TENTHS_LIMIT;
use crate::parse::{
    is_int_string, int_string_val, is_whole_number, is_tenths_number, tenths_val, parse_signed,
    parse_tenths, SIGNED_LIMIT,
};

verus! {

/// Whether the string is exactly the one character `c`.
pub fn str_eq_char(s: &str, c: char) -> (r: bool)
    ensures
        r == (s@ == seq![c]),
{
    if s.unicode_len() == 1 {
        let c0 = s.get_char(0);
        if c0 == c {
            proof {
                assert(s@ =~= seq![c]);
            }
            true
        } else {
            false
        }
    } else {
        false
    }
}

/// Whether the string is empty.
pub fn str_is_empty(s: &str) -> (r: bool)
    ensures
        r == (s@ == Seq::<char>::empty()),
{
    if s.unicode_len() == 0 {
        proof {
            assert(s@ =~= Seq::<char>::empty());
        }
        true
    } else {
        false
    }
}

/// The rule of every "[YES]/cancel" prompt — logging the session, adding
/// another lift: an empty reply says yes, any other reply declines.
pub fn confirms(s: &str) -> (r: bool)
    ensures
        r == (s@ == Seq::<char>::empty()),
{
    str_is_empty(s)
}

/// Whether the input is one of the cancel sentinels, "q" or "c".
pub open spec fn spec_is_cancel(s: Seq<char>) -> bool {
    s == seq!['q'] || s == seq!['c']
}

/// Whether the input cancels the current prompt.
pub fn is_cancel(s: &str) -> (r: bool)
    ensures
        r == spec_is_cancel(s@),
{
    str_eq_char(s, 'q') || str_eq_char(s, 'c')
}

/// A command chosen at the top-level menu.
#[derive(PartialEq, Eq, Structural, Clone, Copy, Debug)]
pub enum MenuCommand {
    NewSession,
    ShowPlan,
    GetPr,
    AddExercise,
    Quit,
    Invalid,
}

/// What the top-level menu does with one line of input.
pub open spec fn spec_menu_command(s: Seq<char>) -> MenuCommand {
    if s == seq!['n'] { MenuCommand::NewSession }
    else if s == seq!['p'] { MenuCommand::ShowPlan }
    else if s == seq!['g'] { MenuCommand::GetPr }
    else if s == seq!['a'] { MenuCommand::AddExercise }
    else if spec_is_cancel(s) { MenuCommand::Quit }
    else { MenuCommand::Invalid }
}

/// Interpret one line of top-level menu input.
pub fn menu_command(s: &str) -> (r: MenuCommand)
    ensures
        r == spec_menu_command(s@),
{
    if str_eq_char(s, 'n') { MenuCommand::NewSession }
    else if str_eq_char(s, 'p') { MenuCommand::ShowPlan }
    else if str_eq_char(s, 'g') { MenuCommand::GetPr }
    else if str_eq_char(s, 'a') { MenuCommand::AddExercise }
    else if is_cancel(s) { MenuCommand::Quit }
    else { MenuCommand::Invalid }
}

/// A command at the plan-browsing prompt.
#[derive(PartialEq, Eq, Structural, Clone, Copy, Debug)]
pub enum PlanCommand {
    Quit,
    Next,
    Prev,
    Invalid,
}

/// What the plan dialogue does with one line of input.
pub open spec fn spec_plan_command(s: Seq<char>) -> PlanCommand {
    if spec_is_cancel(s) { PlanCommand::Quit }
    else if s == seq!['n'] { PlanCommand::Next }
    else if s == seq!['p'] { PlanCommand::Prev }
    else { PlanCommand::Invalid }
}

/// Interpret one line of plan-dialogue input.
pub fn plan_command(s: &str) -> (r: PlanCommand)
    ensures
        r == spec_plan_command(s@),
{
    if is_cancel(s) { PlanCommand::Quit }
    else if str_eq_char(s, 'n') { PlanCommand::Next }
    else if str_eq_char(s, 'p') { PlanCommand::Prev }
    else { PlanCommand::Invalid }
}

/// The outcome of the session-date prompt.
#[derive(PartialEq, Eq, Structural, Clone, Copy, Debug)]
pub enum DateCommand {
    /// Empty input: log the session on the current date.
    UseCurrent,
    /// A whole number: log the session that many days before the current
    /// date (negative numbers land after it).
    DaysAgo(i64),
    /// A cancel sentinel: abort the whole workflow before anything is written.
    Cancel,
    /// Anything else: re-prompt.
    Invalid,
}

/// What the date prompt does with one line of input.  A parsable number is
/// recognized first, so a bare "q" or "c" cancels but "-1" retreats a day.
pub open spec fn spec_date_command(s: Seq<char>) -> DateCommand {
    if is_int_string(s) && -(SIGNED_LIMIT as int) <= int_string_val(s) <= SIGNED_LIMIT as int {
        DateCommand::DaysAgo(int_string_val(s) as i64)
    } else if s == Seq::<char>::empty() {
        DateCommand::UseCurrent
    } else if spec_is_cancel(s) {
        DateCommand::Cancel
    } else {
        DateCommand::Invalid
    }
}

/// Interpret one line of session-date input.
pub fn date_command(s: &str) -> (r: DateCommand)
    ensures
        r == spec_date_command(s@),
{
    match parse_signed(s) {
        Some(v) => DateCommand::DaysAgo(v),
        None => {
            if str_is_empty(s) {
                DateCommand::UseCurrent
            } else if is_cancel(s) {
                DateCommand::Cancel
            } else {
                DateCommand::Invalid
            }
        },
    }
}

/// The outcome of a numeric prompt (weight, reps or sets), in tenths.
#[derive(PartialEq, Eq, Structural, Clone, Copy, Debug)]
pub enum NumberInput {
    /// A cancel sentinel: abort this lift entry.
    Cancelled,
    /// A value, in tenths: entered, or the default on empty input.
    Value(u64),
    /// Unparsable input (or empty input with no default): re-prompt.
    Retry,
}

/// What a numeric prompt does with one line of input, given the prompt's
/// default value.
pub open spec fn spec_number_input(s: Seq<char>, default: Option<u64>) -> NumberInput {
    if spec_is_cancel(s) {
        NumberInput::Cancelled
    } else if s == Seq::<char>::empty() && default is Some {
        NumberInput::Value(default->0)
    } else if (is_whole_number(s) || is_tenths_number(s)) && tenths_val(s) <= TENTHS_LIMIT as int {
        NumberInput::Value(tenths_val(s) as u64)
    } else {
        NumberInput::Retry
    }
}

/// Interpret one line of numeric input against an optional default.
pub fn number_input(s: &str, default: Option<u64>) -> (r: NumberInput)
    ensures
        r == spec_number_input(s@, default),
{
    if is_cancel(s) {
        return NumberInput::Cancelled;
    }
    if str_is_empty(s) {
        if let Some(d) = default {
            return NumberInput::Value(d);
        }
    }
    match parse_tenths(s) {
        Some(v) => NumberInput::Value(v),
        None => NumberInput::Retry,
    }
}

} // verus!
