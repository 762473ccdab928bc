use vstd::prelude::*;
use vstd::string::StringExecFns;

verus! {

/// Largest value, in tenths, that weights, reps and sets may take.  Keeps
/// every product computed by the renderer comfortably inside `u64`.
pub const TENTHS_LIMIT: u64 = 1000000000;

/// The decimal digit character for `d` (meaningful for `0 <= d <= 9`).
pub open spec fn digit_char(d: int) -> char {
    if d == 0 { '0' }
    else if d == 1 { '1' }
    else if d == 2 { '2' }
    else if d == 3 { '3' }
    else if d == 4 { '4' }
    else if d == 5 { '5' }
    else if d == 6 { '6' }
    else if d == 7 { '7' }
    else if d == 8 { '8' }
    else { '9' }
}

/// Decimal digit string of `n`, most significant digit first, no leading
/// zeros (except for `n == 0`, which is "0").
pub open spec fn spec_udec(n: nat) -> Seq<char>
    decreases n,
{
    if n < 10 {
        seq![digit_char(n as int)]
    } else {
        spec_udec(n / 10).push(digit_char((n % 10) as int))
    }
}

/// How a quantity stored in tenths is displayed: the whole part alone when
/// the value is whole, otherwise whole part, '.', and the single tenth digit.
pub open spec fn spec_tenths(t: nat) -> Seq<char> {
    if t % 10 == 0 {
        spec_udec(t / 10)
    } else {
        spec_udec(t / 10) + seq!['.', digit_char((t % 10) as int)]
    }
}

/// The one-character string for a single decimal digit.
fn digit_str(d: u64) -> (r: &'static str)
    requires
        d <= 9,
    ensures
        r@ == seq![digit_char(d as int)],
{
    proof {
        reveal_strlit("0");
        reveal_strlit("1");
        reveal_strlit("2");
        reveal_strlit("3");
        reveal_strlit("4");
        reveal_strlit("5");
        reveal_strlit("6");
        reveal_strlit("7");
        reveal_strlit("8");
        reveal_strlit("9");
    }
    let r: &'static str = if d == 0 { "0" }
    else if d == 1 { "1" }
    else if d == 2 { "2" }
    else if d == 3 { "3" }
    else if d == 4 { "4" }
    else if d == 5 { "5" }
    else if d == 6 { "6" }
    else if d == 7 { "7" }
    else if d == 8 { "8" }
    else { "9" };
    proof {
        assert(r@ =~= seq![digit_char(d as int)]);
    }
    r
}

/// Decimal rendering of `n`, exactly the digits of `spec_udec`.
pub fn u64_to_string(n: u64) -> (s: String)
    ensures
        s@ == spec_udec(n as nat),
    decreases n,
{
    if n < 10 {
        let s = digit_str(n).to_owned();
        proof {
            assert(s@ =~= spec_udec(n as nat));
        }
        s
    } else {
        let mut s = u64_to_string(n / 10);
        s.append(digit_str(n % 10));
        proof {
            assert(s@ =~= spec_udec(n as nat));
        }
        s
    }
}

/// Rendering of a tenths-scaled quantity, exactly as `spec_tenths` says.
pub fn tenths_to_string(t: u64) -> (s: String)
    ensures
        s@ == spec_tenths(t as nat),
{
    let mut s = u64_to_string(t / 10);
    if t % 10 != 0 {
        proof {
            reveal_strlit(".");
        }
        s.append(".");
        s.append(digit_str(t % 10));
        proof {
            assert(s@ =~= spec_tenths(t as nat));
        }
    }
    s
}

} // verus!
