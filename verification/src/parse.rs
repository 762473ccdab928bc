use vstd::prelude::*;
use vstd::string::StrSliceExecFns;
use crate::numfmt::TENTHS_LIMIT;

verus! {

/// Largest magnitude accepted when parsing a signed whole number.
pub const SIGNED_LIMIT: u64 = 1000000000;

/// Whether `c` is a decimal digit.
pub open spec fn is_digit(c: char) -> bool {
    48 <= c as u32 <= 57
}

/// Numeric value of a digit character.
pub open spec fn digit_val(c: char) -> int {
    c as u32 - 48
}

/// Whether every character of `s` is a decimal digit.
pub open spec fn all_digits(s: Seq<char>) -> bool {
    forall|i: int| 0 <= i < s.len() ==> is_digit(#[trigger] s[i])
}

/// The number written by a digit string, most significant digit first.
pub open spec fn digits_val(s: Seq<char>) -> int
    decreases s.len(),
{
    if s.len() == 0 {
        0
    } else {
        10 * digits_val(s.drop_last()) + digit_val(s.last())
    }
}

pub proof fn lemma_digits_val_nonneg(s: Seq<char>)
    requires
        all_digits(s),
    ensures
        digits_val(s) >= 0,
    decreases s.len(),
{
    if s.len() > 0 {
        assert(all_digits(s.drop_last())) by {
            assert(forall|i: int| 0 <= i < s.len() - 1 ==> s.drop_last()[i] == s[i]);
        }
        lemma_digits_val_nonneg(s.drop_last());
    }
}

/// A digit string is worth at least any of its prefixes: appending digits
/// never shrinks the value.
pub proof fn lemma_digits_val_prefix(s: Seq<char>, i: int)
    requires
        all_digits(s),
        0 <= i <= s.len(),
    ensures
        digits_val(s.take(i)) <= digits_val(s),
    decreases s.len() - i,
{
    if i < s.len() {
        lemma_digits_val_prefix(s, i + 1);
        let t = s.take(i + 1);
        assert(t.drop_last() =~= s.take(i));
        assert(all_digits(s.take(i))) by {
            assert(forall|j: int| 0 <= j < i ==> s.take(i)[j] == s[j]);
        }
        lemma_digits_val_nonneg(s.take(i));
        assert(digits_val(t) == 10 * digits_val(s.take(i)) + digit_val(s[i]));
    } else {
        assert(s.take(i) =~= s);
    }
}

/// Parse the characters of `s` in positions `from .. to` as an unlimited
/// digit string; `None` when that range is empty, holds a non-digit, or is
/// worth more than `cap`.
fn parse_digits(s: &str, from: usize, to: usize, cap: u64) -> (r: Option<u64>)
    requires
        from <= to <= s@.len(),
        cap <= 1000000000000,
    ensures
        ({
            let sub = s@.subrange(from as int, to as int);
            match r {
                Some(v) => sub.len() >= 1 && all_digits(sub) && v == digits_val(sub) && v <= cap,
                None => !(sub.len() >= 1 && all_digits(sub) && digits_val(sub) <= cap),
            }
        }),
{
    let ghost sub = s@.subrange(from as int, to as int);
    if from == to {
        return None;
    }
    let mut acc: u64 = 0;
    let mut i: usize = from;
    while i < to
        invariant
            from <= i <= to <= s@.len(),
            sub == s@.subrange(from as int, to as int),
            all_digits(sub.take(i - from)),
            acc == digits_val(sub.take(i - from)),
            acc <= cap,
            cap <= 1000000000000,
        decreases to - i,
    {
        let c = s.get_char(i);
        let u: u32 = c as u32;
        proof {
            assert(sub[i - from] == s@[i as int]);
        }
        if u < 48 || u > 57 {
            proof {
                assert(!is_digit(sub[i - from]));
            }
            return None;
        }
        let d: u64 = (u - 48) as u64;
        proof {
            let t = sub.take(i - from + 1);
            assert(t.drop_last() =~= sub.take(i - from));
            assert(t.last() == sub[i - from]);
        }
        let next: u64 = acc * 10 + d;
        if next > cap {
            proof {
                assert(all_digits(sub.take(i - from + 1))) by {
                    assert(forall|j: int| 0 <= j < i - from + 1
                        ==> sub.take(i - from + 1)[j] == sub[j]);
                }
                if all_digits(sub) {
                    lemma_digits_val_prefix(sub, i - from + 1);
                }
            }
            return None;
        }
        acc = next;
        i = i + 1;
        proof {
            assert(all_digits(sub.take(i - from))) by {
                assert(forall|j: int| 0 <= j < i - from ==> sub.take(i - from)[j] == sub[j]);
            }
        }
    }
    proof {
        assert(sub.take(to - from) =~= sub);
    }
    Some(acc)
}

/// Whether `s` is a signed whole number: an optional '-' or '+', then at
/// least one digit.
pub open spec fn is_int_string(s: Seq<char>) -> bool {
    if s.len() >= 1 && (s[0] == '-' || s[0] == '+') {
        s.len() >= 2 && all_digits(s.skip(1))
    } else {
        s.len() >= 1 && all_digits(s)
    }
}

/// The value a signed whole number string denotes.
pub open spec fn int_string_val(s: Seq<char>) -> int {
    if s.len() >= 1 && s[0] == '-' {
        -digits_val(s.skip(1))
    } else if s.len() >= 1 && s[0] == '+' {
        digits_val(s.skip(1))
    } else {
        digits_val(s)
    }
}

/// Parse a signed whole number; `None` exactly when `s` is not a signed
/// whole number or its magnitude is above `SIGNED_LIMIT`.
pub fn parse_signed(s: &str) -> (r: Option<i64>)
    ensures
        match r {
            Some(v) => is_int_string(s@) && v == int_string_val(s@)
                && -(SIGNED_LIMIT as int) <= v <= SIGNED_LIMIT as int,
            None => !(is_int_string(s@)
                && -(SIGNED_LIMIT as int) <= int_string_val(s@) <= SIGNED_LIMIT as int),
        },
{
    let len = s.unicode_len();
    if len == 0 {
        return None;
    }
    let first = s.get_char(0);
    if first == '-' || first == '+' {
        proof {
            assert(s@.skip(1) =~= s@.subrange(1, s@.len() as int));
        }
        match parse_digits(s, 1, len, SIGNED_LIMIT) {
            Some(v) => {
                if first == '-' {
                    Some(-(v as i64))
                } else {
                    Some(v as i64)
                }
            },
            None => None,
        }
    } else {
        proof {
            assert(s@.subrange(0, s@.len() as int) =~= s@);
        }
        match parse_digits(s, 0, len, SIGNED_LIMIT) {
            Some(v) => Some(v as i64),
            None => None,
        }
    }
}

/// Whether `s` is a plain digit string.
pub open spec fn is_whole_number(s: Seq<char>) -> bool {
    s.len() >= 1 && all_digits(s)
}

/// Whether `s` is a digit string, a dot, and one final digit.
pub open spec fn is_tenths_number(s: Seq<char>) -> bool {
    s.len() >= 3 && s[s.len() - 2] == '.' && all_digits(s.take(s.len() - 2))
        && is_digit(s[s.len() - 1])
}

/// The value of a quantity string, in tenths.
pub open spec fn tenths_val(s: Seq<char>) -> int {
    if is_whole_number(s) {
        10 * digits_val(s)
    } else {
        10 * digits_val(s.take(s.len() - 2)) + digit_val(s[s.len() - 1])
    }
}

/// Parse a non-negative quantity — either a whole number or one with a
/// single digit after a dot — into tenths; `None` exactly when `s` has
/// neither form or its value is above `TENTHS_LIMIT`.
pub fn parse_tenths(s: &str) -> (r: Option<u64>)
    ensures
        match r {
            Some(v) => (is_whole_number(s@) || is_tenths_number(s@))
                && v == tenths_val(s@) && v <= TENTHS_LIMIT,
            None => !((is_whole_number(s@) || is_tenths_number(s@))
                && tenths_val(s@) <= TENTHS_LIMIT),
        },
{
    let len = s.unicode_len();
    if len >= 2 && s.get_char(len - 2) == '.' {
        proof {
            assert(s@.take(s@.len() - 2) =~= s@.subrange(0, s@.len() - 2));
            assert(!is_whole_number(s@));
        }
        let last = s.get_char(len - 1);
        let u: u32 = last as u32;
        if u < 48 || u > 57 {
            return None;
        }
        let d: u64 = (u - 48) as u64;
        match parse_digits(s, 0, len - 2, TENTHS_LIMIT) {
            Some(v) => {
                let t: u64 = 10 * v + d;
                if t > TENTHS_LIMIT {
                    None
                } else {
                    Some(t)
                }
            },
            None => {
                proof {
                    if is_tenths_number(s@) && tenths_val(s@) <= TENTHS_LIMIT {
                        lemma_digits_val_nonneg(s@.take(s@.len() - 2));
                    }
                }
                None
            },
        }
    } else {
        proof {
            assert(s@.subrange(0, s@.len() as int) =~= s@);
            assert(!is_tenths_number(s@));
        }
        match parse_digits(s, 0, len, TENTHS_LIMIT / 10) {
            Some(v) => Some(10 * v),
            None => None,
        }
    }
}

} // verus!
