//! Weekly activity records as the external source reports them, and the
//! best-effort numeric reading of their counter strings.
//!
//! A counter is a string of decimal digits; anything else (empty, signs,
//! fractions, stray characters, or a value beyond `u64::MAX`) falls back to
//! zero rather than failing, so one malformed counter never aborts a whole
//! visualization.

use vstd::prelude::*;

verus! {

/// One externally reported week of usage counters. The counters are kept as
/// strings, exactly as the source supplies them; reading them as numbers is
/// deferred to the visualization step.
#[derive(Debug, Clone, PartialEq)]
pub struct Week {
    pub week: String,
    pub statuses: String,
    pub logins: String,
    pub registrations: String,
}

impl Default for Week {
    /// An empty record: every field is the empty string.
    fn default() -> (r: Week)
        ensures
            r.week@ == Seq::<char>::empty(),
            r.statuses@ == Seq::<char>::empty(),
            r.logins@ == Seq::<char>::empty(),
            r.registrations@ == Seq::<char>::empty(),
    {
        Week {
            week: String::new(),
            statuses: String::new(),
            logins: String::new(),
            registrations: String::new(),
        }
    }
}

/// An ordered activity history, most significant order preserved as the
/// source supplied it.
pub type Activity = Vec<Week>;

/// A decimal digit.
pub open spec fn is_digit_char(c: char) -> bool {
    '0' <= c && c <= '9'
}

/// The numeric value of a decimal digit.
pub open spec fn digit_val(c: char) -> nat {
    (c as int - '0' as int) as nat
}

/// Every character of `s` is a decimal digit.
pub open spec fn is_digits(s: Seq<char>) -> bool {
    forall|k: int| 0 <= k < s.len() ==> is_digit_char(#[trigger] s[k])
}

/// The value of `s` read as a decimal numeral.
pub open spec fn digits_val(s: Seq<char>) -> nat
    decreases s.len(),
{
    if s.len() == 0 {
        0
    } else {
        digits_val(s.drop_last()) * 10 + digit_val(s.last())
    }
}

/// The value of a counter string: its decimal value when it is a non-empty
/// digit string whose value fits a `u64`, and zero otherwise.
pub open spec fn counter_val(s: Seq<char>) -> nat {
    if s.len() > 0 && is_digits(s) && digits_val(s) <= u64::MAX {
        digits_val(s)
    } else {
        0
    }
}

/// A prefix of a digit string never exceeds the whole string's value.
proof fn lemma_digits_val_prefix_le(s: Seq<char>, i: int)
    requires
        0 <= i <= s.len(),
    ensures
        digits_val(s.subrange(0, i)) <= digits_val(s),
    decreases s.len(),
{
    if i == s.len() {
        assert(s.subrange(0, i) =~= s);
    } else {
        assert(s.len() > 0);
        lemma_digits_val_prefix_le(s.drop_last(), i);
        assert(s.subrange(0, i) =~= s.drop_last().subrange(0, i));
        assert(digits_val(s) == digits_val(s.drop_last()) * 10 + digit_val(s.last()));
        assert(digits_val(s.drop_last()) * 10 >= digits_val(s.drop_last()));
    }
}

/// An unparsable counter counts exactly as the counter string "0" does:
/// the zero fallback can never be told apart from a real zero.
pub proof fn lemma_unparsable_counter_is_zero(s: Seq<char>)
    requires
        !(s.len() > 0 && is_digits(s) && digits_val(s) <= u64::MAX),
    ensures
        counter_val(s) == 0,
        counter_val(s) == counter_val("0"@),
{
    reveal_strlit("0");
    assert("0"@.len() == 1);
    assert("0"@[0] == '0');
    assert("0"@.drop_last() =~= Seq::<char>::empty());
    assert(digits_val(Seq::<char>::empty()) == 0);
    assert(digits_val("0"@) == 0);
}

/// Read a counter string. Unparsable or oversized values yield zero; the
/// caller never sees a failure.
pub fn parse_counter(s: &str) -> (r: u64)
    ensures
        r as nat == counter_val(s@),
{
    match parse_digits(s) {
        Option::Some(v) => v,
        Option::None => 0,
    }
}

/// Read a string of decimal digits exactly: the value when `s` is a
/// non-empty digit string whose value fits a `u64`, and nothing otherwise.
pub fn parse_digits(s: &str) -> (r: Option<u64>)
    ensures
        (r is Some) <==> (s@.len() > 0 && is_digits(s@) && digits_val(s@) <= u64::MAX),
        r is Some ==> r->0 as nat == digits_val(s@),
{
    let n = s.unicode_len();
    if n == 0 {
        return Option::None;
    }
    let mut acc: u64 = 0;
    let mut i: usize = 0;
    while i < n
        invariant
            0 < n,
            n == s@.len(),
            0 <= i <= n,
            is_digits(s@.subrange(0, i as int)),
            acc as nat == digits_val(s@.subrange(0, i as int)),
        decreases n - i,
    {
        let c = s.get_char(i);
        if c < '0' || c > '9' {
            proof {
                assert(s@[i as int] == c);
                assert(!is_digit_char(c));
                assert(!is_digits(s@));
            }
            return Option::None;
        }
        let d: u64 = (c as u32 - 48) as u64;
        proof {
            assert('0' <= c && c <= '9');
            assert(c as u32 >= 48 && c as u32 <= 57);
            assert(d as nat == digit_val(c));
        }
        if acc > (u64::MAX - d) / 10 {
            proof {
                let prefix = s@.subrange(0, i as int + 1);
                assert(prefix.drop_last() =~= s@.subrange(0, i as int));
                assert(prefix.last() == c);
                assert(digits_val(prefix) == acc as nat * 10 + d as nat);
                assert(acc as int * 10 + d as int > u64::MAX as int) by (nonlinear_arith)
                    requires
                        acc as int > (u64::MAX as int - d as int) / 10,
                        0 <= d as int <= 9,
                        acc as int >= 0,
                ;
                if is_digits(s@) {
                    lemma_digits_val_prefix_le(s@, i as int + 1);
                    assert(digits_val(s@) > u64::MAX);
                }
            }
            return Option::None;
        }
        proof {
            assert(acc as int * 10 + d as int <= u64::MAX as int) by (nonlinear_arith)
                requires
                    acc as int <= (u64::MAX as int - d as int) / 10,
                    0 <= d as int <= 9,
                    acc as int >= 0,
            ;
            let prefix = s@.subrange(0, i as int + 1);
            assert(prefix.drop_last() =~= s@.subrange(0, i as int));
            assert(prefix.last() == c);
        }
        acc = acc * 10 + d;
        i = i + 1;
    }
    proof {
        assert(s@.subrange(0, n as int) =~= s@);
    }
    Option::Some(acc)
}

} // verus!
