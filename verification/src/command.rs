//! Startup command: the sampling interval, parsed from its flag value
//! before any background work starts.

use vstd::prelude::*;

verus! {

/// A malformed interval flag value: the startup-time parse failure.
#[derive(Clone, Copy, PartialEq, Eq, Structural, Debug)]
pub struct IntervalError;

/// The command surface: one flag controlling the sampling interval, in
/// integer milliseconds.
#[derive(Clone, Copy, PartialEq, Eq, Structural, Debug)]
pub struct Command {
    pub interval: u64,
}

impl Default for Command {
    /// The interval flag defaults to 1000 milliseconds.
    fn default() -> (r: Command)
        ensures
            r.interval == 1000,
    {
        Command { interval: 1000 }
    }
}

/// Decimal digit.
pub open spec fn is_digit(c: char) -> bool {
    48 <= c as int <= 57
}

/// The numeric value of a decimal digit.
pub open spec fn digit_val(c: char) -> int {
    c as int - 48
}

/// The numeric value of a digit sequence, most significant first.
pub open spec fn digits_val(s: Seq<char>) -> int
    decreases s.len(),
{
    if s.len() == 0 {
        0
    } else {
        digits_val(s.drop_last()) * 10 + digit_val(s.last())
    }
}

/// Every character is a decimal digit.
pub open spec fn all_digits(s: Seq<char>) -> bool {
    forall|i: int| 0 <= i < s.len() ==> is_digit(#[trigger] s[i])
}

/// The digits of an interval flag value: everything after one optional
/// leading plus sign.
pub open spec fn interval_body(s: Seq<char>) -> Seq<char> {
    if s.len() > 0 && s[0] == '+' {
        s.skip(1)
    } else {
        s
    }
}

/// A well-formed interval flag value: an optional plus sign, then at
/// least one decimal digit, denoting a number of milliseconds that fits
/// in 64 bits.
pub open spec fn valid_interval(s: Seq<char>) -> bool {
    &&& interval_body(s).len() > 0
    &&& all_digits(interval_body(s))
    &&& digits_val(interval_body(s)) <= u64::MAX
}

/// The value of a digit sequence is never negative.
proof fn lemma_digits_val_nonneg(s: Seq<char>)
    requires
        all_digits(s),
    ensures
        digits_val(s) >= 0,
    decreases s.len(),
{
    if s.len() > 0 {
        assert(all_digits(s.drop_last()));
        lemma_digits_val_nonneg(s.drop_last());
    }
}

/// Appending digits never decreases the value of a digit sequence.
proof fn lemma_digits_val_prefix(s: Seq<char>, k: int)
    requires
        0 <= k <= s.len(),
        all_digits(s),
    ensures
        digits_val(s.take(k)) <= digits_val(s),
    decreases s.len() - k,
{
    assert(all_digits(s.take(k)));
    if k == s.len() {
        assert(s.take(k) =~= s);
    } else {
        assert(s.take(k + 1).drop_last() =~= s.take(k));
        lemma_digits_val_nonneg(s.take(k));
        lemma_digits_val_prefix(s, k + 1);
    }
}

/// Parse an interval flag value into milliseconds: succeeds exactly on
/// well-formed values, with the denoted number.
pub fn parse_duration(arg: &str) -> (r: Result<u64, IntervalError>)
    ensures
        valid_interval(arg@) ==> r == Ok::<u64, IntervalError>(
            digits_val(interval_body(arg@)) as u64,
        ),
        !valid_interval(arg@) ==> r == Err::<u64, IntervalError>(IntervalError),
{
    let len = arg.unicode_len();
    if len == 0 {
        return Err(IntervalError);
    }
    let start: usize = if arg.get_char(0) == '+' {
        1
    } else {
        0
    };
    if start == len {
        return Err(IntervalError);
    }
    let ghost body = interval_body(arg@);
    proof {
        assert(body =~= arg@.skip(start as int));
    }
    let mut n: u64 = 0;
    let mut i: usize = start;
    while i < len
        invariant
            start <= i <= len,
            start < len,
            len == arg@.len(),
            body == interval_body(arg@),
            body =~= arg@.skip(start as int),
            all_digits(body.take(i - start)),
            n == digits_val(body.take(i - start)),
        decreases len - i,
    {
        let c = arg.get_char(i);
        let cv: u32 = c as u32;
        if cv < 48 || cv > 57 {
            proof {
                assert(body[i - start] == arg@[i as int]);
                assert(!is_digit(body[i - start]));
            }
            return Err(IntervalError);
        }
        let d: u64 = (cv - 48) as u64;
        proof {
            assert(body.take(i - start + 1).drop_last() =~= body.take(i - start));
            assert(body.take(i - start + 1).last() == arg@[i as int]);
        }
        match n.checked_mul(10) {
            Some(m) => {
                match m.checked_add(d) {
                    Some(sum) => {
                        n = sum;
                    },
                    None => {
                        proof {
                            lemma_value_too_large(body, i - start + 1);
                        }
                        return Err(IntervalError);
                    },
                }
            },
            None => {
                proof {
                    lemma_value_too_large(body, i - start + 1);
                }
                return Err(IntervalError);
            },
        }
        i += 1;
    }
    proof {
        assert(body.take(len - start) =~= body);
    }
    Ok(n)
}

/// A digit prefix whose value already exceeds the 64-bit range makes the
/// whole flag value malformed: either a later character is no digit, or
/// the full value is at least as large as the prefix value.
proof fn lemma_value_too_large(body: Seq<char>, k: int)
    requires
        0 <= k <= body.len(),
        all_digits(body.take(k)),
        digits_val(body.take(k)) > u64::MAX,
    ensures
        !(all_digits(body) && digits_val(body) <= u64::MAX),
{
    if all_digits(body) {
        lemma_digits_val_prefix(body, k);
    }
}

} // verus!
