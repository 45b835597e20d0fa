//! Settings and texts of the command executor: the timeout setting, the
//! decimal numbers it is read from, and how a command line is shown.

use vstd::prelude::*;

use crate::systemd::views;

verus! {

/// Seconds a command may run when no valid setting is given.
pub const DEFAULT_CMD_TIMEOUT_SECS: u64 = 5;

/// `c` is an ASCII decimal digit.
pub open spec fn is_digit(c: char) -> bool {
    '0' <= c && c <= '9'
}

/// The value of a run of decimal digits.
pub open spec fn digits_value(s: Seq<char>) -> nat
    decreases s.len(),
{
    if s.len() == 0 {
        0
    } else {
        digits_value(s.drop_last()) * 10 + ((s.last() as u32) - ('0' as u32)) as nat
    }
}

/// `s` without a leading `+`.
pub open spec fn unsigned_part(s: Seq<char>) -> Seq<char> {
    if s.len() > 0 && s[0] == '+' {
        s.drop_first()
    } else {
        s
    }
}

/// Every character of `d` is a digit.
pub open spec fn all_digits(d: Seq<char>) -> bool {
    forall|i: int| 0 <= i < d.len() ==> is_digit(#[trigger] d[i])
}

/// The `u64` a text spells in decimal, as `str::parse::<u64>` reads it: an
/// optional `+`, then one or more digits, with a value that fits.
pub open spec fn decimal_u64(s: Seq<char>) -> Option<u64> {
    let d = unsigned_part(s);
    if d.len() > 0 && all_digits(d) && digits_value(d) <= u64::MAX {
        Some(digits_value(d) as u64)
    } else {
        None
    }
}

proof fn lemma_digits_value_grows(s: Seq<char>, k: int)
    requires
        0 <= k <= s.len(),
        forall|i: int| 0 <= i < s.len() ==> is_digit(#[trigger] s[i]),
    ensures
        digits_value(s.take(k)) <= digits_value(s),
    decreases s.len() - k,
{
    if k < s.len() {
        lemma_digits_value_grows(s, k + 1);
        assert(s.take(k + 1).drop_last() =~= s.take(k));
        assert(is_digit(s[k]));
    } else {
        assert(s.take(k) =~= s);
    }
}

/// Read a decimal `u64` (see [`decimal_u64`]).
pub fn parse_u64(s: &str) -> (r: Option<u64>)
    ensures
        r == decimal_u64(s@),
{
    let n = s.unicode_len();
    let mut i: usize = 0;
    if n > 0 && s.get_char(0) == '+' {
        i = 1;
    }
    let start = i;
    let ghost d = unsigned_part(s@);
    assert(d =~= s@.skip(start as int));
    if i == n {
        return None;
    }
    let mut value: u64 = 0;
    while i < n
        invariant
            n == s@.len(),
            start <= i <= n,
            start < n,
            d == s@.skip(start as int),
            d == unsigned_part(s@),
            forall|j: int| 0 <= j < i - start ==> is_digit(#[trigger] d[j]),
            value as nat == digits_value(d.take(i - start)),
        decreases n - i,
    {
        let c = s.get_char(i);
        assert(d[i - start] == c);
        if !('0' <= c && c <= '9') {
            assert(!is_digit(d[i - start]));
            assert(!all_digits(d));
            return None;
        }
        let digit = (c as u32 - '0' as u32) as u64;
        assert(d.take(i - start + 1).drop_last() =~= d.take(i - start));
        assert(d.take(i - start + 1).last() == c);
        assert(digits_value(d.take(i - start + 1)) == value as nat * 10 + digit as nat);
        match value.checked_mul(10) {
            Some(v) => match v.checked_add(digit) {
                Some(w) => {
                    value = w;
                },
                None => {
                    proof {
                        if all_digits(d) {
                            lemma_digits_value_grows(d, i - start + 1);
                        }
                    }
                    return None;
                },
            },
            None => {
                proof {
                    if all_digits(d) {
                        lemma_digits_value_grows(d, i - start + 1);
                    }
                }
                return None;
            },
        }
        i += 1;
    }
    assert(d.take(n - start) =~= d);
    Some(value)
}

/// Timeout in seconds for a setting: a positive decimal value counts;
/// anything else, zero, or no setting at all gives the default.
pub fn timeout_secs_from_setting(setting: Option<&str>) -> (r: u64)
    ensures
        r == match setting {
            Some(t) => match decimal_u64(t@) {
                Some(v) if v > 0 => v,
                _ => DEFAULT_CMD_TIMEOUT_SECS,
            },
            None => DEFAULT_CMD_TIMEOUT_SECS,
        },
{
    match setting {
        Some(t) => match parse_u64(t) {
            Some(v) => if v > 0 {
                v
            } else {
                DEFAULT_CMD_TIMEOUT_SECS
            },
            None => DEFAULT_CMD_TIMEOUT_SECS,
        },
        None => DEFAULT_CMD_TIMEOUT_SECS,
    }
}

/// The words of a command line joined by single spaces.
pub open spec fn spaced(words: Seq<Seq<char>>) -> Seq<char>
    decreases words.len(),
{
    if words.len() == 0 {
        Seq::empty()
    } else if words.len() == 1 {
        words[0]
    } else {
        spaced(words.drop_last()) + " "@ + words.last()
    }
}

/// A command line as shown in errors: the program, then its arguments,
/// separated by spaces.
pub fn render_command(program: &str, args: &Vec<String>) -> (r: String)
    ensures
        r@ == spaced(seq![program@] + views(args@)),
{
    let mut s = String::from_str(program);
    let ghost words = seq![program@] + views(args@);
    let mut i: usize = 0;
    assert(words.take(1) =~= seq![program@]);
    while i < args.len()
        invariant
            i <= args@.len(),
            words == seq![program@] + views(args@),
            s@ == spaced(words.take(i + 1)),
        decreases args@.len() - i,
    {
        s.append(" ");
        s.append(args[i].as_str());
        assert(words.take(i + 2).drop_last() =~= words.take(i + 1));
        assert(words.take(i + 2).last() == args@[i as int]@);
        i += 1;
    }
    assert(words.take(args@.len() as int + 1) =~= words);
    s
}

} // verus!
