//! Decimal rendering of counters and parsing of the configured priority.

use vstd::prelude::*;

verus! {

/// The decimal digit character for `d`; meaningful for `d < 10`.
pub open spec fn dec_digit(d: nat) -> char {
    if d == 0 {
        '0'
    } else if d == 1 {
        '1'
    } else if d == 2 {
        '2'
    } else if d == 3 {
        '3'
    } else if d == 4 {
        '4'
    } else if d == 5 {
        '5'
    } else if d == 6 {
        '6'
    } else if d == 7 {
        '7'
    } else if d == 8 {
        '8'
    } else {
        '9'
    }
}

/// The decimal representation of `n`, most significant digit first,
/// with no leading zeros (and `"0"` for zero).
pub open spec fn dec_str(n: nat) -> Seq<char>
    decreases n,
{
    if n < 10 {
        seq![dec_digit(n)]
    } else {
        dec_str(n / 10).push(dec_digit(n % 10))
    }
}

fn digit_str(d: u64) -> (r: &'static str)
    requires
        d < 10,
    ensures
        r@ == seq![dec_digit(d as nat)],
{
    let r: &'static str = if d == 0 {
        "0"
    } else if d == 1 {
        "1"
    } else if d == 2 {
        "2"
    } else if d == 3 {
        "3"
    } else if d == 4 {
        "4"
    } else if d == 5 {
        "5"
    } else if d == 6 {
        "6"
    } else if d == 7 {
        "7"
    } else if d == 8 {
        "8"
    } else {
        "9"
    };
    proof {
        reveal_strlit("0");
        reveal_strlit("1");
        reveal_strlit("2");
        reveal_strlit("3");
        reveal_strlit("4");
        reveal_strlit("5");
        reveal_strlit("6");
        reveal_strlit("7");
        reveal_strlit("8");
        reveal_strlit("9");
        assert(r@ =~= seq![dec_digit(d as nat)]);
    }
    r
}

/// Renders `n` in decimal, exactly as `dec_str` describes it.
pub fn u64_to_string(n: u64) -> (r: String)
    ensures
        r@ == dec_str(n as nat),
    decreases n,
{
    if n < 10 {
        String::from_str(digit_str(n))
    } else {
        let mut s = u64_to_string(n / 10);
        s.append(digit_str(n % 10));
        proof {
            assert(s@ =~= dec_str(n as nat));
        }
        s
    }
}

/// Whether `c` is a decimal digit.
pub open spec fn is_dec_digit(c: char) -> bool {
    48 <= c as int <= 57
}

/// The numeric value of a digit character; meaningful when `is_dec_digit(c)`.
pub open spec fn digit_of(c: char) -> nat {
    (c as int - 48) as nat
}

/// Whether every character of `s` is a decimal digit.
pub open spec fn all_digits(s: Seq<char>) -> bool {
    forall|i: int| 0 <= i < s.len() ==> is_dec_digit(#[trigger] s[i])
}

/// The value of a digit string, most significant digit first.
pub open spec fn digits_val(s: Seq<char>) -> nat
    decreases s.len(),
{
    if s.len() == 0 {
        0
    } else {
        digits_val(s.drop_last()) * 10 + digit_of(s.last())
    }
}

/// The integer denoted by `s`: an optional sign followed by at least one
/// digit. Anything else denotes nothing.
pub open spec fn spec_parse_int(s: Seq<char>) -> Option<int> {
    if s.len() > 0 && all_digits(s) {
        Some(digits_val(s) as int)
    } else if s.len() > 1 && s[0] == '-' && all_digits(s.skip(1)) {
        Some(-(digits_val(s.skip(1)) as int))
    } else if s.len() > 1 && s[0] == '+' && all_digits(s.skip(1)) {
        Some(digits_val(s.skip(1)) as int)
    } else {
        None
    }
}

/// The priority denoted by the option string `s`: its integer value when it
/// has one and that value fits a 32-bit signed integer, and 10 otherwise.
pub open spec fn priority_value(s: Seq<char>) -> int {
    match spec_parse_int(s) {
        Some(v) => if -2147483648 <= v <= 2147483647 {
            v
        } else {
            10
        },
        None => 10,
    }
}

/// The priority chosen by a configuration: the value of the configured
/// string, or 10 when none is configured.
pub open spec fn configured_priority(p: Option<String>) -> int {
    match p {
        Some(s) => priority_value(s@),
        None => 10,
    }
}

/// Extending a digit string on the right never decreases its value.
proof fn lemma_digits_val_prefix(s: Seq<char>, k: int)
    requires
        0 <= k <= s.len(),
    ensures
        digits_val(s) >= digits_val(s.take(k)),
    decreases s.len(),
{
    if k < s.len() {
        lemma_digits_val_prefix(s.drop_last(), k);
        assert(s.drop_last().take(k) =~= s.take(k));
        assert(digits_val(s.drop_last()) * 10 >= digits_val(s.drop_last())) by (nonlinear_arith);
    } else {
        assert(s.take(k) =~= s);
    }
}

/// Parses the configured priority string: its integer value when it denotes
/// one that fits an `i32`, and 10 otherwise.
pub fn parse_priority(s: &str) -> (r: i32)
    ensures
        r as int == priority_value(s@),
{
    let n = s.unicode_len();
    if n == 0 {
        return 10;
    }
    let first = s.get_char(0);
    let neg = first == '-';
    let signed = neg || first == '+';
    let start: usize = if signed {
        1
    } else {
        0
    };
    if start == n {
        return 10;
    }
    let ghost digits: Seq<char> = s@.subrange(start as int, n as int);
    proof {
        if start == 1 {
            assert(digits =~= s@.skip(1));
        } else {
            assert(digits =~= s@);
        }
    }
    let mut mag: u64 = 0;
    let mut i: usize = start;
    while i < n
        invariant
            start <= i <= n,
            n == s@.len(),
            digits == s@.subrange(start as int, n as int),
            start == 0 || start == 1,
            start == 1 ==> s@[0] == '-' || s@[0] == '+',
            start == 0 ==> s@[0] != '-' && s@[0] != '+',
            all_digits(s@.subrange(start as int, i as int)),
            mag == digits_val(s@.subrange(start as int, i as int)),
            mag <= 2147483648,
        decreases n - i,
    {
        let c = s.get_char(i);
        let cv = c as u32;
        if cv < 48 || cv > 57 {
            proof {
                assert(digits[i - start] == s@[i as int]);
                assert(!all_digits(digits));
                if start == 1 {
                    assert(s@.skip(1) =~= digits);
                    assert(!is_dec_digit(s@[0]));
                    assert(!all_digits(s@));
                } else {
                    assert(digits =~= s@);
                }
                assert(spec_parse_int(s@) is None);
            }
            return 10;
        }
        let d = (cv - 48) as u64;
        let new_mag = mag * 10 + d;
        proof {
            let ghost pre = s@.subrange(start as int, i as int);
            let ghost ext = s@.subrange(start as int, i + 1);
            assert(ext.drop_last() =~= pre);
            assert(ext.last() == s@[i as int]);
            assert(all_digits(ext));
            assert(digits_val(ext) == new_mag);
        }
        if new_mag > 2147483648 {
            proof {
                if start == 1 {
                    assert(s@.skip(1) =~= digits);
                    assert(!is_dec_digit(s@[0]));
                    assert(!all_digits(s@));
                } else {
                    assert(digits =~= s@);
                }
                if all_digits(digits) {
                    lemma_digits_val_prefix(digits, i + 1 - start);
                    assert(digits.take(i + 1 - start) =~= s@.subrange(start as int, i + 1));
                    assert(digits_val(digits) > 2147483648);
                } else {
                    assert(spec_parse_int(s@) is None);
                }
            }
            return 10;
        }
        mag = new_mag;
        i = i + 1;
    }
    proof {
        assert(digits =~= s@.subrange(start as int, i as int));
    }
    if neg {
        if mag == 2147483648 {
            return -2147483647 - 1;
        }
        let v = mag as i32;
        -v
    } else {
        if mag == 2147483648 {
            return 10;
        }
        mag as i32
    }
}

} // verus!
