use vstd::prelude::*;

use vstd::string::StringExecFns;

verus! {

/// The decimal digit character for `d`.
pub open spec fn decimal_digit(d: int) -> char
    recommends
        0 <= d < 10,
{
    if d == 0 {
        '0'
    } else if d == 1 {
        '1'
    } else if d == 2 {
        '2'
    } else if d == 3 {
        '3'
    } else if d == 4 {
        '4'
    } else if d == 5 {
        '5'
    } else if d == 6 {
        '6'
    } else if d == 7 {
        '7'
    } else if d == 8 {
        '8'
    } else {
        '9'
    }
}

/// The decimal rendering of `n`, most significant digit first, without
/// leading zeroes (a single `'0'` for zero).
pub open spec fn decimal_spec(n: nat) -> Seq<char>
    decreases n,
{
    if n < 10 {
        seq![decimal_digit(n as int)]
    } else {
        decimal_spec(n / 10).push(decimal_digit((n % 10) as int))
    }
}

/// The one log line an invocation emits on success.
pub open spec fn report_line_spec(max_value: u64, value: u64) -> Seq<char> {
    "Current VRF Value [0 - "@ + decimal_spec(max_value as nat) + ") = "@
        + decimal_spec(value as nat) + "!"@
}

/// The one-character string for the decimal digit `d`.
fn digit_str(d: u64) -> (s: &'static str)
    requires
        d < 10,
    ensures
        s@ == seq![decimal_digit(d as int)],
{
    let s: &'static str = if d == 0 {
        "0"
    } else if d == 1 {
        "1"
    } else if d == 2 {
        "2"
    } else if d == 3 {
        "3"
    } else if d == 4 {
        "4"
    } else if d == 5 {
        "5"
    } else if d == 6 {
        "6"
    } else if d == 7 {
        "7"
    } else if d == 8 {
        "8"
    } else {
        "9"
    };
    proof {
        reveal_strlit("0");
        reveal_strlit("1");
        reveal_strlit("2");
        reveal_strlit("3");
        reveal_strlit("4");
        reveal_strlit("5");
        reveal_strlit("6");
        reveal_strlit("7");
        reveal_strlit("8");
        reveal_strlit("9");
        assert(s@ =~= seq![decimal_digit(d as int)]);
    }
    s
}

/// Append the decimal rendering of `n` to `out`.
fn push_decimal(out: &mut String, n: u64)
    ensures
        final(out)@ == old(out)@ + decimal_spec(n as nat),
    decreases n,
{
    if n >= 10 {
        push_decimal(out, n / 10);
        out.append(digit_str(n % 10));
        proof {
            assert((n / 10) as nat == (n as nat) / 10);
            assert((n % 10) as int == (n as nat) % 10);
            assert(old(out)@ + decimal_spec((n / 10) as nat)
                + seq![decimal_digit((n % 10) as int)] =~= old(out)@ + decimal_spec(n as nat));
        }
    } else {
        out.append(digit_str(n));
        proof {
            assert(old(out)@ + seq![decimal_digit(n as int)] =~= old(out)@ + decimal_spec(n as nat));
        }
    }
}

/// The result reporter: format the derived bounded value and its exclusive
/// bound as the invocation's one observable log line.
pub fn report(max_value: u64, value: u64) -> (s: String)
    ensures
        s@ == report_line_spec(max_value, value),
{
    let mut s = String::from_str("Current VRF Value [0 - ");
    push_decimal(&mut s, max_value);
    s.append(") = ");
    push_decimal(&mut s, value);
    s.append("!");
    proof {
        assert(s@ =~= report_line_spec(max_value, value));
    }
    s
}

} // verus!
