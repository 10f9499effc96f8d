//! Small verified text helpers: string equality by value, decimal rendering
//! of counters, and joining message lines.

use vstd::prelude::*;

verus! {

/// String equality on slices, by value.
pub fn str_eq(a: &str, b: &str) -> (r: bool)
    ensures
        r == (a@ == b@),
{
    let x: String = a.to_owned();
    let y: String = b.to_owned();
    x == y
}

/// The decimal digit character for a value below ten.
pub open spec fn spec_digit_char(d: int) -> char {
    if d == 0 {
        '0'
    } else if d == 1 {
        '1'
    } else if d == 2 {
        '2'
    } else if d == 3 {
        '3'
    } else if d == 4 {
        '4'
    } else if d == 5 {
        '5'
    } else if d == 6 {
        '6'
    } else if d == 7 {
        '7'
    } else if d == 8 {
        '8'
    } else {
        '9'
    }
}

/// The decimal rendering of a number, most significant digit first.
pub open spec fn spec_decimal(n: int) -> Seq<char>
    decreases n,
{
    if n < 10 {
        seq![spec_digit_char(n)]
    } else {
        spec_decimal(n / 10).push(spec_digit_char(n % 10))
    }
}

fn digit_str(d: usize) -> (r: &'static str)
    requires
        d < 10,
    ensures
        r@ =~= seq![spec_digit_char(d as int)],
{
    proof {
        reveal_strlit("0");
        reveal_strlit("1");
        reveal_strlit("2");
        reveal_strlit("3");
        reveal_strlit("4");
        reveal_strlit("5");
        reveal_strlit("6");
        reveal_strlit("7");
        reveal_strlit("8");
        reveal_strlit("9");
    }
    if d == 0 {
        "0"
    } else if d == 1 {
        "1"
    } else if d == 2 {
        "2"
    } else if d == 3 {
        "3"
    } else if d == 4 {
        "4"
    } else if d == 5 {
        "5"
    } else if d == 6 {
        "6"
    } else if d == 7 {
        "7"
    } else if d == 8 {
        "8"
    } else {
        "9"
    }
}

fn u64_digits(n: u64) -> (r: String)
    ensures
        r@ =~= spec_decimal(n as int),
    decreases n,
{
    if n < 10 {
        String::from_str(digit_str(n as usize))
    } else {
        let mut r = u64_digits(n / 10);
        r.append(digit_str((n % 10) as usize));
        proof {
            assert(r@ =~= spec_decimal((n / 10) as int).push(spec_digit_char((n % 10) as int)));
        }
        r
    }
}

/// Renders a count in decimal.
pub fn usize_to_string(n: usize) -> (r: String)
    ensures
        r@ =~= spec_decimal(n as int),
{
    u64_digits(n as u64)
}

/// Renders an unsigned value in decimal.
pub fn u64_to_string(n: u64) -> (r: String)
    ensures
        r@ =~= spec_decimal(n as int),
{
    u64_digits(n)
}

/// The decimal rendering of a signed number: a minus sign before the
/// magnitude when it is negative.
pub open spec fn spec_signed_decimal(n: int) -> Seq<char> {
    if n >= 0 {
        spec_decimal(n)
    } else {
        seq!['-'] + spec_decimal(-n)
    }
}

/// Renders a signed value in decimal.
pub fn i64_to_string(n: i64) -> (r: String)
    ensures
        r@ =~= spec_signed_decimal(n as int),
{
    if n >= 0 {
        u64_digits(n as u64)
    } else {
        let magnitude: u64 = ((-(n + 1)) as u64) + 1;
        let mut r = String::from_str("-");
        r.append(u64_digits(magnitude).as_str());
        proof {
            reveal_strlit("-");
            assert(magnitude as int == -(n as int));
            assert(r@ =~= seq!['-'] + spec_decimal(-(n as int)));
        }
        r
    }
}

/// The textual form of a recorded boolean.
pub open spec fn spec_bool_text(b: bool) -> Seq<char> {
    if b {
        "true"@
    } else {
        "false"@
    }
}

/// Renders a recorded boolean.
pub fn bool_to_string(b: bool) -> (r: String)
    ensures
        r@ == spec_bool_text(b),
{
    if b {
        String::from_str("true")
    } else {
        String::from_str("false")
    }
}

/// Message lines joined by a newline, in order.
pub open spec fn spec_joined_lines(lines: Seq<Seq<char>>) -> Seq<char>
    decreases lines.len(),
{
    if lines.len() == 0 {
        Seq::empty()
    } else if lines.len() == 1 {
        lines[0]
    } else {
        spec_joined_lines(lines.drop_last()) + "\n"@ + lines.last()
    }
}

/// Joins message lines with a newline between each pair.
pub fn join_lines(lines: &Vec<String>) -> (r: String)
    ensures
        r@ =~= spec_joined_lines(lines.deep_view()),
{
    let mut r = String::new();
    let mut i: usize = 0;
    while i < lines.len()
        invariant
            i <= lines.len(),
            lines.deep_view().len() == lines.len(),
            r@ =~= spec_joined_lines(lines.deep_view().take(i as int)),
        decreases lines.len() - i,
    {
        if i > 0 {
            r.append("\n");
        }
        r.append(lines[i].as_str());
        proof {
            let full = lines.deep_view();
            assert(full.take(i + 1 as int).drop_last() =~= full.take(i as int));
            assert(full.take(i + 1 as int).last() == full[i as int]);
        }
        i = i + 1;
    }
    proof {
        assert(lines.deep_view().take(lines.len() as int) =~= lines.deep_view());
    }
    r
}

} // verus!
