//! Two kinds of job: one that greets, one that adds.

use crate::job::JobInterface;
use vstd::prelude::*;
use vstd::string::StringExecFns;

verus! {

/// The line a greeting of `name` reports.
pub open spec fn greeting(name: Seq<char>) -> Seq<char> {
    "Hello, "@ + name + "!"@
}

/// The character of a decimal digit.
pub open spec fn digit(d: int) -> char {
    if d == 0 {
        '0'
    } else if d == 1 {
        '1'
    } else if d == 2 {
        '2'
    } else if d == 3 {
        '3'
    } else if d == 4 {
        '4'
    } else if d == 5 {
        '5'
    } else if d == 6 {
        '6'
    } else if d == 7 {
        '7'
    } else if d == 8 {
        '8'
    } else {
        '9'
    }
}

/// The decimal digits of a natural number, most significant first, with
/// no leading zero.
pub open spec fn digits(n: nat) -> Seq<char>
    decreases n,
{
    if n < 10 {
        seq![digit(n as int)]
    } else {
        digits(n / 10).push(digit((n % 10) as int))
    }
}

/// The decimal text of an integer: its digits, after a minus sign where
/// it is negative.
pub open spec fn decimal(n: int) -> Seq<char> {
    if n < 0 {
        seq!['-'] + digits((-n) as nat)
    } else {
        digits(n as nat)
    }
}

/// The line a sum of `a` and `b` reports: the two terms and their total.
pub open spec fn sum_line(a: int, b: int) -> Seq<char> {
    decimal(a) + " + "@ + decimal(b) + " = "@ + decimal(a + b)
}

/// Builds the line of a greeting.
pub fn greeting_line(name: &str) -> (line: String)
    ensures
        line@ == greeting(name@),
{
    String::from_str("Hello, ").concat(name).concat("!")
}

/// The text of one decimal digit.
fn digit_text(d: u64) -> (text: &'static str)
    requires
        d < 10,
    ensures
        text@ == seq![digit(d as int)],
{
    proof {
        reveal_strlit("0");
        reveal_strlit("1");
        reveal_strlit("2");
        reveal_strlit("3");
        reveal_strlit("4");
        reveal_strlit("5");
        reveal_strlit("6");
        reveal_strlit("7");
        reveal_strlit("8");
        reveal_strlit("9");
    }
    let text = if d == 0 {
        "0"
    } else if d == 1 {
        "1"
    } else if d == 2 {
        "2"
    } else if d == 3 {
        "3"
    } else if d == 4 {
        "4"
    } else if d == 5 {
        "5"
    } else if d == 6 {
        "6"
    } else if d == 7 {
        "7"
    } else if d == 8 {
        "8"
    } else {
        "9"
    };
    assert(text@ =~= seq![digit(d as int)]);
    text
}

/// Writes the digits of `n` at the end of `out`.
fn push_digits(out: &mut String, n: u64)
    ensures
        final(out)@ == old(out)@ + digits(n as nat),
    decreases n,
{
    if n >= 10 {
        push_digits(out, n / 10);
    }
    out.append(digit_text(n % 10));
    assert(out@ =~= old(out)@ + digits(n as nat));
}

/// Writes the decimal text of `n` at the end of `out`.
pub fn push_decimal(out: &mut String, n: i64)
    ensures
        final(out)@ == old(out)@ + decimal(n as int),
{
    if n < 0 {
        proof {
            reveal_strlit("-");
        }
        out.append("-");
        let magnitude: u64 = (-(n + 1)) as u64 + 1;
        push_digits(out, magnitude);
        assert(out@ =~= old(out)@ + decimal(n as int));
    } else {
        push_digits(out, n as u64);
    }
}

/// Builds the line of a sum. The total is the mathematical one: it does
/// not wrap where the terms' own type would overflow.
pub fn sum_report(a: i32, b: i32) -> (line: String)
    ensures
        line@ == sum_line(a as int, b as int),
{
    let mut line = String::new();
    push_decimal(&mut line, a as i64);
    line.append(" + ");
    push_decimal(&mut line, b as i64);
    line.append(" = ");
    push_decimal(&mut line, a as i64 + b as i64);
    assert(line@ =~= sum_line(a as int, b as int));
    line
}

/// A job that greets someone by name.
pub struct GreeterJob {
    pub name: String,
}

impl JobInterface for GreeterJob {
    /// Reports the greeting.
    fn run(&self) -> (line: String)
        ensures
            line@ == greeting(self.name@),
    {
        greeting_line(self.name.as_str())
    }
}

/// A job that adds two integers.
pub struct SumJob {
    pub a: i32,
    pub b: i32,
}

impl JobInterface for SumJob {
    /// Reports the two terms and their total.
    fn run(&self) -> (line: String)
        ensures
            line@ == sum_line(self.a as int, self.b as int),
    {
        sum_report(self.a, self.b)
    }
}

} // verus!
