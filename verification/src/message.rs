//! The diagnostic line a logging bail emits.
//!
//! The line names the source position of the call site, the text of the
//! checked expression, and — when the failure carries a concrete detail — a
//! rendering of that detail:
//!
//! ```text
//! Bailed at <file>:<line>:<column>: `<expression>` is `<detail>`
//! ```
//!
//! Rendering the detail of an arbitrary failure is the caller's business;
//! this module takes the pieces as plain strings and numbers and is verified
//! to assemble exactly the line above.

use vstd::prelude::*;

verus! {

/// The digit character for `d`; meaningful for `d < 10`.
pub open spec fn spec_digit(d: nat) -> char {
    if d == 0 {
        '0'
    } else if d == 1 {
        '1'
    } else if d == 2 {
        '2'
    } else if d == 3 {
        '3'
    } else if d == 4 {
        '4'
    } else if d == 5 {
        '5'
    } else if d == 6 {
        '6'
    } else if d == 7 {
        '7'
    } else if d == 8 {
        '8'
    } else {
        '9'
    }
}

/// The decimal rendering of `n`, most significant digit first, with no sign
/// and no leading zeros (a single `'0'` for zero).
pub open spec fn spec_decimal(n: nat) -> Seq<char>
    decreases n,
{
    if n < 10 {
        seq![spec_digit(n)]
    } else {
        spec_decimal(n / 10).push(spec_digit(n % 10))
    }
}

/// The one-character string for the digit `d`.
fn digit_str(d: u64) -> (r: &'static str)
    requires
        d < 10,
    ensures
        r@ == seq![spec_digit(d as nat)],
{
    let r: &'static str = match d {
        0 => "0",
        1 => "1",
        2 => "2",
        3 => "3",
        4 => "4",
        5 => "5",
        6 => "6",
        7 => "7",
        8 => "8",
        _ => "9",
    };
    proof {
        reveal_strlit("0");
        reveal_strlit("1");
        reveal_strlit("2");
        reveal_strlit("3");
        reveal_strlit("4");
        reveal_strlit("5");
        reveal_strlit("6");
        reveal_strlit("7");
        reveal_strlit("8");
        reveal_strlit("9");
        assert(r@ =~= seq![spec_digit(d as nat)]);
    }
    r
}

/// Render `n` in decimal.
pub fn decimal_string(n: u64) -> (r: String)
    ensures
        r@ == spec_decimal(n as nat),
    decreases n,
{
    if n < 10 {
        String::from_str(digit_str(n))
    } else {
        proof {
            assert(n / 10 < n) by (nonlinear_arith)
                requires
                    n >= 10,
            ;
        }
        let mut s = decimal_string(n / 10);
        s.append(digit_str(n % 10));
        proof {
            assert(s@ =~= spec_decimal((n as nat) / 10).push(spec_digit((n as nat) % 10)));
        }
        s
    }
}

/// The diagnostic line for a failure observed at `file:line:column` while
/// checking the expression whose text is `expr`, with `detail` rendered when
/// the failure carries one.
pub open spec fn spec_bail_message(
    file: Seq<char>,
    line: u64,
    column: u64,
    expr: Seq<char>,
    detail: Option<Seq<char>>,
) -> Seq<char> {
    let head = "Bailed at "@ + file + ":"@ + spec_decimal(line as nat) + ":"@ + spec_decimal(
        column as nat,
    ) + ": `"@ + expr + "`"@;
    match detail {
        None => head,
        Some(d) => head + " is `"@ + d + "`"@,
    }
}

/// Assemble the diagnostic line that a logging bail emits.
pub fn bail_message(file: &str, line: u64, column: u64, expr: &str, detail: Option<&str>) -> (r:
    String)
    ensures
        detail is None ==> r@ == spec_bail_message(file@, line, column, expr@, None),
        detail matches Some(d) ==> r@ == spec_bail_message(file@, line, column, expr@, Some(d@)),
{
    let mut s = String::from_str("Bailed at ");
    s.append(file);
    s.append(":");
    let line_digits = decimal_string(line);
    s.append(line_digits.as_str());
    s.append(":");
    let column_digits = decimal_string(column);
    s.append(column_digits.as_str());
    s.append(": `");
    s.append(expr);
    s.append("`");
    match detail {
        None => s,
        Some(d) => {
            s.append(" is `");
            s.append(d);
            s.append("`");
            s
        },
    }
}

} // verus!
