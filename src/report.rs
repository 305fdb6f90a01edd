//! Rendering a stack dump: a header line, then one line per entry, bottom to top.
use vstd::prelude::*;
use vstd::string::*;
use crate::stack::{Frame, ValueStack};

verus! {

/// The first line of every dump.
pub const HEADER: &'static str = "Values:";

/// What `format!("{:?}", s)` yields for a string whose characters are `s`: the string in
/// double quotes with its special characters escaped.
pub uninterp spec fn quoted_of(s: Seq<char>) -> Seq<char>;

/// Relies on std's `Debug` for `str`, through `format!`: the quoted, escaped form depends on
/// the characters alone.
#[verifier::external_body]
fn quoted(s: &str) -> (r: String)
    ensures
        r@ == quoted_of(s@),
{
    format!("{:?}", s)
}

/// The decimal digit for `d`, which is below ten.
pub open spec fn digit_char(d: nat) -> char {
    if d == 0 {
        '0'
    } else if d == 1 {
        '1'
    } else if d == 2 {
        '2'
    } else if d == 3 {
        '3'
    } else if d == 4 {
        '4'
    } else if d == 5 {
        '5'
    } else if d == 6 {
        '6'
    } else if d == 7 {
        '7'
    } else if d == 8 {
        '8'
    } else {
        '9'
    }
}

/// The decimal form of `n`, without leading zeros.
pub open spec fn decimal(n: nat) -> Seq<char>
    decreases n,
{
    if n < 10 {
        seq![digit_char(n)]
    } else {
        decimal(n / 10).push(digit_char(n % 10))
    }
}

/// The dump line of an entry whose label, quoted, reads `quoted_name`.
pub open spec fn line_of(quoted_name: Seq<char>, value: u64) -> Seq<char> {
    "  Frame { name: "@ + quoted_name + ", value: "@ + decimal(value as nat) + " }"@
}

/// The dump line of `e`.
pub open spec fn entry_line_of(e: Frame) -> Seq<char> {
    line_of(quoted_of(e.name@), e.value)
}

fn digit_str(d: u64) -> (r: &'static str)
    requires
        d < 10,
    ensures
        r@ == seq![digit_char(d as nat)],
{
    proof {
        reveal_strlit("0");
        reveal_strlit("1");
        reveal_strlit("2");
        reveal_strlit("3");
        reveal_strlit("4");
        reveal_strlit("5");
        reveal_strlit("6");
        reveal_strlit("7");
        reveal_strlit("8");
        reveal_strlit("9");
    }
    match d {
        0 => "0",
        1 => "1",
        2 => "2",
        3 => "3",
        4 => "4",
        5 => "5",
        6 => "6",
        7 => "7",
        8 => "8",
        _ => "9",
    }
}

/// The decimal form of `n`.
pub fn decimal_string(n: u64) -> (r: String)
    ensures
        r@ == decimal(n as nat),
    decreases n,
{
    if n < 10 {
        String::from_str(digit_str(n))
    } else {
        let mut s = decimal_string(n / 10);
        s.append(digit_str(n % 10));
        s
    }
}

/// The dump line for a label already in quoted form and a value.
pub fn line_from_quoted(quoted_name: &str, value: u64) -> (r: String)
    ensures
        r@ == line_of(quoted_name@, value),
{
    let mut s = String::from_str("  Frame { name: ");
    s.append(quoted_name);
    s.append(", value: ");
    let digits = decimal_string(value);
    s.append(digits.as_str());
    s.append(" }");
    s
}

/// The dump line of `e`: its label quoted, then its value in decimal.
pub fn entry_line(e: &Frame) -> (r: String)
    ensures
        r@ == entry_line_of(*e),
{
    let q = quoted(e.name);
    line_from_quoted(q.as_str(), e.value)
}

/// The lines of a dump of `stack`: the header, then each entry bottom to top.
pub fn dump_lines(stack: &ValueStack) -> (r: Vec<String>)
    ensures
        r@.len() == stack@.len() + 1,
        r@[0]@ == HEADER@,
        forall|i: int| 0 <= i < stack@.len() ==> (#[trigger] r@[i + 1])@ == entry_line_of(stack@[i]),
{
    let entries = stack.snapshot();
    let mut lines: Vec<String> = Vec::new();
    lines.push(String::from_str(HEADER));
    let mut k: usize = 0;
    while k < entries.len()
        invariant
            entries@ == stack@,
            k <= entries@.len(),
            lines@.len() == k + 1,
            lines@[0]@ == HEADER@,
            forall|i: int| 0 <= i < k ==> (#[trigger] lines@[i + 1])@ == entry_line_of(entries@[i]),
        decreases entries@.len() - k,
    {
        let line = entry_line(&entries[k]);
        lines.push(line);
        k = k + 1;
    }
    lines
}

} // verus!
