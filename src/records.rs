use vstd::prelude::*;
use vstd::string::{StrSliceExecFns, StringExecFns};

verus! {

/// The decimal digit for `d` (below ten).
pub open spec fn digit(d: nat) -> char {
    seq!['0', '1', '2', '3', '4', '5', '6', '7', '8', '9'][d as int]
}

/// The decimal form of `n`, most significant digit first, without leading
/// zeros (zero itself is one digit).
pub open spec fn decimal(n: nat) -> Seq<char>
    decreases n,
{
    if n < 10 {
        seq![digit(n)]
    } else {
        decimal(n / 10) + seq![digit(n % 10)]
    }
}

/// The record shown for a selected line: `<path>:<index>: <text>` with line
/// numbers, else `<path>: <text>`.
pub open spec fn line_record(path: Seq<char>, index: nat, text: Seq<char>, numbered: bool) -> Seq<
    char,
> {
    if numbered {
        path + ":"@ + decimal(index) + ": "@ + text
    } else {
        path + ": "@ + text
    }
}

/// The summary of one file in counting mode: `<path>: match count <n>`.
pub open spec fn count_record(path: Seq<char>, n: nat) -> Seq<char> {
    path + ": match count "@ + decimal(n)
}

/// The run-wide total in counting mode: `Total Match Count :<n>`.
pub open spec fn total_record(n: nat) -> Seq<char> {
    "Total Match Count :"@ + decimal(n)
}

/// A diagnostic for a path that could not be processed.
pub open spec fn diagnostic_record(path: Seq<char>, reason: Seq<char>) -> Seq<char> {
    "Error processing file "@ + path + ": "@ + reason
}

/// The decimal form of `n`.
pub fn decimal_string(n: usize) -> (r: String)
    ensures
        r@ == decimal(n as nat),
    decreases n,
{
    let d: usize = n % 10;
    proof {
        reveal_strlit("0123456789");
    }
    let last = "0123456789".substring_char(d, d + 1);
    assert(last@ =~= seq![digit(d as nat)]);
    if n < 10 {
        String::from_str(last)
    } else {
        let mut r = decimal_string(n / 10);
        r.append(last);
        r
    }
}

/// Formats the record for a selected line whose 1-based position in its file
/// is `index`.
pub fn format_line_record(path: &str, index: usize, text: &str, numbered: bool) -> (r: String)
    ensures
        r@ == line_record(path@, index as nat, text@, numbered),
{
    let mut r = String::from_str(path);
    if numbered {
        r.append(":");
        let digits = decimal_string(index);
        r.append(digits.as_str());
    }
    r.append(": ");
    r.append(text);
    r
}

/// Formats a file's summary in counting mode.
pub fn format_count_record(path: &str, n: usize) -> (r: String)
    ensures
        r@ == count_record(path@, n as nat),
{
    let mut r = String::from_str(path);
    r.append(": match count ");
    let digits = decimal_string(n);
    r.append(digits.as_str());
    r
}

/// Formats the run-wide total in counting mode.
pub fn format_total_record(n: usize) -> (r: String)
    ensures
        r@ == total_record(n as nat),
{
    let mut r = String::from_str("Total Match Count :");
    let digits = decimal_string(n);
    r.append(digits.as_str());
    r
}

/// Formats the diagnostic for a path that could not be processed, with the
/// reason the system gave.
pub fn format_diagnostic(path: &str, reason: &str) -> (r: String)
    ensures
        r@ == diagnostic_record(path@, reason@),
{
    let mut r = String::from_str("Error processing file ");
    r.append(path);
    r.append(": ");
    r.append(reason);
    r
}

} // verus!
