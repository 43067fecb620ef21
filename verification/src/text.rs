//! Verified text building for the diagnostic log and the favorite-detail
//! pane: decimal rendering of integers and debug-style rendering of optional
//! strings.

use vstd::prelude::*;
use vstd::string::StringExecFns;

verus! {

/// The character for one decimal digit.
pub open spec fn spec_digit_char(d: nat) -> char {
    if d == 0 {
        '0'
    } else if d == 1 {
        '1'
    } else if d == 2 {
        '2'
    } else if d == 3 {
        '3'
    } else if d == 4 {
        '4'
    } else if d == 5 {
        '5'
    } else if d == 6 {
        '6'
    } else if d == 7 {
        '7'
    } else if d == 8 {
        '8'
    } else {
        '9'
    }
}

/// The decimal representation of a natural number, most significant digit
/// first, with no leading zeroes except for the number 0 itself.
pub open spec fn spec_dec(n: nat) -> Seq<char>
    decreases n,
{
    if n < 10 {
        seq![spec_digit_char(n)]
    } else {
        spec_dec(n / 10) + seq![spec_digit_char(n % 10)]
    }
}

/// The one-character string for a decimal digit.
fn digit_str(d: u64) -> (r: &'static str)
    requires
        d < 10,
    ensures
        r@ == seq![spec_digit_char(d as nat)],
{
    proof {
        reveal_strlit("0");
        reveal_strlit("1");
        reveal_strlit("2");
        reveal_strlit("3");
        reveal_strlit("4");
        reveal_strlit("5");
        reveal_strlit("6");
        reveal_strlit("7");
        reveal_strlit("8");
        reveal_strlit("9");
    }
    let r: &'static str = match d {
        0 => "0",
        1 => "1",
        2 => "2",
        3 => "3",
        4 => "4",
        5 => "5",
        6 => "6",
        7 => "7",
        8 => "8",
        _ => "9",
    };
    proof {
        assert(r@ =~= seq![spec_digit_char(d as nat)]);
    }
    r
}

/// Render an unsigned integer in decimal.
pub fn u64_to_string(n: u64) -> (r: String)
    ensures
        r@ == spec_dec(n as nat),
    decreases n,
{
    let d = digit_str(n % 10);
    if n < 10 {
        d.to_owned()
    } else {
        let mut s = u64_to_string(n / 10);
        s.append(d);
        s
    }
}

/// Debug-style rendering of an optional string, quoting the payload:
/// `None`, or `Some("...")`.
pub open spec fn spec_opt_quoted(o: Option<Seq<char>>) -> Seq<char> {
    match o {
        None => "None"@,
        Some(s) => "Some(\""@ + s + "\")"@,
    }
}

/// Debug-style rendering of an optional bare value: `None`, or `Some(...)`.
pub open spec fn spec_opt_plain(o: Option<Seq<char>>) -> Seq<char> {
    match o {
        None => "None"@,
        Some(s) => "Some("@ + s + ")"@,
    }
}

/// Render an optional string as its debug form with quotes.
pub fn opt_quoted(o: &Option<String>) -> (r: String)
    ensures
        r@ == spec_opt_quoted(o.deep_view()),
{
    match o {
        None => "None".to_owned(),
        Some(s) => {
            let mut r = "Some(\"".to_owned();
            r.append(s.as_str());
            r.append("\")");
            r
        },
    }
}

/// Render an optional value as its debug form without quotes.
pub fn opt_plain(o: &Option<String>) -> (r: String)
    ensures
        r@ == spec_opt_plain(o.deep_view()),
{
    match o {
        None => "None".to_owned(),
        Some(s) => {
            let mut r = "Some(".to_owned();
            r.append(s.as_str());
            r.append(")");
            r
        },
    }
}

} // verus!
