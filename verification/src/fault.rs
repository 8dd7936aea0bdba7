//! Text for the fatal-fault path and the startup report.
//!
//! A fault is terminal for the calling context: the host is given one
//! diagnostic — the source location that raised the fault and the fault's
//! message — and then an abort primitive that never returns. The library
//! formats that diagnostic, and the line the module prints at startup,
//! character for character; sending the text and aborting belong to the
//! host environment.

use vstd::prelude::*;

use crate::entropy::MAX_RAND;

verus! {

/// The decimal digit for one value below ten.
pub open spec fn decimal_digit(d: nat) -> char {
    if d == 0 {
        '0'
    } else if d == 1 {
        '1'
    } else if d == 2 {
        '2'
    } else if d == 3 {
        '3'
    } else if d == 4 {
        '4'
    } else if d == 5 {
        '5'
    } else if d == 6 {
        '6'
    } else if d == 7 {
        '7'
    } else if d == 8 {
        '8'
    } else {
        '9'
    }
}

/// The decimal digits of `n`, most significant first, with no leading zero
/// except for `n == 0` itself.
pub open spec fn decimal_of(n: nat) -> Seq<char>
    decreases n,
{
    if n < 10 {
        seq![decimal_digit(n)]
    } else {
        decimal_of(n / 10) + seq![decimal_digit(n % 10)]
    }
}

fn digit_str(d: u8) -> (r: &'static str)
    requires
        d < 10,
    ensures
        r@ == seq![decimal_digit(d as nat)],
{
    proof {
        reveal_strlit("0");
        reveal_strlit("1");
        reveal_strlit("2");
        reveal_strlit("3");
        reveal_strlit("4");
        reveal_strlit("5");
        reveal_strlit("6");
        reveal_strlit("7");
        reveal_strlit("8");
        reveal_strlit("9");
    }
    let r = if d == 0 {
        "0"
    } else if d == 1 {
        "1"
    } else if d == 2 {
        "2"
    } else if d == 3 {
        "3"
    } else if d == 4 {
        "4"
    } else if d == 5 {
        "5"
    } else if d == 6 {
        "6"
    } else if d == 7 {
        "7"
    } else if d == 8 {
        "8"
    } else {
        "9"
    };
    proof {
        assert(r@ =~= seq![decimal_digit(d as nat)]);
    }
    r
}

/// Renders `n` in decimal, digit for digit as [`decimal_of`] lays them out.
pub fn decimal_string(n: u32) -> (r: String)
    ensures
        r@ == decimal_of(n as nat),
    decreases n,
{
    if n < 10 {
        digit_str(n as u8).to_owned()
    } else {
        let prefix = decimal_string(n / 10);
        prefix.concat(digit_str((n % 10) as u8))
    }
}

/// The diagnostic the fatal-fault path sends: the source location that
/// raised the fault, then the fault's message, each line terminated.
pub open spec fn fault_report(file: Seq<char>, line: nat, message: Seq<char>) -> Seq<char> {
    "Rust panic @ "@ + file + ":"@ + decimal_of(line) + "\n"@ + message + "\n"@
}

/// Formats the fatal-fault diagnostic for the host output primitive.
pub fn fault_report_text(file: &str, line: u32, message: &str) -> (r: String)
    ensures
        r@ == fault_report(file@, line as nat, message@),
{
    let mut out = String::new();
    out.append("Rust panic @ ");
    out.append(file);
    out.append(":");
    let digits = decimal_string(line);
    out.append(digits.as_str());
    out.append("\n");
    out.append(message);
    out.append("\n");
    proof {
        assert(out@ =~= fault_report(file@, line as nat, message@));
    }
    out
}

/// The line the module prints at startup: the randomized chance over the
/// fixed upper bound.
pub open spec fn init_report(chance: nat) -> Seq<char> {
    "Panic probability: "@ + decimal_of(chance) + "/"@ + decimal_of(MAX_RAND as nat) + "\n"@
}

/// Formats the startup report for the host output primitive.
pub fn init_report_text(chance: u8) -> (r: String)
    ensures
        r@ == init_report(chance as nat),
{
    let mut out = String::new();
    out.append("Panic probability: ");
    let chance_digits = decimal_string(chance as u32);
    out.append(chance_digits.as_str());
    out.append("/");
    let bound_digits = decimal_string(MAX_RAND as u32);
    out.append(bound_digits.as_str());
    out.append("\n");
    proof {
        assert(out@ =~= init_report(chance as nat));
    }
    out
}

} // verus!
