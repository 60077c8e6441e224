//! The human-readable experiment label used to tag metrics and reports.

use vstd::prelude::*;
use vstd::string::StringExecFns;

verus! {

/// The character for one decimal digit.
pub open spec fn dec_digit(d: nat) -> char
    recommends
        d < 10,
{
    if d == 0 {
        '0'
    } else if d == 1 {
        '1'
    } else if d == 2 {
        '2'
    } else if d == 3 {
        '3'
    } else if d == 4 {
        '4'
    } else if d == 5 {
        '5'
    } else if d == 6 {
        '6'
    } else if d == 7 {
        '7'
    } else if d == 8 {
        '8'
    } else {
        '9'
    }
}

/// The decimal rendering of a number, most significant digit first, with
/// no leading zero except for the number zero itself.
pub open spec fn dec_seq(n: nat) -> Seq<char>
    decreases n,
{
    if n < 10 {
        seq![dec_digit(n)]
    } else {
        dec_seq(n / 10).push(dec_digit(n % 10))
    }
}

/// One decimal digit as text.
fn dec_digit_str(d: u64) -> (r: &'static str)
    requires
        d < 10,
    ensures
        r@ == seq![dec_digit(d as nat)],
{
    proof {
        reveal_strlit("0");
        reveal_strlit("1");
        reveal_strlit("2");
        reveal_strlit("3");
        reveal_strlit("4");
        reveal_strlit("5");
        reveal_strlit("6");
        reveal_strlit("7");
        reveal_strlit("8");
        reveal_strlit("9");
    }
    match d {
        0 => "0",
        1 => "1",
        2 => "2",
        3 => "3",
        4 => "4",
        5 => "5",
        6 => "6",
        7 => "7",
        8 => "8",
        _ => "9",
    }
}

/// Renders a number in decimal.
pub fn u64_to_dec(n: u64) -> (s: String)
    ensures
        s@ == dec_seq(n as nat),
    decreases n,
{
    if n < 10 {
        String::from_str(dec_digit_str(n))
    } else {
        let mut s = u64_to_dec(n / 10);
        s.append(dec_digit_str(n % 10));
        proof {
            assert(s@ =~= dec_seq(n as nat));
        }
        s
    }
}

/// The label of an experiment: the fixed rate if one is set, otherwise
/// "all up" when no nodes go down, otherwise the percentage taken down.
pub open spec fn label_spec(tps: Option<u64>, percent_nodes_down: nat) -> Seq<char> {
    match tps {
        Some(t) => "fixed tps "@ + dec_seq(t as nat),
        None => if percent_nodes_down == 0 {
            "all up"@
        } else {
            dec_seq(percent_nodes_down) + "% down"@
        },
    }
}

/// Builds the label text for the given rate and percentage.
pub fn render_label(tps: Option<u64>, percent_nodes_down: u64) -> (r: String)
    ensures
        r@ == label_spec(tps, percent_nodes_down as nat),
{
    match tps {
        Some(t) => {
            let mut s = String::from_str("fixed tps ");
            let digits = u64_to_dec(t);
            s.append(digits.as_str());
            s
        },
        None => {
            if percent_nodes_down == 0 {
                String::from_str("all up")
            } else {
                let mut s = u64_to_dec(percent_nodes_down);
                s.append("% down");
                s
            }
        },
    }
}

} // verus!
