use vstd::prelude::*;

use crate::period::{period_token, Period};

verus! {

/// The decimal digit for `d`.
pub open spec fn digit(d: nat) -> char {
    if d == 0 { '0' }
    else if d == 1 { '1' }
    else if d == 2 { '2' }
    else if d == 3 { '3' }
    else if d == 4 { '4' }
    else if d == 5 { '5' }
    else if d == 6 { '6' }
    else if d == 7 { '7' }
    else if d == 8 { '8' }
    else { '9' }
}

/// The decimal form of `n`: its digits, most significant first, with no
/// leading zero.
pub open spec fn decimal(n: nat) -> Seq<char>
    decreases n,
{
    if n < 10 {
        seq![digit(n)]
    } else {
        decimal(n / 10).push(digit(n % 10))
    }
}

fn digit_str(d: usize) -> (r: &'static str)
    requires
        d < 10,
    ensures
        r@ == seq![digit(d as nat)],
{
    proof {
        reveal_strlit("0");
        reveal_strlit("1");
        reveal_strlit("2");
        reveal_strlit("3");
        reveal_strlit("4");
        reveal_strlit("5");
        reveal_strlit("6");
        reveal_strlit("7");
        reveal_strlit("8");
        reveal_strlit("9");
    }
    if d == 0 { "0" }
    else if d == 1 { "1" }
    else if d == 2 { "2" }
    else if d == 3 { "3" }
    else if d == 4 { "4" }
    else if d == 5 { "5" }
    else if d == 6 { "6" }
    else if d == 7 { "7" }
    else if d == 8 { "8" }
    else { "9" }
}

/// The decimal form of `n`.
pub fn decimal_string(n: usize) -> (r: String)
    ensures
        r@ == decimal(n as nat),
    decreases n,
{
    if n < 10 {
        String::from_str(digit_str(n))
    } else {
        let mut s = decimal_string(n / 10);
        s.append(digit_str(n % 10));
        s
    }
}

/// An optional parameter of a top list request.
#[derive(Debug, Clone, Copy)]
pub enum Param {
    /// How many entries a page holds.
    Limit(usize),
    /// Which page to fetch.
    Page(usize),
    /// The time window of the list.
    Period(Period),
}

/// The query key of a parameter.
pub open spec fn param_key(p: Param) -> Seq<char> {
    match p {
        Param::Limit(_) => "limit"@,
        Param::Page(_) => "page"@,
        Param::Period(_) => "period"@,
    }
}

/// The query value of a parameter: a number in decimal, a period as its
/// token. No range is checked: the service judges the values.
pub open spec fn param_value(p: Param) -> Seq<char> {
    match p {
        Param::Limit(n) => decimal(n as nat),
        Param::Page(n) => decimal(n as nat),
        Param::Period(t) => period_token(t),
    }
}

impl Param {
    /// The key and value that this parameter is sent as.
    pub fn encode(&self) -> (r: (String, String))
        ensures
            r.0@ == param_key(*self),
            r.1@ == param_value(*self),
    {
        match self {
            Param::Limit(n) => (String::from_str("limit"), decimal_string(*n)),
            Param::Page(n) => (String::from_str("page"), decimal_string(*n)),
            Param::Period(t) => (String::from_str("period"), t.to_string()),
        }
    }
}

} // verus!
