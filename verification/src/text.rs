//! Small helpers that build the texts of responses.
use vstd::prelude::*;
use crate::decimal::{nat_numeral, int_numeral, push_u64, push_i64};

verus! {

/// Whether a text is the given name.
pub fn is_named(s: &String, name: &str) -> (b: bool)
    ensures
        b == (s@ == name@),
{
    let other = String::from_str(name);
    *s == other
}

/// A text made of a prefix and a detail.
pub fn joined(prefix: &str, detail: &str) -> (res: String)
    ensures
        res@ == prefix@ + detail@,
{
    let mut res = String::from_str(prefix);
    res.append(detail);
    res
}

/// A text made of a prefix and the decimal numeral of a count.
pub fn with_count(prefix: &str, n: u64) -> (res: String)
    ensures
        res@ == prefix@ + nat_numeral(n as nat),
{
    let mut res = String::from_str(prefix);
    push_u64(&mut res, n);
    res
}

/// A text made of a prefix and the decimal numeral of an integer.
pub fn with_integer(prefix: &str, i: i64) -> (res: String)
    ensures
        res@ == prefix@ + int_numeral(i as int),
{
    let mut res = String::from_str(prefix);
    push_i64(&mut res, i);
    res
}

/// A named output.
pub fn entry(name: &str, value: String) -> (res: (String, String))
    ensures
        res.0@ == name@,
        res.1@ == value@,
{
    (String::from_str(name), value)
}

} // verus!
