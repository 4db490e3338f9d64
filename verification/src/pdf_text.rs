//! Texts of the invoice document: month names, currency symbols, the
//! billing period, and shortening of a text that is too long for its place.

use vstd::prelude::*;
use vstd::string::StrSliceExecFns;
use vstd::string::StringExecFns;
use vstd::string::StringSliceAdditionalSpecFns;
use crate::text::{push_signed, same_text, signed_decimal};

verus! {

/// The English name of a month, counted from 1; a dash for any other number.
pub open spec fn month_name(month: u32) -> Seq<char> {
    if month == 1 {
        "January"@
    } else if month == 2 {
        "February"@
    } else if month == 3 {
        "March"@
    } else if month == 4 {
        "April"@
    } else if month == 5 {
        "May"@
    } else if month == 6 {
        "June"@
    } else if month == 7 {
        "July"@
    } else if month == 8 {
        "August"@
    } else if month == 9 {
        "September"@
    } else if month == 10 {
        "October"@
    } else if month == 11 {
        "November"@
    } else if month == 12 {
        "December"@
    } else {
        "\u{2014}"@
    }
}

pub fn english_month(month: u32) -> (r: &'static str)
    ensures
        r@ == month_name(month),
{
    match month {
        1 => "January",
        2 => "February",
        3 => "March",
        4 => "April",
        5 => "May",
        6 => "June",
        7 => "July",
        8 => "August",
        9 => "September",
        10 => "October",
        11 => "November",
        12 => "December",
        _ => "\u{2014}",
    }
}

/// The symbol of a currency: the dollar sign for `USD` or `usd`, and the
/// euro sign for every other code.
pub open spec fn currency_symbol(currency: Seq<char>) -> Seq<char> {
    if currency == "USD"@ || currency == "usd"@ {
        "$"@
    } else {
        "\u{20ac}"@
    }
}

pub fn currency_sym(currency: &str) -> (r: &'static str)
    ensures
        r@ == currency_symbol(currency@),
{
    if same_text(currency, "USD") || same_text(currency, "usd") {
        "$"
    } else {
        "\u{20ac}"
    }
}

/// The billing period of an invoice dated in the given month and year.
pub open spec fn billing_period_of(month: u32, year: i32) -> Seq<char> {
    month_name(month) + " "@ + signed_decimal(year as int)
}

pub fn billing_period(month: u32, year: i32) -> (r: String)
    ensures
        r@ == billing_period_of(month, year),
{
    let mut r = String::from_str(english_month(month));
    r.append(" ");
    push_signed(&mut r, year as i64);
    r
}

/// The first `n` characters of a text, or all of it if it has fewer.
pub open spec fn first_chars(s: Seq<char>, n: nat) -> Seq<char> {
    if n < s.len() {
        s.take(n as int)
    } else {
        s
    }
}

/// A text cut to fit `max_chars`. One that takes no more than `max_chars`
/// bytes stays as it is. A longer one keeps its first `max_chars - 3`
/// characters, followed by three dots; where `max_chars` is 3 or less
/// there is no room for the dots, and it keeps its first `max_chars`
/// characters.
pub open spec fn truncated(s: &str, max_chars: usize) -> Seq<char> {
    if s.spec_bytes().len() <= max_chars {
        s@
    } else if max_chars <= 3 {
        first_chars(s@, max_chars as nat)
    } else {
        first_chars(s@, (max_chars - 3) as nat) + "..."@
    }
}

fn take_chars(s: &str, n: usize) -> (r: &str)
    ensures
        r@ == first_chars(s@, n as nat),
{
    let len = s.unicode_len();
    if n < len {
        let r = s.substring_char(0, n);
        assert(r@ =~= s@.take(n as int));
        r
    } else {
        s
    }
}

pub fn truncate_to_chars(s: &str, max_chars: usize) -> (r: String)
    ensures
        r@ == truncated(s, max_chars),
{
    if s.as_bytes().len() <= max_chars {
        return String::from_str(s);
    }
    if max_chars <= 3 {
        return String::from_str(take_chars(s, max_chars));
    }
    let mut r = String::from_str(take_chars(s, max_chars - 3));
    r.append("...");
    r
}

} // verus!
