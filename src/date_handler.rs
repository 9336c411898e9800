//! The date argument: a shortcut for today, tomorrow or yesterday, turned into "YYYYMMDD".
use vstd::prelude::*;
use chrono::{Local, NaiveDate};

verus! {

#[verifier::external_type_specification]
#[verifier::external_body]
pub struct ExNaiveDate(NaiveDate);

/// Relies on chrono's `Local::now`, of which it keeps the date: today in the local time zone.
#[verifier::external_body]
fn local_today() -> NaiveDate {
    Local::now().date_naive()
}

/// Relies on chrono's `NaiveDate::succ_opt`: the next date, `None` past the last one it holds.
#[verifier::external_body]
fn next_day(day: &NaiveDate) -> Option<NaiveDate> {
    day.succ_opt()
}

/// Relies on chrono's `NaiveDate::pred_opt`: the prior date, `None` before the first one it holds.
#[verifier::external_body]
fn previous_day(day: &NaiveDate) -> Option<NaiveDate> {
    day.pred_opt()
}

/// Relies on the `Display` of chrono's `NaiveDate`: the date as year, month and day.
#[verifier::external_body]
fn date_text(day: &NaiveDate) -> String {
    day.to_string()
}

/// The days a date argument can name.
#[derive(Clone, Copy, Debug, PartialEq, Eq, Structural)]
pub enum DateShortcut {
    Today,
    Tomorrow,
    Yesterday,
}

/// `t` names today, `T` tomorrow and `y` yesterday.
pub open spec fn shortcut_of(arg: Seq<char>) -> Option<DateShortcut> {
    if arg == seq!['t'] {
        Some(DateShortcut::Today)
    } else if arg == seq!['T'] {
        Some(DateShortcut::Tomorrow)
    } else if arg == seq!['y'] {
        Some(DateShortcut::Yesterday)
    } else {
        None
    }
}

/// The number of `-` signs in `s`.
pub open spec fn dash_count(s: Seq<char>) -> nat
    decreases s.len(),
{
    if s.len() == 0 {
        0
    } else {
        dash_count(s.drop_last()) + if s.last() == '-' { 1nat } else { 0nat }
    }
}

/// The first three `-`-separated fields of `s`, run together: the characters that are not
/// `-` and come before its third `-`.
pub open spec fn date_digits(s: Seq<char>) -> Seq<char>
    decreases s.len(),
{
    if s.len() == 0 {
        Seq::empty()
    } else {
        let before = date_digits(s.drop_last());
        if s.last() == '-' || dash_count(s.drop_last()) >= 3 {
            before
        } else {
            before.push(s.last())
        }
    }
}

/// Reads a date argument as one of the shortcuts.
pub fn date_shortcut(arg: &str) -> (r: Option<DateShortcut>)
    ensures
        r == shortcut_of(arg@),
{
    if arg.unicode_len() != 1 {
        return None;
    }
    let c = arg.get_char(0);
    assert(arg@ =~= seq![c]);
    if c == 't' {
        Some(DateShortcut::Today)
    } else if c == 'T' {
        Some(DateShortcut::Tomorrow)
    } else if c == 'y' {
        Some(DateShortcut::Yesterday)
    } else {
        None
    }
}

/// Counts the `-` signs of a string.
pub fn count_dashes(s: &str) -> (r: usize)
    ensures
        r == dash_count(s@),
{
    let n = s.unicode_len();
    let mut count: usize = 0;
    let mut i: usize = 0;
    while i < n
        invariant
            i <= n,
            n == s@.len(),
            count == dash_count(s@.subrange(0, i as int)),
            count <= i,
        decreases n - i,
    {
        let c = s.get_char(i);
        assert(s@.subrange(0, i + 1).drop_last() =~= s@.subrange(0, i as int));
        if c == '-' {
            count = count + 1;
        }
        i = i + 1;
    }
    assert(s@.subrange(0, n as int) =~= s@);
    count
}

/// Given a date as "YYYY-MM-DD" (anything after a third `-` is dropped), returns "YYYYMMDD".
pub fn format_date(date: String) -> (r: String)
    requires
        dash_count(date@) >= 2,
    ensures
        r@ == date_digits(date@),
{
    let s = date.as_str();
    let n = s.unicode_len();
    let mut out = String::new();
    let mut dashes: usize = 0;
    let mut i: usize = 0;
    while i < n
        invariant
            i <= n,
            n == s@.len(),
            dashes == dash_count(s@.subrange(0, i as int)),
            dashes <= i,
            out@ == date_digits(s@.subrange(0, i as int)),
        decreases n - i,
    {
        let c = s.get_char(i);
        let ghost cur = s@.subrange(0, i + 1);
        assert(cur.drop_last() =~= s@.subrange(0, i as int));
        assert(cur.last() == c);
        if c == '-' {
            dashes = dashes + 1;
        } else if dashes < 3 {
            let piece = s.substring_char(i, i + 1);
            assert(piece@ =~= seq![c]);
            out.append(piece);
        }
        i = i + 1;
    }
    assert(s@.subrange(0, n as int) =~= s@);
    out
}

/// The day that a date argument names, as "YYYYMMDD". `None` when the argument is no
/// shortcut, or the day lies outside the dates the calendar can hold.
pub fn extract_date_argument(date: &String) -> (r: Option<String>)
    ensures
        shortcut_of(date@) is None ==> r is None,
        r matches Some(day) ==> exists|text: Seq<char>|
            dash_count(text) >= 2 && day@ == #[trigger] date_digits(text),
{
    let shortcut = match date_shortcut(date.as_str()) {
        Some(s) => s,
        None => {
            return None;
        },
    };
    let today = local_today();
    let day = match shortcut {
        DateShortcut::Today => Some(today),
        DateShortcut::Tomorrow => next_day(&today),
        DateShortcut::Yesterday => previous_day(&today),
    };
    match day {
        None => None,
        Some(d) => {
            let text = date_text(&d);
            if count_dashes(text.as_str()) < 2 {
                None
            } else {
                let ghost t = text@;
                let digits = format_date(text);
                assert(dash_count(t) >= 2 && digits@ == date_digits(t));
                Some(digits)
            }
        },
    }
}

} // verus!
