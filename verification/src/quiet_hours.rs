use vstd::prelude::*;

use crate::clock::local_hour_minute;
use crate::text::{chars_of, digit_char, lemma_split_at_first_is, lemma_split_rejoin, split_once};

verus! {

/// Whether `c` is an ASCII decimal digit.
pub open spec fn is_digit(c: char) -> bool {
    '0' <= c <= '9'
}

/// The value of an ASCII decimal digit.
pub open spec fn digit_value(c: char) -> int {
    (c as int) - ('0' as int)
}

/// The number that a two-digit field names: exactly two ASCII digits.
pub open spec fn two_char_number(s: Seq<char>) -> Option<int> {
    if s.len() == 2 && is_digit(s[0]) && is_digit(s[1]) {
        Some(10 * digit_value(s[0]) + digit_value(s[1]))
    } else {
        None
    }
}

/// The minute of the day that an `HH:MM` text names, if it names one.
pub open spec fn clock_minutes(s: Seq<char>) -> Option<int> {
    match crate::text::split_at_first(s, ':') {
        None => None,
        Some((h, m)) => match (two_char_number(h), two_char_number(m)) {
            (Some(hour), Some(minute)) => if hour < 24 && minute < 60 {
                Some(hour * 60 + minute)
            } else {
                None
            },
            _ => None,
        },
    }
}

/// The window, as start and end minute of the day, that an
/// `HH:MM-HH:MM` text names, if it names a valid one with different ends.
pub open spec fn quiet_window(s: Seq<char>) -> Option<(int, int)> {
    match crate::text::split_at_first(s, '-') {
        None => None,
        Some((a, b)) => match (clock_minutes(a), clock_minutes(b)) {
            (Some(start), Some(end)) => if start != end {
                Some((start, end))
            } else {
                None
            },
            _ => None,
        },
    }
}

/// Whether the minute `now` lies in the window `start`..`end`, which
/// wraps past midnight when `start > end`.
pub open spec fn in_window(start: int, end: int, now: int) -> bool {
    if start <= end {
        start <= now < end
    } else {
        now >= start || now < end
    }
}

/// Whether the quiet hours `s` are active at the minute of the day `now`:
/// never for a text that names no valid window.
pub open spec fn quiet_at(s: Seq<char>, now: int) -> bool {
    match quiet_window(s) {
        None => false,
        Some((start, end)) => in_window(start, end, now),
    }
}

/// The `HH:MM` text of a minute of the day, with two-digit fields.
pub open spec fn clock_text(minute: int) -> Seq<char> {
    let hour = minute / 60;
    let min = minute % 60;
    seq![digit_char(hour / 10), digit_char(hour % 10), ':', digit_char(min / 10), digit_char(min % 10)]
}

proof fn lemma_digit_char(d: int)
    requires
        0 <= d < 10,
    ensures
        is_digit(digit_char(d)),
        digit_value(digit_char(d)) == d,
        digit_char(d) != ':',
        digit_char(d) != '-',
{
}

/// The `HH:MM` text of a minute of the day names that minute.
pub proof fn law_clock_text_round_trip(minute: int)
    requires
        0 <= minute < 1440,
    ensures
        clock_minutes(clock_text(minute)) == Some(minute),
{
    let s = clock_text(minute);
    let hour = minute / 60;
    let min = minute % 60;
    lemma_digit_char(hour / 10);
    lemma_digit_char(hour % 10);
    lemma_digit_char(min / 10);
    lemma_digit_char(min % 10);
    lemma_split_at_first_is(s, ':', 2);
    assert(s.take(2) =~= seq![digit_char(hour / 10), digit_char(hour % 10)]);
    assert(s.skip(3) =~= seq![digit_char(min / 10), digit_char(min % 10)]);
    assert(two_char_number(s.take(2)) == Some(hour));
    assert(two_char_number(s.skip(3)) == Some(min));
}

/// Quiet hours written as `HH:MM-HH:MM` with two-digit fields read back as
/// the window they were written from, for any two different minutes of the
/// day.
pub proof fn law_quiet_hours_round_trip(start: int, end: int)
    requires
        0 <= start < 1440,
        0 <= end < 1440,
        start != end,
    ensures
        quiet_window(clock_text(start) + "-"@ + clock_text(end)) == Some((start, end)),
{
    reveal_strlit("-");
    let a = clock_text(start);
    let b = clock_text(end);
    let s = a + "-"@ + b;
    lemma_digit_char((start / 60) / 10);
    lemma_digit_char((start / 60) % 10);
    lemma_digit_char((start % 60) / 10);
    lemma_digit_char((start % 60) % 10);
    assert(s[5] == '-');
    assert forall|j: int| 0 <= j < 5 implies s[j] != '-' by {
        assert(s[j] == a[j]);
    }
    lemma_split_at_first_is(s, '-', 5);
    assert(s.take(5) =~= a);
    assert(s.skip(6) =~= b);
    law_clock_text_round_trip(start);
    law_clock_text_round_trip(end);
}

proof fn lemma_digit_back(c: char)
    requires
        is_digit(c),
    ensures
        0 <= digit_value(c) < 10,
        digit_char(digit_value(c)) == c,
{
}

/// A text that names a minute of the day is that minute's two-digit
/// `HH:MM` text, and the minute is below 1440.
pub proof fn law_clock_minutes_exact(s: Seq<char>)
    requires
        clock_minutes(s) is Some,
    ensures
        0 <= clock_minutes(s)->0 < 1440,
        s == clock_text(clock_minutes(s)->0),
{
    let (h, m) = crate::text::split_at_first(s, ':')->0;
    lemma_split_rejoin(s, ':');
    assert(h.len() == 2 && m.len() == 2);
    lemma_digit_back(h[0]);
    lemma_digit_back(h[1]);
    lemma_digit_back(m[0]);
    lemma_digit_back(m[1]);
    let hour = 10 * digit_value(h[0]) + digit_value(h[1]);
    let minute = 10 * digit_value(m[0]) + digit_value(m[1]);
    let total = hour * 60 + minute;
    assert(total / 60 == hour && total % 60 == minute) by (nonlinear_arith)
        requires
            0 <= minute < 60,
            0 <= hour,
            total == hour * 60 + minute,
    ;
    assert(hour / 10 == digit_value(h[0]) && hour % 10 == digit_value(h[1]));
    assert(minute / 10 == digit_value(m[0]) && minute % 10 == digit_value(m[1]));
    assert(s =~= h + seq![':'] + m);
    assert(s =~= clock_text(total));
}

/// Text accepted as quiet hours is exactly the two-digit `HH:MM-HH:MM`
/// form of the window it names: no other spelling is accepted.
pub proof fn law_quiet_hours_exact_form(s: Seq<char>)
    requires
        quiet_window(s) is Some,
    ensures
        ({
            let (start, end) = quiet_window(s)->0;
            &&& 0 <= start < 1440
            &&& 0 <= end < 1440
            &&& start != end
            &&& s == clock_text(start) + "-"@ + clock_text(end)
        }),
{
    reveal_strlit("-");
    let (a, b) = crate::text::split_at_first(s, '-')->0;
    lemma_split_rejoin(s, '-');
    law_clock_minutes_exact(a);
    law_clock_minutes_exact(b);
    assert("-"@ =~= seq!['-']);
}

fn digit(c: char) -> (r: u32)
    requires
        is_digit(c),
    ensures
        r == digit_value(c),
{
    (c as u32) - ('0' as u32)
}

/// The number in a field of exactly two digits.
fn two_char_field(s: &str) -> (r: Option<u32>)
    ensures
        match r {
            Some(v) => two_char_number(s@) == Some(v as int),
            None => two_char_number(s@) is None,
        },
{
    let cs = chars_of(s);
    if cs.len() != 2 {
        return None;
    }
    let a = cs[0];
    let b = cs[1];
    if '0' <= a && a <= '9' && '0' <= b && b <= '9' {
        Some(10 * digit(a) + digit(b))
    } else {
        None
    }
}

/// The minute of the day named by an `HH:MM` text.
fn minutes(value: &str) -> (r: Option<u32>)
    ensures
        match r {
            Some(v) => clock_minutes(value@) == Some(v as int),
            None => clock_minutes(value@) is None,
        },
{
    let (hour, minute) = match split_once(value, ':') {
        Some(parts) => parts,
        None => return None,
    };
    let hour = match two_char_field(hour.as_str()) {
        Some(h) => h,
        None => return None,
    };
    let minute = match two_char_field(minute.as_str()) {
        Some(m) => m,
        None => return None,
    };
    if hour < 24 && minute < 60 {
        Some(hour * 60 + minute)
    } else {
        None
    }
}

/// Reads quiet hours `HH:MM-HH:MM` into start and end minutes of the day;
/// `None` when either time is invalid or both are the same.
pub fn parse_quiet_hours(specification: &str) -> (r: Option<(u32, u32)>)
    ensures
        match r {
            Some((start, end)) => quiet_window(specification@) == Some((start as int, end as int)),
            None => quiet_window(specification@) is None,
        },
        r matches Some((start, end)) ==> start < 1440 && end < 1440 && start != end,
{
    let (start, end) = match split_once(specification, '-') {
        Some(parts) => parts,
        None => return None,
    };
    let start = match minutes(start.as_str()) {
        Some(m) => m,
        None => return None,
    };
    let end = match minutes(end.as_str()) {
        Some(m) => m,
        None => return None,
    };
    if start != end {
        Some((start, end))
    } else {
        None
    }
}

/// Whether the quiet hours `specification` are active at the minute of the
/// day `now`.
pub fn quiet_hours_active_at(specification: &str, now: u32) -> (r: bool)
    ensures
        r == quiet_at(specification@, now as int),
{
    match parse_quiet_hours(specification) {
        None => false,
        Some((start, end)) => {
            if start <= end {
                start <= now && now < end
            } else {
                now >= start || now < end
            }
        },
    }
}

/// Whether the quiet hours `specification` are active now, in local time.
pub fn quiet_hours_active(specification: &str) -> (r: bool)
    ensures
        exists|now: int| 0 <= now < 1440 && r == quiet_at(specification@, now),
        quiet_window(specification@) is None ==> !r,
{
    let (hour, minute) = local_hour_minute();
    let now = hour * 60 + minute;
    let r = quiet_hours_active_at(specification, now);
    assert(0 <= now < 1440 && r == quiet_at(specification@, now as int));
    r
}

} // verus!
