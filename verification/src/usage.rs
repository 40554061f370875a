//! Calendar dates and the token totals of recorded usage events.

use vstd::prelude::*;
use vstd::string::StrSliceExecFns;

use crate::text::{
    begins_with, decimal, digits_value, is_digit, law_padded_decimal_reads_back, padded_decimal,
    push_padded_decimal, same_text, starts_with_text,
};

verus! {

/// A point in time as the system reports it, field by field.
#[derive(Clone, Copy, Debug, PartialEq, Eq, Structural)]
pub struct SystemTimeRaw {
    pub year: u16,
    pub month: u16,
    pub day_of_week: u16,
    pub day: u16,
    pub hour: u16,
    pub minute: u16,
    pub second: u16,
    pub millis: u16,
}

/// One reading of the two system clocks.
#[derive(Clone, Copy, Debug, PartialEq, Eq, Structural)]
pub struct Clocks {
    /// The time of the local time zone.
    pub local: SystemTimeRaw,
    /// Coordinated universal time.
    pub utc: SystemTimeRaw,
}

/// A recorded use of the model.
#[derive(Debug)]
pub struct Event {
    /// The local day, as `YYYY-MM-DD`.
    pub date: String,
    pub input_tokens: u64,
    pub output_tokens: u64,
}

/// The tokens used today and in the current month.
#[derive(Clone, Copy, Debug, PartialEq, Eq, Structural)]
pub struct UsageTotals {
    pub today_tokens: u64,
    pub month_tokens: u64,
}

impl Default for UsageTotals {
    /// No tokens at all.
    fn default() -> (r: UsageTotals)
        ensures
            r.today_tokens == 0,
            r.month_tokens == 0,
    {
        UsageTotals { today_tokens: 0, month_tokens: 0 }
    }
}

// ---------------------------------------------------------------------------
// Dates
// ---------------------------------------------------------------------------

/// A date as `YYYY-MM-DD`; a number with more digits is written in full.
pub open spec fn date_text(t: SystemTimeRaw) -> Seq<char> {
    padded_decimal(t.year as nat, 4) + seq!['-'] + padded_decimal(t.month as nat, 2) + seq!['-']
        + padded_decimal(t.day as nat, 2)
}

/// The date of the clock that `is_utc` selects.
pub fn read_system_time(clocks: &Clocks, is_utc: bool) -> (r: String)
    ensures
        r@ == date_text(
            if is_utc {
                clocks.utc
            } else {
                clocks.local
            },
        ),
{
    let t: SystemTimeRaw = if is_utc {
        clocks.utc
    } else {
        clocks.local
    };
    let mut out: String = String::new();
    push_padded_decimal(&mut out, t.year as u64, 4);
    out.push('-');
    push_padded_decimal(&mut out, t.month as u64, 2);
    out.push('-');
    push_padded_decimal(&mut out, t.day as u64, 2);
    assert(out@ == date_text(t));
    out
}

/// The local day, as `YYYY-MM-DD`.
pub fn local_today(clocks: &Clocks) -> (r: String)
    ensures
        r@ == date_text(clocks.local),
{
    read_system_time(clocks, false)
}

/// The day of coordinated universal time, as `YYYY-MM-DD`. The platform splits
/// its daily data at midnight of that clock.
pub fn utc_today(clocks: &Clocks) -> (r: String)
    ensures
        r@ == date_text(clocks.utc),
{
    read_system_time(clocks, true)
}

/// A date has at least the ten characters of `YYYY-MM-DD`.
pub proof fn law_date_has_ten_characters(t: SystemTimeRaw)
    ensures
        date_text(t).len() >= 10,
        t.year <= 9999 && t.month <= 99 && t.day <= 99 ==> date_text(t).len() == 10,
{
    law_padded_decimal_reads_back(t.year as nat, 4);
    law_padded_decimal_reads_back(t.month as nat, 2);
    law_padded_decimal_reads_back(t.day as nat, 2);
    lemma_padded_width(t.year as nat, 4);
    lemma_padded_width(t.month as nat, 2);
    lemma_padded_width(t.day as nat, 2);
}

proof fn lemma_padded_width(n: nat, width: nat)
    ensures
        width == 2 && n <= 99 ==> padded_decimal(n, width).len() == 2,
        width == 4 && n <= 9999 ==> padded_decimal(n, width).len() == 4,
{
    reveal_with_fuel(decimal, 5);
}

/// In a date of the years up to 9999 the first four characters are the year and
/// the sixth and seventh the month.
pub proof fn law_date_parts(t: SystemTimeRaw)
    requires
        t.year <= 9999,
        t.month <= 99,
    ensures
        date_text(t).subrange(0, 4) == padded_decimal(t.year as nat, 4),
        date_text(t).subrange(5, 7) == padded_decimal(t.month as nat, 2),
{
    lemma_padded_width(t.year as nat, 4);
    lemma_padded_width(t.month as nat, 2);
    assert(date_text(t).subrange(0, 4) == padded_decimal(t.year as nat, 4));
    assert(date_text(t).subrange(5, 7) == padded_decimal(t.month as nat, 2));
}

// ---------------------------------------------------------------------------
// Totals
// ---------------------------------------------------------------------------

/// The tokens of an event, in both directions.
pub open spec fn event_tokens(ev: Event) -> nat {
    (ev.input_tokens + ev.output_tokens) as nat
}

/// The tokens of the events of the day `today`.
pub open spec fn day_sum(events: Seq<Event>, today: Seq<char>) -> nat
    decreases events.len(),
{
    if events.len() == 0 {
        0
    } else {
        day_sum(events.drop_last(), today) + if events.last().date@ == today {
            event_tokens(events.last())
        } else {
            0
        }
    }
}

/// The tokens of the events whose date begins with `month`.
pub open spec fn month_sum(events: Seq<Event>, month: Seq<char>) -> nat
    decreases events.len(),
{
    if events.len() == 0 {
        0
    } else {
        month_sum(events.drop_last(), month) + if begins_with(events.last().date@, month) {
            event_tokens(events.last())
        } else {
            0
        }
    }
}

/// The part of a date that names its month: the first seven characters.
pub open spec fn month_part(today: Seq<char>) -> Seq<char> {
    today.take(7)
}

/// Whether the tokens of each event, of the day and of the month fit in 64 bits.
pub open spec fn totals_fit(events: Seq<Event>, today: Seq<char>) -> bool {
    &&& forall|i: int| 0 <= i < events.len() ==> #[trigger] event_tokens(events[i]) <= u64::MAX
    &&& day_sum(events, today) <= u64::MAX
    &&& month_sum(events, month_part(today)) <= u64::MAX
}

proof fn lemma_sums_grow(events: Seq<Event>, today: Seq<char>, month: Seq<char>, i: int)
    requires
        0 <= i <= events.len(),
    ensures
        day_sum(events.take(i), today) <= day_sum(events, today),
        month_sum(events.take(i), month) <= month_sum(events, month),
    decreases events.len() - i,
{
    if i < events.len() {
        lemma_sums_grow(events, today, month, i + 1);
        assert(events.take(i + 1).drop_last() == events.take(i));
    } else {
        assert(events.take(i) == events);
    }
}

/// The totals of `events` on the local day, or `None` where the tokens of an
/// event, of the day or of the month exceed 64 bits.
pub fn checked_totals(events: &Vec<Event>, clocks: &Clocks) -> (r: Option<UsageTotals>)
    ensures
        r is Some <==> totals_fit(events@, date_text(clocks.local)),
        r matches Some(t) ==> {
            &&& t.today_tokens == day_sum(events@, date_text(clocks.local))
            &&& t.month_tokens == month_sum(events@, month_part(date_text(clocks.local)))
        },
{
    let today: String = local_today(clocks);
    proof {
        law_date_has_ten_characters(clocks.local);
    }
    let month: &str = today.as_str().substring_char(0, 7);
    assert(month@ == month_part(today@));
    let mut out: UsageTotals = UsageTotals { today_tokens: 0, month_tokens: 0 };
    let mut i: usize = 0;
    while i < events.len()
        invariant
            i <= events@.len(),
            today@ == date_text(clocks.local),
            month@ == month_part(today@),
            out.today_tokens == day_sum(events@.take(i as int), today@),
            out.month_tokens == month_sum(events@.take(i as int), month@),
            forall|j: int| 0 <= j < i ==> #[trigger] event_tokens(events@[j]) <= u64::MAX,
        decreases events@.len() - i,
    {
        let ev: &Event = &events[i];
        proof {
            assert(events@.take(i + 1).drop_last() == events@.take(i as int));
            lemma_sums_grow(events@, today@, month@, i + 1);
        }
        let tokens: u64 = match ev.input_tokens.checked_add(ev.output_tokens) {
            Some(n) => n,
            None => {
                assert(event_tokens(events@[i as int]) > u64::MAX);
                return None;
            },
        };
        assert(event_tokens(events@[i as int]) == tokens);
        if same_text(ev.date.as_str(), today.as_str()) {
            match out.today_tokens.checked_add(tokens) {
                Some(n) => {
                    out.today_tokens = n;
                },
                None => {
                    return None;
                },
            }
        }
        if starts_with_text(ev.date.as_str(), month) {
            match out.month_tokens.checked_add(tokens) {
                Some(n) => {
                    out.month_tokens = n;
                },
                None => {
                    return None;
                },
            }
        }
        i += 1;
    }
    assert(events@.take(i as int) == events@);
    Some(out)
}

/// The totals of `events` on the local day.
pub fn totals(events: &Vec<Event>, clocks: &Clocks) -> (r: UsageTotals)
    requires
        totals_fit(events@, date_text(clocks.local)),
    ensures
        r.today_tokens == day_sum(events@, date_text(clocks.local)),
        r.month_tokens == month_sum(events@, month_part(date_text(clocks.local))),
{
    match checked_totals(events, clocks) {
        Some(t) => t,
        None => UsageTotals { today_tokens: 0, month_tokens: 0 },
    }
}

/// What was used today was used this month: the day's total never exceeds the
/// month's.
pub proof fn law_today_is_part_of_the_month(events: Seq<Event>, t: SystemTimeRaw)
    ensures
        day_sum(events, date_text(t)) <= month_sum(events, month_part(date_text(t))),
    decreases events.len(),
{
    law_date_has_ten_characters(t);
    if events.len() > 0 {
        law_today_is_part_of_the_month(events.drop_last(), t);
        let today = date_text(t);
        assert(today.subrange(0, month_part(today).len() as int) == month_part(today));
        assert(begins_with(today, month_part(today)));
    }
}

/// Totals add up: recording `late` after `early` adds the totals of both.
pub proof fn law_totals_add_up(early: Seq<Event>, late: Seq<Event>, today: Seq<char>)
    ensures
        day_sum(early + late, today) == day_sum(early, today) + day_sum(late, today),
        month_sum(early + late, month_part(today)) == month_sum(early, month_part(today))
            + month_sum(late, month_part(today)),
    decreases late.len(),
{
    if late.len() > 0 {
        assert((early + late).drop_last() == early + late.drop_last());
        law_totals_add_up(early, late.drop_last(), today);
    } else {
        assert(early + late == early);
    }
}

// ---------------------------------------------------------------------------
// What the dates and totals say
// ---------------------------------------------------------------------------

/// A date is four digits of the year, two of the month and two of the day, with a
/// dash between them.
pub proof fn law_date_is_year_month_day(t: SystemTimeRaw)
    requires
        t.year <= 9999,
        t.month <= 99,
        t.day <= 99,
    ensures
        date_text(t).len() == 10,
        date_text(t)[4] == '-',
        date_text(t)[7] == '-',
        digits_value(date_text(t).subrange(0, 4)) == t.year,
        digits_value(date_text(t).subrange(5, 7)) == t.month,
        digits_value(date_text(t).subrange(8, 10)) == t.day,
        forall|i: int|
            0 <= i < 10 && i != 4 && i != 7 ==> is_digit(#[trigger] date_text(t)[i]),
{
    lemma_padded_width(t.year as nat, 4);
    lemma_padded_width(t.month as nat, 2);
    lemma_padded_width(t.day as nat, 2);
    law_padded_decimal_reads_back(t.year as nat, 4);
    law_padded_decimal_reads_back(t.month as nat, 2);
    law_padded_decimal_reads_back(t.day as nat, 2);
    let y = padded_decimal(t.year as nat, 4);
    let m = padded_decimal(t.month as nat, 2);
    let d = padded_decimal(t.day as nat, 2);
    assert(date_text(t).subrange(0, 4) == y);
    assert(date_text(t).subrange(5, 7) == m);
    assert(date_text(t).subrange(8, 10) == d);
    assert forall|i: int| 0 <= i < 10 && i != 4 && i != 7 implies is_digit(
        #[trigger] date_text(t)[i],
    ) by {
        if i < 4 {
            assert(date_text(t)[i] == y[i]);
        } else if i < 7 {
            assert(date_text(t)[i] == m[i - 5]);
        } else {
            assert(date_text(t)[i] == d[i - 8]);
        }
    }
}

/// A number with more digits than the date has room for is written in full.
pub proof fn law_date_writes_numbers_in_full(t: SystemTimeRaw)
    ensures
        date_text(t).len() == padded_decimal(t.year as nat, 4).len() + padded_decimal(
            t.month as nat,
            2,
        ).len() + padded_decimal(t.day as nat, 2).len() + 2,
        t.year > 9999 ==> begins_with(date_text(t), decimal(t.year as nat).push('-')),
{
    if t.year > 9999 {
        reveal_with_fuel(decimal, 5);
        let y = decimal(t.year as nat);
        assert(padded_decimal(t.year as nat, 4) == y);
        assert(date_text(t).subrange(0, (y.len() + 1) as int) == y.push('-'));
    }
}

/// Each event counts once, wherever it stands in the record: with the tokens of
/// both directions, for the day where it is of that day, and for the month where
/// its date begins with that month.
pub proof fn law_each_event_counts_once(
    before: Seq<Event>,
    ev: Event,
    after: Seq<Event>,
    today: Seq<char>,
    month: Seq<char>,
)
    ensures
        day_sum(Seq::empty(), today) == 0,
        month_sum(Seq::empty(), month) == 0,
        day_sum(before.push(ev) + after, today) == day_sum(before + after, today) + if ev.date@
            == today {
            ev.input_tokens + ev.output_tokens
        } else {
            0
        },
        month_sum(before.push(ev) + after, month) == month_sum(before + after, month) + if month.len()
            <= ev.date@.len() && ev.date@.take(month.len() as int) == month {
            ev.input_tokens + ev.output_tokens
        } else {
            0
        },
    decreases after.len(),
{
    if after.len() > 0 {
        law_each_event_counts_once(before, ev, after.drop_last(), today, month);
        assert((before.push(ev) + after).drop_last() == before.push(ev) + after.drop_last());
        assert((before + after).drop_last() == before + after.drop_last());
    } else {
        assert(before.push(ev) + after == before.push(ev));
        assert(before + after == before);
        assert(before.push(ev).drop_last() == before);
        assert(ev.date@.subrange(0, month.len() as int) == ev.date@.take(month.len() as int));
    }
}

/// The month of a date is its first seven characters, `YYYY-MM`.
pub proof fn law_month_is_the_first_seven_characters(month: Seq<char>, rest: Seq<char>)
    requires
        month.len() == 7,
    ensures
        month_part(month + rest) == month,
{
    assert((month + rest).take(7) == month);
}

/// Totals come for every record whose events, day and month each stay within 64
/// bits.
pub proof fn law_totals_come_where_they_fit(events: Seq<Event>, today: Seq<char>)
    ensures
        totals_fit(events, today) <==> {
            &&& forall|i: int|
                0 <= i < events.len() ==> (#[trigger] events[i]).input_tokens
                    + events[i].output_tokens <= 0xffff_ffff_ffff_ffff
            &&& day_sum(events, today) <= 0xffff_ffff_ffff_ffff
            &&& month_sum(events, today.take(7)) <= 0xffff_ffff_ffff_ffff
        },
{
    if totals_fit(events, today) {
        assert forall|i: int| 0 <= i < events.len() implies (#[trigger] events[i]).input_tokens
            + events[i].output_tokens <= 0xffff_ffff_ffff_ffff by {
            assert(event_tokens(events[i]) <= u64::MAX);
        }
    }
}

// ---------------------------------------------------------------------------
// What the operations do
// ---------------------------------------------------------------------------

/// Each clock has its own day: `local_today` that of the local one, `utc_today`
/// that of the universal one, and `read_system_time` the one that is asked for.
pub proof fn law_each_clock_has_its_day(
    clocks: &Clocks,
    local: String,
    utc: String,
    is_utc: bool,
    asked: String,
)
    requires
        call_ensures(local_today, (clocks,), local),
        call_ensures(utc_today, (clocks,), utc),
        call_ensures(read_system_time, (clocks, is_utc), asked),
    ensures
        local@ == date_text(clocks.local),
        utc@ == date_text(clocks.utc),
        asked@ == if is_utc {
            utc@
        } else {
            local@
        },
{
}

/// One more event, wherever it stands, adds its tokens of both directions to the
/// day where it is of the local day, and to the month where its date has the first
/// seven characters of the local day; and `totals` gives what `checked_totals`
/// does.
pub proof fn law_one_more_event(
    events: &Vec<Event>,
    more: &Vec<Event>,
    clocks: &Clocks,
    t: UsageTotals,
    u: UsageTotals,
    checked: Option<UsageTotals>,
    before: Seq<Event>,
    ev: Event,
    after: Seq<Event>,
)
    requires
        events@ == before + after,
        more@ == before.push(ev) + after,
        totals_fit(more@, date_text(clocks.local)),
        call_ensures(totals, (events, clocks), t),
        call_ensures(totals, (more, clocks), u),
        call_ensures(checked_totals, (more, clocks), checked),
    ensures
        ({
            let today = date_text(clocks.local);
            let tokens = ev.input_tokens + ev.output_tokens;
            &&& u.today_tokens == t.today_tokens + if ev.date@ == today {
                tokens
            } else {
                0
            }
            &&& u.month_tokens == t.month_tokens + if ev.date@.len() >= 7 && ev.date@.take(7)
                == today.take(7) {
                tokens
            } else {
                0
            }
        }),
        checked == Some(u),
{
    let today = date_text(clocks.local);
    law_date_has_ten_characters(clocks.local);
    law_each_event_counts_once(before, ev, after, today, month_part(today));
}

/// Without events there are no tokens.
pub proof fn law_no_events_no_tokens(events: &Vec<Event>, clocks: &Clocks, r: Option<UsageTotals>)
    requires
        events@.len() == 0,
        call_ensures(checked_totals, (events, clocks), r),
    ensures
        r == Some(UsageTotals { today_tokens: 0, month_tokens: 0 }),
{
}

} // verus!
