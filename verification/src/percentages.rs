//! How far the current minute, hour, day, month and year have elapsed.
//!
//! Every unit has a fixed length in seconds. A month is taken as 30.42 days
//! whatever the calendar says, and a year as twelve such months, so near the
//! end of a month or of a year the elapsed share can pass 100 percent.

use crate::breakdown::CalendarBreakdown;
use crate::percent::Percent;
use vstd::prelude::*;

verus! {

pub const SECONDS_IN_MINUTE: u64 = 60;

pub const SECONDS_IN_HOUR: u64 = 3_600;

pub const SECONDS_IN_DAY: u64 = 86_400;

/// 30.42 days, which is a whole number of seconds.
pub const SECONDS_IN_MONTH: u64 = 2_628_288;

/// Twelve months of 30.42 days.
pub const SECONDS_IN_YEAR: u64 = 31_539_456;

/// The time units whose progress is shown, finest first.
#[derive(Clone, Copy, Debug, PartialEq, Eq, Structural)]
pub enum TimeUnit {
    Minute,
    Hour,
    Day,
    Month,
    Year,
}

impl TimeUnit {
    /// The fixed length of the unit in seconds.
    pub open spec fn seconds(self) -> int {
        match self {
            TimeUnit::Minute => SECONDS_IN_MINUTE as int,
            TimeUnit::Hour => SECONDS_IN_HOUR as int,
            TimeUnit::Day => SECONDS_IN_DAY as int,
            TimeUnit::Month => SECONDS_IN_MONTH as int,
            TimeUnit::Year => SECONDS_IN_YEAR as int,
        }
    }

    /// The fixed length of the unit in seconds.
    pub fn length_in_seconds(self) -> (r: u64)
        ensures
            r == self.seconds(),
    {
        match self {
            TimeUnit::Minute => SECONDS_IN_MINUTE,
            TimeUnit::Hour => SECONDS_IN_HOUR,
            TimeUnit::Day => SECONDS_IN_DAY,
            TimeUnit::Month => SECONDS_IN_MONTH,
            TimeUnit::Year => SECONDS_IN_YEAR,
        }
    }
}

/// The seconds of the current `unit` that have elapsed at `b`: each field
/// from the one that counts within `unit` down to the seconds, times the
/// length of what it counts.
pub open spec fn elapsed_seconds(b: CalendarBreakdown, unit: TimeUnit) -> int {
    match unit {
        TimeUnit::Minute => b.second as int,
        TimeUnit::Hour => b.minute * SECONDS_IN_MINUTE + b.second,
        TimeUnit::Day => b.hour * SECONDS_IN_HOUR + b.minute * SECONDS_IN_MINUTE + b.second,
        TimeUnit::Month => b.day * SECONDS_IN_DAY + b.hour * SECONDS_IN_HOUR + b.minute
            * SECONDS_IN_MINUTE + b.second,
        TimeUnit::Year => b.month * SECONDS_IN_MONTH + b.day * SECONDS_IN_DAY + b.hour
            * SECONDS_IN_HOUR + b.minute * SECONDS_IN_MINUTE + b.second,
    }
}

/// The share of the current `unit` that has elapsed at `b`, in percent.
pub open spec fn elapsed_percent(b: CalendarBreakdown, unit: TimeUnit) -> real {
    elapsed_seconds(b, unit) as real / unit.seconds() as real * 100real
}

/// The quotient that holds `elapsed_percent(b, unit)`: a hundred times the
/// elapsed seconds, over the length of the unit.
pub open spec fn exact_percent(b: CalendarBreakdown, unit: TimeUnit) -> Percent {
    Percent {
        numerator: (elapsed_seconds(b, unit) * 100) as u64,
        denominator: unit.seconds() as u64,
    }
}

/// The elapsed shares of the five units at one instant.
#[derive(Clone, Copy, Debug, PartialEq, Eq, Structural)]
pub struct PercentageSet {
    pub year: Percent,
    pub month: Percent,
    pub day: Percent,
    pub hour: Percent,
    pub minute: Percent,
}

impl PercentageSet {
    /// The share that belongs to `unit`.
    pub open spec fn spec_of(self, unit: TimeUnit) -> Percent {
        match unit {
            TimeUnit::Minute => self.minute,
            TimeUnit::Hour => self.hour,
            TimeUnit::Day => self.day,
            TimeUnit::Month => self.month,
            TimeUnit::Year => self.year,
        }
    }

    /// Each of the five shares has a value.
    pub open spec fn wf(self) -> bool {
        &&& self.year.wf()
        &&& self.month.wf()
        &&& self.day.wf()
        &&& self.hour.wf()
        &&& self.minute.wf()
    }

    /// The share that belongs to `unit`.
    #[verifier::when_used_as_spec(spec_of)]
    pub fn of(self, unit: TimeUnit) -> (r: Percent)
        ensures
            r == self.spec_of(unit),
    {
        match unit {
            TimeUnit::Minute => self.minute,
            TimeUnit::Hour => self.hour,
            TimeUnit::Day => self.day,
            TimeUnit::Month => self.month,
            TimeUnit::Year => self.year,
        }
    }
}

/// The five shares at `b`, each as the quotient of `exact_percent`.
pub open spec fn percentages_of(b: CalendarBreakdown) -> PercentageSet {
    PercentageSet {
        year: exact_percent(b, TimeUnit::Year),
        month: exact_percent(b, TimeUnit::Month),
        day: exact_percent(b, TimeUnit::Day),
        hour: exact_percent(b, TimeUnit::Hour),
        minute: exact_percent(b, TimeUnit::Minute),
    }
}

/// A hundred times `elapsed`, over `span`, is the share of `span` that
/// `elapsed` is, in percent.
proof fn lemma_quotient_value(elapsed: int, span: int)
    requires
        0 <= elapsed,
        elapsed * 100 <= u64::MAX,
        0 < span <= u64::MAX,
    ensures
        (Percent { numerator: (elapsed * 100) as u64, denominator: span as u64 }).value()
            == elapsed as real / span as real * 100real,
{
    let e = elapsed as real;
    let s = span as real;
    assert(((elapsed * 100) as u64) as real == e * 100real);
    assert((span as u64) as real == s);
    assert((e * 100real) / s == e / s * 100real) by (nonlinear_arith)
        requires
            s > 0real,
    ;
}

/// The quotient `exact_percent(b, unit)` fits its fields, and its value is
/// `elapsed_percent(b, unit)`.
pub proof fn lemma_exact_percent_value(b: CalendarBreakdown, unit: TimeUnit)
    ensures
        0 <= elapsed_seconds(b, unit),
        elapsed_seconds(b, unit) * 100 <= u64::MAX,
        exact_percent(b, unit).wf(),
        exact_percent(b, unit).value() == elapsed_percent(b, unit),
{
    lemma_quotient_value(elapsed_seconds(b, unit), unit.seconds());
}

/// The share of `span` that `elapsed` is compares with 100 percent as
/// `elapsed` compares with `span`, and is never negative.
proof fn lemma_share_bounds(elapsed: int, span: int)
    requires
        0 <= elapsed,
        0 < span,
    ensures
        0real <= elapsed as real / span as real * 100real,
        elapsed < span <==> elapsed as real / span as real * 100real < 100real,
        elapsed > span <==> elapsed as real / span as real * 100real > 100real,
{
    let e = elapsed as real;
    let s = span as real;
    assert(0real <= e / s * 100real && (e < s <==> e / s * 100real < 100real) && (e > s <==> e
        / s * 100real > 100real)) by (nonlinear_arith)
        requires
            0real <= e,
            0real < s,
    ;
}

/// No elapsed share is negative. While the seconds, the minutes and the
/// hours are within their natural ranges, the shares of the minute, the hour
/// and the day stay under 100 percent.
pub proof fn lemma_fine_units_below_hundred(b: CalendarBreakdown)
    ensures
        forall|unit: TimeUnit| 0real <= #[trigger] elapsed_percent(b, unit),
        b.second <= 59 ==> elapsed_percent(b, TimeUnit::Minute) < 100real,
        b.minute <= 59 && b.second <= 59 ==> elapsed_percent(b, TimeUnit::Hour) < 100real,
        b.hour <= 23 && b.minute <= 59 && b.second <= 59 ==> elapsed_percent(b, TimeUnit::Day)
            < 100real,
{
    assert forall|unit: TimeUnit| 0real <= #[trigger] elapsed_percent(b, unit) by {
        lemma_share_bounds(elapsed_seconds(b, unit), unit.seconds());
    }
    lemma_share_bounds(elapsed_seconds(b, TimeUnit::Minute), TimeUnit::Minute.seconds());
    lemma_share_bounds(elapsed_seconds(b, TimeUnit::Hour), TimeUnit::Hour.seconds());
    lemma_share_bounds(elapsed_seconds(b, TimeUnit::Day), TimeUnit::Day.seconds());
}

/// The fixed month is shorter than 31 days, and twelve fixed months are
/// over before the twelfth month has begun to count: on a 31st the share of
/// the month has passed 100 percent, and so has the share of the year from
/// the first day of the twelfth month on.
pub proof fn lemma_coarse_units_pass_hundred(b: CalendarBreakdown)
    ensures
        b.day >= 31 ==> elapsed_percent(b, TimeUnit::Month) > 100real,
        b.month >= 12 && b.day >= 1 ==> elapsed_percent(b, TimeUnit::Year) > 100real,
{
    lemma_share_bounds(elapsed_seconds(b, TimeUnit::Month), TimeUnit::Month.seconds());
    lemma_share_bounds(elapsed_seconds(b, TimeUnit::Year), TimeUnit::Year.seconds());
}

/// Each unit is a fixed number of the next finer one: 60 seconds, 60
/// minutes, 24 hours, 30.42 days and 12 months.
pub proof fn lemma_unit_lengths()
    ensures
        SECONDS_IN_MINUTE == 60,
        SECONDS_IN_HOUR == 60 * SECONDS_IN_MINUTE,
        SECONDS_IN_DAY == 24 * SECONDS_IN_HOUR,
        SECONDS_IN_MONTH * 100 == 3042 * SECONDS_IN_DAY,
        SECONDS_IN_YEAR == 12 * SECONDS_IN_MONTH,
{
}

/// The percentages depend on the breakdown alone: equal breakdowns have
/// equal percentages, quotient for quotient.
pub proof fn lemma_percentages_depend_on_breakdown_alone(a: CalendarBreakdown, b: CalendarBreakdown)
    requires
        a == b,
    ensures
        percentages_of(a) == percentages_of(b),
{
}

/// The share of `span` seconds that `elapsed` seconds are, in percent.
fn share(elapsed: u64, span: u64) -> (p: Percent)
    requires
        span > 0,
        elapsed * 100 <= u64::MAX,
    ensures
        p.numerator == elapsed * 100,
        p.denominator == span,
{
    Percent { numerator: elapsed * 100, denominator: span }
}

/// The elapsed share of each of the five units at `breakdown`.
///
/// The result is a function of the breakdown alone: the same breakdown gives
/// the same five quotients, whenever it is asked.
pub fn get_percentages(breakdown: CalendarBreakdown) -> (p: PercentageSet)
    ensures
        p == percentages_of(breakdown),
        p.wf(),
        p.minute.value() == elapsed_percent(breakdown, TimeUnit::Minute),
        p.hour.value() == elapsed_percent(breakdown, TimeUnit::Hour),
        p.day.value() == elapsed_percent(breakdown, TimeUnit::Day),
        p.month.value() == elapsed_percent(breakdown, TimeUnit::Month),
        p.year.value() == elapsed_percent(breakdown, TimeUnit::Year),
        breakdown.second <= 59 ==> 0real <= p.minute.value() < 100real,
{
    // amounts in seconds
    let seconds: u64 = breakdown.second as u64;
    let minutes: u64 = breakdown.minute as u64 * SECONDS_IN_MINUTE;
    let hours: u64 = breakdown.hour as u64 * SECONDS_IN_HOUR;
    let days: u64 = breakdown.day as u64 * SECONDS_IN_DAY;
    let months: u64 = breakdown.month as u64 * SECONDS_IN_MONTH;

    proof {
        lemma_fine_units_below_hundred(breakdown);
        lemma_exact_percent_value(breakdown, TimeUnit::Minute);
        lemma_exact_percent_value(breakdown, TimeUnit::Hour);
        lemma_exact_percent_value(breakdown, TimeUnit::Day);
        lemma_exact_percent_value(breakdown, TimeUnit::Month);
        lemma_exact_percent_value(breakdown, TimeUnit::Year);
    }

    let minute = share(seconds, SECONDS_IN_MINUTE);
    let hour = share(minutes + seconds, SECONDS_IN_HOUR);
    let day = share(hours + minutes + seconds, SECONDS_IN_DAY);
    let month = share(days + hours + minutes + seconds, SECONDS_IN_MONTH);
    let year = share(months + days + hours + minutes + seconds, SECONDS_IN_YEAR);

    PercentageSet { year, month, day, hour, minute }
}

} // verus!

