//! Reward entries, report rows and totals: the range filter, the fiat gain
//! of a row, and the sums over a report.

use vstd::prelude::*;
use crate::decimal::{
    checked_add,
    checked_div,
    checked_mul,
    decimal_product,
    decimal_quotient,
    decimal_sum,
    value_of,
    Decimal,
    DecimalValue,
};
use crate::price::PriceError;
use crate::time::TimePoint;

verus! {

/// One reward: when it was paid and how much.
#[derive(Clone, Copy, Debug, PartialEq, Eq)]
pub struct RewardEntry {
    pub timestamp: TimePoint,
    pub amount: Decimal,
}

/// One reward with its fiat value at the time it was paid.
#[derive(Clone, Copy, Debug, PartialEq, Eq)]
pub struct ReportRow {
    pub timestamp: TimePoint,
    pub amount: Decimal,
    pub conversion_rate: Decimal,
    pub fiat_gain: Decimal,
}

/// The sums over a report, and the price averaged by volume.
#[derive(Clone, Copy, Debug, PartialEq, Eq)]
pub struct Totals {
    pub total_amount: Decimal,
    pub average_rate: Decimal,
    pub total_fiat_gain: Decimal,
}

/// Why no report could be made.
#[derive(Debug)]
pub enum ReportError {
    /// The input is not CSV that the reader accepts.
    UnreadableCsv { message: String },
    /// The header row lacks a column.
    MissingColumn { name: String },
    /// A data row ends before the last column that is needed.
    RowTooShort { row: usize },
    /// A date is in none of the accepted formats.
    InvalidDateFormat { row: usize, text: String },
    /// An amount is not a number, or is negative.
    NumericParseError { row: usize, text: String },
    /// The price lookup for the entry at `timestamp` failed.
    Lookup { timestamp: TimePoint, cause: PriceError },
    /// A product, a sum or the average does not fit a decimal.
    Overflow,
}

/// Whether an entry at `at` lies in the range: not before `begin`, which is
/// inclusive, and before `end`, which is exclusive. A missing bound leaves
/// that side open.
pub open spec fn in_range(at: TimePoint, begin: Option<TimePoint>, end: Option<TimePoint>) -> bool {
    &&& begin matches Some(first) ==> !at@.before(first@)
    &&& end matches Some(limit) ==> at@.before(limit@)
}

/// Keeps the entries that lie in the range, in their order.
pub fn filter_range(input: Vec<RewardEntry>, begin: Option<TimePoint>, end: Option<TimePoint>) -> (result:
    Vec<RewardEntry>)
    ensures
        result@ == input@.filter(|entry: RewardEntry| in_range(entry.timestamp, begin, end)),
{
    let ghost keep = |entry: RewardEntry| in_range(entry.timestamp, begin, end);
    let mut selected: Vec<RewardEntry> = Vec::new();
    let mut i: usize = 0;
    while i < input.len()
        invariant
            i <= input.len(),
            keep == |entry: RewardEntry| in_range(entry.timestamp, begin, end),
            selected@ == input@.take(i as int).filter(keep),
        decreases input.len() - i,
    {
        let entry = input[i];
        let after_begin = match &begin {
            Some(first) => !entry.timestamp.is_before(first),
            None => true,
        };
        let before_end = match &end {
            Some(limit) => entry.timestamp.is_before(limit),
            None => true,
        };
        proof {
            assert(input@.take(i as int + 1) =~= input@.take(i as int).push(entry));
            input@.take(i as int).lemma_filter_push(entry, keep);
        }
        if after_begin && before_end {
            selected.push(entry);
        }
        i += 1;
    }
    proof {
        assert(input@.take(input.len() as int) =~= input@);
    }
    selected
}

/// The range is half open: an entry at `begin` is kept where the end allows
/// it, and an entry at `end` is dropped.
pub proof fn lemma_range_is_half_open(at: TimePoint, begin: Option<TimePoint>, end: Option<TimePoint>)
    ensures
        begin == Some(at) ==> (in_range(at, begin, end) <==> (end matches Some(limit) ==> at@.before(
            limit@,
        ))),
        end == Some(at) ==> !in_range(at, begin, end),
{
}

/// The filter keeps nothing that is out of range and everything that is in
/// range.
pub proof fn lemma_filter_keeps_the_range(
    input: Seq<RewardEntry>,
    begin: Option<TimePoint>,
    end: Option<TimePoint>,
)
    ensures
        ({
            let kept = input.filter(|entry: RewardEntry| in_range(entry.timestamp, begin, end));
            &&& kept.len() <= input.len()
            &&& forall|i: int| 0 <= i < kept.len() ==> in_range((#[trigger] kept[i]).timestamp, begin, end)
            &&& forall|i: int|
                0 <= i < input.len() && in_range((#[trigger] input[i]).timestamp, begin, end)
                    ==> kept.contains(input[i])
        }),
{
    broadcast use vstd::seq_lib::group_filter_ensures;

    let keep = |entry: RewardEntry| in_range(entry.timestamp, begin, end);
    let kept = input.filter(keep);
    assert forall|i: int| 0 <= i < kept.len() implies in_range(
        (#[trigger] kept[i]).timestamp,
        begin,
        end,
    ) by {
    }
    assert forall|i: int|
        0 <= i < input.len() && in_range((#[trigger] input[i]).timestamp, begin, end) implies kept.contains(
        input[i],
    ) by {
    }
}

impl ReportRow {
    /// The row for `entry` at the price `conversion_rate`: the fiat gain is
    /// the amount times the price. `None` where the product does not fit.
    pub fn new(entry: RewardEntry, conversion_rate: Decimal) -> (result: Option<ReportRow>)
        ensures
            match result {
                Some(row) => {
                    &&& row.timestamp == entry.timestamp
                    &&& row.amount == entry.amount
                    &&& row.conversion_rate == conversion_rate
                    &&& decimal_product(entry.amount@, conversion_rate@) == Some(row.fiat_gain@)
                },
                None => decimal_product(entry.amount@, conversion_rate@) is None,
            },
    {
        match checked_mul(entry.amount, conversion_rate) {
            Some(fiat_gain) => Some(
                ReportRow {
                    timestamp: entry.timestamp,
                    amount: entry.amount,
                    conversion_rate,
                    fiat_gain,
                },
            ),
            None => None,
        }
    }
}

/// The sum of `values`, added from the first to the last, starting at zero;
/// `None` as soon as a sum does not fit.
pub open spec fn sum_of(values: Seq<DecimalValue>) -> Option<DecimalValue>
    decreases values.len(),
{
    if values.len() == 0 {
        Some(DecimalValue::zero())
    } else {
        match sum_of(values.drop_last()) {
            Some(sum) => decimal_sum(sum, values.last()),
            None => None,
        }
    }
}

/// The amounts of a report.
pub open spec fn amounts(report: Seq<ReportRow>) -> Seq<DecimalValue> {
    report.map_values(|row: ReportRow| row.amount@)
}

/// The fiat gains of a report.
pub open spec fn fiat_gains(report: Seq<ReportRow>) -> Seq<DecimalValue> {
    report.map_values(|row: ReportRow| row.fiat_gain@)
}

/// The average price, weighted by volume: the total fiat gain divided by the
/// total amount, and zero where the total amount is zero.
pub open spec fn average_of(total_fiat_gain: DecimalValue, total_amount: DecimalValue) -> Option<
    DecimalValue,
> {
    if total_amount.is_zero() {
        Some(DecimalValue::zero())
    } else {
        decimal_quotient(total_fiat_gain, total_amount)
    }
}

/// With a total amount of zero the average price is zero, whatever the total
/// fiat gain: nothing is divided.
pub proof fn lemma_zero_amount_zero_average(total_fiat_gain: DecimalValue, total_amount: DecimalValue)
    requires
        total_amount.is_zero(),
    ensures
        average_of(total_fiat_gain, total_amount) == Some(DecimalValue::zero()),
{
}

/// Whether the totals of `report` fit: both sums and the average.
pub open spec fn totals_fit(report: Seq<ReportRow>) -> bool {
    &&& sum_of(amounts(report)) matches Some(total_amount)
    &&& sum_of(fiat_gains(report)) matches Some(total_fiat_gain)
    &&& average_of(total_fiat_gain, total_amount) is Some
}

/// Adds up `values[..]` as `sum_of` does.
fn sum_amounts(report: &Vec<ReportRow>, fiat: bool) -> (result: Option<Decimal>)
    ensures
        value_of(result) == sum_of(
            if fiat {
                fiat_gains(report@)
            } else {
                amounts(report@)
            },
        ),
{
    let ghost values = if fiat {
        fiat_gains(report@)
    } else {
        amounts(report@)
    };
    let mut sum = Decimal::zero();
    let mut i: usize = 0;
    while i < report.len()
        invariant
            i <= report.len(),
            values.len() == report.len(),
            values == if fiat {
                fiat_gains(report@)
            } else {
                amounts(report@)
            },
            sum_of(values.take(i as int)) == Some(sum@),
        decreases report.len() - i,
    {
        let value = if fiat {
            report[i].fiat_gain
        } else {
            report[i].amount
        };
        proof {
            let next = values.take(i as int + 1);
            assert(next.drop_last() =~= values.take(i as int));
        }
        match checked_add(sum, value) {
            Some(next) => {
                sum = next;
            },
            None => {
                proof {
                    lemma_sum_stays_none(values, i as int + 1);
                }
                return None;
            },
        }
        i += 1;
    }
    proof {
        assert(values.take(report.len() as int) =~= values);
    }
    Some(sum)
}

/// Once a sum does not fit, no longer sum does.
proof fn lemma_sum_stays_none(values: Seq<DecimalValue>, n: int)
    requires
        0 <= n <= values.len(),
        sum_of(values.take(n)) is None,
    ensures
        sum_of(values) is None,
    decreases values.len() - n,
{
    if n < values.len() {
        let next = values.take(n + 1);
        assert(next.drop_last() =~= values.take(n));
        lemma_sum_stays_none(values, n + 1);
    } else {
        assert(values.take(n) =~= values);
    }
}

/// Adds up the amounts and the fiat gains and computes the average price,
/// weighted by volume. With a total amount of zero the average is zero.
pub fn calculate_totals(report: &Vec<ReportRow>) -> (result: Result<Totals, ReportError>)
    ensures
        match result {
            Ok(totals) => {
                &&& sum_of(amounts(report@)) == Some(totals.total_amount@)
                &&& sum_of(fiat_gains(report@)) == Some(totals.total_fiat_gain@)
                &&& average_of(totals.total_fiat_gain@, totals.total_amount@) == Some(
                    totals.average_rate@,
                )
            },
            Err(error) => error is Overflow && !totals_fit(report@),
        },
{
    let total_amount = match sum_amounts(report, false) {
        Some(sum) => sum,
        None => { return Err(ReportError::Overflow); },
    };
    let total_fiat_gain = match sum_amounts(report, true) {
        Some(sum) => sum,
        None => { return Err(ReportError::Overflow); },
    };
    let average_rate = if !total_amount.is_zero() {
        match checked_div(total_fiat_gain, total_amount) {
            Some(quotient) => quotient,
            None => { return Err(ReportError::Overflow); },
        }
    } else {
        Decimal::zero()
    };
    Ok(Totals { total_amount, average_rate, total_fiat_gain })
}

} // verus!
