//! The text of a report: a header row, one row for each entry, the totals.

use vstd::prelude::*;
use vstd::string::*;
use crate::decimal::{decimal_text, normalize, round_dp};
use crate::report::{ReportRow, Totals};
use crate::time::{chrono_text, full_format, IntoHuman};

verus! {

/// The fewest fractional digits that the average price is rounded to.
pub const AVG_PRICE_MIN_DECIMALS: u32 = 8;

/// The header row of a report for `symbol`.
pub open spec fn header_line(symbol: Seq<char>) -> Seq<char> {
    "Date,Value,"@ + symbol + ",Fiat gain\n"@
}

/// One row of a report: the time, the amount, the price and the fiat gain,
/// each number in its shortest form.
pub open spec fn row_line(row: ReportRow) -> Seq<char> {
    chrono_text(row.timestamp@, full_format()) + ","@ + decimal_text(row.amount@.normalized())
        + ","@ + decimal_text(row.conversion_rate@.normalized()) + ","@ + decimal_text(
        row.fiat_gain@.normalized(),
    ) + "\n"@
}

/// The rows of a report, one after the other.
pub open spec fn rows_text(rows: Seq<ReportRow>) -> Seq<char>
    decreases rows.len(),
{
    if rows.len() == 0 {
        Seq::empty()
    } else {
        rows_text(rows.drop_last()) + row_line(rows.last())
    }
}

/// The number of fractional digits that the average price is rounded to: as
/// many as the total amount or the total fiat gain has in its shortest form,
/// and eight at least.
pub open spec fn average_places(totals: Totals) -> nat {
    let amount_places = totals.total_amount@.normalized().scale;
    let gain_places = totals.total_fiat_gain@.normalized().scale;
    let most = if amount_places >= gain_places {
        amount_places
    } else {
        gain_places
    };
    if most >= 8 {
        most
    } else {
        8
    }
}

/// The average price is shown with eight fractional digits at least, and
/// with no fewer than the total amount and the total fiat gain are shown with.
pub proof fn lemma_average_places(totals: Totals)
    ensures
        average_places(totals) >= 8,
        average_places(totals) >= totals.total_amount@.normalized().scale,
        average_places(totals) >= totals.total_fiat_gain@.normalized().scale,
        average_places(totals) == 8 || average_places(totals)
            == totals.total_amount@.normalized().scale || average_places(totals)
            == totals.total_fiat_gain@.normalized().scale,
{
}

/// The last row of a report: the total amount, the rounded average price and
/// the total fiat gain, each in its shortest form.
pub open spec fn totals_line(totals: Totals) -> Seq<char> {
    "TOTAL,"@ + decimal_text(totals.total_amount@.normalized()) + ","@ + decimal_text(
        totals.average_rate@.rounded(average_places(totals)).normalized(),
    ) + ","@ + decimal_text(totals.total_fiat_gain@.normalized()) + "\n"@
}

/// The text of a report: header, rows, totals.
pub open spec fn report_text(rows: Seq<ReportRow>, totals: Totals, symbol: Seq<char>) -> Seq<char> {
    header_line(symbol) + rows_text(rows) + totals_line(totals)
}

/// Writes one row.
fn write_row(row: &ReportRow) -> (result: String)
    ensures
        result@ == row_line(*row),
{
    let mut line = row.timestamp.into_human();
    line.append(",");
    line.append(row.amount.to_normalized_text().as_str());
    line.append(",");
    line.append(row.conversion_rate.to_normalized_text().as_str());
    line.append(",");
    line.append(row.fiat_gain.to_normalized_text().as_str());
    line.append("\n");
    line
}

/// Writes the totals.
fn write_totals(totals: &Totals) -> (result: String)
    ensures
        result@ == totals_line(*totals),
{
    let total_amount = normalize(totals.total_amount);
    let total_fiat_gain = normalize(totals.total_fiat_gain);
    let amount_places = total_amount.scale();
    let gain_places = total_fiat_gain.scale();
    let most = if amount_places >= gain_places {
        amount_places
    } else {
        gain_places
    };
    let places = if most >= AVG_PRICE_MIN_DECIMALS {
        most
    } else {
        AVG_PRICE_MIN_DECIMALS
    };
    let average_rate = round_dp(totals.average_rate, places);
    let mut line = String::from_str("TOTAL,");
    line.append(totals.total_amount.to_normalized_text().as_str());
    line.append(",");
    line.append(average_rate.to_normalized_text().as_str());
    line.append(",");
    line.append(totals.total_fiat_gain.to_normalized_text().as_str());
    line.append("\n");
    line
}

/// Writes the report as CSV text: a header row, one row for each entry, and
/// a last row with the totals.
pub fn write_output(report: &Vec<ReportRow>, totals: &Totals, symbol: &str) -> (result: String)
    ensures
        result@ == report_text(report@, *totals, symbol@),
{
    let mut text = String::from_str("Date,Value,");
    text.append(symbol);
    text.append(",Fiat gain\n");
    let mut i: usize = 0;
    while i < report.len()
        invariant
            i <= report.len(),
            text@ == header_line(symbol@) + rows_text(report@.take(i as int)),
        decreases report.len() - i,
    {
        let line = write_row(&report[i]);
        proof {
            let next = report@.take(i as int + 1);
            assert(next.drop_last() =~= report@.take(i as int));
        }
        text.append(line.as_str());
        i += 1;
    }
    proof {
        assert(report@.take(report.len() as int) =~= report@);
    }
    text.append(write_totals(totals).as_str());
    text
}

} // verus!
