//! Reward entries from the text of a CSV file, taken apart by `csv`.

use vstd::prelude::*;
use vstd::string::*;
use crate::decimal::{decimal_from_text, value_of, Decimal, DecimalValue};
use crate::report::{ReportError, RewardEntry};
use crate::time::{human_instant, TimePoint, TryFromHuman};

verus! {

/// A CSV text as the reader takes it apart: the fields of the header row and
/// those of each data row.
pub struct TableValue {
    pub headers: Seq<Seq<char>>,
    pub records: Seq<Seq<Seq<char>>>,
}

/// The table that `csv` reads from a text, with the first row as the
/// header; `None` where it reports an error.
pub uninterp spec fn csv_table(text: Seq<char>) -> Option<TableValue>;

/// The name of the column that holds the dates.
pub open spec fn date_column_name() -> Seq<char> {
    "Date"@
}

/// The name of the column that holds the amounts.
pub open spec fn value_column_name() -> Seq<char> {
    "Value"@
}

/// Whether `at` is the first position at which `headers` holds `name`.
pub open spec fn is_first_position(headers: Seq<Seq<char>>, name: Seq<char>, at: int) -> bool {
    &&& 0 <= at < headers.len()
    &&& headers[at] == name
    &&& forall|before: int| 0 <= before < at ==> headers[before] != name
}

/// The first position at which `headers` holds `name`, exactly as written.
pub open spec fn column_of(headers: Seq<Seq<char>>, name: Seq<char>) -> Option<int> {
    if exists|at: int| is_first_position(headers, name, at) {
        Some(choose|at: int| is_first_position(headers, name, at))
    } else {
        None
    }
}

/// What is wrong with a data row.
#[derive(Clone, Copy, Debug, PartialEq, Eq)]
pub enum RowFault {
    TooShort,
    InvalidDate,
    InvalidAmount,
}

/// The amount that a text stands for: a number that is not negative.
pub open spec fn amount_of(text: Seq<char>) -> Option<DecimalValue> {
    match decimal_from_text(text) {
        Some(value) => if value.mantissa >= 0 {
            Some(value)
        } else {
            None
        },
        None => None,
    }
}

/// The first thing that is wrong with a data row, if anything is: the row is
/// checked for its length, then for its date, then for its amount.
pub open spec fn row_fault(row: Seq<Seq<char>>, date: int, value: int) -> Option<RowFault> {
    if row.len() <= date || row.len() <= value {
        Some(RowFault::TooShort)
    } else if human_instant(row[date]) is None {
        Some(RowFault::InvalidDate)
    } else if amount_of(row[value]) is None {
        Some(RowFault::InvalidAmount)
    } else {
        None
    }
}

/// Whether `entry` is what the row says.
pub open spec fn reads_as(entry: RewardEntry, row: Seq<Seq<char>>, date: int, value: int) -> bool {
    &&& human_instant(row[date]) == Some(entry.timestamp@)
    &&& amount_of(row[value]) == Some(entry.amount@)
}

/// Whether `row` is the first data row with a fault, and `fault` is what is
/// wrong with it.
pub open spec fn first_fault(
    records: Seq<Seq<Seq<char>>>,
    date: int,
    value: int,
    row: int,
    fault: RowFault,
) -> bool {
    &&& 0 <= row < records.len()
    &&& row_fault(records[row], date, value) == Some(fault)
    &&& forall|before: int| 0 <= before < row ==> row_fault(#[trigger] records[before], date, value) is None
}

/// What reading a table gives.
///
/// Without a `Date` column the result is `MissingColumn` for `Date`; with it
/// and without a `Value` column, `MissingColumn` for `Value`. Otherwise the
/// first faulty row decides the error, which carries the row's number and the
/// text that was refused; and where no row is faulty there is one entry for
/// each row, in the rows' order.
pub open spec fn input_outcome(
    headers: Seq<Seq<char>>,
    records: Seq<Seq<Seq<char>>>,
    result: Result<Vec<RewardEntry>, ReportError>,
) -> bool {
    match column_of(headers, date_column_name()) {
        None => result matches Err(ReportError::MissingColumn { name }) && name@ == date_column_name(),
        Some(date) => match column_of(headers, value_column_name()) {
            None => result matches Err(ReportError::MissingColumn { name }) && name@
                == value_column_name(),
            Some(value) => match result {
                Ok(entries) => {
                    &&& entries@.len() == records.len()
                    &&& forall|row: int|
                        0 <= row < records.len() ==> {
                            &&& row_fault(#[trigger] records[row], date, value) is None
                            &&& reads_as(entries@[row], records[row], date, value)
                        }
                },
                Err(ReportError::RowTooShort { row }) => first_fault(
                    records,
                    date,
                    value,
                    row as int,
                    RowFault::TooShort,
                ),
                Err(ReportError::InvalidDateFormat { row, text }) => {
                    &&& first_fault(records, date, value, row as int, RowFault::InvalidDate)
                    &&& text@ == records[row as int][date]
                },
                Err(ReportError::NumericParseError { row, text }) => {
                    &&& first_fault(records, date, value, row as int, RowFault::InvalidAmount)
                    &&& text@ == records[row as int][value]
                },
                Err(_) => false,
            },
        },
    }
}

/// Finds the first column with the given name.
fn find_column(headers: &Vec<String>, name: &str) -> (result: Option<usize>)
    ensures
        match result {
            Some(at) => column_of(headers.deep_view(), name@) == Some(at as int) && at
                < headers.len(),
            None => column_of(headers.deep_view(), name@) is None,
        },
{
    let wanted = String::from_str(name);
    let ghost fields = headers.deep_view();
    let mut at: usize = 0;
    while at < headers.len()
        invariant
            at <= headers.len(),
            fields == headers.deep_view(),
            wanted@ == name@,
            forall|before: int| 0 <= before < at ==> fields[before] != name@,
        decreases headers.len() - at,
    {
        if headers[at] == wanted {
            proof {
                lemma_first_position_unique(fields, name@, at as int);
            }
            return Some(at);
        }
        at += 1;
    }
    None
}

/// A name has at most one first position.
proof fn lemma_first_position_unique(headers: Seq<Seq<char>>, name: Seq<char>, at: int)
    requires
        is_first_position(headers, name, at),
    ensures
        column_of(headers, name) == Some(at),
{
}

/// Reads an amount: a number that is not negative.
fn parse_amount(text: &str) -> (result: Option<Decimal>)
    ensures
        value_of(result) == amount_of(text@),
{
    match Decimal::from_str_exact(text) {
        Ok(value) => if value.mantissa() >= 0 {
            Some(value)
        } else {
            None
        },
        Err(_) => None,
    }
}

/// Turns the rows of a table into reward entries. The dates are in the
/// column named `Date`, the amounts in the column named `Value`; where a name
/// occurs twice, its first column counts.
pub fn entries_from_rows(headers: &Vec<String>, records: &Vec<Vec<String>>) -> (result: Result<
    Vec<RewardEntry>,
    ReportError,
>)
    ensures
        input_outcome(headers.deep_view(), records.deep_view(), result),
{
    let date_column = match find_column(headers, "Date") {
        Some(at) => at,
        None => { return Err(ReportError::MissingColumn { name: String::from_str("Date") }); },
    };
    let value_column = match find_column(headers, "Value") {
        Some(at) => at,
        None => { return Err(ReportError::MissingColumn { name: String::from_str("Value") }); },
    };
    let ghost rows = records.deep_view();
    let ghost date = date_column as int;
    let ghost value = value_column as int;
    let mut entries: Vec<RewardEntry> = Vec::new();
    let mut row: usize = 0;
    while row < records.len()
        invariant
            row <= records.len(),
            rows == records.deep_view(),
            date == date_column as int,
            value == value_column as int,
            column_of(headers.deep_view(), date_column_name()) == Some(date),
            column_of(headers.deep_view(), value_column_name()) == Some(value),
            entries@.len() == row,
            forall|before: int|
                0 <= before < row ==> {
                    &&& row_fault(#[trigger] rows[before], date, value) is None
                    &&& reads_as(entries@[before], rows[before], date, value)
                },
        decreases records.len() - row,
    {
        let record = &records[row];
        if record.len() <= date_column || record.len() <= value_column {
            return Err(ReportError::RowTooShort { row });
        }
        let timestamp = match TimePoint::try_from_human(record[date_column].as_str()) {
            Ok(timestamp) => timestamp,
            Err(error) => { return Err(ReportError::InvalidDateFormat { row, text: error.text }); },
        };
        let value_str = record[value_column].as_str();
        let amount = match parse_amount(value_str) {
            Some(amount) => amount,
            None => {
                return Err(
                    ReportError::NumericParseError { row, text: String::from_str(value_str) },
                );
            },
        };
        entries.push(RewardEntry { timestamp, amount });
        row += 1;
    }
    Ok(entries)
}

/// Reads reward entries from the text of a CSV file with a header row.
pub fn read_input(text: &str) -> (result: Result<Vec<RewardEntry>, ReportError>)
    ensures
        match csv_table(text@) {
            Some(table) => input_outcome(table.headers, table.records, result),
            None => result matches Err(ReportError::UnreadableCsv { .. }),
        },
{
    match read_csv(text) {
        Ok((headers, records)) => entries_from_rows(&headers, &records),
        Err(message) => Err(ReportError::UnreadableCsv { message }),
    }
}

/// `csv::Reader` over a text: the header row of `csv::Reader::headers` and
/// the data rows of `csv::Reader::records`, each field as a string. Where
/// the crate reports an error, its message.
#[verifier::external_body]
fn read_csv(text: &str) -> (result: Result<(Vec<String>, Vec<Vec<String>>), String>)
    ensures
        match result {
            Ok((headers, records)) => csv_table(text@) == Some(
                TableValue { headers: headers.deep_view(), records: records.deep_view() },
            ),
            Err(_) => csv_table(text@) is None,
        },
{
    let mut reader = csv::Reader::from_reader(text.as_bytes());
    let headers = reader.headers().map_err(|e| e.to_string())?.iter().map(String::from).collect();
    let records = reader.records().map(
        |record| match record {
            Ok(fields) => Ok(fields.iter().map(String::from).collect()),
            Err(e) => Err(e.to_string()),
        },
    ).collect::<Result<Vec<Vec<String>>, String>>()?;
    Ok((headers, records))
}

} // verus!
