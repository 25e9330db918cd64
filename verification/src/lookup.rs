//! The making of a report, one price lookup at a time.
//!
//! The library never sends a request. [`process`] and [`Lookup::supply`]
//! say which address to ask next; the caller asks it and hands the reply
//! back, until the report is done or has failed.

use vstd::prelude::*;
use vstd::string::*;
use crate::decimal::{decimal_product, Decimal, DecimalValue};
use crate::price::{
    kline_url,
    minute_start_ms,
    price_outcome,
    reply_price,
    HttpResponse,
    PriceClient,
    PriceError,
    TransportFailure,
};
use crate::report::{ReportError, ReportRow, RewardEntry};
use crate::time::TimePoint;

verus! {

/// Whether `row` is the row of `entry`: the same time and amount, and a fiat
/// gain that is the amount times the row's price.
pub open spec fn made_from(row: ReportRow, entry: RewardEntry) -> bool {
    &&& row.timestamp == entry.timestamp
    &&& row.amount == entry.amount
    &&& decimal_product(entry.amount@, row.conversion_rate@) == Some(row.fiat_gain@)
}

/// Whether the rows are those of the first entries, one for one and in order.
pub open spec fn rows_made_from(rows: Seq<ReportRow>, entries: Seq<RewardEntry>) -> bool {
    &&& rows.len() <= entries.len()
    &&& forall|i: int| 0 <= i < rows.len() ==> made_from(#[trigger] rows[i], entries[i])
}

/// A report in the making, waiting for the reply to one price request.
///
/// The entries are priced in their order, one request at a time. The rows of
/// the entries before the one that waits are kept; there is always an entry
/// that waits.
#[derive(Debug)]
pub struct Lookup {
    symbol: String,
    entries: Vec<RewardEntry>,
    rows: Vec<ReportRow>,
}

/// Where the making of a report stands.
#[derive(Debug)]
pub enum Progress {
    /// A price has to be fetched before the work can go on.
    Pending(Lookup),
    /// Every entry has its row.
    Done(Vec<ReportRow>),
    /// The work was given up. No row is handed out.
    Failed(ReportError),
}

impl Lookup {
    #[verifier::type_invariant]
    spec fn well_formed(&self) -> bool {
        &&& self.rows@.len() < self.entries@.len()
        &&& rows_made_from(self.rows@, self.entries@)
    }

    /// The trading pair whose prices are looked up.
    pub closed spec fn symbol(&self) -> Seq<char> {
        self.symbol@
    }

    /// All entries of the report.
    pub closed spec fn entries(&self) -> Seq<RewardEntry> {
        self.entries@
    }

    /// The rows made so far.
    pub closed spec fn rows(&self) -> Seq<ReportRow> {
        self.rows@
    }

    /// The entry whose price is waited for.
    pub open spec fn waiting(&self) -> RewardEntry {
        self.entries()[self.rows().len() as int]
    }

    /// How many entries have their row, and how many entries there are.
    pub fn position(&self) -> (result: (usize, usize))
        ensures
            result.0 == self.rows().len(),
            result.1 == self.entries().len(),
            result.0 < result.1,
            rows_made_from(self.rows(), self.entries()),
    {
        proof {
            use_type_invariant(self);
        }
        (self.rows.len(), self.entries.len())
    }

    /// The time of the entry whose price is waited for.
    pub fn timestamp(&self) -> (result: TimePoint)
        ensures
            result == self.waiting().timestamp,
    {
        proof {
            use_type_invariant(self);
        }
        self.entries[self.rows.len()].timestamp
    }

    /// The address to send one GET request to.
    pub fn url(&self) -> (result: String)
        ensures
            result@ == kline_url(self.symbol(), self.waiting().timestamp@),
    {
        proof {
            use_type_invariant(self);
        }
        let entry = &self.entries[self.rows.len()];
        PriceClient::new().request_url(self.symbol.as_str(), &entry.timestamp)
    }

    /// Takes the reply to the request and goes on.
    pub fn supply(self, reply: Result<HttpResponse, TransportFailure>) -> (result: Progress)
        ensures
            supply_outcome(self, reply, result),
    {
        proof {
            use_type_invariant(&self);
        }
        let timestamp = self.entries[self.rows.len()].timestamp;
        let mut client = PriceClient::new();
        let price = client.price(self.symbol.as_str(), timestamp, reply);
        self.supply_price(price)
    }

    /// Takes the outcome of the price lookup for the entry that waits, and
    /// goes on. This is the step for a caller that has the price from
    /// elsewhere than a reply.
    pub fn supply_price(self, price: Result<Decimal, PriceError>) -> (result: Progress)
        ensures
            price_step(self, price, result),
    {
        proof {
            use_type_invariant(&self);
        }
        let ghost before = self;
        let symbol = self.symbol;
        let entries = self.entries;
        let mut rows = self.rows;
        let entry = entries[rows.len()];
        let rate = match price {
            Ok(rate) => rate,
            Err(cause) => {
                return Progress::Failed(ReportError::Lookup { timestamp: entry.timestamp, cause });
            },
        };
        let row = match ReportRow::new(entry, rate) {
            Some(row) => row,
            None => { return Progress::Failed(ReportError::Overflow); },
        };
        rows.push(row);
        assert(rows@.take(rows@.len() - 1) =~= before.rows());
        if rows.len() == entries.len() {
            Progress::Done(rows)
        } else {
            Progress::Pending(Lookup { symbol, entries, rows })
        }
    }
}

/// What the outcome of a price lookup leads to.
///
/// A failed lookup fails the work with `Lookup`, which carries the time of
/// the entry that waits and the lookup's error. With a price, the entry's row
/// is made at that price; a fiat gain that does not fit fails the work with
/// `Overflow`. The row is added to those made so far; after the last entry
/// the rows are handed out, before it the next entry waits.
pub open spec fn price_step(before: Lookup, price: Result<Decimal, PriceError>, result: Progress) -> bool {
    let entry = before.waiting();
    match price {
        Err(cause) => {
            &&& result matches Progress::Failed(ReportError::Lookup { timestamp, cause: handed })
            &&& timestamp == entry.timestamp
            &&& handed == cause
        },
        Ok(rate) => row_step(before, rate@, result),
    }
}

/// What a price leads to.
pub open spec fn row_step(before: Lookup, rate: DecimalValue, result: Progress) -> bool {
    let entry = before.waiting();
    match decimal_product(entry.amount@, rate) {
        None => result matches Progress::Failed(ReportError::Overflow),
        Some(gain) => if before.rows().len() + 1 == before.entries().len() {
            &&& result matches Progress::Done(rows)
            &&& extended(before.rows(), rows@, entry, rate)
            &&& rows@.len() == before.entries().len()
            &&& rows_made_from(rows@, before.entries())
        } else {
            &&& result matches Progress::Pending(next)
            &&& extended(before.rows(), next.rows(), entry, rate)
            &&& next.entries() == before.entries()
            &&& next.symbol() == before.symbol()
        },
    }
}

/// What a reply leads to.
///
/// Where the reply gives no price for the minute of the entry that waits, the
/// work fails with `Lookup`, which carries that entry's time and the price
/// lookup's error. Where it gives one, the work goes on with that price.
pub open spec fn supply_outcome(
    before: Lookup,
    reply: Result<HttpResponse, TransportFailure>,
    result: Progress,
) -> bool {
    let entry = before.waiting();
    match reply_price(reply, minute_start_ms(entry.timestamp@) as i64) {
        None => {
            &&& result matches Progress::Failed(ReportError::Lookup { timestamp, cause })
            &&& timestamp == entry.timestamp
            &&& price_outcome(before.symbol(), entry.timestamp@, reply, Err(cause))
        },
        Some(rate) => row_step(before, rate, result),
    }
}

/// A reply that gives no price ends the work: the outcome is `Failed`, which
/// holds no row, neither the rows made before nor any other.
pub proof fn lemma_failed_lookup_gives_no_rows(
    before: Lookup,
    reply: Result<HttpResponse, TransportFailure>,
    result: Progress,
)
    requires
        supply_outcome(before, reply, result),
        reply_price(
            reply,
            minute_start_ms(before.waiting().timestamp@) as i64,
        ) is None,
    ensures
        result is Failed,
{
}

/// Whether `after` is `before` with the row of `entry` at the price `rate`
/// added at its end.
pub open spec fn extended(
    before: Seq<ReportRow>,
    after: Seq<ReportRow>,
    entry: RewardEntry,
    rate: DecimalValue,
) -> bool {
    &&& after.len() == before.len() + 1
    &&& after.take(before.len() as int) == before
    &&& made_from(after.last(), entry)
    &&& after.last().conversion_rate@ == rate
}

/// Starts a report for `input`, with the prices of `symbol`. Without entries
/// the report is done at once; else the first entry waits for its price.
pub fn process(input: Vec<RewardEntry>, symbol: &str) -> (result: Progress)
    ensures
        if input@.len() == 0 {
            result matches Progress::Done(rows) && rows@.len() == 0
        } else {
            &&& result matches Progress::Pending(lookup)
            &&& lookup.entries() == input@
            &&& lookup.rows().len() == 0
            &&& lookup.symbol() == symbol@
        },
{
    if input.len() == 0 {
        Progress::Done(Vec::new())
    } else {
        Progress::Pending(
            Lookup { symbol: String::from_str(symbol), entries: input, rows: Vec::new() },
        )
    }
}

} // verus!
