//! One-minute close prices from the exchange's candlestick (kline) API.
//!
//! The library decides what to ask and what an answer means; the caller
//! performs the HTTP request between [`PriceClient::request_url`] and
//! [`PriceClient::price`].

use vstd::prelude::*;
use vstd::string::*;
use crate::decimal::{decimal_from_text, Decimal, DecimalValue};
use crate::text::{int_text, int_to_text};
use crate::time::{Instant, TimePoint};

verus! {

/// The number of fields in one kline entry.
pub const KLINE_FIELDS_NUM: usize = 12;

/// The position of the open time in a kline entry.
pub const OPEN_TIME_FIELD: usize = 0;

/// The position of the close price in a kline entry.
pub const CLOSE_PRICE_FIELD: usize = 4;

/// One field of a kline entry, as far as a price lookup reads it.
#[derive(Debug)]
pub enum KlineField {
    /// A JSON number that is an integer and fits 64 bits.
    Integer(i64),
    /// A JSON string.
    Text(String),
    /// Any other JSON value.
    Other,
}

/// A kline field as contracts speak of it.
pub enum FieldValue {
    Integer(i64),
    Text(Seq<char>),
    Other,
}

impl DeepView for KlineField {
    type V = FieldValue;

    open spec fn deep_view(&self) -> FieldValue {
        match self {
            KlineField::Integer(n) => FieldValue::Integer(*n),
            KlineField::Text(text) => FieldValue::Text(text@),
            KlineField::Other => FieldValue::Other,
        }
    }
}

/// The rows that `serde_json` reads from a body that is a JSON array of
/// arrays; `None` where the body is anything else.
pub uninterp spec fn json_rows(body: Seq<char>) -> Option<Seq<Seq<FieldValue>>>;

/// Why a response with a success status was not accepted.
#[derive(Clone, Copy, Debug, PartialEq, Eq)]
pub enum MalformedResponse {
    /// The body is not a JSON array of arrays.
    NotKlineRows,
    /// The response holds no kline entry.
    NoEntry,
    /// The first entry does not have twelve fields.
    WrongFieldCount { found: usize },
    /// The open time is not an integer.
    TimestampNotInteger,
    /// The entry is for another minute than the one asked for.
    TimestampMismatch { returned: i64, requested: i64 },
    /// The close price is not a string.
    PriceNotText,
    /// The close price is a string that is not a number.
    PriceNotNumeric,
}

/// The start of the one-minute interval that holds `instant`, in milliseconds
/// since 1970-01-01 00:00:00 UTC.
pub open spec fn minute_start_ms(instant: Instant) -> int {
    (instant.seconds / 60) * 60_000
}

/// The close price that a kline response gives for the minute that starts at
/// `requested`, or the reason why it gives none. Only the first entry counts.
pub open spec fn payload_price(rows: Seq<Seq<FieldValue>>, requested: i64) -> Result<
    DecimalValue,
    MalformedResponse,
> {
    if rows.len() == 0 {
        Err(MalformedResponse::NoEntry)
    } else if rows[0].len() != KLINE_FIELDS_NUM {
        Err(MalformedResponse::WrongFieldCount { found: rows[0].len() as usize })
    } else {
        match rows[0][OPEN_TIME_FIELD as int] {
            FieldValue::Integer(returned) => {
                if returned != requested {
                    Err(MalformedResponse::TimestampMismatch { returned, requested })
                } else {
                    match rows[0][CLOSE_PRICE_FIELD as int] {
                        FieldValue::Text(text) => match decimal_from_text(text) {
                            Some(price) => Ok(price),
                            None => Err(MalformedResponse::PriceNotNumeric),
                        },
                        _ => Err(MalformedResponse::PriceNotText),
                    }
                }
            },
            _ => Err(MalformedResponse::TimestampNotInteger),
        }
    }
}

/// The close price that a response body gives, or the reason why it gives
/// none.
pub open spec fn body_price(body: Seq<char>, requested: i64) -> Result<
    DecimalValue,
    MalformedResponse,
> {
    match json_rows(body) {
        Some(rows) => payload_price(rows, requested),
        None => Err(MalformedResponse::NotKlineRows),
    }
}

/// The value of an extracted price.
pub open spec fn priced(result: Result<Decimal, MalformedResponse>) -> Result<
    DecimalValue,
    MalformedResponse,
> {
    match result {
        Ok(price) => Ok(price@),
        Err(reason) => Err(reason),
    }
}

/// Computes the start of the minute that holds `datetime`, in milliseconds.
/// The time is rounded down: the exchange answers a start time inside a minute
/// with the next minute's entry.
pub fn request_start_ms(datetime: &TimePoint) -> (result: i64)
    ensures
        result == minute_start_ms(datetime@),
        result % 60_000 == 0,
        result <= datetime@.seconds * 1000 < result + 60_000,
{
    let seconds = datetime.timestamp();
    // A multiple of 60 that lifts every timestamp above zero.
    let shifted: u64 = (seconds + 8_334_601_228_800) as u64;
    let minutes: i64 = (shifted / 60) as i64 - 138_910_020_480;
    minutes * 60_000
}

/// Extract close price from kline response containing at least one kline entry.
///
/// The first entry must have twelve fields, its open time must be the
/// integer `start_time_ms`, and its close price must be a string that holds a
/// number. An entry for another minute is refused, never taken in place of the
/// one asked for.
pub fn extract_price_from_payload(payload: &Vec<Vec<KlineField>>, start_time_ms: i64) -> (result:
    Result<Decimal, MalformedResponse>)
    ensures
        priced(result) == payload_price(payload.deep_view(), start_time_ms),
{
    if payload.len() == 0 {
        return Err(MalformedResponse::NoEntry);
    }
    let entry = &payload[0];
    if entry.len() != KLINE_FIELDS_NUM {
        return Err(MalformedResponse::WrongFieldCount { found: entry.len() });
    }
    let returned_time_ms = match &entry[OPEN_TIME_FIELD] {
        KlineField::Integer(n) => *n,
        _ => { return Err(MalformedResponse::TimestampNotInteger); },
    };
    if returned_time_ms != start_time_ms {
        return Err(
            MalformedResponse::TimestampMismatch {
                returned: returned_time_ms,
                requested: start_time_ms,
            },
        );
    }
    let price_str = match &entry[CLOSE_PRICE_FIELD] {
        KlineField::Text(text) => text.as_str(),
        _ => { return Err(MalformedResponse::PriceNotText); },
    };
    match Decimal::from_str_exact(price_str) {
        Ok(price) => Ok(price),
        Err(_) => Err(MalformedResponse::PriceNotNumeric),
    }
}

/// Parse kline response body and extract close price.
pub fn extract_price_from_body(body: &str, start_time_ms: i64) -> (result: Result<
    Decimal,
    MalformedResponse,
>)
    ensures
        priced(result) == body_price(body@, start_time_ms),
{
    match parse_rows(body) {
        Some(payload) => extract_price_from_payload(&payload, start_time_ms),
        None => Err(MalformedResponse::NotKlineRows),
    }
}

/// An entry for another minute than the one asked for is never accepted,
/// whatever else it holds: the answer is `TimestampMismatch`, with both times.
pub proof fn lemma_other_minute_is_refused(
    rows: Seq<Seq<FieldValue>>,
    returned: i64,
    requested: i64,
)
    requires
        rows.len() > 0,
        rows[0].len() == KLINE_FIELDS_NUM,
        rows[0][OPEN_TIME_FIELD as int] == FieldValue::Integer(returned),
        returned != requested,
    ensures
        payload_price(rows, requested) == Err::<DecimalValue, MalformedResponse>(
            MalformedResponse::TimestampMismatch { returned, requested },
        ),
{
}

/// A first entry with fewer or more than twelve fields is never accepted: the
/// answer is `WrongFieldCount`, with the number of fields found.
pub proof fn lemma_wrong_field_count_is_refused(rows: Seq<Seq<FieldValue>>, requested: i64)
    requires
        rows.len() > 0,
        rows[0].len() != KLINE_FIELDS_NUM,
    ensures
        payload_price(rows, requested) == Err::<DecimalValue, MalformedResponse>(
            MalformedResponse::WrongFieldCount { found: rows[0].len() as usize },
        ),
{
}

/// Every second of a minute leads to the same request: from the first second
/// of a minute to its last, the request start is the first second, in
/// milliseconds.
pub proof fn lemma_minute_floor(minute: int, offset: int, subsec_nanos: int)
    requires
        minute % 60 == 0,
        0 <= offset < 60,
    ensures
        minute_start_ms(Instant { seconds: minute + offset, subsec_nanos }) == minute * 1000,
{
}

/// A response as the transport hands it over.
#[derive(Debug)]
pub struct HttpResponse {
    pub status: u16,
    pub headers: Vec<(String, String)>,
    pub body: String,
}

/// A request that got no response, or none that could be read to its end.
#[derive(Debug)]
pub struct TransportFailure {
    pub message: String,
}

/// Why a price lookup failed. Each failure names the request it belongs to.
#[derive(Debug)]
pub enum PriceError {
    /// The request could not be completed.
    Transport { url: String, message: String },
    /// The exchange answered with a status that is no success.
    Upstream { url: String, response: HttpResponse },
    /// The exchange answered with a success status and a body that does not
    /// hold the price asked for.
    Malformed { url: String, response: HttpResponse, reason: MalformedResponse },
}

/// Whether an HTTP status is a success: 200 to 299.
pub open spec fn is_success(status: u16) -> bool {
    200 <= status < 300
}

/// The address of the exchange.
pub open spec fn base_url() -> Seq<char> {
    "https://api.binance.com"@
}

/// The address that is asked for the one entry of the minute that holds
/// `instant`.
pub open spec fn kline_url(symbol: Seq<char>, instant: Instant) -> Seq<char> {
    base_url() + "/api/v3/klines?symbol="@ + symbol + "&interval=1m&startTime="@ + int_text(
        minute_start_ms(instant),
    ) + "&limit=1"@
}

/// The close price that a reply gives for the minute that starts at
/// `requested`, if it gives one: the reply must be a response with a success
/// status whose body holds that price.
pub open spec fn reply_price(reply: Result<HttpResponse, TransportFailure>, requested: i64) -> Option<
    DecimalValue,
> {
    match reply {
        Ok(response) => if is_success(response.status) {
            match body_price(response.body@, requested) {
                Ok(price) => Some(price),
                Err(_) => None,
            }
        } else {
            None
        },
        Err(_) => None,
    }
}

/// What a price lookup for `symbol` at `instant` makes of `reply`.
///
/// A failed transport gives `Transport` with the failure's message; a status
/// that is no success gives `Upstream` with the response; a success gives the
/// close price in its body, or `Malformed` with the response and the reason.
/// Each error names the address that was asked.
pub open spec fn price_outcome(
    symbol: Seq<char>,
    instant: Instant,
    reply: Result<HttpResponse, TransportFailure>,
    result: Result<Decimal, PriceError>,
) -> bool {
    match reply {
        Err(failure) => {
            &&& result matches Err(PriceError::Transport { url, message })
            &&& url@ == kline_url(symbol, instant)
            &&& message == failure.message
        },
        Ok(response) => if !is_success(response.status) {
            &&& result matches Err(PriceError::Upstream { url, response: handed })
            &&& url@ == kline_url(symbol, instant)
            &&& handed == response
        } else {
            match body_price(response.body@, minute_start_ms(instant) as i64) {
                Ok(value) => result matches Ok(price) && price@ == value,
                Err(why) => {
                    &&& result matches Err(PriceError::Malformed { url, response: handed, reason })
                    &&& url@ == kline_url(symbol, instant)
                    &&& handed == response
                    &&& reason == why
                },
            }
        },
    }
}

/// Binance Public API price client.
///
/// The client keeps nothing between lookups: each one stands alone.
#[derive(Debug)]
pub struct PriceClient {}

impl PriceClient {
    /// Create new instance.
    pub fn new() -> (result: PriceClient) {
        PriceClient {  }
    }

    /// The address to send one GET request to, for the close price of
    /// `symbol` in the minute that holds `datetime`.
    pub fn request_url(&self, symbol: &str, datetime: &TimePoint) -> (result: String)
        ensures
            result@ == kline_url(symbol@, datetime@),
    {
        let start_time_ms = request_start_ms(datetime);
        let mut url = String::from_str("https://api.binance.com");
        url.append("/api/v3/klines?symbol=");
        url.append(symbol);
        url.append("&interval=1m&startTime=");
        url.append(int_to_text(start_time_ms).as_str());
        url.append("&limit=1");
        url
    }

    /// Request symbol price.
    ///
    /// `reply` is what came back for the request to
    /// [`PriceClient::request_url`]. A failed transport and a status that is
    /// no success are handed on as they are; a success is searched for the
    /// close price of exactly the minute asked for.
    pub fn price(
        &mut self,
        symbol: &str,
        datetime: TimePoint,
        reply: Result<HttpResponse, TransportFailure>,
    ) -> (result: Result<Decimal, PriceError>)
        ensures
            *final(self) == *old(self),
            price_outcome(symbol@, datetime@, reply, result),
    {
        let start_time_ms = request_start_ms(&datetime);
        match reply {
            Err(failure) => Err(
                PriceError::Transport {
                    url: self.request_url(symbol, &datetime),
                    message: failure.message,
                },
            ),
            Ok(response) => {
                if response.status < 200 || response.status >= 300 {
                    return Err(
                        PriceError::Upstream { url: self.request_url(symbol, &datetime), response },
                    );
                }
                match extract_price_from_body(response.body.as_str(), start_time_ms) {
                    Ok(price) => Ok(price),
                    Err(reason) => Err(
                        PriceError::Malformed {
                            url: self.request_url(symbol, &datetime),
                            response,
                            reason,
                        },
                    ),
                }
            },
        }
    }
}

/// `serde_json::from_str`, asked for an array of arrays of
/// `serde_json::Value`: the rows that the crate reads, each value turned into
/// the field that stands for it; `None` where the crate returns an error. A
/// string becomes `Text`, a value of which `serde_json::Value::as_i64` gives
/// the integer becomes `Integer`, any other value `Other`.
#[verifier::external_body]
fn parse_rows(body: &str) -> (result: Option<Vec<Vec<KlineField>>>)
    ensures
        match result {
            Some(rows) => json_rows(body@) == Some(rows.deep_view()),
            None => json_rows(body@) is None,
        },
{
    let rows: Vec<Vec<serde_json::Value>> = serde_json::from_str(body).ok()?;
    Some(rows.into_iter().map(|row| row.into_iter().map(|value| match value {
        serde_json::Value::String(text) => KlineField::Text(text),
        other => match other.as_i64() {
            Some(n) => KlineField::Integer(n),
            None => KlineField::Other,
        },
    }).collect()).collect())
}

} // verus!
