use dotgain::decimal::Decimal;
use dotgain::price::{
    extract_price_from_body, extract_price_from_payload, request_start_ms, HttpResponse,
    KlineField, MalformedResponse, PriceClient, PriceError, TransportFailure,
};
use dotgain::time::{TimePoint, TryFromHuman};

fn at(text: &str) -> TimePoint {
    TimePoint::try_from_human(text).expect("a valid date")
}

fn text(value: &str) -> KlineField {
    KlineField::Text(value.to_string())
}

fn entry(open_time: i64, close: &str) -> Vec<KlineField> {
    vec![
        KlineField::Integer(open_time),
        text("0.01634790"),
        text("0.80000000"),
        text("0.01575800"),
        text(close),
        text("148976.11427815"),
        KlineField::Integer(open_time + 59_999),
        text("2434.19055334"),
        KlineField::Integer(308),
        text("1756.87402397"),
        text("28.46694368"),
        text("0"),
    ]
}

fn body(open_time: i64, close: &str) -> String {
    format!(
        "[[{open_time},\"0.01634790\",\"0.80000000\",\"0.01575800\",\"{close}\",\"148976.11427815\",{},\"2434.19055334\",308,\"1756.87402397\",\"28.46694368\",\"0\"]]",
        open_time + 59_999
    )
}

fn response(status: u16, body: &str) -> HttpResponse {
    HttpResponse {
        status,
        headers: vec![("content-type".to_string(), "application/json".to_string())],
        body: body.to_string(),
    }
}

#[test]
fn request_start_is_floored_to_the_minute() {
    assert_eq!(request_start_ms(&at("2023-02-21 17:53:28")), 1677001980000);
    assert_eq!(request_start_ms(&at("2023-02-21 17:53:00")), 1677001980000);
    assert_eq!(request_start_ms(&at("2023-02-21 17:53:59")), 1677001980000);
    assert_eq!(request_start_ms(&at("2023-02-21 17:54:00")), 1677002040000);
    assert_eq!(request_start_ms(&at("2023-02-21 17:52:59")), 1677001920000);
}

#[test]
fn every_second_of_a_minute_has_the_same_start() {
    for second in 0..60 {
        let point = TimePoint::from_timestamp(1677001980 + second, 0).expect("in range");
        assert_eq!(request_start_ms(&point), 1677001980000);
    }
}

#[test]
fn request_start_is_floored_before_the_epoch() {
    assert_eq!(request_start_ms(&at("1969-12-31 23:59:30")), -60000);
    assert_eq!(request_start_ms(&at("1969-12-31 23:59:00")), -60000);
    assert_eq!(request_start_ms(&at("1969-12-31 23:58:59")), -120000);
    assert_eq!(request_start_ms(&at("1970-01-01 00:00:59")), 0);
}

#[test]
fn request_start_at_the_ends_of_the_range() {
    let first = TimePoint::from_timestamp(-8_334_601_228_800, 0).expect("in range");
    assert_eq!(request_start_ms(&first), -8_334_601_228_800_000);
    let last = TimePoint::from_timestamp(8_210_266_876_799, 0).expect("in range");
    assert_eq!(request_start_ms(&last), 8_210_266_876_740_000);
}

#[test]
fn request_url_names_symbol_and_minute() {
    let client = PriceClient::new();
    assert_eq!(
        client.request_url("DOTEUR", &at("2023-02-21 17:53:28")),
        "https://api.binance.com/api/v3/klines?symbol=DOTEUR&interval=1m&startTime=1677001980000&limit=1"
    );
    assert_eq!(
        client.request_url("BTCUSDT", &at("1969-12-31 23:59:30")),
        "https://api.binance.com/api/v3/klines?symbol=BTCUSDT&interval=1m&startTime=-60000&limit=1"
    );
}

#[test]
fn payload_gives_the_close_price() {
    let payload = vec![entry(1499040000000, "0.01577100")];
    let price = extract_price_from_payload(&payload, 1499040000000).expect("a price");
    assert_eq!(price, Decimal::from_parts(1577100, 8).expect("fits"));
    assert_eq!(price.to_normalized_text(), "0.015771");
}

#[test]
fn payload_uses_only_the_first_entry() {
    let payload = vec![entry(2000, "5.5"), entry(62000, "6.5"), vec![KlineField::Other]];
    let price = extract_price_from_payload(&payload, 2000).expect("a price");
    assert_eq!(price.to_normalized_text(), "5.5");
}

#[test]
fn empty_payload_is_rejected() {
    assert_eq!(extract_price_from_payload(&vec![], 2000), Err(MalformedResponse::NoEntry));
}

#[test]
fn mismatched_candle_is_rejected() {
    let payload = vec![entry(1000, "5.5")];
    assert_eq!(
        extract_price_from_payload(&payload, 2000),
        Err(MalformedResponse::TimestampMismatch { returned: 1000, requested: 2000 })
    );
}

#[test]
fn entry_with_too_few_fields_is_rejected() {
    let mut short = entry(2000, "5.5");
    short.pop();
    assert_eq!(
        extract_price_from_payload(&vec![short], 2000),
        Err(MalformedResponse::WrongFieldCount { found: 11 })
    );
    assert_eq!(
        extract_price_from_payload(&vec![vec![]], 2000),
        Err(MalformedResponse::WrongFieldCount { found: 0 })
    );
}

#[test]
fn entry_with_too_many_fields_is_rejected() {
    let mut long = entry(2000, "5.5");
    long.push(text("0"));
    assert_eq!(
        extract_price_from_payload(&vec![long], 2000),
        Err(MalformedResponse::WrongFieldCount { found: 13 })
    );
}

#[test]
fn open_time_must_be_an_integer() {
    let mut fields = entry(2000, "5.5");
    fields[0] = text("2000");
    assert_eq!(
        extract_price_from_payload(&vec![fields], 2000),
        Err(MalformedResponse::TimestampNotInteger)
    );
    let mut fields = entry(2000, "5.5");
    fields[0] = KlineField::Other;
    assert_eq!(
        extract_price_from_payload(&vec![fields], 2000),
        Err(MalformedResponse::TimestampNotInteger)
    );
}

#[test]
fn close_price_must_be_a_string() {
    let mut fields = entry(2000, "5.5");
    fields[4] = KlineField::Integer(5);
    assert_eq!(
        extract_price_from_payload(&vec![fields], 2000),
        Err(MalformedResponse::PriceNotText)
    );
}

#[test]
fn close_price_must_be_a_number() {
    assert_eq!(
        extract_price_from_payload(&vec![entry(2000, "five")], 2000),
        Err(MalformedResponse::PriceNotNumeric)
    );
    assert_eq!(
        extract_price_from_payload(&vec![entry(2000, "")], 2000),
        Err(MalformedResponse::PriceNotNumeric)
    );
}

#[test]
fn the_open_time_is_checked_before_the_price() {
    assert_eq!(
        extract_price_from_payload(&vec![entry(1000, "five")], 2000),
        Err(MalformedResponse::TimestampMismatch { returned: 1000, requested: 2000 })
    );
}

#[test]
fn body_gives_the_close_price() {
    let price = extract_price_from_body(&body(1499040000000, "0.01577100"), 1499040000000)
        .expect("a price");
    assert_eq!(price.to_normalized_text(), "0.015771");
}

#[test]
fn body_with_mismatched_candle_is_rejected() {
    assert_eq!(
        extract_price_from_body(&body(1000, "5.5"), 2000),
        Err(MalformedResponse::TimestampMismatch { returned: 1000, requested: 2000 })
    );
}

#[test]
fn body_that_is_no_array_of_arrays_is_rejected() {
    for text in ["", "{}", "[1, 2]", "{\"code\":-1121,\"msg\":\"Invalid symbol.\"}", "[[1, 2]", "null"] {
        assert_eq!(extract_price_from_body(text, 2000), Err(MalformedResponse::NotKlineRows));
    }
}

#[test]
fn body_without_entries_is_rejected() {
    assert_eq!(extract_price_from_body("[]", 2000), Err(MalformedResponse::NoEntry));
}

#[test]
fn body_with_wrong_field_count_is_rejected() {
    assert_eq!(
        extract_price_from_body("[[2000, \"1\", \"2\"]]", 2000),
        Err(MalformedResponse::WrongFieldCount { found: 3 })
    );
    assert_eq!(
        extract_price_from_body("[[]]", 2000),
        Err(MalformedResponse::WrongFieldCount { found: 0 })
    );
}

#[test]
fn body_fields_are_told_apart() {
    let twelve = |first: &str, fifth: &str| {
        format!("[[{first},1,1,1,{fifth},1,1,1,1,1,1,1]]")
    };
    assert_eq!(
        extract_price_from_body(&twelve("2000.5", "\"1\""), 2000),
        Err(MalformedResponse::TimestampNotInteger)
    );
    assert_eq!(
        extract_price_from_body(&twelve("\"2000\"", "\"1\""), 2000),
        Err(MalformedResponse::TimestampNotInteger)
    );
    assert_eq!(
        extract_price_from_body(&twelve("18446744073709551615", "\"1\""), 2000),
        Err(MalformedResponse::TimestampNotInteger)
    );
    assert_eq!(
        extract_price_from_body(&twelve("null", "\"1\""), 2000),
        Err(MalformedResponse::TimestampNotInteger)
    );
    assert_eq!(
        extract_price_from_body(&twelve("2000", "1.5"), 2000),
        Err(MalformedResponse::PriceNotText)
    );
    assert_eq!(
        extract_price_from_body(&twelve("2000", "[\"1\"]"), 2000),
        Err(MalformedResponse::PriceNotText)
    );
    assert_eq!(
        extract_price_from_body(&twelve("-2000", "\"1.25\""), -2000)
            .expect("a price")
            .to_normalized_text(),
        "1.25"
    );
}

#[test]
fn price_of_a_good_reply() {
    let mut client = PriceClient::new();
    let reply = Ok(response(200, &body(1677001980000, "6.1230")));
    let price = client.price("DOTEUR", at("2023-02-21 17:53:28"), reply).expect("a price");
    assert_eq!(price.to_normalized_text(), "6.123");
}

#[test]
fn price_rejects_the_next_minute() {
    let mut client = PriceClient::new();
    let reply = Ok(response(200, &body(1677002040000, "6.1230")));
    match client.price("DOTEUR", at("2023-02-21 17:53:28"), reply) {
        Err(PriceError::Malformed { url, response, reason }) => {
            assert_eq!(
                reason,
                MalformedResponse::TimestampMismatch {
                    returned: 1677002040000,
                    requested: 1677001980000
                }
            );
            assert_eq!(response.status, 200);
            assert_eq!(response.body, body(1677002040000, "6.1230"));
            assert!(url.ends_with("symbol=DOTEUR&interval=1m&startTime=1677001980000&limit=1"));
        }
        other => panic!("unexpected: {other:?}"),
    }
}

#[test]
fn price_hands_on_a_failed_status() {
    let mut client = PriceClient::new();
    for status in [100, 199, 300, 400, 404, 429, 500] {
        let reply = Ok(response(status, &body(1677001980000, "6.1230")));
        match client.price("DOTEUR", at("2023-02-21 17:53:28"), reply) {
            Err(PriceError::Upstream { url, response }) => {
                assert_eq!(response.status, status);
                assert_eq!(response.headers.len(), 1);
                assert_eq!(response.body, body(1677001980000, "6.1230"));
                assert!(url.starts_with("https://api.binance.com/api/v3/klines?symbol=DOTEUR"));
            }
            other => panic!("unexpected: {other:?}"),
        }
    }
}

#[test]
fn price_accepts_every_success_status() {
    let mut client = PriceClient::new();
    for status in [200, 201, 204, 299] {
        let reply = Ok(response(status, &body(1677001980000, "6.1230")));
        assert!(client.price("DOTEUR", at("2023-02-21 17:53:28"), reply).is_ok());
    }
}

#[test]
fn price_hands_on_a_failed_transport() {
    let mut client = PriceClient::new();
    let reply = Err(TransportFailure { message: "connection refused".to_string() });
    match client.price("DOTEUR", at("2023-02-21 17:53:28"), reply) {
        Err(PriceError::Transport { url, message }) => {
            assert_eq!(message, "connection refused");
            assert!(url.ends_with("startTime=1677001980000&limit=1"));
        }
        other => panic!("unexpected: {other:?}"),
    }
}
