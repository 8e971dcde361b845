use paft::prelude::{Exchange, MarketState};
use serde_json::Value;
use yfinance_rs::error::YfError;
use yfinance_rs::quote::{
    exchange_name, fetch_quote, fetch_quote_raw, pick_first_present, single_result, Money, Quote,
};
use yfinance_rs::text::copy_of;
use yfinance_rs::quotes::{Amount, V7Envelope, V7QuoteNode, V7QuoteResponse};

fn amount(value: f64) -> Amount {
    Amount { bits: value.to_bits() }
}

fn text(s: &str) -> Option<String> {
    Some(s.to_string())
}

fn empty_node() -> V7QuoteNode {
    V7QuoteNode {
        symbol: None,
        short_name: None,
        regular_market_price: None,
        regular_market_previous_close: None,
        currency: None,
        full_exchange_name: None,
        exchange: None,
        market: None,
        market_cap_figure_exchange: None,
        market_state: None,
    }
}

fn envelope(nodes: Vec<V7QuoteNode>) -> V7Envelope {
    V7Envelope { quote_response: Some(V7QuoteResponse { result: Some(nodes), error: None }) }
}

fn json_error() -> serde_json::Error {
    serde_json::from_str::<Value>("nope").unwrap_err()
}

#[test]
fn record_with_nothing_present_converts_to_an_empty_quote() {
    let quote = Quote::from(empty_node());
    assert_eq!(
        quote,
        Quote {
            symbol: String::new(),
            shortname: None,
            price: None,
            previous_close: None,
            exchange: None,
            market_state: None,
        }
    );
}

#[test]
fn full_record_converts_member_by_member() {
    let node = V7QuoteNode {
        symbol: text("AAPL"),
        short_name: text("Apple Inc."),
        regular_market_price: Some(amount(190.25)),
        regular_market_previous_close: Some(amount(189.50)),
        currency: text("USD"),
        full_exchange_name: text("NASDAQ"),
        exchange: text("NMS"),
        market: text("us_market"),
        market_cap_figure_exchange: text("NMS"),
        market_state: text("REGULAR"),
    };
    let quote = Quote::from(node);
    assert_eq!(quote.symbol, "AAPL");
    assert_eq!(quote.shortname.as_deref(), Some("Apple Inc."));
    assert_eq!(quote.exchange, Some(Exchange::NASDAQ));
    assert_eq!(quote.market_state, Some(MarketState::Regular));
    let price = quote.price.unwrap();
    assert!((f64::from_bits(price.amount.bits) - 190.25).abs() < 1e-9);
    assert_eq!(price.currency.as_deref(), Some("USD"));
    let previous_close = quote.previous_close.unwrap();
    assert!((f64::from_bits(previous_close.amount.bits) - 189.50).abs() < 1e-9);
    assert_eq!(previous_close.currency.as_deref(), Some("USD"));
}

#[test]
fn prices_without_currency_stay_untagged() {
    let node = V7QuoteNode { regular_market_price: Some(amount(1.5)), ..empty_node() };
    let quote = Quote::from(node);
    assert_eq!(quote.price, Some(Money { amount: amount(1.5), currency: None }));
    assert_eq!(quote.previous_close, None);
}

#[test]
fn currency_without_prices_gives_no_money() {
    let node = V7QuoteNode { currency: text("EUR"), ..empty_node() };
    let quote = Quote::from(node);
    assert_eq!(quote.price, None);
    assert_eq!(quote.previous_close, None);
}

#[test]
fn exchange_resolves_from_the_full_name_only() {
    let node = V7QuoteNode {
        full_exchange_name: text("NasdaqGS"),
        exchange: text("NMS"),
        ..empty_node()
    };
    assert_eq!(exchange_name(&node).map(String::as_str), Some("NasdaqGS"));
    let quote = Quote::from(node);
    assert_eq!(quote.exchange, Some(Exchange::try_from_str("NasdaqGS").unwrap()));
    assert_ne!(quote.exchange, Some(Exchange::try_from_str("NMS").unwrap()));
    assert_eq!(quote.exchange.map(|e| e.to_string()), text("NASDAQGS"));
}

#[test]
fn exchange_names_are_tried_in_their_order() {
    let all = V7QuoteNode {
        full_exchange_name: text("one"),
        exchange: text("two"),
        market: text("three"),
        market_cap_figure_exchange: text("four"),
        ..empty_node()
    };
    assert_eq!(exchange_name(&all).map(String::as_str), Some("one"));
    let second = V7QuoteNode { full_exchange_name: None, ..all.clone() };
    assert_eq!(exchange_name(&second).map(String::as_str), Some("two"));
    let third = V7QuoteNode { exchange: None, ..second.clone() };
    assert_eq!(exchange_name(&third).map(String::as_str), Some("three"));
    let fourth = V7QuoteNode { market: None, ..third.clone() };
    assert_eq!(exchange_name(&fourth).map(String::as_str), Some("four"));
    let none = V7QuoteNode { market_cap_figure_exchange: None, ..fourth.clone() };
    assert_eq!(exchange_name(&none), None);
}

#[test]
fn a_present_name_that_names_no_exchange_is_not_skipped() {
    let node =
        V7QuoteNode { full_exchange_name: text("  "), exchange: text("NYSE"), ..empty_node() };
    assert_eq!(Quote::from(node).exchange, None);
}

#[test]
fn exchange_names_are_canonicalized() {
    let node = V7QuoteNode { exchange: text("nasdaq"), ..empty_node() };
    assert_eq!(Quote::from(node).exchange, Some(Exchange::NASDAQ));
    let node = V7QuoteNode { market: text("euronext paris"), ..empty_node() };
    assert_eq!(Quote::from(node).exchange, Some(Exchange::EPA));
}

#[test]
fn market_state_is_parsed() {
    let node = V7QuoteNode { market_state: text("CLOSED"), ..empty_node() };
    assert_eq!(Quote::from(node).market_state, Some(MarketState::Closed));
    let node = V7QuoteNode { market_state: text("pre"), ..empty_node() };
    let state = Quote::from(node).market_state;
    assert_eq!(state, Some(MarketState::Pre));
    assert_eq!(state.map(|s| s.to_string()), text("PREMARKET"));
}

#[test]
fn unknown_market_state_is_left_unset() {
    let node = V7QuoteNode { market_state: text("LUNCH"), ..empty_node() };
    assert_eq!(Quote::from(node).market_state, None);
}

#[test]
fn pick_first_present_of_nothing_is_none() {
    assert_eq!(pick_first_present(&vec![]), None);
    let absent: Option<String> = None;
    assert_eq!(pick_first_present(&vec![&absent, &absent]), None);
}

#[test]
fn pick_first_present_skips_absent_candidates() {
    let absent: Option<String> = None;
    let first = text("first");
    let second = text("second");
    assert_eq!(
        pick_first_present(&vec![&absent, &first, &second]).map(String::as_str),
        Some("first")
    );
}

#[test]
fn assemble_takes_exchange_and_state_as_given() {
    let node = V7QuoteNode {
        symbol: text("MSFT"),
        full_exchange_name: text("NYSE"),
        market_state: text("REGULAR"),
        ..empty_node()
    };
    let quote = Quote::assemble(node, Some(Exchange::LSE), None);
    assert_eq!(quote.symbol, "MSFT");
    assert_eq!(quote.exchange, Some(Exchange::LSE));
    assert_eq!(quote.market_state, None);
}

#[test]
fn last_price_is_the_market_price_where_present() {
    let node = V7QuoteNode {
        regular_market_price: Some(amount(10.0)),
        regular_market_previous_close: Some(amount(9.0)),
        ..empty_node()
    };
    let quote = Quote::from(node);
    assert_eq!(quote.last_price().map(|m| f64::from_bits(m.amount.bits)), Some(10.0));
}

#[test]
fn last_price_falls_back_to_the_previous_close() {
    let node = V7QuoteNode {
        symbol: text("MSFT"),
        regular_market_previous_close: Some(amount(421.00)),
        currency: text("USD"),
        exchange: text("NasdaqGS"),
        market_state: text("CLOSED"),
        ..empty_node()
    };
    let quote = fetch_quote("MSFT", Ok(envelope(vec![node]))).unwrap();
    assert_eq!(quote.symbol, "MSFT");
    let last = quote.last_price().unwrap();
    assert!((f64::from_bits(last.amount.bits) - 421.00).abs() < 1e-9, "fallback to previous close");
    assert_eq!(last.currency.as_deref(), Some("USD"));
    assert_eq!(quote.market_state.as_ref().map(|s| s.to_string()), text("CLOSED"));
}

#[test]
fn last_price_of_a_quote_without_prices_is_none() {
    assert_eq!(Quote::from(empty_node()).last_price(), None);
}

#[test]
fn money_clone_is_equal() {
    let money = Money { amount: amount(3.25), currency: text("CHF") };
    assert_eq!(money.clone(), money);
}

#[test]
fn single_symbol_lookup_converts_the_record() {
    let node = V7QuoteNode { symbol: text("AAPL"), ..empty_node() };
    let quote = fetch_quote("AAPL", Ok(envelope(vec![node]))).unwrap();
    assert_eq!(quote.symbol, "AAPL");
}

#[test]
fn single_symbol_lookup_takes_the_last_record() {
    let first = V7QuoteNode { symbol: text("AAPL"), ..empty_node() };
    let last = V7QuoteNode { symbol: text("TSLA"), ..empty_node() };
    let quote = fetch_quote("AAPL", Ok(envelope(vec![first, last]))).unwrap();
    assert_eq!(quote.symbol, "TSLA");
}

#[test]
fn single_symbol_lookup_with_empty_result_is_missing_data() {
    let err = fetch_quote("AAPL", Ok(envelope(vec![]))).unwrap_err();
    assert!(matches!(
        err,
        YfError::MissingData(m) if m == "no quote result found for symbol AAPL"
    ));
}

#[test]
fn single_symbol_lookup_without_envelope_is_missing_data() {
    let err = fetch_quote("BRK-B", Ok(V7Envelope { quote_response: None })).unwrap_err();
    assert!(matches!(
        err,
        YfError::MissingData(m) if m == "no quote result found for symbol BRK-B"
    ));
}

#[test]
fn single_symbol_lookup_passes_the_decode_error_on() {
    let err = fetch_quote("AAPL", Err(json_error())).unwrap_err();
    assert!(matches!(err, YfError::Decode(_)));
}

#[test]
fn raw_single_symbol_lookup_gives_the_record() {
    let body = r#"{"quoteResponse":{"result":[{"symbol":"AAPL","beta":0.87}]}}"#;
    let raw = fetch_quote_raw("AAPL", body).unwrap();
    assert!(raw.is_object());
    assert_eq!(raw.get("symbol").and_then(Value::as_str), Some("AAPL"));
}

#[test]
fn raw_single_symbol_lookup_takes_the_last_record() {
    let body = r#"{"quoteResponse":{"result":[{"symbol":"AAPL"},{"symbol":"TSLA"}]}}"#;
    let raw = fetch_quote_raw("AAPL", body).unwrap();
    assert_eq!(raw.get("symbol").and_then(Value::as_str), Some("TSLA"));
}

#[test]
fn raw_single_symbol_lookup_with_empty_result_is_missing_data() {
    let body = r#"{"quoteResponse":{"result":[],"error":null}}"#;
    let err = fetch_quote_raw("AAPL", body).unwrap_err();
    assert!(matches!(
        err,
        YfError::MissingData(m) if m == "no quote result found for symbol AAPL"
    ));
}

#[test]
fn raw_single_symbol_lookup_of_bad_json_is_a_decode_error() {
    assert!(matches!(fetch_quote_raw("AAPL", "<html>"), Err(YfError::Decode(_))));
}

#[test]
fn single_result_is_the_last_of_the_results() {
    assert_eq!(single_result("AAPL", vec![1, 2, 3]).unwrap(), 3);
    assert_eq!(single_result("AAPL", vec!["only"]).unwrap(), "only");
}

#[test]
fn single_result_of_no_results_names_the_symbol() {
    let err = single_result::<u8>("0700.HK", vec![]).unwrap_err();
    assert!(matches!(
        err,
        YfError::MissingData(m) if m == "no quote result found for symbol 0700.HK"
    ));
}

#[test]
fn copy_of_an_optional_string_is_equal() {
    assert_eq!(copy_of(&text("USD")), text("USD"));
    assert_eq!(copy_of(&None), None);
}
