//! The normalized quote of one symbol, and the single-symbol lookups.
//!
//! A wire record converts member by member: an absent symbol becomes the
//! empty string, each price is tagged with the record's currency, the
//! exchange is resolved from the first exchange name that is present, and the
//! market state is parsed. Nothing here fails on absent members.

use vstd::prelude::*;
use paft::prelude::{Exchange, MarketState};
use serde_json::Value;
use crate::error::{ErrorView, YfError};
use crate::json::json_parsed;
use crate::quotes::{
    fetch_v7_quotes, fetch_v7_quotes_raw, raw_result_nodes, result_nodes, Amount, NodeView,
    V7Envelope, V7QuoteNode,
};
use crate::text::{copy_of, text_of, text_of_ref};

verus! {

#[verifier::external_type_specification]
#[verifier::external_body]
pub struct ExExchange(paft::prelude::Exchange);

#[verifier::external_type_specification]
#[verifier::external_body]
pub struct ExMarketState(paft::prelude::MarketState);

/// The exchange that `Exchange::try_from_str` reads from `name`, if it reads one.
pub uninterp spec fn exchange_named(name: Seq<char>) -> Option<Exchange>;

/// The market state that `MarketState` parses from `name`, if it parses one.
pub uninterp spec fn market_state_named(name: Seq<char>) -> Option<MarketState>;

/// `Exchange::try_from_str`, with its error dropped: the exchange that a name
/// or code stands for. The outcome depends on the name alone.
#[verifier::external_body]
fn parse_exchange(name: &str) -> (r: Option<Exchange>)
    ensures
        r == exchange_named(name@),
{
    Exchange::try_from_str(name).ok()
}

/// `str::parse` at type `MarketState`, with its error dropped: the market
/// state that a token stands for. The outcome depends on the token alone.
#[verifier::external_body]
fn parse_market_state(name: &str) -> (r: Option<MarketState>)
    ensures
        r == market_state_named(name@),
{
    name.parse::<MarketState>().ok()
}

/// An amount of money: the number and the code of its currency, where the
/// wire named one.
#[derive(Debug, PartialEq)]
pub struct Money {
    pub amount: Amount,
    pub currency: Option<String>,
}

/// The quote of one symbol, normalized.
#[derive(Debug, PartialEq)]
pub struct Quote {
    /// The symbol, empty where the wire had none.
    pub symbol: String,
    /// The short display name.
    pub shortname: Option<String>,
    /// The market price.
    pub price: Option<Money>,
    /// The price at the previous close.
    pub previous_close: Option<Money>,
    /// The exchange.
    pub exchange: Option<Exchange>,
    /// The state of the market.
    pub market_state: Option<MarketState>,
}

/// [`Money`] with its currency code as a sequence of characters.
pub struct MoneyView {
    pub amount: Amount,
    pub currency: Option<Seq<char>>,
}

/// [`Quote`] with its texts as sequences of characters.
pub struct QuoteView {
    pub symbol: Seq<char>,
    pub shortname: Option<Seq<char>>,
    pub price: Option<MoneyView>,
    pub previous_close: Option<MoneyView>,
    pub exchange: Option<Exchange>,
    pub market_state: Option<MarketState>,
}

/// The view of an optional amount of money.
pub open spec fn money_of(money: Option<Money>) -> Option<MoneyView> {
    match money {
        Some(m) => Some(m@),
        None => None,
    }
}

impl View for Money {
    type V = MoneyView;

    open spec fn view(&self) -> MoneyView {
        MoneyView { amount: self.amount, currency: text_of(self.currency) }
    }
}

impl Clone for Money {
    fn clone(&self) -> (copy: Money)
        ensures
            copy@ == self@,
    {
        Money { amount: self.amount, currency: copy_of(&self.currency) }
    }
}

impl View for Quote {
    type V = QuoteView;

    open spec fn view(&self) -> QuoteView {
        QuoteView {
            symbol: self.symbol@,
            shortname: text_of(self.shortname),
            price: money_of(self.price),
            previous_close: money_of(self.previous_close),
            exchange: self.exchange,
            market_state: self.market_state,
        }
    }
}

/// The first of `candidates` that is present.
pub open spec fn first_present(candidates: Seq<Option<Seq<char>>>) -> Option<Seq<char>>
    decreases candidates.len(),
{
    if candidates.len() == 0 {
        None
    } else if candidates.first() is Some {
        candidates.first()
    } else {
        first_present(candidates.drop_first())
    }
}

/// The exchange names of a record, highest priority first: the full exchange
/// name, the short exchange code, the market identifier, the exchange of the
/// market-cap figure.
pub open spec fn exchange_candidates(node: NodeView) -> Seq<Option<Seq<char>>> {
    seq![node.full_exchange_name, node.exchange, node.market, node.market_cap_figure_exchange]
}

/// `amount` tagged with `currency`, where there is an amount.
pub open spec fn tagged(amount: Option<Amount>, currency: Option<Seq<char>>) -> Option<MoneyView> {
    match amount {
        Some(a) => Some(MoneyView { amount: a, currency }),
        None => None,
    }
}

/// The quote that a wire record stands for, once its exchange name and its
/// market state have been resolved to `exchange` and `market_state`.
pub open spec fn assembled(
    node: NodeView,
    exchange: Option<Exchange>,
    market_state: Option<MarketState>,
) -> QuoteView {
    QuoteView {
        symbol: match node.symbol {
            Some(symbol) => symbol,
            None => Seq::empty(),
        },
        shortname: node.short_name,
        price: tagged(node.regular_market_price, node.currency),
        previous_close: tagged(node.regular_market_previous_close, node.currency),
        exchange,
        market_state,
    }
}

/// The quote that a wire record stands for. The exchange is the one named by
/// the first exchange name present, and by no other; the market state is the
/// one that the record's token parses to.
pub open spec fn quote_of(node: NodeView) -> QuoteView {
    assembled(
        node,
        match first_present(exchange_candidates(node)) {
            Some(name) => exchange_named(name),
            None => None,
        },
        match node.market_state {
            Some(token) => market_state_named(token),
            None => None,
        },
    )
}

/// Picks the first of `candidates` that is present.
pub fn pick_first_present<'a>(candidates: &Vec<&'a Option<String>>) -> (r: Option<&'a String>)
    ensures
        text_of_ref(r) == first_present(candidates@.map_values(|c: &Option<String>| text_of(*c))),
{
    let ghost all = candidates@.map_values(|c: &Option<String>| text_of(*c));
    let mut i: usize = 0;
    assert(all.skip(0) == all);
    while i < candidates.len()
        invariant
            i <= candidates.len(),
            all == candidates@.map_values(|c: &Option<String>| text_of(*c)),
            first_present(all) == first_present(all.skip(i as int)),
        decreases candidates.len() - i,
    {
        let ghost rest = all.skip(i as int);
        assert(rest.first() == text_of(*candidates@[i as int]));
        assert(rest.drop_first() == all.skip(i + 1));
        match candidates[i] {
            Some(name) => {
                return Some(name);
            },
            None => {},
        }
        i += 1;
    }
    assert(all.skip(i as int).len() == 0);
    None
}

/// The name from which the exchange of `node` is resolved: the first present
/// among its exchange names, in their order of priority.
pub fn exchange_name(node: &V7QuoteNode) -> (r: Option<&String>)
    ensures
        text_of_ref(r) == first_present(exchange_candidates(node@)),
{
    let candidates = vec![
        &node.full_exchange_name,
        &node.exchange,
        &node.market,
        &node.market_cap_figure_exchange,
    ];
    assert(candidates@.map_values(|c: &Option<String>| text_of(*c)) == exchange_candidates(
        node@,
    ));
    pick_first_present(&candidates)
}

impl Quote {
    /// Builds the quote of `node` around an exchange and a market state that
    /// were resolved before.
    pub fn assemble(node: V7QuoteNode, exchange: Option<Exchange>, market_state: Option<
        MarketState,
    >) -> (quote: Quote)
        ensures
            quote@ == assembled(node@, exchange, market_state),
    {
        let price = match node.regular_market_price {
            Some(amount) => Some(Money { amount, currency: copy_of(&node.currency) }),
            None => None,
        };
        let previous_close = match node.regular_market_previous_close {
            Some(amount) => Some(Money { amount, currency: copy_of(&node.currency) }),
            None => None,
        };
        let symbol = match node.symbol {
            Some(symbol) => symbol,
            None => String::new(),
        };
        Quote { symbol, shortname: node.short_name, price, previous_close, exchange, market_state }
    }

    /// The last price to go by: the market price, or the previous close where
    /// no market price is there.
    pub fn last_price(&self) -> (r: Option<&Money>)
        ensures
            match r {
                Some(money) => Some(*money) == (if self.price is Some {
                    self.price
                } else {
                    self.previous_close
                }),
                None => self.price is None && self.previous_close is None,
            },
    {
        match &self.price {
            Some(price) => Some(price),
            None => self.previous_close.as_ref(),
        }
    }
}

impl From<V7QuoteNode> for Quote {
    /// Converts a wire record into its quote.
    fn from(node: V7QuoteNode) -> (quote: Quote)
        ensures
            quote@ == quote_of(node@),
    {
        let exchange = match exchange_name(&node) {
            Some(name) => parse_exchange(name.as_str()),
            None => None,
        };
        let market_state = match &node.market_state {
            Some(token) => parse_market_state(token.as_str()),
            None => None,
        };
        Quote::assemble(node, exchange, market_state)
    }
}

/// The conversion makes strings of its own, so no value can be named as its
/// result beforehand: what `from` returns is stated by its own `ensures`, over
/// views.
impl vstd::std_specs::convert::FromSpecImpl<V7QuoteNode> for Quote {
    open spec fn obeys_from_spec() -> bool {
        false
    }

    open spec fn from_spec(node: V7QuoteNode) -> Quote {
        arbitrary()
    }
}

/// The message of the error for a symbol without a record.
pub open spec fn missing_quote_message(symbol: Seq<char>) -> Seq<char> {
    "no quote result found for symbol "@ + symbol
}

fn missing_quote(symbol: &str) -> (err: YfError)
    ensures
        err@ == ErrorView::MissingData(missing_quote_message(symbol@)),
{
    let mut message = "no quote result found for symbol ".to_owned();
    message.append(symbol);
    YfError::MissingData(message)
}

/// The record of a single-symbol lookup among the records that came back for
/// it: the last of `results`. An empty list is valid for a batch, not for one
/// symbol: it fails, and the error names the symbol.
pub fn single_result<T>(symbol: &str, results: Vec<T>) -> (r: Result<T, YfError>)
    ensures
        if results@.len() > 0 {
            r matches Ok(record) && record == results@.last()
        } else {
            r matches Err(err) && err@ == ErrorView::MissingData(missing_quote_message(symbol@))
        },
{
    let mut results = results;
    match results.pop() {
        Some(record) => Ok(record),
        None => Err(missing_quote(symbol)),
    }
}

/// The quote of the one symbol that was asked for, given what deserializing
/// the delivered body came to. With several records the last one counts; with
/// none the lookup fails and the error names the symbol.
pub fn fetch_quote(symbol: &str, decoded: Result<V7Envelope, serde_json::Error>) -> (r: Result<
    Quote,
    YfError,
>)
    ensures
        match decoded {
            Ok(envelope) => if result_nodes(envelope).len() > 0 {
                r matches Ok(quote) && quote@ == quote_of(result_nodes(envelope).last()@)
            } else {
                r matches Err(err) && err@ == ErrorView::MissingData(missing_quote_message(symbol@))
            },
            Err(cause) => r matches Err(err) && err@ == ErrorView::Decode(cause),
        },
{
    match fetch_v7_quotes(decoded) {
        Ok(results) => match single_result(symbol, results) {
            Ok(node) => Ok(Quote::from(node)),
            Err(err) => Err(err),
        },
        Err(err) => Err(err),
    }
}

/// The raw record of the one symbol that was asked for, out of a delivered
/// body. With several records the last one counts; with none the lookup fails
/// and the error names the symbol.
pub fn fetch_quote_raw(symbol: &str, body: &str) -> (r: Result<Value, YfError>)
    ensures
        match json_parsed(body@) {
            Ok(doc) => if raw_result_nodes(doc).len() > 0 {
                r matches Ok(node) && node == raw_result_nodes(doc).last()
            } else {
                r matches Err(err) && err@ == ErrorView::MissingData(missing_quote_message(symbol@))
            },
            Err(cause) => r matches Err(err) && err@ == ErrorView::Decode(cause),
        },
{
    match fetch_v7_quotes_raw(body) {
        Ok(results) => single_result(symbol, results),
        Err(err) => Err(err),
    }
}

} // verus!
