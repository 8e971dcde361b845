//! The wire model of the quote endpoint and the decoding of a delivered body.
//!
//! A body is a JSON object whose member `quoteResponse` holds the records
//! under `result`. A missing or null envelope or list is no error: it decodes
//! to no records. The member `error` beside the list is never looked at.

use vstd::prelude::*;
use serde_json::Value;
use crate::error::{ErrorView, YfError};
use crate::json::{elements, json_elements, json_member, json_parsed, member, parse_document};
use crate::text::{copy_of, text_of};

verus! {

/// A number of the wire, carried as the bit pattern of its IEEE-754 double.
/// The library passes amounts on and never computes with them.
#[derive(Clone, Copy, Debug, PartialEq, Eq, Structural)]
pub struct Amount {
    pub bits: u64,
}

/// The body of a response: the member `quoteResponse`.
#[derive(Debug, PartialEq)]
pub struct V7Envelope {
    pub quote_response: Option<V7QuoteResponse>,
}

/// The object under `quoteResponse`.
#[derive(Debug, PartialEq)]
pub struct V7QuoteResponse {
    /// The member `result`: one record per symbol.
    pub result: Option<Vec<V7QuoteNode>>,
    /// The member `error`, as the server reported it.
    pub error: Option<Value>,
}

/// One record of `result`: the quote of one symbol as the server sent it.
/// Every member may be absent.
#[derive(Debug, PartialEq)]
pub struct V7QuoteNode {
    /// `symbol`
    pub symbol: Option<String>,
    /// `shortName`
    pub short_name: Option<String>,
    /// `regularMarketPrice`
    pub regular_market_price: Option<Amount>,
    /// `regularMarketPreviousClose`
    pub regular_market_previous_close: Option<Amount>,
    /// `currency`
    pub currency: Option<String>,
    /// `fullExchangeName`
    pub full_exchange_name: Option<String>,
    /// `exchange`
    pub exchange: Option<String>,
    /// `market`
    pub market: Option<String>,
    /// `marketCapFigureExchange`
    pub market_cap_figure_exchange: Option<String>,
    /// `marketState`
    pub market_state: Option<String>,
}

/// [`V7QuoteNode`] with its texts as sequences of characters.
pub struct NodeView {
    pub symbol: Option<Seq<char>>,
    pub short_name: Option<Seq<char>>,
    pub regular_market_price: Option<Amount>,
    pub regular_market_previous_close: Option<Amount>,
    pub currency: Option<Seq<char>>,
    pub full_exchange_name: Option<Seq<char>>,
    pub exchange: Option<Seq<char>>,
    pub market: Option<Seq<char>>,
    pub market_cap_figure_exchange: Option<Seq<char>>,
    pub market_state: Option<Seq<char>>,
}

impl View for V7QuoteNode {
    type V = NodeView;

    open spec fn view(&self) -> NodeView {
        NodeView {
            symbol: text_of(self.symbol),
            short_name: text_of(self.short_name),
            regular_market_price: self.regular_market_price,
            regular_market_previous_close: self.regular_market_previous_close,
            currency: text_of(self.currency),
            full_exchange_name: text_of(self.full_exchange_name),
            exchange: text_of(self.exchange),
            market: text_of(self.market),
            market_cap_figure_exchange: text_of(self.market_cap_figure_exchange),
            market_state: text_of(self.market_state),
        }
    }
}

impl Clone for V7QuoteNode {
    fn clone(&self) -> (copy: V7QuoteNode)
        ensures
            copy@ == self@,
    {
        V7QuoteNode {
            symbol: copy_of(&self.symbol),
            short_name: copy_of(&self.short_name),
            regular_market_price: self.regular_market_price,
            regular_market_previous_close: self.regular_market_previous_close,
            currency: copy_of(&self.currency),
            full_exchange_name: copy_of(&self.full_exchange_name),
            exchange: copy_of(&self.exchange),
            market: copy_of(&self.market),
            market_cap_figure_exchange: copy_of(&self.market_cap_figure_exchange),
            market_state: copy_of(&self.market_state),
        }
    }
}

/// The records of an envelope: the list under `quoteResponse.result`, or
/// none where the envelope or the list is absent.
pub open spec fn result_nodes(envelope: V7Envelope) -> Seq<V7QuoteNode> {
    match envelope.quote_response {
        Some(response) => match response.result {
            Some(nodes) => nodes@,
            None => Seq::empty(),
        },
        None => Seq::empty(),
    }
}

/// The typed records of a delivered body, given what deserializing the body
/// into a [`V7Envelope`] came to: the records of the envelope in their order,
/// or the decode error.
pub fn fetch_v7_quotes(decoded: Result<V7Envelope, serde_json::Error>) -> (r: Result<
    Vec<V7QuoteNode>,
    YfError,
>)
    ensures
        match decoded {
            Ok(envelope) => r matches Ok(nodes) && nodes@ == result_nodes(envelope),
            Err(cause) => r matches Err(err) && err@ == ErrorView::Decode(cause),
        },
{
    match decoded {
        Ok(envelope) => {
            let nodes = match envelope.quote_response {
                Some(response) => match response.result {
                    Some(nodes) => nodes,
                    None => Vec::new(),
                },
                None => Vec::new(),
            };
            Ok(nodes)
        },
        Err(cause) => Err(YfError::from(cause)),
    }
}

/// The raw records of a document: the elements of the array under
/// `quoteResponse.result`, or none where a member on the way is missing or
/// `result` is no array.
pub open spec fn raw_result_nodes(doc: Value) -> Seq<Value> {
    match json_member(doc, "quoteResponse"@) {
        Some(response) => match json_member(response, "result"@) {
            Some(result) => match json_elements(result) {
                Some(nodes) => nodes,
                None => Seq::empty(),
            },
            None => Seq::empty(),
        },
        None => Seq::empty(),
    }
}

/// Picks the raw records out of a parsed document, without looking at their
/// shape.
pub fn raw_quote_nodes(doc: &Value) -> (nodes: Vec<Value>)
    ensures
        nodes@ == raw_result_nodes(*doc),
{
    match member(doc, "quoteResponse") {
        Some(response) => match member(response, "result") {
            Some(result) => match elements(result) {
                Some(nodes) => nodes,
                None => Vec::new(),
            },
            None => Vec::new(),
        },
        None => Vec::new(),
    }
}

/// The raw records of a delivered body: parses `body` and picks the records
/// out of the document. A body that is no JSON gives the decode error.
pub fn fetch_v7_quotes_raw(body: &str) -> (r: Result<Vec<Value>, YfError>)
    ensures
        match json_parsed(body@) {
            Ok(doc) => r matches Ok(nodes) && nodes@ == raw_result_nodes(doc),
            Err(cause) => r matches Err(err) && err@ == ErrorView::Decode(cause),
        },
{
    match parse_document(body) {
        Ok(doc) => Ok(raw_quote_nodes(&doc)),
        Err(cause) => Err(YfError::from(cause)),
    }
}

} // verus!
