//! A single-ticker trading advisor: decides whether to buy or sell a stock,
//! computes the trade size, and drives the submission of the order, using an
//! AI text completion to produce the buy/sell signal from recent price
//! history and news.
//!
//! The decision-and-execution pipeline is a fixed sequence of fallible
//! stages (fetch data, get advice, resolve quantity, submit order) that
//! short-circuits on the first failure and classifies every failure by the
//! stage that produced it.  All decision logic lives here; network
//! collaborators (market data, brokerage, AI model) are driven from outside
//! through the action/event interface of the pipeline flows.

pub mod decimal;
pub mod errors;
pub mod models;
pub mod pipeline;
pub mod services;
pub mod text;

use vstd::prelude::*;

verus! {

/// A friendly greeting for the given name.
pub fn greet(name: String) -> (r: String)
    ensures
        r@ == "Hello, "@ + name@ + "!"@,
{
    let mut r = "Hello, ".to_owned();
    r.append(name.as_str());
    r.append("!");
    r
}

} // verus!
