//! The data records of the pipeline: monetary amounts, stocks, orders,
//! price and news samples, positions, and configuration.
//!
//! Amounts and prices are carried in integer hundredths (cents), the exact
//! resolution of a two-fractional-digit amount; quantities of shares are
//! carried in integer hundredths of a share, so a fractional position such
//! as `-12.5` is the value `-1250`.

use vstd::prelude::*;

use crate::decimal::cents_value;
use crate::decimal::negative_value;
use crate::decimal::scan_decimal;
use crate::decimal::significant_frac_len;
use crate::decimal::valid_decimal;
use crate::errors::AppErrors;

verus! {

/// A validated monetary amount: non-negative, with at most two fractional
/// digits, held exactly as a count of cents.  Constructed only through
/// [`Money::new`].
#[derive(Debug, Clone, Copy, PartialEq, Eq, Structural)]
pub struct Money {
    /// The amount in cents.
    pub cents: u64,
}

impl Money {
    /// The validating factory for amounts, reading a decimal string such as
    /// `"1.10"`.  It rejects anything that is not a plain decimal, any
    /// amount below zero, any amount with more than two significant
    /// fractional digits (trailing zeros do not count: `"1.7382300"` is
    /// rejected, `"1.00"` is accepted), and any amount too large for a
    /// `u64` of cents.
    pub fn new(amount: &str) -> (r: Result<Money, AppErrors>)
        ensures
            (valid_decimal(amount@) && !negative_value(amount@) && significant_frac_len(amount@)
                <= 2 && cents_value(amount@) <= u64::MAX) <==> r is Ok,
            r matches Ok(m) ==> m.cents == cents_value(amount@),
            !valid_decimal(amount@) ==> (r matches Err(AppErrors::ModelCreationError(msg))
                && msg@ == "The amount is not a decimal number. Amount provided: "@ + amount@),
            valid_decimal(amount@) && negative_value(amount@) ==> (r matches Err(
                AppErrors::ModelCreationError(msg),
            ) && msg@ == "The money amount can't be below 0. Amount provided: "@ + amount@),
            valid_decimal(amount@) && !negative_value(amount@) && significant_frac_len(amount@)
                > 2 ==> (r matches Err(AppErrors::ModelCreationError(msg)) && msg@
                == "There were too many digits. Amount provided: "@ + amount@),
            valid_decimal(amount@) && !negative_value(amount@) && significant_frac_len(amount@)
                <= 2 && cents_value(amount@) > u64::MAX ==> (r matches Err(
                AppErrors::ModelCreationError(msg),
            ) && msg@ == "The amount is too large. Amount provided: "@ + amount@),
    {
        let d = scan_decimal(amount);
        if !d.valid {
            let mut msg = "The amount is not a decimal number. Amount provided: ".to_owned();
            msg.append(amount);
            return Err(AppErrors::ModelCreationError(msg));
        }
        if d.neg && !d.zero {
            let mut msg = "The money amount can't be below 0. Amount provided: ".to_owned();
            msg.append(amount);
            return Err(AppErrors::ModelCreationError(msg));
        }
        if d.sig > 2 {
            let mut msg = "There were too many digits. Amount provided: ".to_owned();
            msg.append(amount);
            return Err(AppErrors::ModelCreationError(msg));
        }
        let limit = (u64::MAX - d.fc) / 100;
        proof {
            vstd::arithmetic::div_mod::lemma_fundamental_div_mod((u64::MAX - d.fc) as int, 100);
        }
        if d.int_over || d.int_val > limit {
            let mut msg = "The amount is too large. Amount provided: ".to_owned();
            msg.append(amount);
            return Err(AppErrors::ModelCreationError(msg));
        }
        Ok(Money { cents: d.int_val * 100 + d.fc })
    }
}

/// The stock a pipeline run is about; the ticker symbol is the identity key
/// for every downstream lookup.
#[derive(Debug)]
pub struct Stock {
    /// The symbol under which the stock trades.
    pub ticker_symbol: String,
}

impl Stock {
    /// Wrap a ticker symbol.
    pub fn new(ticker_symbol: String) -> (s: Stock)
        ensures
            s.ticker_symbol == ticker_symbol,
    {
        Stock { ticker_symbol }
    }

    /// Unwrap the ticker symbol.
    pub fn get_ticker_symbol(self) -> (t: String)
        ensures
            t == self.ticker_symbol,
    {
        self.ticker_symbol
    }

    /// An equal copy of the stock.
    pub fn duplicate(&self) -> (s: Stock)
        ensures
            s == *self,
    {
        Stock { ticker_symbol: self.ticker_symbol.clone() }
    }
}

/// The side of an order.
#[derive(Debug, Clone, Copy, PartialEq, Eq, Structural)]
pub enum OrderType {
    /// Acquire shares.
    Buy,
    /// Dispose of shares.
    Sell,
}

/// A resolved order, created once per pipeline run after quantity
/// resolution and submitted exactly once.
#[derive(Debug)]
pub struct Order {
    /// The quantity in hundredths of a share.
    pub stock_quantity: u64,
    /// The stock the order is for.
    pub stock: Stock,
    /// Whether to buy or sell.
    pub order_type: OrderType,
    /// When the order was created, in milliseconds since the epoch, as read
    /// from the caller's clock.
    pub timestamp: u64,
}

impl Order {
    /// An equal copy of the order.
    pub fn duplicate(&self) -> (o: Order)
        ensures
            o == *self,
    {
        Order {
            stock_quantity: self.stock_quantity,
            stock: self.stock.duplicate(),
            order_type: self.order_type,
            timestamp: self.timestamp,
        }
    }
}

/// One open/high/low price sample, numeric fields kept as provider-native
/// strings until a consumer parses them.
#[derive(Debug)]
pub struct StockPricePerformance {
    /// The day of the sample.
    pub date: String,
    /// Opening price as the provider printed it.
    pub open: String,
    /// Highest price as the provider printed it.
    pub high: String,
    /// Lowest price as the provider printed it.
    pub low: String,
}

/// One news item about the stock.
#[derive(Debug)]
pub struct News {
    /// Headline.
    pub title: String,
    /// Abstract of the article.
    pub summary: String,
    /// Publication time as the provider printed it.
    pub time_published: String,
}

/// The envelope under which the news provider delivers its items.
#[derive(Debug)]
pub struct NewsApiResponse {
    /// The news items.
    pub feed: Vec<News>,
}

/// Everything fetched about a stock for one pipeline run: price history
/// (most recent last) and news.  Built once per run, read-only afterwards.
#[derive(Debug)]
pub struct StockData {
    /// The stock the data is about.
    pub stock: Stock,
    /// Price samples, most recent last.
    pub stock_price_performance: Vec<StockPricePerformance>,
    /// News items about the stock.
    pub news: Vec<News>,
}

/// The configuration handed to the collaborator adapters at startup; no
/// global state.
pub struct Config<'a> {
    /// Key for the market-data provider.
    pub alpha_vantage_api_key: &'a str,
    /// Endpoint of the brokerage gateway.
    pub interactive_brokers_connection_url_with_port: &'a str,
}

/// A point-in-time valuation snapshot of the holding in one stock.
#[derive(Debug)]
pub struct StockInvestment {
    /// The stock held.
    pub stock: Stock,
    /// The long name of the listed company.
    pub stock_name: String,
    /// The value of the holding.
    pub current_invested_amount: Money,
}

/// One position as the brokerage reports it.
#[derive(Debug)]
pub struct PositionRecord {
    /// The contract symbol the position is held under.
    pub symbol: String,
    /// The signed size of the position, in hundredths of a share.
    pub position_hundredths: i64,
    /// The average acquisition cost per share, in cents.
    pub average_cost_cents: i64,
}

impl PositionRecord {
    /// An equal copy of the record.
    pub fn duplicate(&self) -> (p: PositionRecord)
        ensures
            p == *self,
    {
        PositionRecord {
            symbol: self.symbol.clone(),
            position_hundredths: self.position_hundredths,
            average_cost_cents: self.average_cost_cents,
        }
    }
}

/// One event of the brokerage's position stream: a position, or the marker
/// that ends the stream.
#[derive(Debug)]
pub enum PositionUpdate {
    /// A reported position.
    Position(PositionRecord),
    /// The end-of-stream marker; nothing after it is scanned.
    PositionEnd,
}

} // verus!
