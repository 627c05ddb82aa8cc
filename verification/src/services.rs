//! The decision cores of the two collaborator-facing services.
//!
//! The network work of the services — fetching price history and news,
//! asking the AI model for advice, reading the brokerage's close price and
//! position stream — happens outside this library; the functions here take
//! the fetched values as arguments and carry the whole of the decision
//! logic: error classification, advice resolution, quantity resolution,
//! and the valuation arithmetic.

use vstd::prelude::*;

use crate::errors::AppErrors;
use crate::models::Money;
use crate::models::News;
use crate::models::OrderType;
use crate::models::PositionRecord;
use crate::models::PositionUpdate;
use crate::models::Stock;
use crate::models::StockData;
use crate::models::StockInvestment;
use crate::models::StockPricePerformance;
use crate::text::contains_sub;
use crate::text::contains_substring;

verus! {

/// The absolute value.
pub open spec fn abs_val(x: int) -> int {
    if x >= 0 {
        x
    } else {
        -x
    }
}

/// The first position reported for `ticker` before the end-of-stream
/// marker, if any.
pub open spec fn first_position(updates: Seq<PositionUpdate>, ticker: Seq<char>) -> Option<
    PositionRecord,
>
    decreases updates.len(),
{
    if updates.len() == 0 {
        None
    } else {
        match updates[0] {
            PositionUpdate::PositionEnd => None,
            PositionUpdate::Position(p) => if p.symbol@ == ticker {
                Some(p)
            } else {
                first_position(updates.drop_first(), ticker)
            },
        }
    }
}

/// One news item as it is rendered into the advice prompt.
pub open spec fn news_item_text(n: News) -> Seq<char> {
    "- "@ + n.title@ + " | "@ + n.summary@ + " ("@ + n.time_published@ + ")\n"@
}

/// The news list as it is rendered into the advice prompt.
pub open spec fn news_text(ns: Seq<News>) -> Seq<char>
    decreases ns.len(),
{
    if ns.len() == 0 {
        Seq::empty()
    } else {
        news_text(ns.drop_last()) + news_item_text(ns.last())
    }
}

/// One price sample as it is rendered into the advice prompt.
pub open spec fn price_item_text(p: StockPricePerformance) -> Seq<char> {
    "- "@ + p.date@ + " open "@ + p.open@ + " high "@ + p.high@ + " low "@ + p.low@ + "\n"@
}

/// The price history as it is rendered into the advice prompt.
pub open spec fn price_text(ps: Seq<StockPricePerformance>) -> Seq<char>
    decreases ps.len(),
{
    if ps.len() == 0 {
        Seq::empty()
    } else {
        price_text(ps.drop_last()) + price_item_text(ps.last())
    }
}

/// The complete prompt handed to the AI collaborator: the ticker, the news
/// list and the price history, followed by the one-word question.
pub open spec fn advice_prompt(data: StockData) -> Seq<char> {
    "Portfolio analysis:\nTicker: "@ + data.stock.ticker_symbol@ + "\nNews:\n"@ + news_text(
        data.news@,
    ) + "Price performance:\n"@ + price_text(data.stock_price_performance@)
        + "Should I SELL or BUY? Reply with only one word: SELL or BUY. (If you are not sure, do not reply with one of those words)"@
}

/// The trading service: every decision the brokerage-facing service makes,
/// on values already fetched from the brokerage.
pub struct TradingApiServiceLive;

impl TradingApiServiceLive {
    /// Assemble the data record for one pipeline run from the two provider
    /// answers.  A failed price-history fetch wins over a failed news
    /// fetch; either failure becomes a `GetStockDataError` carrying the
    /// provider's message unchanged.
    pub fn get_stock_data(
        stock: Stock,
        price_history: Result<Vec<StockPricePerformance>, String>,
        news: Result<Vec<News>, String>,
    ) -> (r: Result<StockData, AppErrors>)
        ensures
            price_history matches Err(e) ==> (r matches Err(AppErrors::GetStockDataError(m)) && m
                == e),
            price_history is Ok ==> (news matches Err(e) ==> (r matches Err(
                AppErrors::GetStockDataError(m),
            ) && m == e)),
            price_history matches Ok(ps) ==> (news matches Ok(ns) ==> (r matches Ok(d)
                && d.stock == stock && d.stock_price_performance == ps && d.news == ns)),
    {
        match price_history {
            Err(e) => Err(AppErrors::GetStockDataError(e)),
            Ok(ps) => match news {
                Err(e) => Err(AppErrors::GetStockDataError(e)),
                Ok(ns) => Ok(
                    StockData { stock, stock_price_performance: ps, news: ns },
                ),
            },
        }
    }

    /// How many whole shares the amount buys at the given close price:
    /// the floor of `close / amount`.  A zero amount buys nothing and is
    /// rejected, naming the ticker.
    pub fn convert_money_amount_to_stock_quantity(
        amount: Money,
        stock: &Stock,
        close_price_cents: u64,
    ) -> (r: Result<u64, AppErrors>)
        ensures
            amount.cents > 0 ==> (r matches Ok(q) && q == close_price_cents as int
                / amount.cents as int),
            amount.cents == 0 ==> (r matches Err(
                AppErrors::ConvertMoneyToStockQuantityError(m),
            ) && m@ == "A zero amount can't be converted to a stock quantity for ticker: "@
                + stock.ticker_symbol@),
    {
        if amount.cents == 0 {
            let mut msg =
                "A zero amount can't be converted to a stock quantity for ticker: ".to_owned();
            msg.append(stock.ticker_symbol.as_str());
            return Err(AppErrors::ConvertMoneyToStockQuantityError(msg));
        }
        Ok(close_price_cents / amount.cents)
    }

    /// The quantity that liquidates the whole position in `stock`: the
    /// absolute value of the first matching position's signed size, read
    /// from the position stream up to its end marker.  Without a matching
    /// position the stage fails, naming the ticker.
    pub fn get_quantity_to_sell_everything(stock: &Stock, position_updates: &Vec<PositionUpdate>)
        -> (r: Result<u64, AppErrors>)
        ensures
            first_position(position_updates@, stock.ticker_symbol@) matches Some(p) ==> (r
                matches Ok(q) && q == abs_val(p.position_hundredths as int)),
            first_position(position_updates@, stock.ticker_symbol@) is None ==> (r matches Err(
                AppErrors::GetQuantityToSellEverythingError(m),
            ) && m@
                == "There was an error while trying to get the latest closing amount. Possibly there are no positions available or not the position with this ticker_symbol: "@
                + stock.ticker_symbol@),
    {
        match Self::find_position(stock, position_updates) {
            Some(p) => Ok(Self::magnitude(p.position_hundredths)),
            None => {
                let mut msg =
                    "There was an error while trying to get the latest closing amount. Possibly there are no positions available or not the position with this ticker_symbol: ".to_owned();
                msg.append(stock.ticker_symbol.as_str());
                Err(AppErrors::GetQuantityToSellEverythingError(msg))
            },
        }
    }

    /// The first position reported for `stock` before the end marker.
    pub fn find_position(stock: &Stock, position_updates: &Vec<PositionUpdate>) -> (r: Option<
        PositionRecord,
    >)
        ensures
            r == first_position(position_updates@, stock.ticker_symbol@),
    {
        let n = position_updates.len();
        let ghost t = stock.ticker_symbol@;
        proof {
            assert(position_updates@.subrange(0, n as int) =~= position_updates@);
        }
        let mut k: usize = 0;
        while k < n
            invariant
                n == position_updates@.len(),
                0 <= k <= n,
                t == stock.ticker_symbol@,
                first_position(position_updates@, t) == first_position(
                    position_updates@.subrange(k as int, n as int),
                    t,
                ),
            decreases n - k,
        {
            let ghost suffix = position_updates@.subrange(k as int, n as int);
            proof {
                assert(suffix[0] == position_updates@[k as int]);
                assert(suffix.drop_first() =~= position_updates@.subrange(k + 1, n as int));
            }
            match &position_updates[k] {
                PositionUpdate::PositionEnd => {
                    return None;
                },
                PositionUpdate::Position(p) => {
                    if p.symbol == stock.ticker_symbol {
                        return Some(p.duplicate());
                    }
                },
            }
            k += 1;
        }
        proof {
            assert(position_updates@.subrange(n as int, n as int) =~= Seq::<
                PositionUpdate,
            >::empty());
        }
        None
    }

    /// The valuation snapshot of the position: size times average cost.
    /// The product of a size in hundredths of a share and a cost in cents
    /// has four fractional digits; it is a valid amount only when it is
    /// not below zero and no more than two of those digits are
    /// significant, that is, when it is a whole number of cents.  A value
    /// that is no valid amount fails this stage under the stage's own tag.
    pub fn get_current_investment(
        stock: Stock,
        stock_name: String,
        position: &PositionRecord,
    ) -> (r: Result<StockInvestment, AppErrors>)
        ensures
            ({
                let v = position.position_hundredths as int * position.average_cost_cents as int;
                &&& v < 0 ==> (r matches Err(AppErrors::GetCurrentInvestmentError(m)) && m@
                    == "The invested amount is below 0."@)
                &&& v >= 0 && v % 100 != 0 ==> (r matches Err(
                    AppErrors::GetCurrentInvestmentError(m),
                ) && m@ == "The invested amount has more than two digits after the comma."@)
                &&& v >= 0 && v % 100 == 0 && v / 100 > u64::MAX ==> (r matches Err(
                    AppErrors::GetCurrentInvestmentError(m),
                ) && m@ == "The invested amount is too large."@)
                &&& v >= 0 && v % 100 == 0 && v / 100 <= u64::MAX ==> (r matches Ok(inv)
                    && inv.stock == stock && inv.stock_name == stock_name
                    && inv.current_invested_amount.cents == v / 100)
            }),
    {
        let a = position.position_hundredths;
        let b = position.average_cost_cents;
        proof {
            assert((a as i128) * (b as i128) == a as int * b as int);
            assert(i64::MIN as int * i64::MIN as int <= i128::MAX as int) by (nonlinear_arith);
            assert(a as int * b as int <= i64::MIN as int * i64::MIN as int) by (nonlinear_arith)
                requires
                    i64::MIN as int <= a as int <= i64::MAX as int,
                    i64::MIN as int <= b as int <= i64::MAX as int,
            ;
            assert(a as int * b as int >= i64::MIN as int * i64::MAX as int) by (nonlinear_arith)
                requires
                    i64::MIN as int <= a as int <= i64::MAX as int,
                    i64::MIN as int <= b as int <= i64::MAX as int,
            ;
            assert(i64::MIN as int * i64::MAX as int >= i128::MIN as int) by (nonlinear_arith);
        }
        let v: i128 = (a as i128) * (b as i128);
        if v < 0 {
            return Err(
                AppErrors::GetCurrentInvestmentError("The invested amount is below 0.".to_owned()),
            );
        }
        if v % 100 != 0 {
            return Err(
                AppErrors::GetCurrentInvestmentError(
                    "The invested amount has more than two digits after the comma.".to_owned(),
                ),
            );
        }
        let cents_wide: i128 = v / 100;
        if cents_wide > u64::MAX as i128 {
            return Err(
                AppErrors::GetCurrentInvestmentError(
                    "The invested amount is too large.".to_owned(),
                ),
            );
        }
        Ok(
            StockInvestment {
                stock,
                stock_name,
                current_invested_amount: Money { cents: cents_wide as u64 },
            },
        )
    }

    /// The magnitude of a signed size in hundredths, as an unsigned count.
    fn magnitude(x: i64) -> (m: u64)
        ensures
            m == abs_val(x as int),
    {
        if x >= 0 {
            x as u64
        } else {
            ((-(x + 1)) as u64) + 1
        }
    }
}

/// The advice service: prompt construction and the classification of the
/// model's response.
pub struct AiServiceLive;

impl AiServiceLive {
    /// Build the prompt for one run from the fetched stock data.
    pub fn build_advice_prompt(data: &StockData) -> (p: String)
        ensures
            p@ == advice_prompt(*data),
    {
        let mut p = "Portfolio analysis:\nTicker: ".to_owned();
        p.append(data.stock.ticker_symbol.as_str());
        p.append("\nNews:\n");
        let n = data.news.len();
        let mut k: usize = 0;
        let ghost mid = p@;
        while k < n
            invariant
                n == data.news@.len(),
                0 <= k <= n,
                p@ == mid + news_text(data.news@.subrange(0, k as int)),
            decreases n - k,
        {
            let ghost prefix = data.news@.subrange(0, k as int);
            proof {
                assert(data.news@.subrange(0, k + 1).drop_last() =~= prefix);
                assert(data.news@.subrange(0, k + 1).last() == data.news@[k as int]);
            }
            let item = &data.news[k];
            p.append("- ");
            p.append(item.title.as_str());
            p.append(" | ");
            p.append(item.summary.as_str());
            p.append(" (");
            p.append(item.time_published.as_str());
            p.append(")\n");
            k += 1;
        }
        proof {
            assert(data.news@.subrange(0, n as int) =~= data.news@);
        }
        p.append("Price performance:\n");
        let np = data.stock_price_performance.len();
        let mut k2: usize = 0;
        let ghost mid2 = p@;
        while k2 < np
            invariant
                np == data.stock_price_performance@.len(),
                0 <= k2 <= np,
                p@ == mid2 + price_text(data.stock_price_performance@.subrange(0, k2 as int)),
            decreases np - k2,
        {
            let ghost prefix = data.stock_price_performance@.subrange(0, k2 as int);
            proof {
                assert(data.stock_price_performance@.subrange(0, k2 + 1).drop_last() =~= prefix);
                assert(data.stock_price_performance@.subrange(0, k2 + 1).last()
                    == data.stock_price_performance@[k2 as int]);
            }
            let item = &data.stock_price_performance[k2];
            p.append("- ");
            p.append(item.date.as_str());
            p.append(" open ");
            p.append(item.open.as_str());
            p.append(" high ");
            p.append(item.high.as_str());
            p.append(" low ");
            p.append(item.low.as_str());
            p.append("\n");
            k2 += 1;
        }
        proof {
            assert(data.stock_price_performance@.subrange(0, np as int)
                =~= data.stock_price_performance@);
        }
        p.append(
            "Should I SELL or BUY? Reply with only one word: SELL or BUY. (If you are not sure, do not reply with one of those words)",
        );
        p
    }

    /// Classify the model's response text.  `"SELL"` anywhere in the text
    /// means sell, and is checked first, so a text containing both words
    /// sells; otherwise `"BUY"` anywhere means buy; a text with neither is
    /// no clear advice and fails the stage.
    pub fn get_order_advice(response: &str) -> (r: Result<OrderType, AppErrors>)
        ensures
            contains_sub(response@, "SELL"@) ==> r matches Ok(OrderType::Sell),
            !contains_sub(response@, "SELL"@) && contains_sub(response@, "BUY"@) ==> r matches Ok(
                OrderType::Buy,
            ),
            !contains_sub(response@, "SELL"@) && !contains_sub(response@, "BUY"@) ==> (r matches
                Err(AppErrors::GetOrderAdviceError(m)) && m@
                == "The Ai didn't respond with a clear order advice"@),
    {
        if contains_substring(response, "SELL") {
            Ok(OrderType::Sell)
        } else if contains_substring(response, "BUY") {
            Ok(OrderType::Buy)
        } else {
            Err(
                AppErrors::GetOrderAdviceError(
                    "The Ai didn't respond with a clear order advice".to_owned(),
                ),
            )
        }
    }
}

} // verus!
