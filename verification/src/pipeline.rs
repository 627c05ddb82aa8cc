//! The pipeline orchestrator: two flows, each a state machine that walks
//! the fixed stage sequence and short-circuits on the first failure.
//!
//! A flow never talks to a collaborator itself.  It tells its driver what
//! to do next ([`AnalyzeFlow::next_action`], [`RefreshFlow::next_action`]),
//! and the driver hands the collaborator's answer back through the matching
//! `on_*` transition.  Every transition classifies a failure by the stage
//! that produced it and forwards the collaborator's message unchanged; a
//! failed flow requests nothing further, so collaborators of later stages
//! observe zero calls.

use vstd::prelude::*;

use crate::decimal::cents_value;
use crate::decimal::parse_cents;
use crate::decimal::signed_cents;
use crate::decimal::valid_decimal;
use crate::errors::AppErrors;
use crate::models::Money;
use crate::models::News;
use crate::models::Order;
use crate::models::OrderType;
use crate::models::PositionUpdate;
use crate::models::Stock;
use crate::models::StockData;
use crate::models::StockInvestment;
use crate::models::StockPricePerformance;
use crate::services::abs_val;
use crate::services::advice_prompt;
use crate::services::first_position;
use crate::services::AiServiceLive;
use crate::services::TradingApiServiceLive;
use crate::text::contains_sub;

verus! {

/// What a flow asks its driver to do next.  Every variant but `Done` is one
/// collaborator call; `Done` means the flow is terminal and nothing more
/// may be called on any collaborator.
#[derive(Debug)]
pub enum PipelineAction {
    /// Fetch price history and news for the ticker.
    FetchStockData { ticker: String },
    /// Ask the AI collaborator for a completion of the prompt.
    RequestAdvice { prompt: String },
    /// Fetch the latest daily close price for the ticker, in cents.
    FetchClosePrice { ticker: String },
    /// Fetch the position stream of the brokerage account.
    FetchPositions { ticker: String },
    /// Submit the market order to the brokerage.
    SubmitOrder { order: Order },
    /// Fetch the current-investment snapshot for the ticker.
    FetchInvestment { ticker: String },
    /// The flow is terminal; call nothing.
    Done,
}

/// The stage an analyze-and-trade run is at.
#[derive(Debug)]
pub enum AnalyzeState {
    /// Waiting for price history and news.
    FetchingData,
    /// Waiting for the AI collaborator's response to the prompt.
    AwaitingAdvice { data: StockData },
    /// The advice was to buy; waiting for the close price to size the order.
    AwaitingClosePrice,
    /// The advice was to sell; waiting for the position stream.
    AwaitingPositions,
    /// Waiting for the brokerage to acknowledge the submitted order.
    AwaitingOrderResult { order: Order },
    /// The order was placed; the run succeeded.
    Completed { report: AnalysisReport },
    /// A stage failed; the run is over and carries that stage's error.
    Failed { error: AppErrors },
}

/// The success payload of an analyze-and-trade run.
#[derive(Debug)]
pub struct AnalysisReport {
    /// A fixed completion message.
    pub message: String,
    /// The side of the order that was placed.
    pub order_type: OrderType,
    /// The quantity of the placed order, in hundredths of a share.
    pub quantity_hundredths: u64,
    /// The price field of the boundary payload, in cents; a fixed
    /// placeholder value today.
    pub price_cents: u64,
}

/// An analyze-and-trade run: fetch data, ask for advice, size the order
/// with the caller's funds (buy) or the open position (sell), submit it.
#[derive(Debug)]
pub struct AnalyzeFlow {
    /// The stock the run is about.
    pub stock: Stock,
    /// The validated funds available for a buy.
    pub amount: Money,
    /// Where the run stands.
    pub state: AnalyzeState,
}

/// The action `a` is the one the analyze flow `f` requests in its current
/// state.
pub open spec fn analyze_action_matches(f: AnalyzeFlow, a: PipelineAction) -> bool {
    match f.state {
        AnalyzeState::FetchingData => a matches PipelineAction::FetchStockData { ticker }
            && ticker@ == f.stock.ticker_symbol@,
        AnalyzeState::AwaitingAdvice { data } => a matches PipelineAction::RequestAdvice { prompt }
            && prompt@ == advice_prompt(data),
        AnalyzeState::AwaitingClosePrice => a matches PipelineAction::FetchClosePrice { ticker }
            && ticker@ == f.stock.ticker_symbol@,
        AnalyzeState::AwaitingPositions => a matches PipelineAction::FetchPositions { ticker }
            && ticker@ == f.stock.ticker_symbol@,
        AnalyzeState::AwaitingOrderResult { order } => a matches PipelineAction::SubmitOrder {
            order: o,
        } && o == order,
        AnalyzeState::Completed { .. } => a is Done,
        AnalyzeState::Failed { .. } => a is Done,
    }
}

impl AnalyzeFlow {
    /// Begin a run for `stock` with validated funds `amount`.  The amount
    /// is validated by `Money::new` before the flow starts; a rejected
    /// amount never reaches the pipeline.
    pub fn start(stock: Stock, amount: Money) -> (f: AnalyzeFlow)
        ensures
            f.stock == stock,
            f.amount == amount,
            f.state is FetchingData,
    {
        AnalyzeFlow { stock, amount, state: AnalyzeState::FetchingData }
    }

    /// What the driver must do next; a pure reading of the state.
    pub fn next_action(&self) -> (a: PipelineAction)
        ensures
            analyze_action_matches(*self, a),
    {
        match &self.state {
            AnalyzeState::FetchingData => PipelineAction::FetchStockData {
                ticker: self.stock.ticker_symbol.clone(),
            },
            AnalyzeState::AwaitingAdvice { data } => PipelineAction::RequestAdvice {
                prompt: AiServiceLive::build_advice_prompt(data),
            },
            AnalyzeState::AwaitingClosePrice => PipelineAction::FetchClosePrice {
                ticker: self.stock.ticker_symbol.clone(),
            },
            AnalyzeState::AwaitingPositions => PipelineAction::FetchPositions {
                ticker: self.stock.ticker_symbol.clone(),
            },
            AnalyzeState::AwaitingOrderResult { order } => PipelineAction::SubmitOrder {
                order: order.duplicate(),
            },
            AnalyzeState::Completed { .. } => PipelineAction::Done,
            AnalyzeState::Failed { .. } => PipelineAction::Done,
        }
    }

    /// The data-fetch stage answered.  A failure of either provider call
    /// fails the run as `GetStockDataError` with the provider's message; on
    /// success the flow holds the assembled data and asks for advice.
    pub fn on_stock_data(
        self,
        price_history: Result<Vec<StockPricePerformance>, String>,
        news: Result<Vec<News>, String>,
    ) -> (f: AnalyzeFlow)
        requires
            self.state is FetchingData,
        ensures
            f.stock == self.stock,
            f.amount == self.amount,
            price_history matches Err(e) ==> (f.state matches AnalyzeState::Failed {
                error: AppErrors::GetStockDataError(m),
            } && m == e),
            price_history is Ok ==> (news matches Err(e) ==> (f.state matches AnalyzeState::Failed {
                error: AppErrors::GetStockDataError(m),
            } && m == e)),
            price_history matches Ok(ps) ==> (news matches Ok(ns) ==> (f.state matches
                AnalyzeState::AwaitingAdvice { data } && data.stock == self.stock
                && data.stock_price_performance == ps && data.news == ns)),
    {
        let AnalyzeFlow { stock, amount, state: _ } = self;
        let dup = stock.duplicate();
        match TradingApiServiceLive::get_stock_data(stock, price_history, news) {
            Ok(data) => AnalyzeFlow {
                stock: dup,
                amount,
                state: AnalyzeState::AwaitingAdvice { data },
            },
            Err(error) => AnalyzeFlow { stock: dup, amount, state: AnalyzeState::Failed { error } },
        }
    }

    /// The advice stage answered.  A collaborator failure, or a response
    /// with neither word, fails the run as `GetOrderAdviceError`; a clear
    /// response routes the run to the matching quantity stage, `"SELL"`
    /// winning over `"BUY"` when both occur.
    pub fn on_advice_response(self, response: Result<String, String>) -> (f: AnalyzeFlow)
        requires
            self.state is AwaitingAdvice,
        ensures
            f.stock == self.stock,
            f.amount == self.amount,
            response matches Err(e) ==> (f.state matches AnalyzeState::Failed {
                error: AppErrors::GetOrderAdviceError(m),
            } && m == e),
            response matches Ok(text) ==> ({
                if contains_sub(text@, "SELL"@) {
                    f.state is AwaitingPositions
                } else if contains_sub(text@, "BUY"@) {
                    f.state is AwaitingClosePrice
                } else {
                    f.state matches AnalyzeState::Failed {
                        error: AppErrors::GetOrderAdviceError(m),
                    } && m@ == "The Ai didn't respond with a clear order advice"@
                }
            }),
    {
        let AnalyzeFlow { stock, amount, state: _ } = self;
        match response {
            Err(e) => AnalyzeFlow {
                stock,
                amount,
                state: AnalyzeState::Failed { error: AppErrors::GetOrderAdviceError(e) },
            },
            Ok(text) => match AiServiceLive::get_order_advice(text.as_str()) {
                Ok(OrderType::Sell) => AnalyzeFlow {
                    stock,
                    amount,
                    state: AnalyzeState::AwaitingPositions,
                },
                Ok(OrderType::Buy) => AnalyzeFlow {
                    stock,
                    amount,
                    state: AnalyzeState::AwaitingClosePrice,
                },
                Err(error) => AnalyzeFlow { stock, amount, state: AnalyzeState::Failed { error } },
            },
        }
    }

    /// The close-price fetch answered, for a buy.  A collaborator failure
    /// fails the run as `ConvertMoneyToStockQuantityError`, naming the
    /// ticker; a close price sizes the order at the floor of
    /// `close / amount` shares, rejecting a zero amount and a quantity too
    /// large to carry in hundredths.
    pub fn on_close_price(self, close_price_cents: Result<u64, String>, timestamp: u64) -> (f:
        AnalyzeFlow)
        requires
            self.state is AwaitingClosePrice,
        ensures
            f.stock == self.stock,
            f.amount == self.amount,
            close_price_cents matches Err(e) ==> (f.state matches AnalyzeState::Failed {
                error: AppErrors::ConvertMoneyToStockQuantityError(m),
            } && m@ == e@ + " for ticker: "@ + self.stock.ticker_symbol@),
            close_price_cents matches Ok(c) ==> ({
                let q = c as int / self.amount.cents as int;
                if self.amount.cents == 0 {
                    f.state matches AnalyzeState::Failed {
                        error: AppErrors::ConvertMoneyToStockQuantityError(m),
                    } && m@ == "A zero amount can't be converted to a stock quantity for ticker: "@
                        + self.stock.ticker_symbol@
                } else if q > u64::MAX as int / 100 {
                    f.state matches AnalyzeState::Failed {
                        error: AppErrors::ConvertMoneyToStockQuantityError(m),
                    } && m@ == "The resolved quantity is too large for ticker: "@
                        + self.stock.ticker_symbol@
                } else {
                    f.state matches AnalyzeState::AwaitingOrderResult { order } && order.stock
                        == self.stock && order.order_type == OrderType::Buy
                        && order.stock_quantity == 100 * q && order.timestamp == timestamp
                }
            }),
    {
        let AnalyzeFlow { stock, amount, state: _ } = self;
        match close_price_cents {
            Err(e) => {
                let mut m = e;
                m.append(" for ticker: ");
                m.append(stock.ticker_symbol.as_str());
                AnalyzeFlow {
                    stock,
                    amount,
                    state: AnalyzeState::Failed {
                        error: AppErrors::ConvertMoneyToStockQuantityError(m),
                    },
                }
            },
            Ok(c) => match TradingApiServiceLive::convert_money_amount_to_stock_quantity(
                amount,
                &stock,
                c,
            ) {
                Err(error) => AnalyzeFlow { stock, amount, state: AnalyzeState::Failed { error } },
                Ok(q) => {
                    if q > u64::MAX / 100 {
                        let mut m = "The resolved quantity is too large for ticker: ".to_owned();
                        m.append(stock.ticker_symbol.as_str());
                        AnalyzeFlow {
                            stock,
                            amount,
                            state: AnalyzeState::Failed {
                                error: AppErrors::ConvertMoneyToStockQuantityError(m),
                            },
                        }
                    } else {
                        let dup = stock.duplicate();
                        let order = Order {
                            stock_quantity: 100 * q,
                            stock: dup,
                            order_type: OrderType::Buy,
                            timestamp,
                        };
                        AnalyzeFlow {
                            stock,
                            amount,
                            state: AnalyzeState::AwaitingOrderResult { order },
                        }
                    }
                },
            },
        }
    }

    /// The position stream answered, for a sell.  A collaborator failure,
    /// or a stream without a position for the ticker, fails the run as
    /// `GetQuantityToSellEverythingError`; a matching position sizes the
    /// sell order at the absolute value of its signed size.
    pub fn on_positions(self, position_updates: Result<Vec<PositionUpdate>, String>,
        timestamp: u64) -> (f: AnalyzeFlow)
        requires
            self.state is AwaitingPositions,
        ensures
            f.stock == self.stock,
            f.amount == self.amount,
            position_updates matches Err(e) ==> (f.state matches AnalyzeState::Failed {
                error: AppErrors::GetQuantityToSellEverythingError(m),
            } && m == e),
            position_updates matches Ok(ups) ==> ({
                match first_position(ups@, self.stock.ticker_symbol@) {
                    Some(p) => f.state matches AnalyzeState::AwaitingOrderResult { order }
                        && order.stock == self.stock && order.order_type == OrderType::Sell
                        && order.stock_quantity == abs_val(p.position_hundredths as int)
                        && order.timestamp == timestamp,
                    None => f.state matches AnalyzeState::Failed {
                        error: AppErrors::GetQuantityToSellEverythingError(m),
                    } && m@
                        == "There was an error while trying to get the latest closing amount. Possibly there are no positions available or not the position with this ticker_symbol: "@
                        + self.stock.ticker_symbol@,
                }
            }),
    {
        let AnalyzeFlow { stock, amount, state: _ } = self;
        match position_updates {
            Err(e) => AnalyzeFlow {
                stock,
                amount,
                state: AnalyzeState::Failed {
                    error: AppErrors::GetQuantityToSellEverythingError(e),
                },
            },
            Ok(ups) => match TradingApiServiceLive::get_quantity_to_sell_everything(&stock, &ups) {
                Err(error) => AnalyzeFlow { stock, amount, state: AnalyzeState::Failed { error } },
                Ok(q) => {
                    let dup = stock.duplicate();
                    let order = Order {
                        stock_quantity: q,
                        stock: dup,
                        order_type: OrderType::Sell,
                        timestamp,
                    };
                    AnalyzeFlow { stock, amount, state: AnalyzeState::AwaitingOrderResult { order } }
                },
            },
        }
    }

    /// The brokerage answered the submission.  A failure fails the run as
    /// `PlaceOrderError` with the brokerage's message; an acknowledgement
    /// completes the run with the report the boundary renders.
    pub fn on_order_result(self, outcome: Result<String, String>) -> (f: AnalyzeFlow)
        requires
            self.state is AwaitingOrderResult,
        ensures
            f.stock == self.stock,
            f.amount == self.amount,
            outcome matches Err(e) ==> (f.state matches AnalyzeState::Failed {
                error: AppErrors::PlaceOrderError(m),
            } && m == e),
            outcome is Ok ==> (self.state matches AnalyzeState::AwaitingOrderResult { order } ==> (
            f.state matches AnalyzeState::Completed { report } && report.message@
                == "Analysis complete"@ && report.order_type == order.order_type
                && report.quantity_hundredths == order.stock_quantity && report.price_cents
                == 110)),
    {
        let AnalyzeFlow { stock, amount, state } = self;
        match state {
            AnalyzeState::AwaitingOrderResult { order } => match outcome {
                Err(e) => AnalyzeFlow {
                    stock,
                    amount,
                    state: AnalyzeState::Failed { error: AppErrors::PlaceOrderError(e) },
                },
                Ok(_ack) => {
                    let report = AnalysisReport {
                        message: "Analysis complete".to_owned(),
                        order_type: order.order_type,
                        quantity_hundredths: order.stock_quantity,
                        price_cents: 110,
                    };
                    AnalyzeFlow { stock, amount, state: AnalyzeState::Completed { report } }
                },
            },
            _ => AnalyzeFlow { stock, amount, state: AnalyzeState::FetchingData },
        }
    }
}

/// A flow that has reached a terminal state — success or failure — requests
/// nothing further: no collaborator of a later stage ever observes a call
/// from a failed run.
pub proof fn law_terminal_analyze_requests_nothing(f: AnalyzeFlow, a: PipelineAction)
    requires
        f.state is Completed || f.state is Failed,
        analyze_action_matches(f, a),
    ensures
        a is Done,
{
}

/// The stage a refresh-and-conditionally-sell run is at.
#[derive(Debug)]
pub enum RefreshState {
    /// Waiting for price history and news.
    FetchingData,
    /// Waiting for the AI collaborator's response to the prompt.
    AwaitingAdvice { data: StockData },
    /// The advice was to sell; waiting for the position stream.
    AwaitingPositions { data: StockData },
    /// Waiting for the brokerage to acknowledge the sell order.
    AwaitingOrderResult { data: StockData, order: Order },
    /// Waiting for the best-effort current-investment snapshot.
    AwaitingInvestment { data: StockData, action_taken: String },
    /// The run succeeded.
    Completed { report: RefreshReport },
    /// A stage failed; the run is over and carries that stage's error.
    Failed { error: AppErrors },
}

/// The success payload of a refresh run.
#[derive(Debug)]
pub struct RefreshReport {
    /// `"Sell order placed"` after a sell, `"No action taken"` otherwise.
    pub action_taken: String,
    /// The long name of the listed company, or the ticker when the
    /// snapshot was synthesized.
    pub stock_name: String,
    /// The value of the holding, zero when the snapshot was synthesized.
    pub invested_amount: Money,
    /// The current price in cents, read from the lowest price of the most
    /// recent sample.
    pub current_price_cents: i64,
}

/// A refresh-and-conditionally-sell run: fetch data, ask for advice, sell
/// the whole position when the advice says sell, then report the holding's
/// valuation and current price.
#[derive(Debug)]
pub struct RefreshFlow {
    /// The stock the run is about.
    pub stock: Stock,
    /// Where the run stands.
    pub state: RefreshState,
}

/// The action `a` is the one the refresh flow `f` requests in its current
/// state.
pub open spec fn refresh_action_matches(f: RefreshFlow, a: PipelineAction) -> bool {
    match f.state {
        RefreshState::FetchingData => a matches PipelineAction::FetchStockData { ticker }
            && ticker@ == f.stock.ticker_symbol@,
        RefreshState::AwaitingAdvice { data } => a matches PipelineAction::RequestAdvice { prompt }
            && prompt@ == advice_prompt(data),
        RefreshState::AwaitingPositions { .. } => a matches PipelineAction::FetchPositions {
            ticker,
        } && ticker@ == f.stock.ticker_symbol@,
        RefreshState::AwaitingOrderResult { order, .. } => a matches PipelineAction::SubmitOrder {
            order: o,
        } && o == order,
        RefreshState::AwaitingInvestment { .. } => a matches PipelineAction::FetchInvestment {
            ticker,
        } && ticker@ == f.stock.ticker_symbol@,
        RefreshState::Completed { .. } => a is Done,
        RefreshState::Failed { .. } => a is Done,
    }
}

impl RefreshFlow {
    /// Begin a refresh run for `stock`.
    pub fn start(stock: Stock) -> (f: RefreshFlow)
        ensures
            f.stock == stock,
            f.state is FetchingData,
    {
        RefreshFlow { stock, state: RefreshState::FetchingData }
    }

    /// What the driver must do next; a pure reading of the state.
    pub fn next_action(&self) -> (a: PipelineAction)
        ensures
            refresh_action_matches(*self, a),
    {
        match &self.state {
            RefreshState::FetchingData => PipelineAction::FetchStockData {
                ticker: self.stock.ticker_symbol.clone(),
            },
            RefreshState::AwaitingAdvice { data } => PipelineAction::RequestAdvice {
                prompt: AiServiceLive::build_advice_prompt(data),
            },
            RefreshState::AwaitingPositions { .. } => PipelineAction::FetchPositions {
                ticker: self.stock.ticker_symbol.clone(),
            },
            RefreshState::AwaitingOrderResult { order, .. } => PipelineAction::SubmitOrder {
                order: order.duplicate(),
            },
            RefreshState::AwaitingInvestment { .. } => PipelineAction::FetchInvestment {
                ticker: self.stock.ticker_symbol.clone(),
            },
            RefreshState::Completed { .. } => PipelineAction::Done,
            RefreshState::Failed { .. } => PipelineAction::Done,
        }
    }

    /// The data-fetch stage answered; as in the analyze flow.
    pub fn on_stock_data(
        self,
        price_history: Result<Vec<StockPricePerformance>, String>,
        news: Result<Vec<News>, String>,
    ) -> (f: RefreshFlow)
        requires
            self.state is FetchingData,
        ensures
            f.stock == self.stock,
            price_history matches Err(e) ==> (f.state matches RefreshState::Failed {
                error: AppErrors::GetStockDataError(m),
            } && m == e),
            price_history is Ok ==> (news matches Err(e) ==> (f.state matches RefreshState::Failed {
                error: AppErrors::GetStockDataError(m),
            } && m == e)),
            price_history matches Ok(ps) ==> (news matches Ok(ns) ==> (f.state matches
                RefreshState::AwaitingAdvice { data } && data.stock == self.stock
                && data.stock_price_performance == ps && data.news == ns)),
    {
        let RefreshFlow { stock, state: _ } = self;
        let dup = stock.duplicate();
        match TradingApiServiceLive::get_stock_data(stock, price_history, news) {
            Ok(data) => RefreshFlow { stock: dup, state: RefreshState::AwaitingAdvice { data } },
            Err(error) => RefreshFlow { stock: dup, state: RefreshState::Failed { error } },
        }
    }

    /// The advice stage answered.  `"SELL"` routes the run to liquidation;
    /// `"BUY"` places no order and goes straight to the snapshot stage with
    /// `"No action taken"`; anything else fails as `GetOrderAdviceError`.
    pub fn on_advice_response(self, response: Result<String, String>) -> (f: RefreshFlow)
        requires
            self.state is AwaitingAdvice,
        ensures
            f.stock == self.stock,
            response matches Err(e) ==> (f.state matches RefreshState::Failed {
                error: AppErrors::GetOrderAdviceError(m),
            } && m == e),
            response matches Ok(text) ==> (self.state matches RefreshState::AwaitingAdvice {
                data,
            } ==> ({
                if contains_sub(text@, "SELL"@) {
                    f.state matches RefreshState::AwaitingPositions { data: d } && d == data
                } else if contains_sub(text@, "BUY"@) {
                    f.state matches RefreshState::AwaitingInvestment { data: d, action_taken } && d
                        == data && action_taken@ == "No action taken"@
                } else {
                    f.state matches RefreshState::Failed {
                        error: AppErrors::GetOrderAdviceError(m),
                    } && m@ == "The Ai didn't respond with a clear order advice"@
                }
            })),
    {
        let RefreshFlow { stock, state } = self;
        match state {
            RefreshState::AwaitingAdvice { data } => match response {
                Err(e) => RefreshFlow {
                    stock,
                    state: RefreshState::Failed { error: AppErrors::GetOrderAdviceError(e) },
                },
                Ok(text) => match AiServiceLive::get_order_advice(text.as_str()) {
                    Ok(OrderType::Sell) => RefreshFlow {
                        stock,
                        state: RefreshState::AwaitingPositions { data },
                    },
                    Ok(OrderType::Buy) => RefreshFlow {
                        stock,
                        state: RefreshState::AwaitingInvestment {
                            data,
                            action_taken: "No action taken".to_owned(),
                        },
                    },
                    Err(error) => RefreshFlow { stock, state: RefreshState::Failed { error } },
                },
            },
            _ => RefreshFlow { stock, state: RefreshState::FetchingData },
        }
    }

    /// The position stream answered, for the sell branch; the sell order is
    /// sized at the absolute value of the position's signed size, as in the
    /// analyze flow.
    pub fn on_positions(self, position_updates: Result<Vec<PositionUpdate>, String>,
        timestamp: u64) -> (f: RefreshFlow)
        requires
            self.state is AwaitingPositions,
        ensures
            f.stock == self.stock,
            position_updates matches Err(e) ==> (f.state matches RefreshState::Failed {
                error: AppErrors::GetQuantityToSellEverythingError(m),
            } && m == e),
            position_updates matches Ok(ups) ==> (self.state matches
                RefreshState::AwaitingPositions { data } ==> ({
                match first_position(ups@, self.stock.ticker_symbol@) {
                    Some(p) => f.state matches RefreshState::AwaitingOrderResult {
                        data: d,
                        order,
                    } && d == data && order.stock == self.stock && order.order_type
                        == OrderType::Sell && order.stock_quantity == abs_val(
                        p.position_hundredths as int,
                    ) && order.timestamp == timestamp,
                    None => f.state matches RefreshState::Failed {
                        error: AppErrors::GetQuantityToSellEverythingError(m),
                    } && m@
                        == "There was an error while trying to get the latest closing amount. Possibly there are no positions available or not the position with this ticker_symbol: "@
                        + self.stock.ticker_symbol@,
                }
            })),
    {
        let RefreshFlow { stock, state } = self;
        match state {
            RefreshState::AwaitingPositions { data } => match position_updates {
                Err(e) => RefreshFlow {
                    stock,
                    state: RefreshState::Failed {
                        error: AppErrors::GetQuantityToSellEverythingError(e),
                    },
                },
                Ok(ups) => match TradingApiServiceLive::get_quantity_to_sell_everything(
                    &stock,
                    &ups,
                ) {
                    Err(error) => RefreshFlow { stock, state: RefreshState::Failed { error } },
                    Ok(q) => {
                        let dup = stock.duplicate();
                        let order = Order {
                            stock_quantity: q,
                            stock: dup,
                            order_type: OrderType::Sell,
                            timestamp,
                        };
                        RefreshFlow {
                            stock,
                            state: RefreshState::AwaitingOrderResult { data, order },
                        }
                    },
                },
            },
            _ => RefreshFlow { stock, state: RefreshState::FetchingData },
        }
    }

    /// The brokerage answered the sell submission.  A failure fails the run
    /// as `PlaceOrderError`; an acknowledgement records `"Sell order
    /// placed"` and moves on to the snapshot stage.
    pub fn on_order_result(self, outcome: Result<String, String>) -> (f: RefreshFlow)
        requires
            self.state is AwaitingOrderResult,
        ensures
            f.stock == self.stock,
            outcome matches Err(e) ==> (f.state matches RefreshState::Failed {
                error: AppErrors::PlaceOrderError(m),
            } && m == e),
            outcome is Ok ==> (self.state matches RefreshState::AwaitingOrderResult {
                data,
                order: _,
            } ==> (f.state matches RefreshState::AwaitingInvestment { data: d, action_taken } && d
                == data && action_taken@ == "Sell order placed"@)),
    {
        let RefreshFlow { stock, state } = self;
        match state {
            RefreshState::AwaitingOrderResult { data, order: _ } => match outcome {
                Err(e) => RefreshFlow {
                    stock,
                    state: RefreshState::Failed { error: AppErrors::PlaceOrderError(e) },
                },
                Ok(_ack) => RefreshFlow {
                    stock,
                    state: RefreshState::AwaitingInvestment {
                        data,
                        action_taken: "Sell order placed".to_owned(),
                    },
                },
            },
            _ => RefreshFlow { stock, state: RefreshState::FetchingData },
        }
    }

    /// The snapshot stage answered; this is the one place a failure is
    /// swallowed.  A failed snapshot is downgraded to a synthesized
    /// zero-valued snapshot under the ticker's own name rather than
    /// aborting the run.  The run then derives the current price from the
    /// lowest price of the most recent sample; a missing or unreadable
    /// sample fails the run as `GetStockDataError`.
    pub fn on_investment(self, investment: Result<StockInvestment, AppErrors>) -> (f: RefreshFlow)
        requires
            self.state is AwaitingInvestment,
        ensures
            f.stock == self.stock,
            self.state matches RefreshState::AwaitingInvestment { data, action_taken } ==> ({
                if data.stock_price_performance@.len() == 0 {
                    f.state matches RefreshState::Failed {
                        error: AppErrors::GetStockDataError(m),
                    } && m@ == "Failed to retrieve the current stock price."@
                } else {
                    let low = data.stock_price_performance@.last().low@;
                    if valid_decimal(low) && cents_value(low) <= i64::MAX {
                        f.state matches RefreshState::Completed { report }
                            && report.action_taken == action_taken && report.current_price_cents
                            == signed_cents(low) && (investment matches Ok(inv)
                            ==> report.stock_name == inv.stock_name && report.invested_amount
                            == inv.current_invested_amount) && (investment is Err
                            ==> report.stock_name@ == self.stock.ticker_symbol@
                            && report.invested_amount.cents == 0)
                    } else {
                        f.state matches RefreshState::Failed {
                            error: AppErrors::GetStockDataError(m),
                        } && m@ == "Failed to retrieve the current stock price."@
                    }
                }
            }),
    {
        let RefreshFlow { stock, state } = self;
        match state {
            RefreshState::AwaitingInvestment { data, action_taken } => {
                let (stock_name, invested_amount) = match investment {
                    Ok(inv) => (inv.stock_name, inv.current_invested_amount),
                    Err(_swallowed) => (stock.ticker_symbol.clone(), Money { cents: 0 }),
                };
                let n = data.stock_price_performance.len();
                if n == 0 {
                    RefreshFlow {
                        stock,
                        state: RefreshState::Failed {
                            error: AppErrors::GetStockDataError(
                                "Failed to retrieve the current stock price.".to_owned(),
                            ),
                        },
                    }
                } else {
                    let last = &data.stock_price_performance[n - 1];
                    match parse_cents(last.low.as_str()) {
                        Some(pc) => {
                            let report = RefreshReport {
                                action_taken,
                                stock_name,
                                invested_amount,
                                current_price_cents: pc,
                            };
                            RefreshFlow { stock, state: RefreshState::Completed { report } }
                        },
                        None => RefreshFlow {
                            stock,
                            state: RefreshState::Failed {
                                error: AppErrors::GetStockDataError(
                                    "Failed to retrieve the current stock price.".to_owned(),
                                ),
                            },
                        },
                    }
                }
            },
            _ => RefreshFlow { stock, state: RefreshState::FetchingData },
        }
    }
}

/// As for the analyze flow: a refresh run that has reached a terminal
/// state requests nothing further from any collaborator.
pub proof fn law_terminal_refresh_requests_nothing(f: RefreshFlow, a: PipelineAction)
    requires
        f.state is Completed || f.state is Failed,
        refresh_action_matches(f, a),
    ensures
        a is Done,
{
}

} // verus!
