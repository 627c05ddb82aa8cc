use trade_advisor::errors::AppErrors;
use trade_advisor::models::Money;
use trade_advisor::models::News;
use trade_advisor::models::OrderType;
use trade_advisor::models::PositionRecord;
use trade_advisor::models::PositionUpdate;
use trade_advisor::models::Stock;
use trade_advisor::models::StockInvestment;
use trade_advisor::models::StockPricePerformance;
use trade_advisor::pipeline::AnalyzeFlow;
use trade_advisor::pipeline::AnalyzeState;
use trade_advisor::pipeline::PipelineAction;
use trade_advisor::pipeline::RefreshFlow;
use trade_advisor::pipeline::RefreshState;

fn goog() -> Stock {
    Stock::new("GOOG".to_string())
}

fn sample_prices() -> Vec<StockPricePerformance> {
    vec![StockPricePerformance {
        date: "2017-12-29".to_string(),
        open: "1015.8".to_string(),
        high: "1078.49".to_string(),
        low: "988.28".to_string(),
    }]
}

fn sample_news() -> Vec<News> {
    vec![News {
        title: "T".to_string(),
        summary: "S".to_string(),
        time_published: "20250204T025520".to_string(),
    }]
}

#[test]
fn analyze_buy_run_places_a_ninety_share_order() {
    // Ticker GOOG, amount 1.10, advice "BUY", close price 100.00:
    // floor(100.00 / 1.10) = 90 shares, bought and acknowledged.
    let amount = Money::new("1.10").unwrap();
    let flow = AnalyzeFlow::start(goog(), amount);
    match flow.next_action() {
        PipelineAction::FetchStockData { ticker } => assert_eq!(ticker, "GOOG"),
        other => panic!("expected a data fetch, got {:?}", other),
    }
    let flow = flow.on_stock_data(Ok(sample_prices()), Ok(sample_news()));
    match flow.next_action() {
        PipelineAction::RequestAdvice { prompt } => assert!(prompt.contains("Ticker: GOOG")),
        other => panic!("expected an advice request, got {:?}", other),
    }
    let flow = flow.on_advice_response(Ok("BUY".to_string()));
    match flow.next_action() {
        PipelineAction::FetchClosePrice { ticker } => assert_eq!(ticker, "GOOG"),
        other => panic!("expected a close price fetch, got {:?}", other),
    }
    let flow = flow.on_close_price(Ok(10000), 42);
    match flow.next_action() {
        PipelineAction::SubmitOrder { order } => {
            assert_eq!(order.stock.ticker_symbol, "GOOG");
            assert_eq!(order.order_type, OrderType::Buy);
            assert_eq!(order.stock_quantity, 9000); // 90 whole shares
            assert_eq!(order.timestamp, 42);
        }
        other => panic!("expected an order submission, got {:?}", other),
    }
    let flow = flow.on_order_result(Ok("order accepted".to_string()));
    match flow.state {
        AnalyzeState::Completed { report } => {
            assert_eq!(report.message, "Analysis complete");
            assert_eq!(report.order_type, OrderType::Buy);
            assert_eq!(report.quantity_hundredths, 9000);
            assert_eq!(report.price_cents, 110);
        }
        other => panic!("expected a completed run, got {:?}", other),
    }
}

#[test]
fn analyze_sell_run_liquidates_the_position() {
    let amount = Money::new("1.10").unwrap();
    let flow = AnalyzeFlow::start(goog(), amount);
    let flow = flow.on_stock_data(Ok(sample_prices()), Ok(sample_news()));
    let flow = flow.on_advice_response(Ok("SELL".to_string()));
    match flow.next_action() {
        PipelineAction::FetchPositions { ticker } => assert_eq!(ticker, "GOOG"),
        other => panic!("expected a position fetch, got {:?}", other),
    }
    let updates = vec![PositionUpdate::Position(PositionRecord {
        symbol: "GOOG".to_string(),
        position_hundredths: -1250,
        average_cost_cents: 1000,
    })];
    let flow = flow.on_positions(Ok(updates), 7);
    match flow.next_action() {
        PipelineAction::SubmitOrder { order } => {
            assert_eq!(order.order_type, OrderType::Sell);
            assert_eq!(order.stock_quantity, 1250); // 12.5 shares
        }
        other => panic!("expected an order submission, got {:?}", other),
    }
}

#[test]
fn analyze_data_failure_short_circuits_every_later_stage() {
    // The first stage fails; the run is over, and the flow requests no
    // further collaborator call of any kind.
    let amount = Money::new("1.10").unwrap();
    let flow = AnalyzeFlow::start(goog(), amount);
    let flow = flow.on_stock_data(Err("unknown ticker".to_string()), Ok(sample_news()));
    match &flow.state {
        AnalyzeState::Failed {
            error: AppErrors::GetStockDataError(m),
        } => assert_eq!(m, "unknown ticker"),
        other => panic!("expected a data fetch failure, got {:?}", other),
    }
    assert!(matches!(flow.next_action(), PipelineAction::Done));
}

#[test]
fn analyze_unclear_advice_fails_the_advice_stage() {
    let amount = Money::new("1.10").unwrap();
    let flow = AnalyzeFlow::start(goog(), amount);
    let flow = flow.on_stock_data(Ok(sample_prices()), Ok(sample_news()));
    let flow = flow.on_advice_response(Ok("no idea".to_string()));
    assert!(matches!(
        flow.state,
        AnalyzeState::Failed {
            error: AppErrors::GetOrderAdviceError(_)
        }
    ));
    assert!(matches!(flow.next_action(), PipelineAction::Done));
}

#[test]
fn analyze_close_price_failure_names_the_ticker() {
    let amount = Money::new("1.10").unwrap();
    let flow = AnalyzeFlow::start(goog(), amount);
    let flow = flow.on_stock_data(Ok(sample_prices()), Ok(sample_news()));
    let flow = flow.on_advice_response(Ok("BUY".to_string()));
    let flow = flow.on_close_price(Err("no connection".to_string()), 0);
    match flow.state {
        AnalyzeState::Failed {
            error: AppErrors::ConvertMoneyToStockQuantityError(m),
        } => assert_eq!(m, "no connection for ticker: GOOG"),
        other => panic!("expected a conversion failure, got {:?}", other),
    }
}

#[test]
fn analyze_submission_failure_is_a_place_order_error() {
    let amount = Money::new("1.10").unwrap();
    let flow = AnalyzeFlow::start(goog(), amount);
    let flow = flow.on_stock_data(Ok(sample_prices()), Ok(sample_news()));
    let flow = flow.on_advice_response(Ok("BUY".to_string()));
    let flow = flow.on_close_price(Ok(10000), 0);
    let flow = flow.on_order_result(Err("rejected".to_string()));
    match flow.state {
        AnalyzeState::Failed {
            error: AppErrors::PlaceOrderError(m),
        } => assert_eq!(m, "rejected"),
        other => panic!("expected a submission failure, got {:?}", other),
    }
}

#[test]
fn refresh_sell_run_places_the_order_and_reports() {
    // Ticker GOOG, advice "SELL", an existing position of size -12.5:
    // a sell order of 12.5 shares, then the valuation report.
    let flow = RefreshFlow::start(goog());
    let flow = flow.on_stock_data(Ok(sample_prices()), Ok(sample_news()));
    let flow = flow.on_advice_response(Ok("SELL".to_string()));
    match flow.next_action() {
        PipelineAction::FetchPositions { ticker } => assert_eq!(ticker, "GOOG"),
        other => panic!("expected a position fetch, got {:?}", other),
    }
    let updates = vec![PositionUpdate::Position(PositionRecord {
        symbol: "GOOG".to_string(),
        position_hundredths: -1250,
        average_cost_cents: 1000,
    })];
    let flow = flow.on_positions(Ok(updates), 9);
    match flow.next_action() {
        PipelineAction::SubmitOrder { order } => {
            assert_eq!(order.order_type, OrderType::Sell);
            assert_eq!(order.stock_quantity, 1250);
            assert_eq!(order.stock.ticker_symbol, "GOOG");
        }
        other => panic!("expected an order submission, got {:?}", other),
    }
    let flow = flow.on_order_result(Ok("order accepted".to_string()));
    match flow.next_action() {
        PipelineAction::FetchInvestment { ticker } => assert_eq!(ticker, "GOOG"),
        other => panic!("expected an investment fetch, got {:?}", other),
    }
    let snapshot = StockInvestment {
        stock: goog(),
        stock_name: "Alphabet Inc.".to_string(),
        current_invested_amount: Money::new("125.00").unwrap(),
    };
    let flow = flow.on_investment(Ok(snapshot));
    match flow.state {
        RefreshState::Completed { report } => {
            assert_eq!(report.action_taken, "Sell order placed");
            assert_eq!(report.stock_name, "Alphabet Inc.");
            assert_eq!(report.invested_amount.cents, 12500);
            assert_eq!(report.current_price_cents, 98828); // low of the last sample
        }
        other => panic!("expected a completed run, got {:?}", other),
    }
}

#[test]
fn refresh_buy_advice_places_no_order() {
    let flow = RefreshFlow::start(goog());
    let flow = flow.on_stock_data(Ok(sample_prices()), Ok(sample_news()));
    let flow = flow.on_advice_response(Ok("BUY".to_string()));
    // Straight to the snapshot stage: no position fetch, no submission.
    match flow.next_action() {
        PipelineAction::FetchInvestment { ticker } => assert_eq!(ticker, "GOOG"),
        other => panic!("expected an investment fetch, got {:?}", other),
    }
    let flow = flow.on_investment(Err(AppErrors::GetCurrentInvestmentError(
        "gateway down".to_string(),
    )));
    match flow.state {
        RefreshState::Completed { report } => {
            assert_eq!(report.action_taken, "No action taken");
            // The failed snapshot was downgraded to a synthesized one.
            assert_eq!(report.stock_name, "GOOG");
            assert_eq!(report.invested_amount.cents, 0);
            assert_eq!(report.current_price_cents, 98828);
        }
        other => panic!("expected a completed run, got {:?}", other),
    }
}

#[test]
fn refresh_missing_position_fails_the_liquidation_stage() {
    let flow = RefreshFlow::start(goog());
    let flow = flow.on_stock_data(Ok(sample_prices()), Ok(sample_news()));
    let flow = flow.on_advice_response(Ok("SELL".to_string()));
    let flow = flow.on_positions(Ok(vec![PositionUpdate::PositionEnd]), 0);
    assert!(matches!(
        flow.state,
        RefreshState::Failed {
            error: AppErrors::GetQuantityToSellEverythingError(_)
        }
    ));
    assert!(matches!(flow.next_action(), PipelineAction::Done));
}

#[test]
fn refresh_unreadable_price_sample_fails_the_run() {
    let bad_prices = vec![StockPricePerformance {
        date: "2017-12-29".to_string(),
        open: "1015.8".to_string(),
        high: "1078.49".to_string(),
        low: "n/a".to_string(),
    }];
    let flow = RefreshFlow::start(goog());
    let flow = flow.on_stock_data(Ok(bad_prices), Ok(sample_news()));
    let flow = flow.on_advice_response(Ok("BUY".to_string()));
    let flow = flow.on_investment(Err(AppErrors::GetCurrentInvestmentError(
        "gateway down".to_string(),
    )));
    assert!(matches!(
        flow.state,
        RefreshState::Failed {
            error: AppErrors::GetStockDataError(_)
        }
    ));
}

#[test]
fn refresh_data_failure_short_circuits() {
    let flow = RefreshFlow::start(goog());
    let flow = flow.on_stock_data(Err("unknown ticker".to_string()), Ok(sample_news()));
    match &flow.state {
        RefreshState::Failed {
            error: AppErrors::GetStockDataError(m),
        } => assert_eq!(m, "unknown ticker"),
        other => panic!("expected a data fetch failure, got {:?}", other),
    }
    assert!(matches!(flow.next_action(), PipelineAction::Done));
}
