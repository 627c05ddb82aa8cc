use trade_advisor::errors::AppErrors;
use trade_advisor::models::Money;
use trade_advisor::models::PositionRecord;
use trade_advisor::models::PositionUpdate;
use trade_advisor::models::Stock;
use trade_advisor::services::TradingApiServiceLive;

fn goog_position(size_hundredths: i64) -> PositionUpdate {
    PositionUpdate::Position(PositionRecord {
        symbol: "GOOG".to_string(),
        position_hundredths: size_hundredths,
        average_cost_cents: 1000,
    })
}

#[test]
fn quantity_to_buy_is_floor_of_close_over_amount() {
    // Close price 150.00, amount 50.00: three whole shares.
    let amount = Money::new("50.00").unwrap();
    let stock = Stock::new("GOOG".to_string());
    let q = TradingApiServiceLive::convert_money_amount_to_stock_quantity(amount, &stock, 15000);
    assert_eq!(q.unwrap(), 3);
}

#[test]
fn quantity_to_buy_rounds_down() {
    // Close price 100.00, amount 1.10: floor(10000 / 110) = 90.
    let amount = Money::new("1.10").unwrap();
    let stock = Stock::new("GOOG".to_string());
    let q = TradingApiServiceLive::convert_money_amount_to_stock_quantity(amount, &stock, 10000);
    assert_eq!(q.unwrap(), 90);
}

#[test]
fn quantity_to_buy_rejects_zero_amount() {
    let amount = Money::new("0").unwrap();
    let stock = Stock::new("GOOG".to_string());
    let q = TradingApiServiceLive::convert_money_amount_to_stock_quantity(amount, &stock, 10000);
    assert!(matches!(
        q,
        Err(AppErrors::ConvertMoneyToStockQuantityError(_))
    ));
}

#[test]
fn liquidation_quantity_is_absolute_position_size() {
    let stock = Stock::new("GOOG".to_string());
    let updates = vec![goog_position(-1250), PositionUpdate::PositionEnd];
    let q = TradingApiServiceLive::get_quantity_to_sell_everything(&stock, &updates);
    assert_eq!(q.unwrap(), 1250);
}

#[test]
fn liquidation_takes_the_first_matching_position() {
    let stock = Stock::new("GOOG".to_string());
    let other = PositionUpdate::Position(PositionRecord {
        symbol: "AAPL".to_string(),
        position_hundredths: 700,
        average_cost_cents: 500,
    });
    let updates = vec![other, goog_position(300), goog_position(9900)];
    let q = TradingApiServiceLive::get_quantity_to_sell_everything(&stock, &updates);
    assert_eq!(q.unwrap(), 300);
}

#[test]
fn liquidation_fails_without_a_matching_position() {
    let stock = Stock::new("GOOG".to_string());
    let other = PositionUpdate::Position(PositionRecord {
        symbol: "AAPL".to_string(),
        position_hundredths: 700,
        average_cost_cents: 500,
    });
    let updates = vec![other, PositionUpdate::PositionEnd];
    let q = TradingApiServiceLive::get_quantity_to_sell_everything(&stock, &updates);
    match q {
        Err(AppErrors::GetQuantityToSellEverythingError(m)) => {
            assert!(m.ends_with("GOOG"));
        }
        other => panic!("expected a liquidation failure, got {:?}", other),
    }
}

#[test]
fn liquidation_does_not_scan_past_the_end_marker() {
    let stock = Stock::new("GOOG".to_string());
    let updates = vec![PositionUpdate::PositionEnd, goog_position(300)];
    let q = TradingApiServiceLive::get_quantity_to_sell_everything(&stock, &updates);
    assert!(matches!(
        q,
        Err(AppErrors::GetQuantityToSellEverythingError(_))
    ));
}

#[test]
fn investment_value_is_size_times_average_cost() {
    // 12.5 shares at an average cost of 10.00: a holding of 125.00.
    let stock = Stock::new("GOOG".to_string());
    let position = PositionRecord {
        symbol: "GOOG".to_string(),
        position_hundredths: 1250,
        average_cost_cents: 1000,
    };
    let inv = TradingApiServiceLive::get_current_investment(
        stock,
        "Alphabet Inc.".to_string(),
        &position,
    )
    .unwrap();
    assert_eq!(inv.stock_name, "Alphabet Inc.");
    assert_eq!(inv.current_invested_amount.cents, 12500);
}

#[test]
fn investment_value_below_zero_is_rejected() {
    let stock = Stock::new("GOOG".to_string());
    let position = PositionRecord {
        symbol: "GOOG".to_string(),
        position_hundredths: -100,
        average_cost_cents: 1000,
    };
    let r = TradingApiServiceLive::get_current_investment(stock, "Alphabet Inc.".to_string(), &position);
    assert!(matches!(r, Err(AppErrors::GetCurrentInvestmentError(_))));
}

#[test]
fn investment_value_with_sub_cent_digits_is_rejected() {
    // 0.01 shares at 0.01: a hundredth of a cent, not a valid amount.
    let stock = Stock::new("GOOG".to_string());
    let position = PositionRecord {
        symbol: "GOOG".to_string(),
        position_hundredths: 1,
        average_cost_cents: 1,
    };
    let r = TradingApiServiceLive::get_current_investment(stock, "Alphabet Inc.".to_string(), &position);
    assert!(matches!(r, Err(AppErrors::GetCurrentInvestmentError(_))));
}

#[test]
fn stock_data_assembly_prefers_the_price_history_error() {
    let stock = Stock::new("GOOG".to_string());
    let r = TradingApiServiceLive::get_stock_data(
        stock,
        Err("price feed down".to_string()),
        Err("news feed down".to_string()),
    );
    match r {
        Err(AppErrors::GetStockDataError(m)) => assert_eq!(m, "price feed down"),
        other => panic!("expected a stock data error, got {:?}", other),
    }
}

#[test]
fn stock_data_assembly_reports_a_news_failure() {
    let stock = Stock::new("GOOG".to_string());
    let r = TradingApiServiceLive::get_stock_data(stock, Ok(vec![]), Err("news feed down".to_string()));
    match r {
        Err(AppErrors::GetStockDataError(m)) => assert_eq!(m, "news feed down"),
        other => panic!("expected a stock data error, got {:?}", other),
    }
}

#[test]
fn stock_data_assembly_keeps_both_feeds() {
    let stock = Stock::new("GOOG".to_string());
    let d = TradingApiServiceLive::get_stock_data(stock, Ok(vec![]), Ok(vec![])).unwrap();
    assert_eq!(d.stock.ticker_symbol, "GOOG");
    assert!(d.stock_price_performance.is_empty());
    assert!(d.news.is_empty());
}
