use market_sim::market::{Coins, Order, Side, Target, Trade, TradingPair};
use market_sim::trader::{Trader, TradesLogger};

fn order(side: Side, target: Target, price: i64, amount: i64) -> Order {
    Order {
        trading_pair: TradingPair { coins: Coins::TonUsdt, side, target },
        price,
        amount,
    }
}

#[test]
fn test_trades_logger() {
    let mut trader = TradesLogger::default();
    let price = 100;
    let amount = 100;
    let order = order(Side::Sell, Target::Market, price, amount);
    let mut ok_counter = 0;
    let mut error_counter = 0;
    for _ in 0..5 {
        match trader.create_order(order) {
            Ok(_trade) => ok_counter += 1,
            Err(_error) => error_counter += 1,
        };
    }
    assert_eq!(
        trader.create_order_log.iter().filter(|item| item.is_ok()).count(),
        ok_counter,
    );
    assert_eq!(
        trader.create_order_log.iter().filter(|item| item.is_err()).count(),
        error_counter,
    );
}

#[test]
fn market_order_yields_market_trade() {
    let trader = Trader::default();
    let market_order = order(Side::Buy, Target::Market, 7, 3);
    match trader.create_order(market_order).unwrap() {
        Trade::Market(result) => {
            assert_eq!(result.id, "1337");
            assert_eq!(result.trading_pair, market_order.trading_pair);
            assert_eq!(result.price, 7);
            assert_eq!(result.amount, 3);
        }
        Trade::Limit(_) => panic!("a market order must yield a market trade"),
    }
}

#[test]
fn limit_order_yields_limit_trade() {
    let trader = Trader::default();
    let limit_order = order(Side::Sell, Target::Limit, 11, 4);
    match trader.create_order(limit_order).unwrap() {
        Trade::Limit(resting) => {
            assert_eq!(resting.id, "1337");
            assert_eq!(resting.trading_pair, limit_order.trading_pair);
            assert_eq!(resting.price, 11);
            assert_eq!(resting.amount, 4);
        }
        Trade::Market(_) => panic!("a limit order must yield a limit trade"),
    }
}

#[test]
fn replace_keeps_old_id() {
    let trader = Trader::default();
    let new_order = order(Side::Sell, Target::Limit, 12, 5);
    match trader.replace_order("42", new_order).unwrap() {
        Trade::Limit(resting) => {
            assert_eq!(resting.id, "42");
            assert_eq!(resting.price, 12);
            assert_eq!(resting.amount, 5);
        }
        Trade::Market(_) => panic!("a limit order must yield a limit trade"),
    }
}

#[test]
fn delete_order_always_succeeds() {
    let trader = Trader::default();
    assert_eq!(trader.delete_order("unknown"), Ok(()));
}

#[test]
fn logger_forwards_result_unchanged() {
    let mut logger = TradesLogger::new(Trader::default());
    let market_order = order(Side::Sell, Target::Market, 21, 2);
    let returned = logger.create_order(market_order).unwrap();
    assert_eq!(logger.create_order_log.len(), 1);
    let logged = logger.create_order_log[0].as_ref().unwrap();
    match (&returned, logged) {
        (Trade::Market(r), Trade::Market(l)) => {
            assert_eq!(r.id, l.id);
            assert_eq!(r.trading_pair, l.trading_pair);
            assert_eq!(r.price, l.price);
            assert_eq!(r.amount, l.amount);
        }
        _ => panic!("the logged outcome must match the returned one"),
    }
}

#[test]
fn logger_append_accounting() {
    // Every completed call appends exactly one entry: after five calls the
    // creation log holds the five outcomes the callers received, in
    // completion order.
    let mut logger = TradesLogger::default();
    let mut received = Vec::new();
    for i in 0..5 {
        let o = order(Side::Sell, Target::Limit, 10 + i, 1);
        received.push(logger.create_order(o).unwrap());
    }
    assert_eq!(logger.create_order_log.len(), 5);
    for (entry, trade) in logger.create_order_log.iter().zip(received.iter()) {
        match (entry.as_ref().unwrap(), trade) {
            (Trade::Limit(logged), Trade::Limit(returned)) => {
                assert_eq!(logged.price, returned.price);
                assert_eq!(logged.id, returned.id);
            }
            _ => panic!("limit orders must yield limit trades"),
        }
    }
}

#[test]
fn logger_records_deletions() {
    let mut logger = TradesLogger::default();
    assert_eq!(logger.delete_order("1337"), Ok(()));
    assert_eq!(logger.delete_order("1338"), Ok(()));
    assert_eq!(logger.delete_order_log, vec![Ok(()), Ok(())]);
    assert_eq!(logger.create_order_log.len(), 0);
}

#[test]
fn with_orders_preseeds_log() {
    let trades = vec![
        Trade::Market(market_sim::market::TradeResult {
            id: "1".to_owned(),
            trading_pair: TradingPair { coins: Coins::TonUsdt, side: Side::Sell, target: Target::Market },
            price: 5,
            amount: 6,
        }),
        Trade::Limit(market_sim::market::OrderWithId {
            id: "2".to_owned(),
            trading_pair: TradingPair { coins: Coins::TonUsdt, side: Side::Buy, target: Target::Limit },
            price: 7,
            amount: 8,
        }),
    ];
    let logger = TradesLogger::with_orders(Trader::default(), trades);
    assert_eq!(logger.create_order_log.len(), 2);
    match logger.create_order_log[0].as_ref().unwrap() {
        Trade::Market(result) => assert_eq!(result.id, "1"),
        Trade::Limit(_) => panic!("the first seeded trade was a market trade"),
    }
    match logger.create_order_log[1].as_ref().unwrap() {
        Trade::Limit(resting) => assert_eq!(resting.id, "2"),
        Trade::Market(_) => panic!("the second seeded trade was a limit trade"),
    }
    assert_eq!(logger.delete_order_log.len(), 0);
}

#[test]
fn logger_trader_conversions() {
    let logger = TradesLogger::from(Trader::default());
    assert_eq!(logger.create_order_log.len(), 0);
    let trader = Trader::from(logger);
    assert_eq!(trader.created_orders.len(), 0);
}
