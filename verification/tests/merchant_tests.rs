use market_sim::accountant::{Accountant, Balance};
use market_sim::market::{Coin, Coins, Side, Target, TradingPair};
use market_sim::merchant::Merchant;
use market_sim::sniffer::{Sniffer, SnifferBuilder, StockGenerator};
use market_sim::trader::Trader;

fn pair(side: Side, target: Target) -> TradingPair {
    TradingPair { coins: Coins::TonUsdt, side, target }
}

fn check_sniffer_side(sniffer: &Sniffer, side: Side, expected_count: usize) {
    let count = (expected_count * 2) as u32;
    let trading_pair = pair(side, Target::Limit);
    let my_orders = sniffer.get_my_orders(trading_pair).unwrap();
    assert_eq!(my_orders.len(), 0);
    let all_the_best_orders = sniffer.all_the_best_orders(trading_pair, count).unwrap();
    assert_eq!(all_the_best_orders.len(), expected_count);
}

#[test]
fn default_merchant() {
    let merchant = Merchant::default();
    check_sniffer_side(merchant.sniffer(), Side::Sell, 0);
    check_sniffer_side(merchant.sniffer(), Side::Buy, 0);
    assert_eq!(merchant.id(), "Test");
}

#[test]
fn merchant_with_sniffer() {
    let sniffer = SnifferBuilder::new()
        .sell_stock_generator(StockGenerator::new(Side::Sell, 10, 1, 4))
        .buy_stock_generator(StockGenerator::new(Side::Buy, 10, 1, 4))
        .build(100);
    let merchant = Merchant::with_sniffer("custom-sniffer", sniffer);
    assert_eq!(merchant.id(), "custom-sniffer");
    let best = merchant.sniffer().all_the_best_orders(pair(Side::Sell, Target::Limit), 10).unwrap();
    assert_eq!(best.len(), 4);
    assert_eq!(best[0].price, 10);
    // the other capabilities got the default wiring
    let ton = merchant.accountant().ask(Coin::Ton).unwrap();
    assert_eq!(ton.held, 10);
    assert_eq!(merchant.trader().delete_order("any"), Ok(()));
}

#[test]
fn merchant_with_trader() {
    let merchant = Merchant::with_trader("custom-trader", Trader::default());
    assert_eq!(merchant.id(), "custom-trader");
    check_sniffer_side(merchant.sniffer(), Side::Sell, 0);
    let usdt = merchant.accountant().ask(Coin::Usdt).unwrap();
    assert_eq!(usdt.amount, 10);
}

#[test]
fn merchant_custom() {
    let accountant = Accountant { balance: Balance { first_coin_amount: 1, second_coin_amount: 2 } };
    let sniffer = Sniffer::default();
    let trader = Trader::default();
    let merchant = Merchant::custom("all-custom", accountant, sniffer, trader);
    assert_eq!(merchant.id(), "all-custom");
    let ton = merchant.accountant().ask(Coin::Ton).unwrap();
    assert_eq!(ton.held, 1);
    let usdt = merchant.accountant().ask(Coin::Usdt).unwrap();
    assert_eq!(usdt.held, 2);
}
