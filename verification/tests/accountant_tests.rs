use market_sim::accountant::{Accountant, Balance};
use market_sim::market::{Coin, Coins, Side, Target, TradingPair};

fn any_pair() -> TradingPair {
    TradingPair { coins: Coins::TonUsdt, side: Side::Sell, target: Target::Limit }
}

#[test]
fn balance_of_pair_default() {
    // The default oracle is configured with ten of each coin; both answers
    // report held == amount == 10 for their respective coins.
    let accountant = Accountant::default();
    let (first, second) = accountant.ask_both(Coin::Ton, Coin::Usdt).unwrap();
    assert_eq!(first.coin, Coin::Ton);
    assert_eq!(first.held, 10);
    assert_eq!(first.amount, 10);
    assert_eq!(second.coin, Coin::Usdt);
    assert_eq!(second.held, 10);
    assert_eq!(second.amount, 10);
}

#[test]
fn ask_matches_ask_both() {
    let accountant = Accountant { balance: Balance { first_coin_amount: 3, second_coin_amount: 8 } };
    let ton = accountant.ask(Coin::Ton).unwrap();
    let usdt = accountant.ask(Coin::Usdt).unwrap();
    let (both_ton, both_usdt) = accountant.ask_both(Coin::Ton, Coin::Usdt).unwrap();
    assert_eq!(ton, both_ton);
    assert_eq!(usdt, both_usdt);
    assert_eq!(ton.held, 3);
    assert_eq!(usdt.held, 8);
}

#[test]
fn volume_is_price_times_amount() {
    let accountant = Accountant::default();
    assert_eq!(accountant.calculate_volume(any_pair(), 7, 3), 21);
    assert_eq!(accountant.calculate_volume(any_pair(), -4, 5), -20);
    assert_eq!(accountant.calculate_volume(any_pair(), 0, 12345), 0);
}

#[test]
fn nearest_price_passes_through() {
    let accountant = Accountant::default();
    assert_eq!(accountant.nearest_price(any_pair(), 17), 17);
    assert_eq!(accountant.nearest_price(any_pair(), -1), -1);
}
