//! The balance oracle: a fixed two-coin balance record set at construction,
//! plus the pure volume and price-normalization arithmetic.

use vstd::prelude::*;
use crate::market::{Coin, Currency, MarketError, TradingPair};

verus! {

/// The fixed amount held of each coin of the pair, in ticks.
#[derive(Clone, Copy, PartialEq, Eq, Structural, Debug)]
pub struct Balance {
    pub first_coin_amount: i64,
    pub second_coin_amount: i64,
}

/// Answers balance questions from its fixed record; read-only after
/// construction.
#[derive(Clone, Copy, PartialEq, Eq, Structural, Debug)]
pub struct Accountant {
    pub balance: Balance,
}

impl Default for Accountant {
    /// The reference fixture's balance: ten ticks of each coin.
    fn default() -> (a: Accountant)
        ensures
            a.balance == (Balance { first_coin_amount: 10, second_coin_amount: 10 }),
    {
        Accountant { balance: Balance { first_coin_amount: 10, second_coin_amount: 10 } }
    }
}

impl Accountant {
    /// The configured amount for the coin's role in the pair.
    pub open spec fn configured_amount(self, coin: Coin) -> int {
        match coin {
            Coin::Ton => self.balance.first_coin_amount as int,
            Coin::Usdt => self.balance.second_coin_amount as int,
        }
    }

    /// The answer `ask` owes for a coin: held and available amounts both
    /// equal to the configured amount (no reservation is modeled).
    pub open spec fn currency_for(self, coin: Coin) -> Currency {
        Currency {
            coin,
            held: self.configured_amount(coin) as i64,
            amount: self.configured_amount(coin) as i64,
        }
    }

    /// The balance held of one coin; never fails.
    pub fn ask(&self, coin: Coin) -> (r: Result<Currency, MarketError>)
        ensures
            r == Ok::<Currency, MarketError>(self.currency_for(coin)),
    {
        let amount: i64 = match coin {
            Coin::Ton => self.balance.first_coin_amount,
            Coin::Usdt => self.balance.second_coin_amount,
        };
        Ok(Currency { coin, held: amount, amount })
    }

    /// Both balances in one call, consistent with two independent `ask`
    /// calls; never fails.
    pub fn ask_both(&self, first_coin: Coin, second_coin: Coin) -> (r: Result<
        (Currency, Currency),
        MarketError,
    >)
        ensures
            r == Ok::<(Currency, Currency), MarketError>(
                (self.currency_for(first_coin), self.currency_for(second_coin)),
            ),
    {
        let first: Currency = match self.ask(first_coin) {
            Ok(c) => c,
            Err(e) => { return Err(e) },
        };
        let second: Currency = match self.ask(second_coin) {
            Ok(c) => c,
            Err(e) => { return Err(e) },
        };
        Ok((first, second))
    }

    /// Notional volume of an order: price times amount; the pair carries no
    /// per-market multiplier.
    pub fn calculate_volume(&self, _trading_pair: TradingPair, price: i64, amount: i64) -> (v: i64)
        requires
            i64::MIN <= price * amount <= i64::MAX,
        ensures
            v == price * amount,
    {
        price * amount
    }

    /// Tick-size rounding seam: the reference fixture applies none and
    /// passes the price through unchanged.
    pub fn nearest_price(&self, _trading_pair: TradingPair, price: i64) -> (p: i64)
        ensures
            p == price,
    {
        price
    }
}

} // verus!
