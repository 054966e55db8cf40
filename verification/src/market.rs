//! Shared market value types: coins, trading pairs, orders, trades,
//! balances and the error taxonomy.
//!
//! Prices and amounts are measured in integer ticks (the smallest price or
//! volume increment of the simulated venue), so that every computation on
//! them is exact.

use vstd::prelude::*;

verus! {

/// One coin of a trading pair, the subject of a balance question.
#[derive(Clone, Copy, PartialEq, Eq, Structural, Debug)]
pub enum Coin {
    Ton,
    Usdt,
}

/// The coin pair a synthetic market trades.
#[derive(Clone, Copy, PartialEq, Eq, Structural, Debug)]
pub enum Coins {
    TonUsdt,
}

/// Direction of an order.
#[derive(Clone, Copy, PartialEq, Eq, Structural, Debug)]
pub enum Side {
    Buy,
    Sell,
}

/// Order type: a market order matches immediately, a limit order rests.
#[derive(Clone, Copy, PartialEq, Eq, Structural, Debug)]
pub enum Target {
    Market,
    Limit,
}

/// Identifies which synthetic book a query addresses.
#[derive(Clone, Copy, PartialEq, Eq, Structural, Debug)]
pub struct TradingPair {
    pub coins: Coins,
    pub side: Side,
    pub target: Target,
}

/// An order tagged with the pair it belongs to.
#[derive(Clone, Copy, PartialEq, Eq, Structural, Debug)]
pub struct Order {
    pub trading_pair: TradingPair,
    pub price: i64,
    pub amount: i64,
}

/// An order carrying the caller-visible identifier the venue assigned to it.
#[derive(Debug)]
pub struct OrderWithId {
    pub id: String,
    pub trading_pair: TradingPair,
    pub price: i64,
    pub amount: i64,
}

/// Mathematical image of an [`OrderWithId`].
pub ghost struct OrderWithIdView {
    pub id: Seq<char>,
    pub trading_pair: TradingPair,
    pub price: int,
    pub amount: int,
}

impl View for OrderWithId {
    type V = OrderWithIdView;

    open spec fn view(&self) -> OrderWithIdView {
        OrderWithIdView {
            id: self.id@,
            trading_pair: self.trading_pair,
            price: self.price as int,
            amount: self.amount as int,
        }
    }
}

impl Clone for OrderWithId {
    fn clone(&self) -> (r: Self)
        ensures
            r@ == self@,
    {
        OrderWithId {
            id: self.id.clone(),
            trading_pair: self.trading_pair,
            price: self.price,
            amount: self.amount,
        }
    }
}

/// The record a completed market order leaves behind.
#[derive(Debug)]
pub struct TradeResult {
    pub id: String,
    pub trading_pair: TradingPair,
    pub price: i64,
    pub amount: i64,
}

/// Mathematical image of a [`TradeResult`].
pub ghost struct TradeResultView {
    pub id: Seq<char>,
    pub trading_pair: TradingPair,
    pub price: int,
    pub amount: int,
}

impl View for TradeResult {
    type V = TradeResultView;

    open spec fn view(&self) -> TradeResultView {
        TradeResultView {
            id: self.id@,
            trading_pair: self.trading_pair,
            price: self.price as int,
            amount: self.amount as int,
        }
    }
}

impl Clone for TradeResult {
    fn clone(&self) -> (r: Self)
        ensures
            r@ == self@,
    {
        TradeResult {
            id: self.id.clone(),
            trading_pair: self.trading_pair,
            price: self.price,
            amount: self.amount,
        }
    }
}

/// Outcome of an execution; the tag is determined by the order's target.
#[derive(Debug)]
pub enum Trade {
    Market(TradeResult),
    Limit(OrderWithId),
}

/// Mathematical image of a [`Trade`].
pub ghost enum TradeView {
    Market(TradeResultView),
    Limit(OrderWithIdView),
}

impl View for Trade {
    type V = TradeView;

    open spec fn view(&self) -> TradeView {
        match *self {
            Trade::Market(ref t) => TradeView::Market(t@),
            Trade::Limit(ref o) => TradeView::Limit(o@),
        }
    }
}

impl Clone for Trade {
    fn clone(&self) -> (r: Self)
        ensures
            r@ == self@,
    {
        match self {
            Trade::Market(t) => Trade::Market(t.clone()),
            Trade::Limit(o) => Trade::Limit(o.clone()),
        }
    }
}

/// Everything that can go wrong in the fixture layer.
#[derive(Clone, Copy, PartialEq, Eq, Structural, Debug)]
pub enum MarketError {
    /// The resolved book holds no orders to take the best one from.
    NoLiquidity,
    /// The identifier names no tracked order (reserved for stricter
    /// executor variants; the reference executor never returns it).
    UnknownOrderId,
}

/// A point-in-time balance answer for one coin.
#[derive(Clone, Copy, PartialEq, Eq, Structural, Debug)]
pub struct Currency {
    pub coin: Coin,
    pub held: i64,
    pub amount: i64,
}

/// View of one execution outcome, as recorded in an audit log.
pub open spec fn trade_outcome_view(r: Result<Trade, MarketError>) -> Result<TradeView, MarketError> {
    match r {
        Ok(t) => Ok(t@),
        Err(e) => Err(e),
    }
}

} // verus!
