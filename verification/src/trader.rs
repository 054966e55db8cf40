//! The order executor and the trade-audit decorator that wraps it.
//!
//! The executor is stateless: every call is independent and infallible,
//! and the returned trade's tag is fully determined by the order's target.
//! The decorator forwards each call unchanged and appends the outcome to an
//! ordered log; entries land in the order the calls complete.

use vstd::prelude::*;
use vstd::seq_lib::lemma_multiset_commutative;
use crate::market::{MarketError, Order, OrderWithId, Target, Trade, TradeResult, TradeView, trade_outcome_view};

verus! {

/// The identifier the reference executor stamps on every trade. It is a
/// fixed sentinel: uniqueness across calls is deliberately not promised.
pub open spec fn sentinel_id() -> Seq<char> {
    "1337"@
}

/// The trade `t` is the faithful execution of `order` under identifier
/// `id`: the tag follows the order's target, and price, amount and pair
/// are carried over exactly.
pub open spec fn trade_with_id(order: Order, id: Seq<char>, t: Trade) -> bool {
    match t {
        Trade::Market(res) => {
            &&& order.trading_pair.target == Target::Market
            &&& res.id@ == id
            &&& res.trading_pair == order.trading_pair
            &&& res.price == order.price
            &&& res.amount == order.amount
        },
        Trade::Limit(res) => {
            &&& order.trading_pair.target == Target::Limit
            &&& res.id@ == id
            &&& res.trading_pair == order.trading_pair
            &&& res.price == order.price
            &&& res.amount == order.amount
        },
    }
}

/// The trade `t` is the faithful execution of `order` under the sentinel
/// identifier.
pub open spec fn trade_for(order: Order, t: Trade) -> bool {
    trade_with_id(order, sentinel_id(), t)
}

/// Simulates placing and cancelling orders; holds no state between calls.
#[derive(Debug)]
pub struct Trader {
    pub created_orders: Vec<Trade>,
}

impl Default for Trader {
    fn default() -> (t: Trader)
        ensures
            t.created_orders@.len() == 0,
    {
        Trader { created_orders: Vec::new() }
    }
}

impl Trader {
    /// Executes an order: a market order yields `Trade::Market`, a limit
    /// order `Trade::Limit`, both carrying the order's pair, price and
    /// amount and the sentinel identifier. Never fails.
    pub fn create_order(&self, order: Order) -> (r: Result<Trade, MarketError>)
        ensures
            r matches Ok(t) && trade_for(order, t),
    {
        match order.trading_pair.target {
            Target::Market => Ok(
                Trade::Market(
                    TradeResult {
                        id: "1337".to_owned(),
                        trading_pair: order.trading_pair,
                        price: order.price,
                        amount: order.amount,
                    },
                ),
            ),
            Target::Limit => Ok(
                Trade::Limit(
                    OrderWithId {
                        id: "1337".to_owned(),
                        trading_pair: order.trading_pair,
                        price: order.price,
                        amount: order.amount,
                    },
                ),
            ),
        }
    }

    /// Replaces a tracked order: deletes `old_id`, then executes the new
    /// order, keeping `old_id` as the result identifier for continuity.
    /// Never fails.
    pub fn replace_order(&self, old_id: &str, new_order: Order) -> (r: Result<Trade, MarketError>)
        ensures
            r matches Ok(t) && trade_with_id(new_order, old_id@, t),
    {
        let deleted: Result<(), MarketError> = self.delete_order(old_id);
        match deleted {
            Ok(_) => {},
            Err(e) => { return Err(e) },
        };
        match new_order.trading_pair.target {
            Target::Market => Ok(
                Trade::Market(
                    TradeResult {
                        id: old_id.to_owned(),
                        trading_pair: new_order.trading_pair,
                        price: new_order.price,
                        amount: new_order.amount,
                    },
                ),
            ),
            Target::Limit => Ok(
                Trade::Limit(
                    OrderWithId {
                        id: old_id.to_owned(),
                        trading_pair: new_order.trading_pair,
                        price: new_order.price,
                        amount: new_order.amount,
                    },
                ),
            ),
        }
    }

    /// Cancels an order by identifier; the reference executor always
    /// succeeds, whether or not the identifier is known.
    pub fn delete_order(&self, _id: &str) -> (r: Result<(), MarketError>)
        ensures
            r == Ok::<(), MarketError>(()),
    {
        Ok(())
    }
}

impl From<TradesLogger> for Trader {
    fn from(logger: TradesLogger) -> (t: Trader)
        ensures
            t == logger.trader,
    {
        logger.trader
    }
}

impl vstd::std_specs::convert::FromSpecImpl<TradesLogger> for Trader {
    open spec fn obeys_from_spec() -> bool {
        true
    }

    open spec fn from_spec(logger: TradesLogger) -> Trader {
        logger.trader
    }
}

/// Wraps an executor, forwarding every call while appending its outcome to
/// an ordered log, without altering the forwarded result.
#[derive(Debug)]
pub struct TradesLogger {
    pub trader: Trader,
    pub create_order_log: Vec<Result<Trade, MarketError>>,
    pub delete_order_log: Vec<Result<(), MarketError>>,
}

impl Default for TradesLogger {
    fn default() -> (l: TradesLogger)
        ensures
            l.trader.created_orders@.len() == 0,
            l.create_order_log@.len() == 0,
            l.delete_order_log@.len() == 0,
    {
        TradesLogger {
            trader: Trader { created_orders: Vec::new() },
            create_order_log: Vec::new(),
            delete_order_log: Vec::new(),
        }
    }
}

impl From<Trader> for TradesLogger {
    fn from(trader: Trader) -> (l: TradesLogger)
        ensures
            l.trader == trader,
            l.create_order_log@.len() == 0,
            l.delete_order_log@.len() == 0,
    {
        TradesLogger { trader, create_order_log: Vec::new(), delete_order_log: Vec::new() }
    }
}

impl vstd::std_specs::convert::FromSpecImpl<Trader> for TradesLogger {
    // No spec expression can name the concrete empty vectors the conversion
    // builds, so nothing is promised through the trait; the `from` impl's
    // own `ensures` carries the whole contract.
    open spec fn obeys_from_spec() -> bool {
        false
    }

    open spec fn from_spec(trader: Trader) -> TradesLogger {
        choose|l: TradesLogger|
            l.trader == trader && l.create_order_log@.len() == 0 && l.delete_order_log@.len() == 0
    }
}

impl TradesLogger {
    /// A decorator around `trader` with both logs empty.
    pub fn new(trader: Trader) -> (l: TradesLogger)
        ensures
            l.trader == trader,
            l.create_order_log@.len() == 0,
            l.delete_order_log@.len() == 0,
    {
        TradesLogger { trader, create_order_log: Vec::new(), delete_order_log: Vec::new() }
    }

    /// A decorator whose creation log is pre-seeded with the given trades,
    /// each recorded as a success, in order; for test setup.
    pub fn with_orders(trader: Trader, create_order_results: Vec<Trade>) -> (l: TradesLogger)
        ensures
            l.trader == trader,
            l.create_order_log@.len() == create_order_results@.len(),
            forall|i: int| 0 <= i < create_order_results@.len() ==> #[trigger] l.create_order_log@[i]
                == Ok::<Trade, MarketError>(create_order_results@[i]),
            l.delete_order_log@.len() == 0,
    {
        let ghost seeded: Seq<Trade> = create_order_results@;
        let mut remaining: Vec<Trade> = create_order_results;
        let mut log: Vec<Result<Trade, MarketError>> = Vec::new();
        while remaining.len() > 0
            invariant
                log@.len() + remaining@.len() == seeded.len(),
                remaining@ == seeded.subrange(log@.len() as int, seeded.len() as int),
                forall|i: int| 0 <= i < log@.len() ==> #[trigger] log@[i]
                    == Ok::<Trade, MarketError>(seeded[i]),
            decreases remaining@.len(),
        {
            let trade: Trade = remaining.remove(0);
            log.push(Ok(trade));
            proof {
                assert(remaining@ =~= seeded.subrange(log@.len() as int, seeded.len() as int));
            }
        }
        TradesLogger { trader, create_order_log: log, delete_order_log: Vec::new() }
    }

    /// Forwards an execution to the wrapped executor, appends the outcome
    /// to the creation log, and returns the outcome unchanged.
    pub fn create_order(&mut self, order: Order) -> (r: Result<Trade, MarketError>)
        ensures
            r matches Ok(t) && trade_for(order, t),
            final(self).create_order_log@.len() == old(self).create_order_log@.len() + 1,
            final(self).create_order_log@.subrange(0, old(self).create_order_log@.len() as int)
                == old(self).create_order_log@,
            trade_outcome_view(final(self).create_order_log@.last()) == trade_outcome_view(r),
            final(self).trader == old(self).trader,
            final(self).delete_order_log@ == old(self).delete_order_log@,
    {
        let trade: Result<Trade, MarketError> = self.trader.create_order(order);
        let entry: Result<Trade, MarketError> = match &trade {
            Ok(t) => Ok(t.clone()),
            Err(e) => Err(*e),
        };
        self.create_order_log.push(entry);
        proof {
            assert(self.create_order_log@.subrange(0, old(self).create_order_log@.len() as int)
                =~= old(self).create_order_log@);
        }
        trade
    }

    /// Forwards a cancellation to the wrapped executor, appends the outcome
    /// to the deletion log, and returns the outcome unchanged.
    pub fn delete_order(&mut self, id: &str) -> (r: Result<(), MarketError>)
        ensures
            r == Ok::<(), MarketError>(()),
            final(self).delete_order_log@ == old(self).delete_order_log@.push(r),
            final(self).trader == old(self).trader,
            final(self).create_order_log@ == old(self).create_order_log@,
    {
        let result: Result<(), MarketError> = self.trader.delete_order(id);
        self.delete_order_log.push(result);
        result
    }
}

/// Law: a batch of completed executions is fully accounted for. When each
/// of the `completed` outcomes is appended to a log in completion order,
/// the log grows by exactly their number, and the collection of logged
/// outcomes — order set aside — is the old log's plus exactly the outcomes
/// the callers received: none is lost, none is invented.
pub proof fn lemma_audit_log_accounting(
    log: Seq<Result<Trade, MarketError>>,
    completed: Seq<Result<Trade, MarketError>>,
)
    ensures
        (log + completed).len() == log.len() + completed.len(),
        (log + completed).to_multiset() == log.to_multiset().add(completed.to_multiset()),
{
    lemma_multiset_commutative(log, completed);
}

} // verus!
