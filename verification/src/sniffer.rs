//! The synthetic order-book simulator: a price-ladder generator, two fixed
//! books built from it, and the trading-pair resolution logic that decides
//! which book a query reads.

use vstd::prelude::*;
use crate::market::{Coins, MarketError, Side, Target, TradingPair};

verus! {

/// A synthetic resting order: one rung of a price ladder.
#[derive(Clone, Copy, PartialEq, Eq, Structural, Debug)]
pub struct Order {
    pub price: i64,
    pub amount: i64,
}

/// An order the simulated trader owns, with its caller-visible identifier.
#[derive(Debug)]
pub struct OrderWithId {
    pub id: String,
    pub price: i64,
    pub amount: i64,
}

/// Mathematical image of an owned order.
pub ghost struct OwnedOrderView {
    pub id: Seq<char>,
    pub price: int,
    pub amount: int,
}

impl View for OrderWithId {
    type V = OwnedOrderView;

    open spec fn view(&self) -> OwnedOrderView {
        OwnedOrderView { id: self.id@, price: self.price as int, amount: self.amount as int }
    }
}

impl Clone for OrderWithId {
    fn clone(&self) -> (r: Self)
        ensures
            r@ == self@,
    {
        OrderWithId { id: self.id.clone(), price: self.price, amount: self.amount }
    }
}

/// Price of rung `i` of a ladder: the base price moved `i` signed steps.
pub open spec fn ladder_price(base: int, step: int, i: int) -> int {
    base + step * i
}

/// Every rung of the ladder fits in a machine price.
pub open spec fn ladder_fits(base: int, step: int, count: int) -> bool {
    forall|i: int| 0 <= i < count ==> i64::MIN <= #[trigger] ladder_price(base, step, i) <= i64::MAX
}

/// `book` is exactly the ladder of `count` rungs from `base` by `step`,
/// every rung carrying the same `amount`.
pub open spec fn is_ladder(book: Seq<Order>, base: int, step: int, count: int, amount: int) -> bool {
    &&& book.len() == count
    &&& forall|i: int| 0 <= i < count ==> (#[trigger] book[i]).price == ladder_price(base, step, i)
        && book[i].amount == amount
}

/// Law: within one ladder the signed price difference of two rungs is the
/// step times their distance, for every pair of positions.
pub proof fn lemma_ladder_spacing(book: Seq<Order>, base: int, step: int, count: int, amount: int, i: int, j: int)
    requires
        is_ladder(book, base, step, count, amount),
        0 <= i < count,
        0 <= j < count,
    ensures
        book[j].price - book[i].price == step * (j - i),
{
    assert(step * j - step * i == step * (j - i)) by (nonlinear_arith);
}

/// Deterministic producer of one side's price ladder. A positive `step`
/// ascends from the base price, a negative one descends.
#[derive(Clone, Copy, PartialEq, Eq, Structural, Debug)]
pub struct StockGenerator {
    pub base_price: i64,
    pub step: i64,
    pub count: usize,
}

impl StockGenerator {
    /// Every rung this generator would produce fits in a machine price.
    pub open spec fn fits(self) -> bool {
        ladder_fits(self.base_price as int, self.step as int, self.count as int)
    }

    /// Builds a generator from an unsigned step magnitude: generating for
    /// `Side::Buy` descends (negates the step), `Side::Sell` ascends.
    pub fn new(side: Side, base_price: i64, step: i64, count: usize) -> (g: StockGenerator)
        requires
            0 <= step,
        ensures
            g.base_price == base_price,
            g.count == count,
            g.step as int == (match side {
                Side::Sell => step as int,
                Side::Buy => -(step as int),
            }),
    {
        StockGenerator {
            base_price,
            step: match side {
                Side::Buy => -step,
                Side::Sell => step,
            },
            count,
        }
    }

    /// Produces the ladder: exactly `count` orders where rung `i` has price
    /// `base_price + step * i` and the uniform `amount`. A count of zero
    /// yields an empty book, never a failure.
    pub fn generate_orders(&self, amount: i64) -> (orders: Vec<Order>)
        requires
            self.fits(),
        ensures
            is_ladder(orders@, self.base_price as int, self.step as int, self.count as int, amount as int),
    {
        let mut orders: Vec<Order> = Vec::new();
        let mut i: usize = 0;
        let mut price: i64 = self.base_price;
        while i < self.count
            invariant
                i <= self.count,
                self.fits(),
                orders@.len() == i as int,
                forall|j: int| 0 <= j < i as int ==> (#[trigger] orders@[j]).price
                    == ladder_price(self.base_price as int, self.step as int, j)
                    && orders@[j].amount == amount,
                i < self.count ==> price as int
                    == ladder_price(self.base_price as int, self.step as int, i as int),
            decreases self.count - i,
        {
            orders.push(Order { price, amount });
            i = i + 1;
            if i < self.count {
                proof {
                    let step = self.step as int;
                    let k = i as int;
                    assert(step * k == step * (k - 1) + step) by (nonlinear_arith);
                    assert(i64::MIN <= ladder_price(self.base_price as int, step, k) <= i64::MAX);
                }
                price = price + self.step;
            }
        }
        orders
    }
}

/// The order-book simulator: two fixed books generated at construction and
/// a fixed owned-orders snapshot, all read-only afterwards.
#[derive(Debug)]
pub struct Sniffer {
    pub sell_orders: Vec<Order>,
    pub buy_orders: Vec<Order>,
    pub my_orders: Vec<OrderWithId>,
}

impl Default for Sniffer {
    /// An empty simulator: both books and the owned snapshot hold nothing.
    fn default() -> (s: Sniffer)
        ensures
            s.sell_orders@.len() == 0,
            s.buy_orders@.len() == 0,
            s.my_orders@.len() == 0,
    {
        Sniffer { sell_orders: Vec::new(), buy_orders: Vec::new(), my_orders: Vec::new() }
    }
}

impl Sniffer {
    /// The resolution table: a market order reads the counter-side book
    /// (market sells match standing buy liquidity and vice versa), a limit
    /// order reads its own side's resting book.
    pub open spec fn resolved_book(self, pair: TradingPair) -> Seq<Order> {
        match (pair.target, pair.side) {
            (Target::Market, Side::Sell) => self.buy_orders@,
            (Target::Market, Side::Buy) => self.sell_orders@,
            (Target::Limit, Side::Sell) => self.sell_orders@,
            (Target::Limit, Side::Buy) => self.buy_orders@,
        }
    }

    /// Builds a simulator whose two books are the two generators' ladders,
    /// every order carrying the same fixed `amount`; no owned orders.
    pub fn fixed_amount(sell: StockGenerator, buy: StockGenerator, amount: i64) -> (s: Sniffer)
        requires
            sell.fits(),
            buy.fits(),
        ensures
            is_ladder(s.sell_orders@, sell.base_price as int, sell.step as int, sell.count as int, amount as int),
            is_ladder(s.buy_orders@, buy.base_price as int, buy.step as int, buy.count as int, amount as int),
            s.my_orders@.len() == 0,
    {
        Sniffer {
            sell_orders: sell.generate_orders(amount),
            buy_orders: buy.generate_orders(amount),
            my_orders: Vec::new(),
        }
    }

    /// Resolves the book the pair addresses and returns its first `count`
    /// orders tagged with the pair, in generation order; the whole book when
    /// it is shorter than `count`. Insufficient depth is never an error.
    pub fn all_the_best_orders(&self, trading_pair: TradingPair, count: u32) -> (r: Result<
        Vec<crate::market::Order>,
        MarketError,
    >)
        ensures
            ({
                let book = self.resolved_book(trading_pair);
                &&& r matches Ok(orders)
                &&& orders@.len() == (if count as int <= book.len() { count as int } else { book.len() as int })
                &&& forall|i: int| 0 <= i < orders@.len() ==> #[trigger] orders@[i]
                    == (crate::market::Order {
                        trading_pair,
                        price: book[i].price,
                        amount: book[i].amount,
                    })
            }),
    {
        let book: &Vec<Order> = match (trading_pair.target, trading_pair.side) {
            (Target::Market, Side::Sell) => &self.buy_orders,
            (Target::Market, Side::Buy) => &self.sell_orders,
            (Target::Limit, Side::Sell) => &self.sell_orders,
            (Target::Limit, Side::Buy) => &self.buy_orders,
        };
        let n: usize = if (count as usize) <= book.len() {
            count as usize
        } else {
            book.len()
        };
        let mut orders: Vec<crate::market::Order> = Vec::new();
        let mut i: usize = 0;
        while i < n
            invariant
                i <= n,
                n as int <= book@.len(),
                book@ == self.resolved_book(trading_pair),
                orders@.len() == i as int,
                forall|j: int| 0 <= j < i as int ==> #[trigger] orders@[j]
                    == (crate::market::Order {
                        trading_pair,
                        price: book@[j].price,
                        amount: book@[j].amount,
                    }),
            decreases n - i,
        {
            orders.push(crate::market::Order {
                trading_pair,
                price: book[i].price,
                amount: book[i].amount,
            });
            i = i + 1;
        }
        Ok(orders)
    }

    /// The first order of the resolved book, tagged with the pair; fails
    /// with `NoLiquidity` exactly when that book is empty.
    pub fn best_order(&self, trading_pair: TradingPair) -> (r: Result<
        crate::market::Order,
        MarketError,
    >)
        ensures
            ({
                let book = self.resolved_book(trading_pair);
                &&& book.len() == 0 ==> r == Err::<crate::market::Order, MarketError>(
                    MarketError::NoLiquidity,
                )
                &&& book.len() > 0 ==> (r matches Ok(o) && o == (crate::market::Order {
                    trading_pair,
                    price: book[0].price,
                    amount: book[0].amount,
                }))
            }),
    {
        let book: &Vec<Order> = match (trading_pair.target, trading_pair.side) {
            (Target::Market, Side::Sell) => &self.buy_orders,
            (Target::Market, Side::Buy) => &self.sell_orders,
            (Target::Limit, Side::Sell) => &self.sell_orders,
            (Target::Limit, Side::Buy) => &self.buy_orders,
        };
        if book.len() == 0 {
            Err(MarketError::NoLiquidity)
        } else {
            Ok(crate::market::Order {
                trading_pair,
                price: book[0].price,
                amount: book[0].amount,
            })
        }
    }

    /// The configured owned-orders snapshot, whichever pair is asked about:
    /// the simulator exposes every order it owns, unfiltered.
    pub fn get_my_orders(&self, _trading_pair: TradingPair) -> (r: Result<
        Vec<OrderWithId>,
        MarketError,
    >)
        ensures
            r matches Ok(orders) && orders@.len() == self.my_orders@.len()
                && forall|i: int| 0 <= i < orders@.len() ==> #[trigger] orders@[i]@
                    == self.my_orders@[i]@,
    {
        let mut orders: Vec<OrderWithId> = Vec::new();
        let mut i: usize = 0;
        while i < self.my_orders.len()
            invariant
                i <= self.my_orders@.len(),
                orders@.len() == i as int,
                forall|j: int| 0 <= j < i as int ==> #[trigger] orders@[j]@ == self.my_orders@[j]@,
            decreases self.my_orders@.len() - i,
        {
            orders.push(self.my_orders[i].clone());
            i = i + 1;
        }
        Ok(orders)
    }
}

/// Law: the four `(target, side)` combinations resolve to the books the
/// resolution table names.
pub proof fn lemma_resolution_table(s: Sniffer, coins: Coins)
    ensures
        s.resolved_book((TradingPair { coins, side: Side::Sell, target: Target::Market }))
            == s.buy_orders@,
        s.resolved_book((TradingPair { coins, side: Side::Buy, target: Target::Market }))
            == s.sell_orders@,
        s.resolved_book((TradingPair { coins, side: Side::Sell, target: Target::Limit }))
            == s.sell_orders@,
        s.resolved_book((TradingPair { coins, side: Side::Buy, target: Target::Limit }))
            == s.buy_orders@,
{
}

/// Step-by-step builder for a [`Sniffer`], with defaults for whatever is
/// not set.
#[derive(Debug)]
pub struct SnifferBuilder {
    pub buy_generator: Option<StockGenerator>,
    pub sell_generator: Option<StockGenerator>,
    pub my_orders: Option<Vec<OrderWithId>>,
}

/// The generator used for a side the builder was not given one for:
/// a three-rung ladder from a base price of ten ticks, one tick apart,
/// ascending for the sell side and descending for the buy side.
pub open spec fn default_generator(side: Side) -> StockGenerator {
    StockGenerator {
        base_price: 10,
        step: match side {
            Side::Sell => 1i64,
            Side::Buy => -1i64,
        },
        count: 3,
    }
}

fn make_default_generator(side: Side) -> (g: StockGenerator)
    ensures
        g == default_generator(side),
{
    StockGenerator {
        base_price: 10,
        step: match side {
            Side::Sell => 1,
            Side::Buy => -1,
        },
        count: 3,
    }
}

/// The generator `build` evaluates for a side: the one the builder was
/// given, or the default one.
pub open spec fn effective_generator(g: Option<StockGenerator>, side: Side) -> StockGenerator {
    match g {
        Some(gen) => gen,
        None => default_generator(side),
    }
}

impl SnifferBuilder {
    /// A builder with nothing set.
    pub fn new() -> (b: SnifferBuilder)
        ensures
            b.buy_generator is None,
            b.sell_generator is None,
            b.my_orders is None,
    {
        SnifferBuilder { buy_generator: None, sell_generator: None, my_orders: None }
    }

    /// Sets the buy-side generator.
    pub fn buy_stock_generator(self, generator: StockGenerator) -> (b: SnifferBuilder)
        ensures
            b.buy_generator == Some(generator),
            b.sell_generator == self.sell_generator,
            b.my_orders == self.my_orders,
    {
        SnifferBuilder {
            buy_generator: Some(generator),
            sell_generator: self.sell_generator,
            my_orders: self.my_orders,
        }
    }

    /// Sets the sell-side generator.
    pub fn sell_stock_generator(self, generator: StockGenerator) -> (b: SnifferBuilder)
        ensures
            b.buy_generator == self.buy_generator,
            b.sell_generator == Some(generator),
            b.my_orders == self.my_orders,
    {
        SnifferBuilder {
            buy_generator: self.buy_generator,
            sell_generator: Some(generator),
            my_orders: self.my_orders,
        }
    }

    /// Sets the owned-orders snapshot.
    pub fn my_orders(self, my_orders: Vec<OrderWithId>) -> (b: SnifferBuilder)
        ensures
            b.buy_generator == self.buy_generator,
            b.sell_generator == self.sell_generator,
            b.my_orders == Some(my_orders),
    {
        SnifferBuilder {
            buy_generator: self.buy_generator,
            sell_generator: self.sell_generator,
            my_orders: Some(my_orders),
        }
    }

    /// Evaluates both generators once into the simulator's two fixed books,
    /// every order carrying the same fixed `amount`; the owned snapshot is
    /// the one set, or empty.
    pub fn build(self, amount: i64) -> (s: Sniffer)
        requires
            self.sell_generator matches Some(g) ==> g.fits(),
            self.buy_generator matches Some(g) ==> g.fits(),
        ensures
            ({
                let sell = effective_generator(self.sell_generator, Side::Sell);
                let buy = effective_generator(self.buy_generator, Side::Buy);
                &&& is_ladder(s.sell_orders@, sell.base_price as int, sell.step as int, sell.count as int, amount as int)
                &&& is_ladder(s.buy_orders@, buy.base_price as int, buy.step as int, buy.count as int, amount as int)
                &&& (self.my_orders matches Some(os) ==> s.my_orders@ == os@)
                &&& (self.my_orders is None ==> s.my_orders@.len() == 0)
            }),
    {
        let sell_generator: StockGenerator = match self.sell_generator {
            Some(g) => g,
            None => make_default_generator(Side::Sell),
        };
        let buy_generator: StockGenerator = match self.buy_generator {
            Some(g) => g,
            None => make_default_generator(Side::Buy),
        };
        let sell_orders: Vec<Order> = sell_generator.generate_orders(amount);
        let buy_orders: Vec<Order> = buy_generator.generate_orders(amount);
        let my_orders: Vec<OrderWithId> = match self.my_orders {
            Some(os) => os,
            None => Vec::new(),
        };
        Sniffer { sell_orders, buy_orders, my_orders }
    }
}

} // verus!
