//! The facade: bundles one balance oracle, one order-book simulator and one
//! order executor behind a single handle, with default wiring or full
//! custom injection of each dependency.

use vstd::prelude::*;
use crate::accountant::Accountant;
use crate::sniffer::Sniffer;
use crate::trader::Trader;

verus! {

/// One handle to a complete set of market capabilities.
pub struct Merchant {
    pub id: &'static str,
    pub accountant: Accountant,
    pub trader: Trader,
    pub sniffer: Sniffer,
}

/// The facade's default wiring: the reference balance of ten ticks per
/// coin, a stateless executor, and a simulator with empty books.
pub open spec fn default_wiring(m: Merchant) -> bool {
    &&& m.accountant.balance == (crate::accountant::Balance {
        first_coin_amount: 10,
        second_coin_amount: 10,
    })
    &&& m.trader.created_orders@.len() == 0
    &&& m.sniffer.sell_orders@.len() == 0
    &&& m.sniffer.buy_orders@.len() == 0
    &&& m.sniffer.my_orders@.len() == 0
}

impl Merchant {
    /// Default wiring with an injected order-book simulator.
    pub fn with_sniffer(id: &'static str, sniffer: Sniffer) -> (m: Merchant)
        ensures
            m.id@ == id@,
            m.sniffer == sniffer,
            m.accountant.balance == (crate::accountant::Balance {
                first_coin_amount: 10,
                second_coin_amount: 10,
            }),
            m.trader.created_orders@.len() == 0,
    {
        let accountant: Accountant = Default::default();
        let trader: Trader = Default::default();
        Merchant { id, sniffer, trader, accountant }
    }

    /// Default wiring with an injected order executor.
    pub fn with_trader(id: &'static str, trader: Trader) -> (m: Merchant)
        ensures
            m.id@ == id@,
            m.trader == trader,
            m.accountant.balance == (crate::accountant::Balance {
                first_coin_amount: 10,
                second_coin_amount: 10,
            }),
            m.sniffer.sell_orders@.len() == 0,
            m.sniffer.buy_orders@.len() == 0,
            m.sniffer.my_orders@.len() == 0,
    {
        let accountant: Accountant = Default::default();
        let sniffer: Sniffer = Default::default();
        Merchant { id, sniffer, trader, accountant }
    }

    /// Full custom injection of every dependency.
    pub fn custom(
        id: &'static str,
        accountant: Accountant,
        sniffer: Sniffer,
        trader: Trader,
    ) -> (m: Merchant)
        ensures
            m.id@ == id@,
            m.accountant == accountant,
            m.sniffer == sniffer,
            m.trader == trader,
    {
        Merchant { id, accountant, sniffer, trader }
    }

    /// The facade's identity tag.
    pub fn id(&self) -> (r: &'static str)
        ensures
            r@ == self.id@,
    {
        self.id
    }

    /// The bundled balance oracle.
    pub fn accountant(&self) -> (r: &Accountant)
        ensures
            *r == self.accountant,
    {
        &self.accountant
    }

    /// The bundled order executor.
    pub fn trader(&self) -> (r: &Trader)
        ensures
            *r == self.trader,
    {
        &self.trader
    }

    /// The bundled order-book simulator.
    pub fn sniffer(&self) -> (r: &Sniffer)
        ensures
            *r == self.sniffer,
    {
        &self.sniffer
    }
}

impl Default for Merchant {
    /// The fully default facade under the reference identity tag.
    fn default() -> (m: Merchant)
        ensures
            m.id@ == "Test"@,
            default_wiring(m),
    {
        Merchant {
            id: "Test",
            accountant: Default::default(),
            trader: Default::default(),
            sniffer: Default::default(),
        }
    }
}

} // verus!
