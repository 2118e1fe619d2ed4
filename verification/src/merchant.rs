//! The composition root: one bundle of façades per exchange account.

use crate::accountant::Accountant;
use crate::sniffer::Sniffer;
use crate::trader::Trader;
use vstd::prelude::*;

verus! {

/// One exchange account's façades under one roof. The exchange clients
/// themselves (authentication, transport) live outside the crate; the
/// merchant hands out the stateless façades that build requests and
/// interpret replies, and carries an identifier that tells exchanges apart
/// when several are composed upstream.
#[derive(Clone, Copy, Debug)]
pub struct Merchant {
    id: &'static str,
    accountant: Accountant,
    sniffer: Sniffer,
    trader: Trader,
}

impl Merchant {
    /// The merchant's identifier.
    pub closed spec fn spec_id(&self) -> Seq<char> {
        self.id@
    }

    /// The façades are well formed, with the accountant's fixed price nudge.
    pub closed spec fn wf(&self) -> bool {
        self.accountant.wf()
    }

    pub fn new(id: &'static str) -> (r: Merchant)
        ensures
            r.spec_id() == id@,
            r.wf(),
    {
        Merchant {
            id,
            accountant: Accountant::new(),
            sniffer: Sniffer::new(),
            trader: Trader::new(),
        }
    }

    pub fn id(&self) -> (r: &'static str)
        ensures
            r@ == self.spec_id(),
    {
        self.id
    }

    pub fn accountant(&self) -> (r: Accountant)
        ensures
            self.wf() ==> r.wf(),
    {
        self.accountant
    }

    pub fn trader(&self) -> (r: Trader)
        ensures
            r == (Trader {  }),
    {
        self.trader
    }

    pub fn sniffer(&self) -> (r: Sniffer)
        ensures
            r == (Sniffer {  }),
    {
        self.sniffer
    }
}

} // verus!
