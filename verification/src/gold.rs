use vstd::prelude::*;

verus! {

/// The gold an actor carries. The balance never underflows: spending
/// requires a sufficient balance.
#[derive(Copy, Clone, Eq, PartialEq, Structural, Debug)]
pub struct GoldPouch {
    amount: u64,
}

impl GoldPouch {
    pub closed spec fn spec_amount(&self) -> u64 {
        self.amount
    }

    pub fn new(amount: u64) -> (r: GoldPouch)
        ensures
            r.spec_amount() == amount,
    {
        GoldPouch { amount }
    }

    pub fn amount(&self) -> (r: u64)
        ensures
            r == self.spec_amount(),
    {
        self.amount
    }

    pub fn gain(&mut self, amount: u64)
        requires
            old(self).spec_amount() + amount <= u64::MAX,
        ensures
            final(self).spec_amount() == old(self).spec_amount() + amount,
    {
        self.amount = self.amount + amount;
    }

    pub fn spend(&mut self, amount: u64)
        requires
            amount <= old(self).spec_amount(),
        ensures
            final(self).spec_amount() == old(self).spec_amount() - amount,
    {
        self.amount = self.amount - amount;
    }
}

} // verus!
