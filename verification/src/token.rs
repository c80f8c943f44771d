//! A verified fungible-token ledger: the payment bridge.
//!
//! The contracts move funds by calling [`TokenLedger::transfer`]. Its exact
//! contract is what "pay-then-grant" rests on: a transfer either moves the
//! amount in full or returns an error and leaves every balance untouched, so
//! a contract that transfers before mutating its own state can promise that a
//! failed payment mutates nothing at all.

use vstd::prelude::*;

use crate::errors::Error;
use crate::store::Table;

verus! {

/// The balance an account holds under `m`; an absent account holds zero.
pub open spec fn bal(m: Map<u64, i128>, a: u64) -> int {
    if m.contains_key(a) {
        m[a] as int
    } else {
        0
    }
}

/// Every stored balance is non-negative.
pub open spec fn nonneg(m: Map<u64, i128>) -> bool {
    forall|a: u64| m.contains_key(a) ==> #[trigger] m[a] >= 0
}

/// Whether moving `amount` from `from` to `to` can succeed on `m`.
pub open spec fn xfer_ok(m: Map<u64, i128>, from: u64, to: u64, amount: i128) -> bool {
    &&& 0 <= amount
    &&& amount <= bal(m, from)
    &&& (from == to || bal(m, to) + amount <= i128::MAX)
}

/// The ledger after moving `amount` from `from` to `to`: debit, then credit.
pub open spec fn xfer(m: Map<u64, i128>, from: u64, to: u64, amount: i128) -> Map<u64, i128> {
    let debited = m.insert(from, (bal(m, from) - amount) as i128);
    debited.insert(to, (bal(debited, to) + amount) as i128)
}

/// The error a failing transfer reports, in the order the checks run.
pub open spec fn xfer_err(m: Map<u64, i128>, from: u64, to: u64, amount: i128) -> Error {
    if amount < 0 {
        Error::InvalidAmount
    } else if bal(m, from) < amount {
        Error::InsufficientBalance
    } else {
        Error::Overflow
    }
}

/// What a transfer returns on `m`.
pub open spec fn xfer_result(m: Map<u64, i128>, from: u64, to: u64, amount: i128) -> Result<
    (),
    Error,
> {
    if xfer_ok(m, from, to, amount) {
        Ok(())
    } else {
        Err(xfer_err(m, from, to, amount))
    }
}

/// How one transfer changes each account: `from` loses the amount, `to`
/// gains it, everyone else is untouched.
pub proof fn lemma_xfer_bal(m: Map<u64, i128>, from: u64, to: u64, amount: i128, x: u64)
    requires
        xfer_ok(m, from, to, amount),
    ensures
        bal(xfer(m, from, to, amount), x) == bal(m, x) + (if x == to {
            amount as int
        } else {
            0
        }) - (if x == from {
            amount as int
        } else {
            0
        }),
{
}

/// An in-memory fungible-token ledger: account identifier to balance.
pub struct TokenLedger {
    balances: Table<i128>,
}

impl View for TokenLedger {
    type V = Map<u64, i128>;

    closed spec fn view(&self) -> Map<u64, i128> {
        self.balances@
    }
}

impl TokenLedger {
    /// Every balance is stored soundly and is non-negative.
    pub closed spec fn wf(&self) -> bool {
        self.balances.wf() && nonneg(self@)
    }

    /// An empty ledger: every account holds zero.
    pub fn new() -> (l: Self)
        ensures
            l.wf(),
            l@ == Map::<u64, i128>::empty(),
    {
        TokenLedger { balances: Table::new() }
    }

    /// The balance `account` holds.
    pub fn balance_of(&self, account: u64) -> (r: i128)
        requires
            self.wf(),
        ensures
            r as int == bal(self@, account),
            r >= 0,
    {
        match self.balances.get(account) {
            Some(v) => *v,
            None => 0,
        }
    }

    /// Create `amount` new tokens on `to`'s account.
    pub fn mint(&mut self, to: u64, amount: i128) -> (r: Result<(), Error>)
        requires
            old(self).wf(),
        ensures
            final(self).wf(),
            amount < 0 ==> r == Err::<(), Error>(Error::InvalidAmount),
            amount >= 0 && bal(old(self)@, to) + amount > i128::MAX ==> r == Err::<(), Error>(
                Error::Overflow,
            ),
            amount >= 0 && bal(old(self)@, to) + amount <= i128::MAX ==> r == Ok::<(), Error>(())
                && final(self)@ == old(self)@.insert(to, (bal(old(self)@, to) + amount) as i128),
            r is Err ==> final(self)@ == old(self)@,
    {
        if amount < 0 {
            return Err(Error::InvalidAmount);
        }
        let bt = self.balance_of(to);
        if bt > i128::MAX - amount {
            return Err(Error::Overflow);
        }
        self.balances.insert(to, bt + amount);
        Ok(())
    }

    /// Move `amount` from `from` to `to`, in full or not at all.
    pub fn transfer(&mut self, from: u64, to: u64, amount: i128) -> (r: Result<(), Error>)
        requires
            old(self).wf(),
        ensures
            final(self).wf(),
            r == xfer_result(old(self)@, from, to, amount),
            r is Ok ==> final(self)@ == xfer(old(self)@, from, to, amount),
            r is Err ==> final(self)@ == old(self)@,
    {
        if amount < 0 {
            return Err(Error::InvalidAmount);
        }
        let bf = self.balance_of(from);
        if bf < amount {
            return Err(Error::InsufficientBalance);
        }
        if from == to {
            self.balances.insert(from, bf);
            proof {
                assert(final(self)@ =~= xfer(old(self)@, from, to, amount));
            }
            return Ok(());
        }
        let bt = self.balance_of(to);
        if bt > i128::MAX - amount {
            return Err(Error::Overflow);
        }
        self.balances.insert(from, bf - amount);
        let ghost mid = self@;
        self.balances.insert(to, bt + amount);
        proof {
            assert(bal(mid, to) == bt as int);
            assert(final(self)@ =~= xfer(old(self)@, from, to, amount));
        }
        Ok(())
    }

    /// Move `amount1` to `to1` and then `amount2` to `to2`, both from `from`:
    /// both moves happen, or neither does.
    pub fn transfer_pair(
        &mut self,
        from: u64,
        to1: u64,
        amount1: i128,
        to2: u64,
        amount2: i128,
    ) -> (r: Result<(), Error>)
        requires
            old(self).wf(),
        ensures
            final(self).wf(),
            r is Ok <==> xfer_ok(old(self)@, from, to1, amount1) && xfer_ok(
                xfer(old(self)@, from, to1, amount1),
                from,
                to2,
                amount2,
            ),
            r is Ok ==> final(self)@ == xfer(
                xfer(old(self)@, from, to1, amount1),
                from,
                to2,
                amount2,
            ),
            r is Err ==> final(self)@ == old(self)@,
            !xfer_ok(old(self)@, from, to1, amount1) ==> r == Err::<(), Error>(
                xfer_err(old(self)@, from, to1, amount1),
            ),
            xfer_ok(old(self)@, from, to1, amount1) && !xfer_ok(
                xfer(old(self)@, from, to1, amount1),
                from,
                to2,
                amount2,
            ) ==> r == Err::<(), Error>(
                xfer_err(xfer(old(self)@, from, to1, amount1), from, to2, amount2),
            ),
    {
        let ghost m0 = self@;
        let ghost m1 = xfer(m0, from, to1, amount1);

        // Feasibility of the first move on the current ledger.
        if amount1 < 0 {
            return Err(Error::InvalidAmount);
        }
        let bf = self.balance_of(from);
        if bf < amount1 {
            return Err(Error::InsufficientBalance);
        }
        if from != to1 {
            let bt1 = self.balance_of(to1);
            if bt1 > i128::MAX - amount1 {
                return Err(Error::Overflow);
            }
        }
        proof {
            assert(xfer_ok(m0, from, to1, amount1));
            lemma_xfer_bal(m0, from, to1, amount1, from);
            lemma_xfer_bal(m0, from, to1, amount1, to2);
        }

        // Feasibility of the second move on the ledger as the first leaves it.
        if amount2 < 0 {
            return Err(Error::InvalidAmount);
        }
        let bf1 = if from == to1 {
            bf
        } else {
            bf - amount1
        };
        proof {
            assert(bf1 as int == bal(m1, from));
        }
        if bf1 < amount2 {
            return Err(Error::InsufficientBalance);
        }
        if from != to2 {
            let bt2 = self.balance_of(to2);
            let bt2_mid = if to2 == to1 {
                bt2 + amount1
            } else {
                bt2
            };
            proof {
                assert(bt2_mid as int == bal(m1, to2));
            }
            if bt2_mid > i128::MAX - amount2 {
                return Err(Error::Overflow);
            }
        }
        proof {
            assert(xfer_ok(m1, from, to2, amount2));
        }

        // Both moves are feasible: commit them.
        let r1 = self.transfer(from, to1, amount1);
        proof {
            assert(r1 is Ok);
        }
        let r2 = self.transfer(from, to2, amount2);
        proof {
            assert(r2 is Ok);
        }
        Ok(())
    }
}

} // verus!
