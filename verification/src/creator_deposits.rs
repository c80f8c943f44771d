//! Creator deposit balances with a platform fee.
//!
//! A creator deposits earnings: the platform's cut (in basis points) moves to
//! the treasury through the token ledger and the remainder is credited to the
//! creator's stored balance. Withdrawals pay out of the contract's own token
//! account and never drive a stored balance negative.

use vstd::prelude::*;

use crate::errors::Error;
use crate::fees::{fee_of, lemma_fee_bounds, lemma_fee_mul_fits, net_of, MAX_FEE_BASE};
use crate::store::Table;
use crate::token::{bal, nonneg, xfer, xfer_err, xfer_ok, TokenLedger};

verus! {

/// A notification a successful mutating operation leaves behind.
#[derive(Clone, Copy, Debug, PartialEq, Eq, Structural)]
pub enum DepositEvent {
    EarningsDeposited { creator: u64, token: u64, net: i128 },
    EarningsWithdrawn { creator: u64, token: u64, amount: i128 },
}

/// The abstract state of the deposits contract.
#[verifier::ext_equal]
pub struct CreatorDepositsView {
    pub contract_address: u64,
    pub initialized: bool,
    pub admin: u64,
    pub fee_bps: u32,
    pub treasury: u64,
    pub balances: Map<u64, i128>,
    pub events: Seq<DepositEvent>,
}

/// What one `deposit` call does for the given inputs.
pub open spec fn deposit_outcome(
    s: CreatorDepositsView,
    l: Map<u64, i128>,
    auth: u64,
    creator: u64,
    token: u64,
    amount: i128,
) -> (CreatorDepositsView, Map<u64, i128>, Result<(), Error>) {
    if auth != creator {
        (s, l, Err(Error::Unauthorized))
    } else if !s.initialized {
        (s, l, Err(Error::NotInitialized))
    } else if amount < 0 {
        (s, l, Err(Error::InvalidAmount))
    } else if amount > MAX_FEE_BASE {
        (s, l, Err(Error::Overflow))
    } else {
        let fee = fee_of(amount, s.fee_bps);
        let net = net_of(amount, s.fee_bps);
        if bal(s.balances, creator) + net > i128::MAX {
            (s, l, Err(Error::Overflow))
        } else if fee > 0 && !xfer_ok(l, creator, s.treasury, fee as i128) {
            (s, l, Err(xfer_err(l, creator, s.treasury, fee as i128)))
        } else {
            (
                CreatorDepositsView {
                    balances: s.balances.insert(
                        creator,
                        (bal(s.balances, creator) + net) as i128,
                    ),
                    events: s.events.push(
                        DepositEvent::EarningsDeposited { creator, token, net: net as i128 },
                    ),
                    ..s
                },
                if fee > 0 {
                    xfer(l, creator, s.treasury, fee as i128)
                } else {
                    l
                },
                Ok(()),
            )
        }
    }
}

/// What one `withdraw` call does for the given inputs.
pub open spec fn withdraw_outcome(
    s: CreatorDepositsView,
    l: Map<u64, i128>,
    auth: u64,
    creator: u64,
    token: u64,
    amount: i128,
) -> (CreatorDepositsView, Map<u64, i128>, Result<(), Error>) {
    if auth != creator {
        (s, l, Err(Error::Unauthorized))
    } else if amount < 0 {
        (s, l, Err(Error::InvalidAmount))
    } else if bal(s.balances, creator) < amount {
        (s, l, Err(Error::InsufficientBalance))
    } else if !xfer_ok(l, s.contract_address, creator, amount) {
        (s, l, Err(xfer_err(l, s.contract_address, creator, amount)))
    } else {
        (
            CreatorDepositsView {
                balances: s.balances.insert(
                    creator,
                    (bal(s.balances, creator) - amount) as i128,
                ),
                events: s.events.push(
                    DepositEvent::EarningsWithdrawn { creator, token, amount },
                ),
                ..s
            },
            xfer(l, s.contract_address, creator, amount),
            Ok(()),
        )
    }
}

/// The deposits contract: fee configuration plus each creator's balance.
pub struct CreatorDeposits {
    contract_address: u64,
    initialized: bool,
    admin: u64,
    fee_bps: u32,
    treasury: u64,
    balances: Table<i128>,
    events: Vec<DepositEvent>,
}

impl View for CreatorDeposits {
    type V = CreatorDepositsView;

    closed spec fn view(&self) -> CreatorDepositsView {
        CreatorDepositsView {
            contract_address: self.contract_address,
            initialized: self.initialized,
            admin: self.admin,
            fee_bps: self.fee_bps,
            treasury: self.treasury,
            balances: self.balances@,
            events: self.events@,
        }
    }
}

/// What always holds of a reachable contract state: no stored balance is
/// negative and the configured fee rate is valid.
pub open spec fn deposits_view_wf(s: CreatorDepositsView) -> bool {
    nonneg(s.balances) && s.fee_bps < 10000
}

impl CreatorDeposits {
    /// Sound storage, no negative stored balance, valid fee rate.
    pub closed spec fn wf(&self) -> bool {
        self.balances.wf() && deposits_view_wf(self@)
    }

    /// A fresh instance living at `contract_address` on the token ledger.
    pub fn new(contract_address: u64) -> (c: Self)
        ensures
            c.wf(),
            c@ == (CreatorDepositsView {
                contract_address,
                initialized: false,
                admin: 0,
                fee_bps: 0,
                treasury: 0,
                balances: Map::empty(),
                events: Seq::empty(),
            }),
    {
        let c = CreatorDeposits {
            contract_address,
            initialized: false,
            admin: 0,
            fee_bps: 0,
            treasury: 0,
            balances: Table::new(),
            events: Vec::new(),
        };
        proof {
            assert(c@.events =~= Seq::<DepositEvent>::empty());
            assert(c@ =~= (CreatorDepositsView {
                contract_address,
                initialized: false,
                admin: 0,
                fee_bps: 0,
                treasury: 0,
                balances: Map::empty(),
                events: Seq::empty(),
            }));
        }
        c
    }

    /// Configure admin, fee rate and treasury, once. The rate must stay
    /// below 10000 basis points.
    pub fn init(&mut self, admin: u64, platform_fee_bps: u32, platform_treasury: u64) -> (r:
        Result<(), Error>)
        requires
            old(self).wf(),
        ensures
            final(self).wf(),
            old(self)@.initialized ==> r == Err::<(), Error>(Error::AlreadyInitialized)
                && final(self)@ == old(self)@,
            !old(self)@.initialized && platform_fee_bps >= 10000 ==> r == Err::<(), Error>(
                Error::InvalidFee,
            ) && final(self)@ == old(self)@,
            !old(self)@.initialized && platform_fee_bps < 10000 ==> r == Ok::<(), Error>(())
                && final(self)@ == (CreatorDepositsView {
                initialized: true,
                admin,
                fee_bps: platform_fee_bps,
                treasury: platform_treasury,
                ..old(self)@
            }),
    {
        if self.initialized {
            return Err(Error::AlreadyInitialized);
        }
        if platform_fee_bps >= 10000 {
            return Err(Error::InvalidFee);
        }
        self.initialized = true;
        self.admin = admin;
        self.fee_bps = platform_fee_bps;
        self.treasury = platform_treasury;
        Ok(())
    }

    /// Deposit `amount` of `token`: the fee share moves from the creator to
    /// the treasury, the net share is credited to the creator's balance.
    /// The creator must have approved the call.
    pub fn deposit(
        &mut self,
        ledger: &mut TokenLedger,
        auth: u64,
        creator: u64,
        token: u64,
        amount: i128,
    ) -> (r: Result<(), Error>)
        requires
            old(self).wf(),
            old(ledger).wf(),
        ensures
            final(self).wf(),
            final(ledger).wf(),
            (final(self)@, final(ledger)@, r) == deposit_outcome(
                old(self)@,
                old(ledger)@,
                auth,
                creator,
                token,
                amount,
            ),
    {
        if auth != creator {
            return Err(Error::Unauthorized);
        }
        if !self.initialized {
            return Err(Error::NotInitialized);
        }
        if amount < 0 {
            return Err(Error::InvalidAmount);
        }
        if amount > MAX_FEE_BASE {
            return Err(Error::Overflow);
        }
        proof {
            lemma_fee_mul_fits(amount, self.fee_bps);
            lemma_fee_bounds(amount, self.fee_bps);
        }
        let fee = amount * (self.fee_bps as i128) / 10000;
        let net = amount - fee;
        let current = match self.balances.get(creator) {
            Some(v) => *v,
            None => 0,
        };
        if current > i128::MAX - net {
            return Err(Error::Overflow);
        }
        if fee > 0 {
            match ledger.transfer(creator, self.treasury, fee) {
                Ok(()) => {},
                Err(e) => {
                    return Err(e);
                },
            }
        }
        self.balances.insert(creator, current + net);
        self.events.push(DepositEvent::EarningsDeposited { creator, token, net });
        Ok(())
    }

    /// Withdraw `amount` of `token` from the creator's stored balance; the
    /// tokens move from the contract's own account to the creator. The
    /// creator must have approved the call and the stored balance must cover
    /// the amount.
    pub fn withdraw(
        &mut self,
        ledger: &mut TokenLedger,
        auth: u64,
        creator: u64,
        token: u64,
        amount: i128,
    ) -> (r: Result<(), Error>)
        requires
            old(self).wf(),
            old(ledger).wf(),
        ensures
            final(self).wf(),
            final(ledger).wf(),
            (final(self)@, final(ledger)@, r) == withdraw_outcome(
                old(self)@,
                old(ledger)@,
                auth,
                creator,
                token,
                amount,
            ),
    {
        if auth != creator {
            return Err(Error::Unauthorized);
        }
        if amount < 0 {
            return Err(Error::InvalidAmount);
        }
        let current = match self.balances.get(creator) {
            Some(v) => *v,
            None => 0,
        };
        if current < amount {
            return Err(Error::InsufficientBalance);
        }
        match ledger.transfer(self.contract_address, creator, amount) {
            Ok(()) => {},
            Err(e) => {
                return Err(e);
            },
        }
        self.balances.insert(creator, current - amount);
        self.events.push(DepositEvent::EarningsWithdrawn { creator, token, amount });
        Ok(())
    }

    /// Change the fee rate; only the admin may, and only to a valid rate.
    pub fn set_platform_fee(&mut self, auth: u64, bps: u32) -> (r: Result<(), Error>)
        requires
            old(self).wf(),
        ensures
            final(self).wf(),
            !old(self)@.initialized ==> r == Err::<(), Error>(Error::NotInitialized)
                && final(self)@ == old(self)@,
            old(self)@.initialized && auth != old(self)@.admin ==> r == Err::<(), Error>(
                Error::Unauthorized,
            ) && final(self)@ == old(self)@,
            old(self)@.initialized && auth == old(self)@.admin && bps >= 10000 ==> r == Err::<
                (),
                Error,
            >(Error::InvalidFee) && final(self)@ == old(self)@,
            old(self)@.initialized && auth == old(self)@.admin && bps < 10000 ==> r == Ok::<
                (),
                Error,
            >(()) && final(self)@ == (CreatorDepositsView { fee_bps: bps, ..old(self)@ }),
    {
        if !self.initialized {
            return Err(Error::NotInitialized);
        }
        if auth != self.admin {
            return Err(Error::Unauthorized);
        }
        if bps >= 10000 {
            return Err(Error::InvalidFee);
        }
        self.fee_bps = bps;
        Ok(())
    }

    /// The creator's stored balance; zero if nothing was ever deposited.
    pub fn get_balance(&self, creator: u64) -> (r: i128)
        requires
            self.wf(),
        ensures
            r as int == bal(self@.balances, creator),
            r >= 0,
    {
        match self.balances.get(creator) {
            Some(v) => *v,
            None => 0,
        }
    }

    /// The configured fee rate; zero if the contract was never configured.
    pub fn get_platform_fee(&self) -> (r: u32)
        ensures
            r == self@.fee_bps,
    {
        self.fee_bps
    }

    /// The events the contract has emitted, oldest first.
    pub fn events(&self) -> (r: &Vec<DepositEvent>)
        ensures
            r@ == self@.events,
    {
        &self.events
    }
}

/// A deposit credits exactly the net-of-fee amount: afterwards the creator's
/// stored balance has grown by `amount - floor(amount * fee_bps / 10000)`.
pub proof fn lemma_deposit_credits_net(
    s: CreatorDepositsView,
    l: Map<u64, i128>,
    auth: u64,
    creator: u64,
    token: u64,
    amount: i128,
)
    requires
        deposits_view_wf(s),
    ensures
        ({
            let (s1, l1, r1) = deposit_outcome(s, l, auth, creator, token, amount);
            r1 is Ok ==> bal(s1.balances, creator) == bal(s.balances, creator) + amount - fee_of(
                amount,
                s.fee_bps,
            )
        }),
{
    let (s1, l1, r1) = deposit_outcome(s, l, auth, creator, token, amount);
    if r1 is Ok && auth == creator && s.initialized && 0 <= amount <= MAX_FEE_BASE {
        lemma_fee_bounds(amount, s.fee_bps);
        assert(bal(s.balances, creator) >= 0) by {
            if s.balances.contains_key(creator) {
                assert(s.balances[creator] >= 0);
            }
        }
    }
}

/// A deposit pays exactly the fee to the treasury: if the treasury is a
/// third party, its token balance grows by `floor(amount * fee_bps / 10000)`
/// and the creator's token balance shrinks by the same.
pub proof fn lemma_deposit_pays_fee(
    s: CreatorDepositsView,
    l: Map<u64, i128>,
    auth: u64,
    creator: u64,
    token: u64,
    amount: i128,
)
    requires
        deposits_view_wf(s),
        s.treasury != creator,
    ensures
        ({
            let (s1, l1, r1) = deposit_outcome(s, l, auth, creator, token, amount);
            r1 is Ok ==> bal(l1, s.treasury) == bal(l, s.treasury) + fee_of(amount, s.fee_bps)
                && bal(l1, creator) == bal(l, creator) - fee_of(amount, s.fee_bps)
        }),
{
    let (s1, l1, r1) = deposit_outcome(s, l, auth, creator, token, amount);
    if r1 is Ok && auth == creator && s.initialized && 0 <= amount <= MAX_FEE_BASE {
        lemma_fee_bounds(amount, s.fee_bps);
        let fee = fee_of(amount, s.fee_bps);
        if fee > 0 {
            crate::token::lemma_xfer_bal(l, creator, s.treasury, fee as i128, s.treasury);
            crate::token::lemma_xfer_bal(l, creator, s.treasury, fee as i128, creator);
        }
    }
}

/// Asking for more than the stored balance fails and changes nothing: every
/// withdrawal of an amount above the balance leaves the contract state and
/// the token ledger exactly as they were.
pub proof fn lemma_withdraw_insufficient(
    s: CreatorDepositsView,
    l: Map<u64, i128>,
    auth: u64,
    creator: u64,
    token: u64,
    amount: i128,
)
    requires
        amount > bal(s.balances, creator),
        nonneg(s.balances),
    ensures
        ({
            let (s1, l1, r1) = withdraw_outcome(s, l, auth, creator, token, amount);
            r1 is Err && s1 == s && l1 == l
        }),
        auth == creator ==> withdraw_outcome(s, l, auth, creator, token, amount).2 == Err::<
            (),
            Error,
        >(Error::InsufficientBalance),
{
    assert(bal(s.balances, creator) >= 0) by {
        if s.balances.contains_key(creator) {
            assert(s.balances[creator] >= 0);
        }
    }
}

} // verus!
