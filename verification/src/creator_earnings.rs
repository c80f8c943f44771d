//! Creator earnings held by the contract.
//!
//! Deposits are made on a creator's behalf by the admin or by an explicitly
//! authorized depositor; the tokens move into the contract's own account and
//! the creator's claim is recorded. The creator alone withdraws, and never
//! more than the recorded claim.

use vstd::prelude::*;

use crate::errors::Error;
use crate::store::Table;
use crate::token::{bal, nonneg, xfer, xfer_err, xfer_ok, TokenLedger};

verus! {

/// Reason an earnings operation was rejected.
#[derive(Clone, Copy, Debug, PartialEq, Eq, Structural)]
pub enum EarningsError {
    /// The contract was never initialized, or was initialized twice.
    NotInitialized,
    /// Initialization was attempted twice.
    AlreadyInitialized,
    /// The approving principal is not the one the operation requires.
    NotAuthorized,
    /// A non-positive amount was supplied.
    InvalidAmount,
    /// The recorded claim or the ledger balance cannot cover the move.
    InsufficientBalance,
    /// The operation would push a stored number past its representable range.
    Overflow,
}

/// How a token-ledger error surfaces from this contract.
pub open spec fn earnings_err(e: Error) -> EarningsError {
    match e {
        Error::InvalidAmount => EarningsError::InvalidAmount,
        Error::InsufficientBalance => EarningsError::InsufficientBalance,
        _ => EarningsError::Overflow,
    }
}

/// A notification a successful withdrawal leaves behind.
#[derive(Clone, Copy, Debug, PartialEq, Eq, Structural)]
pub enum EarningsEvent {
    Withdraw { creator: u64, amount: i128, token: u64 },
}

/// The abstract state of the earnings contract.
#[verifier::ext_equal]
pub struct CreatorEarningsView {
    pub contract_address: u64,
    pub initialized: bool,
    pub admin: u64,
    pub token: u64,
    pub balances: Map<u64, i128>,
    pub authorized: Set<u64>,
    pub events: Seq<EarningsEvent>,
}

/// Whether `from` may deposit: the admin always may, as may every principal
/// the admin has authorized.
pub open spec fn may_deposit(s: CreatorEarningsView, from: u64) -> bool {
    from == s.admin || s.authorized.contains(from)
}

/// What one `deposit` call does for the given inputs.
pub open spec fn deposit_outcome(
    s: CreatorEarningsView,
    l: Map<u64, i128>,
    auth: u64,
    from: u64,
    creator: u64,
    amount: i128,
) -> (CreatorEarningsView, Map<u64, i128>, Result<(), EarningsError>) {
    if amount <= 0 {
        (s, l, Err(EarningsError::InvalidAmount))
    } else if auth != from {
        (s, l, Err(EarningsError::NotAuthorized))
    } else if !s.initialized {
        (s, l, Err(EarningsError::NotInitialized))
    } else if !may_deposit(s, from) {
        (s, l, Err(EarningsError::NotAuthorized))
    } else if bal(s.balances, creator) + amount > i128::MAX {
        (s, l, Err(EarningsError::Overflow))
    } else if !xfer_ok(l, from, s.contract_address, amount) {
        (s, l, Err(earnings_err(xfer_err(l, from, s.contract_address, amount))))
    } else {
        (
            CreatorEarningsView {
                balances: s.balances.insert(
                    creator,
                    (bal(s.balances, creator) + amount) as i128,
                ),
                ..s
            },
            xfer(l, from, s.contract_address, amount),
            Ok(()),
        )
    }
}

/// What one `withdraw` call does for the given inputs.
pub open spec fn withdraw_outcome(
    s: CreatorEarningsView,
    l: Map<u64, i128>,
    auth: u64,
    creator: u64,
    amount: i128,
) -> (CreatorEarningsView, Map<u64, i128>, Result<(), EarningsError>) {
    if amount <= 0 {
        (s, l, Err(EarningsError::InvalidAmount))
    } else if auth != creator {
        (s, l, Err(EarningsError::NotAuthorized))
    } else if bal(s.balances, creator) < amount {
        (s, l, Err(EarningsError::InsufficientBalance))
    } else if !s.initialized {
        (s, l, Err(EarningsError::NotInitialized))
    } else if !xfer_ok(l, s.contract_address, creator, amount) {
        (s, l, Err(earnings_err(xfer_err(l, s.contract_address, creator, amount))))
    } else {
        (
            CreatorEarningsView {
                balances: s.balances.insert(
                    creator,
                    (bal(s.balances, creator) - amount) as i128,
                ),
                events: s.events.push(
                    EarningsEvent::Withdraw { creator, amount, token: s.token },
                ),
                ..s
            },
            xfer(l, s.contract_address, creator, amount),
            Ok(()),
        )
    }
}

/// The earnings contract.
pub struct CreatorEarnings {
    contract_address: u64,
    initialized: bool,
    admin: u64,
    token: u64,
    balances: Table<i128>,
    authorized: Table<bool>,
    events: Vec<EarningsEvent>,
}

impl View for CreatorEarnings {
    type V = CreatorEarningsView;

    closed spec fn view(&self) -> CreatorEarningsView {
        CreatorEarningsView {
            contract_address: self.contract_address,
            initialized: self.initialized,
            admin: self.admin,
            token: self.token,
            balances: self.balances@,
            authorized: self.authorized@.dom(),
            events: self.events@,
        }
    }
}

impl CreatorEarnings {
    /// Sound storage and no negative recorded claim.
    pub closed spec fn wf(&self) -> bool {
        self.balances.wf() && self.authorized.wf() && nonneg(self@.balances)
    }

    /// A fresh instance living at `contract_address` on the token ledger.
    pub fn new(contract_address: u64) -> (c: Self)
        ensures
            c.wf(),
            c@ == (CreatorEarningsView {
                contract_address,
                initialized: false,
                admin: 0,
                token: 0,
                balances: Map::empty(),
                authorized: Set::empty(),
                events: Seq::empty(),
            }),
    {
        let c = CreatorEarnings {
            contract_address,
            initialized: false,
            admin: 0,
            token: 0,
            balances: Table::new(),
            authorized: Table::new(),
            events: Vec::new(),
        };
        proof {
            assert(c@.authorized =~= Set::<u64>::empty());
            assert(c@ =~= (CreatorEarningsView {
                contract_address,
                initialized: false,
                admin: 0,
                token: 0,
                balances: Map::empty(),
                authorized: Set::empty(),
                events: Seq::empty(),
            }));
        }
        c
    }

    /// Record the admin and the accepted token, once; the admin must have
    /// approved the call.
    pub fn initialize(&mut self, auth: u64, admin: u64, token_address: u64) -> (r: Result<
        (),
        EarningsError,
    >)
        requires
            old(self).wf(),
        ensures
            final(self).wf(),
            old(self)@.initialized ==> r == Err::<(), EarningsError>(
                EarningsError::AlreadyInitialized,
            ) && final(self)@ == old(self)@,
            !old(self)@.initialized && auth != admin ==> r == Err::<(), EarningsError>(
                EarningsError::NotAuthorized,
            ) && final(self)@ == old(self)@,
            !old(self)@.initialized && auth == admin ==> r == Ok::<(), EarningsError>(()) && final(self)@ == (CreatorEarningsView { initialized: true, admin, token: token_address, ..old(self)@ }),
    {
        if self.initialized {
            return Err(EarningsError::AlreadyInitialized);
        }
        if auth != admin {
            return Err(EarningsError::NotAuthorized);
        }
        self.initialized = true;
        self.admin = admin;
        self.token = token_address;
        Ok(())
    }

    /// Authorize `contract` as a depositor; only the admin may.
    pub fn add_authorized(&mut self, auth: u64, contract: u64) -> (r: Result<(), EarningsError>)
        requires
            old(self).wf(),
        ensures
            final(self).wf(),
            !old(self)@.initialized ==> r == Err::<(), EarningsError>(EarningsError::NotInitialized)
                && final(self)@ == old(self)@,
            old(self)@.initialized && auth != old(self)@.admin ==> r == Err::<(), EarningsError>(
                EarningsError::NotAuthorized,
            ) && final(self)@ == old(self)@,
            old(self)@.initialized && auth == old(self)@.admin ==> r == Ok::<(), EarningsError>(())
                && final(self)@ == (CreatorEarningsView {
                authorized: old(self)@.authorized.insert(contract),
                ..old(self)@
            }),
    {
        if !self.initialized {
            return Err(EarningsError::NotInitialized);
        }
        if auth != self.admin {
            return Err(EarningsError::NotAuthorized);
        }
        self.authorized.insert(contract, true);
        proof {
            assert(self@.authorized =~= old(self)@.authorized.insert(contract));
            assert(self@ =~= (CreatorEarningsView {
                authorized: old(self)@.authorized.insert(contract),
                ..old(self)@
            }));
        }
        Ok(())
    }

    /// Deposit `amount` for `creator`: the tokens move from `from` into the
    /// contract's account and the creator's claim grows by the amount. Only
    /// the admin or an authorized depositor may, and `from` must have
    /// approved the call.
    pub fn deposit(
        &mut self,
        ledger: &mut TokenLedger,
        auth: u64,
        from: u64,
        creator: u64,
        amount: i128,
    ) -> (r: Result<(), EarningsError>)
        requires
            old(self).wf(),
            old(ledger).wf(),
        ensures
            final(self).wf(),
            final(ledger).wf(),
            (final(self)@, final(ledger)@, r) == deposit_outcome(
                old(self)@,
                old(ledger)@,
                auth,
                from,
                creator,
                amount,
            ),
    {
        if amount <= 0 {
            return Err(EarningsError::InvalidAmount);
        }
        if auth != from {
            return Err(EarningsError::NotAuthorized);
        }
        if !self.initialized {
            return Err(EarningsError::NotInitialized);
        }
        if !(from == self.admin || self.authorized.contains_key(from)) {
            return Err(EarningsError::NotAuthorized);
        }
        let current = match self.balances.get(creator) {
            Some(v) => *v,
            None => 0,
        };
        if current > i128::MAX - amount {
            return Err(EarningsError::Overflow);
        }
        match ledger.transfer(from, self.contract_address, amount) {
            Ok(()) => {},
            Err(e) => {
                return Err(match e {
                    Error::InvalidAmount => EarningsError::InvalidAmount,
                    Error::InsufficientBalance => EarningsError::InsufficientBalance,
                    _ => EarningsError::Overflow,
                });
            },
        }
        self.balances.insert(creator, current + amount);
        Ok(())
    }

    /// The creator's recorded claim; zero if nothing was ever deposited.
    pub fn balance(&self, creator: u64) -> (r: i128)
        requires
            self.wf(),
        ensures
            r as int == bal(self@.balances, creator),
            r >= 0,
    {
        match self.balances.get(creator) {
            Some(v) => *v,
            None => 0,
        }
    }

    /// Withdraw `amount` of the creator's claim: the tokens move from the
    /// contract's account to the creator. The creator must have approved the
    /// call and the claim must cover the amount.
    pub fn withdraw(
        &mut self,
        ledger: &mut TokenLedger,
        auth: u64,
        creator: u64,
        amount: i128,
    ) -> (r: Result<(), EarningsError>)
        requires
            old(self).wf(),
            old(ledger).wf(),
        ensures
            final(self).wf(),
            final(ledger).wf(),
            (final(self)@, final(ledger)@, r) == withdraw_outcome(
                old(self)@,
                old(ledger)@,
                auth,
                creator,
                amount,
            ),
    {
        if amount <= 0 {
            return Err(EarningsError::InvalidAmount);
        }
        if auth != creator {
            return Err(EarningsError::NotAuthorized);
        }
        let current = match self.balances.get(creator) {
            Some(v) => *v,
            None => 0,
        };
        if current < amount {
            return Err(EarningsError::InsufficientBalance);
        }
        if !self.initialized {
            return Err(EarningsError::NotInitialized);
        }
        match ledger.transfer(self.contract_address, creator, amount) {
            Ok(()) => {},
            Err(e) => {
                return Err(match e {
                    Error::InvalidAmount => EarningsError::InvalidAmount,
                    Error::InsufficientBalance => EarningsError::InsufficientBalance,
                    _ => EarningsError::Overflow,
                });
            },
        }
        self.balances.insert(creator, current - amount);
        self.events.push(EarningsEvent::Withdraw { creator, amount, token: self.token });
        Ok(())
    }

    /// The events the contract has emitted, oldest first.
    pub fn events(&self) -> (r: &Vec<EarningsEvent>)
        ensures
            r@ == self@.events,
    {
        &self.events
    }
}

/// Asking for more than the recorded claim fails and changes nothing.
pub proof fn lemma_earnings_withdraw_insufficient(
    s: CreatorEarningsView,
    l: Map<u64, i128>,
    auth: u64,
    creator: u64,
    amount: i128,
)
    requires
        amount > bal(s.balances, creator),
        nonneg(s.balances),
    ensures
        ({
            let (s1, l1, r1) = withdraw_outcome(s, l, auth, creator, amount);
            r1 is Err && s1 == s && l1 == l
        }),
        auth == creator && amount > 0 ==> withdraw_outcome(s, l, auth, creator, amount).2 == Err::<
            (),
            EarningsError,
        >(EarningsError::InsufficientBalance),
{
    assert(bal(s.balances, creator) >= 0) by {
        if s.balances.contains_key(creator) {
            assert(s.balances[creator] >= 0);
        }
    }
}

} // verus!
