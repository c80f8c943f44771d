//! An admin-kept record of creator earnings.
//!
//! The admin records amounts against creators; anyone can read the running
//! totals. No tokens move here — the record is pure bookkeeping.

use vstd::prelude::*;

use crate::errors::Error;
use crate::store::Table;
use crate::token::bal;

verus! {

/// The abstract state of the earnings record.
#[verifier::ext_equal]
pub struct EarningsView {
    pub initialized: bool,
    pub admin: u64,
    pub earnings: Map<u64, i128>,
}

/// What one `record` call does for the given inputs.
pub open spec fn record_outcome(s: EarningsView, auth: u64, creator: u64, amount: i128) -> (
    EarningsView,
    Result<(), Error>,
) {
    if !s.initialized {
        (s, Err(Error::NotInitialized))
    } else if auth != s.admin {
        (s, Err(Error::Unauthorized))
    } else if bal(s.earnings, creator) + amount > i128::MAX || bal(s.earnings, creator) + amount
        < i128::MIN {
        (s, Err(Error::Overflow))
    } else {
        (
            EarningsView {
                earnings: s.earnings.insert(creator, (bal(s.earnings, creator) + amount) as i128),
                ..s
            },
            Ok(()),
        )
    }
}

/// The earnings record.
pub struct Earnings {
    initialized: bool,
    admin: u64,
    earnings: Table<i128>,
}

impl View for Earnings {
    type V = EarningsView;

    closed spec fn view(&self) -> EarningsView {
        EarningsView {
            initialized: self.initialized,
            admin: self.admin,
            earnings: self.earnings@,
        }
    }
}

impl Earnings {
    /// Sound storage.
    pub closed spec fn wf(&self) -> bool {
        self.earnings.wf()
    }

    /// A fresh, uninitialized record.
    pub fn new() -> (c: Self)
        ensures
            c.wf(),
            c@ == (EarningsView { initialized: false, admin: 0, earnings: Map::empty() }),
    {
        let c = Earnings { initialized: false, admin: 0, earnings: Table::new() };
        proof {
            assert(c@ =~= (EarningsView { initialized: false, admin: 0, earnings: Map::empty() }));
        }
        c
    }

    /// Record the admin, once; the admin must have approved the call.
    pub fn init(&mut self, auth: u64, admin: u64) -> (r: Result<(), Error>)
        requires
            old(self).wf(),
        ensures
            final(self).wf(),
            old(self)@.initialized ==> r == Err::<(), Error>(Error::AlreadyInitialized) && final(self)@ == old(self)@,
            !old(self)@.initialized && auth != admin ==> r == Err::<(), Error>(Error::Unauthorized)
                && final(self)@ == old(self)@,
            !old(self)@.initialized && auth == admin ==> r == Ok::<(), Error>(()) && final(self)@
                == (EarningsView { initialized: true, admin, ..old(self)@ }),
    {
        if self.initialized {
            return Err(Error::AlreadyInitialized);
        }
        if auth != admin {
            return Err(Error::Unauthorized);
        }
        self.initialized = true;
        self.admin = admin;
        Ok(())
    }

    /// The recorded admin; an error until the record is initialized.
    pub fn admin(&self) -> (r: Result<u64, Error>)
        ensures
            self@.initialized ==> r == Ok::<u64, Error>(self@.admin),
            !self@.initialized ==> r == Err::<u64, Error>(Error::NotInitialized),
    {
        if self.initialized {
            Ok(self.admin)
        } else {
            Err(Error::NotInitialized)
        }
    }

    /// Add `amount` to the creator's running total; only the admin may.
    pub fn record(&mut self, auth: u64, creator: u64, amount: i128) -> (r: Result<(), Error>)
        requires
            old(self).wf(),
        ensures
            final(self).wf(),
            (final(self)@, r) == record_outcome(old(self)@, auth, creator, amount),
    {
        if !self.initialized {
            return Err(Error::NotInitialized);
        }
        if auth != self.admin {
            return Err(Error::Unauthorized);
        }
        let current = match self.earnings.get(creator) {
            Some(v) => *v,
            None => 0,
        };
        if amount >= 0 {
            if current > i128::MAX - amount {
                return Err(Error::Overflow);
            }
        } else {
            if current < i128::MIN - amount {
                return Err(Error::Overflow);
            }
        }
        self.earnings.insert(creator, current + amount);
        Ok(())
    }

    /// The creator's running total; zero if nothing was ever recorded.
    pub fn get_earnings(&self, creator: u64) -> (r: i128)
        requires
            self.wf(),
        ensures
            r as int == bal(self@.earnings, creator),
    {
        match self.earnings.get(creator) {
            Some(v) => *v,
            None => 0,
        }
    }
}

} // verus!
