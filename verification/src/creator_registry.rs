//! A rate-limited registry of creator identifiers.
//!
//! The admin or the creator personally registers a creator under a chosen
//! identifier. A caller may register at most once per
//! [`RATE_LIMIT_LEDGERS`] ledgers, and an address registers only once, ever.

use vstd::prelude::*;

use crate::errors::Error;
use crate::store::Table;

verus! {

/// Minimum number of ledgers between registrations per caller.
pub const RATE_LIMIT_LEDGERS: u32 = 10;

/// The abstract state of the registry.
#[verifier::ext_equal]
pub struct CreatorRegistryView {
    pub initialized: bool,
    pub admin: u64,
    pub creators: Map<u64, u64>,
    pub last_registration: Map<u64, u32>,
}

/// Whether `caller` is still inside its rate-limit window at
/// `current_ledger`.
pub open spec fn rate_limited(s: CreatorRegistryView, caller: u64, current_ledger: u32) -> bool {
    s.last_registration.contains_key(caller) && (current_ledger as int) < vstd::math::min(
        s.last_registration[caller] + RATE_LIMIT_LEDGERS,
        u32::MAX as int,
    )
}

/// What one `register_creator` call does for the given inputs.
pub open spec fn register_outcome(
    s: CreatorRegistryView,
    auth: u64,
    caller: u64,
    creator_address: u64,
    creator_id: u64,
    current_ledger: u32,
) -> (CreatorRegistryView, Result<(), Error>) {
    if !s.initialized {
        (s, Err(Error::NotInitialized))
    } else if auth != caller {
        (s, Err(Error::Unauthorized))
    } else if caller != s.admin && caller != creator_address {
        (s, Err(Error::Unauthorized))
    } else if rate_limited(s, caller, current_ledger) {
        (s, Err(Error::RateLimited))
    } else if s.creators.contains_key(creator_address) {
        (s, Err(Error::AlreadyRegistered))
    } else {
        (
            CreatorRegistryView {
                creators: s.creators.insert(creator_address, creator_id),
                last_registration: s.last_registration.insert(caller, current_ledger),
                ..s
            },
            Ok(()),
        )
    }
}

/// The registry contract.
pub struct CreatorRegistryContract {
    initialized: bool,
    admin: u64,
    creators: Table<u64>,
    last_registration: Table<u32>,
}

impl View for CreatorRegistryContract {
    type V = CreatorRegistryView;

    closed spec fn view(&self) -> CreatorRegistryView {
        CreatorRegistryView {
            initialized: self.initialized,
            admin: self.admin,
            creators: self.creators@,
            last_registration: self.last_registration@,
        }
    }
}

impl CreatorRegistryContract {
    /// Sound storage.
    pub closed spec fn wf(&self) -> bool {
        self.creators.wf() && self.last_registration.wf()
    }

    /// A fresh, uninitialized registry.
    pub fn new() -> (c: Self)
        ensures
            c.wf(),
            c@ == (CreatorRegistryView {
                initialized: false,
                admin: 0,
                creators: Map::empty(),
                last_registration: Map::empty(),
            }),
    {
        let c = CreatorRegistryContract {
            initialized: false,
            admin: 0,
            creators: Table::new(),
            last_registration: Table::new(),
        };
        proof {
            assert(c@ =~= (CreatorRegistryView {
                initialized: false,
                admin: 0,
                creators: Map::empty(),
                last_registration: Map::empty(),
            }));
        }
        c
    }

    /// Record the admin, once.
    pub fn initialize(&mut self, admin: u64) -> (r: Result<(), Error>)
        requires
            old(self).wf(),
        ensures
            final(self).wf(),
            old(self)@.initialized ==> r == Err::<(), Error>(Error::AlreadyInitialized) && final(self)@ == old(self)@,
            !old(self)@.initialized ==> r == Ok::<(), Error>(()) && final(self)@ == (
            CreatorRegistryView { initialized: true, admin, ..old(self)@ }),
    {
        if self.initialized {
            return Err(Error::AlreadyInitialized);
        }
        self.initialized = true;
        self.admin = admin;
        Ok(())
    }

    /// Register `creator_address` under `creator_id` at ledger
    /// `current_ledger`. The caller must have approved the call and be
    /// either the admin or the creator personally; the caller must be
    /// outside its rate-limit window; the address must be unregistered.
    pub fn register_creator(
        &mut self,
        auth: u64,
        caller: u64,
        creator_address: u64,
        creator_id: u64,
        current_ledger: u32,
    ) -> (r: Result<(), Error>)
        requires
            old(self).wf(),
        ensures
            final(self).wf(),
            (final(self)@, r) == register_outcome(
                old(self)@,
                auth,
                caller,
                creator_address,
                creator_id,
                current_ledger,
            ),
    {
        if !self.initialized {
            return Err(Error::NotInitialized);
        }
        if auth != caller {
            return Err(Error::Unauthorized);
        }
        if caller != self.admin && caller != creator_address {
            return Err(Error::Unauthorized);
        }
        match self.last_registration.get(caller) {
            Some(last) => {
                let threshold = if *last > u32::MAX - RATE_LIMIT_LEDGERS {
                    u32::MAX
                } else {
                    *last + RATE_LIMIT_LEDGERS
                };
                if current_ledger < threshold {
                    return Err(Error::RateLimited);
                }
            },
            None => {},
        }
        if self.creators.contains_key(creator_address) {
            return Err(Error::AlreadyRegistered);
        }
        self.last_registration.insert(caller, current_ledger);
        self.creators.insert(creator_address, creator_id);
        Ok(())
    }

    /// The identifier `address` was registered under, if any.
    pub fn get_creator_id(&self, address: u64) -> (r: Option<u64>)
        requires
            self.wf(),
        ensures
            r == if self@.creators.contains_key(address) {
                Some(self@.creators[address])
            } else {
                None::<u64>
            },
    {
        match self.creators.get(address) {
            Some(v) => Some(*v),
            None => None,
        }
    }
}

} // verus!
