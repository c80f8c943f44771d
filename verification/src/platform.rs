//! The platform contract: creator registry, subscription plans, fee-split
//! payments and a pause switch.
//!
//! A creator publishes a plan (price, token, interval). A fan subscribes by
//! paying the plan's price, split between the creator and the fee recipient
//! at the configured basis-point rate; the subscription is recorded with an
//! expiry timestamp. Whether a subscription is active is derived by
//! comparing the stored expiry with the current time — lapsing never deletes
//! the record. While the contract is paused, every mutating subscription
//! operation is refused.

pub mod treasury;

use vstd::prelude::*;

use crate::errors::Error;
use crate::fees::{fee_of, lemma_fee_bounds, lemma_fee_mul_fits, net_of, MAX_FEE_BASE};
use crate::store::{PairTable, Table};
use crate::token::{xfer, xfer_err, xfer_ok, TokenLedger};

verus! {

/// One subscription plan a creator offers.
#[derive(Clone, Copy, Debug, PartialEq, Eq, Structural)]
pub struct Plan {
    pub creator: u64,
    pub asset: u64,
    pub amount: i128,
    pub interval_days: u32,
}

/// One fan's subscription to one creator.
#[derive(Clone, Copy, Debug, PartialEq, Eq, Structural)]
pub struct Subscription {
    pub fan: u64,
    pub plan_id: u32,
    pub expiry: u64,
}

/// Registry entry for a creator.
#[derive(Clone, Copy, Debug, PartialEq, Eq, Structural)]
pub struct CreatorInfo {
    pub creator_id: u32,
    pub is_verified: bool,
}

/// A notification a successful mutating operation leaves behind.
#[derive(Clone, Copy, Debug, PartialEq, Eq, Structural)]
pub enum PlatformEvent {
    CreatorRegistered { creator_id: u32, creator: u64 },
    VerificationUpdated { creator_id: u32, creator: u64 },
    PlanCreated { plan_id: u32, creator: u64 },
    Subscribed { plan_id: u32, fan: u64 },
    SubscriptionExtended { fan: u64, creator: u64, new_expiry: u64 },
    Cancelled { fan: u64 },
    Paused { admin: u64 },
    Unpaused { admin: u64 },
}

/// The abstract state of the platform contract.
#[verifier::ext_equal]
pub struct MyfansView {
    pub initialized: bool,
    pub admin: u64,
    pub fee_bps: u32,
    pub fee_recipient: u64,
    pub plan_count: u32,
    pub plans: Map<u64, Plan>,
    pub subs: Map<(u64, u64), Subscription>,
    pub creator_count: u32,
    pub creators: Map<u64, CreatorInfo>,
    pub paused: bool,
    pub events: Seq<PlatformEvent>,
}

/// What always holds of a reachable contract state.
pub open spec fn platform_view_wf(s: MyfansView) -> bool {
    s.fee_bps < 10000
}

/// Whether `fan` has an unlapsed subscription to `creator` at time `now`:
/// activity is derived from the stored expiry, never stored itself.
pub open spec fn subscribed(s: MyfansView, fan: u64, creator: u64, now: u64) -> bool {
    s.subs.contains_key((fan, creator)) && s.subs[(fan, creator)].expiry > now
}

/// The stored expiry of `fan`'s subscription to `creator`, if a record
/// exists — lapsed or not.
pub open spec fn expiry_of(s: MyfansView, fan: u64, creator: u64) -> Option<u64> {
    if s.subs.contains_key((fan, creator)) {
        Some(s.subs[(fan, creator)].expiry)
    } else {
        None
    }
}

/// What one `subscribe` call does for the given inputs.
pub open spec fn subscribe_outcome(
    s: MyfansView,
    l: Map<u64, i128>,
    auth: u64,
    fan: u64,
    plan_id: u32,
    now: u64,
) -> (MyfansView, Map<u64, i128>, Result<(), Error>) {
    if auth != fan {
        (s, l, Err(Error::Unauthorized))
    } else if s.paused {
        (s, l, Err(Error::Paused))
    } else if !s.plans.contains_key(plan_id as u64) {
        (s, l, Err(Error::NotFound))
    } else if !s.initialized {
        (s, l, Err(Error::NotInitialized))
    } else {
        let plan = s.plans[plan_id as u64];
        if plan.amount < 0 {
            (s, l, Err(Error::InvalidAmount))
        } else if plan.amount > MAX_FEE_BASE {
            (s, l, Err(Error::Overflow))
        } else if now + plan.interval_days * 86400 > u64::MAX {
            (s, l, Err(Error::Overflow))
        } else {
            let fee = fee_of(plan.amount, s.fee_bps);
            let net = net_of(plan.amount, s.fee_bps);
            let expiry = (now + plan.interval_days * 86400) as u64;
            let committed = MyfansView {
                subs: s.subs.insert(
                    (fan, plan.creator),
                    Subscription { fan, plan_id, expiry },
                ),
                events: s.events.push(PlatformEvent::Subscribed { plan_id, fan }),
                ..s
            };
            if fee > 0 {
                let mid = xfer(l, fan, plan.creator, net as i128);
                if !xfer_ok(l, fan, plan.creator, net as i128) {
                    (s, l, Err(xfer_err(l, fan, plan.creator, net as i128)))
                } else if !xfer_ok(mid, fan, s.fee_recipient, fee as i128) {
                    (s, l, Err(xfer_err(mid, fan, s.fee_recipient, fee as i128)))
                } else {
                    (committed, xfer(mid, fan, s.fee_recipient, fee as i128), Ok(()))
                }
            } else {
                if !xfer_ok(l, fan, plan.creator, net as i128) {
                    (s, l, Err(xfer_err(l, fan, plan.creator, net as i128)))
                } else {
                    (committed, xfer(l, fan, plan.creator, net as i128), Ok(()))
                }
            }
        }
    }
}

/// What one `extend_subscription` call does for the given inputs.
pub open spec fn extend_outcome(
    s: MyfansView,
    auth: u64,
    fan: u64,
    creator: u64,
    extra: u64,
    payment: u64,
    now: u64,
) -> (MyfansView, Result<u64, Error>) {
    if auth != fan {
        (s, Err(Error::Unauthorized))
    } else if !s.subs.contains_key((fan, creator)) {
        (s, Err(Error::NotActive))
    } else if now > s.subs[(fan, creator)].expiry {
        (s, Err(Error::NotActive))
    } else if payment == 0 {
        (s, Err(Error::InvalidAmount))
    } else if s.subs[(fan, creator)].expiry + extra > u64::MAX {
        (s, Err(Error::Overflow))
    } else {
        let sub = s.subs[(fan, creator)];
        let new_expiry = (sub.expiry + extra) as u64;
        (
            MyfansView {
                subs: s.subs.insert(
                    (fan, creator),
                    Subscription { expiry: new_expiry, ..sub },
                ),
                events: s.events.push(
                    PlatformEvent::SubscriptionExtended { fan, creator, new_expiry },
                ),
                ..s
            },
            Ok(new_expiry),
        )
    }
}

/// The platform contract.
pub struct MyfansContract {
    initialized: bool,
    admin: u64,
    fee_bps: u32,
    fee_recipient: u64,
    plan_count: u32,
    plans: Table<Plan>,
    subs: PairTable<Subscription>,
    creator_count: u32,
    creators: Table<CreatorInfo>,
    paused: bool,
    events: Vec<PlatformEvent>,
}

impl View for MyfansContract {
    type V = MyfansView;

    closed spec fn view(&self) -> MyfansView {
        MyfansView {
            initialized: self.initialized,
            admin: self.admin,
            fee_bps: self.fee_bps,
            fee_recipient: self.fee_recipient,
            plan_count: self.plan_count,
            plans: self.plans@,
            subs: self.subs@,
            creator_count: self.creator_count,
            creators: self.creators@,
            paused: self.paused,
            events: self.events@,
        }
    }
}

impl MyfansContract {
    /// Sound storage and a valid fee rate.
    pub closed spec fn wf(&self) -> bool {
        self.plans.wf() && self.subs.wf() && self.creators.wf() && platform_view_wf(self@)
    }

    /// A fresh, uninitialized contract.
    pub fn new() -> (c: Self)
        ensures
            c.wf(),
            c@ == (MyfansView {
                initialized: false,
                admin: 0,
                fee_bps: 0,
                fee_recipient: 0,
                plan_count: 0,
                plans: Map::empty(),
                subs: Map::empty(),
                creator_count: 0,
                creators: Map::empty(),
                paused: false,
                events: Seq::empty(),
            }),
    {
        let c = MyfansContract {
            initialized: false,
            admin: 0,
            fee_bps: 0,
            fee_recipient: 0,
            plan_count: 0,
            plans: Table::new(),
            subs: PairTable::new(),
            creator_count: 0,
            creators: Table::new(),
            paused: false,
            events: Vec::new(),
        };
        proof {
            assert(c@.events =~= Seq::<PlatformEvent>::empty());
            assert(c@ =~= (MyfansView {
                initialized: false,
                admin: 0,
                fee_bps: 0,
                fee_recipient: 0,
                plan_count: 0,
                plans: Map::empty(),
                subs: Map::empty(),
                creator_count: 0,
                creators: Map::empty(),
                paused: false,
                events: Seq::empty(),
            }));
        }
        c
    }

    /// Record admin, fee rate and fee recipient, once; the rate must stay
    /// below 10000 basis points.
    pub fn init(&mut self, admin: u64, fee_bps: u32, fee_recipient: u64) -> (r: Result<(), Error>)
        requires
            old(self).wf(),
        ensures
            final(self).wf(),
            old(self)@.initialized ==> r == Err::<(), Error>(Error::AlreadyInitialized)
                && final(self)@ == old(self)@,
            !old(self)@.initialized && fee_bps >= 10000 ==> r == Err::<(), Error>(Error::InvalidFee)
                && final(self)@ == old(self)@,
            !old(self)@.initialized && fee_bps < 10000 ==> r == Ok::<(), Error>(()) && final(self)@
                == (MyfansView {
                initialized: true,
                admin,
                fee_bps,
                fee_recipient,
                plan_count: 0,
                creator_count: 0,
                ..old(self)@
            }),
    {
        if self.initialized {
            return Err(Error::AlreadyInitialized);
        }
        if fee_bps >= 10000 {
            return Err(Error::InvalidFee);
        }
        self.initialized = true;
        self.admin = admin;
        self.fee_bps = fee_bps;
        self.fee_recipient = fee_recipient;
        self.plan_count = 0;
        self.creator_count = 0;
        Ok(())
    }

    /// Register `creator` in the registry and hand back its fresh
    /// identifier. The creator must have approved the call and must not be
    /// registered yet.
    pub fn register_creator(&mut self, auth: u64, creator: u64) -> (r: Result<u32, Error>)
        requires
            old(self).wf(),
        ensures
            final(self).wf(),
            auth != creator ==> r == Err::<u32, Error>(Error::Unauthorized) && final(self)@ == old(self)@,
            auth == creator && old(self)@.creators.contains_key(creator) ==> r == Err::<u32, Error>(
                Error::AlreadyRegistered,
            ) && final(self)@ == old(self)@,
            auth == creator && !old(self)@.creators.contains_key(creator) && old(self)@.creator_count == u32::MAX ==> r == Err::<u32, Error>(Error::Overflow) && final(self)@ == old(self)@,
            auth == creator && !old(self)@.creators.contains_key(creator) && old(self)@.creator_count < u32::MAX ==> ({
                let id = (old(self)@.creator_count + 1) as u32;
                r == Ok::<u32, Error>(id) && final(self)@ == (MyfansView {
                    creator_count: id,
                    creators: old(self)@.creators.insert(
                        creator,
                        CreatorInfo { creator_id: id, is_verified: false },
                    ),
                    events: old(self)@.events.push(
                        PlatformEvent::CreatorRegistered { creator_id: id, creator },
                    ),
                    ..old(self)@
                })
            }),
    {
        if auth != creator {
            return Err(Error::Unauthorized);
        }
        if self.creators.contains_key(creator) {
            return Err(Error::AlreadyRegistered);
        }
        if self.creator_count == u32::MAX {
            return Err(Error::Overflow);
        }
        let creator_id = self.creator_count + 1;
        self.creators.insert(creator, CreatorInfo { creator_id, is_verified: false });
        self.creator_count = creator_id;
        self.events.push(PlatformEvent::CreatorRegistered { creator_id, creator });
        Ok(creator_id)
    }

    /// Set a registered creator's verification flag; only the admin may.
    pub fn set_verified(&mut self, auth: u64, creator_address: u64, verified: bool) -> (r: Result<
        (),
        Error,
    >)
        requires
            old(self).wf(),
        ensures
            final(self).wf(),
            !old(self)@.initialized ==> r == Err::<(), Error>(Error::NotInitialized)
                && final(self)@ == old(self)@,
            old(self)@.initialized && auth != old(self)@.admin ==> r == Err::<(), Error>(
                Error::Unauthorized,
            ) && final(self)@ == old(self)@,
            old(self)@.initialized && auth == old(self)@.admin && !old(self)@.creators.contains_key(
                creator_address,
            ) ==> r == Err::<(), Error>(Error::NotFound) && final(self)@ == old(self)@,
            old(self)@.initialized && auth == old(self)@.admin && old(self)@.creators.contains_key(
                creator_address,
            ) ==> ({
                let info = old(self)@.creators[creator_address];
                r == Ok::<(), Error>(()) && final(self)@ == (MyfansView {
                    creators: old(self)@.creators.insert(
                        creator_address,
                        CreatorInfo { is_verified: verified, ..info },
                    ),
                    events: old(self)@.events.push(
                        PlatformEvent::VerificationUpdated {
                            creator_id: info.creator_id,
                            creator: creator_address,
                        },
                    ),
                    ..old(self)@
                })
            }),
    {
        if !self.initialized {
            return Err(Error::NotInitialized);
        }
        if auth != self.admin {
            return Err(Error::Unauthorized);
        }
        let info = match self.creators.get(creator_address) {
            Some(i) => *i,
            None => {
                return Err(Error::NotFound);
            },
        };
        let updated = CreatorInfo { is_verified: verified, ..info };
        self.creators.insert(creator_address, updated);
        self.events.push(
            PlatformEvent::VerificationUpdated {
                creator_id: info.creator_id,
                creator: creator_address,
            },
        );
        Ok(())
    }

    /// The registry entry of `address`, if it is registered.
    pub fn get_creator(&self, address: u64) -> (r: Option<CreatorInfo>)
        requires
            self.wf(),
        ensures
            r == if self@.creators.contains_key(address) {
                Some(self@.creators[address])
            } else {
                None::<CreatorInfo>
            },
    {
        match self.creators.get(address) {
            Some(i) => Some(*i),
            None => None,
        }
    }

    /// Publish a plan and hand back its fresh identifier. The creator must
    /// have approved the call; refused while paused.
    pub fn create_plan(
        &mut self,
        auth: u64,
        creator: u64,
        asset: u64,
        amount: i128,
        interval_days: u32,
    ) -> (r: Result<u32, Error>)
        requires
            old(self).wf(),
        ensures
            final(self).wf(),
            auth != creator ==> r == Err::<u32, Error>(Error::Unauthorized) && final(self)@ == old(self)@,
            auth == creator && old(self)@.paused ==> r == Err::<u32, Error>(Error::Paused)
                && final(self)@ == old(self)@,
            auth == creator && !old(self)@.paused && old(self)@.plan_count == u32::MAX ==> r
                == Err::<u32, Error>(Error::Overflow) && final(self)@ == old(self)@,
            auth == creator && !old(self)@.paused && old(self)@.plan_count < u32::MAX ==> ({
                let id = (old(self)@.plan_count + 1) as u32;
                r == Ok::<u32, Error>(id) && final(self)@ == (MyfansView {
                    plan_count: id,
                    plans: old(self)@.plans.insert(
                        id as u64,
                        Plan { creator, asset, amount, interval_days },
                    ),
                    events: old(self)@.events.push(
                        PlatformEvent::PlanCreated { plan_id: id, creator },
                    ),
                    ..old(self)@
                })
            }),
    {
        if auth != creator {
            return Err(Error::Unauthorized);
        }
        if self.paused {
            return Err(Error::Paused);
        }
        if self.plan_count == u32::MAX {
            return Err(Error::Overflow);
        }
        let plan_id = self.plan_count + 1;
        self.plans.insert(plan_id as u64, Plan { creator, asset, amount, interval_days });
        self.plan_count = plan_id;
        self.events.push(PlatformEvent::PlanCreated { plan_id, creator });
        Ok(plan_id)
    }

    /// Subscribe `fan` to the plan: the plan's price leaves the fan, split
    /// between the plan's creator and the fee recipient, and the
    /// subscription is recorded with expiry `now + interval`. The fan must
    /// have approved the call; refused while paused. Both payments happen or
    /// neither does, and the record is written only after they do.
    pub fn subscribe(
        &mut self,
        ledger: &mut TokenLedger,
        auth: u64,
        fan: u64,
        plan_id: u32,
        now: u64,
    ) -> (r: Result<(), Error>)
        requires
            old(self).wf(),
            old(ledger).wf(),
        ensures
            final(self).wf(),
            final(ledger).wf(),
            (final(self)@, final(ledger)@, r) == subscribe_outcome(
                old(self)@,
                old(ledger)@,
                auth,
                fan,
                plan_id,
                now,
            ),
    {
        if auth != fan {
            return Err(Error::Unauthorized);
        }
        if self.paused {
            return Err(Error::Paused);
        }
        let plan = match self.plans.get(plan_id as u64) {
            Some(p) => *p,
            None => {
                return Err(Error::NotFound);
            },
        };
        if !self.initialized {
            return Err(Error::NotInitialized);
        }
        if plan.amount < 0 {
            return Err(Error::InvalidAmount);
        }
        if plan.amount > MAX_FEE_BASE {
            return Err(Error::Overflow);
        }
        let duration = (plan.interval_days as u64) * 86400;
        if now > u64::MAX - duration {
            return Err(Error::Overflow);
        }
        proof {
            lemma_fee_mul_fits(plan.amount, self.fee_bps);
            lemma_fee_bounds(plan.amount, self.fee_bps);
        }
        let fee = plan.amount * (self.fee_bps as i128) / 10000;
        let net = plan.amount - fee;
        if fee > 0 {
            match ledger.transfer_pair(fan, plan.creator, net, self.fee_recipient, fee) {
                Ok(()) => {},
                Err(e) => {
                    return Err(e);
                },
            }
        } else {
            match ledger.transfer(fan, plan.creator, net) {
                Ok(()) => {},
                Err(e) => {
                    return Err(e);
                },
            }
        }
        let expiry = now + duration;
        self.subs.insert(fan, plan.creator, Subscription { fan, plan_id, expiry });
        self.events.push(PlatformEvent::Subscribed { plan_id, fan });
        Ok(())
    }

    /// Whether `fan`'s subscription to `creator` is active at time `now`.
    pub fn is_subscriber(&self, fan: u64, creator: u64, now: u64) -> (r: bool)
        requires
            self.wf(),
        ensures
            r == subscribed(self@, fan, creator, now),
    {
        match self.subs.get(fan, creator) {
            Some(sub) => sub.expiry > now,
            None => false,
        }
    }

    /// Whether `fan`'s subscription to `creator` is active at time `now`.
    pub fn is_subscribed(&self, fan: u64, creator: u64, now: u64) -> (r: bool)
        requires
            self.wf(),
        ensures
            r == subscribed(self@, fan, creator, now),
    {
        self.is_subscriber(fan, creator, now)
    }

    /// The stored expiry of `fan`'s subscription to `creator`, if a record
    /// exists — whether or not it has lapsed.
    pub fn get_subscription_expiry(&self, fan: u64, creator: u64) -> (r: Option<u64>)
        requires
            self.wf(),
        ensures
            r == expiry_of(self@, fan, creator),
    {
        match self.subs.get(fan, creator) {
            Some(sub) => Some(sub.expiry),
            None => None,
        }
    }

    /// Delete `fan`'s subscription to `creator`. Only the fan may; refused
    /// while paused; an error if no record exists.
    pub fn cancel(&mut self, auth: u64, fan: u64, creator: u64) -> (r: Result<(), Error>)
        requires
            old(self).wf(),
        ensures
            final(self).wf(),
            auth != fan ==> r == Err::<(), Error>(Error::Unauthorized) && final(self)@ == old(self)@,
            auth == fan && old(self)@.paused ==> r == Err::<(), Error>(Error::Paused) && final(self)@ == old(self)@,
            auth == fan && !old(self)@.paused && !old(self)@.subs.contains_key((fan, creator)) ==> r
                == Err::<(), Error>(Error::NotFound) && final(self)@ == old(self)@,
            auth == fan && !old(self)@.paused && old(self)@.subs.contains_key((fan, creator)) ==> r
                == Ok::<(), Error>(()) && final(self)@ == (MyfansView {
                subs: old(self)@.subs.remove((fan, creator)),
                events: old(self)@.events.push(PlatformEvent::Cancelled { fan }),
                ..old(self)@
            }),
    {
        if auth != fan {
            return Err(Error::Unauthorized);
        }
        if self.paused {
            return Err(Error::Paused);
        }
        if !self.subs.contains_key(fan, creator) {
            return Err(Error::NotFound);
        }
        self.subs.remove(fan, creator);
        self.events.push(PlatformEvent::Cancelled { fan });
        Ok(())
    }

    /// Push a subscription's expiry out by `extra`. Only the fan may, only
    /// while the subscription has not lapsed, and only against a nonzero
    /// payment.
    pub fn extend_subscription(
        &mut self,
        auth: u64,
        fan: u64,
        creator: u64,
        extra: u64,
        payment: u64,
        now: u64,
    ) -> (r: Result<u64, Error>)
        requires
            old(self).wf(),
        ensures
            final(self).wf(),
            (final(self)@, r) == extend_outcome(old(self)@, auth, fan, creator, extra, payment, now),
    {
        if auth != fan {
            return Err(Error::Unauthorized);
        }
        let sub = match self.subs.get(fan, creator) {
            Some(s) => *s,
            None => {
                return Err(Error::NotActive);
            },
        };
        if now > sub.expiry {
            return Err(Error::NotActive);
        }
        if payment == 0 {
            return Err(Error::InvalidAmount);
        }
        if sub.expiry > u64::MAX - extra {
            return Err(Error::Overflow);
        }
        let new_expiry = sub.expiry + extra;
        self.subs.insert(fan, creator, Subscription { expiry: new_expiry, ..sub });
        self.events.push(PlatformEvent::SubscriptionExtended { fan, creator, new_expiry });
        Ok(new_expiry)
    }

    /// Stop all mutating subscription operations; only the admin may.
    pub fn pause(&mut self, auth: u64) -> (r: Result<(), Error>)
        requires
            old(self).wf(),
        ensures
            final(self).wf(),
            !old(self)@.initialized ==> r == Err::<(), Error>(Error::NotInitialized)
                && final(self)@ == old(self)@,
            old(self)@.initialized && auth != old(self)@.admin ==> r == Err::<(), Error>(
                Error::Unauthorized,
            ) && final(self)@ == old(self)@,
            old(self)@.initialized && auth == old(self)@.admin ==> r == Ok::<(), Error>(())
                && final(self)@ == (MyfansView {
                paused: true,
                events: old(self)@.events.push(
                    PlatformEvent::Paused { admin: old(self)@.admin },
                ),
                ..old(self)@
            }),
    {
        if !self.initialized {
            return Err(Error::NotInitialized);
        }
        if auth != self.admin {
            return Err(Error::Unauthorized);
        }
        self.paused = true;
        self.events.push(PlatformEvent::Paused { admin: self.admin });
        Ok(())
    }

    /// Let mutating subscription operations resume; only the admin may.
    pub fn unpause(&mut self, auth: u64) -> (r: Result<(), Error>)
        requires
            old(self).wf(),
        ensures
            final(self).wf(),
            !old(self)@.initialized ==> r == Err::<(), Error>(Error::NotInitialized)
                && final(self)@ == old(self)@,
            old(self)@.initialized && auth != old(self)@.admin ==> r == Err::<(), Error>(
                Error::Unauthorized,
            ) && final(self)@ == old(self)@,
            old(self)@.initialized && auth == old(self)@.admin ==> r == Ok::<(), Error>(())
                && final(self)@ == (MyfansView {
                paused: false,
                events: old(self)@.events.push(
                    PlatformEvent::Unpaused { admin: old(self)@.admin },
                ),
                ..old(self)@
            }),
    {
        if !self.initialized {
            return Err(Error::NotInitialized);
        }
        if auth != self.admin {
            return Err(Error::Unauthorized);
        }
        self.paused = false;
        self.events.push(PlatformEvent::Unpaused { admin: self.admin });
        Ok(())
    }

    /// Whether the contract is paused.
    pub fn is_paused(&self) -> (r: bool)
        ensures
            r == self@.paused,
    {
        self.paused
    }

    /// The events the contract has emitted, oldest first.
    pub fn events(&self) -> (r: &Vec<PlatformEvent>)
        ensures
            r@ == self@.events,
    {
        &self.events
    }
}

/// Lapsing is derived, not destructive: after a successful subscription the
/// stored expiry is some `E`; at any time before `E` the subscription reads
/// as active and at any time from `E` on it reads as inactive, while
/// `get_subscription_expiry` still answers `Some(E)` either way.
pub proof fn lemma_lapse_is_derived(
    s: MyfansView,
    l: Map<u64, i128>,
    auth: u64,
    fan: u64,
    plan_id: u32,
    now: u64,
    later: u64,
)
    ensures
        ({
            let (s1, l1, r1) = subscribe_outcome(s, l, auth, fan, plan_id, now);
            r1 is Ok && s.plans.contains_key(plan_id as u64) ==> ({
                let creator = s.plans[plan_id as u64].creator;
                let e = s1.subs[(fan, creator)].expiry;
                &&& s1.subs.contains_key((fan, creator))
                &&& expiry_of(s1, fan, creator) == Some(e)
                &&& (later >= e ==> !subscribed(s1, fan, creator, later))
                &&& (later < e ==> subscribed(s1, fan, creator, later))
            })
        }),
{
}

} // verus!
