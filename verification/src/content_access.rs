//! Pay-per-content access grants.
//!
//! A buyer unlocks one piece of a creator's content by paying its price; the
//! grant is recorded under the (buyer, creator, content) triple. Grants are
//! monotonic — never revoked — and unlocking is idempotent: a second unlock of
//! the same triple changes nothing and pays nothing.

use vstd::prelude::*;

use crate::errors::Error;
use crate::store::TripleSet;
use crate::token::{xfer, xfer_err, xfer_ok, TokenLedger};

verus! {

/// A notification a successful mutating operation leaves behind.
#[derive(Clone, Copy, Debug, PartialEq, Eq, Structural)]
pub enum AccessEvent {
    ContentUnlocked { buyer: u64, creator: u64, content_id: u64, price: i128 },
}

/// The abstract state of the access contract.
#[verifier::ext_equal]
pub struct ContentAccessView {
    pub initialized: bool,
    pub admin: u64,
    pub token_address: u64,
    pub access: Set<(u64, u64, u64)>,
    pub events: Seq<AccessEvent>,
}

/// What one `unlock_content` call does: the state, ledger and result it
/// leaves for the given inputs.
pub open spec fn unlock_outcome(
    s: ContentAccessView,
    l: Map<u64, i128>,
    auth: u64,
    buyer: u64,
    creator: u64,
    content_id: u64,
    price: i128,
) -> (ContentAccessView, Map<u64, i128>, Result<(), Error>) {
    if auth != buyer {
        (s, l, Err(Error::Unauthorized))
    } else if s.access.contains((buyer, creator, content_id)) {
        (s, l, Ok(()))
    } else if !s.initialized {
        (s, l, Err(Error::NotInitialized))
    } else if xfer_ok(l, buyer, creator, price) {
        (
            ContentAccessView {
                access: s.access.insert((buyer, creator, content_id)),
                events: s.events.push(
                    AccessEvent::ContentUnlocked { buyer, creator, content_id, price },
                ),
                ..s
            },
            xfer(l, buyer, creator, price),
            Ok(()),
        )
    } else {
        (s, l, Err(xfer_err(l, buyer, creator, price)))
    }
}

/// The content-access contract: admin and payment token configuration plus
/// the set of recorded grants.
pub struct ContentAccess {
    initialized: bool,
    admin: u64,
    token_address: u64,
    access: TripleSet,
    events: Vec<AccessEvent>,
}

impl View for ContentAccess {
    type V = ContentAccessView;

    closed spec fn view(&self) -> ContentAccessView {
        ContentAccessView {
            initialized: self.initialized,
            admin: self.admin,
            token_address: self.token_address,
            access: self.access@,
            events: self.events@,
        }
    }
}

impl ContentAccess {
    /// A fresh, uninitialized contract instance: no grants, no configuration.
    pub fn new() -> (c: Self)
        ensures
            c@ == (ContentAccessView {
                initialized: false,
                admin: 0,
                token_address: 0,
                access: Set::empty(),
                events: Seq::empty(),
            }),
    {
        let c = ContentAccess {
            initialized: false,
            admin: 0,
            token_address: 0,
            access: TripleSet::new(),
            events: Vec::new(),
        };
        proof {
            assert(c@.access =~= Set::<(u64, u64, u64)>::empty());
            assert(c@.events =~= Seq::<AccessEvent>::empty());
            assert(c@ =~= (ContentAccessView {
                initialized: false,
                admin: 0,
                token_address: 0,
                access: Set::empty(),
                events: Seq::empty(),
            }));
        }
        c
    }

    /// Record the admin and the payment-token address, once.
    pub fn initialize(&mut self, admin: u64, token_address: u64) -> (r: Result<(), Error>)
        ensures
            old(self)@.initialized ==> r == Err::<(), Error>(Error::AlreadyInitialized)
                && final(self)@ == old(self)@,
            !old(self)@.initialized ==> r == Ok::<(), Error>(()) && final(self)@ == (
            ContentAccessView { initialized: true, admin, token_address, ..old(self)@ }),
    {
        if self.initialized {
            return Err(Error::AlreadyInitialized);
        }
        self.initialized = true;
        self.admin = admin;
        self.token_address = token_address;
        Ok(())
    }

    /// Unlock `content_id` for `buyer` by paying `price` to `creator`.
    ///
    /// The buyer must have approved the call. A triple that is already
    /// unlocked is left exactly as it is — no second payment, no second
    /// event. Otherwise the price moves from buyer to creator and only then
    /// is the grant recorded, so a failed payment changes nothing.
    pub fn unlock_content(
        &mut self,
        ledger: &mut TokenLedger,
        auth: u64,
        buyer: u64,
        creator: u64,
        content_id: u64,
        price: i128,
    ) -> (r: Result<(), Error>)
        requires
            old(ledger).wf(),
        ensures
            final(ledger).wf(),
            (final(self)@, final(ledger)@, r) == unlock_outcome(
                old(self)@,
                old(ledger)@,
                auth,
                buyer,
                creator,
                content_id,
                price,
            ),
    {
        if auth != buyer {
            return Err(Error::Unauthorized);
        }
        if self.access.contains(buyer, creator, content_id) {
            return Ok(());
        }
        if !self.initialized {
            return Err(Error::NotInitialized);
        }
        match ledger.transfer(buyer, creator, price) {
            Ok(()) => {
                self.access.insert(buyer, creator, content_id);
                self.events.push(
                    AccessEvent::ContentUnlocked { buyer, creator, content_id, price },
                );
                Ok(())
            },
            Err(e) => Err(e),
        }
    }

    /// Whether `buyer` has unlocked `content_id` from `creator`.
    pub fn has_access(&self, buyer: u64, creator: u64, content_id: u64) -> (r: bool)
        ensures
            r == self@.access.contains((buyer, creator, content_id)),
    {
        self.access.contains(buyer, creator, content_id)
    }

    /// The events the contract has emitted, oldest first.
    pub fn events(&self) -> (r: &Vec<AccessEvent>)
        ensures
            r@ == self@.events,
    {
        &self.events
    }
}

/// Unlocking is idempotent: running `unlock_content` a second time with the
/// same arguments leaves the contract state and the token ledger exactly
/// where the first run left them — in particular the payment happens at most
/// once and no duplicate event is emitted.
pub proof fn lemma_unlock_idempotent(
    s: ContentAccessView,
    l: Map<u64, i128>,
    auth: u64,
    buyer: u64,
    creator: u64,
    content_id: u64,
    price: i128,
)
    ensures
        ({
            let (s1, l1, r1) = unlock_outcome(s, l, auth, buyer, creator, content_id, price);
            let (s2, l2, r2) = unlock_outcome(s1, l1, auth, buyer, creator, content_id, price);
            s2 == s1 && l2 == l1 && (r1 is Ok ==> r2 is Ok)
        }),
{
    let (s1, l1, r1) = unlock_outcome(s, l, auth, buyer, creator, content_id, price);
    if auth == buyer && !s.access.contains((buyer, creator, content_id)) && s.initialized
        && xfer_ok(l, buyer, creator, price) {
        assert(s1.access.contains((buyer, creator, content_id)));
    }
}

/// Before any grant there is no access: a contract whose grant set is empty
/// answers `has_access` with false for every triple.
pub proof fn lemma_no_access_before_grant(
    s: ContentAccessView,
    buyer: u64,
    creator: u64,
    content_id: u64,
)
    requires
        s.access == Set::<(u64, u64, u64)>::empty(),
    ensures
        !s.access.contains((buyer, creator, content_id)),
{
}

/// A grant reaches exactly its own triple: after a successful unlock the
/// buyer has access to that content, and every other (buyer, creator,
/// content) triple answers `has_access` exactly as before — no
/// cross-resource leakage.
pub proof fn lemma_grant_isolated(
    s: ContentAccessView,
    l: Map<u64, i128>,
    auth: u64,
    buyer: u64,
    creator: u64,
    content_id: u64,
    price: i128,
    other_buyer: u64,
    other_creator: u64,
    other_content: u64,
)
    ensures
        ({
            let (s1, l1, r1) = unlock_outcome(s, l, auth, buyer, creator, content_id, price);
            &&& (r1 is Ok ==> s1.access.contains((buyer, creator, content_id)))
            &&& ((other_buyer, other_creator, other_content) != (buyer, creator, content_id)
                ==> s1.access.contains((other_buyer, other_creator, other_content))
                    == s.access.contains((other_buyer, other_creator, other_content)))
        }),
{
}

} // verus!
