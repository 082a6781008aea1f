//! The escrow ledger: an identifier allocator and a store of escrow
//! records, keyed by identifier.
//!
//! Identifiers are allocated consecutively starting at 1, so the store is
//! held as a vector whose element at index `i` is the record with
//! identifier `i + 1`. The allocator's counter always names the next
//! identifier to hand out, one past the greatest identifier in use.

use vstd::prelude::*;

use crate::escrow::{Error, Escrow, Identity, new_record};

verus! {

/// Whether `id` names a record in store `s`: identifiers run from 1 to
/// the number of records ever created.
pub open spec fn contains_id(s: Seq<Escrow>, id: u32) -> bool {
    1 <= id <= s.len()
}

/// The record that store `s` holds under identifier `id`.
pub open spec fn record_of(s: Seq<Escrow>, id: u32) -> Escrow {
    s[id - 1]
}

/// Every record that exists has a strictly positive amount.
pub open spec fn store_wf(s: Seq<Escrow>) -> bool {
    forall|i: int| 0 <= i < s.len() ==> s[i].amount > 0
}

/// Store `s` after a successful creation: the new record is appended, so
/// it is keyed by the identifier one past the previously greatest one.
pub open spec fn with_created(
    s: Seq<Escrow>,
    client: Identity,
    freelancer: Identity,
    amount: u64,
) -> Seq<Escrow> {
    s.push(new_record(client, freelancer, amount))
}

/// Store `s` after a successful release of record `id`: that record's
/// `released` flag is set, every other field and record is untouched.
pub open spec fn with_released(s: Seq<Escrow>, id: u32) -> Seq<Escrow> {
    s.update(id - 1, Escrow { released: true, ..record_of(s, id) })
}

/// The escrow ledger. It exclusively owns the records and the allocator's
/// counter; all access goes through the three operations and the lookup
/// accessors.
pub struct AdaptiveEscrow {
    /// The allocator's counter: the identifier the next creation returns.
    next_id: u32,
    /// The records, record with identifier `i + 1` at index `i`.
    escrows: Vec<Escrow>,
}

impl AdaptiveEscrow {
    /// The store: the sequence of records, in creation order.
    pub closed spec fn store(self) -> Seq<Escrow> {
        self.escrows@
    }

    /// The allocator's counter.
    pub closed spec fn counter(self) -> u32 {
        self.next_id
    }

    /// Well-formedness: amounts are positive, and the counter is one past
    /// the greatest identifier in use, so every allocated identifier is
    /// fresh.
    pub open spec fn wf(self) -> bool {
        &&& self.counter() == self.store().len() + 1
        &&& store_wf(self.store())
    }

    /// Set up an empty ledger: no records, counter initialized to 1.
    pub fn initialize() -> (r: AdaptiveEscrow)
        ensures
            r.wf(),
            r.store() == Seq::<Escrow>::empty(),
            r.counter() == 1,
    {
        let r = AdaptiveEscrow { next_id: 1, escrows: Vec::new() };
        proof {
            assert(r.store() =~= Seq::<Escrow>::empty());
        }
        r
    }

    /// Rebuild a ledger from durably stored records, in creation order.
    ///
    /// This is the host's way back from its persistence medium into the
    /// core: it re-establishes the ledger's invariants, rejecting a
    /// record set that holds a non-positive amount, and restores the
    /// allocator's counter to one past the greatest identifier in use.
    pub fn from_records(records: Vec<Escrow>) -> (r: Result<AdaptiveEscrow, Error>)
        requires
            records@.len() < u32::MAX,
        ensures
            store_wf(records@) ==> {
                &&& r matches Ok(l)
                &&& l.wf()
                &&& l.store() == records@
                &&& l.counter() == records@.len() + 1
            },
            !store_wf(records@) ==> r == Err::<AdaptiveEscrow, Error>(Error::InvalidAmount),
    {
        let n = records.len();
        let mut i: usize = 0;
        while i < n
            invariant
                n == records@.len() < u32::MAX,
                0 <= i <= n,
                forall|j: int| 0 <= j < i ==> records@[j].amount > 0,
            decreases n - i,
        {
            if records[i].amount == 0 {
                return Err(Error::InvalidAmount);
            }
            i += 1;
        }
        let next_id: u32 = (n as u32) + 1;
        Ok(AdaptiveEscrow { next_id, escrows: records })
    }

    /// The stored records, record with identifier `i + 1` at index `i`:
    /// the host reads these back out to persist them.
    pub fn records(&self) -> (r: &Vec<Escrow>)
        ensures
            r@ == self.store(),
    {
        &self.escrows
    }

    /// The allocator's counter: the identifier the next creation will
    /// return. Reading it changes nothing.
    pub fn peek_next_id(&self) -> (r: u32)
        ensures
            r == self.counter(),
    {
        self.next_id
    }

    /// Create a new escrow of `amount` from `client` toward `freelancer`.
    ///
    /// A non-positive amount is rejected before any state change. On
    /// success the allocator hands out its counter value as the record's
    /// identifier and advances; the identifier is strictly greater than
    /// every identifier already in use, and no other record is touched.
    pub fn create_escrow(
        &mut self,
        client: Identity,
        freelancer: Identity,
        amount: u64,
    ) -> (r: Result<u32, Error>)
        requires
            old(self).wf(),
            old(self).counter() < u32::MAX,
        ensures
            final(self).wf(),
            amount == 0 ==> {
                &&& r == Err::<u32, Error>(Error::InvalidAmount)
                &&& final(self).store() == old(self).store()
                &&& final(self).counter() == old(self).counter()
            },
            amount > 0 ==> {
                &&& r == Ok::<u32, Error>(old(self).counter())
                &&& final(self).store() == with_created(old(self).store(), client, freelancer, amount)
                &&& final(self).counter() == old(self).counter() + 1
            },
            forall|id: u32| contains_id(old(self).store(), id) ==> id < old(self).counter(),
    {
        if amount == 0 {
            return Err(Error::InvalidAmount);
        }
        let id = self.next_id;
        self.escrows.push(Escrow { client, freelancer, amount, released: false });
        self.next_id = id + 1;
        Ok(id)
    }

    /// Release the escrow `escrow_id` to its freelancer, on the authority
    /// of `caller`.
    ///
    /// Fails with `NotFound` if no such record exists, and with
    /// `Unauthorized` if `caller` is not the record's client; either
    /// failure leaves the ledger completely unchanged. On success the
    /// record's `released` flag is set and every other field and record
    /// is untouched; releasing an already-released record with the
    /// correct caller succeeds again and changes nothing.
    pub fn release_funds(&mut self, escrow_id: u32, caller: Identity) -> (r: Result<(), Error>)
        requires
            old(self).wf(),
        ensures
            final(self).wf(),
            final(self).counter() == old(self).counter(),
            !contains_id(old(self).store(), escrow_id) ==> {
                &&& r == Err::<(), Error>(Error::NotFound)
                &&& final(self).store() == old(self).store()
            },
            contains_id(old(self).store(), escrow_id)
                && caller != record_of(old(self).store(), escrow_id).client ==> {
                &&& r == Err::<(), Error>(Error::Unauthorized)
                &&& final(self).store() == old(self).store()
            },
            contains_id(old(self).store(), escrow_id)
                && caller == record_of(old(self).store(), escrow_id).client ==> {
                &&& r == Ok::<(), Error>(())
                &&& final(self).store() == with_released(old(self).store(), escrow_id)
            },
    {
        if escrow_id == 0 || escrow_id as usize > self.escrows.len() {
            return Err(Error::NotFound);
        }
        let idx: usize = (escrow_id - 1) as usize;
        let mut rec: Escrow = self.escrows[idx];
        if rec.client != caller {
            return Err(Error::Unauthorized);
        }
        rec.released = true;
        self.escrows[idx] = rec;
        proof {
            assert(self.store() =~= with_released(old(self).store(), escrow_id));
        }
        Ok(())
    }

    /// Look up the escrow `escrow_id`.
    ///
    /// A pure read: returns a snapshot of the record's current fields if
    /// the identifier names one, and `NotFound` otherwise.
    pub fn get_escrow(&self, escrow_id: u32) -> (r: Result<Escrow, Error>)
        ensures
            contains_id(self.store(), escrow_id) ==> r == Ok::<Escrow, Error>(
                record_of(self.store(), escrow_id),
            ),
            !contains_id(self.store(), escrow_id) ==> r == Err::<Escrow, Error>(Error::NotFound),
    {
        if escrow_id == 0 || escrow_id as usize > self.escrows.len() {
            return Err(Error::NotFound);
        }
        let idx: usize = (escrow_id - 1) as usize;
        Ok(self.escrows[idx])
    }
}

/// A created record is found under the identifier that created it: after
/// a creation extends store `s`, the new identifier (one past the
/// previously greatest) names a record with exactly the given client,
/// freelancer and amount, not yet released — and every record that
/// already existed is still found, unchanged, under its identifier.
pub proof fn lemma_create_then_get(
    s: Seq<Escrow>,
    client: Identity,
    freelancer: Identity,
    amount: u64,
)
    requires
        s.len() < u32::MAX,
    ensures
        contains_id(with_created(s, client, freelancer, amount), (s.len() + 1) as u32),
        record_of(with_created(s, client, freelancer, amount), (s.len() + 1) as u32)
            == new_record(client, freelancer, amount),
        forall|id: u32| contains_id(s, id) ==> {
            &&& contains_id(with_created(s, client, freelancer, amount), id)
            &&& record_of(with_created(s, client, freelancer, amount), id) == record_of(s, id)
        },
{
}

/// A released record is found released: after a release of `id` in store
/// `s`, that identifier names the same record with its `released` flag
/// set — and every other record, and the store's extent, is untouched.
pub proof fn lemma_release_then_get(s: Seq<Escrow>, id: u32)
    requires
        contains_id(s, id),
    ensures
        contains_id(with_released(s, id), id),
        record_of(with_released(s, id), id) == (Escrow {
            released: true,
            ..record_of(s, id)
        }),
        with_released(s, id).len() == s.len(),
        forall|other: u32|
            contains_id(s, other) && other != id ==> record_of(with_released(s, id), other)
                == record_of(s, other),
{
}

/// `released` is monotonic: once a record is released, neither creating
/// another escrow nor a further release — of that record or any other —
/// clears its flag.
pub proof fn lemma_released_monotonic(
    s: Seq<Escrow>,
    id: u32,
    other: u32,
    client: Identity,
    freelancer: Identity,
    amount: u64,
)
    requires
        contains_id(s, id),
        record_of(s, id).released,
        contains_id(s, other),
    ensures
        record_of(with_created(s, client, freelancer, amount), id).released,
        record_of(with_released(s, other), id).released,
{
}

/// Release is idempotent: releasing a record that a release has already
/// left released changes nothing at all.
pub proof fn lemma_release_idempotent(s: Seq<Escrow>, id: u32)
    requires
        contains_id(s, id),
    ensures
        with_released(with_released(s, id), id) == with_released(s, id),
{
    assert(with_released(with_released(s, id), id) =~= with_released(s, id));
}

} // verus!
