//! The escrow record, the identities it speaks of, and the errors the
//! ledger's operations can return.

use vstd::prelude::*;

verus! {

/// An opaque party identity. The host authenticates callers and hands the
/// ledger a pre-validated identity value; the ledger never inspects it
/// beyond comparing identities for equality.
#[derive(Clone, Copy, PartialEq, Eq, Structural, Debug, Hash)]
pub struct Identity(pub u64);

/// A single escrow record. Every field but `released` is immutable after
/// creation; `released` starts `false` and may only ever become `true`.
#[derive(Clone, Copy, PartialEq, Eq, Structural, Debug)]
pub struct Escrow {
    /// The party that deposited the funds; the only principal that may
    /// authorize release.
    pub client: Identity,
    /// The intended recipient.
    pub freelancer: Identity,
    /// The escrowed amount; strictly positive for every record that exists.
    pub amount: u64,
    /// Whether the client has authorized release.
    pub released: bool,
}

/// The errors an operation can return. Every error is a pure rejection:
/// a failed call leaves the ledger unchanged.
#[derive(Clone, Copy, PartialEq, Eq, Structural, Debug)]
pub enum Error {
    /// Creation was requested with a non-positive amount.
    InvalidAmount,
    /// An operation referenced an identifier with no record.
    NotFound,
    /// Release was attempted by a caller other than the record's client.
    Unauthorized,
}

/// The record a successful creation stores: the given parties and amount,
/// not yet released.
pub open spec fn new_record(client: Identity, freelancer: Identity, amount: u64) -> Escrow {
    Escrow { client, freelancer, amount, released: false }
}

} // verus!
