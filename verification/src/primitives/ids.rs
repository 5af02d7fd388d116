//! Identifiers. Each one wraps the 128 bits of a UUID.
use vstd::prelude::*;

verus! {

/// The bits of a version 7 UUID: version nibble 7, variant bits `10`.
pub open spec fn is_uuid_v7(bits: u128) -> bool {
    &&& (bits >> 76u128) & 0xf == 7
    &&& (bits >> 62u128) & 0x3 == 2
}

/// Calls `Uuid::now_v7` of the `uuid` crate, in the copy that `es-entity`
/// re-exports and that its identifiers are made with.
///
/// The bits depend on the clock and on chance. All that is claimed of them is
/// that the version and variant fields are those of a version 7 UUID. That no
/// two calls return the same bits is not claimed.
#[verifier::external_body]
pub(crate) fn fresh_uuid() -> (bits: u128)
    ensures
        is_uuid_v7(bits),
{
    es_entity::prelude::uuid::Uuid::now_v7().as_u128()
}

/// Identifies a chart of accounts.
#[derive(Debug, Clone, Copy, PartialEq, Eq, Hash, Structural)]
pub struct ChartId(pub u128);

/// Identifies a node of a chart.
#[derive(Debug, Clone, Copy, PartialEq, Eq, Hash, Structural)]
pub struct ChartNodeId(pub u128);

/// Identifies an account set of the ledger.
#[derive(Debug, Clone, Copy, PartialEq, Eq, Hash, Structural)]
pub struct CalaAccountSetId(pub u128);

/// Identifies a journal of the ledger.
#[derive(Debug, Clone, Copy, PartialEq, Eq, Hash, Structural)]
pub struct CalaJournalId(pub u128);

/// Identifies an account of the ledger.
#[derive(Debug, Clone, Copy, PartialEq, Eq, Hash, Structural)]
pub struct LedgerAccountId(pub u128);

/// Identifies a transaction of the ledger.
#[derive(Debug, Clone, Copy, PartialEq, Eq, Hash, Structural)]
pub struct LedgerTransactionId(pub u128);

/// Identifies an accounting template.
#[derive(Debug, Clone, Copy, PartialEq, Eq, Hash, Structural)]
pub struct AccountingTemplateId(pub u128);

/// Identifies a terms template.
#[derive(Debug, Clone, Copy, PartialEq, Eq, Hash, Structural)]
pub struct TermsTemplateId(pub u128);

impl ChartId {
    /// The account set that stands for the chart in the ledger. It has the
    /// bits of the chart's own identifier.
    pub fn to_account_set_id(self) -> (id: CalaAccountSetId)
        ensures
            id == CalaAccountSetId(self.0),
    {
        CalaAccountSetId(self.0)
    }

    /// A new identifier.
    pub fn new() -> (id: Self)
        ensures
            is_uuid_v7(id.0),
    {
        ChartId(fresh_uuid())
    }
}

impl ChartNodeId {
    /// A new identifier.
    pub fn new() -> (id: Self)
        ensures
            is_uuid_v7(id.0),
    {
        ChartNodeId(fresh_uuid())
    }
}

impl CalaAccountSetId {
    /// A new identifier.
    pub fn new() -> (id: Self)
        ensures
            is_uuid_v7(id.0),
    {
        CalaAccountSetId(fresh_uuid())
    }
}

impl CalaJournalId {
    /// A new identifier.
    pub fn new() -> (id: Self)
        ensures
            is_uuid_v7(id.0),
    {
        CalaJournalId(fresh_uuid())
    }
}

impl LedgerAccountId {
    /// A new identifier.
    pub fn new() -> (id: Self)
        ensures
            is_uuid_v7(id.0),
    {
        LedgerAccountId(fresh_uuid())
    }
}

impl AccountingTemplateId {
    /// A new identifier.
    pub fn new() -> (id: Self)
        ensures
            is_uuid_v7(id.0),
    {
        AccountingTemplateId(fresh_uuid())
    }
}

impl TermsTemplateId {
    /// A new identifier.
    pub fn new() -> (id: Self)
        ensures
            is_uuid_v7(id.0),
    {
        TermsTemplateId(fresh_uuid())
    }
}

} // verus!
