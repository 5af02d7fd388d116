//! The plain values that the rest of the library is written in.
pub mod account;
pub mod account_code;
pub mod base_config;
pub mod closing;
pub mod ids;
pub mod permission;

pub use account::{
    AccountIdOrCode, AccountName, AccountNameParseError, AccountSetMember, AccountSpec,
    DebitOrCredit,
};
pub use account_code::{
    AccountCode, AccountCodeParseError, AccountCodeSection, AccountCodeSectionParseError,
};
pub use base_config::{AccountCategory, AccountingBaseConfig, ResolvedAccountingBaseConfig};
pub use closing::{
    ClosingAccountCodes, ClosingAccountSetIds, ClosingTxDetails, ClosingTxParentIdsAndDetails, Date,
};
pub use ids::{
    AccountingTemplateId, CalaAccountSetId, CalaJournalId, ChartId, ChartNodeId, LedgerAccountId,
    LedgerTransactionId, TermsTemplateId,
};
pub use permission::{
    CoreAccountingAction, CoreAccountingObject, CoreCreditTermsAction, CoreCreditTermsObject,
};
