//! What a subject needs permission for.
use vstd::prelude::*;

use super::ids::{AccountingTemplateId, ChartId, TermsTemplateId};

verus! {

/// What an accounting permission is about.
#[derive(Debug, Clone, Copy, PartialEq, Eq, Hash, Structural)]
pub enum CoreAccountingObject {
    AllCharts,
    Chart(ChartId),
    AllAccountingTemplates,
    AccountingTemplate(AccountingTemplateId),
}

/// What an accounting permission allows.
#[derive(Debug, Clone, Copy, PartialEq, Eq, Hash, Structural)]
pub enum CoreAccountingAction {
    ChartCreate,
    ChartList,
    ChartUpdate,
    ChartImportAccounts,
    ChartCloseMonthly,
    AccountingTemplateCreate,
    AccountingTemplateRead,
    AccountingTemplateUpdate,
    AccountingTemplateList,
}

/// What a permission for credit terms is about.
#[derive(Debug, Clone, Copy, PartialEq, Eq, Hash, Structural)]
pub enum CoreCreditTermsObject {
    AllTermsTemplates,
    TermsTemplate(TermsTemplateId),
}

/// What a permission for credit terms allows.
#[derive(Debug, Clone, Copy, PartialEq, Eq, Hash, Structural)]
pub enum CoreCreditTermsAction {
    TermsTemplateCreate,
    TermsTemplateRead,
    TermsTemplateUpdate,
    TermsTemplateList,
}

} // verus!
