//! What can go wrong with a chart.
use vstd::prelude::*;

use crate::primitives::account_code::{AccountCode, AccountCodeParseError};
use crate::primitives::base_config::AccountCategory;

verus! {

/// Why a request to a chart was refused.
#[derive(Debug, PartialEq, Eq)]
pub enum ChartOfAccountsError {
    CodeNotFoundInChart(AccountCode),
    ParentAccountNotFound(String),
    NonLeafAccount(String),
    AccountCodeHasInvalidParent(String),
    AccountCodeParseError(AccountCodeParseError),
    BaseConfigAlreadyInitializedWithDifferentConfig,
    BaseConfigNotInitialized,
    InvalidAccountCategory { code: AccountCode, category: AccountCategory },
    AccountCategoryNotSupported(AccountCategory),
    ChartOfAccountsNotFoundByReference(String),
}

/// The value of a `ChartOfAccountsError`.
#[verifier::ext_equal]
pub enum ChartOfAccountsErrorView {
    CodeNotFoundInChart(Seq<Seq<char>>),
    ParentAccountNotFound(Seq<char>),
    NonLeafAccount(Seq<char>),
    AccountCodeHasInvalidParent(Seq<char>),
    AccountCodeParseError(AccountCodeParseError),
    BaseConfigAlreadyInitializedWithDifferentConfig,
    BaseConfigNotInitialized,
    InvalidAccountCategory { code: Seq<Seq<char>>, category: AccountCategory },
    AccountCategoryNotSupported(AccountCategory),
    ChartOfAccountsNotFoundByReference(Seq<char>),
}

impl View for ChartOfAccountsError {
    type V = ChartOfAccountsErrorView;

    open spec fn view(&self) -> ChartOfAccountsErrorView {
        match self {
            ChartOfAccountsError::CodeNotFoundInChart(code) => {
                ChartOfAccountsErrorView::CodeNotFoundInChart(code@)
            },
            ChartOfAccountsError::ParentAccountNotFound(text) => {
                ChartOfAccountsErrorView::ParentAccountNotFound(text@)
            },
            ChartOfAccountsError::NonLeafAccount(text) => {
                ChartOfAccountsErrorView::NonLeafAccount(text@)
            },
            ChartOfAccountsError::AccountCodeHasInvalidParent(text) => {
                ChartOfAccountsErrorView::AccountCodeHasInvalidParent(text@)
            },
            ChartOfAccountsError::AccountCodeParseError(e) => {
                ChartOfAccountsErrorView::AccountCodeParseError(*e)
            },
            ChartOfAccountsError::BaseConfigAlreadyInitializedWithDifferentConfig => {
                ChartOfAccountsErrorView::BaseConfigAlreadyInitializedWithDifferentConfig
            },
            ChartOfAccountsError::BaseConfigNotInitialized => {
                ChartOfAccountsErrorView::BaseConfigNotInitialized
            },
            ChartOfAccountsError::InvalidAccountCategory { code, category } => {
                ChartOfAccountsErrorView::InvalidAccountCategory {
                    code: code@,
                    category: *category,
                }
            },
            ChartOfAccountsError::AccountCategoryNotSupported(category) => {
                ChartOfAccountsErrorView::AccountCategoryNotSupported(*category)
            },
            ChartOfAccountsError::ChartOfAccountsNotFoundByReference(text) => {
                ChartOfAccountsErrorView::ChartOfAccountsNotFoundByReference(text@)
            },
        }
    }
}

} // verus!
