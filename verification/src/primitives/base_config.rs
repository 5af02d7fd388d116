//! The accounts that stand for the categories of a chart.
use vstd::prelude::*;

use super::account_code::{is_parent_code, AccountCode};
use super::ids::CalaAccountSetId;

verus! {

/// The categories of accounts.
#[derive(Debug, Clone, Copy, PartialEq, Eq, Hash, Structural)]
pub enum AccountCategory {
    OffBalanceSheet,
    Asset,
    Liability,
    Equity,
    Revenue,
    CostOfRevenue,
    Expense,
}

/// The codes of the accounts that a chart is closed and reported by.
#[derive(Debug, PartialEq, Eq)]
pub struct AccountingBaseConfig {
    pub assets_code: AccountCode,
    pub liabilities_code: AccountCode,
    pub equity_code: AccountCode,
    pub equity_retained_earnings_gain_code: AccountCode,
    pub equity_retained_earnings_loss_code: AccountCode,
    pub revenue_code: AccountCode,
    pub cost_of_revenue_code: AccountCode,
    pub expenses_code: AccountCode,
}

/// The value of an `AccountingBaseConfig`.
#[verifier::ext_equal]
pub struct AccountingBaseConfigView {
    pub assets_code: Seq<Seq<char>>,
    pub liabilities_code: Seq<Seq<char>>,
    pub equity_code: Seq<Seq<char>>,
    pub equity_retained_earnings_gain_code: Seq<Seq<char>>,
    pub equity_retained_earnings_loss_code: Seq<Seq<char>>,
    pub revenue_code: Seq<Seq<char>>,
    pub cost_of_revenue_code: Seq<Seq<char>>,
    pub expenses_code: Seq<Seq<char>>,
}

/// The code itself or one below it.
pub open spec fn at_or_below(code: Seq<Seq<char>>, top: Seq<Seq<char>>) -> bool {
    code == top || is_parent_code(top, code)
}

impl AccountingBaseConfigView {
    /// The code that stands for a category. Accounts off the balance sheet
    /// have none.
    pub open spec fn code_for_category(self, category: AccountCategory) -> Option<Seq<Seq<char>>> {
        match category {
            AccountCategory::OffBalanceSheet => None,
            AccountCategory::Asset => Some(self.assets_code),
            AccountCategory::Liability => Some(self.liabilities_code),
            AccountCategory::Equity => Some(self.equity_code),
            AccountCategory::Revenue => Some(self.revenue_code),
            AccountCategory::CostOfRevenue => Some(self.cost_of_revenue_code),
            AccountCategory::Expense => Some(self.expenses_code),
        }
    }

    /// An account is in a category if its code is at or below the category's
    /// code. Off the balance sheet is what is in no other category.
    pub open spec fn in_category(self, code: Seq<Seq<char>>, category: AccountCategory) -> bool {
        match self.code_for_category(category) {
            Some(top) => at_or_below(code, top),
            None => forall|other: AccountCategory|
                other != AccountCategory::OffBalanceSheet ==> !(#[trigger] self.in_named_category(
                    code,
                    other,
                )),
        }
    }

    /// As `in_category`, for the categories that have a code.
    pub open spec fn in_named_category(
        self,
        code: Seq<Seq<char>>,
        category: AccountCategory,
    ) -> bool {
        self.code_for_category(category) matches Some(top) && at_or_below(code, top)
    }
}

impl View for AccountingBaseConfig {
    type V = AccountingBaseConfigView;

    open spec fn view(&self) -> AccountingBaseConfigView {
        AccountingBaseConfigView {
            assets_code: self.assets_code@,
            liabilities_code: self.liabilities_code@,
            equity_code: self.equity_code@,
            equity_retained_earnings_gain_code: self.equity_retained_earnings_gain_code@,
            equity_retained_earnings_loss_code: self.equity_retained_earnings_loss_code@,
            revenue_code: self.revenue_code@,
            cost_of_revenue_code: self.cost_of_revenue_code@,
            expenses_code: self.expenses_code@,
        }
    }
}

impl Clone for AccountingBaseConfig {
    fn clone(&self) -> (res: Self)
        ensures
            res@ == self@,
    {
        AccountingBaseConfig {
            assets_code: self.assets_code.clone(),
            liabilities_code: self.liabilities_code.clone(),
            equity_code: self.equity_code.clone(),
            equity_retained_earnings_gain_code: self.equity_retained_earnings_gain_code.clone(),
            equity_retained_earnings_loss_code: self.equity_retained_earnings_loss_code.clone(),
            revenue_code: self.revenue_code.clone(),
            cost_of_revenue_code: self.cost_of_revenue_code.clone(),
            expenses_code: self.expenses_code.clone(),
        }
    }
}

fn is_at_or_below(code: &AccountCode, top: &AccountCode) -> (res: bool)
    ensures
        res == at_or_below(code@, top@),
{
    code.same(top) || top.is_parent_of(code)
}

impl AccountingBaseConfig {
    /// Whether two configurations name the same codes.
    pub fn same(&self, other: &Self) -> (res: bool)
        ensures
            res == (self@ == other@),
    {
        self.assets_code.same(&other.assets_code) && self.liabilities_code.same(
            &other.liabilities_code,
        ) && self.equity_code.same(&other.equity_code)
            && self.equity_retained_earnings_gain_code.same(
            &other.equity_retained_earnings_gain_code,
        ) && self.equity_retained_earnings_loss_code.same(
            &other.equity_retained_earnings_loss_code,
        ) && self.revenue_code.same(&other.revenue_code) && self.cost_of_revenue_code.same(
            &other.cost_of_revenue_code,
        ) && self.expenses_code.same(&other.expenses_code)
    }

    /// The code that stands for a category.
    pub fn code_for_category(&self, category: AccountCategory) -> (res: Option<&AccountCode>)
        ensures
            match res {
                Some(code) => self@.code_for_category(category) == Some(code@),
                None => self@.code_for_category(category) is None,
            },
    {
        match category {
            AccountCategory::OffBalanceSheet => None,
            AccountCategory::Asset => Some(&self.assets_code),
            AccountCategory::Liability => Some(&self.liabilities_code),
            AccountCategory::Equity => Some(&self.equity_code),
            AccountCategory::Revenue => Some(&self.revenue_code),
            AccountCategory::CostOfRevenue => Some(&self.cost_of_revenue_code),
            AccountCategory::Expense => Some(&self.expenses_code),
        }
    }

    /// Whether an account is in a category.
    pub fn is_account_in_category(&self, code: &AccountCode, category: AccountCategory) -> (res:
        bool)
        ensures
            res == self@.in_category(code@, category),
    {
        match self.code_for_category(category) {
            Some(top) => is_at_or_below(code, top),
            None => {
                let named: bool = is_at_or_below(code, &self.assets_code) || is_at_or_below(
                    code,
                    &self.liabilities_code,
                ) || is_at_or_below(code, &self.equity_code) || is_at_or_below(
                    code,
                    &self.revenue_code,
                ) || is_at_or_below(code, &self.cost_of_revenue_code) || is_at_or_below(
                    code,
                    &self.expenses_code,
                );
                proof {
                    assert(named == (self@.in_named_category(code@, AccountCategory::Asset)
                        || self@.in_named_category(code@, AccountCategory::Liability)
                        || self@.in_named_category(code@, AccountCategory::Equity)
                        || self@.in_named_category(code@, AccountCategory::Revenue)
                        || self@.in_named_category(code@, AccountCategory::CostOfRevenue)
                        || self@.in_named_category(code@, AccountCategory::Expense)));
                }
                !named
            },
        }
    }
}

/// Every account is in some category, and one that is off the balance sheet
/// is in no other.
pub proof fn categories_cover_every_code(
    config: AccountingBaseConfigView,
    code: Seq<Seq<char>>,
    category: AccountCategory,
)
    ensures
        exists|some: AccountCategory| config.in_category(code, some),
        config.in_category(code, AccountCategory::OffBalanceSheet) && config.in_category(
            code,
            category,
        ) ==> category == AccountCategory::OffBalanceSheet,
{
    if !config.in_category(code, AccountCategory::OffBalanceSheet) {
        let other = choose|other: AccountCategory|
            other != AccountCategory::OffBalanceSheet && #[trigger] config.in_named_category(
                code,
                other,
            );
        assert(config.in_category(code, other));
    } else if category != AccountCategory::OffBalanceSheet {
        assert(!config.in_named_category(code, category));
    }
}

/// A base configuration with the account sets of its codes.
#[derive(Debug)]
pub struct ResolvedAccountingBaseConfig {
    pub config: AccountingBaseConfig,
    pub assets: CalaAccountSetId,
    pub liabilities: CalaAccountSetId,
    pub equity: CalaAccountSetId,
    pub equity_retained_earnings_gain: CalaAccountSetId,
    pub equity_retained_earnings_loss: CalaAccountSetId,
    pub revenue: CalaAccountSetId,
    pub cost_of_revenue: CalaAccountSetId,
    pub expenses: CalaAccountSetId,
}

/// The value of a `ResolvedAccountingBaseConfig`.
#[verifier::ext_equal]
pub struct ResolvedAccountingBaseConfigView {
    pub config: AccountingBaseConfigView,
    pub assets: CalaAccountSetId,
    pub liabilities: CalaAccountSetId,
    pub equity: CalaAccountSetId,
    pub equity_retained_earnings_gain: CalaAccountSetId,
    pub equity_retained_earnings_loss: CalaAccountSetId,
    pub revenue: CalaAccountSetId,
    pub cost_of_revenue: CalaAccountSetId,
    pub expenses: CalaAccountSetId,
}

impl View for ResolvedAccountingBaseConfig {
    type V = ResolvedAccountingBaseConfigView;

    open spec fn view(&self) -> ResolvedAccountingBaseConfigView {
        ResolvedAccountingBaseConfigView {
            config: self.config@,
            assets: self.assets,
            liabilities: self.liabilities,
            equity: self.equity,
            equity_retained_earnings_gain: self.equity_retained_earnings_gain,
            equity_retained_earnings_loss: self.equity_retained_earnings_loss,
            revenue: self.revenue,
            cost_of_revenue: self.cost_of_revenue,
            expenses: self.expenses,
        }
    }
}

} // verus!
