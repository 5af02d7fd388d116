//! Dates, and what a closing is made of.
use vstd::prelude::*;

use super::account_code::AccountCode;
use super::base_config::{AccountingBaseConfig, AccountingBaseConfigView};
use super::ids::CalaAccountSetId;

verus! {

/// A day of the calendar.
#[derive(Debug, Clone, Copy, PartialEq, Eq, Hash, Structural)]
pub struct Date {
    pub year: i32,
    pub month: u32,
    pub day: u32,
}

impl Date {
    /// The chronological order of days.
    pub open spec fn is_before(self, other: Date) -> bool {
        ||| self.year < other.year
        ||| self.year == other.year && self.month < other.month
        ||| self.year == other.year && self.month == other.month && self.day < other.day
    }

    /// Whether this day comes before the other one.
    pub fn precedes(&self, other: &Date) -> (res: bool)
        ensures
            res == self.is_before(*other),
    {
        self.year < other.year || self.year == other.year && self.month < other.month || self.year
            == other.year && self.month == other.month && self.day < other.day
    }
}

/// The codes of the accounts that a closing moves balances between.
#[derive(Debug)]
pub struct ClosingAccountCodes {
    pub revenue: AccountCode,
    pub cost_of_revenue: AccountCode,
    pub expenses: AccountCode,
    pub equity_retained_earnings: AccountCode,
    pub equity_retained_losses: AccountCode,
}

/// The value of `ClosingAccountCodes`.
#[verifier::ext_equal]
pub struct ClosingAccountCodesView {
    pub revenue: Seq<Seq<char>>,
    pub cost_of_revenue: Seq<Seq<char>>,
    pub expenses: Seq<Seq<char>>,
    pub equity_retained_earnings: Seq<Seq<char>>,
    pub equity_retained_losses: Seq<Seq<char>>,
}

impl View for ClosingAccountCodes {
    type V = ClosingAccountCodesView;

    open spec fn view(&self) -> ClosingAccountCodesView {
        ClosingAccountCodesView {
            revenue: self.revenue@,
            cost_of_revenue: self.cost_of_revenue@,
            expenses: self.expenses@,
            equity_retained_earnings: self.equity_retained_earnings@,
            equity_retained_losses: self.equity_retained_losses@,
        }
    }
}

/// The closing codes that a base configuration gives.
pub open spec fn closing_codes(config: AccountingBaseConfigView) -> ClosingAccountCodesView {
    ClosingAccountCodesView {
        revenue: config.revenue_code,
        cost_of_revenue: config.cost_of_revenue_code,
        expenses: config.expenses_code,
        equity_retained_earnings: config.equity_retained_earnings_gain_code,
        equity_retained_losses: config.equity_retained_earnings_loss_code,
    }
}

impl ClosingAccountCodes {
    /// Takes the closing codes out of a base configuration.
    pub fn from_base_config(config: &AccountingBaseConfig) -> (res: Self)
        ensures
            res@ == closing_codes(config@),
    {
        ClosingAccountCodes {
            revenue: config.revenue_code.clone(),
            cost_of_revenue: config.cost_of_revenue_code.clone(),
            expenses: config.expenses_code.clone(),
            equity_retained_earnings: config.equity_retained_earnings_gain_code.clone(),
            equity_retained_losses: config.equity_retained_earnings_loss_code.clone(),
        }
    }
}

/// The account sets that a closing moves balances between.
#[derive(Debug, Clone, Copy, PartialEq, Eq, Structural)]
pub struct ClosingAccountSetIds {
    pub revenue: CalaAccountSetId,
    pub cost_of_revenue: CalaAccountSetId,
    pub expenses: CalaAccountSetId,
    pub equity_retained_earnings: CalaAccountSetId,
    pub equity_retained_losses: CalaAccountSetId,
}

/// How a closing transaction is described and dated.
#[derive(Debug, PartialEq, Eq)]
pub struct ClosingTxDetails {
    pub description: String,
    pub posted_as_of: Date,
}

/// The value of `ClosingTxDetails`.
#[verifier::ext_equal]
pub struct ClosingTxDetailsView {
    pub description: Seq<char>,
    pub posted_as_of: Date,
}

impl View for ClosingTxDetails {
    type V = ClosingTxDetailsView;

    open spec fn view(&self) -> ClosingTxDetailsView {
        ClosingTxDetailsView { description: self.description@, posted_as_of: self.posted_as_of }
    }
}

impl Clone for ClosingTxDetails {
    fn clone(&self) -> (res: Self)
        ensures
            res == self,
    {
        ClosingTxDetails {
            description: self.description.clone(),
            posted_as_of: self.posted_as_of,
        }
    }
}

/// A closing transaction that is ready to be posted.
#[derive(Debug, PartialEq, Eq)]
pub struct ClosingTxParentIdsAndDetails {
    pub parent_ids: ClosingAccountSetIds,
    pub tx_details: ClosingTxDetails,
}

/// The value of `ClosingTxParentIdsAndDetails`.
#[verifier::ext_equal]
pub struct ClosingTxParentIdsAndDetailsView {
    pub parent_ids: ClosingAccountSetIds,
    pub tx_details: ClosingTxDetailsView,
}

impl View for ClosingTxParentIdsAndDetails {
    type V = ClosingTxParentIdsAndDetailsView;

    open spec fn view(&self) -> ClosingTxParentIdsAndDetailsView {
        ClosingTxParentIdsAndDetailsView {
            parent_ids: self.parent_ids,
            tx_details: self.tx_details@,
        }
    }
}

impl ClosingTxParentIdsAndDetails {
    /// Puts the two together.
    pub fn new(parent_ids: ClosingAccountSetIds, tx_details: ClosingTxDetails) -> (res: Self)
        ensures
            res@ == (ClosingTxParentIdsAndDetailsView { parent_ids, tx_details: tx_details@ }),
    {
        ClosingTxParentIdsAndDetails { parent_ids, tx_details }
    }

    /// The day that the transaction is posted for.
    pub fn posted_as_of(&self) -> (res: Date)
        ensures
            res == self@.tx_details.posted_as_of,
    {
        self.tx_details.posted_as_of
    }
}

} // verus!
