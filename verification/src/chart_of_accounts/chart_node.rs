//! The nodes of a chart, before and after they are stored.
use vstd::prelude::*;

use super::error::{ChartOfAccountsError, ChartOfAccountsErrorView};
use crate::idempotent::Idempotent;
use crate::primitives::account::{AccountName, AccountSpec, AccountSpecView, DebitOrCredit};
use crate::primitives::account_code::{dotted, AccountCode};
use crate::primitives::ids::{
    CalaAccountSetId, CalaJournalId, ChartId, ChartNodeId, LedgerAccountId,
};

verus! {

/// An account set that is to be created in the ledger.
#[derive(Debug, PartialEq, Eq)]
pub struct NewAccountSet {
    pub id: CalaAccountSetId,
    pub journal_id: CalaJournalId,
    pub chart_id: ChartId,
    pub code: AccountCode,
    pub name: AccountName,
    pub normal_balance_type: DebitOrCredit,
}

/// The value of a `NewAccountSet`.
#[verifier::ext_equal]
pub struct NewAccountSetView {
    pub id: CalaAccountSetId,
    pub journal_id: CalaJournalId,
    pub chart_id: ChartId,
    pub code: Seq<Seq<char>>,
    pub name: Seq<char>,
    pub normal_balance_type: DebitOrCredit,
}

impl View for NewAccountSet {
    type V = NewAccountSetView;

    open spec fn view(&self) -> NewAccountSetView {
        NewAccountSetView {
            id: self.id,
            journal_id: self.journal_id,
            chart_id: self.chart_id,
            code: self.code@,
            name: self.name@,
            normal_balance_type: self.normal_balance_type,
        }
    }
}

impl Clone for NewAccountSet {
    fn clone(&self) -> (res: Self)
        ensures
            res@ == self@,
    {
        NewAccountSet {
            id: self.id,
            journal_id: self.journal_id,
            chart_id: self.chart_id,
            code: self.code.clone(),
            name: self.name.clone(),
            normal_balance_type: self.normal_balance_type,
        }
    }
}

/// An account for manual transactions that is to be created in the ledger.
#[derive(Debug, PartialEq, Eq)]
pub struct NewAccount {
    pub id: LedgerAccountId,
    pub chart_id: ChartId,
    pub code: AccountCode,
    pub name: AccountName,
    pub normal_balance_type: DebitOrCredit,
}

/// The value of a `NewAccount`.
#[verifier::ext_equal]
pub struct NewAccountView {
    pub id: LedgerAccountId,
    pub chart_id: ChartId,
    pub code: Seq<Seq<char>>,
    pub name: Seq<char>,
    pub normal_balance_type: DebitOrCredit,
}

impl View for NewAccount {
    type V = NewAccountView;

    open spec fn view(&self) -> NewAccountView {
        NewAccountView {
            id: self.id,
            chart_id: self.chart_id,
            code: self.code@,
            name: self.name@,
            normal_balance_type: self.normal_balance_type,
        }
    }
}

/// A node that was added to a chart and is not stored yet.
#[derive(Debug, PartialEq, Eq)]
pub struct NewChartNode {
    pub id: ChartNodeId,
    pub chart_id: ChartId,
    pub spec: AccountSpec,
    pub ledger_account_set_id: CalaAccountSetId,
    pub children_node_ids: Vec<ChartNodeId>,
}

/// The value of a `NewChartNode`.
#[verifier::ext_equal]
pub struct NewChartNodeView {
    pub id: ChartNodeId,
    pub chart_id: ChartId,
    pub spec: AccountSpecView,
    pub ledger_account_set_id: CalaAccountSetId,
    pub children_node_ids: Seq<ChartNodeId>,
}

impl NewChartNodeView {
    /// The account set that stands for the node in the ledger.
    pub open spec fn new_account_set(self, journal_id: CalaJournalId) -> NewAccountSetView {
        NewAccountSetView {
            id: self.ledger_account_set_id,
            journal_id,
            chart_id: self.chart_id,
            code: self.spec.code,
            name: self.spec.name,
            normal_balance_type: self.spec.normal_balance_type,
        }
    }

    /// The node as it is once it is stored.
    pub open spec fn stored(self) -> ChartNodeView {
        ChartNodeView {
            id: self.id,
            chart_id: self.chart_id,
            spec: self.spec,
            account_set_id: self.ledger_account_set_id,
            manual_transaction_account_id: None,
            children: self.children_node_ids,
        }
    }
}

impl View for NewChartNode {
    type V = NewChartNodeView;

    open spec fn view(&self) -> NewChartNodeView {
        NewChartNodeView {
            id: self.id,
            chart_id: self.chart_id,
            spec: self.spec@,
            ledger_account_set_id: self.ledger_account_set_id,
            children_node_ids: self.children_node_ids@,
        }
    }
}

impl NewChartNode {
    /// The account set that stands for the node in the ledger.
    pub fn new_account_set(&self, journal_id: CalaJournalId) -> (res: NewAccountSet)
        ensures
            res@ == self@.new_account_set(journal_id),
    {
        NewAccountSet {
            id: self.ledger_account_set_id,
            journal_id,
            chart_id: self.chart_id,
            code: self.spec.code.clone(),
            name: self.spec.name.clone(),
            normal_balance_type: self.spec.normal_balance_type,
        }
    }

    /// The node as it is once it is stored.
    pub fn to_stored(&self) -> (res: ChartNode)
        ensures
            res@ == self@.stored(),
    {
        let children: Vec<ChartNodeId> = self.children_node_ids.clone();
        assert(children@ =~= self.children_node_ids@);
        ChartNode {
            id: self.id,
            chart_id: self.chart_id,
            spec: self.spec.clone(),
            account_set_id: self.ledger_account_set_id,
            manual_transaction_account_id: None,
            children,
        }
    }
}

/// A stored node of a chart.
#[derive(Debug, PartialEq, Eq)]
pub struct ChartNode {
    pub id: ChartNodeId,
    pub chart_id: ChartId,
    pub spec: AccountSpec,
    pub account_set_id: CalaAccountSetId,
    pub manual_transaction_account_id: Option<LedgerAccountId>,
    pub children: Vec<ChartNodeId>,
}

/// The value of a `ChartNode`.
#[verifier::ext_equal]
pub struct ChartNodeView {
    pub id: ChartNodeId,
    pub chart_id: ChartId,
    pub spec: AccountSpecView,
    pub account_set_id: CalaAccountSetId,
    pub manual_transaction_account_id: Option<LedgerAccountId>,
    pub children: Seq<ChartNodeId>,
}

impl ChartNodeView {
    /// Accounts of the first level appear in the trial balance.
    pub open spec fn is_trial_balance_account(self) -> bool {
        self.spec.code.len() == 1
    }

    /// Only an account without children takes manual transactions.
    pub open spec fn can_have_manual_transactions(self) -> bool {
        self.children.len() == 0
    }

    /// The node with one more child. A child that it has is not added again.
    pub open spec fn with_child(self, child: ChartNodeId) -> ChartNodeView {
        if self.children.contains(child) {
            self
        } else {
            ChartNodeView { children: self.children.push(child), ..self }
        }
    }

    /// The node with an account for manual transactions.
    pub open spec fn with_manual_account(self, id: LedgerAccountId) -> ChartNodeView {
        ChartNodeView { manual_transaction_account_id: Some(id), ..self }
    }

    /// The account for manual transactions of the node.
    pub open spec fn new_manual_account(self, id: LedgerAccountId) -> NewAccountView {
        NewAccountView {
            id,
            chart_id: self.chart_id,
            code: self.spec.code,
            name: self.spec.name,
            normal_balance_type: self.spec.normal_balance_type,
        }
    }
}

impl View for ChartNode {
    type V = ChartNodeView;

    open spec fn view(&self) -> ChartNodeView {
        ChartNodeView {
            id: self.id,
            chart_id: self.chart_id,
            spec: self.spec@,
            account_set_id: self.account_set_id,
            manual_transaction_account_id: self.manual_transaction_account_id,
            children: self.children@,
        }
    }
}

impl Clone for ChartNode {
    fn clone(&self) -> (res: Self)
        ensures
            res@ == self@,
    {
        let children: Vec<ChartNodeId> = self.children.clone();
        assert(children@ =~= self.children@);
        ChartNode {
            id: self.id,
            chart_id: self.chart_id,
            spec: self.spec.clone(),
            account_set_id: self.account_set_id,
            manual_transaction_account_id: self.manual_transaction_account_id,
            children,
        }
    }
}

/// Whether a list holds an identifier.
pub(crate) fn holds_node_id(ids: &Vec<ChartNodeId>, id: ChartNodeId) -> (res: bool)
    ensures
        res == ids@.contains(id),
{
    let mut i: usize = 0;
    while i < ids.len()
        invariant
            i <= ids.len(),
            forall|j: int| 0 <= j < i ==> ids@[j] != id,
        decreases ids.len() - i,
    {
        if ids[i] == id {
            return true;
        }
        i = i + 1;
    }
    false
}

impl ChartNode {
    /// Whether the account appears in the trial balance.
    pub fn is_trial_balance_account(&self) -> (res: bool)
        ensures
            res == self@.is_trial_balance_account(),
    {
        self.spec.code.len_sections() == 1
    }

    /// Whether the account takes manual transactions.
    pub fn can_have_manual_transactions(&self) -> (res: bool)
        ensures
            res == self@.can_have_manual_transactions(),
    {
        self.children.len() == 0
    }

    /// Adds a child, unless the node has it already.
    pub fn add_child_node(&mut self, child: ChartNodeId) -> (res: Idempotent<()>)
        ensures
            final(self)@ == old(self)@.with_child(child),
            (res is AlreadyApplied) == old(self)@.children.contains(child),
    {
        if holds_node_id(&self.children, child) {
            return Idempotent::AlreadyApplied;
        }
        self.children.push(child);
        Idempotent::Executed(())
    }

    /// Gives the node the account `new_id` for manual transactions, unless it
    /// has one already. A node with children is refused.
    pub fn assign_manual_transaction_account(&mut self, new_id: LedgerAccountId) -> (res: Result<
        Idempotent<NewAccount>,
        ChartOfAccountsError,
    >)
        ensures
            match res {
                Err(e) => {
                    &&& !old(self)@.can_have_manual_transactions()
                    &&& e@ == ChartOfAccountsErrorView::NonLeafAccount(dotted(old(self)@.spec.code))
                    &&& final(self)@ == old(self)@
                },
                Ok(Idempotent::AlreadyApplied) => {
                    &&& old(self)@.can_have_manual_transactions()
                    &&& old(self)@.manual_transaction_account_id is Some
                    &&& final(self)@ == old(self)@
                },
                Ok(Idempotent::Executed(account)) => {
                    &&& old(self)@.can_have_manual_transactions()
                    &&& old(self)@.manual_transaction_account_id is None
                    &&& account@ == old(self)@.new_manual_account(new_id)
                    &&& final(self)@ == old(self)@.with_manual_account(new_id)
                },
            },
    {
        if !self.can_have_manual_transactions() {
            return Err(ChartOfAccountsError::NonLeafAccount(self.spec.code.to_string()));
        }
        if self.manual_transaction_account_id.is_some() {
            return Ok(Idempotent::AlreadyApplied);
        }
        self.manual_transaction_account_id = Some(new_id);
        Ok(
            Idempotent::Executed(
                NewAccount {
                    id: new_id,
                    chart_id: self.chart_id,
                    code: self.spec.code.clone(),
                    name: self.spec.name.clone(),
                    normal_balance_type: self.spec.normal_balance_type,
                },
            ),
        )
    }
}

} // verus!
