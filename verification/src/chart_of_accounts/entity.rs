//! The chart of accounts.
use vstd::prelude::*;

use super::chart_node::{ChartNode, NewAccount, NewAccountSet, NewAccountView, NewChartNode};
use super::error::{ChartOfAccountsError, ChartOfAccountsErrorView};
use super::events::{
    find_closed_as_of, find_posted_as_of, latest_base_config, latest_closed_as_of,
    latest_initialized, latest_posted_as_of, not_before, ChartEvent, ChartEventView,
};
use super::hierarchy_laws::{
    ancestors_are_in_the_chart, climb_ends, climb_is_on_path, climbs, climbs_on,
};
use super::model::{ChartView, NewNodeIds};
use super::nodes::{
    codes, manual_accounts, node_ids, ChartNodeDetails, ChartNodeDetailsView, ChartNodes,
    ChartNodesView,
};
use super::tree::{
    account_set_of, account_set_views, account_sets_of, first_with_code, is_level_under, preorder,
    project_from_nodes, ChartTree, TreeNode,
};
use crate::idempotent::Idempotent;
use crate::primitives::account::{
    option_view, views, AccountIdOrCode, AccountIdOrCodeView, AccountName, AccountSetMember,
    AccountSetMemberView, AccountSpec, AccountSpecView,
};
use crate::primitives::account_code::{dotted, AccountCode, AccountCodeParseError};
use crate::primitives::base_config::{
    AccountCategory, AccountingBaseConfig, ResolvedAccountingBaseConfig,
};
use crate::primitives::closing::{
    ClosingAccountCodes, ClosingAccountSetIds, ClosingTxDetails, ClosingTxParentIdsAndDetails,
    ClosingTxParentIdsAndDetailsView, Date,
};
use crate::primitives::ids::{
    is_uuid_v7, CalaAccountSetId, CalaJournalId, ChartId, ChartNodeId, LedgerAccountId,
};

verus! {

/// A chart of accounts.
#[derive(Debug)]
pub struct Chart {
    pub id: ChartId,
    pub account_set_id: CalaAccountSetId,
    pub reference: String,
    pub name: String,
    pub base_config: Option<AccountingBaseConfig>,
    pub events: Vec<ChartEvent>,
    pub chart_nodes: ChartNodes,
}

impl View for Chart {
    type V = ChartView;

    open spec fn view(&self) -> ChartView {
        ChartView {
            id: self.id,
            account_set_id: self.account_set_id,
            reference: self.reference@,
            name: self.name@,
            base_config: option_view(self.base_config),
            events: views(self.events@),
            nodes: self.chart_nodes@,
        }
    }
}

/// A new account of a chart, and where the ledger puts it.
#[derive(Debug)]
pub struct NewChartAccountDetails {
    pub new_account_set: NewAccountSet,
    pub parent_account_set_id: CalaAccountSetId,
}

/// A new account of a chart with the identifier of its node.
#[derive(Debug)]
pub struct NewAccountSetWithNodeId {
    pub new_account_set: NewAccountSet,
    pub node_id: ChartNodeId,
}

/// What a chart knows of an account for manual transactions.
#[derive(Debug)]
pub enum ManualAccountFromChart {
    IdInChart(LedgerAccountId),
    NonChartId(LedgerAccountId),
    NewAccount((CalaAccountSetId, NewAccount)),
}

/// The value of a `ManualAccountFromChart`.
#[verifier::ext_equal]
pub enum ManualAccountFromChartView {
    IdInChart(LedgerAccountId),
    NonChartId(LedgerAccountId),
    NewAccount(CalaAccountSetId, NewAccountView),
}

impl View for ManualAccountFromChart {
    type V = ManualAccountFromChartView;

    open spec fn view(&self) -> ManualAccountFromChartView {
        match self {
            ManualAccountFromChart::IdInChart(id) => ManualAccountFromChartView::IdInChart(*id),
            ManualAccountFromChart::NonChartId(id) => ManualAccountFromChartView::NonChartId(*id),
            ManualAccountFromChart::NewAccount(account) => {
                ManualAccountFromChartView::NewAccount(account.0, account.1@)
            },
        }
    }
}

/// Something that has to be given was not given.
#[derive(Debug, PartialEq, Eq)]
pub struct UninitializedFieldError {
    pub field_name: String,
}

/// The error of a result, if it is one.
pub open spec fn error_of<T>(res: Result<T, ChartOfAccountsError>) -> Option<
    ChartOfAccountsErrorView,
> {
    match res {
        Ok(_) => None,
        Err(e) => Some(e@),
    }
}

/// What `create_node_with_existing_children` does and answers.
pub open spec fn creates_with_children(
    before: ChartView,
    spec: AccountSpecView,
    journal_id: CalaJournalId,
    children: Seq<ChartNodeId>,
    ids: NewNodeIds,
    after: ChartView,
    res: Idempotent<NewAccountSetWithNodeId>,
) -> bool {
    &&& after == before.after_create_with_children(spec, ids, children)
    &&& match res {
        Idempotent::AlreadyApplied => before.nodes.details(spec.code) is Some,
        Idempotent::Executed(created) => {
            &&& before.nodes.details(spec.code) is None
            &&& created.node_id == ids.node_id
            &&& created.new_account_set@ == before.node_for(spec, ids, children).new_account_set(
                journal_id,
            )
        },
    }
}

/// What `create_node_without_verifying_parent` does and answers.
pub open spec fn creates_node(
    before: ChartView,
    spec: AccountSpecView,
    journal_id: CalaJournalId,
    ids: NewNodeIds,
    after: ChartView,
    res: Idempotent<NewChartAccountDetails>,
) -> bool {
    &&& after == before.after_create(spec, ids)
    &&& match res {
        Idempotent::AlreadyApplied => before.nodes.details(spec.code) is Some,
        Idempotent::Executed(created) => {
            &&& before.nodes.details(spec.code) is None
            &&& created.new_account_set@ == before.node_for(
                spec,
                ids,
                Seq::empty(),
            ).new_account_set(journal_id)
            &&& created.parent_account_set_id == before.stored_parent_account_set(spec.parent)
        },
    }
}

/// The account that `create_child_node` describes, if the chart has its parent.
pub open spec fn child_spec(
    before: ChartView,
    parent_code: Seq<Seq<char>>,
    code: Seq<Seq<char>>,
    name: Seq<char>,
) -> AccountSpecView {
    AccountSpecView {
        parent: Some(parent_code),
        code,
        name,
        normal_balance_type: before.nodes.details(parent_code)->0.spec.normal_balance_type,
    }
}

impl ChartView {
    /// Why `create_child_node` is refused, if it is.
    pub open spec fn child_error(
        self,
        parent_code: Seq<Seq<char>>,
        code: Seq<Seq<char>>,
        name: Seq<char>,
    ) -> Option<ChartOfAccountsErrorView> {
        if self.nodes.details(parent_code) is None {
            Some(ChartOfAccountsErrorView::ParentAccountNotFound(dotted(parent_code)))
        } else if !child_spec(self, parent_code, code, name).has_valid_parent() {
            Some(
                ChartOfAccountsErrorView::AccountCodeParseError(
                    AccountCodeParseError::InvalidParent,
                ),
            )
        } else {
            None
        }
    }
}

/// What `create_child_node` does and answers.
pub open spec fn creates_child(
    before: ChartView,
    parent_code: Seq<Seq<char>>,
    code: Seq<Seq<char>>,
    name: Seq<char>,
    journal_id: CalaJournalId,
    ids: NewNodeIds,
    after: ChartView,
    res: Result<Idempotent<NewChartAccountDetails>, ChartOfAccountsError>,
) -> bool {
    match before.child_error(parent_code, code, name) {
        Some(refused) => {
            &&& after == before
            &&& res matches Err(e)
            &&& e@ == refused
        },
        None => {
            &&& res matches Ok(outcome)
            &&& creates_node(
                before,
                child_spec(before, parent_code, code, name),
                journal_id,
                ids,
                after,
                outcome,
            )
        },
    }
}

/// What `manual_transaction_account` answers.
pub open spec fn manual_account_answer(
    before: ChartView,
    account: AccountIdOrCodeView,
    new_id: LedgerAccountId,
) -> Result<ManualAccountFromChartView, ChartOfAccountsErrorView> {
    match account {
        AccountIdOrCodeView::Id(id) => match manual_accounts(
            before.nodes.persisted,
        ).index_of_first(Some(id)) {
            None => Ok(ManualAccountFromChartView::NonChartId(id)),
            Some(i) => {
                let node = before.nodes.persisted[i];
                if node.can_have_manual_transactions() {
                    Ok(ManualAccountFromChartView::IdInChart(id))
                } else {
                    Err(ChartOfAccountsErrorView::NonLeafAccount(dotted(node.spec.code)))
                }
            },
        },
        AccountIdOrCodeView::Code(code) => match before.nodes.position(code) {
            None => Err(ChartOfAccountsErrorView::CodeNotFoundInChart(code)),
            Some(i) => {
                let node = before.nodes.persisted[i];
                if !node.can_have_manual_transactions() {
                    Err(ChartOfAccountsErrorView::NonLeafAccount(dotted(code)))
                } else {
                    match node.manual_transaction_account_id {
                        Some(id) => Ok(ManualAccountFromChartView::IdInChart(id)),
                        None => Ok(
                            ManualAccountFromChartView::NewAccount(
                                node.account_set_id,
                                node.new_manual_account(new_id),
                            ),
                        ),
                    }
                }
            },
        },
    }
}

/// The chart after `manual_transaction_account`.
pub open spec fn after_manual_account(
    before: ChartView,
    account: AccountIdOrCodeView,
    new_id: LedgerAccountId,
) -> ChartView {
    match (account, manual_account_answer(before, account, new_id)) {
        (
            AccountIdOrCodeView::Code(code),
            Ok(ManualAccountFromChartView::NewAccount(_, _)),
        ) => {
            let i = before.nodes.position(code)->0;
            ChartView {
                nodes: before.nodes.with_persisted(
                    i,
                    before.nodes.persisted[i].with_manual_account(new_id),
                ),
                ..before
            }
        },
        _ => before,
    }
}

/// A tree node as it is listed under another one.
pub open spec fn member_of(node: TreeNode) -> AccountSetMemberView {
    AccountSetMemberView { account_set_id: node.id, code: node.code@, name: node.name@ }
}

/// What a tree lists under the account with a code.
pub open spec fn members_under(top: Seq<TreeNode>, code: Seq<Seq<char>>) -> Seq<
    AccountSetMemberView,
> {
    match first_with_code(preorder(top), code) {
        Some(node) => preorder(node.children@).map_values(|below: TreeNode| member_of(below)),
        None => Seq::empty(),
    }
}

impl ChartView {
    /// `members` is what the chart's tree lists under the account with a code.
    pub open spec fn lists_under(
        self,
        code: Seq<Seq<char>>,
        members: Seq<AccountSetMemberView>,
    ) -> bool {
        exists|top: Seq<TreeNode>|
            #[trigger] is_level_under(self.nodes.persisted, None, top) && members == members_under(
                top,
                code,
            )
    }
}

/// The stored nodes that appear in the trial balance and whose account set is
/// one of the given ones.
pub open spec fn trial_balance_nodes(
    chart: ChartView,
    account_sets: Seq<CalaAccountSetId>,
) -> Seq<CalaAccountSetId> {
    chart.nodes.persisted.filter(
        |node: super::chart_node::ChartNodeView|
            node.is_trial_balance_account() && account_sets.contains(node.account_set_id),
    ).map_values(|node: super::chart_node::ChartNodeView| node.account_set_id)
}

/// The stored nodes among those with the given identifiers, in their order.
pub open spec fn stored_children(
    chart: ChartView,
    ids: Seq<ChartNodeId>,
) -> Seq<(Seq<Seq<char>>, CalaAccountSetId)>
    decreases ids.len(),
{
    if ids.len() == 0 {
        Seq::empty()
    } else {
        let before = stored_children(chart, ids.drop_last());
        match node_ids(chart.nodes.persisted).index_of_first(ids.last()) {
            Some(i) => before.push(
                (chart.nodes.persisted[i].spec.code, chart.nodes.persisted[i].account_set_id),
            ),
            None => before,
        }
    }
}

/// The children of the account with a code.
pub open spec fn children_of(chart: ChartView, code: Seq<Seq<char>>) -> Seq<
    (Seq<Seq<char>>, CalaAccountSetId),
> {
    match chart.nodes.position(code) {
        Some(i) => stored_children(chart, chart.nodes.persisted[i].children),
        None => Seq::empty(),
    }
}

/// Codes and account sets, by their values.
pub open spec fn child_views(children: Seq<(AccountCode, CalaAccountSetId)>) -> Seq<
    (Seq<Seq<char>>, CalaAccountSetId),
> {
    children.map_values(|child: (AccountCode, CalaAccountSetId)| (child.0@, child.1))
}

impl Chart {
    /// Loads stored nodes into the chart.
    pub fn load_nodes(&mut self, nodes: Vec<ChartNode>)
        ensures
            final(self)@ == (ChartView {
                nodes: ChartNodesView {
                    persisted: super::nodes::with_all_loaded(
                        old(self)@.nodes.persisted,
                        views(nodes@),
                    ),
                    ..old(self)@.nodes
                },
                ..old(self)@
            }),
    {
        self.chart_nodes.load(nodes);
    }

    /// Takes note that the chart was stored: its new nodes are stored now.
    pub fn mark_stored(&mut self)
        ensures
            final(self)@ == (ChartView { nodes: old(self)@.nodes.all_stored(), ..old(self)@ }),
    {
        self.chart_nodes.store_new();
    }

    /// What the chart knows of the account with a code.
    pub(crate) fn find_node_details_by_code(&self, code: &AccountCode) -> (res: Option<
        ChartNodeDetails,
    >)
        ensures
            option_view(res) == self@.nodes.details(code@),
    {
        self.chart_nodes.details(code)
    }

    /// Adds an account with children that are in the chart already, under
    /// identifiers that are made up here. An account whose code the chart has
    /// is not added again.
    pub fn create_node_with_existing_children(
        &mut self,
        spec: &AccountSpec,
        journal_id: CalaJournalId,
        children_node_ids: Vec<ChartNodeId>,
    ) -> (res: Idempotent<NewAccountSetWithNodeId>)
        ensures
            exists|ids: NewNodeIds|
                ids.is_v7() && creates_with_children(
                    old(self)@,
                    spec@,
                    journal_id,
                    children_node_ids@,
                    ids,
                    final(self)@,
                    res,
                ),
    {
        let ids: NewNodeIds = new_node_ids();
        self.create_node_with_existing_children_as(ids, spec, journal_id, children_node_ids)
    }

    /// As `create_node_with_existing_children`, under the given identifiers.
    pub fn create_node_with_existing_children_as(
        &mut self,
        ids: NewNodeIds,
        spec: &AccountSpec,
        journal_id: CalaJournalId,
        children_node_ids: Vec<ChartNodeId>,
    ) -> (res: Idempotent<NewAccountSetWithNodeId>)
        ensures
            creates_with_children(
                old(self)@,
                spec@,
                journal_id,
                children_node_ids@,
                ids,
                final(self)@,
                res,
            ),
    {
        if self.find_node_details_by_code(&spec.code).is_some() {
            return Idempotent::AlreadyApplied;
        }
        let chart_node: NewChartNode = NewChartNode {
            id: ids.node_id,
            chart_id: self.id,
            spec: spec.clone(),
            ledger_account_set_id: ids.account_set_id,
            children_node_ids,
        };
        let new_account_set: NewAccountSet = chart_node.new_account_set(journal_id);
        self.chart_nodes.add_new(chart_node);
        Idempotent::Executed(NewAccountSetWithNodeId { new_account_set, node_id: ids.node_id })
    }

    /// Enters a child at the stored node with the parent's code, and gives
    /// that node's account set, or else the chart's.
    pub(crate) fn enter_child(&mut self, parent: &Option<AccountCode>, child: ChartNodeId) -> (res:
        CalaAccountSetId)
        ensures
            final(self)@ == old(self)@.with_child_entered(option_view(*parent), child),
            res == old(self)@.stored_parent_account_set(option_view(*parent)),
    {
        if let Some(parent_code) = parent {
            if let Some(i) = self.chart_nodes.find_persisted(parent_code) {
                return self.chart_nodes.add_child_at(i, child);
            }
        }
        self.account_set_id
    }

    /// Adds an account, under identifiers that are made up here. It is put
    /// under the stored account that its parent code names, or else under the
    /// chart itself. An account whose code the chart has is not added again.
    pub fn create_node_without_verifying_parent(
        &mut self,
        spec: &AccountSpec,
        journal_id: CalaJournalId,
    ) -> (res: Idempotent<NewChartAccountDetails>)
        ensures
            exists|ids: NewNodeIds|
                ids.is_v7() && creates_node(old(self)@, spec@, journal_id, ids, final(self)@, res),
    {
        let ids: NewNodeIds = new_node_ids();
        self.create_node_without_verifying_parent_as(ids, spec, journal_id)
    }

    /// As `create_node_without_verifying_parent`, under the given identifiers.
    pub fn create_node_without_verifying_parent_as(
        &mut self,
        ids: NewNodeIds,
        spec: &AccountSpec,
        journal_id: CalaJournalId,
    ) -> (res: Idempotent<NewChartAccountDetails>)
        ensures
            creates_node(old(self)@, spec@, journal_id, ids, final(self)@, res),
    {
        if self.find_node_details_by_code(&spec.code).is_some() {
            return Idempotent::AlreadyApplied;
        }
        let children_node_ids: Vec<ChartNodeId> = Vec::new();
        let chart_node: NewChartNode = NewChartNode {
            id: ids.node_id,
            chart_id: self.id,
            spec: spec.clone(),
            ledger_account_set_id: ids.account_set_id,
            children_node_ids,
        };
        assert(chart_node@.children_node_ids =~= Seq::empty());
        let parent_account_set_id: CalaAccountSetId = self.enter_child(&spec.parent, ids.node_id);
        let new_account_set: NewAccountSet = chart_node.new_account_set(journal_id);
        self.chart_nodes.add_new(chart_node);
        Idempotent::Executed(NewChartAccountDetails { new_account_set, parent_account_set_id })
    }

    /// Adds an account at the top of the chart, or where its parent code says.
    pub fn create_root_node(&mut self, spec: &AccountSpec, journal_id: CalaJournalId) -> (res:
        Idempotent<NewChartAccountDetails>)
        ensures
            exists|ids: NewNodeIds|
                ids.is_v7() && creates_node(old(self)@, spec@, journal_id, ids, final(self)@, res),
    {
        self.create_node_without_verifying_parent(spec, journal_id)
    }

    /// Adds an account below another one, with the other one's balance side,
    /// under identifiers that are made up here.
    pub fn create_child_node(
        &mut self,
        parent_code: AccountCode,
        code: AccountCode,
        name: AccountName,
        journal_id: CalaJournalId,
    ) -> (res: Result<Idempotent<NewChartAccountDetails>, ChartOfAccountsError>)
        ensures
            exists|ids: NewNodeIds|
                ids.is_v7() && creates_child(
                    old(self)@,
                    parent_code@,
                    code@,
                    name@,
                    journal_id,
                    ids,
                    final(self)@,
                    res,
                ),
    {
        let ids: NewNodeIds = new_node_ids();
        self.create_child_node_as(ids, parent_code, code, name, journal_id)
    }

    /// As `create_child_node`, under the given identifiers.
    pub fn create_child_node_as(
        &mut self,
        ids: NewNodeIds,
        parent_code: AccountCode,
        code: AccountCode,
        name: AccountName,
        journal_id: CalaJournalId,
    ) -> (res: Result<Idempotent<NewChartAccountDetails>, ChartOfAccountsError>)
        ensures
            creates_child(
                old(self)@,
                parent_code@,
                code@,
                name@,
                journal_id,
                ids,
                final(self)@,
                res,
            ),
    {
        match self.find_node_details_by_code(&parent_code) {
            None => Err(ChartOfAccountsError::ParentAccountNotFound(parent_code.to_string())),
            Some(parent) => match AccountSpec::try_new(
                Some(parent_code),
                code.into_sections(),
                name,
                parent.spec.normal_balance_type,
            ) {
                Err(e) => Err(ChartOfAccountsError::AccountCodeParseError(e)),
                Ok(spec) => Ok(
                    self.create_node_without_verifying_parent_as(ids, &spec, journal_id),
                ),
            },
        }
    }

    /// The account sets, out of the given new ones, that belong in the trial
    /// balance.
    pub fn trial_balance_account_ids_from_new_accounts(
        &self,
        new_account_set_ids: &Vec<CalaAccountSetId>,
    ) -> (res: Vec<CalaAccountSetId>)
        ensures
            res@ == trial_balance_nodes(self@, new_account_set_ids@),
    {
        let nodes: &Vec<ChartNode> = self.chart_nodes.iter_persisted();
        let ghost all = self@.nodes.persisted;
        let ghost wanted = |node: super::chart_node::ChartNodeView|
            node.is_trial_balance_account() && new_account_set_ids@.contains(node.account_set_id);
        let ghost account_set = |node: super::chart_node::ChartNodeView| node.account_set_id;
        let mut res: Vec<CalaAccountSetId> = Vec::new();
        let mut i: usize = 0;
        proof {
            reveal(Seq::filter);
            assert(all.take(0) =~= Seq::empty());
            assert(res@ =~= all.take(0).filter(wanted).map_values(account_set));
        }
        while i < nodes.len()
            invariant
                i <= nodes.len(),
                all == views(nodes@),
                wanted == (|node: super::chart_node::ChartNodeView|
                    node.is_trial_balance_account() && new_account_set_ids@.contains(
                        node.account_set_id,
                    )),
                account_set == (|node: super::chart_node::ChartNodeView| node.account_set_id),
                res@ == all.take(i as int).filter(wanted).map_values(account_set),
            decreases nodes.len() - i,
        {
            let node: &ChartNode = &nodes[i];
            assert(all[i as int] == node@);
            let ghost before = res@;
            if node.is_trial_balance_account() && holds_account_set_id(
                new_account_set_ids,
                node.account_set_id,
            ) {
                res.push(node.account_set_id);
            }
            proof {
                reveal(Seq::filter);
                let longer = all.take(i + 1);
                let kept = all.take(i as int).filter(wanted);
                assert(longer.drop_last() =~= all.take(i as int));
                assert(longer.last() == node@);
                if wanted(node@) {
                    assert(kept.push(node@).map_values(account_set) =~= before.push(
                        node@.account_set_id,
                    ));
                }
            }
            i = i + 1;
        }
        assert(all.take(i as int) =~= all);
        res
    }

    /// The given account set, if it belongs in the trial balance.
    pub fn trial_balance_account_id_from_new_account(
        &self,
        new_account_set_id: CalaAccountSetId,
    ) -> (res: Option<CalaAccountSetId>)
        ensures
            res == (if exists|i: int|
                0 <= i < self@.nodes.persisted.len()
                    && (#[trigger] self@.nodes.persisted[i]).is_trial_balance_account()
                    && self@.nodes.persisted[i].account_set_id == new_account_set_id {
                Some(new_account_set_id)
            } else {
                None
            }),
    {
        let nodes: &Vec<ChartNode> = self.chart_nodes.iter_persisted();
        let ghost all = self@.nodes.persisted;
        let mut i: usize = 0;
        while i < nodes.len()
            invariant
                i <= nodes.len(),
                all == views(nodes@),
                all == self@.nodes.persisted,
                forall|j: int|
                    0 <= j < i ==> !((#[trigger] all[j]).is_trial_balance_account()
                        && all[j].account_set_id == new_account_set_id),
            decreases nodes.len() - i,
        {
            let node: &ChartNode = &nodes[i];
            assert(all[i as int] == node@);
            if node.is_trial_balance_account() && node.account_set_id == new_account_set_id {
                return Some(new_account_set_id);
            }
            i = i + 1;
        }
        None
    }

    /// Whether whoever follows the parents of the account comes to an end.
    pub fn has_finite_ancestry(&self, code: &AccountCode) -> (res: bool)
        ensures
            res == self@.has_finite_ancestry(code@),
    {
        let from: ChartNodeDetails = match self.find_node_details_by_code(code) {
            Some(details) => details,
            None => {
                assert(self@.is_ancestor_path(code@, Seq::empty()));
                return true;
            },
        };
        let ghost start = from@;
        let ghost mut met: Seq<ChartNodeDetailsView> = Seq::empty();
        let stored: usize = self.chart_nodes.iter_persisted().len();
        let added: usize = self.chart_nodes.iter_new().len();
        let mut current: ChartNodeDetails = from;
        let mut left_stored: usize = stored;
        let mut left_new: usize = added;
        loop
            invariant
                self@.nodes.details(code@) == Some(start),
                climbs(self@, start, met, current@),
                stored == self@.nodes.persisted.len(),
                added == self@.nodes.new.len(),
                left_stored <= stored,
                left_new <= added,
                met.len() == (stored - left_stored) + (added - left_new),
            decreases left_stored + left_new,
        {
            let parent: Option<ChartNodeDetails> = match &current.spec.parent {
                Some(parent_code) => self.find_node_details_by_code(parent_code),
                None => None,
            };
            match parent {
                None => {
                    proof {
                        climb_ends(self@, start, met, current@);
                        assert(self@.is_ancestor_path(code@, met));
                    }
                    return true;
                },
                Some(details) => {
                    proof {
                        climbs_on(self@, start, met, current@, details@);
                        met = met.push(details@);
                    }
                    if left_stored > 0 {
                        left_stored = left_stored - 1;
                    } else if left_new > 0 {
                        left_new = left_new - 1;
                    } else {
                        proof {
                            assert forall|path: Seq<ChartNodeDetailsView>|
                                !self@.is_ancestor_path(code@, path) by {
                                if self@.is_ancestor_path(code@, path) {
                                    climb_is_on_path(self@, start, met, details@, path);
                                    ancestors_are_in_the_chart(self@, start, path);
                                }
                            }
                        }
                        return false;
                    }
                    current = details;
                },
            }
        }
    }

    /// The account sets of the ancestors of the account with a code, which is
    /// not among them. The lower in the hierarchy an ancestor is, the lower is
    /// its index; the root comes last.
    pub fn ancestor_account_sets(&self, code: &AccountCode) -> (res: Vec<CalaAccountSetId>)
        requires
            self@.has_finite_ancestry(code@),
        ensures
            exists|path: Seq<ChartNodeDetailsView>|
                self@.is_ancestor_path(code@, path) && res@ == path.map_values(
                    |details: ChartNodeDetailsView| details.account_set_id,
                ),
    {
        let mut res: Vec<CalaAccountSetId> = Vec::new();
        let ghost path = choose|path: Seq<ChartNodeDetailsView>|
            self@.is_ancestor_path(code@, path);
        let mut current: Option<ChartNodeDetails> = self.find_node_details_by_code(code);
        proof {
            assert(path.skip(0) =~= path);
        }
        let ghost mut done: int = 0;
        while current.is_some()
            invariant
                self@.is_ancestor_path(code@, path),
                0 <= done <= path.len(),
                res.len() == done,
                forall|j: int| 0 <= j < done ==> #[trigger] res@[j] == path[j].account_set_id,
                match current {
                    Some(details) => self@.is_path_above(details@, path.skip(done)),
                    None => done == path.len(),
                },
            decreases path.len() - done + (if current is Some { 1int } else { 0int }),
        {
            let parent: Option<ChartNodeDetails> = match &current {
                Some(details) => match &details.spec.parent {
                    Some(parent_code) => self.find_node_details_by_code(parent_code),
                    None => None,
                },
                None => None,
            };
            match &parent {
                Some(details) => {
                    res.push(details.account_set_id);
                    proof {
                        assert(path.skip(done)[0] == path[done]);
                        assert(path.skip(done).drop_first() =~= path.skip(done + 1));
                        done = done + 1;
                    }
                },
                None => {},
            }
            current = parent;
        }
        assert(res@ =~= path.map_values(|details: ChartNodeDetailsView| details.account_set_id));
        res
    }

    /// As `ancestor_account_sets`, with each account set converted.
    pub fn ancestors<T: From<CalaAccountSetId>>(&self, code: &AccountCode) -> (res: Vec<T>)
        requires
            self@.has_finite_ancestry(code@),
        ensures
            exists|path: Seq<ChartNodeDetailsView>|
                self@.is_ancestor_path(code@, path) && res.len() == path.len() && forall|i: int|
                    0 <= i < path.len() ==> call_ensures(
                        T::from,
                        ((#[trigger] path[i]).account_set_id,),
                        res@[i],
                    ),
    {
        let ids: Vec<CalaAccountSetId> = self.ancestor_account_sets(code);
        let ghost path = choose|path: Seq<ChartNodeDetailsView>|
            self@.is_ancestor_path(code@, path) && ids@ == path.map_values(
                |details: ChartNodeDetailsView| details.account_set_id,
            );
        let mut res: Vec<T> = Vec::new();
        let mut i: usize = 0;
        while i < ids.len()
            invariant
                i <= ids.len(),
                res.len() == i,
                ids@ == path.map_values(|details: ChartNodeDetailsView| details.account_set_id),
                forall|j: int|
                    0 <= j < i ==> call_ensures(
                        T::from,
                        ((#[trigger] path[j]).account_set_id,),
                        res@[j],
                    ),
            decreases ids.len() - i,
        {
            let ghost before = res@;
            assert(ids@[i as int] == path[i as int].account_set_id);
            res.push(T::from(ids[i]));
            assert forall|j: int| 0 <= j < i + 1 implies call_ensures(
                T::from,
                ((#[trigger] path[j]).account_set_id,),
                res@[j],
            ) by {
                if j < i {
                    assert(res@[j] == before[j]);
                }
            }
            i = i + 1;
        }
        res
    }

    /// The children of the account with a code, which is not among them: the
    /// code and the account set of each one that is stored.
    pub fn children(&self, code: &AccountCode) -> (res: Vec<(AccountCode, CalaAccountSetId)>)
        ensures
            child_views(res@) == children_of(self@, code@),
    {
        let mut res: Vec<(AccountCode, CalaAccountSetId)> = Vec::new();
        assert(child_views(res@) =~= Seq::empty());
        if let Some(at) = self.chart_nodes.find_persisted(code) {
            let nodes: &Vec<ChartNode> = self.chart_nodes.iter_persisted();
            let ids: &Vec<ChartNodeId> = &nodes[at].children;
            assert(self@.nodes.persisted[at as int].children == ids@);
            let mut i: usize = 0;
            assert(ids@.take(0) =~= Seq::empty());
            while i < ids.len()
                invariant
                    i <= ids.len(),
                    views(nodes@) == self@.nodes.persisted,
                    child_views(res@) == stored_children(self@, ids@.take(i as int)),
                decreases ids.len() - i,
            {
                let ghost before = res@;
                proof {
                    assert(ids@.take(i + 1).drop_last() =~= ids@.take(i as int));
                }
                if let Some(j) = self.chart_nodes.get_persisted(ids[i]) {
                    assert(self@.nodes.persisted[j as int] == nodes@[j as int]@);
                    res.push((nodes[j].spec.code.clone(), nodes[j].account_set_id));
                    assert(child_views(res@) =~= child_views(before).push(
                        (nodes@[j as int]@.spec.code, nodes@[j as int].account_set_id),
                    ));
                }
                i = i + 1;
            }
            assert(ids@.take(i as int) =~= ids@);
        }
        res
    }

    /// The account set of the account with a code.
    pub fn account_set_id_from_code(&self, code: &AccountCode) -> (res: Result<
        CalaAccountSetId,
        ChartOfAccountsError,
    >)
        ensures
            match res {
                Ok(id) => self@.account_set(code@) == Some(id),
                Err(e) => self@.account_set(code@) is None && e@
                    == ChartOfAccountsErrorView::CodeNotFoundInChart(code@),
            },
    {
        match self.find_node_details_by_code(code) {
            Some(details) => Ok(details.account_set_id),
            None => Err(ChartOfAccountsError::CodeNotFoundInChart(code.clone())),
        }
    }

    /// The account set of the account with a code, if there is one.
    pub fn maybe_account_set_id_from_code(&self, code: &AccountCode) -> (res: Option<
        CalaAccountSetId,
    >)
        ensures
            res == self@.account_set(code@),
    {
        match self.find_node_details_by_code(code) {
            Some(details) => Some(details.account_set_id),
            None => None,
        }
    }

    /// The account set of the account with a code, if the account is in the
    /// given category.
    pub fn accounting_validated_account_set_id(
        &self,
        code: &AccountCode,
        category: AccountCategory,
    ) -> (res: Result<CalaAccountSetId, ChartOfAccountsError>)
        ensures
            match (self@.account_set(code@), self@.base_config) {
                (None, _) => {
                    &&& res matches Err(e)
                    &&& e@ == ChartOfAccountsErrorView::CodeNotFoundInChart(code@)
                },
                (Some(_), None) => {
                    &&& res matches Err(e)
                    &&& e@ == ChartOfAccountsErrorView::BaseConfigNotInitialized
                },
                (Some(id), Some(config)) => if config.in_category(code@, category) {
                    res == Ok::<CalaAccountSetId, ChartOfAccountsError>(id)
                } else {
                    &&& res matches Err(e)
                    &&& e@ == ChartOfAccountsErrorView::InvalidAccountCategory {
                        code: code@,
                        category,
                    }
                },
            },
    {
        match self.account_set_id_from_code(code) {
            Err(e) => Err(e),
            Ok(id) => match &self.base_config {
                None => Err(ChartOfAccountsError::BaseConfigNotInitialized),
                Some(base_config) => if base_config.is_account_in_category(code, category) {
                    Ok(id)
                } else {
                    Err(
                        ChartOfAccountsError::InvalidAccountCategory {
                            code: code.clone(),
                            category,
                        },
                    )
                },
            },
        }
    }

    /// Finds the account for manual transactions that an identifier or a code
    /// stands for, or enters a new one, under an identifier that is made up
    /// here.
    pub fn manual_transaction_account(&mut self, account_id_or_code: AccountIdOrCode) -> (res:
        Result<ManualAccountFromChart, ChartOfAccountsError>)
        ensures
            exists|new_id: LedgerAccountId|
                {
                    &&& is_uuid_v7(new_id.0)
                    &&& final(self)@ == #[trigger] after_manual_account(
                        old(self)@,
                        account_id_or_code@,
                        new_id,
                    )
                    &&& match res {
                        Ok(found) => manual_account_answer(old(self)@, account_id_or_code@, new_id)
                            == Ok::<ManualAccountFromChartView, ChartOfAccountsErrorView>(found@),
                        Err(e) => manual_account_answer(old(self)@, account_id_or_code@, new_id)
                            == Err::<ManualAccountFromChartView, ChartOfAccountsErrorView>(e@),
                    }
                },
    {
        let new_id: LedgerAccountId = LedgerAccountId::new();
        self.manual_transaction_account_as(new_id, account_id_or_code)
    }

    /// As `manual_transaction_account`, with the identifier for a new account.
    pub fn manual_transaction_account_as(
        &mut self,
        new_id: LedgerAccountId,
        account_id_or_code: AccountIdOrCode,
    ) -> (res: Result<ManualAccountFromChart, ChartOfAccountsError>)
        ensures
            final(self)@ == after_manual_account(old(self)@, account_id_or_code@, new_id),
            match res {
                Ok(found) => manual_account_answer(old(self)@, account_id_or_code@, new_id) == Ok::<
                    ManualAccountFromChartView,
                    ChartOfAccountsErrorView,
                >(found@),
                Err(e) => manual_account_answer(old(self)@, account_id_or_code@, new_id) == Err::<
                    ManualAccountFromChartView,
                    ChartOfAccountsErrorView,
                >(e@),
            },
    {
        match account_id_or_code {
            AccountIdOrCode::Id(id) => {
                match self.chart_nodes.find_manual_account(id) {
                    Some(i) => {
                        let node: &ChartNode = &self.chart_nodes.iter_persisted()[i];
                        assert(self@.nodes.persisted[i as int] == node@);
                        // The account may have got children since it was assigned.
                        if node.can_have_manual_transactions() {
                            Ok(ManualAccountFromChart::IdInChart(id))
                        } else {
                            Err(ChartOfAccountsError::NonLeafAccount(node.spec.code.to_string()))
                        }
                    },
                    None => Ok(ManualAccountFromChart::NonChartId(id)),
                }
            },
            AccountIdOrCode::Code(code) => {
                match self.chart_nodes.find_persisted(&code) {
                    None => Err(ChartOfAccountsError::CodeNotFoundInChart(code)),
                    Some(i) => {
                        proof {
                            codes(self@.nodes.persisted).index_of_first_ensures(code@);
                        }
                        self.chart_nodes.assign_manual_account_at(i, new_id)
                    },
                }
            },
        }
    }

    /// The stored accounts as a tree.
    pub fn chart(&self) -> (res: ChartTree)
        requires
            codes(self@.nodes.persisted).no_duplicates(),
        ensures
            res.id == self@.id,
            res.name@ == self@.name,
            is_level_under(self@.nodes.persisted, None, res.children@),
    {
        project_from_nodes(self.id, self.name.as_str(), self.chart_nodes.iter_persisted())
    }

    /// The account sets below the account with a code, which is not among
    /// them. Each is followed by those below it.
    pub fn account_sets_under_code(&self, code: &AccountCode) -> (res: Vec<AccountSetMember>)
        requires
            codes(self@.nodes.persisted).no_duplicates(),
        ensures
            self@.lists_under(code@, views(res@)),
    {
        let tree: ChartTree = self.chart();
        let mut res: Vec<AccountSetMember> = Vec::new();
        if let Some(node) = tree.find_node_by_code(code) {
            let listed: Vec<(CalaAccountSetId, AccountCode, AccountName)> =
                node.descendant_account_sets();
            let ghost below = preorder(node.children@);
            let mut i: usize = 0;
            while i < listed.len()
                invariant
                    i <= listed.len(),
                    account_set_views(listed@) == account_sets_of(below),
                    res.len() == i,
                    forall|j: int| 0 <= j < i ==> #[trigger] res@[j]@ == member_of(below[j]),
                decreases listed.len() - i,
            {
                proof {
                    assert(account_set_views(listed@).len() == listed@.len());
                    assert(account_sets_of(below)[i as int] == account_set_of(below[i as int]));
                    assert(account_set_views(listed@)[i as int] == (
                        listed@[i as int].0,
                        listed@[i as int].1@,
                        listed@[i as int].2@,
                    ));
                }
                let item: &(CalaAccountSetId, AccountCode, AccountName) = &listed[i];
                res.push(
                    AccountSetMember {
                        account_set_id: item.0,
                        code: item.1.clone(),
                        name: item.2.clone(),
                    },
                );
                i = i + 1;
            }
            proof {
                assert(account_set_views(listed@).len() == account_sets_of(below).len());
                assert(views(res@) =~= members_under(tree.children@, code@));
            }
        } else {
            assert(views(res@) =~= members_under(tree.children@, code@));
        }
        res
    }

    /// The code that stands for a category.
    pub fn code_for_category(&self, category: AccountCategory) -> (res: Result<
        &AccountCode,
        ChartOfAccountsError,
    >)
        ensures
            match self@.base_config {
                None => {
                    &&& res matches Err(e)
                    &&& e@ == ChartOfAccountsErrorView::BaseConfigNotInitialized
                },
                Some(config) => match config.code_for_category(category) {
                    Some(code) => res matches Ok(found) && found@ == code,
                    None => {
                        &&& res matches Err(e)
                        &&& e@ == ChartOfAccountsErrorView::AccountCategoryNotSupported(category)
                    },
                },
            },
    {
        match &self.base_config {
            None => Err(ChartOfAccountsError::BaseConfigNotInitialized),
            Some(base_config) => match base_config.code_for_category(category) {
                Some(code) => Ok(code),
                None => Err(ChartOfAccountsError::AccountCategoryNotSupported(category)),
            },
        }
    }

    /// The base configuration with the account sets of its codes, once it is
    /// set.
    pub fn resolve_accounting_base_config(&self) -> (res: Option<ResolvedAccountingBaseConfig>)
        requires
            self@.base_config matches Some(config) ==> self@.has_codes_of(config),
        ensures
            option_view(res) == (match self@.base_config {
                Some(config) => Some(self@.resolved(config)),
                None => None,
            }),
    {
        let config: AccountingBaseConfig = match &self.base_config {
            Some(config) => config.clone(),
            None => {
                return None;
            },
        };
        Some(
            ResolvedAccountingBaseConfig {
                assets: self.known_account_set_id(&config.assets_code),
                liabilities: self.known_account_set_id(&config.liabilities_code),
                equity: self.known_account_set_id(&config.equity_code),
                equity_retained_earnings_gain: self.known_account_set_id(
                    &config.equity_retained_earnings_gain_code,
                ),
                equity_retained_earnings_loss: self.known_account_set_id(
                    &config.equity_retained_earnings_loss_code,
                ),
                revenue: self.known_account_set_id(&config.revenue_code),
                cost_of_revenue: self.known_account_set_id(&config.cost_of_revenue_code),
                expenses: self.known_account_set_id(&config.expenses_code),
                config,
            },
        )
    }

    /// The account set of an account that the chart has.
    fn known_account_set_id(&self, code: &AccountCode) -> (res: CalaAccountSetId)
        requires
            self@.nodes.details(code@) is Some,
        ensures
            self@.account_set(code@) == Some(res),
    {
        match self.maybe_account_set_id_from_code(code) {
            Some(id) => id,
            None => vstd::pervasive::unreached(),
        }
    }

    /// Whether a base configuration fits the chart.
    pub(crate) fn check_base_config_codes_exists_in_chart(
        &self,
        base_config: &AccountingBaseConfig,
    ) -> (res: Result<(), ChartOfAccountsError>)
        ensures
            error_of(res) == self@.base_config_error(base_config@),
    {
        self.check_top_level_account_code(&base_config.assets_code)?;
        self.check_top_level_account_code(&base_config.liabilities_code)?;
        self.check_top_level_account_code(&base_config.equity_code)?;
        self.check_top_level_account_code(&base_config.revenue_code)?;
        self.check_top_level_account_code(&base_config.cost_of_revenue_code)?;
        self.check_top_level_account_code(&base_config.expenses_code)?;
        self.account_set_id_from_code(&base_config.equity_retained_earnings_gain_code)?;
        self.account_set_id_from_code(&base_config.equity_retained_earnings_loss_code)?;
        Ok(())
    }

    /// Whether a code is that of an account without a parent.
    fn check_top_level_account_code(&self, code: &AccountCode) -> (res: Result<
        (),
        ChartOfAccountsError,
    >)
        ensures
            error_of(res) == self@.top_level_error(code@),
    {
        match self.find_node_details_by_code(code) {
            None => Err(ChartOfAccountsError::CodeNotFoundInChart(code.clone())),
            Some(details) => if details.spec.parent.is_some() {
                Err(ChartOfAccountsError::AccountCodeHasInvalidParent(code.to_string()))
            } else {
                Ok(())
            },
        }
    }

    /// Whether no code stands for two stored accounts.
    pub fn has_unique_codes(&self) -> (res: bool)
        ensures
            res == codes(self@.nodes.persisted).no_duplicates(),
    {
        let nodes: &Vec<ChartNode> = self.chart_nodes.iter_persisted();
        let ghost all = codes(self@.nodes.persisted);
        let mut i: usize = 0;
        while i < nodes.len()
            invariant
                i <= nodes.len(),
                all == codes(views(nodes@)),
                all == codes(self@.nodes.persisted),
                forall|a: int, b: int| 0 <= a < b < i ==> all[a] != all[b],
            decreases nodes.len() - i,
        {
            let mut j: usize = 0;
            while j < i
                invariant
                    j <= i < nodes.len(),
                    all == codes(views(nodes@)),
                    all == codes(self@.nodes.persisted),
                    forall|a: int| 0 <= a < j ==> all[a] != all[i as int],
                decreases i - j,
            {
                if nodes[j].spec.code.same(&nodes[i].spec.code) {
                    assert(all[j as int] == all[i as int]);
                    return false;
                }
                assert(all[j as int] != all[i as int]);
                j = j + 1;
            }
            i = i + 1;
        }
        true
    }

    /// Whether the chart has an account for each code of its base
    /// configuration.
    pub fn resolves_base_config(&self) -> (res: bool)
        ensures
            res == (self@.base_config matches Some(config) ==> self@.has_codes_of(config)),
    {
        match &self.base_config {
            None => true,
            Some(config) => self.has_code(&config.assets_code) && self.has_code(
                &config.liabilities_code,
            ) && self.has_code(&config.equity_code) && self.has_code(
                &config.equity_retained_earnings_gain_code,
            ) && self.has_code(&config.equity_retained_earnings_loss_code) && self.has_code(
                &config.revenue_code,
            ) && self.has_code(&config.cost_of_revenue_code) && self.has_code(
                &config.expenses_code,
            ),
        }
    }

    /// Whether no code stands for two stored accounts and the chart has an
    /// account for each code of its base configuration.
    pub fn is_usable(&self) -> (res: bool)
        ensures
            res == self@.is_usable(),
    {
        self.has_unique_codes() && self.resolves_base_config()
    }

    /// Whether the chart has an account with a code.
    fn has_code(&self, code: &AccountCode) -> (res: bool)
        ensures
            res == (self@.nodes.details(code@) is Some),
    {
        self.find_node_details_by_code(code).is_some()
    }

    /// Closes the chart as of a day, unless it is closed as of that day or a
    /// later one.
    pub fn close_as_of(&mut self, closed_as_of: Date) -> (res: Idempotent<Date>)
        ensures
            final(self)@ == old(self)@.after_close(closed_as_of),
            res == if not_before(latest_closed_as_of(old(self)@.events), closed_as_of) {
                Idempotent::AlreadyApplied
            } else {
                Idempotent::Executed(closed_as_of)
            },
    {
        if let Some(previous) = find_closed_as_of(&self.events) {
            if !previous.precedes(&closed_as_of) {
                return Idempotent::AlreadyApplied;
            }
        }
        self.push_event(ChartEvent::ClosedAsOf { closed_as_of });
        Idempotent::Executed(closed_as_of)
    }

    /// The account sets of the closing codes.
    fn closing_account_set_ids_from_codes(&self, account_codes: ClosingAccountCodes) -> (res:
        Result<ClosingAccountSetIds, ChartOfAccountsError>)
        ensures
            error_of(res) == self@.closing_codes_error(account_codes@),
            res matches Ok(ids) ==> ids == self@.closing_account_sets(account_codes@),
    {
        let revenue: CalaAccountSetId = self.account_set_id_from_code(&account_codes.revenue)?;
        let cost_of_revenue: CalaAccountSetId = self.account_set_id_from_code(
            &account_codes.cost_of_revenue,
        )?;
        let expenses: CalaAccountSetId = self.account_set_id_from_code(&account_codes.expenses)?;
        let equity_retained_earnings: CalaAccountSetId = self.account_set_id_from_code(
            &account_codes.equity_retained_earnings,
        )?;
        let equity_retained_losses: CalaAccountSetId = self.account_set_id_from_code(
            &account_codes.equity_retained_losses,
        )?;
        Ok(
            ClosingAccountSetIds {
                revenue,
                cost_of_revenue,
                expenses,
                equity_retained_earnings,
                equity_retained_losses,
            },
        )
    }

    /// Enters the closing transaction of a day, unless one was entered for
    /// that day or a later one.
    pub fn post_closing_tx_as_of(
        &mut self,
        account_codes: ClosingAccountCodes,
        tx_details: ClosingTxDetails,
    ) -> (res: Result<Idempotent<ClosingTxParentIdsAndDetails>, ChartOfAccountsError>)
        ensures
            final(self)@ == old(self)@.after_post(account_codes@, tx_details.posted_as_of),
            error_of(res) == old(self)@.closing_codes_error(account_codes@),
            res matches Ok(outcome) ==> match outcome {
                Idempotent::AlreadyApplied => not_before(
                    latest_posted_as_of(old(self)@.events),
                    tx_details.posted_as_of,
                ),
                Idempotent::Executed(params) => !not_before(
                    latest_posted_as_of(old(self)@.events),
                    tx_details.posted_as_of,
                ) && params@ == (ClosingTxParentIdsAndDetailsView {
                    parent_ids: old(self)@.closing_account_sets(account_codes@),
                    tx_details: tx_details@,
                }),
            },
    {
        let parent_ids: ClosingAccountSetIds = self.closing_account_set_ids_from_codes(
            account_codes,
        )?;
        let closing_tx_params: ClosingTxParentIdsAndDetails = ClosingTxParentIdsAndDetails::new(
            parent_ids,
            tx_details,
        );
        let posted_as_of: Date = closing_tx_params.posted_as_of();
        if let Some(previous) = find_posted_as_of(&self.events) {
            if !previous.precedes(&posted_as_of) {
                return Ok(Idempotent::AlreadyApplied);
            }
        }
        self.push_event(ChartEvent::ClosingTransactionPosted { posted_as_of });
        Ok(Idempotent::Executed(closing_tx_params))
    }

    /// Adds an event.
    fn push_event(&mut self, event: ChartEvent)
        ensures
            final(self)@ == old(self)@.with_event(event@),
    {
        let ghost before = self.events@;
        self.events.push(event);
        assert(views(self.events@) =~= views(before).push(event@));
    }

    /// Sets the base configuration.
    pub(crate) fn set_base_config(&mut self, base_config: AccountingBaseConfig)
        ensures
            final(self)@ == old(self)@.with_base_config(base_config@),
    {
        self.push_event(ChartEvent::BaseConfigSet { base_config: base_config.clone() });
        self.base_config = Some(base_config);
    }

    /// Makes a chart out of its events: what it is called is what the last
    /// event that initialized it says, and its base configuration is the one
    /// that was set last.
    pub fn try_from_events(events: Vec<ChartEvent>) -> (res: Result<Self, UninitializedFieldError>)
        ensures
            match ChartView::from_events(views(events@)) {
                Some(value) => {
                    &&& res matches Ok(chart)
                    &&& chart@ == value
                },
                None => {
                    &&& res matches Err(e)
                    &&& e.field_name@ == "id"@
                },
            },
    {
        let ghost all = views(events@);
        let mut found: Option<(ChartId, CalaAccountSetId, String, String)> = None;
        let mut base_config: Option<AccountingBaseConfig> = None;
        let mut i: usize = 0;
        assert(all.take(0) =~= Seq::empty());
        while i < events.len()
            invariant
                i <= events.len(),
                all == views(events@),
                option_view(base_config) == latest_base_config(all.take(i as int)),
                match latest_initialized(all.take(i as int)) {
                    Some(ChartEventView::Initialized { id, account_set_id, name, reference }) => {
                        &&& found matches Some(fields)
                        &&& fields.0 == id
                        &&& fields.1 == account_set_id
                        &&& fields.2@ == name
                        &&& fields.3@ == reference
                    },
                    _ => found is None,
                },
            decreases events.len() - i,
        {
            proof {
                assert(all.take(i + 1).drop_last() =~= all.take(i as int));
                assert(all.take(i + 1).last() == events@[i as int]@);
            }
            match &events[i] {
                ChartEvent::Initialized { id, account_set_id, name, reference } => {
                    found = Some((*id, *account_set_id, name.clone(), reference.clone()));
                },
                ChartEvent::BaseConfigSet { base_config: config } => {
                    base_config = Some(config.clone());
                },
                ChartEvent::ClosedAsOf { closed_as_of: _ } => {},
                ChartEvent::ClosingTransactionPosted { posted_as_of: _ } => {},
            }
            i = i + 1;
        }
        assert(all.take(i as int) =~= all);
        match found {
            Some((id, account_set_id, name, reference)) => Ok(
                Chart {
                    id,
                    account_set_id,
                    reference,
                    name,
                    base_config,
                    events,
                    chart_nodes: ChartNodes::empty(),
                },
            ),
            None => Err(UninitializedFieldError { field_name: "id".to_owned() }),
        }
    }

    /// The base configuration, once it is set.
    pub fn accounting_base_config(&self) -> (res: Option<AccountingBaseConfig>)
        ensures
            option_view(res) == self@.base_config,
    {
        match &self.base_config {
            Some(config) => Some(config.clone()),
            None => None,
        }
    }
}

/// What a chart is made from.
#[derive(Debug, PartialEq, Eq)]
pub struct NewChart {
    pub id: ChartId,
    pub account_set_id: CalaAccountSetId,
    pub name: String,
    pub reference: String,
}

impl NewChart {
    /// Nothing is given yet.
    pub fn builder() -> (res: NewChartBuilder)
        ensures
            res.id is None,
            res.account_set_id is None,
            res.name is None,
            res.reference is None,
    {
        NewChartBuilder { id: None, account_set_id: None, name: None, reference: None }
    }

    /// The event that the chart begins with.
    pub fn into_events(self) -> (res: Vec<ChartEvent>)
        ensures
            views(res@) == seq![
                ChartEventView::Initialized {
                    id: self.id,
                    account_set_id: self.account_set_id,
                    name: self.name@,
                    reference: self.reference@,
                },
            ],
    {
        let mut events: Vec<ChartEvent> = Vec::new();
        events.push(
            ChartEvent::Initialized {
                id: self.id,
                account_set_id: self.account_set_id,
                name: self.name,
                reference: self.reference,
            },
        );
        assert(views(events@) =~= seq![events@[0]@]);
        events
    }
}

/// What is given of a new chart so far.
#[derive(Debug)]
pub struct NewChartBuilder {
    pub id: Option<ChartId>,
    pub account_set_id: Option<CalaAccountSetId>,
    pub name: Option<String>,
    pub reference: Option<String>,
}

impl NewChartBuilder {
    /// Gives the chart's identifier.
    pub fn id(self, id: ChartId) -> (res: Self)
        ensures
            res == (NewChartBuilder { id: Some(id), ..self }),
    {
        NewChartBuilder { id: Some(id), ..self }
    }

    /// Gives the chart's account set.
    pub fn account_set_id(self, account_set_id: CalaAccountSetId) -> (res: Self)
        ensures
            res == (NewChartBuilder { account_set_id: Some(account_set_id), ..self }),
    {
        NewChartBuilder { account_set_id: Some(account_set_id), ..self }
    }

    /// Gives the chart's name.
    pub fn name(self, name: String) -> (res: Self)
        ensures
            res == (NewChartBuilder { name: Some(name), ..self }),
    {
        NewChartBuilder { name: Some(name), ..self }
    }

    /// Gives the chart's reference.
    pub fn reference(self, reference: String) -> (res: Self)
        ensures
            res == (NewChartBuilder { reference: Some(reference), ..self }),
    {
        NewChartBuilder { reference: Some(reference), ..self }
    }

    /// The new chart, or the first thing that was not given.
    pub fn build(self) -> (res: Result<NewChart, UninitializedFieldError>)
        ensures
            match res {
                Ok(chart) => self == (NewChartBuilder {
                    id: Some(chart.id),
                    account_set_id: Some(chart.account_set_id),
                    name: Some(chart.name),
                    reference: Some(chart.reference),
                }),
                Err(e) => if self.id is None {
                    e.field_name@ == "id"@
                } else if self.account_set_id is None {
                    e.field_name@ == "account_set_id"@
                } else if self.name is None {
                    e.field_name@ == "name"@
                } else {
                    self.reference is None && e.field_name@ == "reference"@
                },
            },
    {
        let missing: &str = match (self.id, self.account_set_id, self.name, self.reference) {
            (Some(id), Some(account_set_id), Some(name), Some(reference)) => {
                return Ok(NewChart { id, account_set_id, name, reference });
            },
            (None, _, _, _) => "id",
            (_, None, _, _) => "account_set_id",
            (_, _, None, _) => "name",
            _ => "reference",
        };
        Err(UninitializedFieldError { field_name: missing.to_owned() })
    }
}

/// Whether a list holds an identifier.
fn holds_account_set_id(ids: &Vec<CalaAccountSetId>, id: CalaAccountSetId) -> (res: bool)
    ensures
        res == ids@.contains(id),
{
    let mut i: usize = 0;
    while i < ids.len()
        invariant
            i <= ids.len(),
            forall|j: int| 0 <= j < i ==> ids@[j] != id,
        decreases ids.len() - i,
    {
        if ids[i] == id {
            return true;
        }
        i = i + 1;
    }
    false
}

/// Identifiers for a new node.
pub(crate) fn new_node_ids() -> (res: NewNodeIds)
    ensures
        res.is_v7(),
{
    NewNodeIds { node_id: ChartNodeId::new(), account_set_id: CalaAccountSetId::new() }
}

} // verus!
