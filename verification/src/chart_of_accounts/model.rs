//! What a chart of accounts is, and what each operation makes of it.
use vstd::prelude::*;

use super::chart_node::{NewAccountSetView, NewChartNodeView};
use super::error::ChartOfAccountsErrorView;
use super::events::{
    latest_base_config, latest_closed_as_of, latest_initialized, latest_posted_as_of, not_before,
    ChartEventView,
};
use super::nodes::{codes, ChartNodeDetailsView, ChartNodesView};
use crate::primitives::account::AccountSpecView;
use crate::primitives::account_code::{code_precedes, dotted};
use crate::primitives::base_config::{AccountingBaseConfigView, ResolvedAccountingBaseConfigView};
use crate::primitives::closing::{ClosingAccountCodesView, ClosingAccountSetIds, Date};
use crate::primitives::ids::{is_uuid_v7, CalaAccountSetId, CalaJournalId, ChartId, ChartNodeId};

verus! {

/// The identifiers that a node is created with.
#[derive(Debug, Clone, Copy, PartialEq, Eq, Structural)]
pub struct NewNodeIds {
    pub node_id: ChartNodeId,
    pub account_set_id: CalaAccountSetId,
}

impl NewNodeIds {
    /// Both identifiers are version 7 UUIDs.
    pub open spec fn is_v7(self) -> bool {
        is_uuid_v7(self.node_id.0) && is_uuid_v7(self.account_set_id.0)
    }
}

/// The value of a `Chart`.
#[verifier::ext_equal]
pub struct ChartView {
    pub id: ChartId,
    pub account_set_id: CalaAccountSetId,
    pub reference: Seq<char>,
    pub name: Seq<char>,
    pub base_config: Option<AccountingBaseConfigView>,
    pub events: Seq<ChartEventView>,
    pub nodes: ChartNodesView,
}

/// The order in which accounts are imported: the later of two codes comes
/// first, so that an account comes before its parent. Accounts with the same
/// code keep their order.
pub open spec fn import_order(specs: Seq<AccountSpecView>) -> Seq<AccountSpecView>
    decreases specs.len(),
{
    if specs.len() == 0 {
        Seq::empty()
    } else {
        inserted(import_order(specs.drop_last()), specs.last())
    }
}

/// `spec` put before the first account whose code precedes its own.
pub open spec fn inserted(sorted: Seq<AccountSpecView>, spec: AccountSpecView) -> Seq<
    AccountSpecView,
>
    decreases sorted.len(),
{
    if sorted.len() > 0 && code_precedes(sorted.last().code, spec.code) {
        inserted(sorted.drop_last(), spec).push(sorted.last())
    } else {
        sorted.push(spec)
    }
}

/// A node that an import created.
#[verifier::ext_equal]
pub struct CreatedNodeView {
    pub node_id: ChartNodeId,
    pub account_set_id: CalaAccountSetId,
    pub parent: Option<Seq<Seq<char>>>,
    pub new_account_set: NewAccountSetView,
}

/// A chart in the middle of an import, and what the import created so far.
#[verifier::ext_equal]
pub struct ImportView {
    pub chart: ChartView,
    pub created: Seq<CreatedNodeView>,
}

/// The created nodes whose parent has a code.
pub open spec fn created_children(created: Seq<CreatedNodeView>, code: Seq<Seq<char>>) -> Seq<
    ChartNodeId,
> {
    created.filter(|node: CreatedNodeView| node.parent == Some(code)).map_values(
        |node: CreatedNodeView| node.node_id,
    )
}

/// The value of a `BulkImportResult`.
#[verifier::ext_equal]
pub struct BulkImportResultView {
    pub new_account_sets: Seq<NewAccountSetView>,
    pub new_account_set_ids: Seq<CalaAccountSetId>,
    pub new_connections: Seq<(CalaAccountSetId, CalaAccountSetId)>,
}

/// The first of two errors, if any.
pub open spec fn first_error(
    first: Option<ChartOfAccountsErrorView>,
    second: Option<ChartOfAccountsErrorView>,
) -> Option<ChartOfAccountsErrorView> {
    if first is Some {
        first
    } else {
        second
    }
}

impl ChartView {
    /// The chart that events make: what it is called is what the last event
    /// that initialized it says, and its base configuration is the one that
    /// was set last.
    pub open spec fn from_events(events: Seq<ChartEventView>) -> Option<ChartView> {
        match latest_initialized(events) {
            Some(ChartEventView::Initialized { id, account_set_id, name, reference }) => Some(
                ChartView {
                    id,
                    account_set_id,
                    reference,
                    name,
                    base_config: latest_base_config(events),
                    events,
                    nodes: ChartNodesView { persisted: Seq::empty(), new: Seq::empty() },
                },
            ),
            _ => None,
        }
    }

    /// The account set of the account with a code.
    pub open spec fn account_set(self, code: Seq<Seq<char>>) -> Option<CalaAccountSetId> {
        match self.nodes.details(code) {
            Some(details) => Some(details.account_set_id),
            None => None,
        }
    }

    /// Some account has the account set.
    pub open spec fn has_account_set(self, id: CalaAccountSetId) -> bool {
        exists|code: Seq<Seq<char>>| #[trigger] self.account_set(code) == Some(id)
    }

    /// No two accounts have the same account set.
    pub open spec fn account_sets_are_unique(self) -> bool {
        forall|a: Seq<Seq<char>>, b: Seq<Seq<char>>|
            (#[trigger] self.account_set(a)) is Some && self.account_set(a) == (
            #[trigger] self.account_set(b)) ==> a == b
    }

    /// The node that stands for an account in this chart.
    pub open spec fn node_for(
        self,
        spec: AccountSpecView,
        ids: NewNodeIds,
        children: Seq<ChartNodeId>,
    ) -> NewChartNodeView {
        NewChartNodeView {
            id: ids.node_id,
            chart_id: self.id,
            spec,
            ledger_account_set_id: ids.account_set_id,
            children_node_ids: children,
        }
    }

    /// The chart with a new node.
    pub open spec fn with_new_node(self, node: NewChartNodeView) -> ChartView {
        ChartView { nodes: self.nodes.with_new(node), ..self }
    }

    /// The chart with a child entered at a stored parent. Where no stored
    /// node has the parent's code, nothing changes.
    pub open spec fn with_child_entered(
        self,
        parent: Option<Seq<Seq<char>>>,
        child: ChartNodeId,
    ) -> ChartView {
        match parent {
            Some(code) => match self.nodes.position(code) {
                Some(i) => ChartView {
                    nodes: self.nodes.with_persisted(i, self.nodes.persisted[i].with_child(child)),
                    ..self
                },
                None => self,
            },
            None => self,
        }
    }

    /// The account set that a new account is put under: that of its stored
    /// parent, or else that of the chart.
    pub open spec fn stored_parent_account_set(self, parent: Option<Seq<Seq<char>>>) ->
        CalaAccountSetId {
        match parent {
            Some(code) => match self.nodes.position(code) {
                Some(i) => self.nodes.persisted[i].account_set_id,
                None => self.account_set_id,
            },
            None => self.account_set_id,
        }
    }

    /// The account set that an imported account is put under: that of its
    /// parent, stored or new, or else that of the chart.
    pub open spec fn parent_account_set(self, parent: Option<Seq<Seq<char>>>) -> CalaAccountSetId {
        match parent {
            Some(code) => match self.account_set(code) {
                Some(id) => id,
                None => self.account_set_id,
            },
            None => self.account_set_id,
        }
    }

    /// The chart after `create_node_with_existing_children`.
    pub open spec fn after_create_with_children(
        self,
        spec: AccountSpecView,
        ids: NewNodeIds,
        children: Seq<ChartNodeId>,
    ) -> ChartView {
        if self.nodes.details(spec.code) is Some {
            self
        } else {
            self.with_new_node(self.node_for(spec, ids, children))
        }
    }

    /// The chart after `create_node_without_verifying_parent`.
    pub open spec fn after_create(self, spec: AccountSpecView, ids: NewNodeIds) -> ChartView {
        if self.nodes.details(spec.code) is Some {
            self
        } else {
            self.with_child_entered(spec.parent, ids.node_id).with_new_node(
                self.node_for(spec, ids, Seq::empty()),
            )
        }
    }

    /// The first `n` accounts of an import, each with the identifiers at its
    /// own place. An account whose code the chart has is passed over. The
    /// others get the children that were created before them.
    pub open spec fn import_first(
        self,
        specs: Seq<AccountSpecView>,
        ids: Seq<NewNodeIds>,
        journal_id: CalaJournalId,
        n: int,
    ) -> ImportView
        decreases n,
    {
        if n <= 0 {
            ImportView { chart: self, created: Seq::empty() }
        } else {
            let before = self.import_first(specs, ids, journal_id, n - 1);
            let spec = specs[n - 1];
            if before.chart.nodes.details(spec.code) is Some {
                before
            } else {
                let node = before.chart.node_for(
                    spec,
                    ids[n - 1],
                    created_children(before.created, spec.code),
                );
                ImportView {
                    chart: before.chart.with_new_node(node),
                    created: before.created.push(
                        CreatedNodeView {
                            node_id: node.id,
                            account_set_id: node.ledger_account_set_id,
                            parent: spec.parent,
                            new_account_set: node.new_account_set(journal_id),
                        },
                    ),
                }
            }
        }
    }

    /// The chart with created nodes entered at their stored parents.
    pub open spec fn with_created_entered(self, created: Seq<CreatedNodeView>) -> ChartView
        decreases created.len(),
    {
        if created.len() == 0 {
            self
        } else {
            self.with_created_entered(created.drop_last()).with_child_entered(
                created.last().parent,
                created.last().node_id,
            )
        }
    }

    /// All accounts of an import, in import order.
    pub open spec fn imported(
        self,
        specs: Seq<AccountSpecView>,
        ids: Seq<NewNodeIds>,
        journal_id: CalaJournalId,
    ) -> ImportView {
        self.import_first(import_order(specs), ids, journal_id, specs.len() as int)
    }

    /// The chart after an import.
    pub open spec fn after_import(
        self,
        specs: Seq<AccountSpecView>,
        ids: Seq<NewNodeIds>,
        journal_id: CalaJournalId,
    ) -> ChartView {
        let import = self.imported(specs, ids, journal_id);
        import.chart.with_created_entered(import.created)
    }

    /// What an import hands to the ledger: the new account sets, and for each
    /// of them the account set that it is put under.
    pub open spec fn import_result(
        self,
        specs: Seq<AccountSpecView>,
        ids: Seq<NewNodeIds>,
        journal_id: CalaJournalId,
    ) -> BulkImportResultView {
        let import = self.imported(specs, ids, journal_id);
        BulkImportResultView {
            new_account_sets: import.created.map_values(
                |node: CreatedNodeView| node.new_account_set,
            ),
            new_account_set_ids: import.created.map_values(
                |node: CreatedNodeView| node.account_set_id,
            ),
            new_connections: import.created.map_values(
                |node: CreatedNodeView|
                    (import.chart.parent_account_set(node.parent), node.account_set_id),
            ),
        }
    }

    /// The chart has no account with the code.
    pub open spec fn missing_code_error(self, code: Seq<Seq<char>>) -> Option<
        ChartOfAccountsErrorView,
    > {
        if self.nodes.details(code) is Some {
            None
        } else {
            Some(ChartOfAccountsErrorView::CodeNotFoundInChart(code))
        }
    }

    /// The code is not that of an account without a parent.
    pub open spec fn top_level_error(self, code: Seq<Seq<char>>) -> Option<
        ChartOfAccountsErrorView,
    > {
        match self.nodes.details(code) {
            None => Some(ChartOfAccountsErrorView::CodeNotFoundInChart(code)),
            Some(details) => if details.spec.parent is Some {
                Some(ChartOfAccountsErrorView::AccountCodeHasInvalidParent(dotted(code)))
            } else {
                None
            },
        }
    }

    /// The first thing that is wrong with a base configuration for this
    /// chart. The accounts of the six categories stand at the top of the
    /// chart, the two for retained earnings stand anywhere in it.
    pub open spec fn base_config_error(self, config: AccountingBaseConfigView) -> Option<
        ChartOfAccountsErrorView,
    > {
        first_error(
            self.top_level_error(config.assets_code),
            first_error(
                self.top_level_error(config.liabilities_code),
                first_error(
                    self.top_level_error(config.equity_code),
                    first_error(
                        self.top_level_error(config.revenue_code),
                        first_error(
                            self.top_level_error(config.cost_of_revenue_code),
                            first_error(
                                self.top_level_error(config.expenses_code),
                                first_error(
                                    self.missing_code_error(
                                        config.equity_retained_earnings_gain_code,
                                    ),
                                    self.missing_code_error(
                                        config.equity_retained_earnings_loss_code,
                                    ),
                                ),
                            ),
                        ),
                    ),
                ),
            ),
        )
    }

    /// The chart has an account for each code of a base configuration.
    pub open spec fn has_codes_of(self, config: AccountingBaseConfigView) -> bool {
        &&& self.nodes.details(config.assets_code) is Some
        &&& self.nodes.details(config.liabilities_code) is Some
        &&& self.nodes.details(config.equity_code) is Some
        &&& self.nodes.details(config.equity_retained_earnings_gain_code) is Some
        &&& self.nodes.details(config.equity_retained_earnings_loss_code) is Some
        &&& self.nodes.details(config.revenue_code) is Some
        &&& self.nodes.details(config.cost_of_revenue_code) is Some
        &&& self.nodes.details(config.expenses_code) is Some
    }

    /// No code stands for two stored accounts, and the chart has an account
    /// for each code of its base configuration.
    pub open spec fn is_usable(self) -> bool {
        &&& codes(self.nodes.persisted).no_duplicates()
        &&& self.base_config matches Some(config) ==> self.has_codes_of(config)
    }

    /// The chart with one more event.
    pub open spec fn with_event(self, event: ChartEventView) -> ChartView {
        ChartView { events: self.events.push(event), ..self }
    }

    /// The chart with its base configuration.
    pub open spec fn with_base_config(self, config: AccountingBaseConfigView) -> ChartView {
        ChartView {
            base_config: Some(config),
            ..self.with_event(ChartEventView::BaseConfigSet { base_config: config })
        }
    }

    /// The chart after `close_as_of`.
    pub open spec fn after_close(self, closed_as_of: Date) -> ChartView {
        if not_before(latest_closed_as_of(self.events), closed_as_of) {
            self
        } else {
            self.with_event(ChartEventView::ClosedAsOf { closed_as_of })
        }
    }

    /// The chart after `post_closing_tx_as_of`.
    pub open spec fn after_post(self, codes: ClosingAccountCodesView, posted_as_of: Date) ->
        ChartView {
        if self.closing_codes_error(codes) is Some || not_before(
            latest_posted_as_of(self.events),
            posted_as_of,
        ) {
            self
        } else {
            self.with_event(ChartEventView::ClosingTransactionPosted { posted_as_of })
        }
    }

    /// The account sets of a base configuration, where each code has one.
    pub open spec fn resolved(self, config: AccountingBaseConfigView) ->
        ResolvedAccountingBaseConfigView {
        ResolvedAccountingBaseConfigView {
            config,
            assets: self.account_set(config.assets_code)->0,
            liabilities: self.account_set(config.liabilities_code)->0,
            equity: self.account_set(config.equity_code)->0,
            equity_retained_earnings_gain: self.account_set(
                config.equity_retained_earnings_gain_code,
            )->0,
            equity_retained_earnings_loss: self.account_set(
                config.equity_retained_earnings_loss_code,
            )->0,
            revenue: self.account_set(config.revenue_code)->0,
            cost_of_revenue: self.account_set(config.cost_of_revenue_code)->0,
            expenses: self.account_set(config.expenses_code)->0,
        }
    }

    /// The first closing code that the chart has no account for.
    pub open spec fn closing_codes_error(self, codes: ClosingAccountCodesView) -> Option<
        ChartOfAccountsErrorView,
    > {
        first_error(
            self.missing_code_error(codes.revenue),
            first_error(
                self.missing_code_error(codes.cost_of_revenue),
                first_error(
                    self.missing_code_error(codes.expenses),
                    first_error(
                        self.missing_code_error(codes.equity_retained_earnings),
                        self.missing_code_error(codes.equity_retained_losses),
                    ),
                ),
            ),
        )
    }

    /// The account sets of the closing codes, where each code has one.
    pub open spec fn closing_account_sets(self, codes: ClosingAccountCodesView) ->
        ClosingAccountSetIds {
        ClosingAccountSetIds {
            revenue: self.account_set(codes.revenue)->0,
            cost_of_revenue: self.account_set(codes.cost_of_revenue)->0,
            expenses: self.account_set(codes.expenses)->0,
            equity_retained_earnings: self.account_set(codes.equity_retained_earnings)->0,
            equity_retained_losses: self.account_set(codes.equity_retained_losses)->0,
        }
    }

    /// The account that the parent code of an account leads to.
    pub open spec fn parent_details(self, details: ChartNodeDetailsView) -> Option<
        ChartNodeDetailsView,
    > {
        match details.spec.parent {
            Some(code) => self.nodes.details(code),
            None => None,
        }
    }

    /// `path` leads from an account's parent to the account at the top, each
    /// account followed by its parent.
    pub open spec fn is_ancestor_path(
        self,
        code: Seq<Seq<char>>,
        path: Seq<ChartNodeDetailsView>,
    ) -> bool {
        match self.nodes.details(code) {
            None => path.len() == 0,
            Some(details) => self.is_path_above(details, path),
        }
    }

    /// As `is_ancestor_path`, from an account.
    pub open spec fn is_path_above(
        self,
        details: ChartNodeDetailsView,
        path: Seq<ChartNodeDetailsView>,
    ) -> bool
        decreases path.len(),
    {
        match self.parent_details(details) {
            None => path.len() == 0,
            Some(parent) => path.len() > 0 && path[0] == parent && self.is_path_above(
                parent,
                path.drop_first(),
            ),
        }
    }

    /// Whoever follows the parents of the account comes to an end.
    pub open spec fn has_finite_ancestry(self, code: Seq<Seq<char>>) -> bool {
        exists|path: Seq<ChartNodeDetailsView>| self.is_ancestor_path(code, path)
    }
}

} // verus!
