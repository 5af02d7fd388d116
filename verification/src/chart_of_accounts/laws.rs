//! What holds of a chart whatever is done with it.
use vstd::prelude::*;

use super::chart_node::{ChartNodeView, NewChartNodeView};
use super::events::{
    latest_base_config, latest_closed_as_of, latest_initialized, latest_posted_as_of, not_before,
    ChartEventView,
};
use super::bulk_import::import_order_keeps_length;
use super::entity::after_manual_account;
use super::error::ChartOfAccountsErrorView;
use super::model::{
    created_children, import_order, BulkImportResultView, ChartView, CreatedNodeView, NewNodeIds,
};
use super::nodes::{
    codes, new_codes, node_ids, with_all_loaded, ChartNodeDetailsView, ChartNodesView,
};
use crate::idempotent::Idempotent;
use crate::primitives::account::{AccountIdOrCodeView, AccountSpecView};
use crate::primitives::base_config::AccountingBaseConfigView;
use crate::primitives::closing::{ClosingAccountCodesView, Date};
use crate::primitives::ids::{
    CalaAccountSetId, CalaJournalId, ChartId, ChartNodeId, LedgerAccountId,
};

verus! {

/// The identifiers of new nodes.
pub open spec fn new_node_ids_of(nodes: Seq<NewChartNodeView>) -> Seq<ChartNodeId> {
    nodes.map_values(|node: NewChartNodeView| node.id)
}

impl ChartNodesView {
    /// No two nodes, stored or new, have the same identifier.
    pub open spec fn all_ids_are_unique(self) -> bool {
        (node_ids(self.persisted) + new_node_ids_of(self.new)).no_duplicates()
    }

    /// Some node, stored or new, has the identifier.
    pub open spec fn has_id(self, id: ChartNodeId) -> bool {
        node_ids(self.persisted).contains(id) || new_node_ids_of(self.new).contains(id)
    }
}

impl ChartView {
    /// The chart is what its events say, and these come in order. No code and
    /// no identifier stands for two nodes. The base configuration, once set,
    /// fits the accounts.
    pub open spec fn is_consistent(self) -> bool {
        &&& self.nodes.codes_are_unique()
        &&& self.nodes.all_ids_are_unique()
        &&& latest_initialized(self.events) == Some(
            ChartEventView::Initialized {
                id: self.id,
                account_set_id: self.account_set_id,
                name: self.name,
                reference: self.reference,
            },
        )
        &&& latest_base_config(self.events) == self.base_config
        &&& closed_in_order(self.events)
        &&& posted_in_order(self.events)
        &&& self.base_config matches Some(config) ==> self.base_config_error(config) is None
    }
}

/// Where the first element stands that equals a value.
pub(crate) proof fn first_index_is<A>(s: Seq<A>, value: A, i: int)
    requires
        0 <= i < s.len(),
        s[i] == value,
        forall|j: int| 0 <= j < i ==> s[j] != value,
    ensures
        s.index_of_first(value) == Some(i),
{
    s.index_of_first_ensures(value);
    assert(s.contains(value));
}

/// An account is known if and only if some node has its code.
pub proof fn known_means_has_code(nodes: ChartNodesView, code: Seq<Seq<char>>)
    ensures
        nodes.details(code) is Some <==> nodes.has_code(code),
        nodes.details(code) matches Some(details) ==> details.spec.code == code,
{
    codes(nodes.persisted).index_of_first_ensures(code);
    new_codes(nodes.new).index_of_first_ensures(code);
}

/// A new node changes what is known of its own code only.
proof fn with_new_adds(nodes: ChartNodesView, node: NewChartNodeView, code: Seq<Seq<char>>)
    requires
        nodes.details(node.spec.code) is None,
    ensures
        nodes.with_new(node).details(code) == if code == node.spec.code {
            Some(node.details())
        } else {
            nodes.details(code)
        },
{
    let before = new_codes(nodes.new);
    let after = new_codes(nodes.with_new(node).new);
    assert(after =~= before.push(node.spec.code));
    codes(nodes.persisted).index_of_first_ensures(code);
    before.index_of_first_ensures(code);
    after.index_of_first_ensures(code);
    codes(nodes.persisted).index_of_first_ensures(node.spec.code);
    before.index_of_first_ensures(node.spec.code);
    if code == node.spec.code {
        assert forall|j: int| 0 <= j < before.len() implies after[j] != code by {
            assert(before[j] == after[j]);
            assert(before.contains(before[j]));
        }
        first_index_is(after, code, before.len() as int);
    } else if before.contains(code) {
        let i = before.index_of_first(code)->0;
        assert forall|j: int| 0 <= j < i implies after[j] != code by {
            assert(before[j] == after[j]);
        }
        first_index_is(after, code, i);
    } else if after.contains(code) {
        let i = after.index_of_first(code)->0;
        assert(before[i] == after[i]);
        assert(before.contains(code));
    }
}

/// To exchange a stored node for one with the same account changes nothing of
/// what is known.
pub(crate) proof fn with_persisted_keeps(
    nodes: ChartNodesView,
    i: int,
    node: ChartNodeView,
    code: Seq<Seq<char>>,
)
    requires
        0 <= i < nodes.persisted.len(),
        node.details() == nodes.persisted[i].details(),
    ensures
        nodes.with_persisted(i, node).details(code) == nodes.details(code),
        codes(nodes.with_persisted(i, node).persisted) == codes(nodes.persisted),
{
    assert(codes(nodes.with_persisted(i, node).persisted) =~= codes(nodes.persisted)) by {
        assert(node.spec == node.details().spec);
        assert(nodes.persisted[i].spec == nodes.persisted[i].details().spec);
    }
    codes(nodes.persisted).index_of_first_ensures(code);
}

/// To enter a child changes nothing but the children of one node.
pub(crate) proof fn child_entered_keeps(
    chart: ChartView,
    parent: Option<Seq<Seq<char>>>,
    child: ChartNodeId,
)
    ensures
        ({
            let after = chart.with_child_entered(parent, child);
            &&& after.id == chart.id
            &&& after.account_set_id == chart.account_set_id
            &&& after.name == chart.name
            &&& after.reference == chart.reference
            &&& after.events == chart.events
            &&& after.base_config == chart.base_config
            &&& after.nodes.new == chart.nodes.new
            &&& codes(after.nodes.persisted) == codes(chart.nodes.persisted)
            &&& node_ids(after.nodes.persisted) == node_ids(chart.nodes.persisted)
            &&& forall|code: Seq<Seq<char>>| #[trigger]
                after.nodes.details(code) == chart.nodes.details(code)
        }),
{
    let after = chart.with_child_entered(parent, child);
    if let Some(parent_code) = parent {
        codes(chart.nodes.persisted).index_of_first_ensures(parent_code);
        if let Some(i) = chart.nodes.position(parent_code) {
            let node = chart.nodes.persisted[i].with_child(child);
            with_persisted_keeps(chart.nodes, i, node, parent_code);
            assert(node_ids(after.nodes.persisted) =~= node_ids(chart.nodes.persisted));
            assert forall|code: Seq<Seq<char>>| #[trigger]
                after.nodes.details(code) == chart.nodes.details(code) by {
                with_persisted_keeps(chart.nodes, i, node, code);
            }
        }
    }
}

/// A new account is known by what it was described with, and what was known of
/// the others stays as it was.
pub proof fn create_adds_one_account(
    chart: ChartView,
    spec: AccountSpecView,
    ids: NewNodeIds,
    code: Seq<Seq<char>>,
)
    ensures
        chart.after_create(spec, ids).nodes.details(code) == if code == spec.code
            && chart.nodes.details(code) is None {
            Some(ChartNodeDetailsView { account_set_id: ids.account_set_id, spec })
        } else {
            chart.nodes.details(code)
        },
{
    if chart.nodes.details(spec.code) is None {
        child_entered_keeps(chart, spec.parent, ids.node_id);
        let entered = chart.with_child_entered(spec.parent, ids.node_id);
        assert(entered.nodes.details(spec.code) == chart.nodes.details(spec.code));
        assert(entered.nodes.details(code) == chart.nodes.details(code));
        with_new_adds(entered.nodes, chart.node_for(spec, ids, Seq::empty()), code);
    }
}

/// As `create_adds_one_account`, for an account with children.
pub proof fn create_with_children_adds_one_account(
    chart: ChartView,
    spec: AccountSpecView,
    ids: NewNodeIds,
    children: Seq<ChartNodeId>,
    code: Seq<Seq<char>>,
)
    ensures
        chart.after_create_with_children(spec, ids, children).nodes.details(code) == if code
            == spec.code && chart.nodes.details(code) is None {
            Some(ChartNodeDetailsView { account_set_id: ids.account_set_id, spec })
        } else {
            chart.nodes.details(code)
        },
{
    if chart.nodes.details(spec.code) is None {
        with_new_adds(chart.nodes, chart.node_for(spec, ids, children), code);
    }
}

/// Codes stay unique when a node with a new code is added.
proof fn with_new_keeps_codes_unique(nodes: ChartNodesView, node: NewChartNodeView)
    requires
        nodes.codes_are_unique(),
        nodes.details(node.spec.code) is None,
    ensures
        nodes.with_new(node).codes_are_unique(),
{
    known_means_has_code(nodes, node.spec.code);
    let before = codes(nodes.persisted) + new_codes(nodes.new);
    let after = codes(nodes.persisted) + new_codes(nodes.with_new(node).new);
    assert(after =~= before.push(node.spec.code));
    if before.contains(node.spec.code) {
        let i = before.index_of(node.spec.code);
        if i < codes(nodes.persisted).len() {
            assert(codes(nodes.persisted)[i] == node.spec.code);
        } else {
            assert(new_codes(nodes.new)[i - codes(nodes.persisted).len()] == node.spec.code);
        }
    }
    assert forall|i: int, j: int| 0 <= i < j < after.len() implies after[i] != after[j] by {
        assert(before.contains(before[i]));
    }
}

/// Identifiers stay unique when a node with a new one is added.
proof fn with_new_keeps_ids_unique(nodes: ChartNodesView, node: NewChartNodeView)
    requires
        nodes.all_ids_are_unique(),
        !nodes.has_id(node.id),
    ensures
        nodes.with_new(node).all_ids_are_unique(),
{
    let before = node_ids(nodes.persisted) + new_node_ids_of(nodes.new);
    let after = node_ids(nodes.persisted) + new_node_ids_of(nodes.with_new(node).new);
    assert(after =~= before.push(node.id));
    if before.contains(node.id) {
        let i = before.index_of(node.id);
        if i < node_ids(nodes.persisted).len() {
            assert(node_ids(nodes.persisted)[i] == node.id);
        } else {
            assert(new_node_ids_of(nodes.new)[i - node_ids(nodes.persisted).len()] == node.id);
        }
    }
    assert forall|i: int, j: int| 0 <= i < j < after.len() implies after[i] != after[j] by {
        assert(before.contains(before[i]));
    }
}

/// What was known of every account is still known.
pub open spec fn keeps_accounts(before: ChartNodesView, after: ChartNodesView) -> bool {
    forall|code: Seq<Seq<char>>|
        before.details(code) is Some ==> #[trigger] after.details(code) == before.details(code)
}

/// A base configuration that fits a chart fits it still when accounts are
/// added.
pub proof fn base_config_stays_fit(
    before: ChartView,
    after: ChartView,
    config: AccountingBaseConfigView,
)
    requires
        keeps_accounts(before.nodes, after.nodes),
        before.base_config_error(config) is None,
    ensures
        after.base_config_error(config) is None,
        after.has_codes_of(config),
        after.resolved(config) == before.resolved(config),
{
    base_config_resolves(before, config);
    assert(after.nodes.details(config.assets_code) == before.nodes.details(config.assets_code));
    assert(after.nodes.details(config.liabilities_code) == before.nodes.details(
        config.liabilities_code,
    ));
    assert(after.nodes.details(config.equity_code) == before.nodes.details(config.equity_code));
    assert(after.nodes.details(config.equity_retained_earnings_gain_code) == before.nodes.details(
        config.equity_retained_earnings_gain_code,
    ));
    assert(after.nodes.details(config.equity_retained_earnings_loss_code) == before.nodes.details(
        config.equity_retained_earnings_loss_code,
    ));
    assert(after.nodes.details(config.revenue_code) == before.nodes.details(config.revenue_code));
    assert(after.nodes.details(config.cost_of_revenue_code) == before.nodes.details(
        config.cost_of_revenue_code,
    ));
    assert(after.nodes.details(config.expenses_code) == before.nodes.details(config.expenses_code));
}

/// A base configuration that fits a chart can be resolved in it.
pub proof fn base_config_resolves(
    chart: ChartView,
    config: AccountingBaseConfigView,
)
    requires
        chart.base_config_error(config) is None,
    ensures
        chart.has_codes_of(config),
{
}

/// A consistent chart stays consistent when an account is created under
/// identifiers that the chart does not have.
pub proof fn create_keeps_consistent(chart: ChartView, spec: AccountSpecView, ids: NewNodeIds)
    requires
        chart.is_consistent(),
        !chart.nodes.has_id(ids.node_id),
    ensures
        chart.after_create(spec, ids).is_consistent(),
{
    if chart.nodes.details(spec.code) is None {
        let node = chart.node_for(spec, ids, Seq::empty());
        let entered = chart.with_child_entered(spec.parent, ids.node_id);
        let after = chart.after_create(spec, ids);
        child_entered_keeps(chart, spec.parent, ids.node_id);
        assert(entered.nodes.details(spec.code) == chart.nodes.details(spec.code));
        with_new_keeps_codes_unique(entered.nodes, node);
        with_new_keeps_ids_unique(entered.nodes, node);
        assert forall|code: Seq<Seq<char>>| chart.nodes.details(code) is Some implies #[trigger]
            after.nodes.details(code) == chart.nodes.details(code) by {
            create_adds_one_account(chart, spec, ids, code);
        }
        if let Some(config) = chart.base_config {
            base_config_stays_fit(chart, after, config);
        }
    }
}

/// As `create_keeps_consistent`, for an account with children.
pub proof fn create_with_children_keeps_consistent(
    chart: ChartView,
    spec: AccountSpecView,
    ids: NewNodeIds,
    children: Seq<ChartNodeId>,
)
    requires
        chart.is_consistent(),
        !chart.nodes.has_id(ids.node_id),
    ensures
        chart.after_create_with_children(spec, ids, children).is_consistent(),
{
    if chart.nodes.details(spec.code) is None {
        let node = chart.node_for(spec, ids, children);
        let after = chart.after_create_with_children(spec, ids, children);
        with_new_keeps_codes_unique(chart.nodes, node);
        with_new_keeps_ids_unique(chart.nodes, node);
        assert forall|code: Seq<Seq<char>>| chart.nodes.details(code) is Some implies #[trigger]
            after.nodes.details(code) == chart.nodes.details(code) by {
            create_with_children_adds_one_account(chart, spec, ids, children, code);
        }
        if let Some(config) = chart.base_config {
            base_config_stays_fit(chart, after, config);
        }
    }
}

/// Identifiers that no node has, each of them given once.
pub open spec fn are_fresh(nodes: ChartNodesView, ids: Seq<NewNodeIds>) -> bool {
    &&& forall|i: int| 0 <= i < ids.len() ==> !nodes.has_id(#[trigger] ids[i].node_id)
    &&& forall|i: int, j: int|
        0 <= i < j < ids.len() ==> #[trigger] ids[i].node_id != #[trigger] ids[j].node_id
}

/// The first of some accounts that has a code.
pub open spec fn first_position(specs: Seq<AccountSpecView>, code: Seq<Seq<char>>) -> Option<int> {
    specs.map_values(|spec: AccountSpecView| spec.code).index_of_first(code)
}

/// What is known of a code after the first `n` accounts of an import.
pub(crate) proof fn import_first_adds(
    chart: ChartView,
    specs: Seq<AccountSpecView>,
    ids: Seq<NewNodeIds>,
    journal_id: CalaJournalId,
    n: int,
    code: Seq<Seq<char>>,
)
    requires
        0 <= n <= specs.len(),
        ids.len() == specs.len(),
    ensures
        chart.import_first(specs, ids, journal_id, n).chart.nodes.details(code) == (
        match chart.nodes.details(code) {
            Some(details) => Some(details),
            None => match first_position(specs.take(n), code) {
                Some(k) => Some(
                    ChartNodeDetailsView { account_set_id: ids[k].account_set_id, spec: specs[k] },
                ),
                None => None,
            },
        }),
    decreases n,
{
    let of_code = |spec: AccountSpecView| spec.code;
    let now = specs.take(n).map_values(of_code);
    now.index_of_first_ensures(code);
    if n > 0 {
        let spec = specs[n - 1];
        let earlier = specs.take(n - 1).map_values(of_code);
        assert(now =~= earlier.push(spec.code));
        earlier.index_of_first_ensures(code);
        let before = chart.import_first(specs, ids, journal_id, n - 1);
        import_first_adds(chart, specs, ids, journal_id, n - 1, code);
        import_first_adds(chart, specs, ids, journal_id, n - 1, spec.code);
        earlier.index_of_first_ensures(spec.code);
        create_with_children_adds_one_account(
            before.chart,
            spec,
            ids[n - 1],
            created_children(before.created, spec.code),
            code,
        );
        if earlier.contains(code) {
            let k = earlier.index_of_first(code)->0;
            assert forall|j: int| 0 <= j < k implies now[j] != code by {
                assert(now[j] == earlier[j]);
            }
            first_index_is(now, code, k);
        } else if code == spec.code {
            assert forall|j: int| 0 <= j < n - 1 implies now[j] != code by {
                assert(now[j] == earlier[j]);
                assert(earlier.contains(earlier[j]));
            }
            first_index_is(now, code, n - 1);
        } else if now.contains(code) {
            let k = now.index_of_first(code)->0;
            assert(earlier[k] == now[k]);
            assert(earlier.contains(code));
        }
    }
}

/// The first accounts of an import leave the stored nodes and the events as
/// they were, and keep codes and identifiers unique.
pub(crate) proof fn import_first_keeps(
    chart: ChartView,
    specs: Seq<AccountSpecView>,
    ids: Seq<NewNodeIds>,
    journal_id: CalaJournalId,
    n: int,
)
    requires
        0 <= n <= specs.len(),
        ids.len() == specs.len(),
    ensures
        ({
            let after = chart.import_first(specs, ids, journal_id, n).chart;
            &&& after.id == chart.id
            &&& after.account_set_id == chart.account_set_id
            &&& after.name == chart.name
            &&& after.reference == chart.reference
            &&& after.events == chart.events
            &&& after.base_config == chart.base_config
            &&& after.nodes.persisted == chart.nodes.persisted
            &&& chart.nodes.codes_are_unique() ==> after.nodes.codes_are_unique()
            &&& chart.nodes.all_ids_are_unique() && are_fresh(chart.nodes, ids)
                ==> after.nodes.all_ids_are_unique()
            &&& forall|id: ChartNodeId| #[trigger]
                new_node_ids_of(after.nodes.new).contains(id) ==> new_node_ids_of(
                    chart.nodes.new,
                ).contains(id) || exists|k: int| 0 <= k < n && #[trigger] ids[k].node_id == id
        }),
    decreases n,
{
    if n > 0 {
        let before = chart.import_first(specs, ids, journal_id, n - 1);
        let after = chart.import_first(specs, ids, journal_id, n);
        import_first_keeps(chart, specs, ids, journal_id, n - 1);
        let spec = specs[n - 1];
        if before.chart.nodes.details(spec.code) is None {
            let node = before.chart.node_for(
                spec,
                ids[n - 1],
                created_children(before.created, spec.code),
            );
            if chart.nodes.codes_are_unique() {
                with_new_keeps_codes_unique(before.chart.nodes, node);
            }
            if chart.nodes.all_ids_are_unique() && are_fresh(chart.nodes, ids) {
                assert(!chart.nodes.has_id(ids[n - 1].node_id));
                with_new_keeps_ids_unique(before.chart.nodes, node);
            }
            assert forall|id: ChartNodeId| #[trigger]
                new_node_ids_of(after.chart.nodes.new).contains(id) implies new_node_ids_of(
                chart.nodes.new,
            ).contains(id) || exists|k: int| 0 <= k < n && #[trigger] ids[k].node_id == id by {
                let all = new_node_ids_of(after.chart.nodes.new);
                assert(all =~= new_node_ids_of(before.chart.nodes.new).push(node.id));
                let i = all.index_of(id);
                if i < all.len() - 1 {
                    assert(new_node_ids_of(before.chart.nodes.new)[i] == id);
                    assert(new_node_ids_of(before.chart.nodes.new).contains(id));
                } else {
                    assert(ids[n - 1].node_id == id);
                }
            }
        }
    }
}

/// To enter created nodes at their parents changes nothing but children.
pub(crate) proof fn created_entered_keeps(chart: ChartView, created: Seq<CreatedNodeView>)
    ensures
        ({
            let after = chart.with_created_entered(created);
            &&& after.id == chart.id
            &&& after.account_set_id == chart.account_set_id
            &&& after.name == chart.name
            &&& after.reference == chart.reference
            &&& after.events == chart.events
            &&& after.base_config == chart.base_config
            &&& after.nodes.new == chart.nodes.new
            &&& codes(after.nodes.persisted) == codes(chart.nodes.persisted)
            &&& node_ids(after.nodes.persisted) == node_ids(chart.nodes.persisted)
            &&& forall|code: Seq<Seq<char>>| #[trigger]
                after.nodes.details(code) == chart.nodes.details(code)
        }),
    decreases created.len(),
{
    if created.len() > 0 {
        let before = chart.with_created_entered(created.drop_last());
        let after = chart.with_created_entered(created);
        created_entered_keeps(chart, created.drop_last());
        child_entered_keeps(before, created.last().parent, created.last().node_id);
        assert forall|code: Seq<Seq<char>>| #[trigger]
            after.nodes.details(code) == chart.nodes.details(code) by {
            assert(after.nodes.details(code) == before.nodes.details(code));
            assert(before.nodes.details(code) == chart.nodes.details(code));
        }
    }
}

/// After an import every imported code is known, by the first account that has
/// it in import order. What was known before stays as it was.
pub proof fn import_adds_missing_accounts(
    chart: ChartView,
    specs: Seq<AccountSpecView>,
    ids: Seq<NewNodeIds>,
    journal_id: CalaJournalId,
    code: Seq<Seq<char>>,
)
    requires
        ids.len() == specs.len(),
    ensures
        chart.after_import(specs, ids, journal_id).nodes.details(code) == (
        match chart.nodes.details(code) {
            Some(details) => Some(details),
            None => match first_position(import_order(specs), code) {
                Some(k) => Some(
                    ChartNodeDetailsView {
                        account_set_id: ids[k].account_set_id,
                        spec: import_order(specs)[k],
                    },
                ),
                None => None,
            },
        }),
{
    let import = chart.imported(specs, ids, journal_id);
    import_order_keeps_length(specs);
    import_first_adds(chart, import_order(specs), ids, journal_id, specs.len() as int, code);
    assert(import_order(specs).take(specs.len() as int) =~= import_order(specs));
    created_entered_keeps(import.chart, import.created);
    assert(chart.after_import(specs, ids, journal_id).nodes.details(code)
        == import.chart.nodes.details(code));
}

/// An import leaves everything but the nodes as it was.
pub proof fn import_changes_nodes_only(
    chart: ChartView,
    specs: Seq<AccountSpecView>,
    ids: Seq<NewNodeIds>,
    journal_id: CalaJournalId,
)
    requires
        ids.len() == specs.len(),
    ensures
        ({
            let after = chart.after_import(specs, ids, journal_id);
            &&& after == ChartView { nodes: after.nodes, ..chart }
            &&& codes(after.nodes.persisted) == codes(chart.nodes.persisted)
            &&& node_ids(after.nodes.persisted) == node_ids(chart.nodes.persisted)
            &&& keeps_accounts(chart.nodes, after.nodes)
        }),
{
    let import = chart.imported(specs, ids, journal_id);
    let after = chart.after_import(specs, ids, journal_id);
    import_order_keeps_length(specs);
    import_first_keeps(chart, import_order(specs), ids, journal_id, specs.len() as int);
    created_entered_keeps(import.chart, import.created);
    assert forall|code: Seq<Seq<char>>| chart.nodes.details(code) is Some implies #[trigger]
        after.nodes.details(code) == chart.nodes.details(code) by {
        import_adds_missing_accounts(chart, specs, ids, journal_id, code);
    }
}

/// A consistent chart stays consistent when accounts are imported under
/// identifiers that the chart does not have.
pub proof fn import_keeps_consistent(
    chart: ChartView,
    specs: Seq<AccountSpecView>,
    ids: Seq<NewNodeIds>,
    journal_id: CalaJournalId,
)
    requires
        chart.is_consistent(),
        ids.len() == specs.len(),
        are_fresh(chart.nodes, ids),
    ensures
        chart.after_import(specs, ids, journal_id).is_consistent(),
{
    let import = chart.imported(specs, ids, journal_id);
    let after = chart.after_import(specs, ids, journal_id);
    import_order_keeps_length(specs);
    import_first_keeps(chart, import_order(specs), ids, journal_id, specs.len() as int);
    created_entered_keeps(import.chart, import.created);
    import_changes_nodes_only(chart, specs, ids, journal_id);
    if let Some(config) = chart.base_config {
        base_config_stays_fit(chart, after, config);
    }
}

/// A consistent chart stays consistent when it is configured, whatever the
/// outcome.
pub proof fn configure_keeps_consistent(
    chart: ChartView,
    specs: Seq<AccountSpecView>,
    config: AccountingBaseConfigView,
    journal_id: CalaJournalId,
    ids: Seq<NewNodeIds>,
)
    requires
        chart.is_consistent(),
        ids.len() == specs.len(),
        are_fresh(chart.nodes, ids),
    ensures
        chart.after_configure(specs, config, journal_id, ids).is_consistent(),
{
    let imported = chart.after_import(specs, ids, journal_id);
    import_keeps_consistent(chart, specs, ids, journal_id);
    import_changes_nodes_only(chart, specs, ids, journal_id);
    assert(imported.with_base_config(config).events.drop_last() =~= imported.events);
    order_stays_with(imported.events, ChartEventView::BaseConfigSet { base_config: config });
}

/// A consistent chart can be worked with.
pub proof fn consistent_is_usable(chart: ChartView)
    requires
        chart.is_consistent(),
    ensures
        chart.is_usable(),
{
    let stored = codes(chart.nodes.persisted);
    let all = stored + new_codes(chart.nodes.new);
    assert forall|i: int, j: int| 0 <= i < stored.len() && 0 <= j < stored.len() && i
        != j implies stored[i] != stored[j] by {
        assert(all[i] == stored[i]);
        assert(all[j] == stored[j]);
    }
    if let Some(config) = chart.base_config {
        base_config_resolves(chart, config);
    }
}

/// A chart is configured once: when the same configuration is set again,
/// nothing happens, and another one is refused.
pub proof fn configured_once(
    chart: ChartView,
    specs: Seq<AccountSpecView>,
    config: AccountingBaseConfigView,
    journal_id: CalaJournalId,
    ids: Seq<NewNodeIds>,
    again_specs: Seq<AccountSpecView>,
    again_config: AccountingBaseConfigView,
    again_ids: Seq<NewNodeIds>,
)
    requires
        chart.is_consistent(),
        ids.len() == specs.len(),
        chart.configure_answer(specs, config, journal_id, ids) is Ok,
    ensures
        ({
            let after = chart.after_configure(specs, config, journal_id, ids);
            let again = after.configure_answer(again_specs, again_config, journal_id, again_ids);
            &&& after.after_configure(again_specs, again_config, journal_id, again_ids) == after
            &&& again_config == config ==> again == Ok::<
                Idempotent<BulkImportResultView>,
                ChartOfAccountsErrorView,
            >(Idempotent::AlreadyApplied)
            &&& !after.events.contains(ChartEventView::BaseConfigSet { base_config: again_config })
                ==> again == Err::<Idempotent<BulkImportResultView>, ChartOfAccountsErrorView>(
                ChartOfAccountsErrorView::BaseConfigAlreadyInitializedWithDifferentConfig,
            )
        }),
{
    let set = ChartEventView::BaseConfigSet { base_config: config };
    let after = chart.after_configure(specs, config, journal_id, ids);
    import_changes_nodes_only(chart, specs, ids, journal_id);
    if chart.events.contains(set) {
        config_event_means_configured(chart.events, config);
    } else {
        assert(after.events == chart.events.push(set));
        assert(after.events[chart.events.len() as int] == set);
    }
}

/// Where a configuration was set, there is a latest one.
proof fn config_event_means_configured(
    events: Seq<ChartEventView>,
    config: AccountingBaseConfigView,
)
    requires
        events.contains(ChartEventView::BaseConfigSet { base_config: config }),
    ensures
        latest_base_config(events) is Some,
    decreases events.len(),
{
    let set = ChartEventView::BaseConfigSet { base_config: config };
    if events.last() != set {
        let i = events.index_of(set);
        assert(events.drop_last()[i] == set);
        config_event_means_configured(events.drop_last(), config);
    }
}

/// Nodes with identifiers of their own come after those that are there.
proof fn loaded_come_last(nodes: Seq<ChartNodeView>, loaded: Seq<ChartNodeView>)
    requires
        (node_ids(nodes) + node_ids(loaded)).no_duplicates(),
    ensures
        with_all_loaded(nodes, loaded) == nodes + loaded,
    decreases loaded.len(),
{
    if loaded.len() == 0 {
        assert(nodes + loaded =~= nodes);
    } else {
        let earlier = loaded.drop_last();
        let all = node_ids(nodes) + node_ids(loaded);
        assert forall|i: int, j: int|
            0 <= i < j < (node_ids(nodes) + node_ids(earlier)).len() implies (node_ids(nodes)
            + node_ids(earlier))[i] != (node_ids(nodes) + node_ids(earlier))[j] by {
            assert((node_ids(nodes) + node_ids(earlier))[i] == all[i]);
            assert((node_ids(nodes) + node_ids(earlier))[j] == all[j]);
        }
        loaded_come_last(nodes, earlier);
        let there = node_ids(nodes + earlier);
        there.index_of_first_ensures(loaded.last().id);
        if there.contains(loaded.last().id) {
            let i = there.index_of(loaded.last().id);
            assert(there[i] == all[i]);
            assert(all[all.len() - 1] == loaded.last().id);
        }
        assert(nodes + loaded =~= (nodes + earlier).push(loaded.last()));
    }
}

/// When the new nodes of a chart are stored, what is known of its accounts
/// stays as it was. The stored nodes keep their places, and the new ones
/// follow.
pub proof fn store_keeps_accounts(nodes: ChartNodesView, code: Seq<Seq<char>>)
    requires
        nodes.all_ids_are_unique(),
    ensures
        nodes.all_stored().persisted == nodes.persisted + nodes.new.map_values(
            |node: NewChartNodeView| node.stored(),
        ),
        nodes.all_stored().details(code) == nodes.details(code),
{
    let stored = nodes.new.map_values(|node: NewChartNodeView| node.stored());
    assert(node_ids(stored) =~= new_node_ids_of(nodes.new));
    loaded_come_last(nodes.persisted, stored);
    let old_codes = codes(nodes.persisted);
    let added_codes = new_codes(nodes.new);
    let all = codes(nodes.all_stored().persisted);
    assert(all =~= old_codes + added_codes);
    old_codes.index_of_first_ensures(code);
    added_codes.index_of_first_ensures(code);
    new_codes(nodes.all_stored().new).index_of_first_ensures(code);
    all.index_of_first_ensures(code);
    if old_codes.contains(code) {
        let i = old_codes.index_of_first(code)->0;
        assert forall|j: int| 0 <= j < i implies all[j] != code by {
            assert(all[j] == old_codes[j]);
        }
        first_index_is(all, code, i);
    } else if added_codes.contains(code) {
        let i = added_codes.index_of_first(code)->0;
        assert forall|j: int| 0 <= j < old_codes.len() + i implies all[j] != code by {
            if j < old_codes.len() {
                assert(all[j] == old_codes[j]);
                assert(old_codes.contains(old_codes[j]));
            } else {
                assert(all[j] == added_codes[j - old_codes.len()]);
            }
        }
        first_index_is(all, code, old_codes.len() + i);
    } else if all.contains(code) {
        let i = all.index_of_first(code)->0;
        if i < old_codes.len() {
            assert(old_codes[i] == code);
        } else {
            assert(added_codes[i - old_codes.len()] == code);
        }
    }
}

/// A consistent chart stays consistent when it is stored.
pub proof fn store_keeps_consistent(chart: ChartView)
    requires
        chart.is_consistent(),
    ensures
        (ChartView { nodes: chart.nodes.all_stored(), ..chart }).is_consistent(),
{
    let after = ChartView { nodes: chart.nodes.all_stored(), ..chart };
    store_keeps_accounts(chart.nodes, Seq::empty());
    let stored = chart.nodes.new.map_values(|node: NewChartNodeView| node.stored());
    assert(codes(after.nodes.persisted) + new_codes(after.nodes.new) =~= codes(
        chart.nodes.persisted,
    ) + new_codes(chart.nodes.new));
    assert(node_ids(after.nodes.persisted) + new_node_ids_of(after.nodes.new) =~= node_ids(
        chart.nodes.persisted,
    ) + new_node_ids_of(chart.nodes.new));
    assert forall|code: Seq<Seq<char>>| chart.nodes.details(code) is Some implies #[trigger]
        after.nodes.details(code) == chart.nodes.details(code) by {
        store_keeps_accounts(chart.nodes, code);
    }
    if let Some(config) = chart.base_config {
        base_config_stays_fit(chart, after, config);
    }
}

/// A consistent chart stays consistent when it is closed.
pub proof fn close_keeps_consistent(chart: ChartView, closed_as_of: Date)
    requires
        chart.is_consistent(),
    ensures
        chart.after_close(closed_as_of).is_consistent(),
{
    let event = ChartEventView::ClosedAsOf { closed_as_of };
    assert(chart.with_event(event).events.drop_last() =~= chart.events);
    closings_are_chronological(chart, closed_as_of, closed_as_of);
    order_stays_with(chart.events, event);
}

/// A consistent chart stays consistent when a closing is posted.
pub proof fn post_keeps_consistent(
    chart: ChartView,
    codes: ClosingAccountCodesView,
    posted_as_of: Date,
)
    requires
        chart.is_consistent(),
    ensures
        chart.after_post(codes, posted_as_of).is_consistent(),
{
    let event = ChartEventView::ClosingTransactionPosted { posted_as_of };
    assert(chart.with_event(event).events.drop_last() =~= chart.events);
    if chart.closing_codes_error(codes) is None {
        postings_are_chronological(chart, codes, posted_as_of, posted_as_of);
    }
    order_stays_with(chart.events, event);
}

/// A consistent chart stays consistent when an account for manual transactions
/// is looked for or assigned, and its events and accounts stay as they were.
pub proof fn manual_account_keeps_consistent(
    chart: ChartView,
    account: AccountIdOrCodeView,
    new_id: LedgerAccountId,
)
    requires
        chart.is_consistent(),
    ensures
        ({
            let after = after_manual_account(chart, account, new_id);
            &&& after.is_consistent()
            &&& after == ChartView { nodes: after.nodes, ..chart }
            &&& keeps_accounts(chart.nodes, after.nodes)
        }),
{
    let after = after_manual_account(chart, account, new_id);
    if let AccountIdOrCodeView::Code(code) = account {
        codes(chart.nodes.persisted).index_of_first_ensures(code);
        if let Some(i) = chart.nodes.position(code) {
            let node = chart.nodes.persisted[i].with_manual_account(new_id);
            let assigned = chart.nodes.with_persisted(i, node);
            with_persisted_keeps(chart.nodes, i, node, code);
            assert(node_ids(assigned.persisted) =~= node_ids(chart.nodes.persisted));
            assert forall|other: Seq<Seq<char>>| chart.nodes.details(other) is Some implies
                #[trigger] after.nodes.details(other) == chart.nodes.details(other) by {
                with_persisted_keeps(chart.nodes, i, node, other);
            }
            if let Some(config) = chart.base_config {
                base_config_stays_fit(chart, after, config);
            }
        }
    }
}

/// A new chart is consistent, and is what it was made from.
pub proof fn new_chart_is_consistent(
    id: ChartId,
    account_set_id: CalaAccountSetId,
    name: Seq<char>,
    reference: Seq<char>,
)
    ensures
        ({
            let events = seq![
                ChartEventView::Initialized { id, account_set_id, name, reference },
            ];
            &&& ChartView::from_events(events) matches Some(chart)
            &&& chart.is_consistent()
            &&& chart.id == id
            &&& chart.account_set_id == account_set_id
            &&& chart.name == name
            &&& chart.reference == reference
            &&& chart.base_config is None
        }),
{
    let events = seq![ChartEventView::Initialized { id, account_set_id, name, reference }];
    assert(events.last() is Initialized);
    assert(latest_base_config(events.drop_last()) is None);
    assert(latest_base_config(events) is None);
}

/// A consistent chart can be made again from its events: all but its nodes
/// comes back.
pub proof fn events_tell_the_chart(chart: ChartView)
    requires
        chart.is_consistent(),
    ensures
        ChartView::from_events(chart.events) == Some(
            ChartView {
                nodes: ChartNodesView { persisted: Seq::empty(), new: Seq::empty() },
                ..chart
            },
        ),
{
}

/// The days of the closing events come in chronological order.
pub open spec fn closed_in_order(events: Seq<ChartEventView>) -> bool {
    forall|i: int, j: int|
        0 <= i < j < events.len() && (#[trigger] events[i]) is ClosedAsOf && (#[trigger] events[j])
            is ClosedAsOf ==> events[i]->closed_as_of.is_before(events[j]->closed_as_of)
}

/// The days of the closing transactions come in chronological order.
pub open spec fn posted_in_order(events: Seq<ChartEventView>) -> bool {
    forall|i: int, j: int|
        0 <= i < j < events.len() && (#[trigger] events[i]) is ClosingTransactionPosted && (
        #[trigger] events[j]) is ClosingTransactionPosted
            ==> events[i]->posted_as_of.is_before(events[j]->posted_as_of)
}

/// The latest closing event is the last one, and none comes after it.
pub(crate) proof fn latest_closed_is_last(events: Seq<ChartEventView>)
    ensures
        match latest_closed_as_of(events) {
            Some(date) => exists|i: int|
                0 <= i < events.len() && #[trigger] events[i] == (ChartEventView::ClosedAsOf {
                    closed_as_of: date,
                }) && forall|j: int|
                    i < j < events.len() ==> !(#[trigger] events[j] is ClosedAsOf),
            None => forall|j: int|
                0 <= j < events.len() ==> !(#[trigger] events[j] is ClosedAsOf),
        },
    decreases events.len(),
{
    if events.len() > 0 && !(events.last() is ClosedAsOf) {
        let earlier = events.drop_last();
        latest_closed_is_last(earlier);
        match latest_closed_as_of(earlier) {
            Some(date) => {
                let i = choose|i: int|
                    0 <= i < earlier.len() && #[trigger] earlier[i] == (
                    ChartEventView::ClosedAsOf { closed_as_of: date }) && forall|j: int|
                        i < j < earlier.len() ==> !(#[trigger] earlier[j] is ClosedAsOf);
                assert(events[i] == earlier[i]);
                assert forall|j: int| i < j < events.len() implies !(#[trigger] events[j]
                    is ClosedAsOf) by {
                    if j < earlier.len() {
                        assert(earlier[j] == events[j]);
                    }
                }
            },
            None => {
                assert forall|j: int| 0 <= j < events.len() implies !(#[trigger] events[j]
                    is ClosedAsOf) by {
                    if j < earlier.len() {
                        assert(earlier[j] == events[j]);
                    }
                }
            },
        }
    } else if events.len() > 0 {
        assert(events[events.len() - 1] == events.last());
    }
}

/// The latest closing transaction is the last one, and none comes after it.
pub(crate) proof fn latest_posted_is_last(events: Seq<ChartEventView>)
    ensures
        match latest_posted_as_of(events) {
            Some(date) => exists|i: int|
                0 <= i < events.len() && #[trigger] events[i] == (
                ChartEventView::ClosingTransactionPosted { posted_as_of: date }) && forall|j: int|
                    i < j < events.len() ==> !(#[trigger] events[j] is ClosingTransactionPosted),
            None => forall|j: int|
                0 <= j < events.len() ==> !(#[trigger] events[j] is ClosingTransactionPosted),
        },
    decreases events.len(),
{
    if events.len() > 0 && !(events.last() is ClosingTransactionPosted) {
        let earlier = events.drop_last();
        latest_posted_is_last(earlier);
        match latest_posted_as_of(earlier) {
            Some(date) => {
                let i = choose|i: int|
                    0 <= i < earlier.len() && #[trigger] earlier[i] == (
                    ChartEventView::ClosingTransactionPosted { posted_as_of: date })
                        && forall|j: int|
                        i < j < earlier.len() ==> !(#[trigger] earlier[j]
                            is ClosingTransactionPosted);
                assert(events[i] == earlier[i]);
                assert forall|j: int| i < j < events.len() implies !(#[trigger] events[j]
                    is ClosingTransactionPosted) by {
                    if j < earlier.len() {
                        assert(earlier[j] == events[j]);
                    }
                }
            },
            None => {
                assert forall|j: int| 0 <= j < events.len() implies !(#[trigger] events[j]
                    is ClosingTransactionPosted) by {
                    if j < earlier.len() {
                        assert(earlier[j] == events[j]);
                    }
                }
            },
        }
    } else if events.len() > 0 {
        assert(events[events.len() - 1] == events.last());
    }
}

/// An event that says nothing of closings leaves their order as it was.
proof fn order_stays_with(events: Seq<ChartEventView>, event: ChartEventView)
    ensures
        closed_in_order(events) && !(event is ClosedAsOf) ==> closed_in_order(events.push(event)),
        posted_in_order(events) && !(event is ClosingTransactionPosted) ==> posted_in_order(
            events.push(event),
        ),
{
    let after = events.push(event);
    assert(forall|i: int| 0 <= i < events.len() ==> #[trigger] after[i] == events[i]);
}

/// Closings stay in chronological order, and after one the chart is closed as
/// of that day or a later one: to close it for the same or an earlier day does
/// nothing.
pub proof fn closings_are_chronological(chart: ChartView, closed_as_of: Date, again: Date)
    requires
        closed_in_order(chart.events),
        !closed_as_of.is_before(again),
    ensures
        closed_in_order(chart.after_close(closed_as_of).events),
        not_before(latest_closed_as_of(chart.after_close(closed_as_of).events), again),
        chart.after_close(closed_as_of).after_close(again) == chart.after_close(closed_as_of),
{
    latest_closed_is_last(chart.events);
    let after = chart.after_close(closed_as_of);
    if !not_before(latest_closed_as_of(chart.events), closed_as_of) {
        assert forall|i: int, j: int|
            0 <= i < j < after.events.len() && (#[trigger] after.events[i]) is ClosedAsOf && (
            #[trigger] after.events[j])
                is ClosedAsOf implies after.events[i]->closed_as_of.is_before(
            after.events[j]->closed_as_of,
        ) by {
            assert(chart.events[i] == after.events[i]);
            if j < chart.events.len() {
                assert(chart.events[j] == after.events[j]);
            }
        }
    }
}

/// Closing transactions stay in chronological order, and after one nothing is
/// posted for the same or an earlier day.
pub proof fn postings_are_chronological(
    chart: ChartView,
    codes: ClosingAccountCodesView,
    posted_as_of: Date,
    again: Date,
)
    requires
        posted_in_order(chart.events),
        chart.closing_codes_error(codes) is None,
        !posted_as_of.is_before(again),
    ensures
        posted_in_order(chart.after_post(codes, posted_as_of).events),
        not_before(latest_posted_as_of(chart.after_post(codes, posted_as_of).events), again),
        chart.after_post(codes, posted_as_of).after_post(codes, again) == chart.after_post(
            codes,
            posted_as_of,
        ),
{
    latest_posted_is_last(chart.events);
    let after = chart.after_post(codes, posted_as_of);
    if !not_before(latest_posted_as_of(chart.events), posted_as_of) {
        assert forall|i: int, j: int|
            0 <= i < j < after.events.len() && (#[trigger] after.events[i])
                is ClosingTransactionPosted && (#[trigger] after.events[j])
                is ClosingTransactionPosted implies after.events[i]->posted_as_of.is_before(
            after.events[j]->posted_as_of,
        ) by {
            assert(chart.events[i] == after.events[i]);
            if j < chart.events.len() {
                assert(chart.events[j] == after.events[j]);
            }
        }
    }
}

} // verus!
