//! What storing and loading charts is for.
use vstd::prelude::*;

use super::chart_node::{ChartNode, ChartNodeView, NewAccount, NewAccountSet, NewChartNode};
use super::entity::{child_views, Chart, ManualAccountFromChart, ManualAccountFromChartView};
use super::error::{ChartOfAccountsError, ChartOfAccountsErrorView};
use super::events::{latest_base_config, latest_initialized, ChartEvent, ChartEventView};
use super::laws::store_keeps_accounts;
use super::model::ChartView;
use super::nodes::{
    node_ids, with_all_loaded, with_loaded, ChartNodeDetails, ChartNodesView,
};
use super::tree::account_set_views;
use crate::primitives::account::{
    AccountIdOrCode, AccountIdOrCodeView, AccountName, AccountSetMember, AccountSpec,
};
use crate::primitives::account_code::AccountCode;
use crate::primitives::ids::CalaAccountSetId;

verus! {

/// The value of a chart has each of its fields under its own name.
pub proof fn chart_shows_its_fields(chart: Chart, i: int)
    ensures
        chart@.id == chart.id,
        chart@.account_set_id == chart.account_set_id,
        chart@.reference == chart.reference@,
        chart@.name == chart.name@,
        chart@.base_config is Some <==> chart.base_config is Some,
        chart.base_config matches Some(config) ==> chart@.base_config == Some(config@),
        chart@.events.len() == chart.events.len(),
        0 <= i < chart.events.len() ==> chart@.events[i] == chart.events@[i]@,
        chart@.nodes == chart.chart_nodes@,
{
}

/// The value of an event has each of its fields under its own name.
pub proof fn event_shows_its_fields(event: ChartEvent)
    ensures
        event matches ChartEvent::Initialized { id, account_set_id, name, reference } ==> event@
            == (ChartEventView::Initialized {
            id,
            account_set_id,
            name: name@,
            reference: reference@,
        }),
        event matches ChartEvent::BaseConfigSet { base_config } ==> event@ == (
        ChartEventView::BaseConfigSet { base_config: base_config@ }),
        event matches ChartEvent::ClosedAsOf { closed_as_of } ==> event@ == (
        ChartEventView::ClosedAsOf { closed_as_of }),
        event matches ChartEvent::ClosingTransactionPosted { posted_as_of } ==> event@ == (
        ChartEventView::ClosingTransactionPosted { posted_as_of }),
{
}

/// The values of nodes and of what is made of them in the ledger have each of
/// their fields under its own name.
pub proof fn nodes_show_their_fields(
    stored: ChartNode,
    new: NewChartNode,
    set: NewAccountSet,
    account: NewAccount,
    spec: AccountSpec,
)
    ensures
        stored@.id == stored.id,
        stored@.chart_id == stored.chart_id,
        stored@.spec == stored.spec@,
        stored@.account_set_id == stored.account_set_id,
        stored@.manual_transaction_account_id == stored.manual_transaction_account_id,
        stored@.children == stored.children@,
        new@.id == new.id,
        new@.chart_id == new.chart_id,
        new@.spec == new.spec@,
        new@.ledger_account_set_id == new.ledger_account_set_id,
        new@.children_node_ids == new.children_node_ids@,
        set@.id == set.id,
        set@.journal_id == set.journal_id,
        set@.chart_id == set.chart_id,
        set@.code == set.code@,
        set@.name == set.name@,
        set@.normal_balance_type == set.normal_balance_type,
        account@.id == account.id,
        account@.chart_id == account.chart_id,
        account@.code == account.code@,
        account@.name == account.name@,
        account@.normal_balance_type == account.normal_balance_type,
        spec@.parent is Some <==> spec.parent is Some,
        spec.parent matches Some(code) ==> spec@.parent == Some(code@),
        spec@.code == spec.code@,
        spec@.name == spec.name@,
        spec@.normal_balance_type == spec.normal_balance_type,
{
}

/// The value of an error is of the same kind, and has what the error holds.
pub proof fn errors_show_what_they_hold(e: ChartOfAccountsError)
    ensures
        e matches ChartOfAccountsError::CodeNotFoundInChart(code) ==> e@
            == ChartOfAccountsErrorView::CodeNotFoundInChart(code@),
        e matches ChartOfAccountsError::ParentAccountNotFound(text) ==> e@
            == ChartOfAccountsErrorView::ParentAccountNotFound(text@),
        e matches ChartOfAccountsError::NonLeafAccount(text) ==> e@
            == ChartOfAccountsErrorView::NonLeafAccount(text@),
        e matches ChartOfAccountsError::AccountCodeHasInvalidParent(text) ==> e@
            == ChartOfAccountsErrorView::AccountCodeHasInvalidParent(text@),
        e matches ChartOfAccountsError::AccountCodeParseError(cause) ==> e@
            == ChartOfAccountsErrorView::AccountCodeParseError(cause),
        e is BaseConfigAlreadyInitializedWithDifferentConfig
            <==> e@ is BaseConfigAlreadyInitializedWithDifferentConfig,
        e is BaseConfigNotInitialized <==> e@ is BaseConfigNotInitialized,
        e matches ChartOfAccountsError::InvalidAccountCategory { code, category } ==> e@ == (
        ChartOfAccountsErrorView::InvalidAccountCategory { code: code@, category }),
        e matches ChartOfAccountsError::AccountCategoryNotSupported(category) ==> e@
            == ChartOfAccountsErrorView::AccountCategoryNotSupported(category),
        e matches ChartOfAccountsError::ChartOfAccountsNotFoundByReference(text) ==> e@
            == ChartOfAccountsErrorView::ChartOfAccountsNotFoundByReference(text@),
{
}

/// The values of what a chart answers have each of their fields under its own
/// name.
pub proof fn answers_show_their_fields(
    manual: ManualAccountFromChart,
    account: AccountIdOrCode,
    member: AccountSetMember,
    details: ChartNodeDetails,
    children: Seq<(AccountCode, CalaAccountSetId)>,
    listed: Seq<(CalaAccountSetId, AccountCode, AccountName)>,
    i: int,
)
    ensures
        manual matches ManualAccountFromChart::IdInChart(id) ==> manual@
            == ManualAccountFromChartView::IdInChart(id),
        manual matches ManualAccountFromChart::NonChartId(id) ==> manual@
            == ManualAccountFromChartView::NonChartId(id),
        manual matches ManualAccountFromChart::NewAccount(new) ==> manual@
            == ManualAccountFromChartView::NewAccount(new.0, new.1@),
        account matches AccountIdOrCode::Id(id) ==> account@ == AccountIdOrCodeView::Id(id),
        account matches AccountIdOrCode::Code(code) ==> account@ == AccountIdOrCodeView::Code(
            code@,
        ),
        member@.account_set_id == member.account_set_id,
        member@.code == member.code@,
        member@.name == member.name@,
        details@.account_set_id == details.account_set_id,
        details@.spec == details.spec@,
        child_views(children).len() == children.len(),
        0 <= i < children.len() ==> child_views(children)[i] == (children[i].0@, children[i].1),
        account_set_views(listed).len() == listed.len(),
        0 <= i < listed.len() ==> account_set_views(listed)[i] == (
            listed[i].0,
            listed[i].1@,
            listed[i].2@,
        ),
{
}

/// Stored nodes keep their places when a chart is stored. The new ones follow
/// in their order, each with its own identifier, chart, account, account set and
/// children, and with no account for manual transactions. None is left new.
pub proof fn new_nodes_become_stored_ones(nodes: ChartNodesView, i: int, j: int)
    requires
        nodes.all_ids_are_unique(),
    ensures
        nodes.all_stored().new.len() == 0,
        nodes.all_stored().persisted.len() == nodes.persisted.len() + nodes.new.len(),
        0 <= i < nodes.persisted.len() ==> nodes.all_stored().persisted[i] == nodes.persisted[i],
        0 <= j < nodes.new.len() ==> {
            let node = nodes.all_stored().persisted[nodes.persisted.len() + j];
            &&& node.id == nodes.new[j].id
            &&& node.chart_id == nodes.new[j].chart_id
            &&& node.spec == nodes.new[j].spec
            &&& node.account_set_id == nodes.new[j].ledger_account_set_id
            &&& node.children == nodes.new[j].children_node_ids
            &&& node.manual_transaction_account_id is None
        },
{
    store_keeps_accounts(nodes, Seq::empty());
}

/// A node that is loaded stands in the list afterwards, in the place of the one
/// with its identifier if there is one. The others stay as they were.
pub proof fn loaded_node_takes_its_place(nodes: Seq<ChartNodeView>, node: ChartNodeView, i: int)
    ensures
        ({
            let after = with_loaded(nodes, node);
            &&& after.contains(node)
            &&& (forall|j: int| 0 <= j < nodes.len() ==> (#[trigger] nodes[j]).id != node.id)
                ==> after == nodes.push(node)
            &&& 0 <= i < nodes.len() && nodes[i].id == node.id && (forall|j: int|
                0 <= j < i ==> (#[trigger] nodes[j]).id != node.id) ==> after == nodes.update(
                i,
                node,
            )
        }),
{
    let ids = node_ids(nodes);
    let after = with_loaded(nodes, node);
    ids.index_of_first_ensures(node.id);
    if let Some(k) = ids.index_of_first(node.id) {
        assert(after[k] == node);
        assert(nodes[k].id == node.id);
        if 0 <= i < nodes.len() && nodes[i].id == node.id && (forall|j: int|
            0 <= j < i ==> (#[trigger] nodes[j]).id != node.id) {
            assert(ids[i] == node.id);
            if k < i {
                assert(nodes[k].id != node.id);
            }
        }
    } else {
        assert(after[nodes.len() as int] == node);
        if 0 <= i < nodes.len() {
            assert(ids[i] == nodes[i].id);
        }
    }
}

/// Nodes are loaded one after the other.
pub proof fn nodes_are_loaded_in_order(
    nodes: Seq<ChartNodeView>,
    loaded: Seq<ChartNodeView>,
    node: ChartNodeView,
)
    ensures
        with_all_loaded(nodes, Seq::empty()) == nodes,
        with_all_loaded(nodes, loaded.push(node)) == with_loaded(
            with_all_loaded(nodes, loaded),
            node,
        ),
{
    assert(loaded.push(node).drop_last() =~= loaded);
}

/// The event at `i` initializes the chart, and no later one does.
pub open spec fn last_initialized_at(events: Seq<ChartEventView>, i: int) -> bool {
    &&& 0 <= i < events.len()
    &&& events[i] is Initialized
    &&& forall|j: int| i < j < events.len() ==> !((#[trigger] events[j]) is Initialized)
}

/// The event at `i` sets a base configuration, and no later one does.
pub open spec fn last_configured_at(events: Seq<ChartEventView>, i: int) -> bool {
    &&& 0 <= i < events.len()
    &&& events[i] is BaseConfigSet
    &&& forall|j: int| i < j < events.len() ==> !((#[trigger] events[j]) is BaseConfigSet)
}

proof fn last_initialized_counts(events: Seq<ChartEventView>, i: int)
    ensures
        last_initialized_at(events, i) ==> latest_initialized(events) == Some(events[i]),
        (forall|j: int| 0 <= j < events.len() ==> !((#[trigger] events[j]) is Initialized))
            ==> latest_initialized(events) is None,
    decreases events.len(),
{
    if events.len() > 0 {
        let earlier = events.drop_last();
        assert(forall|j: int| 0 <= j < earlier.len() ==> #[trigger] earlier[j] == events[j]);
        last_initialized_counts(earlier, i);
        assert(events[events.len() - 1] == events.last());
    }
}

proof fn last_configured_counts(events: Seq<ChartEventView>, i: int)
    ensures
        last_configured_at(events, i) ==> latest_base_config(events) == Some(
            events[i]->base_config,
        ),
        (forall|j: int| 0 <= j < events.len() ==> !((#[trigger] events[j]) is BaseConfigSet))
            ==> latest_base_config(events) is None,
    decreases events.len(),
{
    if events.len() > 0 {
        let earlier = events.drop_last();
        assert(forall|j: int| 0 <= j < earlier.len() ==> #[trigger] earlier[j] == events[j]);
        last_configured_counts(earlier, i);
        assert(events[events.len() - 1] == events.last());
    }
}

/// A chart is made from its events: what it is called is what the last event
/// that initialized it says, field by field, and its base configuration is the
/// one that was set last. It keeps the events, and has no nodes yet. Without an
/// event that initialized it there is no chart.
pub proof fn chart_is_what_its_events_say(events: Seq<ChartEventView>, i: int, k: int)
    ensures
        (forall|j: int| 0 <= j < events.len() ==> !((#[trigger] events[j]) is Initialized))
            ==> ChartView::from_events(events) is None,
        last_initialized_at(events, i) ==> {
            &&& ChartView::from_events(events) matches Some(chart)
            &&& chart.id == events[i]->Initialized_id
            &&& chart.account_set_id == events[i]->account_set_id
            &&& chart.name == events[i]->name
            &&& chart.reference == events[i]->reference
            &&& chart.events == events
            &&& chart.nodes.persisted.len() == 0
            &&& chart.nodes.new.len() == 0
            &&& last_configured_at(events, k) ==> chart.base_config == Some(events[k]->base_config)
            &&& (forall|j: int|
                0 <= j < events.len() ==> !((#[trigger] events[j]) is BaseConfigSet))
                ==> chart.base_config is None
        },
{
    last_initialized_counts(events, i);
    last_configured_counts(events, k);
}

} // verus!
