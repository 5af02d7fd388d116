//! Changes to a chart, one after the other, and what holds of them all.
use vstd::prelude::*;

use super::entity::after_manual_account;
use super::laws::{
    are_fresh, close_keeps_consistent, configure_keeps_consistent, create_keeps_consistent,
    create_with_children_keeps_consistent, import_keeps_consistent, manual_account_keeps_consistent,
    post_keeps_consistent, store_keeps_consistent,
};
use super::model::{ChartView, NewNodeIds};
use super::nodes::ChartNodesView;
use crate::primitives::account::{AccountIdOrCodeView, AccountSpecView};
use crate::primitives::base_config::AccountingBaseConfigView;
use crate::primitives::closing::{ClosingAccountCodesView, Date};
use crate::primitives::ids::{CalaJournalId, ChartNodeId, LedgerAccountId};

verus! {

/// One thing that is done with a chart.
pub enum ChangeView {
    Create { spec: AccountSpecView, ids: NewNodeIds },
    CreateWithChildren { spec: AccountSpecView, ids: NewNodeIds, children: Seq<ChartNodeId> },
    Import { specs: Seq<AccountSpecView>, ids: Seq<NewNodeIds>, journal_id: CalaJournalId },
    Configure {
        specs: Seq<AccountSpecView>,
        config: AccountingBaseConfigView,
        journal_id: CalaJournalId,
        ids: Seq<NewNodeIds>,
    },
    ManualAccount { account: AccountIdOrCodeView, new_id: LedgerAccountId },
    Close { closed_as_of: Date },
    Post { codes: ClosingAccountCodesView, posted_as_of: Date },
    Store,
}

impl ChangeView {
    /// The identifiers for new nodes are not those of nodes that are there.
    pub open spec fn is_fresh_for(self, nodes: ChartNodesView) -> bool {
        match self {
            ChangeView::Create { ids, .. } => !nodes.has_id(ids.node_id),
            ChangeView::CreateWithChildren { ids, .. } => !nodes.has_id(ids.node_id),
            ChangeView::Import { specs, ids, .. } => ids.len() == specs.len() && are_fresh(
                nodes,
                ids,
            ),
            ChangeView::Configure { specs, ids, .. } => ids.len() == specs.len() && are_fresh(
                nodes,
                ids,
            ),
            _ => true,
        }
    }
}

impl ChartView {
    /// The chart with its new nodes stored.
    pub open spec fn after_store(self) -> ChartView {
        ChartView { nodes: self.nodes.all_stored(), ..self }
    }

    /// The chart after a change.
    pub open spec fn after_change(self, change: ChangeView) -> ChartView {
        match change {
            ChangeView::Create { spec, ids } => self.after_create(spec, ids),
            ChangeView::CreateWithChildren { spec, ids, children } => {
                self.after_create_with_children(spec, ids, children)
            },
            ChangeView::Import { specs, ids, journal_id } => self.after_import(
                specs,
                ids,
                journal_id,
            ),
            ChangeView::Configure { specs, config, journal_id, ids } => self.after_configure(
                specs,
                config,
                journal_id,
                ids,
            ),
            ChangeView::ManualAccount { account, new_id } => after_manual_account(
                self,
                account,
                new_id,
            ),
            ChangeView::Close { closed_as_of } => self.after_close(closed_as_of),
            ChangeView::Post { codes, posted_as_of } => self.after_post(codes, posted_as_of),
            ChangeView::Store => self.after_store(),
        }
    }

    /// The chart after changes, one after the other.
    pub open spec fn after_changes(self, changes: Seq<ChangeView>) -> ChartView
        decreases changes.len(),
    {
        if changes.len() == 0 {
            self
        } else {
            self.after_changes(changes.drop_last()).after_change(changes.last())
        }
    }

    /// The changes can be made, each under identifiers that the chart does not
    /// have by then.
    pub open spec fn can_change(self, changes: Seq<ChangeView>) -> bool {
        forall|k: int|
            0 <= k < changes.len() ==> (#[trigger] changes[k]).is_fresh_for(
                self.after_changes(changes.take(k)).nodes,
            )
    }
}

/// A consistent chart stays consistent when it is changed.
pub proof fn change_keeps_consistent(chart: ChartView, change: ChangeView)
    requires
        chart.is_consistent(),
        change.is_fresh_for(chart.nodes),
    ensures
        chart.after_change(change).is_consistent(),
{
    match change {
        ChangeView::Create { spec, ids } => {
            create_keeps_consistent(chart, spec, ids);
        },
        ChangeView::CreateWithChildren { spec, ids, children } => {
            create_with_children_keeps_consistent(chart, spec, ids, children);
        },
        ChangeView::Import { specs, ids, journal_id } => {
            import_keeps_consistent(chart, specs, ids, journal_id);
        },
        ChangeView::Configure { specs, config, journal_id, ids } => {
            configure_keeps_consistent(chart, specs, config, journal_id, ids);
        },
        ChangeView::ManualAccount { account, new_id } => {
            manual_account_keeps_consistent(chart, account, new_id);
        },
        ChangeView::Close { closed_as_of } => {
            close_keeps_consistent(chart, closed_as_of);
        },
        ChangeView::Post { codes, posted_as_of } => {
            post_keeps_consistent(chart, codes, posted_as_of);
        },
        ChangeView::Store => {
            store_keeps_consistent(chart);
        },
    }
}

/// All but the last of some changes can be made, and the last one after them.
pub(crate) proof fn can_change_by_steps(chart: ChartView, changes: Seq<ChangeView>)
    requires
        changes.len() > 0,
        chart.can_change(changes),
    ensures
        chart.can_change(changes.drop_last()),
        changes.last().is_fresh_for(chart.after_changes(changes.drop_last()).nodes),
{
    let earlier = changes.drop_last();
    assert forall|k: int| 0 <= k < earlier.len() implies (#[trigger] earlier[k]).is_fresh_for(
        chart.after_changes(earlier.take(k)).nodes,
    ) by {
        assert(earlier[k] == changes[k]);
        assert(earlier.take(k) =~= changes.take(k));
    }
    assert(changes[changes.len() - 1] == changes.last());
    assert(changes.take(changes.len() - 1) =~= earlier);
}

/// A consistent chart is consistent whatever is done with it.
pub proof fn changes_keep_consistent(chart: ChartView, changes: Seq<ChangeView>)
    requires
        chart.is_consistent(),
        chart.can_change(changes),
    ensures
        chart.after_changes(changes).is_consistent(),
    decreases changes.len(),
{
    if changes.len() > 0 {
        can_change_by_steps(chart, changes);
        changes_keep_consistent(chart, changes.drop_last());
        change_keeps_consistent(chart.after_changes(changes.drop_last()), changes.last());
    }
}

} // verus!
