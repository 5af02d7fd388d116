//! What creating an account is for.
use vstd::prelude::*;

use super::entity::{
    creates_child, creates_node, creates_with_children, NewAccountSetWithNodeId,
    NewChartAccountDetails,
};
use super::error::{ChartOfAccountsError, ChartOfAccountsErrorView};
use super::facts::{
    known_is_what_the_node_says, new_at, new_is_found, none_has, none_stored, nothing_is_found,
    stored_at, stored_is_found,
};
use super::model::{ChartView, NewNodeIds};
use crate::idempotent::Idempotent;
use crate::primitives::account::AccountSpecView;
use crate::primitives::account_code::{dotted, AccountCodeParseError};
use crate::primitives::ids::{CalaJournalId, ChartNodeId};

verus! {

/// A created account is new to the chart. The ledger gets an account set for
/// it with the account's code, name and side, in the journal and for the chart
/// that were given. It is put under the account set of its parent where the
/// parent is stored, whatever its level, and else under that of the chart.
pub proof fn created_account_goes_under_its_parent(
    before: ChartView,
    spec: AccountSpecView,
    journal_id: CalaJournalId,
    ids: NewNodeIds,
    after: ChartView,
    created: NewChartAccountDetails,
    parent: Seq<Seq<char>>,
    i: int,
)
    requires
        creates_node(before, spec, journal_id, ids, after, Idempotent::Executed(created)),
    ensures
        none_has(before.nodes, spec.code),
        created.new_account_set@.id == ids.account_set_id,
        created.new_account_set@.journal_id == journal_id,
        created.new_account_set@.chart_id == before.id,
        created.new_account_set@.code == spec.code,
        created.new_account_set@.name == spec.name,
        created.new_account_set@.normal_balance_type == spec.normal_balance_type,
        spec.parent is None ==> created.parent_account_set_id == before.account_set_id,
        spec.parent == Some(parent) && stored_at(before.nodes, i, parent)
            ==> created.parent_account_set_id == before.nodes.persisted[i].account_set_id,
        spec.parent == Some(parent) && none_stored(before.nodes, parent)
            ==> created.parent_account_set_id == before.account_set_id,
{
    nothing_is_found(before.nodes, spec.code);
    nothing_is_found(before.nodes, parent);
    if stored_at(before.nodes, i, parent) {
        stored_is_found(before.nodes, i, parent);
    }
}

/// A created account is the chart's last new node, with no children. Its stored
/// parent has it as a child. All else stays as it was.
pub proof fn created_account_is_entered(
    before: ChartView,
    spec: AccountSpecView,
    journal_id: CalaJournalId,
    ids: NewNodeIds,
    after: ChartView,
    created: NewChartAccountDetails,
    parent: Seq<Seq<char>>,
    i: int,
    j: int,
)
    requires
        creates_node(before, spec, journal_id, ids, after, Idempotent::Executed(created)),
    ensures
        after.nodes.new.len() == before.nodes.new.len() + 1,
        after.nodes.new.drop_last() == before.nodes.new,
        after.nodes.new.last().id == ids.node_id,
        after.nodes.new.last().chart_id == before.id,
        after.nodes.new.last().spec == spec,
        after.nodes.new.last().ledger_account_set_id == ids.account_set_id,
        after.nodes.new.last().children_node_ids.len() == 0,
        after.nodes.persisted.len() == before.nodes.persisted.len(),
        spec.parent == Some(parent) && stored_at(before.nodes, i, parent) ==> {
            let was = before.nodes.persisted[i];
            let now = after.nodes.persisted[i];
            &&& now.children.contains(ids.node_id)
            &&& now.children == was.children || now.children == was.children.push(ids.node_id)
            &&& now.id == was.id
            &&& now.chart_id == was.chart_id
            &&& now.spec == was.spec
            &&& now.account_set_id == was.account_set_id
            &&& now.manual_transaction_account_id == was.manual_transaction_account_id
        },
        0 <= j < before.nodes.persisted.len() && !(spec.parent == Some(parent) && stored_at(
            before.nodes,
            j,
            parent,
        )) && (spec.parent is Some ==> spec.parent == Some(parent)) ==> after.nodes.persisted[j]
            == before.nodes.persisted[j],
        after.id == before.id,
        after.account_set_id == before.account_set_id,
        after.reference == before.reference,
        after.name == before.name,
        after.base_config == before.base_config,
        after.events == before.events,
{
    nothing_is_found(before.nodes, parent);
    assert(after.nodes.new.drop_last() =~= before.nodes.new);
    if let Some(code) = spec.parent {
        nothing_is_found(before.nodes, code);
        known_is_what_the_node_says(before.nodes, code);
        if let Some(k) = before.nodes.position(code) {
            let at = choose|at: int| stored_at(before.nodes, at, code);
            stored_is_found(before.nodes, at, code);
            assert(stored_at(before.nodes, k, code));
            let children = before.nodes.persisted[k].children;
            if !children.contains(ids.node_id) {
                assert(children.push(ids.node_id)[children.len() as int] == ids.node_id);
            }
        }
    }
    if stored_at(before.nodes, i, parent) {
        stored_is_found(before.nodes, i, parent);
    }
}

/// An account is left out exactly if some node has its code, and then nothing
/// changes.
pub proof fn known_account_is_left_out(
    before: ChartView,
    spec: AccountSpecView,
    journal_id: CalaJournalId,
    ids: NewNodeIds,
    after: ChartView,
    res: Idempotent<NewChartAccountDetails>,
)
    requires
        creates_node(before, spec, journal_id, ids, after, res),
    ensures
        res is AlreadyApplied <==> !none_has(before.nodes, spec.code),
        res is AlreadyApplied ==> after == before,
{
    nothing_is_found(before.nodes, spec.code);
}

/// An account that is created above others becomes the chart's last new node,
/// with those as its children. No stored node changes. One whose code some
/// node has is left out, and nothing changes.
pub proof fn account_is_created_above_others(
    before: ChartView,
    spec: AccountSpecView,
    journal_id: CalaJournalId,
    children: Seq<ChartNodeId>,
    ids: NewNodeIds,
    after: ChartView,
    res: Idempotent<NewAccountSetWithNodeId>,
)
    requires
        creates_with_children(before, spec, journal_id, children, ids, after, res),
    ensures
        res is AlreadyApplied <==> !none_has(before.nodes, spec.code),
        res is AlreadyApplied ==> after == before,
        res matches Idempotent::Executed(created) ==> {
            &&& created.node_id == ids.node_id
            &&& created.new_account_set@.id == ids.account_set_id
            &&& created.new_account_set@.journal_id == journal_id
            &&& created.new_account_set@.chart_id == before.id
            &&& created.new_account_set@.code == spec.code
            &&& created.new_account_set@.name == spec.name
            &&& created.new_account_set@.normal_balance_type == spec.normal_balance_type
            &&& after.nodes.persisted == before.nodes.persisted
            &&& after.nodes.new.len() == before.nodes.new.len() + 1
            &&& after.nodes.new.drop_last() == before.nodes.new
            &&& after.nodes.new.last().id == ids.node_id
            &&& after.nodes.new.last().chart_id == before.id
            &&& after.nodes.new.last().spec == spec
            &&& after.nodes.new.last().ledger_account_set_id == ids.account_set_id
            &&& after.nodes.new.last().children_node_ids == children
            &&& after.events == before.events
            &&& after.base_config == before.base_config
        },
{
    nothing_is_found(before.nodes, spec.code);
    if res is Executed {
        assert(after.nodes.new.drop_last() =~= before.nodes.new);
    }
}

/// A child is refused if no node has the parent's code, and then if the
/// parent's code is not a proper, non-empty beginning of its own. Otherwise the
/// account that is created has the code and name that were given and the
/// parent's side.
pub proof fn child_takes_after_its_parent(
    before: ChartView,
    parent: Seq<Seq<char>>,
    code: Seq<Seq<char>>,
    name: Seq<char>,
    journal_id: CalaJournalId,
    ids: NewNodeIds,
    after: ChartView,
    res: Result<Idempotent<NewChartAccountDetails>, ChartOfAccountsError>,
    i: int,
)
    requires
        creates_child(before, parent, code, name, journal_id, ids, after, res),
    ensures
        res is Err ==> after == before,
        none_has(before.nodes, parent) ==> (res matches Err(e) && e@
            == ChartOfAccountsErrorView::ParentAccountNotFound(dotted(parent))),
        !none_has(before.nodes, parent) && !(0 < parent.len() < code.len() && forall|k: int|
            0 <= k < parent.len() ==> #[trigger] code[k] == parent[k]) ==> (res matches Err(e) && e@
            == ChartOfAccountsErrorView::AccountCodeParseError(
            AccountCodeParseError::InvalidParent,
        )),
        !none_has(before.nodes, parent) && 0 < parent.len() < code.len() && (forall|k: int|
            0 <= k < parent.len() ==> #[trigger] code[k] == parent[k]) ==> res is Ok,
        res matches Ok(Idempotent::AlreadyApplied) ==> after == before && !none_has(
            before.nodes,
            code,
        ),
        res matches Ok(Idempotent::Executed(created)) ==> {
            &&& none_has(before.nodes, code)
            &&& created.new_account_set@.id == ids.account_set_id
            &&& created.new_account_set@.journal_id == journal_id
            &&& created.new_account_set@.chart_id == before.id
            &&& created.new_account_set@.code == code
            &&& created.new_account_set@.name == name
            &&& after.nodes.new.len() == before.nodes.new.len() + 1
            &&& after.nodes.new.last().spec.parent == Some(parent)
            &&& after.nodes.new.last().spec.code == code
            &&& after.nodes.new.last().spec.name == name
            &&& after.nodes.new.last().id == ids.node_id
            &&& stored_at(before.nodes, i, parent) ==> {
                let above = before.nodes.persisted[i];
                &&& created.parent_account_set_id == above.account_set_id
                &&& created.new_account_set@.normal_balance_type == above.spec.normal_balance_type
                &&& after.nodes.new.last().spec.normal_balance_type
                    == above.spec.normal_balance_type
                &&& after.nodes.persisted[i].children.contains(ids.node_id)
            }
            &&& none_stored(before.nodes, parent) && new_at(before.nodes, i, parent) ==> {
                let above = before.nodes.new[i];
                &&& created.parent_account_set_id == before.account_set_id
                &&& created.new_account_set@.normal_balance_type == above.spec.normal_balance_type
                &&& after.nodes.new.last().spec.normal_balance_type
                    == above.spec.normal_balance_type
            }
        },
{
    nothing_is_found(before.nodes, parent);
    nothing_is_found(before.nodes, code);
    if stored_at(before.nodes, i, parent) {
        stored_is_found(before.nodes, i, parent);
    }
    if none_stored(before.nodes, parent) && new_at(before.nodes, i, parent) {
        new_is_found(before.nodes, i, parent);
    }
    let is_beginning = 0 < parent.len() < code.len() && forall|k: int|
        0 <= k < parent.len() ==> #[trigger] code[k] == parent[k];
    if is_beginning {
        assert(code.take(parent.len() as int) =~= parent);
    } else if 0 < parent.len() < code.len() {
        if code.take(parent.len() as int) == parent {
            assert forall|k: int| 0 <= k < parent.len() implies #[trigger] code[k] == parent[k] by {
                assert(code.take(parent.len() as int)[k] == parent[k]);
            }
        }
    }
    if let Ok(Idempotent::Executed(created)) = res {
        let spec = AccountSpecView {
            parent: Some(parent),
            code,
            name,
            normal_balance_type: before.nodes.details(parent)->0.spec.normal_balance_type,
        };
        assert(creates_node(before, spec, journal_id, ids, after, Idempotent::Executed(created)));
        created_account_goes_under_its_parent(
            before,
            spec,
            journal_id,
            ids,
            after,
            created,
            parent,
            i,
        );
        created_account_is_entered(
            before,
            spec,
            journal_id,
            ids,
            after,
            created,
            parent,
            i,
            0,
        );
    }
}

} // verus!
