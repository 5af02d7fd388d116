//! What holds of the accounts for manual transactions.
use vstd::prelude::*;

use super::bulk_import::import_order_keeps_length;
use super::entity::{after_manual_account, manual_account_answer, ManualAccountFromChartView};
use super::error::ChartOfAccountsErrorView;
use super::history::{can_change_by_steps, changes_keep_consistent, ChangeView};
use super::laws::{
    child_entered_keeps, first_index_is, import_first_keeps, manual_account_keeps_consistent,
    store_keeps_accounts, with_persisted_keeps,
};
use super::model::{import_order, ChartView, CreatedNodeView, NewNodeIds};
use super::nodes::{codes, manual_accounts};
use crate::primitives::account::{AccountIdOrCodeView, AccountSpecView};
use crate::primitives::account_code::dotted;
use crate::primitives::ids::{CalaJournalId, ChartNodeId, LedgerAccountId};

verus! {

/// The stored node at a place has a code and the account for manual
/// transactions, and no other stored node has that account.
pub open spec fn holds_manual_account(
    chart: ChartView,
    i: int,
    code: Seq<Seq<char>>,
    id: LedgerAccountId,
) -> bool {
    &&& chart.nodes.position(code) == Some(i)
    &&& 0 <= i < chart.nodes.persisted.len()
    &&& chart.nodes.persisted[i].spec.code == code
    &&& chart.nodes.persisted[i].manual_transaction_account_id == Some(id)
    &&& forall|j: int|
        0 <= j < chart.nodes.persisted.len() && (
        #[trigger] chart.nodes.persisted[j]).manual_transaction_account_id == Some(id) ==> j == i
}

/// What is answered for an account for manual transactions by its identifier:
/// the account itself as long as its node has no children, and from then on
/// that the node is no leaf.
pub open spec fn answer_for(children: nat, code: Seq<Seq<char>>, id: LedgerAccountId) -> Result<
    ManualAccountFromChartView,
    ChartOfAccountsErrorView,
> {
    if children == 0 {
        Ok(ManualAccountFromChartView::IdInChart(id))
    } else {
        Err(ChartOfAccountsErrorView::NonLeafAccount(dotted(code)))
    }
}

/// An assigned account is answered for by the children that its node has at
/// the moment of the call.
pub proof fn answer_is_of_the_moment(
    chart: ChartView,
    i: int,
    code: Seq<Seq<char>>,
    id: LedgerAccountId,
    other_id: LedgerAccountId,
)
    requires
        holds_manual_account(chart, i, code, id),
    ensures
        manual_account_answer(chart, AccountIdOrCodeView::Id(id), other_id) == answer_for(
            chart.nodes.persisted[i].children.len(),
            code,
            id,
        ),
        after_manual_account(chart, AccountIdOrCodeView::Id(id), other_id) == chart,
{
    let all = manual_accounts(chart.nodes.persisted);
    assert forall|j: int| 0 <= j < i implies all[j] != Some(id) by {
        assert(all[j] == chart.nodes.persisted[j].manual_transaction_account_id);
    }
    first_index_is(all, Some(id), i);
}

/// To look for or assign another account leaves an assigned account and its
/// node as they are, and what is answered for it too.
pub proof fn other_manual_accounts_leave_it(
    chart: ChartView,
    i: int,
    code: Seq<Seq<char>>,
    id: LedgerAccountId,
    other: AccountIdOrCodeView,
    new_id: LedgerAccountId,
    other_id: LedgerAccountId,
)
    requires
        holds_manual_account(chart, i, code, id),
        new_id != id,
    ensures
        ({
            let after = after_manual_account(chart, other, new_id);
            &&& holds_manual_account(after, i, code, id)
            &&& after.nodes.persisted[i] == chart.nodes.persisted[i]
            &&& manual_account_answer(after, AccountIdOrCodeView::Id(id), other_id)
                == manual_account_answer(chart, AccountIdOrCodeView::Id(id), other_id)
        }),
{
    let after = after_manual_account(chart, other, new_id);
    if let AccountIdOrCodeView::Code(other_code) = other {
        codes(chart.nodes.persisted).index_of_first_ensures(other_code);
        if let Some(k) = chart.nodes.position(other_code) {
            with_persisted_keeps(
                chart.nodes,
                k,
                chart.nodes.persisted[k].with_manual_account(new_id),
                code,
            );
        }
    }
    assert(holds_manual_account(after, i, code, id));
    answer_is_of_the_moment(chart, i, code, id, other_id);
    answer_is_of_the_moment(after, i, code, id, other_id);
}

/// Once the node of an assigned account has got a child, the account is
/// refused by its identifier.
pub proof fn child_makes_account_unusable(
    chart: ChartView,
    i: int,
    code: Seq<Seq<char>>,
    id: LedgerAccountId,
    spec: AccountSpecView,
    ids: NewNodeIds,
    other_id: LedgerAccountId,
)
    requires
        holds_manual_account(chart, i, code, id),
        spec.parent == Some(code),
        chart.nodes.details(spec.code) is None,
    ensures
        manual_account_answer(
            chart.after_create(spec, ids),
            AccountIdOrCodeView::Id(id),
            other_id,
        ) == Err::<ManualAccountFromChartView, ChartOfAccountsErrorView>(
            ChartOfAccountsErrorView::NonLeafAccount(dotted(code)),
        ),
{
    let change = ChangeView::Create { spec, ids };
    change_leaves_manual_account(chart, change, i, code, id);
    answer_is_of_the_moment(chart.after_create(spec, ids), i, code, id, other_id);
}

/// Whatever is done with a chart, an assigned account stays with its node. The
/// node keeps its children. An account that is created under it is one more.
pub proof fn change_leaves_manual_account(
    chart: ChartView,
    change: ChangeView,
    i: int,
    code: Seq<Seq<char>>,
    id: LedgerAccountId,
)
    requires
        holds_manual_account(chart, i, code, id),
        change matches ChangeView::ManualAccount { new_id, .. } ==> new_id != id,
        change matches ChangeView::Import { specs, ids, .. } ==> ids.len() == specs.len(),
        change matches ChangeView::Configure { specs, ids, .. } ==> ids.len() == specs.len(),
        change is Store ==> chart.nodes.all_ids_are_unique(),
    ensures
        ({
            let after = chart.after_change(change);
            let was = chart.nodes.persisted[i].children;
            let now = after.nodes.persisted[i].children;
            &&& holds_manual_account(after, i, code, id)
            &&& now.len() >= was.len()
            &&& !(change is Create || change is Import || change is Configure) ==> now == was
            &&& change matches ChangeView::Create { spec, .. } ==> spec.parent == Some(code)
                && chart.nodes.details(spec.code) is None ==> now.len() > 0
        }),
{
    let after = chart.after_change(change);
    match change {
        ChangeView::Create { spec, ids } => {
            if chart.nodes.details(spec.code) is None {
                child_entered_leaves_manual_accounts(chart, spec.parent, ids.node_id, i, code, id);
                let entered = chart.with_child_entered(spec.parent, ids.node_id);
                assert(after.nodes.persisted == entered.nodes.persisted);
                if spec.parent == Some(code) {
                    let node = chart.nodes.persisted[i];
                    assert(after.nodes.persisted[i] == node.with_child(ids.node_id));
                    if node.children.contains(ids.node_id) {
                        assert(node.children.len() > 0);
                    }
                }
            }
        },
        ChangeView::CreateWithChildren { .. } => {},
        ChangeView::Import { specs, ids, journal_id } => {
            import_leaves_manual_account(chart, specs, ids, journal_id, i, code, id);
        },
        ChangeView::Configure { specs, config, journal_id, ids } => {
            import_leaves_manual_account(chart, specs, ids, journal_id, i, code, id);
        },
        ChangeView::ManualAccount { account, new_id } => {
            other_manual_accounts_leave_it(chart, i, code, id, account, new_id, new_id);
        },
        ChangeView::Close { .. } => {},
        ChangeView::Post { .. } => {},
        ChangeView::Store => {
            store_keeps_accounts(chart.nodes, code);
            let before_codes = codes(chart.nodes.persisted);
            let after_codes = codes(after.nodes.persisted);
            before_codes.index_of_first_ensures(code);
            assert forall|j: int| 0 <= j < before_codes.len() implies after_codes[j]
                == before_codes[j] by {}
            first_index_is(after_codes, code, i);
            assert forall|j: int|
                0 <= j < after.nodes.persisted.len() && (
                #[trigger] after.nodes.persisted[j]).manual_transaction_account_id == Some(
                    id,
                ) implies j == i by {
                if j < chart.nodes.persisted.len() {
                    assert(after.nodes.persisted[j] == chart.nodes.persisted[j]);
                }
            }
        },
    }
}

/// To enter a child leaves the accounts for manual transactions as they are.
pub(crate) proof fn child_entered_leaves_manual_accounts(
    chart: ChartView,
    parent: Option<Seq<Seq<char>>>,
    child: ChartNodeId,
    i: int,
    code: Seq<Seq<char>>,
    id: LedgerAccountId,
)
    requires
        holds_manual_account(chart, i, code, id),
    ensures
        ({
            let after = chart.with_child_entered(parent, child);
            &&& holds_manual_account(after, i, code, id)
            &&& after.nodes.persisted[i].children.len() >= chart.nodes.persisted[i].children.len()
        }),
{
    let after = chart.with_child_entered(parent, child);
    child_entered_keeps(chart, parent, child);
    if let Some(parent_code) = parent {
        codes(chart.nodes.persisted).index_of_first_ensures(parent_code);
    }
    assert forall|j: int|
        0 <= j < after.nodes.persisted.len() && (
        #[trigger] after.nodes.persisted[j]).manual_transaction_account_id == Some(
            id,
        ) implies j == i by {
        assert(chart.nodes.persisted[j].manual_transaction_account_id
            == after.nodes.persisted[j].manual_transaction_account_id);
    }
}

proof fn created_entered_leaves_manual_account(
    chart: ChartView,
    created: Seq<CreatedNodeView>,
    i: int,
    code: Seq<Seq<char>>,
    id: LedgerAccountId,
)
    requires
        holds_manual_account(chart, i, code, id),
    ensures
        ({
            let after = chart.with_created_entered(created);
            &&& holds_manual_account(after, i, code, id)
            &&& after.nodes.persisted[i].children.len() >= chart.nodes.persisted[i].children.len()
        }),
    decreases created.len(),
{
    if created.len() > 0 {
        let before = chart.with_created_entered(created.drop_last());
        created_entered_leaves_manual_account(chart, created.drop_last(), i, code, id);
        child_entered_leaves_manual_accounts(
            before,
            created.last().parent,
            created.last().node_id,
            i,
            code,
            id,
        );
    }
}

proof fn import_leaves_manual_account(
    chart: ChartView,
    specs: Seq<AccountSpecView>,
    ids: Seq<NewNodeIds>,
    journal_id: CalaJournalId,
    i: int,
    code: Seq<Seq<char>>,
    id: LedgerAccountId,
)
    requires
        holds_manual_account(chart, i, code, id),
        ids.len() == specs.len(),
    ensures
        ({
            let after = chart.after_import(specs, ids, journal_id);
            &&& holds_manual_account(after, i, code, id)
            &&& after.nodes.persisted[i].children.len() >= chart.nodes.persisted[i].children.len()
        }),
{
    let import = chart.imported(specs, ids, journal_id);
    import_order_keeps_length(specs);
    import_first_keeps(chart, import_order(specs), ids, journal_id, specs.len() as int);
    assert(holds_manual_account(import.chart, i, code, id));
    created_entered_leaves_manual_account(import.chart, import.created, i, code, id);
}

/// The changes do not assign the account to another node.
pub open spec fn leave_out_account(changes: Seq<ChangeView>, id: LedgerAccountId) -> bool {
    forall|k: int|
        0 <= k < changes.len() ==> ((#[trigger] changes[k]) matches ChangeView::ManualAccount {
            new_id,
            ..
        } ==> new_id != id)
}

/// Whatever is done with a chart, an assigned account stays with its node, and
/// the node keeps its children.
pub proof fn changes_leave_manual_account(
    chart: ChartView,
    changes: Seq<ChangeView>,
    i: int,
    code: Seq<Seq<char>>,
    id: LedgerAccountId,
)
    requires
        chart.is_consistent(),
        chart.can_change(changes),
        leave_out_account(changes, id),
        holds_manual_account(chart, i, code, id),
    ensures
        ({
            let after = chart.after_changes(changes);
            let was = chart.nodes.persisted[i].children;
            let now = after.nodes.persisted[i].children;
            &&& holds_manual_account(after, i, code, id)
            &&& now.len() >= was.len()
            &&& (forall|k: int|
                0 <= k < changes.len() ==> !((#[trigger] changes[k]) is Create || changes[k]
                    is Import || changes[k] is Configure)) ==> now == was
        }),
    decreases changes.len(),
{
    if changes.len() > 0 {
        let earlier = changes.drop_last();
        let before = chart.after_changes(earlier);
        can_change_by_steps(chart, changes);
        assert(forall|k: int| 0 <= k < earlier.len() ==> #[trigger] earlier[k] == changes[k]);
        changes_leave_manual_account(chart, earlier, i, code, id);
        changes_keep_consistent(chart, earlier);
        assert(changes[changes.len() - 1] == changes.last());
        change_leaves_manual_account(before, changes.last(), i, code, id);
    }
}

/// An account that was assigned to the node of a code keeps answering by its
/// identifier, whatever was done since, by the children that the node has at
/// the moment of the call: with none the answer is the account, with any it is
/// that the node is no leaf. Where no account was added since, the answer is
/// the account.
pub proof fn assigned_account_keeps_answering(
    chart: ChartView,
    code: Seq<Seq<char>>,
    id: LedgerAccountId,
    changes: Seq<ChangeView>,
    other_id: LedgerAccountId,
)
    requires
        chart.is_consistent(),
        manual_account_answer(chart, AccountIdOrCodeView::Code(code), id) matches Ok(
            ManualAccountFromChartView::NewAccount(_, _),
        ),
        !manual_accounts(chart.nodes.persisted).contains(Some(id)),
        after_manual_account(chart, AccountIdOrCodeView::Code(code), id).can_change(changes),
        leave_out_account(changes, id),
    ensures
        ({
            let assigned = after_manual_account(chart, AccountIdOrCodeView::Code(code), id);
            let after = assigned.after_changes(changes);
            let i = chart.nodes.position(code)->0;
            let answer = manual_account_answer(after, AccountIdOrCodeView::Id(id), other_id);
            &&& after.nodes.position(code) == Some(i)
            &&& answer == answer_for(after.nodes.persisted[i].children.len(), code, id)
            &&& (forall|k: int|
                0 <= k < changes.len() ==> !((#[trigger] changes[k]) is Create || changes[k]
                    is Import || changes[k] is Configure)) ==> answer == answer_for(0, code, id)
        }),
{
    let assigned = after_manual_account(chart, AccountIdOrCodeView::Code(code), id);
    let i = chart.nodes.position(code)->0;
    assigned_is_held(chart, code, id);
    manual_account_keeps_consistent(chart, AccountIdOrCodeView::Code(code), id);
    changes_leave_manual_account(assigned, changes, i, code, id);
    answer_is_of_the_moment(assigned.after_changes(changes), i, code, id, other_id);
}

/// A new account is held by the node of its code, which has no children.
proof fn assigned_is_held(chart: ChartView, code: Seq<Seq<char>>, id: LedgerAccountId)
    requires
        manual_account_answer(chart, AccountIdOrCodeView::Code(code), id) matches Ok(
            ManualAccountFromChartView::NewAccount(_, _),
        ),
        !manual_accounts(chart.nodes.persisted).contains(Some(id)),
    ensures
        ({
            let assigned = after_manual_account(chart, AccountIdOrCodeView::Code(code), id);
            let i = chart.nodes.position(code)->0;
            &&& holds_manual_account(assigned, i, code, id)
            &&& assigned.nodes.persisted[i].children.len() == 0
        }),
{
    let assigned = after_manual_account(chart, AccountIdOrCodeView::Code(code), id);
    codes(chart.nodes.persisted).index_of_first_ensures(code);
    let i = chart.nodes.position(code)->0;
    let node = chart.nodes.persisted[i].with_manual_account(id);
    with_persisted_keeps(chart.nodes, i, node, code);
    assert forall|j: int|
        0 <= j < assigned.nodes.persisted.len() && (
        #[trigger] assigned.nodes.persisted[j]).manual_transaction_account_id == Some(
            id,
        ) implies j == i by {
        if j != i {
            assert(manual_accounts(chart.nodes.persisted)[j]
                == chart.nodes.persisted[j].manual_transaction_account_id);
        }
    }
}

/// An account that was assigned to the node of a code is refused by its
/// identifier once an account was created under that node, whatever was done
/// before and after.
pub proof fn assigned_account_is_refused_with_children(
    chart: ChartView,
    code: Seq<Seq<char>>,
    id: LedgerAccountId,
    changes: Seq<ChangeView>,
    at: int,
    other_id: LedgerAccountId,
)
    requires
        chart.is_consistent(),
        manual_account_answer(chart, AccountIdOrCodeView::Code(code), id) matches Ok(
            ManualAccountFromChartView::NewAccount(_, _),
        ),
        !manual_accounts(chart.nodes.persisted).contains(Some(id)),
        after_manual_account(chart, AccountIdOrCodeView::Code(code), id).can_change(changes),
        leave_out_account(changes, id),
        0 <= at < changes.len(),
        changes[at] matches ChangeView::Create { spec, .. } && spec.parent == Some(code)
            && after_manual_account(chart, AccountIdOrCodeView::Code(code), id).after_changes(
            changes.take(at),
        ).nodes.details(spec.code) is None,
    ensures
        manual_account_answer(
            after_manual_account(chart, AccountIdOrCodeView::Code(code), id).after_changes(changes),
            AccountIdOrCodeView::Id(id),
            other_id,
        ) == Err::<ManualAccountFromChartView, ChartOfAccountsErrorView>(
            ChartOfAccountsErrorView::NonLeafAccount(dotted(code)),
        ),
{
    let assigned = after_manual_account(chart, AccountIdOrCodeView::Code(code), id);
    let i = chart.nodes.position(code)->0;
    assigned_is_held(chart, code, id);
    manual_account_keeps_consistent(chart, AccountIdOrCodeView::Code(code), id);
    child_is_kept(assigned, changes, at, i, code, id);
    answer_is_of_the_moment(assigned.after_changes(changes), i, code, id, other_id);
}

proof fn child_is_kept(
    chart: ChartView,
    changes: Seq<ChangeView>,
    at: int,
    i: int,
    code: Seq<Seq<char>>,
    id: LedgerAccountId,
)
    requires
        chart.is_consistent(),
        chart.can_change(changes),
        leave_out_account(changes, id),
        holds_manual_account(chart, i, code, id),
        0 <= at < changes.len(),
        changes[at] matches ChangeView::Create { spec, .. } && spec.parent == Some(code)
            && chart.after_changes(changes.take(at)).nodes.details(spec.code) is None,
    ensures
        holds_manual_account(chart.after_changes(changes), i, code, id),
        chart.after_changes(changes).nodes.persisted[i].children.len() > 0,
    decreases changes.len(),
{
    let earlier = changes.drop_last();
    let before = chart.after_changes(earlier);
    can_change_by_steps(chart, changes);
    assert(forall|k: int| 0 <= k < earlier.len() ==> #[trigger] earlier[k] == changes[k]);
    changes_leave_manual_account(chart, earlier, i, code, id);
    changes_keep_consistent(chart, earlier);
    assert(changes[changes.len() - 1] == changes.last());
    change_leaves_manual_account(before, changes.last(), i, code, id);
    if at == changes.len() - 1 {
        assert(changes.take(at) =~= earlier);
    } else {
        assert(earlier.take(at) =~= changes.take(at));
        child_is_kept(chart, earlier, at, i, code, id);
    }
}

} // verus!
