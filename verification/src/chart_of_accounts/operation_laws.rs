//! What holds of every operation on a chart.
use vstd::prelude::*;

use super::bulk_import::import_order_keeps_length;
use super::entity::child_spec;
use super::import_laws::{
    import_first_of_known, import_is_complete, import_needs_only, imported_is_known,
};
use super::laws::{
    are_fresh, close_keeps_consistent, configure_keeps_consistent, create_keeps_consistent,
    import_keeps_consistent, manual_account_keeps_consistent, post_keeps_consistent,
    store_keeps_accounts, store_keeps_consistent,
};
use super::model::{import_order, ChartView, NewNodeIds};
use super::operation::{FailureView, OperationView, ReplyView, Request, StatusView, Task};
use crate::primitives::account::AccountSpecView;
use crate::primitives::closing::closing_codes;
use crate::primitives::ids::LedgerAccountId;

verus! {

/// A task that cannot be carried out, such as one for which permission is
/// refused, ends the operation with that error. Nothing more is to be done,
/// and the chart is left as it was.
pub proof fn failure_ends_the_operation<E>(
    op: OperationView<E>,
    error: E,
    ids: Seq<NewNodeIds>,
    new_id: LedgerAccountId,
)
    requires
        op.pending() is Some,
    ensures
        ({
            let after = op.after(ReplyView::Failed { error }, ids, new_id);
            &&& after.status == StatusView::Failed(FailureView::Outside(error))
            &&& after.pending() is None
            &&& after.chart == op.chart
        }),
{
}

/// An operation that is at its end stays as it is.
pub proof fn ended_operations_stay<E>(
    op: OperationView<E>,
    reply: ReplyView<E>,
    ids: Seq<NewNodeIds>,
    new_id: LedgerAccountId,
)
    requires
        op.is_sound(),
        op.status is Finished || op.status is Failed,
    ensures
        op.after(reply, ids, new_id) == op,
{
}

/// Nothing is written before every question is answered: a task that is no
/// question is pending only when the operation has decided. As long as a
/// question is open, no reply lets it decide.
pub proof fn questions_come_first<E>(
    op: OperationView<E>,
    reply: ReplyView<E>,
    ids: Seq<NewNodeIds>,
    new_id: LedgerAccountId,
)
    requires
        op.is_sound(),
    ensures
        op.pending() matches Some(task) ==> task.is_question() || op.status is Writing,
        op.status is Asking && op.todo.len() > 1 ==> {
            let after = op.after(reply, ids, new_id);
            &&& after.status is Asking || after.status is Failed
            &&& after.plan == op.plan
            &&& after.changed == op.changed
        },
{
    if op.todo.len() > 0 && op.status is Asking {
        assert(op.todo[0].is_question());
    }
}

/// The transaction is committed when all else is done. Only the trial balance
/// may come after it.
pub open spec fn commit_is_last(todo: Seq<Task>) -> bool {
    forall|i: int, j: int|
        0 <= i < j < todo.len() && (#[trigger] todo[i]) == Task::Commit ==> (#[trigger] todo[j])
            == Task::AddToTrialBalance
}

proof fn decided_commits_last<E>(
    op: OperationView<E>,
    specs: Seq<AccountSpecView>,
    ids: Seq<NewNodeIds>,
    new_id: LedgerAccountId,
)
    ensures
        commit_is_last(op.decided(specs, ids, new_id).todo),
{
}

proof fn stored_commits_last<E>(op: OperationView<E>)
    ensures
        commit_is_last(op.stored().todo),
{
}

/// Whatever is replied, the commit stays last.
pub proof fn commit_stays_last<E>(
    op: OperationView<E>,
    reply: ReplyView<E>,
    ids: Seq<NewNodeIds>,
    new_id: LedgerAccountId,
)
    requires
        commit_is_last(op.todo),
    ensures
        commit_is_last(op.after(reply, ids, new_id).todo),
{
    let rest = op.todo.drop_first();
    if op.todo.len() > 0 {
        assert(forall|i: int| 0 <= i < rest.len() ==> #[trigger] rest[i] == op.todo[i + 1]);
        assert(commit_is_last(rest));
        match reply {
            ReplyView::Found { chart } => {
                let found = op.with_chart(chart);
                decided_commits_last(
                    OperationView { todo: rest, ..found },
                    Seq::empty(),
                    ids,
                    new_id,
                );
            },
            ReplyView::Parsed { account_specs } => {
                decided_commits_last(
                    OperationView { todo: rest, ..op },
                    account_specs,
                    ids,
                    new_id,
                );
            },
            ReplyView::Done => {
                stored_commits_last(op);
                decided_commits_last(
                    OperationView { todo: rest, ..op },
                    Seq::empty(),
                    ids,
                    new_id,
                );
            },
            ReplyView::NotFound => {
                decided_commits_last(
                    OperationView { todo: rest, ..op },
                    Seq::empty(),
                    ids,
                    new_id,
                );
            },
            _ => {},
        }
    }
}

/// The operation after its next `n` tasks are done.
pub open spec fn after_done<E>(
    op: OperationView<E>,
    n: nat,
    ids: Seq<NewNodeIds>,
    new_id: LedgerAccountId,
) -> OperationView<E>
    decreases n,
{
    if n == 0 {
        op
    } else {
        after_done(op.after(ReplyView::Done, ids, new_id), (n - 1) as nat, ids, new_id)
    }
}

/// What is decided is done: when each of the tasks is carried out, the
/// operation is at its end, and in between the tasks are pending one after the
/// other.
pub proof fn writes_come_to_an_end<E>(
    op: OperationView<E>,
    n: nat,
    ids: Seq<NewNodeIds>,
    new_id: LedgerAccountId,
)
    requires
        op.status is Writing,
        op.todo.len() > 0,
        forall|i: int| 0 <= i < op.todo.len() ==> (#[trigger] op.todo[i]).is_plain(),
        n <= op.todo.len(),
    ensures
        n < op.todo.len() ==> after_done(op, n, ids, new_id) == (OperationView {
            todo: op.todo.skip(n as int),
            ..op
        }) && after_done(op, n, ids, new_id).pending() == Some(op.todo[n as int]),
        n == op.todo.len() ==> after_done(op, n, ids, new_id) == op.finished(),
    decreases n,
{
    if n == 0 {
        assert(op.todo.skip(0) =~= op.todo);
    } else {
        let next = op.after(ReplyView::Done, ids, new_id);
        assert(op.todo[0].is_plain());
        if op.todo.len() == 1 {
            assert(n == 1);
            assert(op.todo.drop_first().len() == 0);
            assert(next == op.finished());
            assert(after_done(next, 0, ids, new_id) == next);
        } else {
            assert(next == OperationView { todo: op.todo.drop_first(), ..op });
            assert(forall|i: int|
                0 <= i < next.todo.len() ==> #[trigger] next.todo[i] == op.todo[i + 1]);
            writes_come_to_an_end(next, (n - 1) as nat, ids, new_id);
            if n < op.todo.len() {
                assert(next.todo.skip(n - 1) =~= op.todo.skip(n as int));
            }
        }
    }
}

/// The chart of the operation, once it has one, is consistent.
pub open spec fn has_consistent_chart<E>(op: OperationView<E>) -> bool {
    op.chart matches Some(chart) ==> chart.is_consistent()
}

/// The identifiers for new nodes are not those of nodes that the operation's
/// chart, or the chart that comes back, has.
pub open spec fn ids_are_fresh_for<E>(
    op: OperationView<E>,
    reply: ReplyView<E>,
    ids: Seq<NewNodeIds>,
) -> bool {
    &&& op.chart matches Some(chart) ==> are_fresh(chart.nodes, ids)
    &&& reply matches ReplyView::Found { chart } ==> are_fresh(chart.nodes, ids)
}

proof fn decided_keeps_consistent<E>(
    op: OperationView<E>,
    specs: Seq<AccountSpecView>,
    ids: Seq<NewNodeIds>,
    new_id: LedgerAccountId,
)
    requires
        has_consistent_chart(op),
        op.chart matches Some(chart) ==> are_fresh(chart.nodes, ids),
        ids.len() >= specs.len(),
        ids.len() > 0,
    ensures
        has_consistent_chart(op.decided(specs, ids, new_id)),
{
    if let Some(chart) = op.chart {
        let used = ids.take(specs.len() as int);
        assert(forall|i: int| 0 <= i < used.len() ==> #[trigger] used[i] == ids[i]);
        assert(!chart.nodes.has_id(ids[0].node_id));
        match op.request {
            Request::ImportWithBaseConfig { base_config, .. } => {
                import_needs_only(chart, specs, ids, op.journal_id);
                configure_keeps_consistent(chart, specs, base_config@, op.journal_id, used);
            },
            Request::Import { .. } => {
                import_needs_only(chart, specs, ids, op.journal_id);
                import_keeps_consistent(chart, specs, used, op.journal_id);
            },
            Request::AddRootNode { spec, .. } => {
                create_keeps_consistent(chart, spec@, ids[0]);
            },
            Request::AddChildNode { parent_code, code, name, .. } => {
                create_keeps_consistent(
                    chart,
                    child_spec(chart, parent_code@, code@, name@),
                    ids[0],
                );
            },
            Request::CloseAsOf { closed_as_of } => {
                close_keeps_consistent(chart, closed_as_of);
            },
            Request::PostClosing { tx_details } => {
                if let Some(config) = chart.base_config {
                    post_keeps_consistent(chart, closing_codes(config), tx_details.posted_as_of);
                }
            },
            Request::ManualAccount { account_id_or_code } => {
                manual_account_keeps_consistent(chart, account_id_or_code@, new_id);
            },
            _ => {},
        }
    }
}

/// Whatever is replied, a consistent chart stays consistent.
pub proof fn operations_keep_charts_consistent<E>(
    op: OperationView<E>,
    reply: ReplyView<E>,
    ids: Seq<NewNodeIds>,
    new_id: LedgerAccountId,
)
    requires
        has_consistent_chart(op),
        reply matches ReplyView::Found { chart } ==> chart.is_consistent(),
        ids_are_fresh_for(op, reply, ids),
        ids.len() >= reply.nodes_needed(),
    ensures
        has_consistent_chart(op.after(reply, ids, new_id)),
{
    let rest = OperationView { todo: op.todo.drop_first(), ..op };
    match reply {
        ReplyView::Found { chart } => {
            decided_keeps_consistent(rest.with_chart(chart), Seq::empty(), ids, new_id);
        },
        ReplyView::Parsed { account_specs } => {
            decided_keeps_consistent(rest, account_specs, ids, new_id);
        },
        ReplyView::Done => {
            decided_keeps_consistent(rest, Seq::empty(), ids, new_id);
            if let Some(chart) = op.chart {
                store_keeps_consistent(chart);
            }
        },
        ReplyView::NotFound => {
            decided_keeps_consistent(rest, Seq::empty(), ids, new_id);
        },
        _ => {},
    }
}

/// When an import has its accounts, either none of them is new and it is at
/// its end, or it goes on to store them. Either way the chart then has an
/// account for every code that was to be imported, and once it is stored
/// nothing of it is left unstored.
pub proof fn imported_accounts_are_stored<E>(
    op: OperationView<E>,
    specs: Seq<AccountSpecView>,
    ids: Seq<NewNodeIds>,
    new_id: LedgerAccountId,
    i: int,
)
    requires
        op.request is Import,
        op.status is Asking,
        op.todo == seq![Task::ParseAccounts],
        op.chart matches Some(chart) && chart.is_consistent() && are_fresh(chart.nodes, ids),
        ids.len() == specs.len(),
        0 <= i < specs.len(),
    ensures
        ({
            let decided = op.after(ReplyView::Parsed { account_specs: specs }, ids, new_id);
            let begun = decided.after(ReplyView::Done, ids, new_id);
            let stored = begun.after(ReplyView::Done, ids, new_id);
            if decided.status is Finished {
                &&& decided.changed == op.changed
                &&& decided.chart matches Some(chart)
                &&& chart.nodes.details(specs[i].code) is Some
            } else {
                &&& decided.pending() == Some(Task::BeginOp)
                &&& begun.pending() == Some(Task::UpdateChart)
                &&& stored.chart matches Some(chart)
                &&& chart.nodes.details(specs[i].code) is Some
                &&& chart.nodes.new.len() == 0
                &&& stored.status is Writing
            }
        }),
{
    let chart = op.chart->0;
    let imported = chart.after_import(specs, ids, op.journal_id);
    import_keeps_consistent(chart, specs, ids, op.journal_id);
    import_is_complete(chart, specs, ids, op.journal_id, i);
    store_keeps_accounts(imported.nodes, specs[i].code);
    assert(op.todo.drop_first().len() == 0);
    let decided = op.after(ReplyView::Parsed { account_specs: specs }, ids, new_id);
    if !(decided.status is Finished) {
        assert(decided.todo == seq![Task::BeginOp, Task::UpdateChart]);
        let begun = decided.after(ReplyView::Done, ids, new_id);
        assert(begun.todo =~= seq![Task::UpdateChart]);
        assert(begun.after(ReplyView::Done, ids, new_id) == begun.stored());
    }
}

/// Accounts that were imported and stored are not written again: a second
/// import of them ends without a task, and leaves the chart as it is.
pub proof fn import_again_writes_nothing<E>(
    op: OperationView<E>,
    chart: ChartView,
    specs: Seq<AccountSpecView>,
    ids: Seq<NewNodeIds>,
    again: Seq<NewNodeIds>,
    new_id: LedgerAccountId,
)
    requires
        op.request is Import,
        chart.is_consistent(),
        ids.len() == specs.len(),
        are_fresh(chart.nodes, ids),
    ensures
        ({
            let imported = chart.after_import(specs, ids, op.journal_id);
            let stored = ChartView { nodes: imported.nodes.all_stored(), ..imported };
            op.with_chart(stored).decided(specs, again, new_id) == op.with_chart(stored).finished()
        }),
{
    let imported = chart.after_import(specs, ids, op.journal_id);
    let stored = ChartView { nodes: imported.nodes.all_stored(), ..imported };
    let order = import_order(specs);
    import_keeps_consistent(chart, specs, ids, op.journal_id);
    import_order_keeps_length(specs);
    assert forall|i: int| 0 <= i < order.len() implies stored.nodes.details(
        (#[trigger] order[i]).code,
    ) is Some by {
        imported_is_known(chart, specs, ids, op.journal_id, i);
        store_keeps_accounts(imported.nodes, order[i].code);
    }
    import_first_of_known(stored, order, again, op.journal_id, specs.len() as int);
}

} // verus!
