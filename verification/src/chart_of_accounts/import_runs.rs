//! What the operations that import accounts do once they have them.
use vstd::prelude::*;

use super::config_laws::configuring_sets_the_configuration;
use super::error::ChartOfAccountsErrorView;
use super::events::ChartEventView;
use super::facts::{is_at_top, none_has};
use super::import_laws::{import_needs_only, nothing_created_changes_nothing};
use super::import_meaning::{import_adds_each_missing_code_once, import_hands_over_what_it_adds};
use super::model::{BulkImportResultView, ChartView, NewNodeIds};
use super::operation::{
    connecting, listing, FailureView, OperationView, PlanView, ReplyView, StatusView, Task,
};
use super::run_laws::first_level_accounts_are_listed;
use crate::primitives::account::AccountSpecView;
use crate::primitives::ids::{CalaAccountSetId, CalaJournalId, LedgerAccountId};

verus! {

/// The tasks that put each new account set under another one stand in a list
/// from a place on, one for each connection and in their order.
pub open spec fn connects_from(
    todo: Seq<Task>,
    at: int,
    connections: Seq<(CalaAccountSetId, CalaAccountSetId)>,
) -> bool {
    &&& at + connections.len() <= todo.len()
    &&& forall|k: int|
        0 <= k < connections.len() ==> #[trigger] todo[at + k] == (Task::AddAccountSet {
            parent: connections[k].0,
            member: connections[k].1,
        })
}

/// An import adds nothing exactly if the chart has every code.
proof fn nothing_new_means_all_known(
    chart: ChartView,
    specs: Seq<AccountSpecView>,
    ids: Seq<NewNodeIds>,
    journal_id: CalaJournalId,
)
    requires
        ids.len() >= specs.len(),
    ensures
        chart.import_result(specs, ids, journal_id).new_account_sets.len() == 0 <==> forall|i: int|
            0 <= i < specs.len() ==> !none_has(chart.nodes, (#[trigger] specs[i]).code),
        chart.import_result(specs, ids, journal_id).new_account_sets.len() == 0
            ==> chart.after_import(specs, ids, journal_id) == chart,
{
    let used = ids.take(specs.len() as int);
    import_needs_only(chart, specs, ids, journal_id);
    let sets = chart.import_result(specs, used, journal_id).new_account_sets;
    if sets.len() == 0 {
        assert forall|i: int| 0 <= i < specs.len() implies !none_has(
            chart.nodes,
            (#[trigger] specs[i]).code,
        ) by {
            import_adds_each_missing_code_once(chart, specs, used, journal_id, i, 0, 0);
        }
        nothing_created_changes_nothing(chart, specs, used, journal_id);
    } else if forall|i: int|
        0 <= i < specs.len() ==> !none_has(chart.nodes, (#[trigger] specs[i]).code) {
        import_hands_over_what_it_adds(chart, specs, used, journal_id, 0);
        let node = chart.after_import(specs, used, journal_id).nodes.new[
            chart.nodes.new.len() as int
        ];
        let m = choose|m: int| 0 <= m < specs.len() && node.spec == #[trigger] specs[m];
        assert(!none_has(chart.nodes, specs[m].code));
    }
}

/// When an import has its accounts: if the chart has every code, nothing
/// happens. Otherwise the chart with the new accounts is to be stored in a new
/// transaction.
pub proof fn import_is_decided<E>(
    op: OperationView<E>,
    chart: ChartView,
    specs: Seq<AccountSpecView>,
    ids: Seq<NewNodeIds>,
    new_id: LedgerAccountId,
)
    requires
        op.request is Import,
        op.status is Asking,
        op.todo == seq![Task::ParseAccounts],
        op.chart == Some(chart),
        ids.len() >= specs.len(),
    ensures
        ({
            let decided = op.after(ReplyView::Parsed { account_specs: specs }, ids, new_id);
            let all_known = forall|i: int|
                0 <= i < specs.len() ==> !none_has(chart.nodes, (#[trigger] specs[i]).code);
            &&& all_known ==> {
                &&& decided.status is Finished
                &&& decided.chart == Some(chart)
                &&& decided.changed == op.changed
                &&& decided.listed == op.listed
            }
            &&& !all_known ==> {
                &&& decided.status is Writing
                &&& decided.changed
                &&& decided.request == op.request
                &&& decided.todo == seq![Task::BeginOp, Task::UpdateChart]
                &&& decided.plan == (PlanView::Accounts {
                    result: chart.import_result(specs, ids, op.journal_id),
                })
                &&& decided.chart == Some(chart.after_import(specs, ids, op.journal_id))
            }
        }),
{
    assert(op.todo.drop_first().len() == 0);
    nothing_new_means_all_known(chart, specs, ids, op.journal_id);
}

/// Imported accounts are stored with the chart. Then with the time of the
/// database the account sets are created and each is put under its parent's, and
/// all is committed. New accounts of the first level are listed, and added to
/// the trial balance after that if one is named.
pub proof fn import_is_written<E>(
    op: OperationView<E>,
    result: BulkImportResultView,
    ids: Seq<NewNodeIds>,
    new_id: LedgerAccountId,
    id: CalaAccountSetId,
)
    requires
        op.request is Import,
        op.status is Writing,
        op.todo == seq![Task::BeginOp, Task::UpdateChart],
        op.plan == (PlanView::Accounts { result }),
        op.chart is Some,
    ensures
        ({
            let begun = op.after(ReplyView::Done, ids, new_id);
            let stored = begun.after(ReplyView::Done, ids, new_id);
            let n = result.new_connections.len() as int;
            &&& begun.todo == seq![Task::UpdateChart]
            &&& stored.status is Writing
            &&& stored.plan == op.plan
            &&& stored.todo.len() == 3 + n + if op.request->Import_trial_balance_ref is Some {
                1int
            } else {
                0int
            }
            &&& stored.todo[0] == Task::UseDbTime
            &&& stored.todo[1] == Task::CreateAccountSets
            &&& connects_from(stored.todo, 2, result.new_connections)
            &&& stored.todo[2 + n] == Task::Commit
            &&& op.request->Import_trial_balance_ref is Some ==> stored.todo[3 + n]
                == Task::AddToTrialBalance
            &&& stored.chart matches Some(kept)
            &&& kept.nodes.new.len() == 0
            &&& stored.listed.contains(id) <==> result.new_account_set_ids.contains(id) && exists|
                i: int,
            |
                0 <= i < kept.nodes.persisted.len() && (
                #[trigger] kept.nodes.persisted[i]).account_set_id == id
                    && kept.nodes.persisted[i].spec.code.len() == 1
        }),
{
    let begun = op.after(ReplyView::Done, ids, new_id);
    assert(op.todo.drop_first() =~= seq![Task::UpdateChart]);
    assert(begun == OperationView { todo: seq![Task::UpdateChart], ..op });
    let stored = begun.after(ReplyView::Done, ids, new_id);
    assert(stored == begun.stored());
    let n = result.new_connections.len() as int;
    let tail = listing(op.request->Import_trial_balance_ref, true);
    let connected = seq![Task::CreateAccountSets] + connecting(result.new_connections);
    assert(stored.todo == seq![Task::UseDbTime] + connected + seq![Task::Commit] + tail);
    assert forall|k: int| 0 <= k < n implies #[trigger] stored.todo[2 + k] == (
    Task::AddAccountSet {
        parent: result.new_connections[k].0,
        member: result.new_connections[k].1,
    }) by {
        assert(connected[1 + k] == connecting(result.new_connections)[k]);
    }
    first_level_accounts_are_listed(stored.chart->0, result.new_account_set_ids, id);
}

/// When an import with a base configuration has its accounts: if the
/// configuration was set before, nothing is stored, and where reports are named
/// they are linked to it and committed. If another one was set, or it does not
/// fit, it fails. Otherwise the chart with the new accounts and the
/// configuration is stored, then the account sets are created and each is put
/// under its parent's. Where reports are named, the trial balance, the balance
/// sheet and the profit and loss statement are linked after that, and only then
/// is it committed.
pub proof fn import_with_base_config_is_written<E>(
    op: OperationView<E>,
    chart: ChartView,
    specs: Seq<AccountSpecView>,
    ids: Seq<NewNodeIds>,
    new_id: LedgerAccountId,
    id: CalaAccountSetId,
)
    requires
        op.request is ImportWithBaseConfig,
        op.status is Asking,
        op.todo == seq![Task::ParseAccounts],
        op.chart == Some(chart),
        ids.len() >= specs.len(),
    ensures
        ({
            let config = op.request->ImportWithBaseConfig_base_config@;
            let linked = op.request->reports is Some;
            let decided = op.after(ReplyView::Parsed { account_specs: specs }, ids, new_id);
            let stored = decided.after(ReplyView::Done, ids, new_id);
            let result = chart.import_result(specs, ids, op.journal_id);
            let n = result.new_connections.len() as int;
            let imported = chart.after_import(specs, ids, op.journal_id);
            let was_set = exists|i: int|
                0 <= i < chart.events.len() && #[trigger] chart.events[i]
                    == (ChartEventView::BaseConfigSet { base_config: config });
            let fits = {
                &&& is_at_top(imported.nodes, config.assets_code)
                &&& is_at_top(imported.nodes, config.liabilities_code)
                &&& is_at_top(imported.nodes, config.equity_code)
                &&& is_at_top(imported.nodes, config.revenue_code)
                &&& is_at_top(imported.nodes, config.cost_of_revenue_code)
                &&& is_at_top(imported.nodes, config.expenses_code)
                &&& !none_has(imported.nodes, config.equity_retained_earnings_gain_code)
                &&& !none_has(imported.nodes, config.equity_retained_earnings_loss_code)
            };
            &&& was_set && !linked ==> {
                &&& decided.status is Finished
                &&& decided.chart == Some(chart)
                &&& decided.listed == op.listed
            }
            &&& was_set && linked && chart.base_config is Some ==> {
                &&& decided.status is Writing
                &&& decided.chart == Some(chart)
                &&& decided.listed == op.listed
                &&& decided.todo == seq![
                    Task::AddToTrialBalance,
                    Task::LinkBalanceSheet,
                    Task::LinkProfitAndLoss,
                    Task::Commit,
                ]
            }
            &&& was_set && linked && chart.base_config is None ==> decided.status
                == StatusView::<E>::Failed(
                FailureView::Chart(ChartOfAccountsErrorView::BaseConfigNotInitialized),
            )
            &&& !was_set && chart.base_config is Some ==> {
                &&& decided.status == StatusView::<E>::Failed(
                    FailureView::Chart(
                        ChartOfAccountsErrorView::BaseConfigAlreadyInitializedWithDifferentConfig,
                    ),
                )
                &&& decided.chart == Some(chart)
            }
            &&& !was_set && chart.base_config is None && !fits ==> {
                &&& imported.base_config_error(config) matches Some(e)
                &&& decided.status == StatusView::<E>::Failed(FailureView::Chart(e))
            }
            &&& !was_set && chart.base_config is None && fits ==> {
                &&& decided.status is Writing
                &&& decided.changed
                &&& decided.todo == seq![Task::UpdateChart]
                &&& decided.plan == (PlanView::Accounts { result })
                &&& decided.chart matches Some(now)
                &&& now.nodes == imported.nodes
                &&& now.base_config == Some(config)
                &&& now.events == chart.events.push(
                    ChartEventView::BaseConfigSet { base_config: config },
                )
                &&& stored.status is Writing
                &&& stored.plan == decided.plan
                &&& stored.resolved == decided.resolved
                &&& stored.todo.len() == 1 + n + if linked {
                    4int
                } else {
                    0int
                }
                &&& stored.todo[0] == Task::CreateAccountSets
                &&& connects_from(stored.todo, 1, result.new_connections)
                &&& linked ==> {
                    &&& stored.todo[1 + n] == Task::AddToTrialBalance
                    &&& stored.todo[2 + n] == Task::LinkBalanceSheet
                    &&& stored.todo[3 + n] == Task::LinkProfitAndLoss
                    &&& stored.todo[4 + n] == Task::Commit
                }
                &&& stored.chart matches Some(kept)
                &&& kept.nodes.new.len() == 0
                &&& stored.listed.contains(id) <==> result.new_account_set_ids.contains(id)
                    && exists|i: int|
                    0 <= i < kept.nodes.persisted.len() && (
                    #[trigger] kept.nodes.persisted[i]).account_set_id == id
                        && kept.nodes.persisted[i].spec.code.len() == 1
            }
        }),
{
    let config = op.request->ImportWithBaseConfig_base_config@;
    let linked = op.request->reports is Some;
    let decided = op.after(ReplyView::Parsed { account_specs: specs }, ids, new_id);
    let stored = decided.after(ReplyView::Done, ids, new_id);
    let result = chart.import_result(specs, ids, op.journal_id);
    assert(op.todo.drop_first().len() == 0);
    configuring_sets_the_configuration(chart, specs, config, op.journal_id, ids);
    if decided.status is Writing && decided.todo == seq![Task::UpdateChart] {
        assert(decided.todo[0] == Task::UpdateChart);
        assert(stored == decided.stored());
        let n = result.new_connections.len() as int;
        let connected = seq![Task::CreateAccountSets] + connecting(result.new_connections);
        assert forall|k: int| 0 <= k < n implies #[trigger] stored.todo[1 + k] == (
        Task::AddAccountSet {
            parent: result.new_connections[k].0,
            member: result.new_connections[k].1,
        }) by {
            assert(connected[1 + k] == connecting(result.new_connections)[k]);
        }
        first_level_accounts_are_listed(stored.chart->0, result.new_account_set_ids, id);
    }
}

} // verus!
