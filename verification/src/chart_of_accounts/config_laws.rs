//! What a base configuration is for.
use vstd::prelude::*;

use super::bulk_import::{configures, BulkImportResult};
use super::entity::error_of;
use super::error::{ChartOfAccountsError, ChartOfAccountsErrorView};
use super::events::ChartEventView;
use super::facts::{
    account_set_is_the_nodes, has_set, is_at_top, none_has, nothing_is_found,
    top_is_what_the_node_says,
};
use super::import_laws::import_needs_only;
use super::laws::{base_config_resolves, import_changes_nodes_only};
use super::model::{ChartView, NewNodeIds};
use super::operation::{OperationView, ReplyView, Request, Task};
use crate::idempotent::Idempotent;
use crate::primitives::account::{views, AccountSpecView};
use crate::primitives::account_code::dotted;
use crate::primitives::base_config::{
    AccountingBaseConfig, AccountingBaseConfigView, ResolvedAccountingBaseConfig,
    ResolvedAccountingBaseConfigView,
};
use crate::primitives::ids::{CalaJournalId, LedgerAccountId};

verus! {

/// The error of a result is the one that it holds.
pub proof fn error_is_the_one_held<T>(
    value: T,
    e: ChartOfAccountsError,
)
    ensures
        error_of(Ok::<T, ChartOfAccountsError>(value)) is None,
        error_of(Err::<T, ChartOfAccountsError>(e)) == Some(e@),
{
}

/// What comes out of configuring is the new chart, the result of the import or
/// the error, as they are.
pub proof fn configuring_answers_what_it_did(
    before: ChartView,
    specs: Seq<AccountSpecView>,
    config: AccountingBaseConfigView,
    journal_id: CalaJournalId,
    ids: Seq<NewNodeIds>,
    after: ChartView,
    res: Result<Idempotent<BulkImportResult>, ChartOfAccountsError>,
)
    requires
        configures(before, specs, config, journal_id, ids, after, res),
    ensures
        after == before.after_configure(specs, config, journal_id, ids),
        before.configure_answer(specs, config, journal_id, ids) matches Err(e) ==> (
        res matches Err(found) && found@ == e),
        before.configure_answer(specs, config, journal_id, ids) matches Ok(
            Idempotent::AlreadyApplied,
        ) ==> res matches Ok(Idempotent::AlreadyApplied),
        before.configure_answer(specs, config, journal_id, ids) matches Ok(
            Idempotent::Executed(result),
        ) ==> (res matches Ok(Idempotent::Executed(found)) && views(found.new_account_sets@)
            == result.new_account_sets && found.new_account_set_ids@ == result.new_account_set_ids
            && found.new_connections@ == result.new_connections),
{
}

/// The value of a base configuration has each code under its own name.
pub proof fn config_shows_its_codes(config: AccountingBaseConfig)
    ensures
        config@.assets_code == config.assets_code@,
        config@.liabilities_code == config.liabilities_code@,
        config@.equity_code == config.equity_code@,
        config@.equity_retained_earnings_gain_code == config.equity_retained_earnings_gain_code@,
        config@.equity_retained_earnings_loss_code == config.equity_retained_earnings_loss_code@,
        config@.revenue_code == config.revenue_code@,
        config@.cost_of_revenue_code == config.cost_of_revenue_code@,
        config@.expenses_code == config.expenses_code@,
{
}

/// The value of a resolved base configuration has each account set under its
/// own name.
pub proof fn resolved_config_shows_its_account_sets(resolved: ResolvedAccountingBaseConfig)
    ensures
        resolved@.config == resolved.config@,
        resolved@.assets == resolved.assets,
        resolved@.liabilities == resolved.liabilities,
        resolved@.equity == resolved.equity,
        resolved@.equity_retained_earnings_gain == resolved.equity_retained_earnings_gain,
        resolved@.equity_retained_earnings_loss == resolved.equity_retained_earnings_loss,
        resolved@.revenue == resolved.revenue,
        resolved@.cost_of_revenue == resolved.cost_of_revenue,
        resolved@.expenses == resolved.expenses,
{
}

/// Each account set of a resolved configuration is that of the node with the
/// configuration's code of the same role.
pub open spec fn has_set_of_each_role(
    chart: ChartView,
    config: AccountingBaseConfigView,
    resolved: ResolvedAccountingBaseConfigView,
) -> bool {
    &&& resolved.config == config
    &&& has_set(chart.nodes, config.assets_code, resolved.assets)
    &&& has_set(chart.nodes, config.liabilities_code, resolved.liabilities)
    &&& has_set(chart.nodes, config.equity_code, resolved.equity)
    &&& has_set(
        chart.nodes,
        config.equity_retained_earnings_gain_code,
        resolved.equity_retained_earnings_gain,
    )
    &&& has_set(
        chart.nodes,
        config.equity_retained_earnings_loss_code,
        resolved.equity_retained_earnings_loss,
    )
    &&& has_set(chart.nodes, config.revenue_code, resolved.revenue)
    &&& has_set(chart.nodes, config.cost_of_revenue_code, resolved.cost_of_revenue)
    &&& has_set(chart.nodes, config.expenses_code, resolved.expenses)
}

/// A base configuration is resolved role by role: each role gets the account
/// set of the node with the code of that role.
pub proof fn resolved_sets_are_of_their_own_codes(
    chart: ChartView,
    config: AccountingBaseConfigView,
)
    requires
        chart.has_codes_of(config),
    ensures
        has_set_of_each_role(chart, config, chart.resolved(config)),
        chart.resolved(config).config == config,
        has_set(chart.nodes, config.assets_code, chart.resolved(config).assets),
        has_set(chart.nodes, config.liabilities_code, chart.resolved(config).liabilities),
        has_set(chart.nodes, config.equity_code, chart.resolved(config).equity),
        has_set(
            chart.nodes,
            config.equity_retained_earnings_gain_code,
            chart.resolved(config).equity_retained_earnings_gain,
        ),
        has_set(
            chart.nodes,
            config.equity_retained_earnings_loss_code,
            chart.resolved(config).equity_retained_earnings_loss,
        ),
        has_set(chart.nodes, config.revenue_code, chart.resolved(config).revenue),
        has_set(chart.nodes, config.cost_of_revenue_code, chart.resolved(config).cost_of_revenue),
        has_set(chart.nodes, config.expenses_code, chart.resolved(config).expenses),
{
    let resolved = chart.resolved(config);
    account_set_is_the_nodes(chart, config.assets_code, resolved.assets);
    account_set_is_the_nodes(chart, config.liabilities_code, resolved.liabilities);
    account_set_is_the_nodes(chart, config.equity_code, resolved.equity);
    account_set_is_the_nodes(
        chart,
        config.equity_retained_earnings_gain_code,
        resolved.equity_retained_earnings_gain,
    );
    account_set_is_the_nodes(
        chart,
        config.equity_retained_earnings_loss_code,
        resolved.equity_retained_earnings_loss,
    );
    account_set_is_the_nodes(chart, config.revenue_code, resolved.revenue);
    account_set_is_the_nodes(chart, config.cost_of_revenue_code, resolved.cost_of_revenue);
    account_set_is_the_nodes(chart, config.expenses_code, resolved.expenses);
}

/// A chart has the codes of a configuration if some node has each of them.
pub proof fn codes_are_there(chart: ChartView, config: AccountingBaseConfigView)
    ensures
        chart.has_codes_of(config) <==> {
            &&& !none_has(chart.nodes, config.assets_code)
            &&& !none_has(chart.nodes, config.liabilities_code)
            &&& !none_has(chart.nodes, config.equity_code)
            &&& !none_has(chart.nodes, config.equity_retained_earnings_gain_code)
            &&& !none_has(chart.nodes, config.equity_retained_earnings_loss_code)
            &&& !none_has(chart.nodes, config.revenue_code)
            &&& !none_has(chart.nodes, config.cost_of_revenue_code)
            &&& !none_has(chart.nodes, config.expenses_code)
        },
{
    nothing_is_found(chart.nodes, config.assets_code);
    nothing_is_found(chart.nodes, config.liabilities_code);
    nothing_is_found(chart.nodes, config.equity_code);
    nothing_is_found(chart.nodes, config.equity_retained_earnings_gain_code);
    nothing_is_found(chart.nodes, config.equity_retained_earnings_loss_code);
    nothing_is_found(chart.nodes, config.revenue_code);
    nothing_is_found(chart.nodes, config.cost_of_revenue_code);
    nothing_is_found(chart.nodes, config.expenses_code);
}

/// What is wrong with a code that is to stand at the top of a chart.
pub open spec fn top_fault(chart: ChartView, code: Seq<Seq<char>>) -> ChartOfAccountsErrorView {
    if none_has(chart.nodes, code) {
        ChartOfAccountsErrorView::CodeNotFoundInChart(code)
    } else {
        ChartOfAccountsErrorView::AccountCodeHasInvalidParent(dotted(code))
    }
}

/// The codes of a configuration that are to stand at the top, in the order in
/// which they are looked at.
pub open spec fn top_codes(config: AccountingBaseConfigView) -> Seq<Seq<Seq<char>>> {
    seq![
        config.assets_code,
        config.liabilities_code,
        config.equity_code,
        config.revenue_code,
        config.cost_of_revenue_code,
        config.expenses_code,
    ]
}

/// The first fault of a base configuration is reported: of the six codes that
/// are to stand at the top the first that does not, then the gain code and then
/// the loss code where no node has it. With no fault nothing is reported.
pub proof fn first_fault_is_reported(chart: ChartView, config: AccountingBaseConfigView, k: int)
    ensures
        0 <= k < 6 && !is_at_top(chart.nodes, top_codes(config)[k]) && (forall|j: int|
            0 <= j < k ==> is_at_top(chart.nodes, #[trigger] top_codes(config)[j]))
            ==> chart.base_config_error(config) == Some(top_fault(chart, top_codes(config)[k])),
        (forall|j: int| 0 <= j < 6 ==> is_at_top(chart.nodes, #[trigger] top_codes(config)[j]))
            ==> chart.base_config_error(config) == (if none_has(
            chart.nodes,
            config.equity_retained_earnings_gain_code,
        ) {
            Some(
                ChartOfAccountsErrorView::CodeNotFoundInChart(
                    config.equity_retained_earnings_gain_code,
                ),
            )
        } else if none_has(chart.nodes, config.equity_retained_earnings_loss_code) {
            Some(
                ChartOfAccountsErrorView::CodeNotFoundInChart(
                    config.equity_retained_earnings_loss_code,
                ),
            )
        } else {
            None
        }),
{
    let tops = top_codes(config);
    assert forall|j: int| 0 <= j < 6 implies {
        &&& is_at_top(chart.nodes, #[trigger] tops[j]) == (chart.top_level_error(tops[j]) is None)
        &&& !is_at_top(chart.nodes, tops[j]) ==> chart.top_level_error(tops[j]) == Some(
            top_fault(chart, tops[j]),
        )
    } by {
        top_is_what_the_node_says(chart, tops[j]);
        nothing_is_found(chart.nodes, tops[j]);
    }
    assert(tops[0] == config.assets_code);
    assert(tops[1] == config.liabilities_code);
    assert(tops[2] == config.equity_code);
    assert(tops[3] == config.revenue_code);
    assert(tops[4] == config.cost_of_revenue_code);
    assert(tops[5] == config.expenses_code);
    nothing_is_found(chart.nodes, config.equity_retained_earnings_gain_code);
    nothing_is_found(chart.nodes, config.equity_retained_earnings_loss_code);
}

/// A chart is configured exactly if no configuration was set before and the
/// configuration fits it with the imported accounts. It then has the
/// configuration, and one more event that says so. A configuration that was set
/// before is not set again. Another one is refused, and changes nothing.
pub proof fn configuring_sets_the_configuration(
    chart: ChartView,
    specs: Seq<AccountSpecView>,
    config: AccountingBaseConfigView,
    journal_id: CalaJournalId,
    ids: Seq<NewNodeIds>,
)
    requires
        ids.len() >= specs.len(),
    ensures
        ({
            let answer = chart.configure_answer(specs, config, journal_id, ids);
            let after = chart.after_configure(specs, config, journal_id, ids);
            let imported = chart.after_import(specs, ids, journal_id);
            let was_set = exists|i: int|
                0 <= i < chart.events.len() && #[trigger] chart.events[i]
                    == (ChartEventView::BaseConfigSet { base_config: config });
            let fits = {
                &&& is_at_top(imported.nodes, config.assets_code)
                &&& is_at_top(imported.nodes, config.liabilities_code)
                &&& is_at_top(imported.nodes, config.equity_code)
                &&& is_at_top(imported.nodes, config.revenue_code)
                &&& is_at_top(imported.nodes, config.cost_of_revenue_code)
                &&& is_at_top(imported.nodes, config.expenses_code)
                &&& !none_has(imported.nodes, config.equity_retained_earnings_gain_code)
                &&& !none_has(imported.nodes, config.equity_retained_earnings_loss_code)
            };
            &&& was_set ==> {
                &&& after == chart
                &&& answer matches Ok(Idempotent::AlreadyApplied)
            }
            &&& !was_set && chart.base_config is Some ==> {
                &&& after == chart
                &&& answer matches Err(e)
                &&& e == ChartOfAccountsErrorView::BaseConfigAlreadyInitializedWithDifferentConfig
            }
            &&& fits <==> imported.base_config_error(config) is None
            &&& !was_set && chart.base_config is None && !fits ==> {
                &&& answer matches Err(e)
                &&& Some(e) == imported.base_config_error(config)
                &&& after.base_config is None
                &&& after.events == chart.events
                &&& after.nodes == imported.nodes
            }
            &&& !was_set && chart.base_config is None && fits ==> {
                &&& answer matches Ok(Idempotent::Executed(result))
                &&& result == chart.import_result(specs, ids, journal_id)
                &&& after.nodes == imported.nodes
                &&& after.base_config == Some(config)
                &&& after.events == chart.events.push(
                    ChartEventView::BaseConfigSet { base_config: config },
                )
                &&& after.id == chart.id
                &&& after.account_set_id == chart.account_set_id
                &&& after.name == chart.name
                &&& after.reference == chart.reference
            }
        }),
{
    let imported = chart.after_import(specs, ids, journal_id);
    let tops = top_codes(config);
    let used = ids.take(specs.len() as int);
    import_needs_only(chart, specs, ids, journal_id);
    import_changes_nodes_only(chart, specs, used, journal_id);
    assert(tops[0] == config.assets_code);
    assert(tops[1] == config.liabilities_code);
    assert(tops[2] == config.equity_code);
    assert(tops[3] == config.revenue_code);
    assert(tops[4] == config.cost_of_revenue_code);
    assert(tops[5] == config.expenses_code);
    first_fault_is_reported(imported, config, 0);
    first_fault_is_reported(imported, config, 1);
    first_fault_is_reported(imported, config, 2);
    first_fault_is_reported(imported, config, 3);
    first_fault_is_reported(imported, config, 4);
    first_fault_is_reported(imported, config, 5);
    let set = ChartEventView::BaseConfigSet { base_config: config };
    if chart.events.contains(set) {
        let i = chart.events.index_of(set);
        assert(chart.events[i] == set);
    }
}

/// When an import that is linked to reports has its accounts and goes on to
/// write, the reports get the configuration that its chart then has, with the
/// account set of each role's own code. Where the chart was configured just now,
/// that is the configuration that was asked for.
pub proof fn reports_get_the_account_set_of_each_role<E>(
    op: OperationView<E>,
    chart: ChartView,
    specs: Seq<AccountSpecView>,
    ids: Seq<NewNodeIds>,
    new_id: LedgerAccountId,
)
    requires
        op.request matches Request::ImportWithBaseConfig { reports, .. } && reports is Some,
        op.status is Asking,
        op.todo == seq![Task::ParseAccounts],
        op.chart == Some(chart),
        op.can_use(chart),
        ids.len() >= specs.len(),
    ensures
        ({
            let decided = op.after(ReplyView::Parsed { account_specs: specs }, ids, new_id);
            let asked = op.request->ImportWithBaseConfig_base_config@;
            decided.status is Writing ==> {
                &&& decided.chart matches Some(now)
                &&& now.base_config matches Some(config)
                &&& decided.resolved matches Some(resolved)
                &&& chart.base_config is None ==> config == asked
                &&& chart.base_config is Some ==> now == chart
                &&& resolved.config == config
                &&& has_set(now.nodes, config.assets_code, resolved.assets)
                &&& has_set(now.nodes, config.liabilities_code, resolved.liabilities)
                &&& has_set(now.nodes, config.equity_code, resolved.equity)
                &&& has_set(
                    now.nodes,
                    config.equity_retained_earnings_gain_code,
                    resolved.equity_retained_earnings_gain,
                )
                &&& has_set(
                    now.nodes,
                    config.equity_retained_earnings_loss_code,
                    resolved.equity_retained_earnings_loss,
                )
                &&& has_set(now.nodes, config.revenue_code, resolved.revenue)
                &&& has_set(now.nodes, config.cost_of_revenue_code, resolved.cost_of_revenue)
                &&& has_set(now.nodes, config.expenses_code, resolved.expenses)
            }
        }),
{
    let decided = op.after(ReplyView::Parsed { account_specs: specs }, ids, new_id);
    let asked = op.request->ImportWithBaseConfig_base_config@;
    let imported = chart.after_import(specs, ids, op.journal_id);
    assert(op.todo.drop_first().len() == 0);
    configuring_sets_the_configuration(chart, specs, asked, op.journal_id, ids);
    if decided.status is Writing {
        let now = decided.chart->0;
        if chart.base_config is None {
            if !chart.events.contains(ChartEventView::BaseConfigSet { base_config: asked }) {
                base_config_resolves(imported, asked);
                assert(now.nodes == imported.nodes);
                assert(now.has_codes_of(asked));
                resolved_sets_are_of_their_own_codes(now, asked);
            }
        } else {
            resolved_sets_are_of_their_own_codes(chart, chart.base_config->0);
        }
    }
}

} // verus!
