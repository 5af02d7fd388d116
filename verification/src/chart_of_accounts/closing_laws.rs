//! What closings are for.
use vstd::prelude::*;

use super::error::ChartOfAccountsErrorView;
use super::events::{latest_closed_as_of, latest_posted_as_of, not_before, ChartEventView};
use super::facts::{account_set_is_the_nodes, has_set, none_has, nothing_is_found};
use super::laws::{latest_closed_is_last, latest_posted_is_last};
use super::model::{ChartView, NewNodeIds};
use super::operation::{FailureView, OperationView, PlanView, ReplyView, Request, StatusView, Task};
use crate::primitives::base_config::AccountingBaseConfigView;
use crate::primitives::closing::{closing_codes, ClosingAccountCodes, ClosingAccountCodesView, Date};
use crate::primitives::ids::LedgerAccountId;

verus! {

/// An earlier year is before, in one year an earlier month is, and in one month
/// an earlier day. No day is before itself, and of two different days one is
/// before the other.
pub proof fn days_come_by_year_month_and_day(a: Date, b: Date)
    ensures
        a.year < b.year ==> a.is_before(b),
        a.year == b.year && a.month < b.month ==> a.is_before(b),
        a.year == b.year && a.month == b.month && a.day < b.day ==> a.is_before(b),
        !(a.is_before(b) && b.is_before(a)),
        !a.is_before(a),
        a != b ==> a.is_before(b) || b.is_before(a),
{
}

/// The value of closing codes has each code under its own name.
pub proof fn closing_codes_show_their_codes(codes: ClosingAccountCodes)
    ensures
        codes@.revenue == codes.revenue@,
        codes@.cost_of_revenue == codes.cost_of_revenue@,
        codes@.expenses == codes.expenses@,
        codes@.equity_retained_earnings == codes.equity_retained_earnings@,
        codes@.equity_retained_losses == codes.equity_retained_losses@,
{
}

/// The event at `i` closes the chart as of a day, and no later event closes it.
pub open spec fn last_closing_at(events: Seq<ChartEventView>, i: int, day: Date) -> bool {
    &&& 0 <= i < events.len()
    &&& events[i] == (ChartEventView::ClosedAsOf { closed_as_of: day })
    &&& forall|j: int| i < j < events.len() ==> !((#[trigger] events[j]) is ClosedAsOf)
}

/// The event at `i` posts a closing for a day, and no later event posts one.
pub open spec fn last_posting_at(events: Seq<ChartEventView>, i: int, day: Date) -> bool {
    &&& 0 <= i < events.len()
    &&& events[i] == (ChartEventView::ClosingTransactionPosted { posted_as_of: day })
    &&& forall|j: int|
        i < j < events.len() ==> !((#[trigger] events[j]) is ClosingTransactionPosted)
}

/// The last closing is the one that counts.
proof fn last_closing_counts(events: Seq<ChartEventView>, i: int, day: Date)
    ensures
        last_closing_at(events, i, day) ==> latest_closed_as_of(events) == Some(day),
        (forall|j: int| 0 <= j < events.len() ==> !((#[trigger] events[j]) is ClosedAsOf))
            ==> latest_closed_as_of(events) is None,
{
    latest_closed_is_last(events);
    if last_closing_at(events, i, day) {
        assert(events[i] is ClosedAsOf);
        let latest = latest_closed_as_of(events)->0;
        let k = choose|k: int|
            0 <= k < events.len() && #[trigger] events[k] == (ChartEventView::ClosedAsOf {
                closed_as_of: latest,
            }) && forall|j: int|
                k < j < events.len() ==> !(#[trigger] events[j] is ClosedAsOf);
        if k < i {
            assert(!(events[i] is ClosedAsOf));
        } else if i < k {
            assert(!(events[k] is ClosedAsOf));
        }
    } else if forall|j: int| 0 <= j < events.len() ==> !((#[trigger] events[j]) is ClosedAsOf) {
        if let Some(latest) = latest_closed_as_of(events) {
            let k = choose|k: int|
                0 <= k < events.len() && #[trigger] events[k] == (ChartEventView::ClosedAsOf {
                    closed_as_of: latest,
                });
            assert(events[k] is ClosedAsOf);
        }
    }
}

/// The last posting is the one that counts.
proof fn last_posting_counts(events: Seq<ChartEventView>, i: int, day: Date)
    ensures
        last_posting_at(events, i, day) ==> latest_posted_as_of(events) == Some(day),
        (forall|j: int|
            0 <= j < events.len() ==> !((#[trigger] events[j]) is ClosingTransactionPosted))
            ==> latest_posted_as_of(events) is None,
{
    latest_posted_is_last(events);
    if last_posting_at(events, i, day) {
        assert(events[i] is ClosingTransactionPosted);
        let latest = latest_posted_as_of(events)->0;
        let k = choose|k: int|
            0 <= k < events.len() && #[trigger] events[k] == (
            ChartEventView::ClosingTransactionPosted { posted_as_of: latest }) && forall|j: int|
                k < j < events.len() ==> !(#[trigger] events[j] is ClosingTransactionPosted);
        if k < i {
            assert(!(events[i] is ClosingTransactionPosted));
        } else if i < k {
            assert(!(events[k] is ClosingTransactionPosted));
        }
    } else if forall|j: int|
        0 <= j < events.len() ==> !((#[trigger] events[j]) is ClosingTransactionPosted) {
        if let Some(latest) = latest_posted_as_of(events) {
            let k = choose|k: int|
                0 <= k < events.len() && #[trigger] events[k] == (
                ChartEventView::ClosingTransactionPosted { posted_as_of: latest });
            assert(events[k] is ClosingTransactionPosted);
        }
    }
}

/// A chart that was never closed, or was last closed as of an earlier day, gets
/// one more event that closes it as of the day. One that was last closed as of
/// that day or a later one stays as it is.
pub proof fn chart_is_closed_for_a_later_day(chart: ChartView, day: Date, i: int, last: Date)
    ensures
        (forall|j: int|
            0 <= j < chart.events.len() ==> !((#[trigger] chart.events[j]) is ClosedAsOf)) || (
        last_closing_at(chart.events, i, last) && last.is_before(day)) ==> {
            let after = chart.after_close(day);
            &&& !not_before(latest_closed_as_of(chart.events), day)
            &&& after.events == chart.events.push(ChartEventView::ClosedAsOf { closed_as_of: day })
            &&& after.nodes == chart.nodes
            &&& after.base_config == chart.base_config
            &&& after.id == chart.id
            &&& after.account_set_id == chart.account_set_id
            &&& after.name == chart.name
            &&& after.reference == chart.reference
        },
        last_closing_at(chart.events, i, last) && !last.is_before(day) ==> chart.after_close(day)
            == chart && not_before(latest_closed_as_of(chart.events), day),
{
    last_closing_counts(chart.events, i, last);
}

/// When the chart of a close operation is found: if it was never closed, or was
/// last closed as of an earlier day, it gets the event and is stored, and then
/// the ledger closes its account set as of the day. If not, nothing happens.
pub proof fn closing_reaches_the_ledger<E>(
    op: OperationView<E>,
    chart: ChartView,
    day: Date,
    ids: Seq<NewNodeIds>,
    new_id: LedgerAccountId,
    i: int,
    last: Date,
)
    requires
        op.request == (Request::CloseAsOf { closed_as_of: day }),
        op.status is Asking,
        op.todo.len() == 1,
        op.todo[0] is FindById,
    ensures
        ({
            let found = op.after(ReplyView::Found { chart }, ids, new_id);
            let stored = found.after(ReplyView::Done, ids, new_id);
            let closed = stored.after(ReplyView::Done, ids, new_id);
            &&& (forall|j: int|
                0 <= j < chart.events.len() ==> !((#[trigger] chart.events[j]) is ClosedAsOf)) || (
            last_closing_at(chart.events, i, last) && last.is_before(day)) ==> {
                &&& found.status is Writing
                &&& found.todo == seq![Task::UpdateChart]
                &&& found.changed
                &&& found.chart matches Some(now)
                &&& now.events == chart.events.push(
                    ChartEventView::ClosedAsOf { closed_as_of: day },
                )
                &&& now.nodes == chart.nodes
                &&& now.account_set_id == chart.account_set_id
                &&& stored.status is Writing
                &&& stored.todo == seq![
                    Task::CloseAccountSet {
                        closed_as_of: day,
                        account_set_id: chart.account_set_id,
                    },
                ]
                &&& closed.status is Finished
                &&& closed.todo.len() == 0
            }
            &&& last_closing_at(chart.events, i, last) && !last.is_before(day) ==> {
                &&& found.status is Finished
                &&& found.todo.len() == 0
                &&& found.chart == Some(chart)
            }
        }),
{
    let found = op.after(ReplyView::Found { chart }, ids, new_id);
    let stored = found.after(ReplyView::Done, ids, new_id);
    assert(op.todo.drop_first().len() == 0);
    chart_is_closed_for_a_later_day(chart, day, i, last);
    if found.status is Writing {
        assert(found.todo[0] == Task::UpdateChart);
        assert(stored.todo[0] is CloseAccountSet);
        assert(stored.todo.drop_first().len() == 0);
    }
}

/// The account sets of a closing are those of the nodes with the codes of the
/// same meaning.
pub proof fn closing_sets_are_of_their_own_codes(chart: ChartView, codes: ClosingAccountCodesView)
    requires
        chart.closing_codes_error(codes) is None,
    ensures
        has_set(chart.nodes, codes.revenue, chart.closing_account_sets(codes).revenue),
        has_set(
            chart.nodes,
            codes.cost_of_revenue,
            chart.closing_account_sets(codes).cost_of_revenue,
        ),
        has_set(chart.nodes, codes.expenses, chart.closing_account_sets(codes).expenses),
        has_set(
            chart.nodes,
            codes.equity_retained_earnings,
            chart.closing_account_sets(codes).equity_retained_earnings,
        ),
        has_set(
            chart.nodes,
            codes.equity_retained_losses,
            chart.closing_account_sets(codes).equity_retained_losses,
        ),
{
    let sets = chart.closing_account_sets(codes);
    account_set_is_the_nodes(chart, codes.revenue, sets.revenue);
    account_set_is_the_nodes(chart, codes.cost_of_revenue, sets.cost_of_revenue);
    account_set_is_the_nodes(chart, codes.expenses, sets.expenses);
    account_set_is_the_nodes(chart, codes.equity_retained_earnings, sets.equity_retained_earnings);
    account_set_is_the_nodes(chart, codes.equity_retained_losses, sets.equity_retained_losses);
}

/// Of the closing codes the first that no node has is reported, in the order
/// revenue, cost of revenue, expenses, retained earnings, retained losses. With
/// none missing nothing is reported.
pub proof fn first_missing_closing_code_is_reported(
    chart: ChartView,
    codes: ClosingAccountCodesView,
    k: int,
)
    ensures
        ({
            let all = seq![
                codes.revenue,
                codes.cost_of_revenue,
                codes.expenses,
                codes.equity_retained_earnings,
                codes.equity_retained_losses,
            ];
            &&& 0 <= k < 5 && none_has(chart.nodes, all[k]) && (forall|j: int|
                0 <= j < k ==> !none_has(chart.nodes, #[trigger] all[j]))
                ==> chart.closing_codes_error(codes) == Some(
                ChartOfAccountsErrorView::CodeNotFoundInChart(all[k]),
            )
            &&& (forall|j: int| 0 <= j < 5 ==> !none_has(chart.nodes, #[trigger] all[j]))
                ==> chart.closing_codes_error(codes) is None
        }),
{
    let all = seq![
        codes.revenue,
        codes.cost_of_revenue,
        codes.expenses,
        codes.equity_retained_earnings,
        codes.equity_retained_losses,
    ];
    assert(all[0] == codes.revenue);
    assert(all[1] == codes.cost_of_revenue);
    assert(all[2] == codes.expenses);
    assert(all[3] == codes.equity_retained_earnings);
    assert(all[4] == codes.equity_retained_losses);
    nothing_is_found(chart.nodes, codes.revenue);
    nothing_is_found(chart.nodes, codes.cost_of_revenue);
    nothing_is_found(chart.nodes, codes.expenses);
    nothing_is_found(chart.nodes, codes.equity_retained_earnings);
    nothing_is_found(chart.nodes, codes.equity_retained_losses);
}

/// A closing takes its codes out of the base configuration by their meaning.
pub proof fn closing_codes_are_the_configurations(config: AccountingBaseConfigView)
    ensures
        closing_codes(config).revenue == config.revenue_code,
        closing_codes(config).cost_of_revenue == config.cost_of_revenue_code,
        closing_codes(config).expenses == config.expenses_code,
        closing_codes(config).equity_retained_earnings == config.equity_retained_earnings_gain_code,
        closing_codes(config).equity_retained_losses == config.equity_retained_earnings_loss_code,
{
}

/// A chart without a closing transaction, or with the last one for an earlier
/// day, gets one more event that posts one for the day, provided that it has
/// the closing codes. Otherwise it stays as it is.
pub proof fn closing_is_posted_for_a_later_day(
    chart: ChartView,
    codes: ClosingAccountCodesView,
    day: Date,
    i: int,
    last: Date,
)
    ensures
        ({
            let after = chart.after_post(codes, day);
            let has_all = {
                &&& !none_has(chart.nodes, codes.revenue)
                &&& !none_has(chart.nodes, codes.cost_of_revenue)
                &&& !none_has(chart.nodes, codes.expenses)
                &&& !none_has(chart.nodes, codes.equity_retained_earnings)
                &&& !none_has(chart.nodes, codes.equity_retained_losses)
            };
            &&& !has_all ==> after == chart && chart.closing_codes_error(codes) is Some
            &&& has_all ==> chart.closing_codes_error(codes) is None
            &&& has_all && ((forall|j: int|
                0 <= j < chart.events.len() ==> !((#[trigger] chart.events[j])
                    is ClosingTransactionPosted)) || (last_posting_at(chart.events, i, last)
                && last.is_before(day))) ==> {
                &&& !not_before(latest_posted_as_of(chart.events), day)
                &&& after.events == chart.events.push(
                    ChartEventView::ClosingTransactionPosted { posted_as_of: day },
                )
                &&& after.nodes == chart.nodes
                &&& after.base_config == chart.base_config
                &&& after.id == chart.id
                &&& after.account_set_id == chart.account_set_id
            }
            &&& last_posting_at(chart.events, i, last) && !last.is_before(day) ==> after == chart
                && not_before(latest_posted_as_of(chart.events), day)
        }),
{
    last_posting_counts(chart.events, i, last);
    nothing_is_found(chart.nodes, codes.revenue);
    nothing_is_found(chart.nodes, codes.cost_of_revenue);
    nothing_is_found(chart.nodes, codes.expenses);
    nothing_is_found(chart.nodes, codes.equity_retained_earnings);
    nothing_is_found(chart.nodes, codes.equity_retained_losses);
}

/// When the chart of a posting is found: without a base configuration, or with
/// one of whose closing codes no node has one, it fails. If the chart has a
/// closing transaction for that day or a later one, nothing happens. Otherwise
/// it gets the event and is stored, and then the ledger posts a transaction with
/// the details that were given, whose five account sets are those of the
/// configuration's codes of the same meaning, and commits.
pub proof fn posting_reaches_the_ledger<E>(
    op: OperationView<E>,
    chart: ChartView,
    ids: Seq<NewNodeIds>,
    new_id: LedgerAccountId,
    i: int,
    last: Date,
)
    requires
        op.request is PostClosing,
        op.status is Asking,
        op.todo.len() == 1,
        op.todo[0] is FindById,
    ensures
        ({
            let details = op.request->tx_details;
            let day = details.posted_as_of;
            let found = op.after(ReplyView::Found { chart }, ids, new_id);
            let stored = found.after(ReplyView::Done, ids, new_id);
            let posted = stored.after(ReplyView::Done, ids, new_id);
            let committed = posted.after(ReplyView::Done, ids, new_id);
            match chart.base_config {
                None => found.status == StatusView::<E>::Failed(
                    FailureView::Chart(ChartOfAccountsErrorView::BaseConfigNotInitialized),
                ) && found.chart == Some(chart),
                Some(config) => {
                    let has_all = {
                        &&& !none_has(chart.nodes, config.revenue_code)
                        &&& !none_has(chart.nodes, config.cost_of_revenue_code)
                        &&& !none_has(chart.nodes, config.expenses_code)
                        &&& !none_has(chart.nodes, config.equity_retained_earnings_gain_code)
                        &&& !none_has(chart.nodes, config.equity_retained_earnings_loss_code)
                    };
                    &&& !has_all ==> {
                        &&& found.chart == Some(chart)
                        &&& chart.closing_codes_error(closing_codes(config)) matches Some(e)
                        &&& found.status == StatusView::<E>::Failed(FailureView::Chart(e))
                    }
                    &&& has_all && last_posting_at(chart.events, i, last) && !last.is_before(day)
                        ==> found.status is Finished && found.chart == Some(chart)
                    &&& has_all && ((forall|j: int|
                        0 <= j < chart.events.len() ==> !((#[trigger] chart.events[j])
                            is ClosingTransactionPosted)) || (last_posting_at(chart.events, i, last)
                        && last.is_before(day))) ==> {
                        &&& found.status is Writing
                        &&& found.todo == seq![Task::UpdateChart]
                        &&& found.chart matches Some(now)
                        &&& now.events == chart.events.push(
                            ChartEventView::ClosingTransactionPosted { posted_as_of: day },
                        )
                        &&& now.nodes == chart.nodes
                        &&& found.plan matches PlanView::ClosingTransaction { params }
                        &&& params.tx_details.description == details.description@
                        &&& params.tx_details.posted_as_of == day
                        &&& has_set(chart.nodes, config.revenue_code, params.parent_ids.revenue)
                        &&& has_set(
                            chart.nodes,
                            config.cost_of_revenue_code,
                            params.parent_ids.cost_of_revenue,
                        )
                        &&& has_set(chart.nodes, config.expenses_code, params.parent_ids.expenses)
                        &&& has_set(
                            chart.nodes,
                            config.equity_retained_earnings_gain_code,
                            params.parent_ids.equity_retained_earnings,
                        )
                        &&& has_set(
                            chart.nodes,
                            config.equity_retained_earnings_loss_code,
                            params.parent_ids.equity_retained_losses,
                        )
                        &&& stored.status is Writing
                        &&& stored.plan == found.plan
                        &&& stored.todo == seq![Task::PostClosingTransaction, Task::Commit]
                        &&& posted.todo == seq![Task::Commit]
                        &&& committed.status is Finished
                    }
                },
            }
        }),
{
    let details = op.request->tx_details;
    let found = op.after(ReplyView::Found { chart }, ids, new_id);
    let stored = found.after(ReplyView::Done, ids, new_id);
    let posted = stored.after(ReplyView::Done, ids, new_id);
    assert(op.todo.drop_first().len() == 0);
    if let Some(config) = chart.base_config {
        let codes = closing_codes(config);
        closing_codes_are_the_configurations(config);
        closing_is_posted_for_a_later_day(chart, codes, details.posted_as_of, i, last);
        if chart.closing_codes_error(codes) is None {
            closing_sets_are_of_their_own_codes(chart, codes);
        }
        if found.status is Writing {
            assert(found.todo[0] == Task::UpdateChart);
            assert(stored.todo[0] == Task::PostClosingTransaction);
            assert(stored.todo.drop_first() =~= seq![Task::Commit]);
            assert(posted.todo[0] == Task::Commit);
            assert(posted.todo.drop_first().len() == 0);
        }
    }
}

} // verus!
