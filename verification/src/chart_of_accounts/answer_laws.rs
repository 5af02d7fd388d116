//! What the operations on charts answer.
use vstd::prelude::*;

use super::model::ChartView;
use super::operation::{is_answer, Answer, OperationView, Request};

verus! {

/// An operation that looks for a chart or creates one answers with that chart.
pub proof fn chart_is_the_answer<E>(op: OperationView<E>, chart: ChartView, answer: Answer)
    requires
        is_answer(op, answer),
        op.chart == Some(chart),
    ensures
        op.request is CreateChart || op.request is FindChart ==> (answer matches Answer::Chart(
            found,
        ) && found@ == chart),
        op.request is MaybeFindChart ==> (answer matches Answer::MaybeChart(Some(found)) && found@
            == chart),
        op.request is FindBaseConfig ==> (answer matches Answer::BaseConfig(config) && (config
            is Some <==> chart.base_config is Some) && (config matches Some(found)
            ==> chart.base_config == Some(found@))),
{
}

/// A chart that is looked for and not needed is answered with none.
pub proof fn no_chart_is_an_answer<E>(op: OperationView<E>, answer: Answer)
    requires
        is_answer(op, answer),
        op.request is MaybeFindChart,
        op.chart is None,
    ensures
        answer matches Answer::MaybeChart(None),
{
}

/// An operation that adds accounts answers with the chart, and besides with the
/// new accounts of the first level, unless a report is named that they go to. An
/// import that added nothing says so.
pub proof fn new_accounts_are_the_answer<E>(op: OperationView<E>, chart: ChartView, answer: Answer)
    requires
        is_answer(op, answer),
        op.chart == Some(chart),
    ensures
        op.request matches Request::ImportWithBaseConfig { reports, .. } ==> if reports is Some {
            answer matches Answer::Chart(found) && found@ == chart
        } else {
            answer matches Answer::ChartWithAccounts(found, ids) && found@ == chart && ids@
                == op.listed
        },
        op.request matches Request::Import { trial_balance_ref, .. } ==> if trial_balance_ref
            is Some {
            answer matches Answer::Chart(found) && found@ == chart
        } else if op.changed {
            answer matches Answer::ChartWithNewAccounts(found, Some(ids)) && found@ == chart && ids@
                == op.listed
        } else {
            answer matches Answer::ChartWithNewAccounts(found, None) && found@ == chart
        },
        op.request matches Request::AddRootNode { trial_balance_ref, .. } ==> if trial_balance_ref
            is Some {
            answer matches Answer::Chart(found) && found@ == chart
        } else if op.listed.len() > 0 {
            answer matches Answer::ChartWithAccount(found, Some(id)) && found@ == chart && id
                == op.listed[0]
        } else {
            answer matches Answer::ChartWithAccount(found, None) && found@ == chart
        },
        op.request matches Request::AddChildNode { trial_balance_ref, .. } ==> if trial_balance_ref
            is Some {
            answer matches Answer::Chart(found) && found@ == chart
        } else if op.listed.len() > 0 {
            answer matches Answer::ChartWithAccount(found, Some(id)) && found@ == chart && id
                == op.listed[0]
        } else {
            answer matches Answer::ChartWithAccount(found, None) && found@ == chart
        },
{
}

/// An operation for a manual account answers with the account.
pub proof fn manual_account_is_the_answer<E>(op: OperationView<E>, answer: Answer)
    requires
        is_answer(op, answer),
        op.request is ManualAccount,
        op.account_id is Some,
    ensures
        answer == Answer::Account(op.account_id->0),
{
}

} // verus!
