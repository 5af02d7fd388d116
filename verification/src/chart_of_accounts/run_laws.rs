//! What the operations on charts do from their last answer on.
use vstd::prelude::*;

use super::chart_node::ChartNodeView;
use super::entity::trial_balance_nodes;
use super::error::ChartOfAccountsErrorView;
use super::facts::{none_has, none_stored, nothing_is_found, stored_at, stored_is_found};
use super::laws::{
    child_entered_keeps, create_keeps_consistent, first_index_is, store_keeps_accounts,
};
use super::model::{ChartView, NewNodeIds};
use super::nodes::{codes, manual_accounts, ChartNodesView};
use super::operation::{
    Failure, FailureView, OperationView, Plan, PlanView, Query, Reply, ReplyView, Request, Status,
    StatusView, Task,
};
use super::service::{chart_questions, creating_chart, import_questions};
use crate::primitives::account::{views, AccountIdOrCodeView, AccountSpecView};
use crate::primitives::account_code::{dotted, is_code, AccountCodeParseError};
use crate::primitives::ids::{
    CalaAccountSetId, CalaJournalId, ChartId, LedgerAccountId, LedgerTransactionId,
};
use crate::primitives::permission::{CoreAccountingAction, CoreAccountingObject};

verus! {

/// Whoever changes or lists charts by reference is asked for that permission on
/// all charts before anything else, whoever imports for the permission to
/// import. A new chart has its own permission asked for once a transaction is
/// begun.
pub proof fn permission_is_asked_for<E>(
    action: CoreAccountingAction,
    journal_id: CalaJournalId,
    id: ChartId,
    name: String,
    reference: String,
)
    ensures
        chart_questions(action).len() == 2,
        chart_questions(action)[0] == (Task::EnforcePermission {
            object: CoreAccountingObject::AllCharts,
            action,
        }),
        chart_questions(action)[1] == Task::FindByReference,
        import_questions().len() == 3,
        import_questions()[0] == (Task::EnforcePermission {
            object: CoreAccountingObject::AllCharts,
            action: CoreAccountingAction::ChartImportAccounts,
        }),
        import_questions()[1] == Task::FindByReference,
        import_questions()[2] == Task::ParseAccounts,
        ({
            let op = creating_chart::<E>(journal_id, id, name, reference);
            &&& op.status is Asking
            &&& op.journal_id == journal_id
            &&& op.request == (Request::CreateChart { id, name, reference })
            &&& op.todo.len() == 2
            &&& op.todo[0] == Task::BeginOp
            &&& op.todo[1] == (Task::EnforcePermission {
                object: CoreAccountingObject::Chart(id),
                action: CoreAccountingAction::ChartCreate,
            })
        }),
{
}

/// A started operation has its questions before it and nothing decided.
pub proof fn started_operation_has_decided_nothing<E>(
    journal_id: CalaJournalId,
    request: Request,
    chart_ref: Seq<char>,
    questions: Seq<Task>,
)
    ensures
        ({
            let op = OperationView::<E>::started(journal_id, request, chart_ref, questions);
            &&& op.status is Asking
            &&& op.todo == questions
            &&& op.request == request
            &&& op.journal_id == journal_id
            &&& op.chart_ref == chart_ref
            &&& op.chart is None
            &&& op.plan is Nothing
            &&& op.resolved is None
            &&& op.account_id is None
            &&& !op.changed
            &&& op.listed.len() == 0
        }),
{
}

/// The values of plans, failures and replies have what they hold under their own
/// names.
pub proof fn operation_values_show_what_they_hold<E>(
    plan: Plan,
    failure: Failure<E>,
    status: Status<E>,
    reply: Reply<E>,
)
    ensures
        plan is Nothing <==> plan@ is Nothing,
        plan matches Plan::Accounts { result } ==> plan@ == (PlanView::Accounts {
            result: result@,
        }),
        plan matches Plan::Account { new_account_set, parent_account_set_id } ==> plan@ == (
        PlanView::Account { new_account_set: new_account_set@, parent_account_set_id }),
        plan matches Plan::ManualAccount { account_set_id, new_account } ==> plan@ == (
        PlanView::ManualAccount { account_set_id, new_account: new_account@ }),
        plan matches Plan::ClosingTransaction { params } ==> {
            &&& plan@ matches PlanView::ClosingTransaction { params: shown }
            &&& shown.parent_ids == params.parent_ids
            &&& shown.tx_details.description == params.tx_details.description@
            &&& shown.tx_details.posted_as_of == params.tx_details.posted_as_of
        },
        plan matches Plan::LedgerAccountCode { code } ==> plan@ == (PlanView::LedgerAccountCode {
            code: code@,
        }),
        failure matches Failure::Chart(e) ==> failure@ == FailureView::<E>::Chart(e@),
        failure matches Failure::AccountCode(e) ==> failure@ == FailureView::<E>::AccountCode(e),
        failure matches Failure::Outside(e) ==> failure@ == FailureView::<E>::Outside(e),
        status is Asking <==> status@ is Asking,
        status is Writing <==> status@ is Writing,
        status is Finished <==> status@ is Finished,
        status matches Status::Failed(e) ==> status@ == StatusView::<E>::Failed(e@),
        reply is Done <==> reply@ is Done,
        reply is NotFound <==> reply@ is NotFound,
        reply matches Reply::Found { chart } ==> reply@ == (ReplyView::<E>::Found {
            chart: chart@,
        }),
        reply matches Reply::Parsed { account_specs } ==> reply@ == (ReplyView::<E>::Parsed {
            account_specs: views(account_specs@),
        }),
        reply matches Reply::AccountCreated { id } ==> reply@ == (
        ReplyView::<E>::AccountCreated { id }),
        reply matches Reply::Executed { id } ==> reply@ == (ReplyView::<E>::Executed { id }),
        reply matches Reply::Failed { error } ==> reply@ == (ReplyView::<E>::Failed { error }),
{
}

/// An open question is answered by what fits it: a permission by being given, a
/// search by the chart, and the next question comes up. A chart that is not
/// found fails the operation by its reference, unless none is needed.
pub proof fn questions_are_asked_one_after_the_other<E>(
    op: OperationView<E>,
    chart: ChartView,
    ids: Seq<NewNodeIds>,
    new_id: LedgerAccountId,
)
    requires
        op.status is Asking,
        op.todo.len() > 1,
    ensures
        (op.todo[0] is EnforcePermission || op.todo[0] is BeginOp) ==> op.after(
            ReplyView::Done,
            ids,
            new_id,
        ) == (OperationView { todo: op.todo.drop_first(), ..op }),
        (op.todo[0] is FindByReference || op.todo[0] is FindById) ==> op.after(
            ReplyView::Found { chart },
            ids,
            new_id,
        ) == (OperationView { todo: op.todo.drop_first(), chart: Some(chart), ..op }),
        op.todo[0] is FindByReference && !(op.request is MaybeFindChart) ==> op.after(
            ReplyView::NotFound,
            ids,
            new_id,
        ).status == StatusView::<E>::Failed(
            FailureView::Chart(
                ChartOfAccountsErrorView::ChartOfAccountsNotFoundByReference(op.chart_ref),
            ),
        ),
{
}

/// Only a reply that fits a task takes the operation on: a permission, a
/// transaction, a write or a question passed on by being done, a search by what
/// was found, a reading by the accounts, a creation by what was created. Any
/// other reply but a failure leaves the operation as it is.
pub proof fn only_a_fitting_reply_counts<E>(
    op: OperationView<E>,
    reply: ReplyView<E>,
    ids: Seq<NewNodeIds>,
    new_id: LedgerAccountId,
)
    requires
        op.todo.len() > 0,
        !(reply is Failed),
    ensures
        ({
            let task = op.todo[0];
            let after = op.after(reply, ids, new_id);
            &&& (task is EnforcePermission || task is BeginOp || task is CreateRootAccountSet
                || task is UpdateChart || task is UseDbTime || task is CreateAccountSets || task
                is CreateAccountSet || task is AddAccountSet || task is AddAccount || task
                is CloseAccountSet || task is PostClosingTransaction || task is AddToTrialBalance
                || task is LinkBalanceSheet || task is LinkProfitAndLoss || task is Commit || task
                is Query || task is FindLedgerTransaction) && !(reply is Done) ==> after == op
            &&& task is FindByReference && !(reply is Found || reply is NotFound) ==> after == op
            &&& task is FindById && !(reply is Found) ==> after == op
            &&& task is ParseAccounts && !(reply is Parsed) ==> after == op
            &&& task is CreateChart && !(reply is Found) ==> after == op
            &&& task is CreateAccount && !(reply is AccountCreated) ==> after == op
            &&& task is ExecuteManualTransaction && !(reply is Executed) ==> after == op
        }),
{
}

/// A chart that is not found fails the operation by its reference. Where none is
/// needed, the operation ends without one.
pub proof fn missing_chart_is_reported<E>(
    op: OperationView<E>,
    ids: Seq<NewNodeIds>,
    new_id: LedgerAccountId,
)
    requires
        op.status is Asking,
        op.todo.len() > 0,
        op.todo[0] is FindByReference,
    ensures
        !(op.request is MaybeFindChart) ==> {
            let after = op.after(ReplyView::NotFound, ids, new_id);
            &&& after.status == StatusView::<E>::Failed(
                FailureView::Chart(
                    ChartOfAccountsErrorView::ChartOfAccountsNotFoundByReference(op.chart_ref),
                ),
            )
            &&& after.todo.len() == 0
        },
        op.request is MaybeFindChart && op.todo.len() == 1 ==> {
            let after = op.after(ReplyView::NotFound, ids, new_id);
            after.status is Finished && after.chart == op.chart
        },
{
    if op.todo.len() == 1 {
        assert(op.todo.drop_first().len() == 0);
    }
}

/// What is decided is kept while it is written: whatever is replied, the request
/// and the plan stay, and so does what the reports are linked to. Only a chart
/// that is stored or created changes, and only an account that is created is
/// noted.
pub proof fn writing_keeps_what_was_decided<E>(
    op: OperationView<E>,
    reply: ReplyView<E>,
    ids: Seq<NewNodeIds>,
    new_id: LedgerAccountId,
)
    requires
        op.status is Writing,
    ensures
        ({
            let after = op.after(reply, ids, new_id);
            &&& after.request == op.request
            &&& after.journal_id == op.journal_id
            &&& after.chart_ref == op.chart_ref
            &&& after.plan == op.plan
            &&& after.resolved == op.resolved
            &&& after.changed == op.changed
            &&& op.todo.len() > 0 && !(op.todo[0] is UpdateChart || op.todo[0] is CreateChart
                || op.todo[0].is_question()) ==> after.chart == op.chart
            &&& op.todo.len() > 0 && !(op.todo[0] is UpdateChart) ==> after.listed == op.listed
            &&& !(op.pending() == Some(Task::CreateAccount)) ==> after.account_id == op.account_id
            &&& !(after.status is Asking)
        }),
{
}

/// A new chart is stored, then its account set is created, then both are
/// committed, and the chart that was stored is the answer.
pub proof fn new_chart_is_written<E>(
    op: OperationView<E>,
    chart: ChartView,
    ids: Seq<NewNodeIds>,
    new_id: LedgerAccountId,
)
    requires
        op.request is CreateChart,
        op.status is Asking,
        op.todo.len() == 1,
        op.todo[0] is EnforcePermission,
    ensures
        ({
            let permitted = op.after(ReplyView::Done, ids, new_id);
            let stored = permitted.after(ReplyView::Found { chart }, ids, new_id);
            let rooted = stored.after(ReplyView::Done, ids, new_id);
            let committed = rooted.after(ReplyView::Done, ids, new_id);
            &&& permitted.status is Writing
            &&& permitted.todo == seq![
                Task::CreateChart,
                Task::CreateRootAccountSet,
                Task::Commit,
            ]
            &&& stored.chart == Some(chart)
            &&& stored.todo == seq![Task::CreateRootAccountSet, Task::Commit]
            &&& rooted.todo == seq![Task::Commit]
            &&& committed.status is Finished
            &&& committed.chart == Some(chart)
        }),
{
    let permitted = op.after(ReplyView::Done, ids, new_id);
    let stored = permitted.after(ReplyView::Found { chart }, ids, new_id);
    let rooted = stored.after(ReplyView::Done, ids, new_id);
    assert(op.todo.drop_first().len() == 0);
    assert(permitted.todo.drop_first() =~= seq![Task::CreateRootAccountSet, Task::Commit]);
    assert(stored.todo.drop_first() =~= seq![Task::Commit]);
    assert(rooted.todo.drop_first().len() == 0);
}

/// The ways in which one new account is written.
pub open spec fn writes_account<E>(
    found: OperationView<E>,
    chart: ChartView,
    spec: AccountSpecView,
    journal_id: CalaJournalId,
    in_trial_balance: bool,
    ids: Seq<NewNodeIds>,
    new_id: LedgerAccountId,
) -> bool {
    let stored = found.after(ReplyView::Done, ids, new_id).after(ReplyView::Done, ids, new_id);
    let set = found.plan->Account_new_account_set;
    let above = found.plan->parent_account_set_id;
    let own = ids[0].account_set_id;
    &&& found.status is Writing
    &&& found.changed
    &&& found.todo == seq![Task::BeginOp, Task::UpdateChart]
    &&& found.plan is Account
    &&& set.id == own
    &&& set.journal_id == journal_id
    &&& set.chart_id == chart.id
    &&& set.code == spec.code
    &&& set.name == spec.name
    &&& set.normal_balance_type == spec.normal_balance_type
    &&& spec.parent is None ==> above == chart.account_set_id
    &&& forall|i: int|
        spec.parent is Some && #[trigger] stored_at(chart.nodes, i, spec.parent->0) ==> above
            == chart.nodes.persisted[i].account_set_id
    &&& spec.parent is Some && none_stored(chart.nodes, spec.parent->0) ==> above
        == chart.account_set_id
    &&& found.chart matches Some(now)
    &&& now.nodes.new.len() == chart.nodes.new.len() + 1
    &&& now.nodes.new.last().spec == spec
    &&& now.nodes.new.last().id == ids[0].node_id
    &&& now.nodes.new.last().ledger_account_set_id == own
    &&& now.events == chart.events
    &&& stored.status is Writing
    &&& stored.chart matches Some(kept)
    &&& kept.nodes.new.len() == 0
    &&& kept.nodes.persisted.len() == chart.nodes.persisted.len() + chart.nodes.new.len() + 1
    &&& kept.nodes.persisted.last().spec == spec
    &&& kept.nodes.persisted.last().id == ids[0].node_id
    &&& kept.nodes.persisted.last().account_set_id == own
    &&& kept.nodes.persisted.last().manual_transaction_account_id is None
    &&& stored.listed == if spec.code.len() == 1 {
        seq![own]
    } else {
        Seq::<CalaAccountSetId>::empty()
    }
    &&& stored.todo == seq![
        Task::UseDbTime,
        Task::CreateAccountSet,
        Task::AddAccountSet { parent: above, member: own },
        Task::Commit,
    ] + if in_trial_balance && spec.code.len() == 1 {
        seq![Task::AddToTrialBalance]
    } else {
        Seq::<Task>::empty()
    }
}

/// The identifiers for a new account are not those of nodes, nor is the account
/// set that of one.
pub open spec fn are_new_to(chart: ChartView, ids: NewNodeIds) -> bool {
    &&& !chart.nodes.has_id(ids.node_id)
    &&& forall|i: int|
        0 <= i < chart.nodes.persisted.len() ==> (
        #[trigger] chart.nodes.persisted[i]).account_set_id != ids.account_set_id
    &&& forall|i: int|
        0 <= i < chart.nodes.new.len() ==> (
        #[trigger] chart.nodes.new[i]).ledger_account_set_id != ids.account_set_id
}

proof fn storing_writes_account<E>(
    op: OperationView<E>,
    chart: ChartView,
    spec: AccountSpecView,
    in_trial_balance: bool,
    ids: Seq<NewNodeIds>,
    new_id: LedgerAccountId,
)
    requires
        op.chart == Some(chart),
        chart.is_consistent(),
        ids.len() > 0,
        are_new_to(chart, ids[0]),
        none_has(chart.nodes, spec.code),
        op.request matches Request::AddRootNode { trial_balance_ref, .. } ==> in_trial_balance == (
        trial_balance_ref is Some),
        op.request matches Request::AddChildNode { trial_balance_ref, .. } ==> in_trial_balance == (
        trial_balance_ref is Some),
        op.request is AddRootNode || op.request is AddChildNode,
    ensures
        writes_account(
            op.storing_account(spec, ids[0]),
            chart,
            spec,
            op.journal_id,
            in_trial_balance,
            ids,
            new_id,
        ),
{
    let found = op.storing_account(spec, ids[0]);
    nothing_is_found(chart.nodes, spec.code);
    let begun = found.after(ReplyView::Done, ids, new_id);
    let stored = begun.after(ReplyView::Done, ids, new_id);
    assert(found.todo.drop_first() =~= seq![Task::UpdateChart]);
    assert(begun.todo[0] == Task::UpdateChart);
    assert(stored == begun.stored());
    if let Some(parent) = spec.parent {
        nothing_is_found(chart.nodes, parent);
        assert forall|i: int| #[trigger] stored_at(chart.nodes, i, parent) implies found.plan
            ->parent_account_set_id == chart.nodes.persisted[i].account_set_id by {
            stored_is_found(chart.nodes, i, parent);
        }
    }
    create_keeps_consistent(chart, spec, ids[0]);
    child_entered_keeps(chart, spec.parent, ids[0].node_id);
    let now = found.chart->0;
    let entered = chart.with_child_entered(spec.parent, ids[0].node_id);
    store_keeps_accounts(now.nodes, Seq::empty());
    let kept = stored.chart->0;
    assert(codes(entered.nodes.persisted).len() == codes(chart.nodes.persisted).len());
    assert(kept.nodes.persisted.len() == chart.nodes.persisted.len() + chart.nodes.new.len() + 1);
    let own = ids[0].account_set_id;
    let last = kept.nodes.persisted.len() - 1;
    assert(kept.nodes.persisted[last].account_set_id == own);
    assert forall|i: int| 0 <= i < last implies (#[trigger] kept.nodes.persisted[i]).account_set_id
        != own by {
        if i < chart.nodes.persisted.len() {
            assert(kept.nodes.persisted[i] == entered.nodes.persisted[i]);
            if let Some(parent) = spec.parent {
                codes(chart.nodes.persisted).index_of_first_ensures(parent);
            }
            assert(entered.nodes.persisted[i].account_set_id
                == chart.nodes.persisted[i].account_set_id);
        } else {
            let j = i - chart.nodes.persisted.len();
            assert(kept.nodes.persisted[i] == now.nodes.new[j].stored());
            assert(now.nodes.new[j] == chart.nodes.new[j]);
        }
    }
    if spec.code.len() == 1 {
        assert(kept.nodes.persisted[last].is_trial_balance_account());
    }
    assert(stored.listed =~= if spec.code.len() == 1 {
        seq![own]
    } else {
        Seq::<CalaAccountSetId>::empty()
    });
    assert(stored.todo =~= seq![
        Task::UseDbTime,
        Task::CreateAccountSet,
        Task::AddAccountSet { parent: found.plan->parent_account_set_id, member: own },
        Task::Commit,
    ] + if in_trial_balance && spec.code.len() == 1 {
        seq![Task::AddToTrialBalance]
    } else {
        Seq::<Task>::empty()
    });
}

/// When the chart for an account at the top is found: if some node has the code,
/// nothing happens. If not, the account is stored, its account set is created
/// and put under that of its parent, or of the chart, and all is committed. One
/// of the first level is listed, and added to the trial balance if one is named.
pub proof fn root_account_is_written<E>(
    op: OperationView<E>,
    chart: ChartView,
    ids: Seq<NewNodeIds>,
    new_id: LedgerAccountId,
)
    requires
        op.request is AddRootNode,
        op.status is Asking,
        op.todo.len() == 1,
        op.todo[0] is FindByReference,
        chart.is_consistent(),
        ids.len() > 0,
        are_new_to(chart, ids[0]),
    ensures
        ({
            let found = op.after(ReplyView::Found { chart }, ids, new_id);
            let spec = op.request->AddRootNode_spec@;
            &&& !none_has(chart.nodes, spec.code) ==> {
                &&& found.status is Finished
                &&& found.chart == Some(chart)
                &&& found.listed == op.listed
            }
            &&& none_has(chart.nodes, spec.code) ==> writes_account(
                found,
                chart,
                spec,
                op.journal_id,
                op.request->AddRootNode_trial_balance_ref is Some,
                ids,
                new_id,
            )
        }),
{
    let spec = op.request->AddRootNode_spec@;
    assert(op.todo.drop_first().len() == 0);
    nothing_is_found(chart.nodes, spec.code);
    if none_has(chart.nodes, spec.code) {
        let asked = OperationView { todo: op.todo.drop_first(), ..op.with_chart(chart) };
        storing_writes_account(
            asked,
            chart,
            spec,
            op.request->AddRootNode_trial_balance_ref is Some,
            ids,
            new_id,
        );
    }
}

/// When the chart for a child is found: without the parent, or with a parent
/// code that is no proper, non-empty beginning of its own, it fails. If some
/// node has the code, nothing happens. Otherwise the account is written with the
/// code and name that were given and the parent's side, under its parent.
pub proof fn child_account_is_written<E>(
    op: OperationView<E>,
    chart: ChartView,
    ids: Seq<NewNodeIds>,
    new_id: LedgerAccountId,
    i: int,
)
    requires
        op.request is AddChildNode,
        op.status is Asking,
        op.todo.len() == 1,
        op.todo[0] is FindByReference,
        chart.is_consistent(),
        ids.len() > 0,
        are_new_to(chart, ids[0]),
    ensures
        ({
            let found = op.after(ReplyView::Found { chart }, ids, new_id);
            let parent = op.request->parent_code@;
            let code = op.request->AddChildNode_code@;
            let name = op.request->AddChildNode_name@;
            let fits = 0 < parent.len() < code.len() && forall|k: int|
                0 <= k < parent.len() ==> #[trigger] code[k] == parent[k];
            &&& none_has(chart.nodes, parent) ==> {
                &&& found.status == StatusView::<E>::Failed(
                    FailureView::Chart(
                        ChartOfAccountsErrorView::ParentAccountNotFound(dotted(parent)),
                    ),
                )
                &&& found.chart == Some(chart)
            }
            &&& !none_has(chart.nodes, parent) && !fits ==> {
                &&& found.status == StatusView::<E>::Failed(
                    FailureView::Chart(
                        ChartOfAccountsErrorView::AccountCodeParseError(
                            AccountCodeParseError::InvalidParent,
                        ),
                    ),
                )
                &&& found.chart == Some(chart)
            }
            &&& !none_has(chart.nodes, parent) && fits && !none_has(chart.nodes, code) ==> {
                &&& found.status is Finished
                &&& found.chart == Some(chart)
            }
            &&& stored_at(chart.nodes, i, parent) && fits && none_has(chart.nodes, code)
                ==> writes_account(
                found,
                chart,
                AccountSpecView {
                    parent: Some(parent),
                    code,
                    name,
                    normal_balance_type: chart.nodes.persisted[i].spec.normal_balance_type,
                },
                op.journal_id,
                op.request->AddChildNode_trial_balance_ref is Some,
                ids,
                new_id,
            )
        }),
{
    let parent = op.request->parent_code@;
    let code = op.request->AddChildNode_code@;
    let name = op.request->AddChildNode_name@;
    assert(op.todo.drop_first().len() == 0);
    nothing_is_found(chart.nodes, parent);
    nothing_is_found(chart.nodes, code);
    let fits = 0 < parent.len() < code.len() && forall|k: int|
        0 <= k < parent.len() ==> #[trigger] code[k] == parent[k];
    if fits {
        assert(code.take(parent.len() as int) =~= parent);
    } else if 0 < parent.len() < code.len() && code.take(parent.len() as int) == parent {
        assert forall|k: int| 0 <= k < parent.len() implies #[trigger] code[k] == parent[k] by {
            assert(code.take(parent.len() as int)[k] == parent[k]);
        }
    }
    if stored_at(chart.nodes, i, parent) {
        stored_is_found(chart.nodes, i, parent);
        if fits && none_has(chart.nodes, code) {
            let spec = AccountSpecView {
                parent: Some(parent),
                code,
                name,
                normal_balance_type: chart.nodes.persisted[i].spec.normal_balance_type,
            };
            let asked = OperationView { todo: op.todo.drop_first(), ..op.with_chart(chart) };
            storing_writes_account(
                asked,
                chart,
                spec,
                op.request->AddChildNode_trial_balance_ref is Some,
                ids,
                new_id,
            );
        }
    }
}

/// When permission for a manual account is given and the account is named by
/// code: without a stored node it fails, with a node that has children too. An
/// account that the node has is the answer. Otherwise a new account with the
/// node's chart, code, name and side is noted at the node, and goes under the
/// node's account set.
pub proof fn manual_account_by_code_is_decided<E>(
    op: OperationView<E>,
    chart: ChartView,
    code: Seq<Seq<char>>,
    ids: Seq<NewNodeIds>,
    new_id: LedgerAccountId,
    i: int,
)
    requires
        op.request matches Request::ManualAccount { account_id_or_code } && account_id_or_code@
            == AccountIdOrCodeView::Code(code),
        op.status is Asking,
        op.todo.len() == 1,
        op.todo[0] is EnforcePermission,
        op.chart == Some(chart),
    ensures
        ({
            let given = op.after(ReplyView::Done, ids, new_id);
            let node = chart.nodes.persisted[i];
            &&& none_stored(chart.nodes, code) ==> {
                &&& given.status == StatusView::<E>::Failed(
                    FailureView::Chart(ChartOfAccountsErrorView::CodeNotFoundInChart(code)),
                )
                &&& given.chart == Some(chart)
            }
            &&& stored_at(chart.nodes, i, code) && node.children.len() > 0 ==> {
                &&& given.status == StatusView::<E>::Failed(
                    FailureView::Chart(ChartOfAccountsErrorView::NonLeafAccount(dotted(code))),
                )
                &&& given.chart == Some(chart)
            }
            &&& stored_at(chart.nodes, i, code) && node.children.len() == 0
                && node.manual_transaction_account_id is Some ==> {
                &&& given.status is Finished
                &&& given.account_id == node.manual_transaction_account_id
                &&& given.chart == Some(chart)
            }
            &&& stored_at(chart.nodes, i, code) && node.children.len() == 0
                && node.manual_transaction_account_id is None ==> {
                &&& given.status is Writing
                &&& given.changed
                &&& given.todo == seq![Task::BeginOp, Task::UpdateChart]
                &&& given.plan matches PlanView::ManualAccount { account_set_id, new_account }
                &&& account_set_id == node.account_set_id
                &&& new_account.id == new_id
                &&& new_account.chart_id == node.chart_id
                &&& new_account.code == code
                &&& new_account.name == node.spec.name
                &&& new_account.normal_balance_type == node.spec.normal_balance_type
                &&& given.chart matches Some(now)
                &&& now.nodes.persisted[i].manual_transaction_account_id == Some(new_id)
                &&& now.nodes.persisted[i].id == node.id
                &&& now.nodes.persisted[i].chart_id == node.chart_id
                &&& now.nodes.persisted[i].spec == node.spec
                &&& now.nodes.persisted[i].account_set_id == node.account_set_id
                &&& now.nodes.persisted[i].children == node.children
                &&& now.nodes.new == chart.nodes.new
                &&& now.nodes.persisted.len() == chart.nodes.persisted.len()
                &&& now.events == chart.events
                &&& forall|j: int|
                    0 <= j < chart.nodes.persisted.len() && j != i
                        ==> #[trigger] now.nodes.persisted[j] == chart.nodes.persisted[j]
            }
        }),
{
    assert(op.todo.drop_first().len() == 0);
    nothing_is_found(chart.nodes, code);
    if stored_at(chart.nodes, i, code) {
        stored_is_found(chart.nodes, i, code);
    }
}

/// A new account for manual transactions is stored with the chart, created in
/// the ledger, put under its account set under the identifier that the ledger
/// gave, and committed. That identifier is the answer.
pub proof fn new_manual_account_is_written<E>(
    op: OperationView<E>,
    account_set_id: CalaAccountSetId,
    ids: Seq<NewNodeIds>,
    new_id: LedgerAccountId,
    created: LedgerAccountId,
)
    requires
        op.request is ManualAccount,
        op.status is Writing,
        op.todo == seq![Task::BeginOp, Task::UpdateChart],
        op.plan matches PlanView::ManualAccount { account_set_id: set, .. } && set
            == account_set_id,
        op.chart is Some,
    ensures
        ({
            let begun = op.after(ReplyView::Done, ids, new_id);
            let stored = begun.after(ReplyView::Done, ids, new_id);
            let timed = stored.after(ReplyView::Done, ids, new_id);
            let made = timed.after(ReplyView::AccountCreated { id: created }, ids, new_id);
            let added = made.after(ReplyView::Done, ids, new_id);
            let committed = added.after(ReplyView::Done, ids, new_id);
            &&& begun.todo == seq![Task::UpdateChart]
            &&& stored.todo == seq![Task::UseDbTime, Task::CreateAccount]
            &&& timed.todo == seq![Task::CreateAccount]
            &&& made.todo == seq![
                Task::AddAccount { account_set_id, account_id: created },
                Task::Commit,
            ]
            &&& made.account_id == Some(created)
            &&& added.todo == seq![Task::Commit]
            &&& committed.status is Finished
            &&& committed.account_id == Some(created)
        }),
{
    let begun = op.after(ReplyView::Done, ids, new_id);
    assert(op.todo.drop_first() =~= seq![Task::UpdateChart]);
    assert(begun.todo == seq![Task::UpdateChart] && begun.status is Writing);
    let stored = begun.after(ReplyView::Done, ids, new_id);
    assert(stored == begun.stored());
    assert(stored.todo == seq![Task::UseDbTime, Task::CreateAccount]);
    assert(stored.plan == op.plan && stored.status is Writing);
    let timed = stored.after(ReplyView::Done, ids, new_id);
    assert(stored.todo.drop_first() =~= seq![Task::CreateAccount]);
    assert(timed.todo == seq![Task::CreateAccount]);
    assert(timed.plan == op.plan && timed.status is Writing);
    let made = timed.after(ReplyView::AccountCreated { id: created }, ids, new_id);
    assert(made.todo == seq![
        Task::AddAccount { account_set_id, account_id: created },
        Task::Commit,
    ]);
    assert(made.status is Writing && made.account_id == Some(created));
    let added = made.after(ReplyView::Done, ids, new_id);
    assert(made.todo.drop_first() =~= seq![Task::Commit]);
    assert(added.todo == seq![Task::Commit]);
    assert(added.status is Writing && added.account_id == Some(created));
    assert(added.todo.drop_first().len() == 0);
}

/// As before, for an account that is named by its identifier: one that no stored
/// node has is the answer as it is, and nothing is written. One that a node has
/// is the answer if that node has no children, and else refused.
pub proof fn manual_account_by_id_is_answered<E>(
    op: OperationView<E>,
    chart: ChartView,
    id: LedgerAccountId,
    ids: Seq<NewNodeIds>,
    new_id: LedgerAccountId,
    i: int,
)
    requires
        op.request matches Request::ManualAccount { account_id_or_code } && account_id_or_code@
            == AccountIdOrCodeView::Id(id),
        op.status is Asking,
        op.todo.len() == 1,
        op.todo[0] is EnforcePermission,
        op.chart == Some(chart),
    ensures
        ({
            let given = op.after(ReplyView::Done, ids, new_id);
            let none = forall|j: int|
                0 <= j < chart.nodes.persisted.len() ==> (
                #[trigger] chart.nodes.persisted[j]).manual_transaction_account_id != Some(id);
            let first = {
                &&& 0 <= i < chart.nodes.persisted.len()
                &&& chart.nodes.persisted[i].manual_transaction_account_id == Some(id)
                &&& forall|j: int|
                    0 <= j < i ==> (
                    #[trigger] chart.nodes.persisted[j]).manual_transaction_account_id != Some(id)
            };
            &&& given.chart == Some(chart)
            &&& given.todo.len() == 0
            &&& none ==> given.status is Finished && given.account_id == Some(id)
            &&& first && chart.nodes.persisted[i].children.len() == 0 ==> given.status is Finished
                && given.account_id == Some(id)
            &&& first && chart.nodes.persisted[i].children.len() > 0 ==> given.status
                == StatusView::<E>::Failed(
                FailureView::Chart(
                    ChartOfAccountsErrorView::NonLeafAccount(
                        dotted(chart.nodes.persisted[i].spec.code),
                    ),
                ),
            )
        }),
{
    let all = manual_accounts(chart.nodes.persisted);
    assert(op.todo.drop_first().len() == 0);
    all.index_of_first_ensures(Some(id));
    if all.contains(Some(id)) {
        let k = all.index_of_first(Some(id))->0;
        assert(chart.nodes.persisted[k].manual_transaction_account_id == Some(id));
    }
    if 0 <= i < chart.nodes.persisted.len()
        && chart.nodes.persisted[i].manual_transaction_account_id == Some(id) && (forall|j: int|
        0 <= j < i ==> (#[trigger] chart.nodes.persisted[j]).manual_transaction_account_id != Some(
            id,
        )) {
        assert forall|j: int| 0 <= j < i implies all[j] != Some(id) by {
            assert(all[j] == chart.nodes.persisted[j].manual_transaction_account_id);
        }
        first_index_is(all, Some(id), i);
    }
}

/// A chart that is looked for is the end of the search, as it was found.
pub proof fn found_chart_ends_the_search<E>(
    op: OperationView<E>,
    chart: ChartView,
    ids: Seq<NewNodeIds>,
    new_id: LedgerAccountId,
)
    requires
        op.request is FindChart || op.request is MaybeFindChart || op.request is FindBaseConfig,
        op.status is Asking,
        op.todo.len() == 1,
        op.todo[0] is FindByReference || op.todo[0] is FindById,
    ensures
        ({
            let found = op.after(ReplyView::Found { chart }, ids, new_id);
            &&& found.status is Finished
            &&& found.todo.len() == 0
            &&& found.chart == Some(chart)
            &&& !found.changed || op.changed
        }),
{
    assert(op.todo.drop_first().len() == 0);
}

/// A question about a chart is passed on once the chart is found, and then the
/// operation is at its end. A code that is asked for is read first: it is the
/// one with the text that was given, and a text of no code fails.
pub proof fn question_is_passed_on<E>(
    op: OperationView<E>,
    chart: ChartView,
    ids: Seq<NewNodeIds>,
    new_id: LedgerAccountId,
)
    requires
        op.request is Query,
        op.status is Asking,
        op.todo.len() == 1,
        op.todo[0] is FindByReference,
    ensures
        ({
            let found = op.after(ReplyView::Found { chart }, ids, new_id);
            let asked = found.after(ReplyView::Done, ids, new_id);
            let readable = op.request->query matches Query::LedgerAccountByCode { code }
                ==> exists|sections: Seq<Seq<char>>|
                is_code(sections) && #[trigger] dotted(sections) == code@;
            &&& found.chart == Some(chart)
            &&& readable ==> {
                &&& found.status is Writing
                &&& found.todo == seq![Task::Query]
                &&& op.request->query matches Query::LedgerAccountByCode { code } ==> {
                    &&& found.plan matches PlanView::LedgerAccountCode { code: read }
                    &&& is_code(read)
                    &&& dotted(read) == code@
                }
                &&& asked.status is Finished
            }
            &&& !readable ==> found.status == StatusView::<E>::Failed(
                FailureView::AccountCode(AccountCodeParseError::InvalidSection),
            )
        }),
{
    let found = op.after(ReplyView::Found { chart }, ids, new_id);
    assert(op.todo.drop_first().len() == 0);
    if found.status is Writing {
        assert(found.todo.drop_first().len() == 0);
    }
}

/// A manual transaction is executed, and then the ledger's transaction that came
/// of it is looked for.
pub proof fn executed_transaction_is_looked_for<E>(
    op: OperationView<E>,
    id: LedgerTransactionId,
    ids: Seq<NewNodeIds>,
    new_id: LedgerAccountId,
)
    requires
        op.request is ManualTransaction,
        op.status is Writing,
        op.todo == seq![Task::ExecuteManualTransaction],
    ensures
        ({
            let executed = op.after(ReplyView::Executed { id }, ids, new_id);
            let found = executed.after(ReplyView::Done, ids, new_id);
            &&& executed.todo == seq![Task::FindLedgerTransaction { id }]
            &&& executed.status is Writing
            &&& found.status is Finished
        }),
{
    let executed = op.after(ReplyView::Executed { id }, ids, new_id);
    assert(executed.todo.drop_first().len() == 0);
}

/// The account sets that an import lists for the trial balance are those of
/// stored accounts of the first level, and of them exactly the ones that are
/// given.
pub proof fn first_level_accounts_are_listed(
    chart: ChartView,
    given: Seq<CalaAccountSetId>,
    id: CalaAccountSetId,
)
    ensures
        trial_balance_nodes(chart, given).contains(id) <==> given.contains(id) && exists|i: int|
            0 <= i < chart.nodes.persisted.len() && (
            #[trigger] chart.nodes.persisted[i]).account_set_id == id
                && chart.nodes.persisted[i].spec.code.len() == 1,
        trial_balance_nodes(chart, given).len() <= chart.nodes.persisted.len(),
        (forall|i: int, j: int|
            0 <= i < j < chart.nodes.persisted.len() ==> (
            #[trigger] chart.nodes.persisted[i]).account_set_id != (
            #[trigger] chart.nodes.persisted[j]).account_set_id) ==> trial_balance_nodes(
            chart,
            given,
        ).no_duplicates(),
{
    listed_first(chart, given, chart.nodes.persisted.len() as int, id);
    assert(chart.nodes.persisted.take(chart.nodes.persisted.len() as int)
        =~= chart.nodes.persisted);
}

proof fn listed_first(chart: ChartView, given: Seq<CalaAccountSetId>, n: int, id: CalaAccountSetId)
    requires
        0 <= n <= chart.nodes.persisted.len(),
    ensures
        ({
            let part = ChartView {
                nodes: ChartNodesView {
                    persisted: chart.nodes.persisted.take(n),
                    ..chart.nodes
                },
                ..chart
            };
            let listed = trial_balance_nodes(part, given);
            &&& listed.contains(id) <==> given.contains(id) && exists|i: int|
                0 <= i < n && (#[trigger] chart.nodes.persisted[i]).account_set_id == id
                    && chart.nodes.persisted[i].spec.code.len() == 1
            &&& listed.len() <= n
            &&& (forall|i: int, j: int|
                0 <= i < j < chart.nodes.persisted.len() ==> (
                #[trigger] chart.nodes.persisted[i]).account_set_id != (
                #[trigger] chart.nodes.persisted[j]).account_set_id) ==> listed.no_duplicates()
        }),
    decreases n,
{
    reveal(Seq::filter);
    let wanted = |node: ChartNodeView|
        node.is_trial_balance_account() && given.contains(node.account_set_id);
    let set = |node: ChartNodeView| node.account_set_id;
    let now = chart.nodes.persisted.take(n);
    if n == 0 {
        assert(now =~= Seq::empty());
        assert(now.filter(wanted).map_values(set).len() == 0);
    } else {
        let node = chart.nodes.persisted[n - 1];
        let earlier = chart.nodes.persisted.take(n - 1);
        assert(now.drop_last() =~= earlier);
        let before = earlier.filter(wanted).map_values(set);
        let listed = now.filter(wanted).map_values(set);
        listed_first(chart, given, n - 1, id);
        listed_first(chart, given, n - 1, node.account_set_id);
        if wanted(node) {
            assert(listed =~= before.push(node.account_set_id));
            assert(listed[before.len() as int] == node.account_set_id);
            if before.contains(id) {
                let k = before.index_of(id);
                assert(listed[k] == id);
            }
            if listed.contains(id) && !before.contains(id) {
                let k = listed.index_of(id);
                if k < before.len() {
                    assert(before[k] == id);
                }
            }
            assert(chart.nodes.persisted[n - 1].account_set_id == node.account_set_id);
        } else {
            assert(listed =~= before);
        }
    }
}

} // verus!
