//! Operations on charts, as what is to be done next and what comes back.
//!
//! An operation first asks its questions: for permission, for the chart, for
//! the accounts of an import. When all are answered it decides, and from then
//! on it writes. Whoever runs it carries out one task after the other and
//! replies to each.
use vstd::prelude::*;

use super::bulk_import::BulkImportResult;
use super::chart_node::{NewAccount, NewAccountSet, NewAccountSetView, NewAccountView};
use super::entity::{
    after_manual_account, child_spec, manual_account_answer, trial_balance_nodes, Chart,
    ManualAccountFromChartView,
};
use super::error::{ChartOfAccountsError, ChartOfAccountsErrorView};
use super::events::{latest_closed_as_of, latest_posted_as_of, not_before, ChartEventView};
use super::model::{BulkImportResultView, ChartView, NewNodeIds};
use super::nodes::codes;
use crate::idempotent::Idempotent;
use crate::primitives::account::{
    option_view, views, AccountIdOrCode, AccountName, AccountSetMember, AccountSpec,
    AccountSpecView,
};
use crate::primitives::account_code::{dotted, is_code, AccountCode, AccountCodeParseError};
use crate::primitives::base_config::{
    AccountCategory, AccountingBaseConfig, ResolvedAccountingBaseConfig,
    ResolvedAccountingBaseConfigView,
};
use crate::primitives::closing::{
    closing_codes, ClosingTxDetails, ClosingTxParentIdsAndDetails, ClosingTxParentIdsAndDetailsView,
    Date,
};
use crate::primitives::ids::{
    CalaAccountSetId, CalaJournalId, ChartId, LedgerAccountId, LedgerTransactionId,
};
use crate::primitives::permission::{CoreAccountingAction, CoreAccountingObject};

verus! {

/// One thing that an operation wants done.
#[derive(Debug, Clone, Copy, PartialEq, Eq, Structural)]
pub enum Task {
    /// Ask whether the subject may do the action on the object.
    EnforcePermission { object: CoreAccountingObject, action: CoreAccountingAction },
    /// Look for the chart that the operation's reference names.
    FindByReference,
    /// Look for the chart with an identifier.
    FindById { id: ChartId },
    /// Read the accounts out of the request's import data.
    ParseAccounts,
    /// Begin a transaction of the database.
    BeginOp,
    /// Store the new chart of the request.
    CreateChart,
    /// Create the account set that stands for the chart in the ledger.
    CreateRootAccountSet,
    /// Store what has changed in the operation's chart.
    UpdateChart,
    /// Go on with the time of the database.
    UseDbTime,
    /// Create the account sets of the plan.
    CreateAccountSets,
    /// Create the one account set of the plan.
    CreateAccountSet,
    /// Create the account of the plan.
    CreateAccount,
    /// Put an account set under another one.
    AddAccountSet { parent: CalaAccountSetId, member: CalaAccountSetId },
    /// Put an account under an account set.
    AddAccount { account_set_id: CalaAccountSetId, account_id: LedgerAccountId },
    /// Close an account set as of a day.
    CloseAccountSet { closed_as_of: Date, account_set_id: CalaAccountSetId },
    /// Post the closing transaction of the plan.
    PostClosingTransaction,
    /// Add the operation's listed accounts to the trial balance of the request.
    AddToTrialBalance,
    /// Link the resolved base configuration to the request's balance sheet.
    LinkBalanceSheet,
    /// Link the resolved base configuration to the request's profit and loss
    /// statement.
    LinkProfitAndLoss,
    /// Commit the transaction of the database.
    Commit,
    /// Answer the question that the request has about the chart.
    Query,
    /// Execute the manual transaction of the request.
    ExecuteManualTransaction,
    /// Look for a transaction of the ledger.
    FindLedgerTransaction { id: LedgerTransactionId },
}

impl Task {
    /// The task asks something, or begins a transaction, and changes nothing.
    pub open spec fn is_question(self) -> bool {
        match self {
            Task::EnforcePermission { .. } => true,
            Task::FindByReference => true,
            Task::FindById { .. } => true,
            Task::ParseAccounts => true,
            Task::BeginOp => true,
            _ => false,
        }
    }

    /// The reply to the task tells no more than that it is done.
    pub open spec fn is_plain(self) -> bool {
        match self {
            Task::FindByReference => false,
            Task::FindById { .. } => false,
            Task::ParseAccounts => false,
            Task::CreateChart => false,
            Task::UpdateChart => false,
            Task::CreateAccount => false,
            Task::ExecuteManualTransaction => false,
            _ => true,
        }
    }
}

/// The reports that an import is linked to.
#[derive(Debug)]
pub struct ReportRefs {
    pub balance_sheet_ref: String,
    pub profit_and_loss_ref: String,
    pub trial_balance_ref: String,
}

/// A question about a chart that another part of the application answers.
#[derive(Debug)]
pub enum Query {
    LedgerAccountById { id: LedgerAccountId },
    LedgerAccountByCode { code: String },
    LedgerAccounts { ids: Vec<LedgerAccountId> },
    AllLedgerAccounts { from: Date, until: Option<Date>, filter_non_zero: bool },
    InitFiscalYear { opened_as_of: Date },
    FiscalYears,
    FiscalYear { year: String },
}

/// What an operation was asked to do.
#[derive(Debug)]
pub enum Request {
    CreateChart { id: ChartId, name: String, reference: String },
    ImportWithBaseConfig {
        import_data: String,
        base_config: AccountingBaseConfig,
        reports: Option<ReportRefs>,
    },
    Import { import_data: String, trial_balance_ref: Option<String> },
    AddRootNode { spec: AccountSpec, trial_balance_ref: Option<String> },
    AddChildNode {
        parent_code: AccountCode,
        code: AccountCode,
        name: AccountName,
        trial_balance_ref: Option<String>,
    },
    FindChart,
    MaybeFindChart,
    FindBaseConfig,
    CloseAsOf { closed_as_of: Date },
    PostClosing { tx_details: ClosingTxDetails },
    ManualAccount { account_id_or_code: AccountIdOrCode },
    AccountSetsByCategory { category: AccountCategory },
    Query { query: Query },
    ManualTransaction { reference: Option<String>, description: String, effective: Date },
}

/// What an operation has decided to hand to the ledger.
#[derive(Debug)]
pub enum Plan {
    Nothing,
    Accounts { result: BulkImportResult },
    Account { new_account_set: NewAccountSet, parent_account_set_id: CalaAccountSetId },
    ManualAccount { account_set_id: CalaAccountSetId, new_account: NewAccount },
    ClosingTransaction { params: ClosingTxParentIdsAndDetails },
    LedgerAccountCode { code: AccountCode },
}

/// The value of a `Plan`.
#[verifier::ext_equal]
pub enum PlanView {
    Nothing,
    Accounts { result: BulkImportResultView },
    Account { new_account_set: NewAccountSetView, parent_account_set_id: CalaAccountSetId },
    ManualAccount { account_set_id: CalaAccountSetId, new_account: NewAccountView },
    ClosingTransaction { params: ClosingTxParentIdsAndDetailsView },
    LedgerAccountCode { code: Seq<Seq<char>> },
}

impl View for Plan {
    type V = PlanView;

    open spec fn view(&self) -> PlanView {
        match self {
            Plan::Nothing => PlanView::Nothing,
            Plan::Accounts { result } => PlanView::Accounts { result: result@ },
            Plan::Account { new_account_set, parent_account_set_id } => PlanView::Account {
                new_account_set: new_account_set@,
                parent_account_set_id: *parent_account_set_id,
            },
            Plan::ManualAccount { account_set_id, new_account } => PlanView::ManualAccount {
                account_set_id: *account_set_id,
                new_account: new_account@,
            },
            Plan::ClosingTransaction { params } => PlanView::ClosingTransaction {
                params: params@,
            },
            Plan::LedgerAccountCode { code } => PlanView::LedgerAccountCode { code: code@ },
        }
    }
}

/// What comes back when a task was carried out.
#[derive(Debug)]
pub enum Reply<E> {
    /// It is done.
    Done,
    /// The chart that was found or created.
    Found { chart: Chart },
    /// There is no such chart.
    NotFound,
    /// The accounts that were read.
    Parsed { account_specs: Vec<AccountSpec> },
    /// The account that was created.
    AccountCreated { id: LedgerAccountId },
    /// The transaction that was executed.
    Executed { id: LedgerTransactionId },
    /// It could not be done.
    Failed { error: E },
}

/// The value of a `Reply`.
#[verifier::ext_equal]
pub enum ReplyView<E> {
    Done,
    Found { chart: ChartView },
    NotFound,
    Parsed { account_specs: Seq<AccountSpecView> },
    AccountCreated { id: LedgerAccountId },
    Executed { id: LedgerTransactionId },
    Failed { error: E },
}

impl<E> View for Reply<E> {
    type V = ReplyView<E>;

    open spec fn view(&self) -> ReplyView<E> {
        match self {
            Reply::Done => ReplyView::Done,
            Reply::Found { chart } => ReplyView::Found { chart: chart@ },
            Reply::NotFound => ReplyView::NotFound,
            Reply::Parsed { account_specs } => ReplyView::Parsed {
                account_specs: views(account_specs@),
            },
            Reply::AccountCreated { id } => ReplyView::AccountCreated { id: *id },
            Reply::Executed { id } => ReplyView::Executed { id: *id },
            Reply::Failed { error } => ReplyView::Failed { error: *error },
        }
    }
}

impl<E> ReplyView<E> {
    /// How many nodes may have to be created because of the reply.
    pub open spec fn nodes_needed(self) -> nat {
        match self {
            ReplyView::Parsed { account_specs } if account_specs.len() > 0 => account_specs.len(),
            _ => 1,
        }
    }
}

/// Why an operation came to a bad end.
#[derive(Debug)]
pub enum Failure<E> {
    /// The chart refused.
    Chart(ChartOfAccountsError),
    /// The code of a ledger account could not be read.
    AccountCode(AccountCodeParseError),
    /// A task could not be carried out.
    Outside(E),
}

/// The value of a `Failure`.
#[verifier::ext_equal]
pub enum FailureView<E> {
    Chart(ChartOfAccountsErrorView),
    AccountCode(AccountCodeParseError),
    Outside(E),
}

impl<E> View for Failure<E> {
    type V = FailureView<E>;

    open spec fn view(&self) -> FailureView<E> {
        match self {
            Failure::Chart(e) => FailureView::Chart(e@),
            Failure::AccountCode(e) => FailureView::AccountCode(*e),
            Failure::Outside(e) => FailureView::Outside(*e),
        }
    }
}

/// How far an operation is.
#[derive(Debug)]
pub enum Status<E> {
    Asking,
    Writing,
    Finished,
    Failed(Failure<E>),
}

/// The value of a `Status`.
#[verifier::ext_equal]
pub enum StatusView<E> {
    Asking,
    Writing,
    Finished,
    Failed(FailureView<E>),
}

impl<E> View for Status<E> {
    type V = StatusView<E>;

    open spec fn view(&self) -> StatusView<E> {
        match self {
            Status::Asking => StatusView::Asking,
            Status::Writing => StatusView::Writing,
            Status::Finished => StatusView::Finished,
            Status::Failed(failure) => StatusView::Failed(failure@),
        }
    }
}

/// An operation on a chart.
#[derive(Debug)]
pub struct Operation<E> {
    pub(crate) journal_id: CalaJournalId,
    pub(crate) request: Request,
    /// The reference of the chart, where the operation has one.
    pub(crate) chart_ref: String,
    /// What is still to be done, in this order.
    pub(crate) todo: Vec<Task>,
    /// The chart, once it is found.
    pub(crate) chart: Option<Chart>,
    pub(crate) plan: Plan,
    /// The base configuration that reports are linked to.
    pub(crate) resolved: Option<ResolvedAccountingBaseConfig>,
    /// Whether the chart was changed.
    pub(crate) changed: bool,
    /// The new accounts that belong in the trial balance.
    pub(crate) listed: Vec<CalaAccountSetId>,
    /// The account for manual transactions, once it is known.
    pub(crate) account_id: Option<LedgerAccountId>,
    pub(crate) status: Status<E>,
}

/// The value of an `Operation`.
#[verifier::ext_equal]
pub struct OperationView<E> {
    pub journal_id: CalaJournalId,
    pub request: Request,
    pub chart_ref: Seq<char>,
    pub todo: Seq<Task>,
    pub chart: Option<ChartView>,
    pub plan: PlanView,
    pub resolved: Option<ResolvedAccountingBaseConfigView>,
    pub changed: bool,
    pub listed: Seq<CalaAccountSetId>,
    pub account_id: Option<LedgerAccountId>,
    pub status: StatusView<E>,
}

impl<E> View for Operation<E> {
    type V = OperationView<E>;

    open(crate) spec fn view(&self) -> OperationView<E> {
        OperationView {
            journal_id: self.journal_id,
            request: self.request,
            chart_ref: self.chart_ref@,
            todo: self.todo@,
            chart: option_view(self.chart),
            plan: self.plan@,
            resolved: option_view(self.resolved),
            changed: self.changed,
            listed: self.listed@,
            account_id: self.account_id,
            status: self.status@,
        }
    }
}

impl<E> Operation<E> {
    /// An operation is sound.
    #[verifier::type_invariant]
    pub(crate) open spec fn stays_sound(self) -> bool {
        self@.is_sound()
    }
}

/// For each connection, one account set is put under another.
pub open spec fn connecting(connections: Seq<(CalaAccountSetId, CalaAccountSetId)>) -> Seq<Task> {
    connections.map_values(
        |connection: (CalaAccountSetId, CalaAccountSetId)|
            Task::AddAccountSet { parent: connection.0, member: connection.1 },
    )
}

/// Linking an import to its reports, and then committing it.
pub open spec fn linking() -> Seq<Task> {
    seq![Task::AddToTrialBalance, Task::LinkBalanceSheet, Task::LinkProfitAndLoss, Task::Commit]
}

/// Adding new accounts to a trial balance, where one is named and there are
/// any.
pub open spec fn listing(trial_balance_ref: Option<String>, wanted: bool) -> Seq<Task> {
    if trial_balance_ref is Some && wanted {
        seq![Task::AddToTrialBalance]
    } else {
        Seq::empty()
    }
}

/// What `trial_balance_account_id_from_new_account` finds, as a list.
pub open spec fn trial_balance_account(chart: ChartView, id: CalaAccountSetId) -> Seq<
    CalaAccountSetId,
> {
    if exists|i: int|
        0 <= i < chart.nodes.persisted.len() && (
        #[trigger] chart.nodes.persisted[i]).is_trial_balance_account()
            && chart.nodes.persisted[i].account_set_id == id {
        seq![id]
    } else {
        Seq::empty()
    }
}

impl<E> OperationView<E> {
    /// An operation that has its questions before it.
    pub open spec fn started(
        journal_id: CalaJournalId,
        request: Request,
        chart_ref: Seq<char>,
        questions: Seq<Task>,
    ) -> Self {
        OperationView {
            journal_id,
            request,
            chart_ref,
            todo: questions,
            chart: None,
            plan: PlanView::Nothing,
            resolved: None,
            changed: false,
            listed: Seq::empty(),
            account_id: None,
            status: StatusView::Asking,
        }
    }

    /// What is to be done next.
    pub open spec fn pending(self) -> Option<Task> {
        if self.todo.len() > 0 {
            Some(self.todo[0])
        } else {
            None
        }
    }

    /// The operation has failed.
    pub open spec fn failed(self, failure: FailureView<E>) -> Self {
        OperationView { todo: Seq::empty(), status: StatusView::Failed(failure), ..self }
    }

    /// The operation has reached its end.
    pub open spec fn finished(self) -> Self {
        OperationView { todo: Seq::empty(), status: StatusView::Finished, ..self }
    }

    /// The operation has decided what to write.
    pub open spec fn writing(self, todo: Seq<Task>) -> Self {
        OperationView { todo, status: StatusView::Writing, ..self }
    }

    /// The operation with its chart changed.
    pub open spec fn with_chart(self, chart: ChartView) -> Self {
        OperationView { chart: Some(chart), ..self }
    }

    /// A new account is to be stored.
    pub open spec fn storing_account(self, spec: AccountSpecView, ids: NewNodeIds) -> Self {
        let chart = self.chart->0;
        if chart.nodes.details(spec.code) is Some {
            self.finished()
        } else {
            OperationView {
                chart: Some(chart.after_create(spec, ids)),
                plan: PlanView::Account {
                    new_account_set: chart.node_for(spec, ids, Seq::empty()).new_account_set(
                        self.journal_id,
                    ),
                    parent_account_set_id: chart.stored_parent_account_set(spec.parent),
                },
                changed: true,
                ..self
            }.writing(seq![Task::BeginOp, Task::UpdateChart])
        }
    }

    /// What the operation decides when its questions are answered. The
    /// accounts to import are those that were read last; `ids` and `new_id`
    /// are the identifiers for whatever is new.
    pub open spec fn decided(
        self,
        specs: Seq<AccountSpecView>,
        ids: Seq<NewNodeIds>,
        new_id: LedgerAccountId,
    ) -> Self {
        let chart = self.chart->0;
        match self.request {
            Request::CreateChart { .. } => self.writing(
                seq![Task::CreateChart, Task::CreateRootAccountSet, Task::Commit],
            ),
            Request::MaybeFindChart => self.finished(),
            _ => if self.chart is None {
                self.finished()
            } else {
                match self.request {
                    Request::ImportWithBaseConfig { base_config, reports, .. } => {
                        let after = self.with_chart(
                            chart.after_configure(specs, base_config@, self.journal_id, ids),
                        );
                        match chart.configure_answer(specs, base_config@, self.journal_id, ids) {
                            Err(e) => after.failed(FailureView::Chart(e)),
                            Ok(Idempotent::Executed(result)) => OperationView {
                                plan: PlanView::Accounts { result },
                                resolved: if reports is Some {
                                    Some(after.chart->0.resolved(base_config@))
                                } else {
                                    None
                                },
                                changed: true,
                                ..after
                            }.writing(seq![Task::UpdateChart]),
                            Ok(Idempotent::AlreadyApplied) => if reports is None {
                                self.finished()
                            } else {
                                match chart.base_config {
                                    None => self.failed(
                                        FailureView::Chart(
                                            ChartOfAccountsErrorView::BaseConfigNotInitialized,
                                        ),
                                    ),
                                    Some(config) => OperationView {
                                        resolved: Some(chart.resolved(config)),
                                        ..self
                                    }.writing(linking()),
                                }
                            },
                        }
                    },
                    Request::Import { .. } => {
                        let result = chart.import_result(specs, ids, self.journal_id);
                        let after = self.with_chart(
                            chart.after_import(specs, ids, self.journal_id),
                        );
                        if result.new_account_sets.len() == 0 {
                            after.finished()
                        } else {
                            OperationView {
                                plan: PlanView::Accounts { result },
                                changed: true,
                                ..after
                            }.writing(seq![Task::BeginOp, Task::UpdateChart])
                        }
                    },
                    Request::AddRootNode { spec, .. } => self.storing_account(spec@, ids[0]),
                    Request::AddChildNode { parent_code, code, name, .. } => {
                        match chart.child_error(parent_code@, code@, name@) {
                            Some(e) => self.failed(FailureView::Chart(e)),
                            None => self.storing_account(
                                child_spec(chart, parent_code@, code@, name@),
                                ids[0],
                            ),
                        }
                    },
                    Request::CloseAsOf { closed_as_of } => {
                        if not_before(latest_closed_as_of(chart.events), closed_as_of) {
                            self.finished()
                        } else {
                            OperationView {
                                chart: Some(chart.after_close(closed_as_of)),
                                changed: true,
                                ..self
                            }.writing(seq![Task::UpdateChart])
                        }
                    },
                    Request::PostClosing { tx_details } => match chart.base_config {
                        None => self.failed(
                            FailureView::Chart(ChartOfAccountsErrorView::BaseConfigNotInitialized),
                        ),
                        Some(config) => match chart.closing_codes_error(closing_codes(config)) {
                            Some(e) => self.failed(FailureView::Chart(e)),
                            None => if not_before(
                                latest_posted_as_of(chart.events),
                                tx_details.posted_as_of,
                            ) {
                                self.finished()
                            } else {
                                OperationView {
                                    chart: Some(
                                        chart.after_post(
                                            closing_codes(config),
                                            tx_details.posted_as_of,
                                        ),
                                    ),
                                    plan: PlanView::ClosingTransaction {
                                        params: ClosingTxParentIdsAndDetailsView {
                                            parent_ids: chart.closing_account_sets(
                                                closing_codes(config),
                                            ),
                                            tx_details: tx_details@,
                                        },
                                    },
                                    changed: true,
                                    ..self
                                }.writing(seq![Task::UpdateChart])
                            },
                        },
                    },
                    Request::ManualAccount { account_id_or_code } => match manual_account_answer(
                        chart,
                        account_id_or_code@,
                        new_id,
                    ) {
                        Err(e) => self.failed(FailureView::Chart(e)),
                        Ok(ManualAccountFromChartView::IdInChart(id)) => OperationView {
                            account_id: Some(id),
                            ..self
                        }.finished(),
                        Ok(ManualAccountFromChartView::NonChartId(id)) => OperationView {
                            account_id: Some(id),
                            ..self
                        }.finished(),
                        Ok(ManualAccountFromChartView::NewAccount(account_set_id, new_account)) => {
                            OperationView {
                                chart: Some(
                                    after_manual_account(chart, account_id_or_code@, new_id),
                                ),
                                plan: PlanView::ManualAccount { account_set_id, new_account },
                                changed: true,
                                ..self
                            }.writing(seq![Task::BeginOp, Task::UpdateChart])
                        },
                    },
                    Request::AccountSetsByCategory { category } => match chart.base_config {
                        None => self.failed(
                            FailureView::Chart(ChartOfAccountsErrorView::BaseConfigNotInitialized),
                        ),
                        Some(config) => if config.code_for_category(category) is Some {
                            self.finished()
                        } else {
                            self.failed(
                                FailureView::Chart(
                                    ChartOfAccountsErrorView::InvalidAccountCategory {
                                        code: Seq::empty(),
                                        category,
                                    },
                                ),
                            )
                        },
                    },
                    Request::Query { query } => match query {
                        Query::LedgerAccountByCode { code } => match code_with_text(code@) {
                            None => self.failed(
                                FailureView::AccountCode(AccountCodeParseError::InvalidSection),
                            ),
                            Some(sections) => OperationView {
                                plan: PlanView::LedgerAccountCode { code: sections },
                                ..self
                            }.writing(seq![Task::Query]),
                        },
                        _ => self.writing(seq![Task::Query]),
                    },
                    _ => self.finished(),
                }
            },
        }
    }

    /// The chart is stored: what the ledger is to do now.
    pub open spec fn stored(self) -> Self {
        let chart = ChartView {
            nodes: self.chart->0.nodes.all_stored(),
            ..self.chart->0
        };
        let after = self.with_chart(chart);
        match (self.request, self.plan) {
            (Request::CloseAsOf { closed_as_of }, _) => after.writing(
                seq![
                    Task::CloseAccountSet { closed_as_of, account_set_id: chart.account_set_id },
                ],
            ),
            (_, PlanView::Accounts { result }) => {
                let listed = trial_balance_nodes(chart, result.new_account_set_ids);
                let connected = seq![Task::CreateAccountSets] + connecting(result.new_connections);
                match self.request {
                    Request::ImportWithBaseConfig { reports, .. } => OperationView {
                        listed,
                        ..after
                    }.writing(
                        connected + if reports is Some {
                            linking()
                        } else {
                            Seq::empty()
                        },
                    ),
                    Request::Import { trial_balance_ref, .. } => OperationView {
                        listed,
                        ..after
                    }.writing(
                        seq![Task::UseDbTime] + connected + seq![Task::Commit] + listing(
                            trial_balance_ref,
                            true,
                        ),
                    ),
                    _ => after.finished(),
                }
            },
            (_, PlanView::Account { new_account_set, parent_account_set_id }) => {
                let listed = trial_balance_account(chart, new_account_set.id);
                let written = seq![
                    Task::UseDbTime,
                    Task::CreateAccountSet,
                    Task::AddAccountSet {
                        parent: parent_account_set_id,
                        member: new_account_set.id,
                    },
                    Task::Commit,
                ];
                match self.request {
                    Request::AddRootNode { trial_balance_ref, .. } => OperationView {
                        listed,
                        ..after
                    }.writing(written + listing(trial_balance_ref, listed.len() > 0)),
                    Request::AddChildNode { trial_balance_ref, .. } => OperationView {
                        listed,
                        ..after
                    }.writing(written + listing(trial_balance_ref, listed.len() > 0)),
                    _ => after.finished(),
                }
            },
            (_, PlanView::ManualAccount { .. }) => after.writing(
                seq![Task::UseDbTime, Task::CreateAccount],
            ),
            (_, PlanView::ClosingTransaction { .. }) => after.writing(
                seq![Task::PostClosingTransaction, Task::Commit],
            ),
            _ => after.finished(),
        }
    }

    /// The first task is done: the operation goes on to the next one. When
    /// there is none, it decides, or is at its end.
    pub open spec fn advanced(
        self,
        specs: Seq<AccountSpecView>,
        ids: Seq<NewNodeIds>,
        new_id: LedgerAccountId,
    ) -> Self {
        let rest = OperationView { todo: self.todo.drop_first(), ..self };
        if rest.todo.len() > 0 {
            rest
        } else if self.status is Asking {
            rest.decided(specs, ids, new_id)
        } else {
            rest.finished()
        }
    }

    /// The operation after a reply to its first task. A reply that does not
    /// fit the task changes nothing.
    pub open spec fn after(
        self,
        reply: ReplyView<E>,
        ids: Seq<NewNodeIds>,
        new_id: LedgerAccountId,
    ) -> Self {
        match (self.pending(), reply) {
            (None, _) => self,
            (Some(_), ReplyView::Failed { error }) => self.failed(FailureView::Outside(error)),
            (Some(Task::FindByReference), ReplyView::Found { chart }) => self.with_chart(
                chart,
            ).advanced(Seq::empty(), ids, new_id),
            (Some(Task::FindById { .. }), ReplyView::Found { chart }) => self.with_chart(
                chart,
            ).advanced(Seq::empty(), ids, new_id),
            (Some(Task::FindByReference), ReplyView::NotFound) => {
                if self.request is MaybeFindChart {
                    self.advanced(Seq::empty(), ids, new_id)
                } else {
                    self.failed(
                        FailureView::Chart(
                            ChartOfAccountsErrorView::ChartOfAccountsNotFoundByReference(
                                self.chart_ref,
                            ),
                        ),
                    )
                }
            },
            (Some(Task::ParseAccounts), ReplyView::Parsed { account_specs }) => self.advanced(
                account_specs,
                ids,
                new_id,
            ),
            (Some(Task::CreateChart), ReplyView::Found { chart }) => self.with_chart(
                chart,
            ).advanced(Seq::empty(), ids, new_id),
            (Some(Task::UpdateChart), ReplyView::Done) => if self.chart is Some {
                self.stored()
            } else {
                self
            },
            (Some(Task::CreateAccount), ReplyView::AccountCreated { id }) => match self.plan {
                PlanView::ManualAccount { account_set_id, .. } => OperationView {
                    account_id: Some(id),
                    ..self
                }.writing(seq![Task::AddAccount { account_set_id, account_id: id }, Task::Commit]),
                _ => self,
            },
            (Some(Task::ExecuteManualTransaction), ReplyView::Executed { id }) => self.writing(
                seq![Task::FindLedgerTransaction { id }],
            ),
            (Some(task), ReplyView::Done) => if task.is_plain() {
                self.advanced(Seq::empty(), ids, new_id)
            } else {
                self
            },
            _ => self,
        }
    }
}

/// The code that a text stands for.
pub open spec fn code_with_text(text: Seq<char>) -> Option<Seq<Seq<char>>> {
    if exists|sections: Seq<Seq<char>>| is_code(sections) && #[trigger] dotted(sections) == text {
        Some(
            choose|sections: Seq<Seq<char>>|
                is_code(sections) && #[trigger] dotted(sections) == text,
        )
    } else {
        None
    }
}

impl<E> OperationView<E> {
    /// The operation can work with a chart. To list account sets, it needs a
    /// chart in which no code stands for two stored accounts. To link reports to
    /// a configuration that the chart has, it needs an account for each code of
    /// it.
    pub open spec fn can_use(self, chart: ChartView) -> bool {
        match self.request {
            Request::AccountSetsByCategory { .. } => codes(
                chart.nodes.persisted,
            ).no_duplicates(),
            Request::ImportWithBaseConfig { base_config, reports, .. } => {
                reports is Some && chart.events.contains(
                    ChartEventView::BaseConfigSet { base_config: base_config@ },
                ) ==> (chart.base_config matches Some(config) ==> chart.has_codes_of(config))
            },
            _ => true,
        }
    }

    /// The operation can work with the chart that comes back, if one does.
    pub open spec fn can_take(self, reply: ReplyView<E>) -> bool {
        reply matches ReplyView::Found { chart } ==> self.can_use(chart)
    }

    /// As long as the operation asks, it has only questions before it, and at
    /// its end nothing. As long as it asks, and where it only reads, it can work
    /// with its chart.
    pub open spec fn is_sound(self) -> bool {
        &&& self.status is Asking ==> forall|i: int|
            0 <= i < self.todo.len() ==> (#[trigger] self.todo[i]).is_question()
        &&& self.request is AccountSetsByCategory ==> !(self.status is Writing)
        &&& self.status is Finished || self.status is Failed ==> self.todo.len() == 0
        &&& self.status is Asking || self.request is AccountSetsByCategory ==> (
        self.chart matches Some(chart) ==> self.can_use(chart))
    }
}

/// The first of some account sets.
pub open spec fn first_of(ids: Seq<CalaAccountSetId>) -> Option<CalaAccountSetId> {
    if ids.len() > 0 {
        Some(ids[0])
    } else {
        None
    }
}

/// What an operation answers.
#[derive(Debug)]
pub enum Answer {
    Nothing,
    Chart(Chart),
    MaybeChart(Option<Chart>),
    /// The chart, and its new accounts that belong in the trial balance.
    ChartWithAccounts(Chart, Vec<CalaAccountSetId>),
    /// As before, or nothing of accounts where the chart was not changed.
    ChartWithNewAccounts(Chart, Option<Vec<CalaAccountSetId>>),
    /// The chart, and its new account if that belongs in the trial balance.
    ChartWithAccount(Chart, Option<CalaAccountSetId>),
    BaseConfig(Option<AccountingBaseConfig>),
    Account(LedgerAccountId),
    AccountSets(Vec<AccountSetMember>),
}

/// What a finished operation answers.
pub open spec fn is_answer<E>(op: OperationView<E>, answer: Answer) -> bool {
    match op.request {
        Request::MaybeFindChart => {
            &&& answer matches Answer::MaybeChart(chart)
            &&& option_view(chart) == op.chart
        },
        Request::ManualAccount { .. } => match op.account_id {
            Some(id) => answer == Answer::Account(id),
            None => answer is Nothing,
        },
        _ => match op.chart {
            None => answer is Nothing,
            Some(chart) => match op.request {
                Request::CreateChart { .. } => answer matches Answer::Chart(found) && found@
                    == chart,
                Request::FindChart => answer matches Answer::Chart(found) && found@ == chart,
                Request::FindBaseConfig => answer matches Answer::BaseConfig(config) && option_view(
                    config,
                ) == chart.base_config,
                Request::ImportWithBaseConfig { reports, .. } => if reports is Some {
                    answer matches Answer::Chart(found) && found@ == chart
                } else {
                    answer matches Answer::ChartWithAccounts(found, ids) && found@ == chart && ids@
                        == op.listed
                },
                Request::Import { trial_balance_ref, .. } => if trial_balance_ref is Some {
                    answer matches Answer::Chart(found) && found@ == chart
                } else {
                    &&& answer matches Answer::ChartWithNewAccounts(found, ids)
                    &&& found@ == chart
                    &&& ids is Some == op.changed
                    &&& ids matches Some(listed) ==> listed@ == op.listed
                },
                Request::AddRootNode { trial_balance_ref, .. } => if trial_balance_ref is Some {
                    answer matches Answer::Chart(found) && found@ == chart
                } else {
                    answer matches Answer::ChartWithAccount(found, id) && found@ == chart && id
                        == first_of(op.listed)
                },
                Request::AddChildNode { trial_balance_ref, .. } => if trial_balance_ref is Some {
                    answer matches Answer::Chart(found) && found@ == chart
                } else {
                    answer matches Answer::ChartWithAccount(found, id) && found@ == chart && id
                        == first_of(op.listed)
                },
                Request::AccountSetsByCategory { category } => match chart.base_config {
                    None => answer is Nothing,
                    Some(config) => match config.code_for_category(category) {
                        None => answer is Nothing,
                        Some(code) => {
                            &&& answer matches Answer::AccountSets(members)
                            &&& chart.lists_under(code, views(members@))
                        },
                    },
                },
                _ => answer is Nothing,
            },
        },
    }
}

} // verus!
