//! Carrying operations on charts forward.
use vstd::prelude::*;

use super::bulk_import::{are_v7, new_ids_for, BulkImportResult};
use super::entity::{
    Chart, ManualAccountFromChart, NewChart, NewChartAccountDetails, UninitializedFieldError,
};
use super::error::ChartOfAccountsError;
use super::events::was_base_config_set;
use super::import_laws::import_needs_only;
use super::laws::{base_config_resolves, import_changes_nodes_only};
use super::model::NewNodeIds;
use super::operation::{
    code_with_text, connecting, first_of, is_answer, linking, listing, trial_balance_account,
    Answer, Failure, Operation, OperationView, Plan, PlanView, Query, Reply, ReplyView, Request,
    Status, StatusView, Task,
};
use crate::idempotent::Idempotent;
use crate::primitives::account::{views, AccountSpec, AccountSpecView};
use crate::primitives::account_code::{dotted, is_code, text_determines_code, AccountCode};
use crate::primitives::base_config::{
    AccountCategory, AccountingBaseConfig, ResolvedAccountingBaseConfig,
};
use crate::primitives::closing::ClosingAccountCodes;
use crate::primitives::ids::{is_uuid_v7, CalaAccountSetId, CalaJournalId, LedgerAccountId};

verus! {

impl<E> Operation<E> {
    /// What is to be done next.
    pub fn pending(&self) -> (res: Option<Task>)
        ensures
            res == self@.pending(),
    {
        if self.todo.len() > 0 {
            Some(self.todo[0])
        } else {
            None
        }
    }

    /// What the operation was asked to do.
    pub fn request(&self) -> (res: &Request)
        ensures
            *res == self@.request,
    {
        &self.request
    }

    /// The reference of the chart, where the operation has one.
    pub fn chart_ref(&self) -> (res: &str)
        ensures
            res@ == self@.chart_ref,
    {
        self.chart_ref.as_str()
    }

    /// The chart, once it is found.
    pub fn chart(&self) -> (res: Option<&Chart>)
        ensures
            match res {
                Some(chart) => self@.chart == Some(chart@),
                None => self@.chart is None,
            },
    {
        match &self.chart {
            Some(chart) => Some(chart),
            None => None,
        }
    }

    /// What the operation has decided to hand to the ledger.
    pub fn plan(&self) -> (res: &Plan)
        ensures
            res@ == self@.plan,
    {
        &self.plan
    }

    /// The base configuration that reports are linked to.
    pub fn resolved(&self) -> (res: Option<&ResolvedAccountingBaseConfig>)
        ensures
            match res {
                Some(resolved) => self@.resolved == Some(resolved@),
                None => self@.resolved is None,
            },
    {
        match &self.resolved {
            Some(resolved) => Some(resolved),
            None => None,
        }
    }

    /// Whether the chart was changed.
    pub fn changed(&self) -> (res: bool)
        ensures
            res == self@.changed,
    {
        self.changed
    }

    /// The new accounts that belong in the trial balance.
    pub fn listed(&self) -> (res: &Vec<CalaAccountSetId>)
        ensures
            res@ == self@.listed,
    {
        &self.listed
    }

    /// An operation that has its questions before it.
    pub(crate) fn start(
        journal_id: CalaJournalId,
        request: Request,
        chart_ref: String,
        todo: Vec<Task>,
    ) -> (res: Self)
        requires
            forall|i: int| 0 <= i < todo.len() ==> (#[trigger] todo@[i]).is_question(),
        ensures
            res@.is_sound(),
            res@ == OperationView::<E>::started(journal_id, request, chart_ref@, todo@),
    {
        Operation {
            journal_id,
            request,
            chart_ref,
            todo,
            chart: None,
            plan: Plan::Nothing,
            resolved: None,
            changed: false,
            listed: Vec::new(),
            account_id: None,
            status: Status::Asking,
        }
    }

    fn fail(self, failure: Failure<E>) -> (res: Self)
        ensures
            res@ == self@.failed(failure@),
    {
        proof {
            use_type_invariant(&self);
        }
        Operation { todo: Vec::new(), status: Status::Failed(failure), ..self }
    }

    fn finish(self) -> (res: Self)
        ensures
            res@ == self@.finished(),
    {
        proof {
            use_type_invariant(&self);
        }
        Operation { todo: Vec::new(), status: Status::Finished, ..self }
    }

    pub(crate) fn write(self, todo: Vec<Task>) -> (res: Self)
        requires
            !(self.request is AccountSetsByCategory),
        ensures
            res@ == self@.writing(todo@),
    {
        proof {
            use_type_invariant(&self);
        }
        Operation { todo, status: Status::Writing, ..self }
    }

    /// A new account is to be stored.
    fn store_account(self, outcome: Idempotent<NewChartAccountDetails>, chart: Chart) -> (res: Self)
        requires
            self.chart is None,
            self.request is AddRootNode || self.request is AddChildNode,
        ensures
            match outcome {
                Idempotent::AlreadyApplied => res@ == self@.with_chart(chart@).finished(),
                Idempotent::Executed(created) => res@ == (OperationView {
                    chart: Some(chart@),
                    plan: PlanView::Account {
                        new_account_set: created.new_account_set@,
                        parent_account_set_id: created.parent_account_set_id,
                    },
                    changed: true,
                    ..self@
                }).writing(seq![Task::BeginOp, Task::UpdateChart]),
            },
    {
        proof {
            use_type_invariant(&self);
        }
        match outcome {
            Idempotent::AlreadyApplied => Operation { chart: Some(chart), ..self }.finish(),
            Idempotent::Executed(created) => {
                let plan: Plan = Plan::Account {
                    new_account_set: created.new_account_set,
                    parent_account_set_id: created.parent_account_set_id,
                };
                Operation { chart: Some(chart), plan, changed: true, ..self }.write(
                    begin_and_update(),
                )
            },
        }
    }

    /// What is decided when an import with a base configuration has its
    /// accounts.
    fn decide_import_with_base_config(
        self,
        chart: Chart,
        specs: Vec<AccountSpec>,
        ids: &Vec<NewNodeIds>,
        base_config: AccountingBaseConfig,
        linked: bool,
        Ghost(whole): Ghost<OperationView<E>>,
        Ghost(new_id): Ghost<LedgerAccountId>,
    ) -> (res: Self)
        requires
            self.chart is None,
            whole == self@.with_chart(chart@),
            whole.can_use(chart@),
            ids.len() >= specs.len(),
            self.request is ImportWithBaseConfig,
            self.request->ImportWithBaseConfig_base_config@ == base_config@,
            self.request->reports is Some == linked,
        ensures
            res@ == whole.decided(views(specs@), ids@, new_id),
    {
        proof {
            use_type_invariant(&self);
        }
        let mut chart = chart;
        let journal_id: CalaJournalId = self.journal_id;
        let ghost before = chart@;
        let ghost all_specs = views(specs@);
        let outcome: Result<Idempotent<BulkImportResult>, ChartOfAccountsError> =
            chart.configure_with_initial_accounts_as(ids, specs, base_config, journal_id);
        match outcome {
            Err(e) => {
                proof {
                    let used = ids@.take(all_specs.len() as int);
                    import_needs_only(before, all_specs, ids@, journal_id);
                    import_changes_nodes_only(before, all_specs, used, journal_id);
                    assert(chart@.events == before.events);
                }
                Operation { chart: Some(chart), ..self }.fail(Failure::Chart(e))
            },
            Ok(Idempotent::Executed(result)) => {
                let resolved: Option<ResolvedAccountingBaseConfig> = if linked {
                    proof {
                        let imported = before.after_import(all_specs, ids@, journal_id);
                        base_config_resolves(imported, base_config@);
                        assert(chart@.nodes == imported.nodes);
                    }
                    chart.resolve_accounting_base_config()
                } else {
                    None
                };
                let mut todo: Vec<Task> = Vec::new();
                todo.push(Task::UpdateChart);
                assert(todo@ =~= seq![Task::UpdateChart]);
                let plan: Plan = Plan::Accounts { result };
                Operation { chart: Some(chart), plan, resolved, changed: true, ..self }.write(todo)
            },
            Ok(Idempotent::AlreadyApplied) => {
                if !linked {
                    return Operation { chart: Some(chart), ..self }.finish();
                }
                let resolved: Option<ResolvedAccountingBaseConfig> =
                    chart.resolve_accounting_base_config();
                let op: Operation<E> = Operation { chart: Some(chart), ..self };
                if resolved.is_none() {
                    return op.fail(Failure::Chart(ChartOfAccountsError::BaseConfigNotInitialized));
                }
                let mut todo: Vec<Task> = Vec::new();
                push_linking(&mut todo);
                assert(todo@ =~= linking());
                Operation { resolved, ..op }.write(todo)
            },
        }
    }

    /// What the operation decides when its questions are answered.
    fn decide(self, specs: Vec<AccountSpec>, ids: &Vec<NewNodeIds>, new_id: LedgerAccountId) ->
        (res: Self)
        requires
            self.status is Asking,
            self.todo.len() == 0,
            ids.len() >= specs.len(),
            ids.len() > 0,
        ensures
            res@ == self@.decided(views(specs@), ids@, new_id),
    {
        proof {
            use_type_invariant(&self);
        }
        match &self.request {
            Request::CreateChart { .. } => {
                let mut todo: Vec<Task> = Vec::new();
                todo.push(Task::CreateChart);
                todo.push(Task::CreateRootAccountSet);
                todo.push(Task::Commit);
                assert(todo@ =~= seq![Task::CreateChart, Task::CreateRootAccountSet, Task::Commit]);
                return self.write(todo);
            },
            Request::MaybeFindChart => {
                return self.finish();
            },
            _ => {},
        }
        if self.chart.is_none() {
            return self.finish();
        }
        let ghost whole = self@;
        let mut chart: Chart = match self.chart {
            Some(chart) => chart,
            None => vstd::pervasive::unreached(),
        };
        let op: Operation<E> = Operation { chart: None, ..self };
        let journal_id: CalaJournalId = op.journal_id;
        assert(whole == op@.with_chart(chart@));
        match &op.request {
            Request::ImportWithBaseConfig { base_config, reports, .. } => {
                let config: AccountingBaseConfig = base_config.clone();
                let linked: bool = reports.is_some();
                op.decide_import_with_base_config(
                    chart,
                    specs,
                    ids,
                    config,
                    linked,
                    Ghost(whole),
                    Ghost(new_id),
                )
            },
            Request::Import { .. } => {
                let result: BulkImportResult = chart.import_accounts_as(ids, specs, journal_id);
                if result.new_account_sets.len() == 0 {
                    return Operation { chart: Some(chart), ..op }.finish();
                }
                let plan: Plan = Plan::Accounts { result };
                Operation { chart: Some(chart), plan, changed: true, ..op }.write(
                    begin_and_update(),
                )
            },
            Request::AddRootNode { spec, .. } => {
                let outcome: Idempotent<NewChartAccountDetails> =
                    chart.create_node_without_verifying_parent_as(ids[0], spec, journal_id);
                op.store_account(outcome, chart)
            },
            Request::AddChildNode { parent_code, code, name, .. } => {
                match chart.create_child_node_as(
                    ids[0],
                    parent_code.clone(),
                    code.clone(),
                    name.clone(),
                    journal_id,
                ) {
                    Err(e) => Operation { chart: Some(chart), ..op }.fail(Failure::Chart(e)),
                    Ok(outcome) => op.store_account(outcome, chart),
                }
            },
            Request::CloseAsOf { closed_as_of } => {
                match chart.close_as_of(*closed_as_of) {
                    Idempotent::AlreadyApplied => Operation { chart: Some(chart), ..op }.finish(),
                    Idempotent::Executed(_) => {
                        let mut todo: Vec<Task> = Vec::new();
                        todo.push(Task::UpdateChart);
                        assert(todo@ =~= seq![Task::UpdateChart]);
                        Operation { chart: Some(chart), changed: true, ..op }.write(todo)
                    },
                }
            },
            Request::PostClosing { tx_details } => {
                let codes: ClosingAccountCodes = match &chart.base_config {
                    Some(config) => ClosingAccountCodes::from_base_config(config),
                    None => {
                        return Operation { chart: Some(chart), ..op }.fail(
                            Failure::Chart(ChartOfAccountsError::BaseConfigNotInitialized),
                        );
                    },
                };
                match chart.post_closing_tx_as_of(codes, tx_details.clone()) {
                    Err(e) => Operation { chart: Some(chart), ..op }.fail(Failure::Chart(e)),
                    Ok(Idempotent::AlreadyApplied) => Operation {
                        chart: Some(chart),
                        ..op
                    }.finish(),
                    Ok(Idempotent::Executed(params)) => {
                        let mut todo: Vec<Task> = Vec::new();
                        todo.push(Task::UpdateChart);
                        assert(todo@ =~= seq![Task::UpdateChart]);
                        let plan: Plan = Plan::ClosingTransaction { params };
                        Operation { chart: Some(chart), plan, changed: true, ..op }.write(todo)
                    },
                }
            },
            Request::ManualAccount { account_id_or_code } => {
                match chart.manual_transaction_account_as(new_id, account_id_or_code.clone()) {
                    Err(e) => Operation { chart: Some(chart), ..op }.fail(Failure::Chart(e)),
                    Ok(ManualAccountFromChart::IdInChart(id)) => Operation {
                        chart: Some(chart),
                        account_id: Some(id),
                        ..op
                    }.finish(),
                    Ok(ManualAccountFromChart::NonChartId(id)) => Operation {
                        chart: Some(chart),
                        account_id: Some(id),
                        ..op
                    }.finish(),
                    Ok(ManualAccountFromChart::NewAccount((account_set_id, new_account))) => {
                        let plan: Plan = Plan::ManualAccount { account_set_id, new_account };
                        Operation { chart: Some(chart), plan, changed: true, ..op }.write(
                            begin_and_update(),
                        )
                    },
                }
            },
            Request::AccountSetsByCategory { category } => {
                let category: AccountCategory = *category;
                let error: Option<ChartOfAccountsError> = match &chart.base_config {
                    None => Some(ChartOfAccountsError::BaseConfigNotInitialized),
                    Some(config) => if config.code_for_category(category).is_some() {
                        None
                    } else {
                        Some(
                            ChartOfAccountsError::InvalidAccountCategory {
                                code: AccountCode::without_sections(),
                                category,
                            },
                        )
                    },
                };
                let op: Operation<E> = Operation { chart: Some(chart), ..op };
                match error {
                    Some(e) => op.fail(Failure::Chart(e)),
                    None => op.finish(),
                }
            },
            Request::Query { query } => {
                let plan: Plan = match query {
                    Query::LedgerAccountByCode { code } => match AccountCode::try_parse(
                        code.as_str(),
                    ) {
                        Ok(code) => {
                            proof {
                                code_with_text_is(code@);
                            }
                            Plan::LedgerAccountCode { code }
                        },
                        Err(e) => {
                            return Operation { chart: Some(chart), ..op }.fail(
                                Failure::AccountCode(e),
                            );
                        },
                    },
                    _ => op.plan,
                };
                let mut todo: Vec<Task> = Vec::new();
                todo.push(Task::Query);
                assert(todo@ =~= seq![Task::Query]);
                Operation { chart: Some(chart), plan, ..op }.write(todo)
            },
            _ => Operation { chart: Some(chart), ..op }.finish(),
        }
    }

    /// The first task is done.
    fn advance(
        self,
        specs: Vec<AccountSpec>,
        ids: &Vec<NewNodeIds>,
        new_id: LedgerAccountId,
    ) -> (res: Self)
        requires
            self.todo.len() > 0,
            ids.len() >= specs.len(),
            ids.len() > 0,
        ensures
            res@ == self@.advanced(views(specs@), ids@, new_id),
    {
        proof {
            use_type_invariant(&self);
        }
        let ghost before = self@.todo;
        let mut todo: Vec<Task> = self.todo;
        let _ = todo.remove(0);
        assert(todo@ =~= before.drop_first());
        assert(forall|i: int| 0 <= i < todo.len() ==> #[trigger] todo@[i] == before[i + 1]);
        let op: Operation<E> = Operation { todo, ..self };
        if op.todo.len() > 0 {
            return op;
        }
        let asking: bool = match &op.status {
            Status::Asking => true,
            _ => false,
        };
        if asking {
            op.decide(specs, ids, new_id)
        } else {
            op.finish()
        }
    }

    /// The chart is stored: what the ledger is to do now.
    fn store(self) -> (res: Self)
        requires
            self.chart is Some,
            self.status is Writing,
        ensures
            res@ == self@.stored(),
    {
        proof {
            use_type_invariant(&self);
        }
        let ghost expected = self@.stored();
        let mut chart: Chart = match self.chart {
            Some(chart) => chart,
            None => vstd::pervasive::unreached(),
        };
        chart.mark_stored();
        let mut todo: Vec<Task> = Vec::new();
        let mut listed: Option<Vec<CalaAccountSetId>> = None;
        match (&self.request, &self.plan) {
            (Request::CloseAsOf { closed_as_of }, _) => {
                todo.push(
                    Task::CloseAccountSet {
                        closed_as_of: *closed_as_of,
                        account_set_id: chart.account_set_id,
                    },
                );
            },
            (Request::ImportWithBaseConfig { reports, .. }, Plan::Accounts { result }) => {
                listed = Some(
                    chart.trial_balance_account_ids_from_new_accounts(&result.new_account_set_ids),
                );
                todo.push(Task::CreateAccountSets);
                push_connecting(&mut todo, &result.new_connections);
                if reports.is_some() {
                    push_linking(&mut todo);
                }
            },
            (Request::Import { trial_balance_ref, .. }, Plan::Accounts { result }) => {
                listed = Some(
                    chart.trial_balance_account_ids_from_new_accounts(&result.new_account_set_ids),
                );
                todo.push(Task::UseDbTime);
                todo.push(Task::CreateAccountSets);
                push_connecting(&mut todo, &result.new_connections);
                todo.push(Task::Commit);
                push_listing(&mut todo, trial_balance_ref, true);
            },
            (
                Request::AddRootNode { trial_balance_ref, .. },
                Plan::Account { new_account_set, parent_account_set_id },
            ) => {
                let found: Vec<CalaAccountSetId> = listed_account(&chart, new_account_set.id);
                push_account(&mut todo, *parent_account_set_id, new_account_set.id);
                push_listing(&mut todo, trial_balance_ref, found.len() > 0);
                listed = Some(found);
            },
            (
                Request::AddChildNode { trial_balance_ref, .. },
                Plan::Account { new_account_set, parent_account_set_id },
            ) => {
                let found: Vec<CalaAccountSetId> = listed_account(&chart, new_account_set.id);
                push_account(&mut todo, *parent_account_set_id, new_account_set.id);
                push_listing(&mut todo, trial_balance_ref, found.len() > 0);
                listed = Some(found);
            },
            (_, Plan::ManualAccount { .. }) => {
                todo.push(Task::UseDbTime);
                todo.push(Task::CreateAccount);
            },
            (_, Plan::ClosingTransaction { .. }) => {
                todo.push(Task::PostClosingTransaction);
                todo.push(Task::Commit);
            },
            _ => {},
        }
        assert(todo@ =~= expected.todo);
        let status: Status<E> = if todo.len() > 0 {
            Status::Writing
        } else {
            Status::Finished
        };
        let kept: Vec<CalaAccountSetId> = match listed {
            Some(found) => found,
            None => self.listed,
        };
        Operation { chart: Some(chart), todo, listed: kept, status, ..self }
    }
}

/// A code is the only one with its text.
proof fn code_with_text_is(code: Seq<Seq<char>>)
    requires
        is_code(code),
    ensures
        code_with_text(dotted(code)) == Some(code),
{
    let found = code_with_text(dotted(code))->0;
    text_determines_code(found, code);
}

/// Beginning a transaction and storing the chart in it.
fn begin_and_update() -> (res: Vec<Task>)
    ensures
        res@ == seq![Task::BeginOp, Task::UpdateChart],
{
    let mut res: Vec<Task> = Vec::new();
    res.push(Task::BeginOp);
    res.push(Task::UpdateChart);
    assert(res@ =~= seq![Task::BeginOp, Task::UpdateChart]);
    res
}

impl<E> Operation<E> {
    /// The chart that is to be created, where the request is to create one.
    pub fn new_chart(&self) -> (res: Option<NewChart>)
        ensures
            match self@.request {
                Request::CreateChart { id, name, reference } => {
                    &&& res matches Some(chart)
                    &&& chart.id == id
                    &&& chart.account_set_id == CalaAccountSetId(id.0)
                    &&& chart.name == name
                    &&& chart.reference == reference
                },
                _ => res is None,
            },
    {
        match &self.request {
            Request::CreateChart { id, name, reference } => {
                let built: Result<NewChart, UninitializedFieldError> = NewChart::builder().id(
                    *id,
                ).account_set_id(id.to_account_set_id()).name(name.clone()).reference(
                    reference.clone(),
                ).build();
                match built {
                    Ok(chart) => Some(chart),
                    Err(_) => vstd::pervasive::unreached(),
                }
            },
            _ => None,
        }
    }

    /// Whether the operation can work with the chart that comes back, if one
    /// does.
    pub fn accepts(&self, reply: &Reply<E>) -> (res: bool)
        ensures
            res == self@.can_take(reply@),
    {
        let chart: &Chart = match reply {
            Reply::Found { chart } => chart,
            _ => {
                return true;
            },
        };
        match &self.request {
            Request::AccountSetsByCategory { .. } => chart.has_unique_codes(),
            Request::ImportWithBaseConfig { base_config, reports, .. } => {
                !(reports.is_some() && was_base_config_set(&chart.events, base_config))
                    || chart.resolves_base_config()
            },
            _ => true,
        }
    }

    /// Takes a reply to the first task. A reply that does not fit the task
    /// changes nothing. Identifiers for whatever is new are made up here.
    pub fn step(self, reply: Reply<E>) -> (res: Self)
        requires
            self@.can_take(reply@),
        ensures
            res@.is_sound(),
            exists|ids: Seq<NewNodeIds>, new_id: LedgerAccountId|
                {
                    &&& are_v7(ids)
                    &&& ids.len() >= reply@.nodes_needed()
                    &&& is_uuid_v7(new_id.0)
                    &&& res@ == #[trigger] self@.after(reply@, ids, new_id)
                },
    {
        let needed: usize = match &reply {
            Reply::Parsed { account_specs } if account_specs.len() > 0 => account_specs.len(),
            _ => 1,
        };
        let ids: Vec<NewNodeIds> = new_ids_for(needed);
        let new_id: LedgerAccountId = LedgerAccountId::new();
        self.step_as(&ids, new_id, reply)
    }

    /// As `step`, with the identifiers for whatever is new.
    pub fn step_as(self, ids: &Vec<NewNodeIds>, new_id: LedgerAccountId, reply: Reply<E>) -> (res:
        Self)
        requires
            self@.can_take(reply@),
            ids.len() >= reply@.nodes_needed(),
        ensures
            res@.is_sound(),
            res@ == self@.after(reply@, ids@, new_id),
    {
        proof {
            use_type_invariant(&self);
            after_stays_sound(self@, reply@, ids@, new_id);
        }
        let task: Task = match self.pending() {
            Some(task) => task,
            None => {
                return self;
            },
        };
        let no_specs: Vec<AccountSpec> = Vec::new();
        assert(views(no_specs@) =~= Seq::empty());
        match (task, reply) {
            (_, Reply::Failed { error }) => self.fail(Failure::Outside(error)),
            (Task::FindByReference, Reply::Found { chart }) => Operation {
                chart: Some(chart),
                ..self
            }.advance(no_specs, ids, new_id),
            (Task::FindById { .. }, Reply::Found { chart }) => Operation {
                chart: Some(chart),
                ..self
            }.advance(no_specs, ids, new_id),
            (Task::FindByReference, Reply::NotFound) => {
                let optional: bool = match &self.request {
                    Request::MaybeFindChart => true,
                    _ => false,
                };
                if optional {
                    self.advance(no_specs, ids, new_id)
                } else {
                    let reference: String = self.chart_ref.clone();
                    self.fail(
                        Failure::Chart(
                            ChartOfAccountsError::ChartOfAccountsNotFoundByReference(reference),
                        ),
                    )
                }
            },
            (Task::ParseAccounts, Reply::Parsed { account_specs }) => {
                assert(views(account_specs@).len() == account_specs.len());
                self.advance(account_specs, ids, new_id)
            },
            (Task::CreateChart, Reply::Found { chart }) => Operation {
                chart: Some(chart),
                ..self
            }.advance(no_specs, ids, new_id),
            (Task::UpdateChart, Reply::Done) => if self.chart.is_some() {
                self.store()
            } else {
                self
            },
            (Task::CreateAccount, Reply::AccountCreated { id }) => {
                let account_set_id: CalaAccountSetId = match &self.plan {
                    Plan::ManualAccount { account_set_id, .. } => *account_set_id,
                    _ => {
                        return self;
                    },
                };
                let mut todo: Vec<Task> = Vec::new();
                todo.push(Task::AddAccount { account_set_id, account_id: id });
                todo.push(Task::Commit);
                assert(todo@ =~= seq![
                    Task::AddAccount { account_set_id, account_id: id },
                    Task::Commit,
                ]);
                Operation { account_id: Some(id), ..self }.write(todo)
            },
            (Task::ExecuteManualTransaction, Reply::Executed { id }) => {
                let mut todo: Vec<Task> = Vec::new();
                todo.push(Task::FindLedgerTransaction { id });
                assert(todo@ =~= seq![Task::FindLedgerTransaction { id }]);
                self.write(todo)
            },
            (task, Reply::Done) => if task.needs_no_answer() {
                self.advance(no_specs, ids, new_id)
            } else {
                self
            },
            _ => self,
        }
    }

    /// How the operation ended, or nothing as long as it goes on.
    pub fn into_result(self) -> (res: Option<Result<Answer, Failure<E>>>)
        ensures
            match self@.status {
                StatusView::Finished => {
                    &&& res matches Some(Ok(answer))
                    &&& is_answer(self@, answer)
                },
                StatusView::Failed(failure) => {
                    &&& res matches Some(Err(e))
                    &&& e@ == failure
                },
                _ => res is None,
            },
    {
        proof {
            use_type_invariant(&self);
        }
        match self.status {
            Status::Asking => {
                return None;
            },
            Status::Writing => {
                return None;
            },
            Status::Failed(failure) => {
                return Some(Err(failure));
            },
            Status::Finished => {},
        }
        if let Request::MaybeFindChart = &self.request {
            return Some(Ok(Answer::MaybeChart(self.chart)));
        }
        if let Request::ManualAccount { .. } = &self.request {
            return Some(
                Ok(
                    match self.account_id {
                        Some(id) => Answer::Account(id),
                        None => Answer::Nothing,
                    },
                ),
            );
        }
        let chart: Chart = match self.chart {
            Some(chart) => chart,
            None => {
                return Some(Ok(Answer::Nothing));
            },
        };
        let answer: Answer = match &self.request {
            Request::CreateChart { .. } => Answer::Chart(chart),
            Request::FindChart => Answer::Chart(chart),
            Request::FindBaseConfig => Answer::BaseConfig(chart.accounting_base_config()),
            Request::ImportWithBaseConfig { reports, .. } => if reports.is_some() {
                Answer::Chart(chart)
            } else {
                Answer::ChartWithAccounts(chart, self.listed)
            },
            Request::Import { trial_balance_ref, .. } => if trial_balance_ref.is_some() {
                Answer::Chart(chart)
            } else if self.changed {
                Answer::ChartWithNewAccounts(chart, Some(self.listed))
            } else {
                Answer::ChartWithNewAccounts(chart, None)
            },
            Request::AddRootNode { trial_balance_ref, .. } => if trial_balance_ref.is_some() {
                Answer::Chart(chart)
            } else {
                Answer::ChartWithAccount(chart, first_id(&self.listed))
            },
            Request::AddChildNode { trial_balance_ref, .. } => if trial_balance_ref.is_some() {
                Answer::Chart(chart)
            } else {
                Answer::ChartWithAccount(chart, first_id(&self.listed))
            },
            Request::AccountSetsByCategory { category } => match &chart.base_config {
                Some(config) => match config.code_for_category(*category) {
                    Some(code) => Answer::AccountSets(chart.account_sets_under_code(code)),
                    None => Answer::Nothing,
                },
                None => Answer::Nothing,
            },
            _ => Answer::Nothing,
        };
        Some(Ok(answer))
    }
}

/// The first of some account sets.
fn first_id(ids: &Vec<CalaAccountSetId>) -> (res: Option<CalaAccountSetId>)
    ensures
        res == first_of(ids@),
{
    if ids.len() > 0 {
        Some(ids[0])
    } else {
        None
    }
}

impl Task {
    /// Whether the reply to the task tells no more than that it is done.
    fn needs_no_answer(&self) -> (res: bool)
        ensures
            res == self.is_plain(),
    {
        match self {
            Task::FindByReference => false,
            Task::FindById { .. } => false,
            Task::ParseAccounts => false,
            Task::CreateChart => false,
            Task::UpdateChart => false,
            Task::CreateAccount => false,
            Task::ExecuteManualTransaction => false,
            _ => true,
        }
    }
}

/// A sound operation stays sound when it decides.
proof fn decided_is_sound<E>(
    op: OperationView<E>,
    specs: Seq<AccountSpecView>,
    ids: Seq<NewNodeIds>,
    new_id: LedgerAccountId,
)
    requires
        op.is_sound(),
        op.status is Asking,
        op.todo.len() == 0,
    ensures
        op.decided(specs, ids, new_id).is_sound(),
{
}

/// A sound operation stays sound when its chart is stored.
proof fn stored_is_sound<E>(op: OperationView<E>)
    requires
        op.is_sound(),
        op.status is Writing,
    ensures
        op.stored().is_sound(),
{
}

/// A sound operation stays sound when a task is done.
proof fn advanced_is_sound<E>(
    op: OperationView<E>,
    specs: Seq<AccountSpecView>,
    ids: Seq<NewNodeIds>,
    new_id: LedgerAccountId,
)
    requires
        op.is_sound(),
        op.todo.len() > 0,
    ensures
        op.advanced(specs, ids, new_id).is_sound(),
{
    let rest = OperationView { todo: op.todo.drop_first(), ..op };
    assert(forall|i: int| 0 <= i < rest.todo.len() ==> #[trigger] rest.todo[i] == op.todo[i + 1]);
    if op.status is Asking && rest.todo.len() == 0 {
        decided_is_sound(rest, specs, ids, new_id);
    }
}

/// A sound operation stays sound.
proof fn after_stays_sound<E>(
    op: OperationView<E>,
    reply: ReplyView<E>,
    ids: Seq<NewNodeIds>,
    new_id: LedgerAccountId,
)
    requires
        op.is_sound(),
        op.can_take(reply),
    ensures
        op.after(reply, ids, new_id).is_sound(),
{
    if op.todo.len() > 0 {
        assert(op.status is Asking ==> op.todo[0].is_question());
        match reply {
            ReplyView::Found { chart } => {
                advanced_is_sound(op.with_chart(chart), Seq::empty(), ids, new_id);
            },
            ReplyView::Parsed { account_specs } => {
                advanced_is_sound(op, account_specs, ids, new_id);
            },
            ReplyView::Done => {
                if op.todo[0] == Task::UpdateChart {
                    stored_is_sound(op);
                } else {
                    advanced_is_sound(op, Seq::empty(), ids, new_id);
                }
            },
            ReplyView::NotFound => {
                advanced_is_sound(op, Seq::empty(), ids, new_id);
            },
            _ => {},
        }
    }
}

/// Adds what puts account sets under others.
fn push_connecting(todo: &mut Vec<Task>, connections: &Vec<(CalaAccountSetId, CalaAccountSetId)>)
    ensures
        final(todo)@ == old(todo)@ + connecting(connections@),
{
    let ghost before = todo@;
    let mut i: usize = 0;
    assert(todo@ =~= before + connecting(connections@.take(0)));
    while i < connections.len()
        invariant
            i <= connections.len(),
            todo@ == before + connecting(connections@.take(i as int)),
        decreases connections.len() - i,
    {
        let connection: &(CalaAccountSetId, CalaAccountSetId) = &connections[i];
        todo.push(Task::AddAccountSet { parent: connection.0, member: connection.1 });
        assert(connecting(connections@.take(i + 1)) =~= connecting(
            connections@.take(i as int),
        ).push(Task::AddAccountSet { parent: connection.0, member: connection.1 }));
        assert(todo@ =~= before + connecting(connections@.take(i + 1)));
        i = i + 1;
    }
    assert(connections@.take(i as int) =~= connections@);
}

/// Adds what links an import to its reports.
fn push_linking(todo: &mut Vec<Task>)
    ensures
        final(todo)@ == old(todo)@ + linking(),
{
    let ghost before = todo@;
    todo.push(Task::AddToTrialBalance);
    todo.push(Task::LinkBalanceSheet);
    todo.push(Task::LinkProfitAndLoss);
    todo.push(Task::Commit);
    assert(todo@ =~= before + linking());
}

/// Adds what adds new accounts to a trial balance.
fn push_listing(todo: &mut Vec<Task>, trial_balance_ref: &Option<String>, wanted: bool)
    ensures
        final(todo)@ == old(todo)@ + listing(*trial_balance_ref, wanted),
{
    let ghost before = todo@;
    if trial_balance_ref.is_some() && wanted {
        todo.push(Task::AddToTrialBalance);
    }
    assert(todo@ =~= before + listing(*trial_balance_ref, wanted));
}

/// Adds what creates one account set and puts it under another.
fn push_account(todo: &mut Vec<Task>, parent: CalaAccountSetId, member: CalaAccountSetId)
    ensures
        final(todo)@ == old(todo)@ + seq![
            Task::UseDbTime,
            Task::CreateAccountSet,
            Task::AddAccountSet { parent, member },
            Task::Commit,
        ],
{
    let ghost before = todo@;
    todo.push(Task::UseDbTime);
    todo.push(Task::CreateAccountSet);
    todo.push(Task::AddAccountSet { parent, member });
    todo.push(Task::Commit);
    assert(todo@ =~= before + seq![
        Task::UseDbTime,
        Task::CreateAccountSet,
        Task::AddAccountSet { parent, member },
        Task::Commit,
    ]);
}

/// The account set, if it belongs in the trial balance.
fn listed_account(chart: &Chart, id: CalaAccountSetId) -> (res: Vec<CalaAccountSetId>)
    ensures
        res@ == trial_balance_account(chart@, id),
{
    let mut res: Vec<CalaAccountSetId> = Vec::new();
    if let Some(found) = chart.trial_balance_account_id_from_new_account(id) {
        res.push(found);
    }
    assert(res@ =~= trial_balance_account(chart@, id));
    res
}

} // verus!
