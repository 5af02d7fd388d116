//! The operations that accounting offers around charts of accounts.
use vstd::prelude::*;

use crate::chart_of_accounts::operation::{
    Operation, OperationView, Query, ReportRefs, Request, Task,
};
use crate::chart_of_accounts::service::{
    ask_by_reference, ask_for_chart, ask_for_import, chart_questions, import_questions,
    ChartOfAccounts,
};
use crate::primitives::account::{AccountName, AccountSpec};
use crate::primitives::account_code::AccountCode;
use crate::primitives::base_config::AccountingBaseConfig;
use crate::primitives::closing::Date;
use crate::primitives::ids::{CalaJournalId, LedgerAccountId};
use crate::primitives::permission::CoreAccountingAction;

verus! {

/// Accounting with a journal.
#[derive(Debug, Clone, Copy, PartialEq, Eq, Structural)]
pub struct CoreAccounting {
    pub chart_of_accounts: ChartOfAccounts,
}

impl CoreAccounting {
    /// Accounting with a journal.
    pub fn new(journal_id: CalaJournalId) -> (res: Self)
        ensures
            res.chart_of_accounts.journal_id == journal_id,
    {
        CoreAccounting { chart_of_accounts: ChartOfAccounts::new(journal_id) }
    }

    /// The charts of accounts.
    pub fn chart_of_accounts(&self) -> (res: &ChartOfAccounts)
        ensures
            *res == self.chart_of_accounts,
    {
        &self.chart_of_accounts
    }

    /// Executes a manual transaction, for today where no day is given. The
    /// ledger's transaction is looked for afterwards.
    pub fn execute_manual_transaction<E>(
        &self,
        chart_ref: &str,
        reference: Option<String>,
        description: String,
        effective: Option<Date>,
        today: Date,
    ) -> (res: Operation<E>)
        ensures
            res@.is_sound(),
            res@ == OperationView::<E>::started(
                self.chart_of_accounts.journal_id,
                (Request::ManualTransaction {
                    reference,
                    description,
                    effective: effective.unwrap_or(today),
                }),
                chart_ref@,
                Seq::empty(),
            ).writing(seq![Task::ExecuteManualTransaction]),
    {
        let day: Date = match effective {
            Some(day) => day,
            None => today,
        };
        let mut todo: Vec<Task> = Vec::new();
        todo.push(Task::ExecuteManualTransaction);
        assert(todo@ =~= seq![Task::ExecuteManualTransaction]);
        let no_questions: Vec<Task> = Vec::new();
        assert(no_questions@ =~= Seq::empty());
        let op: Operation<E> = Operation::start(
            self.chart_of_accounts.journal_id,
            Request::ManualTransaction { reference, description, effective: day },
            chart_ref.to_owned(),
            no_questions,
        );
        op.write(todo)
    }

    /// Finds an account of the ledger by its identifier.
    pub fn find_ledger_account_by_id<E>(
        &self,
        chart_ref: &str,
        id: LedgerAccountId,
    ) -> (res: Operation<E>)
        ensures
            res@.is_sound(),
            res@ == OperationView::<E>::started(
                self.chart_of_accounts.journal_id,
                (Request::Query { query: Query::LedgerAccountById { id } }),
                chart_ref@,
                seq![Task::FindByReference],
            ),
    {
        Operation::start(
            self.chart_of_accounts.journal_id,
            Request::Query { query: Query::LedgerAccountById { id } },
            chart_ref.to_owned(),
            ask_by_reference(),
        )
    }

    /// Finds an account of the ledger by the text of its code.
    pub fn find_ledger_account_by_code<E>(
        &self,
        chart_ref: &str,
        code: String,
    ) -> (res: Operation<E>)
        ensures
            res@.is_sound(),
            res@ == OperationView::<E>::started(
                self.chart_of_accounts.journal_id,
                (Request::Query { query: Query::LedgerAccountByCode { code } }),
                chart_ref@,
                seq![Task::FindByReference],
            ),
    {
        Operation::start(
            self.chart_of_accounts.journal_id,
            Request::Query { query: Query::LedgerAccountByCode { code } },
            chart_ref.to_owned(),
            ask_by_reference(),
        )
    }

    /// Finds accounts of the ledger by their identifiers.
    pub fn find_all_ledger_accounts<E>(
        &self,
        chart_ref: &str,
        ids: Vec<LedgerAccountId>,
    ) -> (res: Operation<E>)
        ensures
            res@.is_sound(),
            res@ == OperationView::<E>::started(
                self.chart_of_accounts.journal_id,
                (Request::Query { query: Query::LedgerAccounts { ids } }),
                chart_ref@,
                seq![Task::FindByReference],
            ),
    {
        Operation::start(
            self.chart_of_accounts.journal_id,
            Request::Query { query: Query::LedgerAccounts { ids } },
            chart_ref.to_owned(),
            ask_by_reference(),
        )
    }

    /// Lists all accounts of a chart that have a balance.
    pub fn list_all_account_flattened<E>(
        &self,
        chart_ref: &str,
        from: Date,
        until: Option<Date>,
    ) -> (res: Operation<E>)
        ensures
            res@.is_sound(),
            res@ == OperationView::<E>::started(
                self.chart_of_accounts.journal_id,
                (Request::Query {
                    query: Query::AllLedgerAccounts { from, until, filter_non_zero: true },
                }),
                chart_ref@,
                seq![Task::FindByReference],
            ),
    {
        Operation::start(
            self.chart_of_accounts.journal_id,
            Request::Query {
                query: Query::AllLedgerAccounts { from, until, filter_non_zero: true },
            },
            chart_ref.to_owned(),
            ask_by_reference(),
        )
    }

    /// Imports the first accounts of a chart, sets its base configuration and
    /// links both to the reports, in one transaction.
    pub fn import_csv_with_base_config<E>(
        &self,
        chart_ref: &str,
        import_data: String,
        base_config: AccountingBaseConfig,
        reports: ReportRefs,
    ) -> (res: Operation<E>)
        ensures
            res@.is_sound(),
            res@ == OperationView::<E>::started(
                self.chart_of_accounts.journal_id,
                (Request::ImportWithBaseConfig {
                    import_data,
                    base_config,
                    reports: Some(reports),
                }),
                chart_ref@,
                seq![Task::BeginOp] + import_questions(),
            ),
    {
        let mut todo: Vec<Task> = Vec::new();
        todo.push(Task::BeginOp);
        let mut questions: Vec<Task> = ask_for_import();
        todo.append(&mut questions);
        assert(todo@ =~= seq![Task::BeginOp] + import_questions());
        Operation::start(
            self.chart_of_accounts.journal_id,
            Request::ImportWithBaseConfig { import_data, base_config, reports: Some(reports) },
            chart_ref.to_owned(),
            todo,
        )
    }

    /// Imports accounts into a chart, and into a trial balance those that belong
    /// there.
    pub fn import_csv<E>(
        &self,
        chart_ref: &str,
        import_data: String,
        trial_balance_ref: String,
    ) -> (res: Operation<E>)
        ensures
            res@.is_sound(),
            res@ == OperationView::<E>::started(
                self.chart_of_accounts.journal_id,
                (Request::Import { import_data, trial_balance_ref: Some(trial_balance_ref) }),
                chart_ref@,
                import_questions(),
            ),
    {
        Operation::start(
            self.chart_of_accounts.journal_id,
            Request::Import { import_data, trial_balance_ref: Some(trial_balance_ref) },
            chart_ref.to_owned(),
            ask_for_import(),
        )
    }

    /// Opens the first fiscal year of a chart.
    pub fn init_fiscal_year_for_chart<E>(
        &self,
        chart_ref: &str,
        opened_as_of: Date,
    ) -> (res: Operation<E>)
        ensures
            res@.is_sound(),
            res@ == OperationView::<E>::started(
                self.chart_of_accounts.journal_id,
                (Request::Query { query: Query::InitFiscalYear { opened_as_of } }),
                chart_ref@,
                seq![Task::FindByReference],
            ),
    {
        Operation::start(
            self.chart_of_accounts.journal_id,
            Request::Query { query: Query::InitFiscalYear { opened_as_of } },
            chart_ref.to_owned(),
            ask_by_reference(),
        )
    }

    /// Lists the fiscal years of a chart.
    pub fn list_fiscal_years_for_chart<E>(&self, chart_ref: &str) -> (res: Operation<E>)
        ensures
            res@.is_sound(),
            res@ == OperationView::<E>::started(
                self.chart_of_accounts.journal_id,
                (Request::Query { query: Query::FiscalYears }),
                chart_ref@,
                seq![Task::FindByReference],
            ),
    {
        Operation::start(
            self.chart_of_accounts.journal_id,
            Request::Query { query: Query::FiscalYears },
            chart_ref.to_owned(),
            ask_by_reference(),
        )
    }

    /// Finds a fiscal year of a chart.
    pub fn find_fiscal_year_for_chart_by_year<E>(
        &self,
        chart_ref: &str,
        year: String,
    ) -> (res: Operation<E>)
        ensures
            res@.is_sound(),
            res@ == OperationView::<E>::started(
                self.chart_of_accounts.journal_id,
                (Request::Query { query: Query::FiscalYear { year } }),
                chart_ref@,
                seq![Task::FindByReference],
            ),
    {
        Operation::start(
            self.chart_of_accounts.journal_id,
            Request::Query { query: Query::FiscalYear { year } },
            chart_ref.to_owned(),
            ask_by_reference(),
        )
    }

    /// Adds an account at the top of a chart, and to a trial balance if it
    /// belongs there.
    pub fn add_root_node<E>(
        &self,
        chart_ref: &str,
        spec: AccountSpec,
        trial_balance_ref: String,
    ) -> (res: Operation<E>)
        ensures
            res@.is_sound(),
            res@ == OperationView::<E>::started(
                self.chart_of_accounts.journal_id,
                (Request::AddRootNode { spec, trial_balance_ref: Some(trial_balance_ref) }),
                chart_ref@,
                chart_questions(CoreAccountingAction::ChartUpdate),
            ),
    {
        Operation::start(
            self.chart_of_accounts.journal_id,
            Request::AddRootNode { spec, trial_balance_ref: Some(trial_balance_ref) },
            chart_ref.to_owned(),
            ask_for_chart(CoreAccountingAction::ChartUpdate),
        )
    }

    /// Adds an account below another one, and to a trial balance if it belongs
    /// there.
    pub fn add_child_node<E>(
        &self,
        chart_ref: &str,
        parent_code: AccountCode,
        code: AccountCode,
        name: AccountName,
        trial_balance_ref: String,
    ) -> (res: Operation<E>)
        ensures
            res@.is_sound(),
            res@ == OperationView::<E>::started(
                self.chart_of_accounts.journal_id,
                (Request::AddChildNode {
                    parent_code,
                    code,
                    name,
                    trial_balance_ref: Some(trial_balance_ref),
                }),
                chart_ref@,
                chart_questions(CoreAccountingAction::ChartUpdate),
            ),
    {
        Operation::start(
            self.chart_of_accounts.journal_id,
            Request::AddChildNode {
                parent_code,
                code,
                name,
                trial_balance_ref: Some(trial_balance_ref),
            },
            chart_ref.to_owned(),
            ask_for_chart(CoreAccountingAction::ChartUpdate),
        )
    }
}

} // verus!
