//! The operations that charts of accounts offer.
use vstd::prelude::*;

use super::operation::{Operation, OperationView, Request, Task};
use crate::primitives::account::{AccountIdOrCode, AccountName, AccountSpec};
use crate::primitives::account_code::AccountCode;
use crate::primitives::base_config::{AccountCategory, AccountingBaseConfig};
use crate::primitives::closing::{ClosingTxDetails, Date};
use crate::primitives::ids::{is_uuid_v7, CalaJournalId, ChartId};
use crate::primitives::permission::{CoreAccountingAction, CoreAccountingObject};

verus! {

/// Asking for permission.
pub open spec fn permission(object: CoreAccountingObject, action: CoreAccountingAction) -> Task {
    Task::EnforcePermission { object, action }
}

/// Asking for permission to do something with charts, and then for the chart.
pub open spec fn chart_questions(action: CoreAccountingAction) -> Seq<Task> {
    seq![permission(CoreAccountingObject::AllCharts, action), Task::FindByReference]
}

/// Asking for permission to import accounts, for the chart, and for the
/// accounts.
pub open spec fn import_questions() -> Seq<Task> {
    seq![
        permission(CoreAccountingObject::AllCharts, CoreAccountingAction::ChartImportAccounts),
        Task::FindByReference,
        Task::ParseAccounts,
    ]
}

pub(crate) fn ask_for_chart(action: CoreAccountingAction) -> (res: Vec<Task>)
    ensures
        res@ == chart_questions(action),
{
    let mut res: Vec<Task> = Vec::new();
    res.push(Task::EnforcePermission { object: CoreAccountingObject::AllCharts, action });
    res.push(Task::FindByReference);
    assert(res@ =~= chart_questions(action));
    res
}

pub(crate) fn ask_for_import() -> (res: Vec<Task>)
    ensures
        res@ == import_questions(),
{
    let mut res: Vec<Task> = ask_for_chart(CoreAccountingAction::ChartImportAccounts);
    res.push(Task::ParseAccounts);
    assert(res@ =~= import_questions());
    res
}

pub(crate) fn ask_by_reference() -> (res: Vec<Task>)
    ensures
        res@ == seq![Task::FindByReference],
{
    let mut res: Vec<Task> = Vec::new();
    res.push(Task::FindByReference);
    assert(res@ =~= seq![Task::FindByReference]);
    res
}

fn ask_by_id(id: ChartId) -> (res: Vec<Task>)
    ensures
        res@ == seq![Task::FindById { id }],
{
    let mut res: Vec<Task> = Vec::new();
    res.push(Task::FindById { id });
    assert(res@ =~= seq![Task::FindById { id }]);
    res
}

/// The charts of accounts of a journal.
#[derive(Debug, Clone, Copy, PartialEq, Eq, Structural)]
pub struct ChartOfAccounts {
    pub journal_id: CalaJournalId,
}

impl ChartOfAccounts {
    /// The charts of a journal.
    pub fn new(journal_id: CalaJournalId) -> (res: Self)
        ensures
            res.journal_id == journal_id,
    {
        ChartOfAccounts { journal_id }
    }

    /// Creates a chart, under an identifier that is made up here.
    pub fn create_chart<E>(&self, name: String, reference: String) -> (res: Operation<E>)
        ensures
            res@.is_sound(),
            exists|id: ChartId|
                is_uuid_v7(id.0) && res@ == #[trigger] creating_chart::<E>(
                    self.journal_id,
                    id,
                    name,
                    reference,
                ),
    {
        self.create_chart_as(ChartId::new(), name, reference)
    }

    /// As `create_chart`, under the given identifier. The transaction is begun
    /// before permission is asked for.
    pub fn create_chart_as<E>(&self, id: ChartId, name: String, reference: String) -> (res:
        Operation<E>)
        ensures
            res@.is_sound(),
            res@ == creating_chart::<E>(self.journal_id, id, name, reference),
    {
        let mut todo: Vec<Task> = Vec::new();
        todo.push(Task::BeginOp);
        todo.push(
            Task::EnforcePermission {
                object: CoreAccountingObject::Chart(id),
                action: CoreAccountingAction::ChartCreate,
            },
        );
        assert(todo@ =~= seq![
            Task::BeginOp,
            permission(CoreAccountingObject::Chart(id), CoreAccountingAction::ChartCreate),
        ]);
        Operation::start(
            self.journal_id,
            Request::CreateChart { id, name, reference },
            String::new(),
            todo,
        )
    }

    /// Imports the first accounts of a chart and sets its base configuration. It
    /// runs in a transaction of the caller, who commits it.
    pub fn import_from_csv_with_base_config_in_op<E>(
        &self,
        chart_ref: &str,
        import_data: String,
        base_config: AccountingBaseConfig,
    ) -> (res: Operation<E>)
        ensures
            res@.is_sound(),
            res@ == OperationView::<E>::started(
                self.journal_id,
                (Request::ImportWithBaseConfig { import_data, base_config, reports: None }),
                chart_ref@,
                import_questions(),
            ),
    {
        Operation::start(
            self.journal_id,
            Request::ImportWithBaseConfig { import_data, base_config, reports: None },
            chart_ref.to_owned(),
            ask_for_import(),
        )
    }

    /// Imports accounts into a chart.
    pub fn import_from_csv<E>(&self, chart_ref: &str, import_data: String) -> (res: Operation<E>)
        ensures
            res@.is_sound(),
            res@ == OperationView::<E>::started(
                self.journal_id,
                (Request::Import { import_data, trial_balance_ref: None }),
                chart_ref@,
                import_questions(),
            ),
    {
        Operation::start(
            self.journal_id,
            Request::Import { import_data, trial_balance_ref: None },
            chart_ref.to_owned(),
            ask_for_import(),
        )
    }

    /// Finds the base configuration of a chart.
    pub fn maybe_find_accounting_base_config_by_chart_id<E>(
        &self,
        chart_id: ChartId,
    ) -> (res: Operation<E>)
        ensures
            res@.is_sound(),
            res@ == OperationView::<E>::started(
                self.journal_id,
                Request::FindBaseConfig,
                Seq::empty(),
                seq![Task::FindById { id: chart_id }],
            ),
    {
        Operation::start(
            self.journal_id,
            Request::FindBaseConfig,
            String::new(),
            ask_by_id(chart_id),
        )
    }

    /// Adds an account at the top of a chart.
    pub fn add_root_node<E>(&self, chart_ref: &str, spec: AccountSpec) -> (res: Operation<E>)
        ensures
            res@.is_sound(),
            res@ == OperationView::<E>::started(
                self.journal_id,
                (Request::AddRootNode { spec, trial_balance_ref: None }),
                chart_ref@,
                chart_questions(CoreAccountingAction::ChartUpdate),
            ),
    {
        Operation::start(
            self.journal_id,
            Request::AddRootNode { spec, trial_balance_ref: None },
            chart_ref.to_owned(),
            ask_for_chart(CoreAccountingAction::ChartUpdate),
        )
    }

    /// Adds an account below another one.
    pub fn add_child_node<E>(
        &self,
        chart_ref: &str,
        parent_code: AccountCode,
        code: AccountCode,
        name: AccountName,
    ) -> (res: Operation<E>)
        ensures
            res@.is_sound(),
            res@ == OperationView::<E>::started(
                self.journal_id,
                (Request::AddChildNode { parent_code, code, name, trial_balance_ref: None }),
                chart_ref@,
                chart_questions(CoreAccountingAction::ChartUpdate),
            ),
    {
        Operation::start(
            self.journal_id,
            Request::AddChildNode { parent_code, code, name, trial_balance_ref: None },
            chart_ref.to_owned(),
            ask_for_chart(CoreAccountingAction::ChartUpdate),
        )
    }

    /// Closes a chart as of a day. It runs in a transaction of the caller, who
    /// commits it.
    pub fn close_as_of_in_op<E>(&self, chart_id: ChartId, closed_as_of: Date) -> (res: Operation<E>)
        ensures
            res@.is_sound(),
            res@ == OperationView::<E>::started(
                self.journal_id,
                (Request::CloseAsOf { closed_as_of }),
                Seq::empty(),
                seq![
                    permission(
                        CoreAccountingObject::Chart(chart_id),
                        CoreAccountingAction::ChartCloseMonthly,
                    ),
                    Task::FindById { id: chart_id },
                ],
            ),
    {
        let mut todo: Vec<Task> = Vec::new();
        todo.push(
            Task::EnforcePermission {
                object: CoreAccountingObject::Chart(chart_id),
                action: CoreAccountingAction::ChartCloseMonthly,
            },
        );
        todo.push(Task::FindById { id: chart_id });
        assert(todo@ =~= seq![
            permission(
                CoreAccountingObject::Chart(chart_id),
                CoreAccountingAction::ChartCloseMonthly,
            ),
            Task::FindById { id: chart_id },
        ]);
        Operation::start(
            self.journal_id,
            Request::CloseAsOf { closed_as_of },
            String::new(),
            todo,
        )
    }

    /// Posts the closing transaction of a chart. It runs in a transaction of the
    /// caller and commits it.
    pub fn post_closing_transaction<E>(
        &self,
        chart_id: ChartId,
        tx_details: ClosingTxDetails,
    ) -> (res: Operation<E>)
        ensures
            res@.is_sound(),
            res@ == OperationView::<E>::started(
                self.journal_id,
                (Request::PostClosing { tx_details }),
                Seq::empty(),
                seq![Task::FindById { id: chart_id }],
            ),
    {
        Operation::start(
            self.journal_id,
            Request::PostClosing { tx_details },
            String::new(),
            ask_by_id(chart_id),
        )
    }

    /// Finds the chart with an identifier.
    pub fn find_by_id<E>(&self, id: ChartId) -> (res: Operation<E>)
        ensures
            res@.is_sound(),
            res@ == OperationView::<E>::started(
                self.journal_id,
                Request::FindChart,
                Seq::empty(),
                seq![Task::FindById { id: id }],
            ),
    {
        Operation::start(
            self.journal_id,
            Request::FindChart,
            String::new(),
            ask_by_id(id),
        )
    }

    /// Finds the chart with a reference, if there is one.
    pub fn maybe_find_by_reference<E>(&self, chart_ref: &str) -> (res: Operation<E>)
        ensures
            res@.is_sound(),
            res@ == OperationView::<E>::started(
                self.journal_id,
                Request::MaybeFindChart,
                chart_ref@,
                seq![Task::FindByReference],
            ),
    {
        Operation::start(
            self.journal_id,
            Request::MaybeFindChart,
            chart_ref.to_owned(),
            ask_by_reference(),
        )
    }

    /// Finds the chart with a reference for a subject that may list charts.
    pub fn find_by_reference_with_sub<E>(&self, chart_ref: &str) -> (res: Operation<E>)
        ensures
            res@.is_sound(),
            res@ == OperationView::<E>::started(
                self.journal_id,
                Request::FindChart,
                chart_ref@,
                chart_questions(CoreAccountingAction::ChartList),
            ),
    {
        Operation::start(
            self.journal_id,
            Request::FindChart,
            chart_ref.to_owned(),
            ask_for_chart(CoreAccountingAction::ChartList),
        )
    }

    /// Finds the chart with a reference.
    pub fn find_by_reference<E>(&self, chart_ref: &str) -> (res: Operation<E>)
        ensures
            res@.is_sound(),
            res@ == OperationView::<E>::started(
                self.journal_id,
                Request::FindChart,
                chart_ref@,
                seq![Task::FindByReference],
            ),
    {
        Operation::start(
            self.journal_id,
            Request::FindChart,
            chart_ref.to_owned(),
            ask_by_reference(),
        )
    }

    /// Finds the account for manual transactions that an identifier or a code
    /// stands for, or creates one. The chart is looked for before permission is
    /// asked for.
    pub fn manual_transaction_account_id_for_account_id_or_code<E>(
        &self,
        chart_ref: &str,
        account_id_or_code: AccountIdOrCode,
    ) -> (res: Operation<E>)
        ensures
            res@.is_sound(),
            res@ == OperationView::<E>::started(
                self.journal_id,
                (Request::ManualAccount { account_id_or_code }),
                chart_ref@,
                seq![
                    Task::FindByReference,
                    permission(CoreAccountingObject::AllCharts, CoreAccountingAction::ChartUpdate),
                ],
            ),
    {
        let mut todo: Vec<Task> = ask_by_reference();
        todo.push(
            Task::EnforcePermission {
                object: CoreAccountingObject::AllCharts,
                action: CoreAccountingAction::ChartUpdate,
            },
        );
        assert(todo@ =~= seq![
            Task::FindByReference,
            permission(CoreAccountingObject::AllCharts, CoreAccountingAction::ChartUpdate),
        ]);
        Operation::start(
            self.journal_id,
            Request::ManualAccount { account_id_or_code },
            chart_ref.to_owned(),
            todo,
        )
    }

    /// Lists the account sets below the account that stands for a category.
    pub fn account_sets_by_category<E>(
        &self,
        chart_ref: &str,
        category: AccountCategory,
    ) -> (res: Operation<E>)
        ensures
            res@.is_sound(),
            res@ == OperationView::<E>::started(
                self.journal_id,
                (Request::AccountSetsByCategory { category }),
                chart_ref@,
                chart_questions(CoreAccountingAction::ChartList),
            ),
    {
        Operation::start(
            self.journal_id,
            Request::AccountSetsByCategory { category },
            chart_ref.to_owned(),
            ask_for_chart(CoreAccountingAction::ChartList),
        )
    }
}

/// A chart is to be created.
pub open spec fn creating_chart<E>(
    journal_id: CalaJournalId,
    id: ChartId,
    name: String,
    reference: String,
) -> OperationView<E> {
    OperationView::started(
        journal_id,
        Request::CreateChart { id, name, reference },
        Seq::empty(),
        seq![
            Task::BeginOp,
            permission(CoreAccountingObject::Chart(id), CoreAccountingAction::ChartCreate),
        ],
    )
}

} // verus!
