use core_accounting::chart_of_accounts::operation::{
    Answer, Failure, Operation, Plan, Query, Reply, ReportRefs, Request, Task,
};
use core_accounting::chart_of_accounts::{
    Chart, ChartEvent, ChartOfAccounts, ChartOfAccountsError, NewNodeIds,
};
use core_accounting::core_accounting::CoreAccounting;
use core_accounting::primitives::{
    AccountCategory, AccountCode, AccountCodeParseError, AccountIdOrCode, AccountSpec,
    AccountingBaseConfig, CalaAccountSetId, CalaJournalId, ChartId, ChartNodeId, ClosingTxDetails,
    CoreAccountingAction, CoreAccountingObject, Date, DebitOrCredit, LedgerAccountId,
    LedgerTransactionId,
};

type Op = Operation<&'static str>;

const CHARTS: ChartOfAccounts = ChartOfAccounts {
    journal_id: CalaJournalId(77),
};

const ACCOUNTING: CoreAccounting = CoreAccounting {
    chart_of_accounts: CHARTS,
};

fn code(s: &str) -> AccountCode {
    s.parse::<AccountCode>().unwrap()
}

fn spec(parent: Option<&str>, account: &str) -> AccountSpec {
    AccountSpec {
        name: "Account".parse().unwrap(),
        parent: parent.map(code),
        code: code(account),
        normal_balance_type: DebitOrCredit::Debit,
    }
}

fn ids(n: u128) -> NewNodeIds {
    NewNodeIds {
        node_id: ChartNodeId(n),
        account_set_id: CalaAccountSetId(1000 + n),
    }
}

fn config() -> AccountingBaseConfig {
    AccountingBaseConfig {
        assets_code: code("1"),
        liabilities_code: code("2"),
        equity_code: code("3"),
        equity_retained_earnings_gain_code: code("3.1"),
        equity_retained_earnings_loss_code: code("3.2"),
        revenue_code: code("4"),
        cost_of_revenue_code: code("5"),
        expenses_code: code("6"),
    }
}

fn config_specs() -> Vec<AccountSpec> {
    vec![
        spec(None, "1"),
        spec(None, "2"),
        spec(None, "3"),
        spec(Some("3"), "3.1"),
        spec(Some("3"), "3.2"),
        spec(None, "4"),
        spec(None, "5"),
        spec(None, "6"),
    ]
}

fn empty_chart() -> Chart {
    Chart::try_from_events(vec![ChartEvent::Initialized {
        id: ChartId(5),
        account_set_id: CalaAccountSetId(6),
        name: "Test Chart".to_string(),
        reference: "test-chart".to_string(),
    }])
    .unwrap()
}

fn configured_chart() -> Chart {
    let mut chart = empty_chart();
    let eight: Vec<NewNodeIds> = (1..=8).map(ids).collect();
    let _ = chart
        .configure_with_initial_accounts_as(&eight, config_specs(), config(), CHARTS.journal_id)
        .unwrap();
    chart.mark_stored();
    chart
}

fn reports() -> ReportRefs {
    ReportRefs {
        balance_sheet_ref: "bs".to_string(),
        profit_and_loss_ref: "pl".to_string(),
        trial_balance_ref: "tb".to_string(),
    }
}

fn permission(object: CoreAccountingObject, action: CoreAccountingAction) -> Task {
    Task::EnforcePermission { object, action }
}

/// Replies `Done` to each of the given tasks, which have to come in this order.
fn done(op: Op, tasks: &[Task]) -> Op {
    let mut op = op;
    for task in tasks {
        assert_eq!(op.pending(), Some(*task));
        op = op.step(Reply::Done);
    }
    op
}

fn failure(op: Op) -> Failure<&'static str> {
    assert_eq!(op.pending(), None);
    op.into_result().unwrap().unwrap_err()
}

fn answer(op: Op) -> Answer {
    assert_eq!(op.pending(), None);
    op.into_result().unwrap().unwrap()
}

#[test]
fn a_refused_permission_ends_every_guarded_operation() {
    let import = permission(
        CoreAccountingObject::AllCharts,
        CoreAccountingAction::ChartImportAccounts,
    );
    let update = permission(
        CoreAccountingObject::AllCharts,
        CoreAccountingAction::ChartUpdate,
    );
    let list = permission(
        CoreAccountingObject::AllCharts,
        CoreAccountingAction::ChartList,
    );
    let close = permission(
        CoreAccountingObject::Chart(ChartId(5)),
        CoreAccountingAction::ChartCloseMonthly,
    );
    let guarded: Vec<(Op, Task)> = vec![
        (
            CHARTS.import_from_csv_with_base_config_in_op("ref", "data".to_string(), config()),
            import,
        ),
        (CHARTS.import_from_csv("ref", "data".to_string()), import),
        (CHARTS.add_root_node("ref", spec(None, "1")), update),
        (
            CHARTS.add_child_node("ref", code("1"), code("1.1"), "Cash".parse().unwrap()),
            update,
        ),
        (CHARTS.close_as_of_in_op(ChartId(5), today()), close),
        (CHARTS.find_by_reference_with_sub("ref"), list),
        (
            CHARTS.account_sets_by_category("ref", AccountCategory::Asset),
            list,
        ),
        (
            ACCOUNTING.import_csv("ref", "data".to_string(), "tb".to_string()),
            import,
        ),
        (
            ACCOUNTING.add_root_node("ref", spec(None, "1"), "tb".to_string()),
            update,
        ),
        (
            ACCOUNTING.add_child_node(
                "ref",
                code("1"),
                code("1.1"),
                "Cash".parse().unwrap(),
                "tb".to_string(),
            ),
            update,
        ),
    ];
    for (op, task) in guarded {
        assert_eq!(op.pending(), Some(task));
        let op = op.step(Reply::Failed { error: "refused" });
        assert!(op.chart().is_none());
        assert!(!op.changed());
        assert!(matches!(failure(op), Failure::Outside("refused")));
    }
}

fn today() -> Date {
    Date {
        year: 2025,
        month: 6,
        day: 30,
    }
}

#[test]
fn a_chart_is_created_after_permission() {
    let op: Op = CHARTS.create_chart_as(ChartId(5), "Chart".to_string(), "ref".to_string());
    let new_chart = op.new_chart().unwrap();
    assert_eq!(new_chart.id, ChartId(5));
    assert_eq!(new_chart.account_set_id, CalaAccountSetId(5));
    assert_eq!(new_chart.name, "Chart");
    assert_eq!(new_chart.reference, "ref");
    let op = done(
        op,
        &[
            Task::BeginOp,
            permission(
                CoreAccountingObject::Chart(ChartId(5)),
                CoreAccountingAction::ChartCreate,
            ),
        ],
    );
    assert_eq!(op.pending(), Some(Task::CreateChart));
    let op = op.step(Reply::Found {
        chart: Chart::try_from_events(new_chart.into_events()).unwrap(),
    });
    let op = done(op, &[Task::CreateRootAccountSet, Task::Commit]);
    match answer(op) {
        Answer::Chart(chart) => assert_eq!(chart.account_set_id, CalaAccountSetId(5)),
        other => panic!("{other:?}"),
    }
    let made_up: Op = CHARTS.create_chart("Chart".to_string(), "ref".to_string());
    match made_up.request() {
        Request::CreateChart { id, .. } => assert_eq!((id.0 >> 76) & 0xf, 7),
        other => panic!("{other:?}"),
    }
}

#[test]
fn an_import_writes_what_is_new() {
    let op: Op = CHARTS.import_from_csv("test-chart", "data".to_string());
    let op = done(
        op,
        &[permission(
            CoreAccountingObject::AllCharts,
            CoreAccountingAction::ChartImportAccounts,
        )],
    );
    assert_eq!(op.pending(), Some(Task::FindByReference));
    assert_eq!(op.chart_ref(), "test-chart");
    let op = op.step(Reply::Found {
        chart: empty_chart(),
    });
    assert_eq!(op.pending(), Some(Task::ParseAccounts));
    let two: Vec<NewNodeIds> = (1..=2).map(ids).collect();
    let op = op.step_as(
        &two,
        LedgerAccountId(1),
        Reply::Parsed {
            account_specs: vec![spec(None, "1"), spec(Some("1"), "1.1")],
        },
    );
    match op.plan() {
        Plan::Accounts { result } => {
            assert_eq!(result.new_account_sets.len(), 2);
            assert_eq!(result.new_account_sets[0].journal_id, CHARTS.journal_id);
        }
        other => panic!("{other:?}"),
    }
    let op = done(
        op,
        &[
            Task::BeginOp,
            Task::UpdateChart,
            Task::UseDbTime,
            Task::CreateAccountSets,
            Task::AddAccountSet {
                parent: CalaAccountSetId(1002),
                member: CalaAccountSetId(1001),
            },
            Task::AddAccountSet {
                parent: CalaAccountSetId(6),
                member: CalaAccountSetId(1002),
            },
            Task::Commit,
        ],
    );
    match answer(op) {
        Answer::ChartWithNewAccounts(chart, Some(listed)) => {
            assert_eq!(listed, vec![CalaAccountSetId(1002)]);
            assert_eq!(chart.chart_nodes.iter_persisted().len(), 2);
            assert!(chart.chart_nodes.iter_new().is_empty());
        }
        other => panic!("{other:?}"),
    }
}

#[test]
fn an_import_of_known_accounts_writes_nothing() {
    let op: Op = CHARTS.import_from_csv("test-chart", "data".to_string());
    let op = op.step(Reply::Done).step(Reply::Found {
        chart: configured_chart(),
    });
    let op = op.step(Reply::Parsed {
        account_specs: config_specs(),
    });
    match answer(op) {
        Answer::ChartWithNewAccounts(_, None) => {}
        other => panic!("{other:?}"),
    }
}

#[test]
fn an_import_lists_new_accounts_after_the_commit() {
    let op: Op = ACCOUNTING.import_csv("test-chart", "data".to_string(), "tb".to_string());
    let op = op.step(Reply::Done).step(Reply::Found {
        chart: configured_chart(),
    });
    let op = op.step_as(
        &vec![ids(20)],
        LedgerAccountId(1),
        Reply::Parsed {
            account_specs: vec![spec(None, "7")],
        },
    );
    let op = done(
        op,
        &[
            Task::BeginOp,
            Task::UpdateChart,
            Task::UseDbTime,
            Task::CreateAccountSets,
            Task::AddAccountSet {
                parent: CalaAccountSetId(6),
                member: CalaAccountSetId(1020),
            },
            Task::Commit,
        ],
    );
    assert_eq!(op.listed(), &vec![CalaAccountSetId(1020)]);
    let op = done(op, &[Task::AddToTrialBalance]);
    assert!(matches!(answer(op), Answer::Chart(_)));
}

fn start_configuring(op: Op, chart: Chart) -> Op {
    let op = done(
        op,
        &[permission(
            CoreAccountingObject::AllCharts,
            CoreAccountingAction::ChartImportAccounts,
        )],
    );
    let eight: Vec<NewNodeIds> = (1..=8).map(ids).collect();
    op.step(Reply::Found { chart }).step_as(
        &eight,
        LedgerAccountId(1),
        Reply::Parsed {
            account_specs: config_specs(),
        },
    )
}

#[test]
fn a_configuring_import_runs_in_the_transaction_of_the_caller() {
    let op: Op =
        CHARTS.import_from_csv_with_base_config_in_op("test-chart", "data".to_string(), config());
    let mut op = done(
        start_configuring(op, empty_chart()),
        &[Task::UpdateChart, Task::CreateAccountSets],
    );
    for _ in 0..8 {
        assert!(matches!(op.pending(), Some(Task::AddAccountSet { .. })));
        op = op.step(Reply::Done);
    }
    match answer(op) {
        Answer::ChartWithAccounts(chart, listed) => {
            assert_eq!(listed.len(), 6);
            assert!(chart.accounting_base_config().unwrap().same(&config()));
        }
        other => panic!("{other:?}"),
    }
    let again: Op =
        CHARTS.import_from_csv_with_base_config_in_op("test-chart", "data".to_string(), config());
    match answer(start_configuring(again, configured_chart())) {
        Answer::ChartWithAccounts(_, listed) => assert!(listed.is_empty()),
        other => panic!("{other:?}"),
    }
}

#[test]
fn a_configuring_import_that_does_not_fit_fails() {
    let mut wrong = config();
    wrong.assets_code = code("99");
    let op: Op =
        CHARTS.import_from_csv_with_base_config_in_op("test-chart", "data".to_string(), wrong);
    match failure(start_configuring(op, empty_chart())) {
        Failure::Chart(ChartOfAccountsError::CodeNotFoundInChart(missing)) => {
            assert_eq!(missing, code("99"))
        }
        other => panic!("{other:?}"),
    }
}

#[test]
fn reports_are_linked_before_the_commit() {
    let op: Op = ACCOUNTING.import_csv_with_base_config(
        "test-chart",
        "data".to_string(),
        config(),
        reports(),
    );
    let op = done(op, &[Task::BeginOp]);
    let mut op = done(
        start_configuring(op, empty_chart()),
        &[Task::UpdateChart, Task::CreateAccountSets],
    );
    for _ in 0..8 {
        op = op.step(Reply::Done);
    }
    assert_eq!(
        op.resolved().unwrap().assets,
        CalaAccountSetId(1008)
    );
    let links = [
        Task::AddToTrialBalance,
        Task::LinkBalanceSheet,
        Task::LinkProfitAndLoss,
        Task::Commit,
    ];
    let op = done(op, &links);
    assert!(matches!(answer(op), Answer::Chart(_)));

    // A chart that has the configuration is only linked.
    let again: Op = ACCOUNTING.import_csv_with_base_config(
        "test-chart",
        "data".to_string(),
        config(),
        reports(),
    );
    let again = start_configuring(done(again, &[Task::BeginOp]), configured_chart());
    assert!(again.listed().is_empty());
    let again = done(again, &links);
    assert!(matches!(answer(again), Answer::Chart(_)));
}

#[test]
fn a_configuration_that_the_chart_has_lost_cannot_be_linked() {
    let mut chart = configured_chart();
    chart.base_config = None;
    let op: Op = ACCOUNTING.import_csv_with_base_config(
        "test-chart",
        "data".to_string(),
        config(),
        reports(),
    );
    let op = start_configuring(done(op, &[Task::BeginOp]), chart);
    assert!(matches!(
        failure(op),
        Failure::Chart(ChartOfAccountsError::BaseConfigNotInitialized)
    ));
}

#[test]
fn a_root_account_is_stored_and_connected() {
    let op: Op = CHARTS.add_root_node("test-chart", spec(None, "7"));
    let op = op.step(Reply::Done).step_as(
        &vec![ids(20)],
        LedgerAccountId(1),
        Reply::Found {
            chart: configured_chart(),
        },
    );
    match op.plan() {
        Plan::Account {
            new_account_set, ..
        } => assert_eq!(new_account_set.id, CalaAccountSetId(1020)),
        other => panic!("{other:?}"),
    }
    let op = done(
        op,
        &[
            Task::BeginOp,
            Task::UpdateChart,
            Task::UseDbTime,
            Task::CreateAccountSet,
            Task::AddAccountSet {
                parent: CalaAccountSetId(6),
                member: CalaAccountSetId(1020),
            },
            Task::Commit,
        ],
    );
    match answer(op) {
        Answer::ChartWithAccount(_, id) => assert_eq!(id, Some(CalaAccountSetId(1020))),
        other => panic!("{other:?}"),
    }
    let known: Op = CHARTS.add_root_node("test-chart", spec(None, "6"));
    let known = known.step(Reply::Done).step(Reply::Found {
        chart: configured_chart(),
    });
    match answer(known) {
        Answer::ChartWithAccount(_, None) => {}
        other => panic!("{other:?}"),
    }
}

#[test]
fn a_child_account_is_not_listed() {
    let child = |account: &str, parent: &str| -> Op {
        ACCOUNTING
            .add_child_node(
                "test-chart",
                code(parent),
                code(account),
                "Cash".parse().unwrap(),
                "tb".to_string(),
            )
            .step(Reply::Done)
            .step_as(
                &vec![ids(20)],
                LedgerAccountId(1),
                Reply::Found {
                    chart: configured_chart(),
                },
            )
    };
    let op = done(
        child("1.7", "1"),
        &[
            Task::BeginOp,
            Task::UpdateChart,
            Task::UseDbTime,
            Task::CreateAccountSet,
            Task::AddAccountSet {
                parent: CalaAccountSetId(1008),
                member: CalaAccountSetId(1020),
            },
            Task::Commit,
        ],
    );
    assert!(matches!(answer(op), Answer::Chart(_)));
    assert!(matches!(
        failure(child("9.1", "9")),
        Failure::Chart(ChartOfAccountsError::ParentAccountNotFound(_))
    ));
    assert!(matches!(
        failure(child("2.1", "1")),
        Failure::Chart(ChartOfAccountsError::AccountCodeParseError(
            AccountCodeParseError::InvalidParent
        ))
    ));
}

#[test]
fn a_chart_is_closed_in_the_transaction_of_the_caller() {
    let close = |date: Date, chart: Chart| -> Op {
        CHARTS
            .close_as_of_in_op(ChartId(5), date)
            .step(Reply::Done)
            .step(Reply::Found { chart })
    };
    let op = close(today(), configured_chart());
    let op = done(
        op,
        &[
            Task::UpdateChart,
            Task::CloseAccountSet {
                closed_as_of: today(),
                account_set_id: CalaAccountSetId(6),
            },
        ],
    );
    assert!(op.changed());
    let closed = op.chart().unwrap().events.clone();
    assert!(matches!(answer(op), Answer::Nothing));
    let mut closed_chart = configured_chart();
    closed_chart.events = closed;
    let again = close(today(), closed_chart);
    assert!(!again.changed());
    assert!(matches!(answer(again), Answer::Nothing));
}

#[test]
fn a_closing_is_posted_and_committed() {
    let post = |chart: Chart| -> Op {
        CHARTS
            .post_closing_transaction(
                ChartId(5),
                ClosingTxDetails {
                    description: "Year end".to_string(),
                    posted_as_of: today(),
                },
            )
            .step(Reply::Found { chart })
    };
    let op = post(configured_chart());
    match op.plan() {
        Plan::ClosingTransaction { params } => {
            assert_eq!(params.tx_details.description, "Year end");
            assert_eq!(params.parent_ids.expenses, CalaAccountSetId(1001));
        }
        other => panic!("{other:?}"),
    }
    let op = done(
        op,
        &[
            Task::UpdateChart,
            Task::PostClosingTransaction,
            Task::Commit,
        ],
    );
    assert!(matches!(answer(op), Answer::Nothing));
    assert!(matches!(
        failure(post(empty_chart())),
        Failure::Chart(ChartOfAccountsError::BaseConfigNotInitialized)
    ));
}

#[test]
fn a_manual_account_is_created_once() {
    let manual = |account: AccountIdOrCode, chart: Chart| -> Op {
        let op: Op = CHARTS
            .manual_transaction_account_id_for_account_id_or_code("test-chart", account);
        assert_eq!(op.pending(), Some(Task::FindByReference));
        let op = op.step(Reply::Found { chart });
        assert_eq!(
            op.pending(),
            Some(permission(
                CoreAccountingObject::AllCharts,
                CoreAccountingAction::ChartUpdate
            ))
        );
        op.step_as(&vec![ids(20)], LedgerAccountId(40), Reply::Done)
    };
    let op = manual(AccountIdOrCode::Code(code("1")), configured_chart());
    let op = done(op, &[Task::BeginOp, Task::UpdateChart, Task::UseDbTime]);
    assert_eq!(op.pending(), Some(Task::CreateAccount));
    match op.plan() {
        Plan::ManualAccount {
            account_set_id,
            new_account,
        } => {
            assert_eq!(*account_set_id, CalaAccountSetId(1008));
            assert_eq!(new_account.id, LedgerAccountId(40));
        }
        other => panic!("{other:?}"),
    }
    let op = op.step(Reply::AccountCreated {
        id: LedgerAccountId(41),
    });
    let mut chart = configured_chart();
    let op = done(
        op,
        &[
            Task::AddAccount {
                account_set_id: CalaAccountSetId(1008),
                account_id: LedgerAccountId(41),
            },
            Task::Commit,
        ],
    );
    match answer(op) {
        Answer::Account(id) => assert_eq!(id, LedgerAccountId(41)),
        other => panic!("{other:?}"),
    }
    let _ = chart
        .manual_transaction_account_as(LedgerAccountId(40), AccountIdOrCode::Code(code("1")))
        .unwrap();
    match answer(manual(AccountIdOrCode::Code(code("1")), chart)) {
        Answer::Account(id) => assert_eq!(id, LedgerAccountId(40)),
        other => panic!("{other:?}"),
    }
    match answer(manual(
        AccountIdOrCode::Id(LedgerAccountId(90)),
        configured_chart(),
    )) {
        Answer::Account(id) => assert_eq!(id, LedgerAccountId(90)),
        other => panic!("{other:?}"),
    }
    assert!(matches!(
        failure(manual(AccountIdOrCode::Code(code("3")), configured_chart())),
        Failure::Chart(ChartOfAccountsError::NonLeafAccount(_))
    ));
}

#[test]
fn a_chart_that_is_not_there_is_reported() {
    let op: Op = CHARTS.find_by_reference("nowhere");
    match failure(op.step(Reply::NotFound)) {
        Failure::Chart(ChartOfAccountsError::ChartOfAccountsNotFoundByReference(reference)) => {
            assert_eq!(reference, "nowhere")
        }
        other => panic!("{other:?}"),
    }
    let maybe: Op = CHARTS.maybe_find_by_reference("nowhere");
    assert!(matches!(
        answer(maybe.step(Reply::NotFound)),
        Answer::MaybeChart(None)
    ));
    let maybe: Op = CHARTS.maybe_find_by_reference("test-chart");
    assert!(matches!(
        answer(maybe.step(Reply::Found {
            chart: empty_chart()
        })),
        Answer::MaybeChart(Some(_))
    ));
    let by_id: Op = CHARTS.find_by_id(ChartId(5));
    let by_id = by_id.step(Reply::NotFound);
    assert_eq!(by_id.pending(), Some(Task::FindById { id: ChartId(5) }));
    assert!(matches!(
        failure(by_id.step(Reply::Failed { error: "none" })),
        Failure::Outside("none")
    ));
}

#[test]
fn a_base_configuration_is_found_by_chart() {
    let op: Op = CHARTS.maybe_find_accounting_base_config_by_chart_id(ChartId(5));
    match answer(op.step(Reply::Found {
        chart: configured_chart(),
    })) {
        Answer::BaseConfig(Some(found)) => assert!(found.same(&config())),
        other => panic!("{other:?}"),
    }
}

#[test]
fn account_sets_are_listed_by_category() {
    let list = |category: AccountCategory, chart: Chart| -> Op {
        CHARTS
            .account_sets_by_category("test-chart", category)
            .step(Reply::Done)
            .step(Reply::Found { chart })
    };
    match answer(list(AccountCategory::Equity, configured_chart())) {
        Answer::AccountSets(members) => {
            let mut codes: Vec<String> = members.iter().map(|m| m.code.to_string()).collect();
            codes.sort();
            assert_eq!(codes, vec!["3.1", "3.2"]);
        }
        other => panic!("{other:?}"),
    }
    match failure(list(AccountCategory::OffBalanceSheet, configured_chart())) {
        Failure::Chart(ChartOfAccountsError::InvalidAccountCategory { code, category }) => {
            assert_eq!(code.to_string(), "");
            assert_eq!(category, AccountCategory::OffBalanceSheet);
        }
        other => panic!("{other:?}"),
    }
    assert!(matches!(
        failure(list(AccountCategory::Equity, empty_chart())),
        Failure::Chart(ChartOfAccountsError::BaseConfigNotInitialized)
    ));
}

#[test]
fn a_question_about_a_chart_is_passed_on() {
    let by_code = |text: &str| -> Op {
        ACCOUNTING
            .find_ledger_account_by_code("test-chart", text.to_string())
            .step(Reply::Found {
                chart: empty_chart(),
            })
    };
    let op = by_code("1.2");
    assert_eq!(op.pending(), Some(Task::Query));
    match op.plan() {
        Plan::LedgerAccountCode { code: found } => assert_eq!(*found, code("1.2")),
        other => panic!("{other:?}"),
    }
    assert!(matches!(answer(op.step(Reply::Done)), Answer::Nothing));
    assert!(matches!(
        failure(by_code("x")),
        Failure::AccountCode(AccountCodeParseError::InvalidSection)
    ));
    let all: Op = ACCOUNTING.list_all_account_flattened("test-chart", today(), None);
    match all.request() {
        Request::Query {
            query: Query::AllLedgerAccounts {
                filter_non_zero, ..
            },
        } => assert!(*filter_non_zero),
        other => panic!("{other:?}"),
    }
    let years: Op = ACCOUNTING.list_fiscal_years_for_chart("test-chart");
    let years = years.step(Reply::Found {
        chart: empty_chart(),
    });
    assert_eq!(years.chart().unwrap().id, ChartId(5));
    assert_eq!(years.pending(), Some(Task::Query));
}

#[test]
fn a_manual_transaction_is_for_today_by_default() {
    let execute = |effective: Option<Date>| -> Op {
        ACCOUNTING.execute_manual_transaction(
            "test-chart",
            None,
            "Correction".to_string(),
            effective,
            today(),
        )
    };
    let effective_of = |op: &Op| match op.request() {
        Request::ManualTransaction { effective, .. } => *effective,
        other => panic!("{other:?}"),
    };
    assert_eq!(effective_of(&execute(None)), today());
    let earlier = Date {
        year: 2024,
        month: 1,
        day: 1,
    };
    let op = execute(Some(earlier));
    assert_eq!(effective_of(&op), earlier);
    assert_eq!(op.pending(), Some(Task::ExecuteManualTransaction));
    let op = op.step(Reply::Executed {
        id: LedgerTransactionId(8),
    });
    let op = done(
        op,
        &[Task::FindLedgerTransaction {
            id: LedgerTransactionId(8),
        }],
    );
    assert!(matches!(answer(op), Answer::Nothing));
}

#[test]
fn a_chart_is_asked_for_no_more_than_the_request_needs() {
    let twins = || {
        let mut chart = configured_chart();
        let mut twin = chart.chart_nodes.iter_persisted()[0].clone();
        twin.id = ChartNodeId(99);
        chart.load_nodes(vec![twin]);
        Reply::Found { chart }
    };
    let unresolved = || Reply::Found {
        chart: Chart::try_from_events(configured_chart().events).unwrap(),
    };
    let list: Op = CHARTS.account_sets_by_category("test-chart", AccountCategory::Asset);
    assert!(!list.accepts(&twins()));
    assert!(list.accepts(&unresolved()));
    let link: Op = ACCOUNTING.import_csv_with_base_config(
        "test-chart",
        "data".to_string(),
        config(),
        reports(),
    );
    assert!(link.accepts(&twins()));
    assert!(!link.accepts(&unresolved()));
    let find: Op = CHARTS.find_by_reference("test-chart");
    assert!(find.accepts(&twins()));
    assert!(find.accepts(&unresolved()));
    assert!(matches!(answer(find.step(unresolved())), Answer::Chart(_)));
}

#[test]
fn a_reply_that_does_not_fit_changes_nothing() {
    let op: Op = CHARTS.import_from_csv("test-chart", "data".to_string());
    let first = op.pending();
    let op = op.step(Reply::NotFound);
    assert_eq!(op.pending(), first);
    let op = op.step(Reply::AccountCreated {
        id: LedgerAccountId(1),
    });
    assert_eq!(op.pending(), first);
    let op = op.step(Reply::Done).step(Reply::Done);
    assert_eq!(op.pending(), Some(Task::FindByReference));
    let op = op
        .step(Reply::Failed { error: "down" })
        .step(Reply::Found {
            chart: empty_chart(),
        });
    assert!(op.chart().is_none());
    assert!(matches!(failure(op), Failure::Outside("down")));
}
