use chrono::{Datelike, NaiveDate};
use core_accounting::chart_of_accounts::{
    Chart, ChartEvent, ChartOfAccountsError, ManualAccountFromChart, NewAccountSet,
    NewChartAccountDetails,
};
use core_accounting::primitives::{
    AccountCategory, AccountCode, AccountCodeSection, AccountIdOrCode, AccountName, AccountSpec,
    AccountingBaseConfig, CalaAccountSetId, CalaJournalId, ChartId, Date, DebitOrCredit,
    LedgerAccountId,
};

fn chart_from(events: Vec<ChartEvent>) -> Chart {
    Chart::try_from_events(events).unwrap()
}

fn initial_events() -> Vec<ChartEvent> {
    vec![ChartEvent::Initialized {
        id: ChartId::new(),
        account_set_id: CalaAccountSetId::new(),
        name: "Test Chart".to_string(),
        reference: "test-chart".to_string(),
    }]
}

fn default_chart() -> (
    Chart,
    (CalaAccountSetId, CalaAccountSetId, CalaAccountSetId),
) {
    let mut chart = chart_from(initial_events());
    let NewChartAccountDetails {
        new_account_set: level_1_new_account_set,
        ..
    } = chart
        .create_node_without_verifying_parent(
            &AccountSpec::try_new(
                None,
                vec![section("1")],
                "Assets".parse::<AccountName>().unwrap(),
                DebitOrCredit::Debit,
            )
            .unwrap(),
            CalaJournalId::new(),
        )
        .expect("Already executed");
    hydrate_chart_of_accounts(&mut chart);
    let NewChartAccountDetails {
        new_account_set: level_2_new_account_set,
        ..
    } = chart
        .create_node_without_verifying_parent(
            &AccountSpec::try_new(
                Some(code("1")),
                vec![section("1"), section("1")],
                "Current Assets".parse::<AccountName>().unwrap(),
                DebitOrCredit::Debit,
            )
            .unwrap(),
            CalaJournalId::new(),
        )
        .expect("Already executed");
    hydrate_chart_of_accounts(&mut chart);
    let NewChartAccountDetails {
        new_account_set: level_3_new_account_set,
        ..
    } = chart
        .create_node_without_verifying_parent(
            &AccountSpec::try_new(
                Some(code("1.1")),
                vec![section("1"), section("1"), section("1")],
                "Cash".parse::<AccountName>().unwrap(),
                DebitOrCredit::Debit,
            )
            .unwrap(),
            CalaJournalId::new(),
        )
        .expect("Already executed");
    hydrate_chart_of_accounts(&mut chart);
    (
        chart,
        (
            level_1_new_account_set.id,
            level_2_new_account_set.id,
            level_3_new_account_set.id,
        ),
    )
}

fn hydrate_chart_of_accounts(chart: &mut Chart) {
    chart.mark_stored();
}

fn section(s: &str) -> AccountCodeSection {
    s.parse::<AccountCodeSection>().unwrap()
}

fn code(s: &str) -> AccountCode {
    s.parse::<AccountCode>().unwrap()
}

fn spec(name: &str, parent: Option<&str>, account: &str, side: DebitOrCredit) -> AccountSpec {
    AccountSpec {
        name: name.parse().unwrap(),
        parent: parent.map(code),
        code: code(account),
        normal_balance_type: side,
    }
}

fn account_specs_for_base_config() -> Vec<AccountSpec> {
    vec![
        spec("Assets", None, "1", DebitOrCredit::Debit),
        spec("Liabilities", None, "2", DebitOrCredit::Credit),
        spec("Equity", None, "3", DebitOrCredit::Credit),
        spec("Retained Earnings Gain", Some("3"), "3.1", DebitOrCredit::Credit),
        spec("Retained Earnings Loss", Some("3"), "3.2", DebitOrCredit::Credit),
        spec("Revenue", None, "4", DebitOrCredit::Credit),
        spec("Cost of Revenue", None, "5", DebitOrCredit::Debit),
        spec("Expenses", None, "6", DebitOrCredit::Debit),
    ]
}

fn config_of(codes: [&str; 8]) -> AccountingBaseConfig {
    AccountingBaseConfig {
        assets_code: code(codes[0]),
        liabilities_code: code(codes[1]),
        equity_code: code(codes[2]),
        equity_retained_earnings_gain_code: code(codes[3]),
        equity_retained_earnings_loss_code: code(codes[4]),
        revenue_code: code(codes[5]),
        cost_of_revenue_code: code(codes[6]),
        expenses_code: code(codes[7]),
    }
}

fn base_config() -> AccountingBaseConfig {
    config_of(["1", "2", "3", "3.1", "3.2", "4", "5", "6"])
}

fn default_configured_chart() -> (Chart, CalaJournalId) {
    let mut chart = chart_from(initial_events());
    let journal_id = CalaJournalId::new();

    let _ = chart
        .configure_with_initial_accounts(account_specs_for_base_config(), base_config(), journal_id)
        .unwrap();

    hydrate_chart_of_accounts(&mut chart);

    (chart, journal_id)
}

fn date(text: &str) -> Date {
    let day = text.parse::<NaiveDate>().unwrap();
    Date {
        year: day.year(),
        month: day.month(),
        day: day.day(),
    }
}

#[test]
fn errors_for_create_child_node_if_parent_node_does_not_exist() {
    let (mut chart, _) = default_chart();

    let res = chart.create_child_node(
        code("1.9"),
        code("1.9.1"),
        "Cash".parse::<AccountName>().unwrap(),
        CalaJournalId::new(),
    );

    assert!(matches!(
        res,
        Err(ChartOfAccountsError::ParentAccountNotFound(_))
    ))
}

#[test]
fn adds_from_all_new_trial_balance_accounts() {
    let (chart, (level_1_id, level_2_id, level_3_id)) = default_chart();

    let new_ids = chart
        .trial_balance_account_ids_from_new_accounts(&vec![level_1_id, level_2_id, level_3_id]);
    assert_eq!(new_ids.len(), 1);
    assert!(new_ids.contains(&level_1_id));
}

#[test]
fn adds_from_some_new_trial_balance_accounts() {
    let (mut chart, _) = default_chart();

    let NewChartAccountDetails {
        new_account_set:
            NewAccountSet {
                id: new_account_set_id,
                ..
            },
        ..
    } = chart
        .create_node_without_verifying_parent(
            &AccountSpec::try_new(
                None,
                vec![section("5")],
                "Long-term Assets".parse::<AccountName>().unwrap(),
                DebitOrCredit::Debit,
            )
            .unwrap(),
            CalaJournalId::new(),
        )
        .expect("Already executed");
    hydrate_chart_of_accounts(&mut chart);
    let new_ids = chart.trial_balance_account_ids_from_new_accounts(&vec![new_account_set_id]);
    assert!(new_ids.contains(&new_account_set_id));
    assert_eq!(new_ids.len(), 1);
}

#[test]
fn manual_transaction_account_by_id_non_chart_id() {
    let mut chart = chart_from(initial_events());
    let random_id = LedgerAccountId::new();

    let id = match chart
        .manual_transaction_account(AccountIdOrCode::Id(random_id))
        .unwrap()
    {
        ManualAccountFromChart::NonChartId(id) => id,
        _ => panic!("expected NonChartId"),
    };
    assert_eq!(id, random_id);
}

#[test]
fn manual_transaction_account_by_code_new_account() {
    let (mut chart, (_l1, _l2, level_3_set_id)) = default_chart();
    let acct_code = code("1.1.1");

    let (account_set_id, new_account) = match chart
        .manual_transaction_account(AccountIdOrCode::Code(acct_code.clone()))
        .unwrap()
    {
        ManualAccountFromChart::NewAccount((account_set_id, new_account)) => {
            (account_set_id, new_account)
        }
        _ => panic!("expected NewAccount"),
    };

    assert_eq!(account_set_id, level_3_set_id);

    let at = chart
        .chart_nodes
        .find_manual_account(new_account.id)
        .unwrap();
    let node = &chart.chart_nodes.iter_persisted()[at];
    assert_eq!(node.spec.code, acct_code);
    assert_eq!(node.manual_transaction_account_id.unwrap(), new_account.id);
}

#[test]
fn manual_transaction_account_by_code_existing_account() {
    let (mut chart, _) = default_chart();
    let acct_code = code("1.1.1");

    let first = chart
        .manual_transaction_account(AccountIdOrCode::Code(acct_code.clone()))
        .unwrap();
    let ledger_id = match first {
        ManualAccountFromChart::NewAccount((_, new_account)) => new_account.id,
        _ => panic!("expected NewAccount"),
    };

    let second = chart
        .manual_transaction_account(AccountIdOrCode::Code(acct_code.clone()))
        .unwrap();
    match second {
        ManualAccountFromChart::IdInChart(id) => assert_eq!(id, ledger_id),
        other => panic!("expected IdInChart, got {other:?}"),
    }
}

#[test]
fn manual_transaction_account_by_id_in_chart() {
    let (mut chart, _) = default_chart();
    let acct_code = code("1.1.1");

    let ManualAccountFromChart::NewAccount((_, new_account)) = chart
        .manual_transaction_account(AccountIdOrCode::Code(acct_code.clone()))
        .unwrap()
    else {
        panic!("expected NewAccount");
    };

    let ledger_id = new_account.id;
    let id = match chart
        .manual_transaction_account(AccountIdOrCode::Id(ledger_id))
        .unwrap()
    {
        ManualAccountFromChart::IdInChart(id) => id,
        _ => panic!("expected IdInChart"),
    };
    assert_eq!(id, ledger_id)
}

#[test]
fn manual_transaction_account_code_not_found() {
    let mut chart = chart_from(initial_events());
    let bad_code = code("9.9.9");

    let err = chart
        .manual_transaction_account(AccountIdOrCode::Code(bad_code.clone()))
        .unwrap_err();

    match err {
        ChartOfAccountsError::CodeNotFoundInChart(c) => assert_eq!(c, bad_code),
        other => panic!("expected CodeNotFoundInChart, got {other:?}"),
    }
}

#[test]
fn manual_transaction_non_leaf_code() {
    let (mut chart, _) = default_chart();
    let acct_code = code("1.1");

    let res = chart.manual_transaction_account(AccountIdOrCode::Code(acct_code.clone()));
    assert!(matches!(res, Err(ChartOfAccountsError::NonLeafAccount(_))));
}

#[test]
fn manual_transaction_non_leaf_account_id_in_chart() {
    let (mut chart, _) = default_chart();
    let random_id = LedgerAccountId::new();
    let at = chart.chart_nodes.find_persisted(&code("1.1")).unwrap();
    let mut node = chart.chart_nodes.iter_persisted()[at].clone();
    node.manual_transaction_account_id = Some(random_id);
    chart.load_nodes(vec![node]);

    let res = chart.manual_transaction_account(AccountIdOrCode::Id(random_id));
    assert!(matches!(res, Err(ChartOfAccountsError::NonLeafAccount(_))));
}

#[test]
fn test_project_chart_structure() {
    let chart = default_chart().0;
    let tree = chart.chart();

    assert_eq!(tree.id, chart.id);
    assert_eq!(tree.name, chart.name);
    assert_eq!(tree.children.len(), 1);

    let assets = &tree.children[0];
    assert_eq!(assets.code, AccountCode::new(vec!["1".parse().unwrap()]));
    assert_eq!(assets.children.len(), 1);

    let current_assets = &assets.children[0];
    assert_eq!(
        current_assets.code,
        AccountCode::new(["1", "1"].iter().map(|c| c.parse().unwrap()).collect())
    );
    assert_eq!(current_assets.children.len(), 1);

    let cash = &current_assets.children[0];
    assert_eq!(
        cash.code,
        AccountCode::new(["1", "1", "1"].iter().map(|c| c.parse().unwrap()).collect())
    );
    assert!(cash.children.is_empty());
}

#[test]
fn closed_as_of_is_chronologically_enforced() {
    let mut chart = chart_from(initial_events());
    let first_date = date("2025-01-31");
    let _ = chart.close_as_of(first_date);
    let second_date = date("2025-02-28");
    let second_close_date = chart.close_as_of(second_date);
    assert!(second_close_date.did_execute());
    let invalid_closing_date = date("2025-02-01");
    let invalid_close_date = chart.close_as_of(invalid_closing_date);
    assert!(invalid_close_date.was_already_applied());
}

#[test]
fn configure_with_initial_accounts_fails_when_base_config_code_not_in_chart() {
    let mut chart = default_chart().0;

    let base_config = config_of(["2", "3", "4", "4.1", "4.2", "5", "6", "7"]);

    let res = chart.configure_with_initial_accounts(vec![], base_config, CalaJournalId::new());
    assert!(matches!(
        res,
        Err(ChartOfAccountsError::CodeNotFoundInChart(_))
    ));
}

#[test]
fn first_call_returns_executed() {
    let mut chart = chart_from(initial_events());
    let journal_id = CalaJournalId::new();
    let specs = account_specs_for_base_config();
    let config = base_config();

    let result = chart
        .configure_with_initial_accounts(specs, config, journal_id)
        .unwrap();

    assert!(result.did_execute());
    let bulk_result = result.expect("should be executed");
    assert_eq!(bulk_result.new_account_sets.len(), 8);
}

#[test]
fn second_call_with_same_config_returns_already_applied() {
    let mut chart = chart_from(initial_events());
    let journal_id = CalaJournalId::new();
    let specs = account_specs_for_base_config();
    let config = base_config();

    let first_result = chart
        .configure_with_initial_accounts(specs.clone(), config.clone(), journal_id)
        .unwrap();
    assert!(first_result.did_execute());

    hydrate_chart_of_accounts(&mut chart);

    let second_result = chart
        .configure_with_initial_accounts(specs, config, journal_id)
        .unwrap();

    assert!(second_result.was_already_applied());
}

#[test]
fn errors_when_called_with_different_config() {
    let mut chart = chart_from(initial_events());
    let journal_id = CalaJournalId::new();
    let specs = account_specs_for_base_config();
    let config = base_config();

    let first_result = chart
        .configure_with_initial_accounts(specs.clone(), config, journal_id)
        .unwrap();
    assert!(first_result.did_execute());

    hydrate_chart_of_accounts(&mut chart);

    let different_config = config_of(["1", "2", "3", "3.2", "3.1", "4", "5", "6"]);

    let second_result = chart.configure_with_initial_accounts(specs, different_config, journal_id);

    assert!(matches!(
        second_result,
        Err(ChartOfAccountsError::BaseConfigAlreadyInitializedWithDifferentConfig)
    ));
}

fn chart_with_base_config_and_asset_members() -> Chart {
    let mut chart = chart_from(initial_events());
    let journal_id = CalaJournalId::new();

    let specs = vec![
        spec("Assets", None, "1", DebitOrCredit::Debit),
        spec("Cash", Some("1"), "1.1", DebitOrCredit::Debit),
        spec("Liabilities", None, "2", DebitOrCredit::Credit),
        spec("Equity", None, "3", DebitOrCredit::Credit),
        spec("Retained Earnings Gain", Some("3"), "3.1", DebitOrCredit::Credit),
        spec("Retained Earnings Loss", Some("3"), "3.2", DebitOrCredit::Credit),
        spec("Revenue", None, "4", DebitOrCredit::Credit),
        spec("Cost of Revenue", None, "5", DebitOrCredit::Debit),
        spec("Expenses", None, "6", DebitOrCredit::Debit),
        spec("Off Balance Sheet", None, "9", DebitOrCredit::Debit),
    ];

    let base_config = config_of(["1", "2", "3", "3.1", "3.2", "4", "5", "6"]);

    let _ = chart
        .configure_with_initial_accounts(specs, base_config, journal_id)
        .unwrap();
    hydrate_chart_of_accounts(&mut chart);

    chart
}

#[test]
fn returns_id_for_valid_asset_category() {
    let chart = chart_with_base_config_and_asset_members();

    let result = chart.accounting_validated_account_set_id(&code("1"), AccountCategory::Asset);
    assert!(result.is_ok());

    let result = chart.accounting_validated_account_set_id(&code("1.1"), AccountCategory::Asset);
    assert!(result.is_ok());
}

#[test]
fn returns_id_for_valid_off_balance_sheet_category() {
    let chart = chart_with_base_config_and_asset_members();

    let result =
        chart.accounting_validated_account_set_id(&code("9"), AccountCategory::OffBalanceSheet);
    assert!(result.is_ok());
}

#[test]
fn returns_id_for_valid_revenue_category() {
    let chart = chart_with_base_config_and_asset_members();

    let result = chart.accounting_validated_account_set_id(&code("4"), AccountCategory::Revenue);
    assert!(result.is_ok());
}

#[test]
fn errors_when_category_mismatch() {
    let chart = chart_with_base_config_and_asset_members();

    let result = chart.accounting_validated_account_set_id(&code("1"), AccountCategory::Revenue);
    assert!(matches!(
        result,
        Err(ChartOfAccountsError::InvalidAccountCategory { .. })
    ));

    let result =
        chart.accounting_validated_account_set_id(&code("4"), AccountCategory::OffBalanceSheet);
    assert!(matches!(
        result,
        Err(ChartOfAccountsError::InvalidAccountCategory { .. })
    ));
}

#[test]
fn errors_when_code_not_found() {
    let chart = chart_with_base_config_and_asset_members();

    let result = chart.accounting_validated_account_set_id(&code("99"), AccountCategory::Asset);
    assert!(matches!(
        result,
        Err(ChartOfAccountsError::CodeNotFoundInChart(_))
    ));
}

#[test]
fn errors_when_base_config_not_initialized() {
    // Use default_chart which has accounts but no base_config
    let (chart, _) = default_chart();

    let result = chart.accounting_validated_account_set_id(&code("1"), AccountCategory::Asset);
    assert!(matches!(
        result,
        Err(ChartOfAccountsError::BaseConfigNotInitialized)
    ));
}

#[test]
fn import_accounts_attaches_to_existing_parent_account_set() {
    let (mut chart, journal_id) = default_configured_chart();

    let accounting_config = chart.accounting_base_config().unwrap();
    let assets_parent_account_set_id = chart
        .account_set_id_from_code(&accounting_config.assets_code)
        .unwrap();

    let added_account_specs = vec![
        AccountSpec {
            name: "Current Assets".parse().unwrap(),
            parent: Some(accounting_config.assets_code.clone()),
            code: "1.1".parse().unwrap(),
            normal_balance_type: DebitOrCredit::Debit,
        },
        AccountSpec {
            name: "Cash".parse().unwrap(),
            parent: Some("1.1".parse().unwrap()),
            code: "1.1.1".parse().unwrap(),
            normal_balance_type: DebitOrCredit::Debit,
        },
    ];

    let bulk_import = chart.import_accounts(added_account_specs, journal_id);

    assert_eq!(bulk_import.new_account_sets.len(), 2);
    assert_eq!(bulk_import.new_connections.len(), 2);

    // `AccountSpec` is sorted in reversed order i.e. child before parent.
    let third_level_account_set_id = bulk_import.new_account_set_ids[0];
    let second_level_account_set_id = bulk_import.new_account_set_ids[1];

    assert!(
        bulk_import
            .new_connections
            .contains(&(assets_parent_account_set_id, second_level_account_set_id)),
        "Expected connection from '1' to '1.1', but not found. Connections: {:?}",
        bulk_import.new_connections
    );

    assert!(
        bulk_import
            .new_connections
            .contains(&(second_level_account_set_id, third_level_account_set_id)),
        "Expected connection from '1.1' to '1.1.1', but not found. Connections: {:?}",
        bulk_import.new_connections
    );
}
