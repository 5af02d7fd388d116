use core_accounting::chart_of_accounts::{
    Chart, ChartEvent, ChartOfAccountsError, ManualAccountFromChart, NewChart, NewNodeIds,
};
use core_accounting::idempotent::Idempotent;
use core_accounting::primitives::{
    AccountCategory, AccountCode, AccountCodeParseError, AccountIdOrCode, AccountSpec,
    AccountingBaseConfig, CalaAccountSetId, CalaJournalId, ChartId, ChartNodeId,
    ClosingAccountCodes, ClosingTxDetails, Date, DebitOrCredit, LedgerAccountId,
};

const JOURNAL: CalaJournalId = CalaJournalId(77);

fn code(s: &str) -> AccountCode {
    s.parse::<AccountCode>().unwrap()
}

fn ids(n: u128) -> NewNodeIds {
    NewNodeIds {
        node_id: ChartNodeId(n),
        account_set_id: CalaAccountSetId(1000 + n),
    }
}

fn spec(parent: Option<&str>, account: &str) -> AccountSpec {
    AccountSpec {
        name: "Account".parse().unwrap(),
        parent: parent.map(code),
        code: code(account),
        normal_balance_type: DebitOrCredit::Debit,
    }
}

fn config() -> AccountingBaseConfig {
    AccountingBaseConfig {
        assets_code: code("1"),
        liabilities_code: code("2"),
        equity_code: code("3"),
        equity_retained_earnings_gain_code: code("3.1"),
        equity_retained_earnings_loss_code: code("3.2"),
        revenue_code: code("4"),
        cost_of_revenue_code: code("5"),
        expenses_code: code("6"),
    }
}

fn config_specs() -> Vec<AccountSpec> {
    vec![
        spec(None, "1"),
        spec(None, "2"),
        spec(None, "3"),
        spec(Some("3"), "3.1"),
        spec(Some("3"), "3.2"),
        spec(None, "4"),
        spec(None, "5"),
        spec(None, "6"),
    ]
}

fn new_chart() -> NewChart {
    NewChart::builder()
        .id(ChartId(5))
        .account_set_id(CalaAccountSetId(6))
        .name("Test Chart".to_string())
        .reference("test-chart".to_string())
        .build()
        .unwrap()
}

fn empty_chart() -> Chart {
    Chart::try_from_events(new_chart().into_events()).unwrap()
}

/// The accounts 1, 1.1 and 1.1.1 under the identifiers 1, 2 and 3.
fn small_chart() -> Chart {
    let mut chart = empty_chart();
    let accounts = [(None, "1"), (Some("1"), "1.1"), (Some("1.1"), "1.1.1")];
    for (n, (parent, account)) in accounts.into_iter().enumerate() {
        assert!(chart
            .create_node_without_verifying_parent_as(
                ids(n as u128 + 1),
                &spec(parent, account),
                JOURNAL
            )
            .did_execute());
        chart.mark_stored();
    }
    chart
}

fn configured_chart() -> Chart {
    let mut chart = empty_chart();
    let eight: Vec<NewNodeIds> = (1..=8).map(ids).collect();
    assert!(chart
        .configure_with_initial_accounts_as(&eight, config_specs(), config(), JOURNAL)
        .unwrap()
        .did_execute());
    chart.mark_stored();
    chart
}

fn day(year: i32, month: u32, day: u32) -> Date {
    Date { year, month, day }
}

#[test]
fn a_new_chart_is_what_it_was_made_from() {
    let chart = empty_chart();
    assert_eq!(chart.id, ChartId(5));
    assert_eq!(chart.account_set_id, CalaAccountSetId(6));
    assert_eq!(chart.name, "Test Chart");
    assert_eq!(chart.reference, "test-chart");
    assert!(chart.accounting_base_config().is_none());
    assert!(chart.is_usable());
}

#[test]
fn a_new_chart_needs_all_its_fields() {
    let missing = |res: Result<NewChart, core_accounting::chart_of_accounts::UninitializedFieldError>| {
        res.unwrap_err().field_name
    };
    assert_eq!(missing(NewChart::builder().build()), "id");
    assert_eq!(
        missing(NewChart::builder().id(ChartId(1)).build()),
        "account_set_id"
    );
    assert_eq!(
        missing(
            NewChart::builder()
                .id(ChartId(1))
                .account_set_id(CalaAccountSetId(1))
                .build()
        ),
        "name"
    );
    assert_eq!(
        missing(
            NewChart::builder()
                .id(ChartId(1))
                .account_set_id(CalaAccountSetId(1))
                .name("n".to_string())
                .build()
        ),
        "reference"
    );
}

#[test]
fn a_chart_needs_an_event_that_initializes_it() {
    assert_eq!(
        Chart::try_from_events(vec![]).unwrap_err().field_name,
        "id"
    );
    let closed = ChartEvent::ClosedAsOf {
        closed_as_of: day(2025, 1, 31),
    };
    assert_eq!(
        Chart::try_from_events(vec![closed]).unwrap_err().field_name,
        "id"
    );
}

#[test]
fn events_tell_the_chart_again() {
    let mut chart = configured_chart();
    let _ = chart.close_as_of(day(2025, 1, 31));
    let again = Chart::try_from_events(chart.events.clone()).unwrap();
    assert_eq!(again.id, chart.id);
    assert_eq!(again.account_set_id, chart.account_set_id);
    assert_eq!(again.name, chart.name);
    assert_eq!(again.reference, chart.reference);
    assert!(again.accounting_base_config().unwrap().same(&config()));
    assert!(again.chart_nodes.iter_persisted().is_empty());
}

#[test]
fn the_last_initialization_and_configuration_count() {
    let initialized = |n: u128| ChartEvent::Initialized {
        id: ChartId(n),
        account_set_id: CalaAccountSetId(n),
        name: format!("chart {n}"),
        reference: format!("ref {n}"),
    };
    let mut other = config();
    other.assets_code = code("9");
    let chart = Chart::try_from_events(vec![
        initialized(1),
        ChartEvent::BaseConfigSet {
            base_config: other,
        },
        ChartEvent::BaseConfigSet {
            base_config: config(),
        },
        initialized(2),
    ])
    .unwrap();
    assert_eq!(chart.id, ChartId(2));
    assert_eq!(chart.name, "chart 2");
    assert!(chart.accounting_base_config().unwrap().same(&config()));
}

#[test]
fn identifiers_are_made_up_anew() {
    let a = ChartId::new();
    let b = ChartId::new();
    assert_ne!(a, b);
    assert_eq!((a.0 >> 76) & 0xf, 7);
    assert_eq!((a.0 >> 62) & 0x3, 2);
    let mut chart = empty_chart();
    let created = chart
        .create_root_node(&spec(None, "1"), JOURNAL)
        .expect("new account");
    assert_eq!((created.new_account_set.id.0 >> 76) & 0xf, 7);
}

#[test]
fn an_account_is_created_once() {
    let mut chart = empty_chart();
    let created = chart
        .create_node_without_verifying_parent_as(ids(1), &spec(None, "1"), JOURNAL)
        .expect("new account");
    assert_eq!(created.parent_account_set_id, CalaAccountSetId(6));
    assert_eq!(created.new_account_set.id, CalaAccountSetId(1001));
    assert_eq!(created.new_account_set.journal_id, JOURNAL);
    assert_eq!(created.new_account_set.chart_id, ChartId(5));
    assert_eq!(created.new_account_set.code, code("1"));
    assert!(chart
        .create_node_without_verifying_parent_as(ids(2), &spec(None, "1"), JOURNAL)
        .was_already_applied());
    assert_eq!(chart.chart_nodes.iter_new().len(), 1);
    chart.mark_stored();
    assert!(chart
        .create_node_with_existing_children_as(ids(3), &spec(None, "1"), JOURNAL, vec![])
        .was_already_applied());
    assert_eq!(chart.chart_nodes.iter_persisted().len(), 1);
}

#[test]
fn an_account_is_created_above_others() {
    let mut chart = small_chart();
    let created = chart
        .create_node_with_existing_children(&spec(None, "9"), JOURNAL, vec![ChartNodeId(3)])
        .expect("new account");
    let at = chart.chart_nodes.iter_new().len() - 1;
    assert_eq!(chart.chart_nodes.iter_new()[at].id, created.node_id);
    assert_eq!(created.new_account_set.code, code("9"));
    chart.mark_stored();
    assert_eq!(
        chart.children(&code("9")),
        vec![(code("1.1.1"), CalaAccountSetId(1003))]
    );
}

#[test]
fn only_a_stored_parent_takes_a_created_child() {
    let mut chart = empty_chart();
    let _ = chart.create_node_without_verifying_parent_as(ids(1), &spec(None, "1"), JOURNAL);
    let pending = chart
        .create_node_without_verifying_parent_as(ids(2), &spec(Some("1"), "1.1"), JOURNAL)
        .expect("new account");
    assert_eq!(pending.parent_account_set_id, chart.account_set_id);
    chart.mark_stored();
    let stored = chart
        .create_node_without_verifying_parent_as(ids(3), &spec(Some("1"), "1.2"), JOURNAL)
        .expect("new account");
    assert_eq!(stored.parent_account_set_id, CalaAccountSetId(1001));
    chart.mark_stored();
    assert_eq!(
        chart.children(&code("1")),
        vec![(code("1.2"), CalaAccountSetId(1003))]
    );
}

#[test]
fn a_child_has_the_side_of_its_parent() {
    let mut chart = empty_chart();
    let mut credit = spec(None, "2");
    credit.normal_balance_type = DebitOrCredit::Credit;
    let _ = chart.create_node_without_verifying_parent_as(ids(1), &credit, JOURNAL);
    chart.mark_stored();
    let created = chart
        .create_child_node_as(
            ids(2),
            code("2"),
            code("2.1"),
            "Loans".parse().unwrap(),
            JOURNAL,
        )
        .unwrap()
        .expect("new account");
    assert_eq!(
        created.new_account_set.normal_balance_type,
        DebitOrCredit::Credit
    );
    assert_eq!(created.new_account_set.name.as_str(), "Loans");
    assert_eq!(created.parent_account_set_id, CalaAccountSetId(1001));
    assert_eq!(
        chart
            .create_child_node(code("2"), code("3.1"), "Odd".parse().unwrap(), JOURNAL)
            .unwrap_err(),
        ChartOfAccountsError::AccountCodeParseError(AccountCodeParseError::InvalidParent)
    );
    assert_eq!(
        chart
            .create_child_node(code("7"), code("7.1"), "Odd".parse().unwrap(), JOURNAL)
            .unwrap_err(),
        ChartOfAccountsError::ParentAccountNotFound("7".to_string())
    );
}

#[test]
fn ancestors_come_from_the_nearest_to_the_root() {
    let chart = small_chart();
    assert!(chart.has_finite_ancestry(&code("1.1.1")));
    assert_eq!(
        chart.ancestors::<CalaAccountSetId>(&code("1.1.1")),
        vec![CalaAccountSetId(1002), CalaAccountSetId(1001)]
    );
    assert_eq!(
        chart.ancestor_account_sets(&code("1.1")),
        vec![CalaAccountSetId(1001)]
    );
    assert!(chart.ancestor_account_sets(&code("1")).is_empty());
    assert!(chart.ancestor_account_sets(&code("9")).is_empty());
}

#[test]
fn parents_in_a_circle_are_noticed() {
    let mut chart = empty_chart();
    let _ = chart.create_node_without_verifying_parent_as(ids(1), &spec(Some("2"), "1"), JOURNAL);
    let _ = chart.create_node_without_verifying_parent_as(ids(2), &spec(Some("1"), "2"), JOURNAL);
    assert!(!chart.has_finite_ancestry(&code("1")));
    chart.mark_stored();
    assert!(!chart.has_finite_ancestry(&code("2")));
    assert!(chart.chart().children.is_empty());
}

#[test]
fn children_are_listed_with_their_account_sets() {
    let chart = small_chart();
    assert_eq!(
        chart.children(&code("1")),
        vec![(code("1.1"), CalaAccountSetId(1002))]
    );
    assert!(chart.children(&code("1.1.1")).is_empty());
    assert!(chart.children(&code("8")).is_empty());
}

#[test]
fn a_parent_takes_no_manual_transactions() {
    let mut chart = small_chart();
    assert_eq!(
        chart
            .manual_transaction_account(AccountIdOrCode::Code(code("1.1")))
            .unwrap_err(),
        ChartOfAccountsError::NonLeafAccount("1.1".to_string())
    );
    let found = chart
        .manual_transaction_account_as(
            LedgerAccountId(50),
            AccountIdOrCode::Code(code("1.1.1")),
        )
        .unwrap();
    match found {
        ManualAccountFromChart::NewAccount((set, account)) => {
            assert_eq!(set, CalaAccountSetId(1003));
            assert_eq!(account.id, LedgerAccountId(50));
            assert_eq!(account.code, code("1.1.1"));
            assert_eq!(account.chart_id, ChartId(5));
        }
        other => panic!("{other:?}"),
    }
    // A child of the leaf makes it a parent, and its account unusable.
    let _ = chart.create_node_without_verifying_parent_as(
        ids(4),
        &spec(Some("1.1.1"), "1.1.1.1"),
        JOURNAL,
    );
    assert_eq!(
        chart
            .manual_transaction_account(AccountIdOrCode::Id(LedgerAccountId(50)))
            .unwrap_err(),
        ChartOfAccountsError::NonLeafAccount("1.1.1".to_string())
    );
}

#[test]
fn an_assigned_account_answers_through_other_calls() {
    let mut chart = small_chart();
    let _ = chart.create_node_without_verifying_parent_as(ids(4), &spec(None, "2"), JOURNAL);
    chart.mark_stored();
    let assign = |chart: &mut Chart, id: u128, account: AccountIdOrCode| {
        chart.manual_transaction_account_as(LedgerAccountId(id), account)
    };
    assert!(matches!(
        assign(&mut chart, 50, AccountIdOrCode::Code(code("1.1.1"))),
        Ok(ManualAccountFromChart::NewAccount(_))
    ));
    assert!(matches!(
        assign(&mut chart, 51, AccountIdOrCode::Code(code("2"))),
        Ok(ManualAccountFromChart::NewAccount(_))
    ));
    assert!(assign(&mut chart, 52, AccountIdOrCode::Code(code("9"))).is_err());
    assert!(assign(&mut chart, 53, AccountIdOrCode::Id(LedgerAccountId(99))).is_ok());
    let _ = chart.close_as_of(day(2025, 1, 31));
    let _ = chart.create_node_without_verifying_parent_as(ids(5), &spec(Some("2"), "2.1"), JOURNAL);
    chart.mark_stored();
    match assign(&mut chart, 54, AccountIdOrCode::Id(LedgerAccountId(50))) {
        Ok(ManualAccountFromChart::IdInChart(id)) => assert_eq!(id, LedgerAccountId(50)),
        other => panic!("{other:?}"),
    }
    assert_eq!(
        assign(&mut chart, 55, AccountIdOrCode::Id(LedgerAccountId(51))).unwrap_err(),
        ChartOfAccountsError::NonLeafAccount("2".to_string())
    );
    let _ = chart
        .create_child_node_as(
            ids(6),
            code("1.1.1"),
            code("1.1.1.1"),
            "Till".parse().unwrap(),
            JOURNAL,
        )
        .unwrap();
    chart.mark_stored();
    assert_eq!(
        assign(&mut chart, 56, AccountIdOrCode::Id(LedgerAccountId(50))).unwrap_err(),
        ChartOfAccountsError::NonLeafAccount("1.1.1".to_string())
    );
}

#[test]
fn children_are_those_whose_first_ancestor_it_is() {
    let mut chart = small_chart();
    for (n, (parent, account)) in [("1", "1.2"), ("1.1", "1.1.2"), ("1", "1.3")]
        .into_iter()
        .enumerate()
    {
        let _ = chart
            .create_child_node_as(
                ids(n as u128 + 10),
                code(parent),
                code(account),
                "Child".parse().unwrap(),
                JOURNAL,
            )
            .unwrap();
        chart.mark_stored();
    }
    let all = ["1", "1.1", "1.1.1", "1.2", "1.1.2", "1.3"];
    for asked in all {
        let set = chart.account_set_id_from_code(&code(asked)).unwrap();
        let expected: Vec<(AccountCode, CalaAccountSetId)> = all
            .iter()
            .filter(|other| {
                chart.ancestors::<CalaAccountSetId>(&code(other)).first() == Some(&set)
            })
            .map(|other| {
                (
                    code(other),
                    chart.account_set_id_from_code(&code(other)).unwrap(),
                )
            })
            .collect();
        assert_eq!(chart.children(&code(asked)), expected, "{asked}");
    }
    assert!(chart.children(&code("7")).is_empty());
}

#[test]
fn the_tree_lists_what_is_below_an_account() {
    let mut chart = small_chart();
    let _ = chart.create_node_without_verifying_parent_as(ids(4), &spec(Some("1"), "1.2"), JOURNAL);
    let _ = chart.create_node_without_verifying_parent_as(ids(5), &spec(None, "2"), JOURNAL);
    chart.mark_stored();
    let listed: Vec<String> = chart
        .account_sets_under_code(&code("1"))
        .into_iter()
        .map(|member| member.code.to_string())
        .collect();
    assert_eq!(listed, vec!["1.1", "1.1.1", "1.2"]);
    assert!(chart.account_sets_under_code(&code("2")).is_empty());
    assert!(chart.account_sets_under_code(&code("7")).is_empty());
    let tree = chart.chart();
    assert_eq!(tree.children.len(), 2);
    let found = tree.find_node_by_code(&code("1.1")).unwrap();
    assert_eq!(found.id, CalaAccountSetId(1002));
    assert_eq!(found.descendant_account_sets().len(), 1);
    assert_eq!(found.descendant_account_sets()[0].0, CalaAccountSetId(1003));
}

#[test]
fn an_import_creates_children_before_parents() {
    let mut chart = empty_chart();
    let three: Vec<NewNodeIds> = (1..=3).map(ids).collect();
    let result = chart.import_accounts_as(
        &three,
        vec![
            spec(None, "1"),
            spec(Some("1"), "1.1"),
            spec(Some("1.1"), "1.1.1"),
        ],
        JOURNAL,
    );
    let created: Vec<String> = result
        .new_account_sets
        .iter()
        .map(|set| set.code.to_string())
        .collect();
    assert_eq!(created, vec!["1.1.1", "1.1", "1"]);
    assert_eq!(
        result.new_account_set_ids,
        vec![
            CalaAccountSetId(1001),
            CalaAccountSetId(1002),
            CalaAccountSetId(1003)
        ]
    );
    assert_eq!(
        result.new_connections,
        vec![
            (CalaAccountSetId(1002), CalaAccountSetId(1001)),
            (CalaAccountSetId(1003), CalaAccountSetId(1002)),
            (CalaAccountSetId(6), CalaAccountSetId(1003)),
        ]
    );
    chart.mark_stored();
    assert_eq!(
        chart.children(&code("1.1")),
        vec![(code("1.1.1"), CalaAccountSetId(1001))]
    );
    assert_eq!(
        chart.children(&code("1")),
        vec![(code("1.1"), CalaAccountSetId(1002))]
    );
}

#[test]
fn an_import_happens_once() {
    let mut chart = configured_chart();
    let result = chart.import_accounts(config_specs(), JOURNAL);
    assert!(result.new_account_sets.is_empty());
    assert!(result.new_account_set_ids.is_empty());
    assert!(result.new_connections.is_empty());
    assert_eq!(chart.chart_nodes.iter_persisted().len(), 8);
    assert!(chart.chart_nodes.iter_new().is_empty());
}

#[test]
fn an_import_enters_children_at_stored_parents() {
    let mut chart = small_chart();
    let two: Vec<NewNodeIds> = (8..=9).map(ids).collect();
    let result = chart.import_accounts_as(
        &two,
        vec![spec(Some("1"), "1.5"), spec(Some("1"), "1.1")],
        JOURNAL,
    );
    assert_eq!(
        result.new_connections,
        vec![(CalaAccountSetId(1001), CalaAccountSetId(1008))]
    );
    chart.mark_stored();
    assert_eq!(
        chart.children(&code("1")),
        vec![
            (code("1.1"), CalaAccountSetId(1002)),
            (code("1.5"), CalaAccountSetId(1008))
        ]
    );
}

#[test]
fn a_code_that_is_imported_twice_counts_once() {
    let mut chart = empty_chart();
    let mut second = spec(None, "1");
    second.normal_balance_type = DebitOrCredit::Credit;
    let two: Vec<NewNodeIds> = (1..=2).map(ids).collect();
    let result = chart.import_accounts_as(&two, vec![spec(None, "1"), second], JOURNAL);
    assert_eq!(result.new_account_sets.len(), 1);
    assert_eq!(
        result.new_account_sets[0].normal_balance_type,
        DebitOrCredit::Debit
    );
}

#[test]
fn accounts_stay_when_the_configuration_does_not_fit() {
    let mut chart = empty_chart();
    let specs = vec![spec(None, "1"), spec(Some("1"), "2")];
    let err = chart
        .configure_with_initial_accounts(specs, config(), JOURNAL)
        .unwrap_err();
    assert_eq!(
        err,
        ChartOfAccountsError::AccountCodeHasInvalidParent("2".to_string())
    );
    assert!(chart.maybe_account_set_id_from_code(&code("1")).is_some());
    assert!(chart.accounting_base_config().is_none());
    assert!(chart.resolve_accounting_base_config().is_none());
}

#[test]
fn a_configuration_is_resolved() {
    let chart = configured_chart();
    assert!(chart.is_usable());
    let resolved = chart.resolve_accounting_base_config().unwrap();
    // In import order the accounts are 6, 5, 4, 3.2, 3.1, 3, 2, 1.
    assert_eq!(resolved.expenses, CalaAccountSetId(1001));
    assert_eq!(resolved.cost_of_revenue, CalaAccountSetId(1002));
    assert_eq!(resolved.revenue, CalaAccountSetId(1003));
    assert_eq!(resolved.equity_retained_earnings_loss, CalaAccountSetId(1004));
    assert_eq!(resolved.equity_retained_earnings_gain, CalaAccountSetId(1005));
    assert_eq!(resolved.equity, CalaAccountSetId(1006));
    assert_eq!(resolved.liabilities, CalaAccountSetId(1007));
    assert_eq!(resolved.assets, CalaAccountSetId(1008));
    assert!(resolved.config.same(&config()));
}

#[test]
fn a_category_has_the_code_of_the_configuration() {
    let chart = configured_chart();
    assert_eq!(
        chart.code_for_category(AccountCategory::Expense).unwrap(),
        &code("6")
    );
    assert_eq!(
        chart
            .code_for_category(AccountCategory::OffBalanceSheet)
            .unwrap_err(),
        ChartOfAccountsError::AccountCategoryNotSupported(AccountCategory::OffBalanceSheet)
    );
    assert_eq!(
        empty_chart()
            .code_for_category(AccountCategory::Expense)
            .unwrap_err(),
        ChartOfAccountsError::BaseConfigNotInitialized
    );
}

#[test]
fn a_chart_is_closed_once_for_a_day() {
    let mut chart = empty_chart();
    assert_eq!(
        chart.close_as_of(day(2025, 1, 31)),
        Idempotent::Executed(day(2025, 1, 31))
    );
    assert!(chart.close_as_of(day(2025, 1, 31)).was_already_applied());
    assert!(chart.close_as_of(day(2025, 2, 28)).did_execute());
    assert_eq!(chart.events.len(), 3);
}

#[test]
fn a_closing_transaction_is_posted_in_order() {
    let mut chart = configured_chart();
    let details = |posted_as_of: Date| ClosingTxDetails {
        description: "Year end".to_string(),
        posted_as_of,
    };
    let codes = || ClosingAccountCodes::from_base_config(&config());
    let posted = chart
        .post_closing_tx_as_of(codes(), details(day(2025, 12, 31)))
        .unwrap()
        .expect("first posting");
    assert_eq!(posted.posted_as_of(), day(2025, 12, 31));
    assert_eq!(posted.parent_ids.revenue, CalaAccountSetId(1003));
    assert_eq!(posted.parent_ids.cost_of_revenue, CalaAccountSetId(1002));
    assert_eq!(posted.parent_ids.expenses, CalaAccountSetId(1001));
    assert_eq!(
        posted.parent_ids.equity_retained_earnings,
        CalaAccountSetId(1005)
    );
    assert_eq!(
        posted.parent_ids.equity_retained_losses,
        CalaAccountSetId(1004)
    );
    assert!(chart
        .post_closing_tx_as_of(codes(), details(day(2025, 12, 31)))
        .unwrap()
        .was_already_applied());
    assert!(chart
        .post_closing_tx_as_of(codes(), details(day(2026, 12, 31)))
        .unwrap()
        .did_execute());
    assert_eq!(
        empty_chart()
            .post_closing_tx_as_of(codes(), details(day(2025, 12, 31)))
            .unwrap_err(),
        ChartOfAccountsError::CodeNotFoundInChart(code("4"))
    );
}

#[test]
fn two_accounts_with_one_code_are_noticed() {
    let mut chart = small_chart();
    let mut twin = chart.chart_nodes.iter_persisted()[0].clone();
    twin.id = ChartNodeId(99);
    chart.load_nodes(vec![twin]);
    assert!(!chart.is_usable());
}

#[test]
fn a_configuration_without_its_accounts_is_noticed() {
    let chart = Chart::try_from_events(configured_chart().events).unwrap();
    assert!(!chart.is_usable());
}
