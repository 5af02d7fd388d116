use chrono::Datelike;
use core_accounting::primitives::{
    AccountCategory, AccountCode, AccountCodeParseError, AccountCodeSection,
    AccountCodeSectionParseError, AccountName, AccountNameParseError, AccountSpec,
    AccountingBaseConfig, ClosingAccountCodes, Date, DebitOrCredit,
};

fn code(s: &str) -> AccountCode {
    s.parse::<AccountCode>().unwrap()
}

fn sections(parts: &[&str]) -> Vec<AccountCodeSection> {
    parts.iter().map(|part| part.parse().unwrap()).collect()
}

fn config() -> AccountingBaseConfig {
    AccountingBaseConfig {
        assets_code: code("1"),
        liabilities_code: code("2"),
        equity_code: code("3"),
        equity_retained_earnings_gain_code: code("3.1"),
        equity_retained_earnings_loss_code: code("3.2"),
        revenue_code: code("4"),
        cost_of_revenue_code: code("5"),
        expenses_code: code("6"),
    }
}

#[test]
fn a_code_reads_back_from_its_text() {
    let code: AccountCode = "1.10.3".parse().unwrap();
    assert_eq!(code.to_string(), "1.10.3");
    assert_eq!(code, AccountCode::new(sections(&["1", "10", "3"])));
    assert_eq!(code.len_sections(), 3);
}

#[test]
fn sections_hold_digits_only() {
    assert_eq!(
        "".parse::<AccountCodeSection>(),
        Err(AccountCodeSectionParseError::Empty)
    );
    assert_eq!(
        "1a".parse::<AccountCodeSection>(),
        Err(AccountCodeSectionParseError::NonDigit)
    );
    assert_eq!("042".parse::<AccountCodeSection>().unwrap().as_str(), "042");
}

#[test]
fn texts_that_are_no_codes_are_refused() {
    for text in ["1.", ".1", "1..1", "a", "1.b", "."] {
        assert_eq!(
            text.parse::<AccountCode>(),
            Err(AccountCodeParseError::InvalidSection),
            "{text}"
        );
    }
}

#[test]
fn the_empty_text_is_the_code_without_sections() {
    let empty = code("");
    assert_eq!(empty.len_sections(), 0);
    assert_eq!(empty.to_string(), "");
    assert_eq!(empty, AccountCode::without_sections());
}

#[test]
fn a_parent_code_is_a_proper_beginning() {
    assert!(code("1").is_parent_of(&code("1.2")));
    assert!(code("1").is_parent_of(&code("1.2.3")));
    assert!(!code("1").is_parent_of(&code("1")));
    assert!(!code("1").is_parent_of(&code("11")));
    assert!(!code("1.2").is_parent_of(&code("1")));
    assert!(!code("").is_parent_of(&code("1")));
}

#[test]
fn a_parent_code_comes_first() {
    assert!(code("1").precedes(&code("1.2")));
    assert!(!code("1.2").precedes(&code("1")));
    assert!(code("1.10").precedes(&code("1.2")));
    assert!(code("1.2").precedes(&code("2")));
    assert!(!code("2").precedes(&code("2")));
}

#[test]
fn a_name_may_not_be_empty() {
    assert_eq!("".parse::<AccountName>(), Err(AccountNameParseError::Empty));
    assert_eq!("Cash".parse::<AccountName>().unwrap().as_str(), "Cash");
    assert_eq!(" ".parse::<AccountName>().unwrap().as_str(), " ");
}

#[test]
fn an_account_has_a_parent_code_above_it() {
    let name: AccountName = "Cash".parse().unwrap();
    let spec = AccountSpec::try_new(
        Some(code("1")),
        sections(&["1", "2"]),
        name.clone(),
        DebitOrCredit::Debit,
    )
    .unwrap();
    assert!(spec.has_parent(&code("1")));
    assert!(!spec.has_parent(&code("2")));
    assert_eq!(spec.parent_code(), Some(code("1")));
    assert_eq!(
        AccountSpec::try_new(
            Some(code("2")),
            sections(&["1", "2"]),
            name.clone(),
            DebitOrCredit::Debit
        )
        .unwrap_err(),
        AccountCodeParseError::InvalidParent
    );
    assert_eq!(
        AccountSpec::try_new(Some(code("1")), sections(&["1"]), name, DebitOrCredit::Debit)
            .unwrap_err(),
        AccountCodeParseError::InvalidParent
    );
}

#[test]
fn an_account_is_in_the_category_of_the_code_above_it() {
    let config = config();
    assert!(config.is_account_in_category(&code("3.1.7"), AccountCategory::Equity));
    assert!(config.is_account_in_category(&code("3"), AccountCategory::Equity));
    assert!(!config.is_account_in_category(&code("31"), AccountCategory::Equity));
    assert!(config.is_account_in_category(&code("31"), AccountCategory::OffBalanceSheet));
    assert!(!config.is_account_in_category(&code("6.1"), AccountCategory::OffBalanceSheet));
    assert!(config.code_for_category(AccountCategory::OffBalanceSheet).is_none());
    assert_eq!(
        config.code_for_category(AccountCategory::CostOfRevenue),
        Some(&code("5"))
    );
}

#[test]
fn configurations_are_the_same_when_all_codes_are() {
    let mut other = config();
    assert!(config().same(&other));
    other.equity_retained_earnings_gain_code = code("3.2");
    assert!(!config().same(&other));
}

#[test]
fn closing_codes_come_from_the_configuration() {
    let codes = ClosingAccountCodes::from_base_config(&config());
    assert_eq!(codes.revenue, code("4"));
    assert_eq!(codes.cost_of_revenue, code("5"));
    assert_eq!(codes.expenses, code("6"));
    assert_eq!(codes.equity_retained_earnings, code("3.1"));
    assert_eq!(codes.equity_retained_losses, code("3.2"));
}

#[test]
fn days_come_in_the_order_of_the_calendar() {
    let day = |text: &str| {
        let day: chrono::NaiveDate = text.parse().unwrap();
        Date {
            year: day.year(),
            month: day.month(),
            day: day.day(),
        }
    };
    let days = ["2024-12-31", "2025-01-01", "2025-01-31", "2025-02-01"];
    for (i, a) in days.iter().enumerate() {
        for (j, b) in days.iter().enumerate() {
            let before = a.parse::<chrono::NaiveDate>().unwrap()
                < b.parse::<chrono::NaiveDate>().unwrap();
            assert_eq!(day(a).precedes(&day(b)), before);
            assert_eq!(before, i < j);
        }
    }
}
