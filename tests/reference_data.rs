use tax_core::decimal::Decimal;
use tax_core::db::{DbConfig, SqliteRepositoryFactory};
use tax_core::models::FilingStatusCode;
use tax_core::ui::{
    get_available_tax_years, get_se_config, owned_filters, EstimateForm, FilingStatus, KeyHint,
    Screen,
};

#[test]
fn test_filing_status_to_id_single() {
    assert_eq!(FilingStatusCode::filing_status_to_id(FilingStatusCode::Single), 1);
}

#[test]
fn test_filing_status_to_id_married_joint() {
    assert_eq!(
        FilingStatusCode::filing_status_to_id(FilingStatusCode::MarriedFilingJointly),
        2
    );
}

#[test]
fn test_filing_status_to_id_married_separate() {
    assert_eq!(
        FilingStatusCode::filing_status_to_id(FilingStatusCode::MarriedFilingSeparately),
        3
    );
}

#[test]
fn test_filing_status_to_id_head_of_household() {
    assert_eq!(
        FilingStatusCode::filing_status_to_id(FilingStatusCode::HeadOfHousehold),
        4
    );
}

#[test]
fn test_filing_status_to_id_qualifying() {
    assert_eq!(
        FilingStatusCode::filing_status_to_id(FilingStatusCode::QualifyingSurvivingSpouse),
        5
    );
}

#[test]
fn filing_status_code_round_trips_through_its_short_code() {
    for code in [
        FilingStatusCode::Single,
        FilingStatusCode::MarriedFilingJointly,
        FilingStatusCode::MarriedFilingSeparately,
        FilingStatusCode::HeadOfHousehold,
        FilingStatusCode::QualifyingSurvivingSpouse,
    ] {
        assert_eq!(FilingStatusCode::parse(code.as_str()), Some(code));
    }
    assert_eq!(FilingStatusCode::parse("X"), None);
    assert_eq!(FilingStatusCode::parse("mfj"), None);
    assert_eq!(FilingStatusCode::HeadOfHousehold.to_long_str(), "Head of Household");
    assert_eq!(FilingStatusCode::default(), FilingStatusCode::Single);
}

#[test]
fn dbconfig_default_is_sqlite_memory() {
    let cfg = DbConfig::default();
    assert_eq!(cfg.backend, "sqlite");
    assert_eq!(cfg.connection_string, ":memory:");
}

#[test]
fn backend_name_is_sqlite() {
    assert_eq!(SqliteRepositoryFactory.backend_name(), "sqlite");
}

#[test]
fn available_tax_years_are_newest_first() {
    assert_eq!(get_available_tax_years(), vec![2026, 2025, 2024, 2023]);
}

#[test]
fn form_filing_statuses_have_ids_and_labels() {
    let all = FilingStatus::all();
    assert_eq!(all.len(), 5);
    let ids: Vec<i32> = all.iter().map(|s| s.id()).collect();
    assert_eq!(ids, vec![1, 2, 3, 4, 5]);
    assert_eq!(FilingStatus::QualifyingWidow.label(), "Qualifying Widow(er)");
    assert_eq!(FilingStatus::default(), FilingStatus::Single);
    assert_eq!(Screen::default(), Screen::Main);
}

#[test]
fn new_estimate_form_is_blank() {
    let form = EstimateForm::new();
    assert_eq!(form.tax_year, 2025);
    assert_eq!(form.filing_status, FilingStatus::Single);
    assert_eq!(form.expected_deduction, "14600");
    assert!(form.expected_agi.is_empty());
    assert!(form.errors.is_empty());
}

#[test]
fn key_hint_keeps_key_and_action() {
    let hint = KeyHint::new("Esc", "Back");
    assert_eq!(hint.key, "Esc");
    assert_eq!(hint.action, "Back");
}

#[test]
fn owned_filters_copies_names_and_extensions() {
    let excel: &[&str] = &["xlsx", "xlsm"];
    let csv: &[&str] = &["csv"];
    let filters = owned_filters(&[("Excel", excel), ("CSV", csv)]);
    assert_eq!(filters.len(), 2);
    assert_eq!(filters[0].0, "Excel");
    assert_eq!(filters[0].1, vec!["xlsx", "xlsm"]);
    assert_eq!(filters[1].0, "CSV");
    assert_eq!(filters[1].1, vec!["csv"]);
}

#[test]
fn se_config_per_year() {
    assert_eq!(get_se_config(2026).ss_wage_max, Decimal::new(180000, 0));
    assert_eq!(get_se_config(2025).ss_wage_max, Decimal::new(176100, 0));
    assert_eq!(get_se_config(2024).ss_wage_max, Decimal::new(168600, 0));
    assert_eq!(get_se_config(2019).ss_wage_max, Decimal::new(160200, 0));
    assert_eq!(get_se_config(2025).net_earnings_factor, Decimal::new(9235, 4));
}
