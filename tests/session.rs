use tax_core::est_tax::EstimatedTaxWorksheetError;
use tax_core::self_emp::SeWorksheetError;
use tax_core::decimal::Decimal;
use tax_core::models::FilingStatusCode;
use tax_core::self_emp::SeWorksheetResult;
use tax_core::ui::{AppState, EstimatedIncomeModel, MessageType, Screen, TaxApp};

#[test]
fn app_state_starts_empty_and_clears() {
    let mut state = AppState::new(2025);
    assert_eq!(state.tax_year, 2025);
    assert!(!state.has_se_data());
    assert!(!state.has_est_tax_data());
    state.se_income = Some(Decimal::new(5000000, 2));
    state.se_result = Some(SeWorksheetResult::below_threshold(Decimal::new(300, 0)));
    state.est_tax_completed = true;
    assert!(state.has_se_data());
    assert!(state.has_est_tax_data());
    state.clear_estimate();
    assert_eq!(state.tax_year, 2025);
    assert!(state.se_income.is_none());
    assert!(!state.has_se_data());
    assert!(!state.has_est_tax_data());
}

#[test]
fn income_model_summary_and_estimate() {
    let mut model = EstimatedIncomeModel::default();
    model.tax_year = 2025;
    model.filing_status_id = FilingStatusCode::MarriedFilingJointly;
    model.expected_agi = Decimal::new(15000050, 2);
    model.expected_deduction = Decimal::new(29200, 0);
    model.prior_year_tax = Some(Decimal::new(-125, 1));
    assert_eq!(model.validate_for_submit(), Ok(()));
    let summary = model.to_string();
    let lines: Vec<&str> = summary.lines().collect();
    assert_eq!(lines.len(), 13);
    assert_eq!(lines[0], "Tax Year:           2025");
    assert_eq!(lines[1], "Filing status:     Married Filing Jointly");
    assert_eq!(lines[2], "Expected AGI:       150000.5");
    assert_eq!(lines[3], "Expected deduction: 29200");
    assert_eq!(lines[4], "QBI deduction:      \u{2014}");
    assert_eq!(lines[9], "Prior year tax:     -12.5");
    assert_eq!(lines[12], "Wages:              \u{2014}");
    let e = model.to_new_tax_estimate();
    assert_eq!(e.filing_status_id, 2);
    assert_eq!(e.expected_agi, Decimal::new(1500005, 1));
    assert_eq!(e.prior_year_tax, Some(Decimal::new(-1250, 2)));
}

#[test]
fn negative_year_prints_sign() {
    let mut model = EstimatedIncomeModel::default();
    model.tax_year = -7;
    assert!(model.to_string().starts_with("Tax Year:           -7\n"));
}

#[test]
fn worksheet_errors_explain_themselves() {
    assert_eq!(
        SeWorksheetError::InvalidNetEarningsFactor(Decimal::new(15, 1)).message(),
        "net earnings factor must be between 0 and 1, got 1.5"
    );
    assert_eq!(
        SeWorksheetError::InvalidSsWageMax(Decimal::new(-1000, 0)).message(),
        "social security wage maximum must be positive, got -1000"
    );
    assert_eq!(
        EstimatedTaxWorksheetError::NoMatchingBracket(Decimal::new(1500050, 2)).message(),
        "no tax bracket found for taxable income 15000.5"
    );
    assert_eq!(EstimatedTaxWorksheetError::NoTaxBrackets.message(), "no tax brackets provided");
}

#[test]
fn two_place_display_pads_cents() {
    assert_eq!(Decimal::new(1412955, 2).to_string_2dp(), "14129.55");
    assert_eq!(Decimal::new(100, 0).to_string_2dp(), "100.00");
    assert_eq!(Decimal::new(-5, 1).to_string_2dp(), "-0.50");
}

#[test]
fn app_se_calculation_shows_tax() {
    let mut app = TaxApp::new();
    assert_eq!(app.current_screen, Screen::Main);
    app.calculate_se_only();
    assert_eq!(app.status_message, Some(("Please fix validation errors".to_string(), MessageType::Error)));
    assert_eq!(app.results.se_tax, None);
    app.form.se_income = "100,000".to_string();
    app.calculate_se_only();
    assert_eq!(app.status_message, Some(("Please fix validation errors".to_string(), MessageType::Error)));
    app.form.se_income = "100000.00".to_string();
    app.form.expected_wages = "50000".to_string();
    app.calculate_se_only();
    assert_eq!(app.results.se_tax, Some(Decimal::new(1412955, 2)));
    assert_eq!(app.results.se_tax_deduction, Some(Decimal::new(706478, 2)));
    assert_eq!(app.status_message, Some(("SE tax calculated: $14129.55".to_string(), MessageType::Success)));
    app.clear_message();
    assert_eq!(app.status_message, None);
}

#[test]
fn app_full_calculation_fills_results() {
    let mut app = TaxApp::new();
    app.form.expected_agi = "120000".to_string();
    app.calculate();
    assert_eq!(app.status_message, Some(("Calculation complete".to_string(), MessageType::Success)));
    assert_eq!(app.results.se_tax, None);
    assert_eq!(app.results.total_tax, Some(Decimal::new(10000, 0)));
    assert_eq!(app.results.quarterly_payment, Some(Decimal::new(2000, 0)));
    app.form.se_income = "300".to_string();
    app.calculate();
    assert_eq!(app.results.se_tax, Some(Decimal::new(0, 0)));
    app.form.expected_agi = String::new();
    app.calculate();
    assert_eq!(app.status_message, Some(("Please fix validation errors".to_string(), MessageType::Error)));
    assert_eq!(app.form.errors, vec!["Expected AGI is required".to_string()]);
}

#[test]
fn app_reports_se_overflow() {
    let mut app = TaxApp::new();
    app.form.se_income = "999999999999".to_string();
    app.form.expected_crp_payments = "999999999999".to_string();
    app.calculate_se_only();
    assert_eq!(
        app.status_message,
        Some(("SE calculation error: a worksheet line is out of range".to_string(), MessageType::Error))
    );
}
