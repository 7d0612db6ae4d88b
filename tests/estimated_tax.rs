use tax_core::decimal::Decimal;
use tax_core::est_tax::{EstimatedTaxWorksheet, EstimatedTaxWorksheetError, EstimatedTaxWorksheetInput, EstimatedTaxWorksheetResult};
use tax_core::models::TaxBracket;




fn test_brackets_single() -> Vec<TaxBracket> {
    vec![
        TaxBracket {
            tax_year: 2025,
            filing_status_id: 1,
            min_income: Decimal::new(0, 0),
            max_income: Some(Decimal::new(11925, 0)),
            tax_rate: Decimal::new(10, 2),
            base_tax: Decimal::new(0, 0),
        },
        TaxBracket {
            tax_year: 2025,
            filing_status_id: 1,
            min_income: Decimal::new(11925, 0),
            max_income: Some(Decimal::new(48475, 0)),
            tax_rate: Decimal::new(12, 2),
            base_tax: Decimal::new(119250, 2),
        },
        TaxBracket {
            tax_year: 2025,
            filing_status_id: 1,
            min_income: Decimal::new(48475, 0),
            max_income: Some(Decimal::new(103350, 0)),
            tax_rate: Decimal::new(22, 2),
            base_tax: Decimal::new(557850, 2),
        },
        TaxBracket {
            tax_year: 2025,
            filing_status_id: 1,
            min_income: Decimal::new(103350, 0),
            max_income: Some(Decimal::new(197300, 0)),
            tax_rate: Decimal::new(24, 2),
            base_tax: Decimal::new(17651, 0),
        },
        TaxBracket {
            tax_year: 2025,
            filing_status_id: 1,
            min_income: Decimal::new(197300, 0),
            max_income: Some(Decimal::new(250525, 0)),
            tax_rate: Decimal::new(32, 2),
            base_tax: Decimal::new(40199, 0),
        },
        TaxBracket {
            tax_year: 2025,
            filing_status_id: 1,
            min_income: Decimal::new(250525, 0),
            max_income: Some(Decimal::new(626350, 0)),
            tax_rate: Decimal::new(35, 2),
            base_tax: Decimal::new(57231, 0),
        },
        TaxBracket {
            tax_year: 2025,
            filing_status_id: 1,
            min_income: Decimal::new(626350, 0),
            max_income: None,
            tax_rate: Decimal::new(37, 2),
            base_tax: Decimal::new(18876975, 2),
        },
    ]
}

fn test_input() -> EstimatedTaxWorksheetInput {
    EstimatedTaxWorksheetInput {
        adjusted_gross_income: Decimal::new(10000000, 2),
        itemized_deduction: Decimal::new(0, 2),
        standard_deduction: Decimal::new(1500000, 2),
        qbi_deduction: Decimal::new(0, 2),
        alternative_minimum_tax: Decimal::new(0, 2),
        credits: Decimal::new(0, 2),
        self_employment_tax: Decimal::new(0, 2),
        other_taxes: Decimal::new(0, 2),
        refundable_credits: Decimal::new(0, 2),
        prior_year_tax: Decimal::new(1200000, 2),
        withholding: Decimal::new(0, 2),
        is_farmer_or_fisher: false,
        required_payment_threshold: Decimal::new(100000, 2),
    }
}

// =========================================================================
// determine_deduction tests
// =========================================================================

#[test]
fn determine_deduction_uses_itemized_when_positive() {
    let brackets = test_brackets_single();
    let worksheet = EstimatedTaxWorksheet::new(&brackets);

    let (deduction, used_itemized) =
        worksheet.determine_deduction(Decimal::new(2000000, 2), Decimal::new(1500000, 2));

    assert_eq!(deduction, Decimal::new(2000000, 2));
    assert!(used_itemized);
}

#[test]
fn determine_deduction_uses_standard_when_itemized_zero() {
    let brackets = test_brackets_single();
    let worksheet = EstimatedTaxWorksheet::new(&brackets);

    let (deduction, used_itemized) = worksheet.determine_deduction(Decimal::new(0, 2), Decimal::new(1500000, 2));

    assert_eq!(deduction, Decimal::new(1500000, 2));
    assert!(!used_itemized);
}

#[test]
fn determine_deduction_uses_standard_when_itemized_negative() {
    let brackets = test_brackets_single();
    let worksheet = EstimatedTaxWorksheet::new(&brackets);

    let (deduction, used_itemized) =
        worksheet.determine_deduction(Decimal::new(-10000, 2), Decimal::new(1500000, 2));

    assert_eq!(deduction, Decimal::new(1500000, 2));
    assert!(!used_itemized);
}

// =========================================================================
// total_deductions tests
// =========================================================================

#[test]
fn total_deductions_adds_deduction_and_qbi() {
    let brackets = test_brackets_single();
    let worksheet = EstimatedTaxWorksheet::new(&brackets);

    let result = worksheet.total_deductions(Decimal::new(1500000, 2), Decimal::new(500000, 2)).unwrap();

    assert_eq!(result, Decimal::new(2000000, 2));
}

// =========================================================================
// taxable_income tests
// =========================================================================

#[test]
fn taxable_income_subtracts_deductions_from_agi() {
    let brackets = test_brackets_single();
    let worksheet = EstimatedTaxWorksheet::new(&brackets);

    let result = worksheet.taxable_income(Decimal::new(10000000, 2), Decimal::new(1500000, 2)).unwrap();

    assert_eq!(result, Decimal::new(8500000, 2));
}

#[test]
fn taxable_income_returns_zero_when_deductions_exceed_agi() {
    let brackets = test_brackets_single();
    let worksheet = EstimatedTaxWorksheet::new(&brackets);

    let result = worksheet.taxable_income(Decimal::new(1000000, 2), Decimal::new(1500000, 2)).unwrap();

    assert_eq!(result, Decimal::new(0, 2));
}

// =========================================================================
// calculate_tax tests
// =========================================================================

#[test]
fn calculate_tax_returns_zero_for_zero_income() {
    let brackets = test_brackets_single();
    let worksheet = EstimatedTaxWorksheet::new(&brackets);

    let result = worksheet.calculate_tax(Decimal::new(0, 2));

    assert_eq!(result, Ok(Decimal::new(0, 2)));
}

#[test]
fn calculate_tax_first_bracket() {
    let brackets = test_brackets_single();
    let worksheet = EstimatedTaxWorksheet::new(&brackets);

    let result = worksheet.calculate_tax(Decimal::new(1000000, 2));

    assert_eq!(result, Ok(Decimal::new(100000, 2)));
}

#[test]
fn calculate_tax_second_bracket() {
    let brackets = test_brackets_single();
    let worksheet = EstimatedTaxWorksheet::new(&brackets);

    let result = worksheet.calculate_tax(Decimal::new(3000000, 2));

    // Tax = 1192.50 + (30000 - 11925) * 0.12 = 1192.50 + 2169 = 3361.50
    assert_eq!(result, Ok(Decimal::new(336150, 2)));
}

#[test]
fn calculate_tax_third_bracket() {
    let brackets = test_brackets_single();
    let worksheet = EstimatedTaxWorksheet::new(&brackets);

    let result = worksheet.calculate_tax(Decimal::new(8500000, 2));

    // Tax = 5578.50 + (85000 - 48475) * 0.22 = 5578.50 + 8035.50 = 13614
    assert_eq!(result, Ok(Decimal::new(1361400, 2)));
}

#[test]
fn calculate_tax_highest_bracket() {
    let brackets = test_brackets_single();
    let worksheet = EstimatedTaxWorksheet::new(&brackets);

    let result = worksheet.calculate_tax(Decimal::new(70000000, 2));

    // Tax = 188769.75 + (700000 - 626350) * 0.37 = 188769.75 + 27250.50 = 216020.25
    assert_eq!(result, Ok(Decimal::new(21602025, 2)));
}

#[test]
fn calculate_tax_returns_error_for_empty_brackets() {
    let brackets: Vec<TaxBracket> = vec![];
    let worksheet = EstimatedTaxWorksheet::new(&brackets);
    let input = test_input();

    let result = worksheet.calculate(&input);

    assert_eq!(result, Err(EstimatedTaxWorksheetError::NoTaxBrackets));
}

// =========================================================================
// tax_after_credits tests
// =========================================================================

#[test]
fn tax_after_credits_subtracts_credits() {
    let brackets = test_brackets_single();
    let worksheet = EstimatedTaxWorksheet::new(&brackets);

    let result = worksheet.tax_after_credits(Decimal::new(1461400, 2), Decimal::new(200000, 2)).unwrap();

    assert_eq!(result, Decimal::new(1261400, 2));
}

#[test]
fn tax_after_credits_returns_zero_when_credits_exceed_tax() {
    let brackets = test_brackets_single();
    let worksheet = EstimatedTaxWorksheet::new(&brackets);

    let result = worksheet.tax_after_credits(Decimal::new(100000, 2), Decimal::new(500000, 2)).unwrap();

    assert_eq!(result, Decimal::new(0, 2));
}

// =========================================================================
// current_year_factor tests
// =========================================================================

#[test]
fn current_year_factor_applies_90_percent() {
    let brackets = test_brackets_single();
    let worksheet = EstimatedTaxWorksheet::new(&brackets);

    let result = worksheet.current_year_factor(Decimal::new(1000000, 2), false).unwrap();

    assert_eq!(result, Decimal::new(900000, 2));
}

#[test]
fn current_year_factor_applies_two_thirds_for_farmer() {
    let brackets = test_brackets_single();
    let worksheet = EstimatedTaxWorksheet::new(&brackets);

    let result = worksheet.current_year_factor(Decimal::new(1000000, 2), true).unwrap();

    assert_eq!(result, Decimal::new(666667, 2));
}

// =========================================================================
// required_annual_payment tests
// =========================================================================

#[test]
fn required_annual_payment_returns_smaller_value() {
    let brackets = test_brackets_single();
    let worksheet = EstimatedTaxWorksheet::new(&brackets);

    let result = worksheet.required_annual_payment(Decimal::new(900000, 2), Decimal::new(1200000, 2));

    assert_eq!(result, Decimal::new(900000, 2));
}

#[test]
fn required_annual_payment_returns_prior_year_when_smaller() {
    let brackets = test_brackets_single();
    let worksheet = EstimatedTaxWorksheet::new(&brackets);

    let result = worksheet.required_annual_payment(Decimal::new(1500000, 2), Decimal::new(1200000, 2));

    assert_eq!(result, Decimal::new(1200000, 2));
}

// =========================================================================
// underpayment tests
// =========================================================================

#[test]
fn underpayment_subtracts_withholding() {
    let brackets = test_brackets_single();
    let worksheet = EstimatedTaxWorksheet::new(&brackets);

    let result = worksheet.underpayment(Decimal::new(1200000, 2), Decimal::new(500000, 2)).unwrap();

    assert_eq!(result, Decimal::new(700000, 2));
}

#[test]
fn underpayment_returns_zero_when_withholding_exceeds() {
    let brackets = test_brackets_single();
    let worksheet = EstimatedTaxWorksheet::new(&brackets);

    let result = worksheet.underpayment(Decimal::new(500000, 2), Decimal::new(1000000, 2)).unwrap();

    assert_eq!(result, Decimal::new(0, 2));
}

// =========================================================================
// are_estimated_payments_required tests
// =========================================================================

#[test]
fn payments_required_when_both_conditions_met() {
    let brackets = test_brackets_single();
    let worksheet = EstimatedTaxWorksheet::new(&brackets);

    let result =
        worksheet.are_estimated_payments_required(Decimal::new(500000, 2), Decimal::new(200000, 2), Decimal::new(100000, 2));

    assert!(result);
}

#[test]
fn payments_not_required_when_underpayment_zero() {
    let brackets = test_brackets_single();
    let worksheet = EstimatedTaxWorksheet::new(&brackets);

    let result =
        worksheet.are_estimated_payments_required(Decimal::new(0, 2), Decimal::new(200000, 2), Decimal::new(100000, 2));

    assert!(!result);
}

#[test]
fn payments_not_required_when_below_threshold() {
    let brackets = test_brackets_single();
    let worksheet = EstimatedTaxWorksheet::new(&brackets);

    let result =
        worksheet.are_estimated_payments_required(Decimal::new(500000, 2), Decimal::new(50000, 2), Decimal::new(100000, 2));

    assert!(!result);
}

// =========================================================================
// calculate (integration) tests
// =========================================================================

#[test]
fn calculate_standard_case() {
    let brackets = test_brackets_single();
    let worksheet = EstimatedTaxWorksheet::new(&brackets);
    let input = test_input();

    let result = worksheet.calculate(&input).unwrap();

    // Taxable income: 100000 - 15000 = 85000
    assert_eq!(result.taxable_income, Decimal::new(8500000, 2));
    // Tax: 5578.50 + (85000 - 48475) * 0.22 = 13614
    assert_eq!(result.calculated_tax, Decimal::new(1361400, 2));
    assert_eq!(result.total_estimated_tax, Decimal::new(1361400, 2));
    // Required: min(13614 * 0.90, 12000) = min(12252.60, 12000) = 12000
    assert_eq!(result.required_annual_payment, Decimal::new(1200000, 2));
    // Underpayment: 12000 - 0 = 12000
    assert_eq!(result.underpayment, Decimal::new(1200000, 2));
    assert!(!result.used_itemized_deduction);
    assert!(result.estimated_payments_required);
}

#[test]
fn calculate_with_itemized_deduction() {
    let brackets = test_brackets_single();
    let worksheet = EstimatedTaxWorksheet::new(&brackets);
    let mut input = test_input();
    input.itemized_deduction = Decimal::new(2000000, 2);

    let result = worksheet.calculate(&input).unwrap();

    // Taxable income: 100000 - 20000 = 80000
    assert_eq!(result.taxable_income, Decimal::new(8000000, 2));
    assert!(result.used_itemized_deduction);
}

#[test]
fn calculate_with_qbi_deduction() {
    let brackets = test_brackets_single();
    let worksheet = EstimatedTaxWorksheet::new(&brackets);
    let mut input = test_input();
    input.qbi_deduction = Decimal::new(500000, 2);

    let result = worksheet.calculate(&input).unwrap();

    // Taxable income: 100000 - 15000 - 5000 = 80000
    assert_eq!(result.taxable_income, Decimal::new(8000000, 2));
}

#[test]
fn calculate_with_withholding_covering_requirement() {
    let brackets = test_brackets_single();
    let worksheet = EstimatedTaxWorksheet::new(&brackets);
    let mut input = test_input();
    input.withholding = Decimal::new(1500000, 2);

    let result = worksheet.calculate(&input).unwrap();

    assert_eq!(result.underpayment, Decimal::new(0, 2));
    assert!(!result.estimated_payments_required);
}

#[test]
fn calculate_below_threshold_no_payments_required() {
    let brackets = test_brackets_single();
    let worksheet = EstimatedTaxWorksheet::new(&brackets);
    let mut input = test_input();
    input.adjusted_gross_income = Decimal::new(3000000, 2);
    input.prior_year_tax = Decimal::new(500000, 2);
    input.withholding = Decimal::new(100000, 2);

    let result = worksheet.calculate(&input).unwrap();

    // Taxable income: 30000 - 15000 = 15000
    // Tax: 1192.50 + (15000 - 11925) * 0.12 = 1561.50
    // Threshold amount: 1561.50 - 1000 = 561.50 (below $1000)
    assert!(!result.estimated_payments_required);
}

#[test]
fn calculate_farmer_uses_two_thirds_factor() {
    let brackets = test_brackets_single();
    let worksheet = EstimatedTaxWorksheet::new(&brackets);
    let mut input = test_input();
    input.is_farmer_or_fisher = true;
    input.prior_year_tax = Decimal::new(2000000, 2);

    let result = worksheet.calculate(&input).unwrap();

    // Total tax: 13614
    // Current year factor: 13614 * (2/3) = 9076
    // Required: min(9076, 20000) = 9076
    assert_eq!(result.required_annual_payment, Decimal::new(907600, 2));
}

#[test]
fn calculate_prior_year_smaller_uses_prior_year() {
    let brackets = test_brackets_single();
    let worksheet = EstimatedTaxWorksheet::new(&brackets);
    let mut input = test_input();
    input.prior_year_tax = Decimal::new(800000, 2);

    let result = worksheet.calculate(&input).unwrap();

    // Current year factor: 13614 * 0.90 = 12252.60
    // Required: min(12252.60, 8000) = 8000
    assert_eq!(result.required_annual_payment, Decimal::new(800000, 2));
    assert_eq!(result.underpayment, Decimal::new(800000, 2));
}

#[test]
fn calculate_with_se_tax() {
    let brackets = test_brackets_single();
    let worksheet = EstimatedTaxWorksheet::new(&brackets);
    let mut input = test_input();
    input.self_employment_tax = Decimal::new(706500, 2);

    let result = worksheet.calculate(&input).unwrap();

    // Total estimated tax: 13614 + 7065 = 20679
    assert_eq!(result.total_estimated_tax, Decimal::new(2067900, 2));
}

#[test]
fn calculate_with_credits() {
    let brackets = test_brackets_single();
    let worksheet = EstimatedTaxWorksheet::new(&brackets);
    let mut input = test_input();
    input.credits = Decimal::new(300000, 2);

    let result = worksheet.calculate(&input).unwrap();

    // Total estimated tax: 13614 - 3000 = 10614
    assert_eq!(result.total_estimated_tax, Decimal::new(1061400, 2));
}

#[test]
fn calculate_credits_exceed_tax() {
    let brackets = test_brackets_single();
    let worksheet = EstimatedTaxWorksheet::new(&brackets);
    let mut input = test_input();
    input.adjusted_gross_income = Decimal::new(5000000, 2);
    input.credits = Decimal::new(1000000, 2);

    let result = worksheet.calculate(&input).unwrap();

    // Tax: about 3961.50, credits 10000 -> 0
    assert_eq!(result.total_estimated_tax, Decimal::new(0, 2));
}

#[test]
fn calculate_low_income_no_tax() {
    let brackets = test_brackets_single();
    let worksheet = EstimatedTaxWorksheet::new(&brackets);
    let mut input = test_input();
    input.adjusted_gross_income = Decimal::new(1000000, 2);

    let result = worksheet.calculate(&input).unwrap();

    // Taxable income: 10000 - 15000 = 0
    assert_eq!(result.taxable_income, Decimal::new(0, 2));
    assert_eq!(result.calculated_tax, Decimal::new(0, 2));
    assert_eq!(result.total_estimated_tax, Decimal::new(0, 2));
}

