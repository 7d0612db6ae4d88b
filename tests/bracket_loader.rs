use std::collections::HashSet;

use tax_core::decimal::Decimal;
use tax_core::loader::{schedule_to_filing_status_codes, TaxBracketLoader, TaxBracketLoaderError, TaxBracketRecord};




const TEST_CSV: &str = r#"tax_year,schedule,min_income,max_income,base_tax,rate
2025,X,0,11925,0,0.10
2025,X,11925,48475,1192.50,0.12
2025,X,48475,103350,5578.50,0.22
2025,X,103350,197300,17651.00,0.24
2025,X,197300,250525,40199.00,0.32
2025,X,250525,626350,57231.00,0.35
2025,X,626350,,188769.75,0.37
2025,Y-1,0,23850,0,0.10
2025,Y-1,23850,96950,2385.00,0.12
2025,Y-1,96950,206700,11157.00,0.22
2025,Y-1,206700,394600,35302.00,0.24
2025,Y-1,394600,501050,80398.00,0.32
2025,Y-1,501050,751600,114462.00,0.35
2025,Y-1,751600,,202154.50,0.37
2025,Y-2,0,11925,0,0.10
2025,Y-2,11925,48475,1192.50,0.12
2025,Y-2,48475,103350,5578.50,0.22
2025,Y-2,103350,197300,17651.00,0.24
2025,Y-2,197300,250525,40199.00,0.32
2025,Y-2,250525,375800,57231.00,0.35
2025,Y-2,375800,,101077.25,0.37
2025,Z,0,17000,0,0.10
2025,Z,17000,64850,1700.00,0.12
2025,Z,64850,103350,7442.00,0.22
2025,Z,103350,197300,15912.00,0.24
2025,Z,197300,250500,38460.00,0.32
2025,Z,250500,626350,55484.00,0.35
2025,Z,626350,,187031.50,0.37
"#;

#[test]
fn test_parse_csv_single_bracket() {
    let csv = "tax_year,schedule,min_income,max_income,base_tax,rate\n2025,X,0,11925,0,0.10";

    let records = TaxBracketLoader::parse(csv.as_bytes()).expect("Failed to parse CSV");

    assert_eq!(records.len(), 1);
    assert_eq!(
        records[0],
        TaxBracketRecord {
            tax_year: 2025,
            schedule: "X".to_string(),
            min_income: Decimal::new(0, 0),
            max_income: Some(Decimal::new(11925, 0)),
            base_tax: Decimal::new(0, 0),
            rate: Decimal::new(10, 2),
        }
    );
}

#[test]
fn test_parse_csv_unlimited_max_income() {
    let csv =
        "tax_year,schedule,min_income,max_income,base_tax,rate\n2025,X,626350,,188769.75,0.37";

    let records = TaxBracketLoader::parse(csv.as_bytes()).expect("Failed to parse CSV");

    assert_eq!(records.len(), 1);
    assert_eq!(records[0].max_income, None);
    assert_eq!(records[0].min_income, Decimal::new(626350, 0));
    assert_eq!(records[0].base_tax, Decimal::new(18876975, 2));
    assert_eq!(records[0].rate, Decimal::new(37, 2));
}

#[test]
fn test_parse_csv_all_schedules() {
    let records = TaxBracketLoader::parse(TEST_CSV.as_bytes()).expect("Failed to parse CSV");

    assert_eq!(records.len(), 28);

    // Check we have all schedules
    let schedules: HashSet<_> =
        records.iter().map(|r| r.schedule.as_str()).collect();
    assert!(schedules.contains("X"));
    assert!(schedules.contains("Y-1"));
    assert!(schedules.contains("Y-2"));
    assert!(schedules.contains("Z"));

    // Verify 7 brackets per schedule
    for schedule in ["X", "Y-1", "Y-2", "Z"] {
        let count = records.iter().filter(|r| r.schedule == schedule).count();
        assert_eq!(count, 7, "Expected 7 brackets for schedule {}", schedule);
    }
}

#[test]
fn test_parse_schedule_x_single() {
    let records = TaxBracketLoader::parse(TEST_CSV.as_bytes()).expect("Failed to parse CSV");
    let single_brackets: Vec<_> = records.iter().filter(|r| r.schedule == "X").collect();

    assert_eq!(single_brackets.len(), 7);

    // Verify first bracket
    assert_eq!(single_brackets[0].min_income, Decimal::new(0, 0));
    assert_eq!(single_brackets[0].max_income, Some(Decimal::new(11925, 0)));
    assert_eq!(single_brackets[0].base_tax, Decimal::new(0, 0));
    assert_eq!(single_brackets[0].rate, Decimal::new(10, 2));

    // Verify second bracket
    assert_eq!(single_brackets[1].min_income, Decimal::new(11925, 0));
    assert_eq!(single_brackets[1].max_income, Some(Decimal::new(48475, 0)));
    assert_eq!(single_brackets[1].base_tax, Decimal::new(119250, 2));
    assert_eq!(single_brackets[1].rate, Decimal::new(12, 2));

    // Verify last bracket (unlimited)
    assert_eq!(single_brackets[6].min_income, Decimal::new(626350, 0));
    assert_eq!(single_brackets[6].max_income, None);
    assert_eq!(single_brackets[6].base_tax, Decimal::new(18876975, 2));
    assert_eq!(single_brackets[6].rate, Decimal::new(37, 2));
}

#[test]
fn test_parse_schedule_y1_mfj_qss() {
    let records = TaxBracketLoader::parse(TEST_CSV.as_bytes()).expect("Failed to parse CSV");
    let mfj_brackets: Vec<_> = records.iter().filter(|r| r.schedule == "Y-1").collect();

    assert_eq!(mfj_brackets.len(), 7);

    // Verify first bracket
    assert_eq!(mfj_brackets[0].min_income, Decimal::new(0, 0));
    assert_eq!(mfj_brackets[0].max_income, Some(Decimal::new(23850, 0)));
    assert_eq!(mfj_brackets[0].base_tax, Decimal::new(0, 0));
    assert_eq!(mfj_brackets[0].rate, Decimal::new(10, 2));

    // Verify last bracket
    assert_eq!(mfj_brackets[6].min_income, Decimal::new(751600, 0));
    assert_eq!(mfj_brackets[6].max_income, None);
    assert_eq!(mfj_brackets[6].base_tax, Decimal::new(20215450, 2));
    assert_eq!(mfj_brackets[6].rate, Decimal::new(37, 2));
}

#[test]
fn test_parse_schedule_y2_mfs() {
    let records = TaxBracketLoader::parse(TEST_CSV.as_bytes()).expect("Failed to parse CSV");
    let mfs_brackets: Vec<_> = records.iter().filter(|r| r.schedule == "Y-2").collect();

    assert_eq!(mfs_brackets.len(), 7);

    // MFS differs from Single in the 35% bracket max
    let bracket_35 = mfs_brackets.iter().find(|b| b.rate == Decimal::new(35, 2)).unwrap();
    assert_eq!(bracket_35.max_income, Some(Decimal::new(375800, 0)));

    // Last bracket
    assert_eq!(mfs_brackets[6].min_income, Decimal::new(375800, 0));
    assert_eq!(mfs_brackets[6].base_tax, Decimal::new(10107725, 2));
}

#[test]
fn test_parse_schedule_z_hoh() {
    let records = TaxBracketLoader::parse(TEST_CSV.as_bytes()).expect("Failed to parse CSV");
    let hoh_brackets: Vec<_> = records.iter().filter(|r| r.schedule == "Z").collect();

    assert_eq!(hoh_brackets.len(), 7);

    // HOH has different first bracket
    assert_eq!(hoh_brackets[0].min_income, Decimal::new(0, 0));
    assert_eq!(hoh_brackets[0].max_income, Some(Decimal::new(17000, 0)));
    assert_eq!(hoh_brackets[0].base_tax, Decimal::new(0, 0));

    // Second bracket
    assert_eq!(hoh_brackets[1].min_income, Decimal::new(17000, 0));
    assert_eq!(hoh_brackets[1].max_income, Some(Decimal::new(64850, 0)));
    assert_eq!(hoh_brackets[1].base_tax, Decimal::new(170000, 2));

    // Last bracket
    assert_eq!(hoh_brackets[6].min_income, Decimal::new(626350, 0));
    assert_eq!(hoh_brackets[6].base_tax, Decimal::new(18703150, 2));
}

#[test]
fn test_parse_invalid_csv_missing_column() {
    let csv = "tax_year,schedule,min_income\n2025,X,0";

    let result = TaxBracketLoader::parse(csv.as_bytes());

    let err = result.expect_err("Should fail for missing column");
    let TaxBracketLoaderError::CsvParse(msg) = err else {
        panic!("Expected CsvParse error, got: {:?}", err);
    };
    assert!(
        msg.contains("missing field"),
        "Expected 'missing field' in error, got: {}",
        msg
    );
}

#[test]
fn test_parse_invalid_csv_bad_decimal() {
    let csv = "tax_year,schedule,min_income,max_income,base_tax,rate\n2025,X,abc,11925,0,0.10";

    let result = TaxBracketLoader::parse(csv.as_bytes());

    let err = result.expect_err("Should fail for invalid decimal");
    let TaxBracketLoaderError::CsvParse(msg) = err else {
        panic!("Expected CsvParse error, got: {:?}", err);
    };
    assert!(
        msg.contains("invalid"),
        "Expected 'invalid' in error, got: {}",
        msg
    );
}

#[test]
fn test_parse_empty_csv() {
    let csv = "tax_year,schedule,min_income,max_income,base_tax,rate\n";

    let records = TaxBracketLoader::parse(csv.as_bytes()).expect("Failed to parse CSV");

    assert!(records.is_empty());
}

#[test]
fn test_schedule_to_filing_status_codes_x() {
    let codes = schedule_to_filing_status_codes("X").expect("Should map X");

    assert_eq!(codes, vec!["S"]);
}

#[test]
fn test_schedule_to_filing_status_codes_y1() {
    let codes = schedule_to_filing_status_codes("Y-1").expect("Should map Y-1");

    assert_eq!(codes, vec!["MFJ", "QSS"]);
}

#[test]
fn test_schedule_to_filing_status_codes_y2() {
    let codes = schedule_to_filing_status_codes("Y-2").expect("Should map Y-2");

    assert_eq!(codes, vec!["MFS"]);
}

#[test]
fn test_schedule_to_filing_status_codes_z() {
    let codes = schedule_to_filing_status_codes("Z").expect("Should map Z");

    assert_eq!(codes, vec!["HOH"]);
}

#[test]
fn test_schedule_to_filing_status_codes_invalid() {
    let result = schedule_to_filing_status_codes("INVALID");

    match result {
        Err(TaxBracketLoaderError::InvalidSchedule(ref schedule)) => {
            assert_eq!(schedule, "INVALID");
        }
        other => panic!("expected InvalidSchedule, got {other:?}"),
    }
}

