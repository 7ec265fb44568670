use facturx_create::models::error::LineValidationResult;
use facturx_create::models::line::{DiscountType, InvoiceLine};

fn line(description: &str, quantity: i32, unit_price_ht: i32, vat_rate: i32) -> InvoiceLine {
    InvoiceLine {
        description: description.to_string(),
        quantity,
        unit_price_ht,
        vat_rate,
        ..Default::default()
    }
}

#[test]
fn totals_of_a_plain_line() {
    // 10 × 150.00 at 20 %
    let mut l = line("Dev", 1000, 15000, 2000);
    l.compute_totals();
    assert_eq!(l.discount_amount, Some(0));
    assert_eq!(l.total_ht, Some(150_000_000_000));
    assert_eq!(l.total_vat, Some(300_000_000_000_000));
    assert_eq!(l.total_ttc, Some(1_800_000_000_000_000));
    assert_eq!(l.total_ht_value(), 150_000_000_000);
    assert_eq!(l.total_vat_value(), 300_000_000_000_000);
    assert_eq!(l.total_ttc_value(), 1_800_000_000_000_000);
    assert_eq!(l.total_ttc_value(), l.total_ht_value() * 10_000 + l.total_vat_value());
    let as_float = l.total_ttc_value() as f64 / 1e12;
    assert!((as_float - 1800.0).abs() < 1e-9);
}

#[test]
fn percent_discount() {
    // 3 × 19.99 less 12.5 %, at 5.5 %
    let mut l = line("x", 300, 1999, 550);
    l.discount_value = Some(1250);
    l.compute_totals();
    assert_eq!(l.discount_amount, Some(300 * 1999 * 1250));
    assert_eq!(l.total_ht, Some(300 * 1999 * 10_000 - 300 * 1999 * 1250));
    assert_eq!(l.total_ht, Some(5_247_375_000));
    assert_eq!(l.total_vat, Some(5_247_375_000 * 550));
    assert_eq!(l.total_ttc, Some(5_247_375_000 * 10_550));
    let mut explicit = line("x", 300, 1999, 550);
    explicit.discount_value = Some(1250);
    explicit.discount_type = Some(DiscountType::Percent);
    explicit.compute_totals();
    assert_eq!(explicit.total_ttc, l.total_ttc);
}

#[test]
fn amount_discount_and_floor_at_zero() {
    let mut l = line("x", 100, 10000, 2000);
    l.discount_value = Some(2550);
    l.discount_type = Some(DiscountType::Amount);
    l.compute_totals();
    assert_eq!(l.discount_amount, Some(2_550_000_000));
    assert_eq!(l.total_ht, Some(7_450_000_000));
    l.discount_value = Some(20000);
    l.compute_totals();
    assert_eq!(l.discount_amount, Some(20_000_000_000));
    assert_eq!(l.total_ht, Some(0));
    assert_eq!(l.total_vat, Some(0));
    assert_eq!(l.total_ttc, Some(0));
}

#[test]
fn discount_that_is_not_above_zero_counts_for_nothing() {
    let mut l = line("x", 100, 10000, 2000);
    l.discount_value = Some(0);
    l.compute_totals();
    assert_eq!(l.discount_amount, Some(0));
    l.discount_value = Some(-500);
    l.discount_type = Some(DiscountType::Amount);
    l.compute_totals();
    assert_eq!(l.discount_amount, Some(0));
    assert_eq!(l.total_ht, Some(10_000_000_000));
}

#[test]
fn steps_of_the_calculation() {
    let mut l = line("x", 200, 5000, 1000);
    assert_eq!(l.total_ht_value(), 0);
    l.compute_total_vat();
    l.compute_total_ttc();
    assert_eq!(l.total_vat, None);
    assert_eq!(l.total_ttc, None);
    l.compute_total_ht();
    assert_eq!(l.total_ht, Some(10_000_000_000));
    l.discount_amount = Some(1_000_000_000);
    l.compute_total_ht();
    assert_eq!(l.total_ht, Some(9_000_000_000));
    l.compute_total_vat();
    l.compute_total_ttc();
    assert_eq!(l.total_vat, Some(9_000_000_000_000));
    assert_eq!(l.total_ttc, Some(99_000_000_000_000));
    l.compute_discount();
    assert_eq!(l.discount_amount, Some(0));
}

#[test]
fn largest_inputs_do_not_overflow() {
    let mut l = line("x", i32::MAX, i32::MAX, i32::MAX);
    l.discount_value = Some(i32::MAX);
    l.compute_totals();
    assert_eq!(l.total_ht, Some(0));
    let mut l = line("x", i32::MIN, i32::MIN, i32::MAX);
    l.compute_totals();
    let gross = (i32::MIN as i128) * (i32::MIN as i128) * 10_000;
    assert_eq!(l.total_ht, Some(gross));
    assert_eq!(l.total_ttc, Some(gross * (10_000 + i32::MAX as i128)));
    let mut l = line("x", i32::MIN, i32::MAX, i32::MIN);
    l.discount_value = Some(i32::MAX);
    l.compute_totals();
    let product = (i32::MIN as i128) * (i32::MAX as i128);
    assert_eq!(l.discount_amount, Some(product * i32::MAX as i128));
    assert_eq!(l.total_ht, Some(product * 10_000 - product * i32::MAX as i128));
    assert_eq!(l.total_vat, Some(l.total_ht.unwrap() * i32::MIN as i128));
}

#[test]
fn validity() {
    assert!(line("x", 1, 1, 0).is_valid());
    assert!(line("x", 100, 100, 15000).is_valid());
    assert!(!line("x", 0, 100, 2000).is_valid());
    assert!(!line("x", -100, 100, 2000).is_valid());
    assert!(!line("x", 100, 0, 2000).is_valid());
    assert!(!line("x", 100, 100, -1).is_valid());
    assert!(!line("", 100, 100, 2000).is_valid());
    // a description counts as soon as it holds a character, white space or not
    assert!(line(" ", 100, 100, 2000).is_valid());
    assert!(line(" \t\u{a0}\u{3000}", 100, 100, 2000).is_valid());
    assert!(line(" x ", 100, 100, 2000).is_valid());
    assert!(!InvoiceLine::default().is_valid());
}

#[test]
fn rate_of_zero_bears_no_tax() {
    let mut l = line("x", 100, 10000, 0);
    assert!(l.is_valid());
    l.compute_totals();
    assert_eq!(l.total_vat, Some(0));
    assert_eq!(l.total_ttc, Some(100_000_000_000_000));
}

#[test]
fn validation_messages() {
    let r = line("x", 100, 100, 2000).validate(0);
    assert!(r.is_valid());
    assert_eq!(r.line_index, 0);
    assert!(line(" ", 100, 100, 2000).validate(0).is_valid());
    let r = line("", 0, -1, -1).validate(12);
    assert!(!r.is_valid());
    let got: Vec<(&str, &str)> =
        r.errors.iter().map(|e| (e.field.as_str(), e.message.as_str())).collect();
    assert_eq!(
        got,
        vec![
            ("lines[12][description]", "La description est obligatoire"),
            ("lines[12][quantity]", "La quantité doit être supérieure à 0"),
            ("lines[12][unit_price_ht]", "Le prix unitaire HT doit être supérieur à 0"),
            ("lines[12][vat_rate]", "Le taux de TVA ne peut pas être négatif"),
        ]
    );
    let r = line("x", 100, 100, 10001).validate(3);
    assert_eq!(r.errors.len(), 1);
    assert_eq!(r.errors[0].field, "lines[3][vat_rate]");
    assert_eq!(r.errors[0].message, "Le taux de TVA ne peut pas dépasser 100%");
    assert!(line("x", 100, 100, 10000).validate(3).is_valid());
}

#[test]
fn line_validation_result() {
    let mut r = LineValidationResult::new(7);
    assert!(r.is_valid());
    r.add_error("quantity", "trop petit");
    assert!(!r.is_valid());
    assert_eq!(r.errors[0].field, "lines[7][quantity]");
    assert_eq!(r.errors[0].message, "trop petit");
    let mut big = LineValidationResult::new(usize::MAX);
    big.add_error("f", "m");
    assert_eq!(big.errors[0].field, format!("lines[{}][f]", usize::MAX));
}

#[test]
fn defaults() {
    let l = InvoiceLine::default();
    assert_eq!(l.description, "");
    assert_eq!((l.quantity, l.unit_price_ht, l.vat_rate), (100, 0, 2000));
    assert!(l.discount_value.is_none() && l.discount_type.is_none());
    assert!(l.total_ht.is_none() && l.total_vat.is_none() && l.total_ttc.is_none());
    assert!(l.discount_amount.is_none());
    assert_eq!(DiscountType::default(), DiscountType::Percent);
}

#[test]
fn kinds_of_discount() {
    assert_eq!(DiscountType::from_code("percent"), Some(DiscountType::Percent));
    assert_eq!(DiscountType::from_code("amount"), Some(DiscountType::Amount));
    assert_eq!(DiscountType::from_code("Percent"), None);
    assert_eq!(DiscountType::from_code(""), None);
    assert_eq!(DiscountType::from_code("amounts"), None);
}

#[test]
fn line_as_it_is_entered() {
    let l = InvoiceLine::from_parts("x".to_string(), None, None, None, None, None);
    assert_eq!((l.quantity, l.unit_price_ht, l.vat_rate), (0, 0, 2000));
    assert!(l.discount_value.is_none() && l.discount_type.is_none());
    assert!(l.total_ht.is_none() && l.total_vat.is_none() && l.total_ttc.is_none());
    assert!(l.discount_amount.is_none());
    let l = InvoiceLine::from_parts(
        "y".to_string(),
        Some(250),
        Some(1999),
        Some(550),
        Some(1000),
        Some(DiscountType::Amount),
    );
    assert_eq!(l.description, "y");
    assert_eq!((l.quantity, l.unit_price_ht, l.vat_rate), (250, 1999, 550));
    assert_eq!(l.discount_value, Some(1000));
    assert_eq!(l.discount_type, Some(DiscountType::Amount));
    let l = InvoiceLine::from_parts("z".to_string(), Some(1), Some(1), Some(0), Some(0), None);
    assert_eq!(l.discount_value, None);
    let l = InvoiceLine::from_parts("z".to_string(), Some(1), Some(1), Some(0), Some(-5), None);
    assert_eq!(l.discount_value, None);
}

#[test]
fn line_in_a_few_words() {
    let mut l = line("Dev", 1000, 15000, 2000);
    assert_eq!(l.summary(), "10 × 150€ HT @20% = 0€ TTC");
    l.compute_totals();
    assert_eq!(l.summary(), "10 × 150€ HT @20% = 1800€ TTC");
    assert_eq!(l.summary(), format!("{} × {}€ HT @{}% = {}€ TTC", 10.0, 150.0, 20.0, 1800.0));
    let mut l = line("x", 250, 1999, 550);
    l.compute_totals();
    // 2.5 × 19.99 = 49.975, with 5.5 % tax 52.723625
    assert_eq!(l.summary(), "2.5 × 19.99€ HT @5.5% = 52.723625€ TTC");
    let l = line("x", -5, 100, 10);
    assert_eq!(l.summary(), "-0.05 × 1€ HT @0.1% = 0€ TTC");
}
