use facturx_create::calendar::is_valid_date;
use facturx_create::models::error::{FieldError, ValidationResponse};
use facturx_create::models::invoice::{
    has_vat_number_shape, FormatChecks, InvoiceForm, InvoiceTypeCode,
};
use facturx_create::models::line::InvoiceLine;

fn line(description: &str, quantity: i32, unit_price_ht: i32, vat_rate: i32) -> InvoiceLine {
    InvoiceLine {
        description: description.to_string(),
        quantity,
        unit_price_ht,
        vat_rate,
        ..Default::default()
    }
}

fn form() -> InvoiceForm {
    InvoiceForm {
        invoice_number: "FA-1".to_string(),
        issue_date: "2024-01-31".to_string(),
        type_code: 380,
        currency_code: "EUR".to_string(),
        due_date: Some("2024-02-28".to_string()),
        payment_terms: None,
        buyer_reference: None,
        purchase_order_reference: None,
        recipient_name: "Client".to_string(),
        recipient_siret: "98765432109876".to_string(),
        recipient_vat_number: Some("FR98765432109".to_string()),
        recipient_address: "456 avenue".to_string(),
        recipient_country_code: "FR".to_string(),
        lines: vec![line("Dev", 1000, 15000, 2000), line("Maintenance", 100, 50000, 2000)],
    }
}

fn pairs(errors: &[FieldError]) -> Vec<(&str, &str)> {
    errors.iter().map(|e| (e.field.as_str(), e.message.as_str())).collect()
}

#[test]
fn type_codes() {
    assert_eq!(InvoiceTypeCode::Invoice.code(), 380);
    assert_eq!(InvoiceTypeCode::CreditNote.code(), 381);
    assert_eq!(InvoiceTypeCode::CorrectedInvoice.code(), 384);
    assert_eq!(InvoiceTypeCode::PrepaymentInvoice.code(), 389);
    assert_eq!(InvoiceTypeCode::Invoice.label(), "Facture");
    assert_eq!(InvoiceTypeCode::CreditNote.label(), "Avoir");
    assert_eq!(InvoiceTypeCode::CorrectedInvoice.label(), "Facture rectificative");
    assert_eq!(InvoiceTypeCode::PrepaymentInvoice.label(), "Facture d'acompte");
    assert_eq!(InvoiceTypeCode::PrepaymentInvoice.title(), "FACTURE D'ACOMPTE");
    assert_eq!(InvoiceTypeCode::default(), InvoiceTypeCode::Invoice);
    for code in 0u16..=u16::MAX {
        match InvoiceTypeCode::from_code(code) {
            Some(kind) => {
                assert!([380, 381, 384, 389].contains(&code));
                assert_eq!(kind.code(), code);
            }
            None => assert!(![380, 381, 384, 389].contains(&code)),
        }
    }
}

#[test]
fn totals_of_two_lines() {
    let mut f = form();
    let totals = f.compute_totals();
    // 2000.00, 400.00 and 2400.00
    assert_eq!(totals, Some((200_000_000_000, 400_000_000_000_000, 2_400_000_000_000_000)));
    assert_eq!(f.lines[0].total_ht, Some(150_000_000_000));
    assert_eq!(f.lines[1].total_ttc, Some(600_000_000_000_000));
    assert_eq!(f.invoice_number, "FA-1");
    let (ht, vat, ttc) = totals.unwrap();
    assert!((ht as f64 / 1e8 - 2000.0).abs() < 1e-9);
    assert!((vat as f64 / 1e12 - 400.0).abs() < 1e-9);
    assert!((ttc as f64 / 1e12 - 2400.0).abs() < 1e-9);
}

#[test]
fn invalid_lines_count_for_nothing_and_are_left_alone() {
    let mut f = form();
    f.lines.insert(1, line("zero", 0, 99900, 2000));
    f.lines.push(line("", 100, 99900, 2000));
    f.lines.push(line("free", 100, 10000, 0));
    let totals = f.compute_totals().unwrap();
    assert_eq!(totals, (210_000_000_000, 400_000_000_000_000, 2_500_000_000_000_000));
    assert_eq!(f.lines[1].total_ht, None);
    assert_eq!(f.lines[1].discount_amount, None);
    assert_eq!(f.lines[3].total_ttc, None);
    assert_eq!(f.lines[4].total_vat, Some(0));
    let mut empty = form();
    empty.lines.clear();
    assert_eq!(empty.compute_totals(), Some((0, 0, 0)));
}

#[test]
fn totals_too_large_to_hold() {
    let one = (i32::MAX as i128) * (i32::MAX as i128) * 10_000 * (10_000 + i32::MAX as i128);
    let fitting = (i128::MAX / one) as usize;
    let mut f = form();
    f.lines = (0..fitting).map(|_| line("a", i32::MAX, i32::MAX, i32::MAX)).collect();
    assert_eq!(f.compute_totals().map(|t| t.2), Some(one * fitting as i128));
    f.lines.push(line("b", i32::MAX, i32::MAX, i32::MAX));
    f.lines.push(line("c", 100, 100, 0));
    assert_eq!(f.compute_totals(), None);
    assert_eq!(f.lines[fitting].total_ttc, Some(one));
    assert_eq!(f.lines[fitting + 1].total_ht, Some(100_000_000));
}

#[test]
fn a_valid_form_has_no_errors() {
    let f = form();
    assert!(f.validate().is_empty());
    let checks = f.format_checks();
    assert_eq!(
        checks,
        FormatChecks {
            issue_date: true,
            currency_code: true,
            due_date: true,
            recipient_siret: true,
            recipient_country_code: true,
            recipient_vat_number: true,
        }
    );
}

#[test]
fn every_error_of_a_form_is_reported_in_order() {
    let f = InvoiceForm {
        invoice_number: String::new(),
        issue_date: "31/01/2024".to_string(),
        type_code: 382,
        currency_code: "euro".to_string(),
        due_date: Some("2024-02-30".to_string()),
        payment_terms: None,
        buyer_reference: None,
        purchase_order_reference: None,
        recipient_name: String::new(),
        recipient_siret: "123".to_string(),
        recipient_vat_number: Some("fr1".to_string()),
        recipient_address: String::new(),
        recipient_country_code: "FRA".to_string(),
        lines: vec![line("ok", 100, 100, 2000), line("", 0, 100, 20000)],
    };
    let errors = f.validate();
    assert_eq!(
        pairs(&errors),
        vec![
            ("invoice_number", "Le numéro de facture est obligatoire (BT-1)"),
            ("issue_date", "Format de date invalide (attendu: AAAA-MM-JJ)"),
            ("type_code", "Type de document invalide. Valeurs acceptées: 380 (Facture), 381 (Avoir), 384 (Rectificative), 389 (Acompte)"),
            ("currency_code", "Code devise invalide (format ISO 4217, ex: EUR)"),
            ("due_date", "Format de date d'échéance invalide (attendu: AAAA-MM-JJ)"),
            ("recipient_name", "Le nom du destinataire est obligatoire (BT-44)"),
            ("recipient_siret", "Le SIRET doit contenir 14 chiffres"),
            ("recipient_country_code", "Code pays invalide (format ISO 3166-1 alpha-2, ex: FR)"),
            ("recipient_vat_number", "Format de numéro TVA invalide (ex: FR12345678901)"),
            ("lines[1][description]", "La description est obligatoire"),
            ("lines[1][quantity]", "La quantité doit être supérieure à 0"),
            ("lines[1][vat_rate]", "Le taux de TVA ne peut pas dépasser 100%"),
        ]
    );
    // a number and a description of white space alone are not missing
    let mut g = f.clone();
    g.invoice_number = " ".to_string();
    g.lines[1].description = "\t".to_string();
    let fields: Vec<String> = g.validate().iter().map(|e| e.field.clone()).collect();
    assert!(!fields.contains(&"invoice_number".to_string()));
    assert!(!fields.contains(&"lines[1][description]".to_string()));
    assert_eq!(fields.len(), 10);
}

#[test]
fn missing_fields_and_no_lines() {
    let f = InvoiceForm {
        invoice_number: "1".to_string(),
        issue_date: String::new(),
        type_code: 381,
        currency_code: "  ".to_string(),
        due_date: Some(" ".to_string()),
        payment_terms: None,
        buyer_reference: None,
        purchase_order_reference: None,
        recipient_name: "x".to_string(),
        recipient_siret: String::new(),
        recipient_vat_number: Some(String::new()),
        recipient_address: String::new(),
        recipient_country_code: String::new(),
        lines: Vec::new(),
    };
    assert_eq!(
        pairs(&f.validate()),
        vec![
            ("issue_date", "La date d'émission est obligatoire (BT-2)"),
            ("currency_code", "Le code devise est obligatoire (BT-5)"),
            ("recipient_siret", "Le SIRET du destinataire est obligatoire"),
            ("recipient_country_code", "Le code pays du destinataire est obligatoire (BT-55)"),
            ("lines", "La facture doit contenir au moins une ligne"),
        ]
    );
}

#[test]
fn validation_given_the_format_checks() {
    let f = form();
    let all_wrong = FormatChecks {
        issue_date: false,
        currency_code: false,
        due_date: false,
        recipient_siret: false,
        recipient_country_code: false,
        recipient_vat_number: false,
    };
    let fields: Vec<String> = f.validate_with(&all_wrong).into_iter().map(|e| e.field).collect();
    assert_eq!(
        fields,
        vec!["issue_date", "currency_code", "due_date", "recipient_siret",
            "recipient_country_code", "recipient_vat_number"]
    );
}

#[test]
fn dates() {
    assert!(is_valid_date("2024-01-31"));
    assert!(is_valid_date("2024-02-29"));
    assert!(!is_valid_date("2023-02-29"));
    assert!(!is_valid_date("2024-13-01"));
    assert!(!is_valid_date("31/01/2024"));
    assert!(!is_valid_date(""));
    assert!(!is_valid_date("2024-01-31 "));
}

#[test]
fn siret_currency_country() {
    assert!(InvoiceForm::is_valid_siret("12345678901234"));
    assert!(InvoiceForm::is_valid_siret("123 456 789 01234"));
    assert!(!InvoiceForm::is_valid_siret("1234567890123"));
    assert!(!InvoiceForm::is_valid_siret("123456789012345"));
    assert!(InvoiceForm::is_valid_currency_code("EUR"));
    assert!(InvoiceForm::is_valid_currency_code(" USD\n"));
    assert!(!InvoiceForm::is_valid_currency_code("eur"));
    assert!(!InvoiceForm::is_valid_currency_code("EU"));
    assert!(!InvoiceForm::is_valid_currency_code("EURO"));
    assert!(!InvoiceForm::is_valid_currency_code("E R"));
    assert!(!InvoiceForm::is_valid_currency_code("ÉUR"));
    assert!(InvoiceForm::is_valid_country_code("FR"));
    assert!(InvoiceForm::is_valid_country_code(" DE "));
    assert!(!InvoiceForm::is_valid_country_code("fr"));
    assert!(!InvoiceForm::is_valid_country_code("FRA"));
    assert!(!InvoiceForm::is_valid_country_code("F1"));
}

#[test]
fn vat_numbers() {
    assert!(InvoiceForm::is_valid_vat_number("FR12345678901"));
    assert!(InvoiceForm::is_valid_vat_number("FR 12 345 678 901"));
    assert!(InvoiceForm::is_valid_vat_number("DE12"));
    assert!(!InvoiceForm::is_valid_vat_number("DE1"));
    assert!(!InvoiceForm::is_valid_vat_number("fr12345678901"));
    assert!(!InvoiceForm::is_valid_vat_number("F112345678901"));
    assert!(InvoiceForm::is_valid_vat_number("FR1234567890123"));
    assert!(!InvoiceForm::is_valid_vat_number("FR12345678901234"));
    // letters outside ASCII take more than one byte each
    assert!(InvoiceForm::is_valid_vat_number("FRé"));
    assert!(!InvoiceForm::is_valid_vat_number("FRééééééé"));
    assert!(!InvoiceForm::is_valid_vat_number("𐐀"));
    assert!(has_vat_number_shape("ABcd"));
    assert!(!has_vat_number_shape("aBcd"));
}

#[test]
fn responses() {
    let ok = ValidationResponse::ok();
    assert!(ok.success && ok.errors.is_empty());
    let e = FieldError::new("lines", "vide");
    assert_eq!((e.field.as_str(), e.message.as_str()), ("lines", "vide"));
    let bad = ValidationResponse::with_errors(vec![e]);
    assert!(!bad.success);
    assert_eq!(bad.errors.len(), 1);
    assert_eq!(bad.errors[0].field, "lines");
}
