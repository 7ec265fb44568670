use facturx_create::facturx::vat::{calculate_vat_breakdown, VatGroup};
use facturx_create::facturx::xml_generator::{
    escape_xml, format_date_for_facturx, generate_facturx_xml, generate_vat_breakdown_xml,
    XmlError,
};
use facturx_create::models::invoice::InvoiceForm;
use facturx_create::models::line::{DiscountType, InvoiceLine};
use facturx_create::EmitterConfig;

fn emitter() -> EmitterConfig {
    EmitterConfig {
        siren: Some("123456789".to_string()),
        siret: "12345678901234".to_string(),
        name: "Ma Société <SARL>".to_string(),
        address: "1 rue de Paris".to_string(),
        bic: None,
        num_tva: Some("FR12345678901".to_string()),
        logo: None,
        xml_storage: None,
        pdf_storage: None,
    }
}

fn line(description: &str, quantity: i32, unit_price_ht: i32, vat_rate: i32) -> InvoiceLine {
    InvoiceLine {
        description: description.to_string(),
        quantity,
        unit_price_ht,
        vat_rate,
        discount_value: None,
        discount_type: None,
        total_ht: None,
        total_ttc: None,
        total_vat: None,
        discount_amount: None,
    }
}

fn invoice() -> InvoiceForm {
    InvoiceForm {
        invoice_number: "FA-2024-001".to_string(),
        issue_date: "2024-01-15".to_string(),
        type_code: 380,
        currency_code: "EUR".to_string(),
        due_date: Some("2024-02-14".to_string()),
        payment_terms: None,
        buyer_reference: Some("REF & 1".to_string()),
        purchase_order_reference: Some(String::new()),
        recipient_name: "Client".to_string(),
        recipient_siret: "98765432109876".to_string(),
        recipient_vat_number: None,
        recipient_address: "2 avenue".to_string(),
        recipient_country_code: "FR".to_string(),
        lines: vec![line("Développement", 1000, 15000, 2000), line("Maintenance", 100, 50000, 2000)],
    }
}

#[test]
fn test_format_date_for_facturx() {
    assert_eq!(format_date_for_facturx("2024-01-15").unwrap(), "20240115");
}

#[test]
fn test_escape_xml() {
    assert_eq!(escape_xml("Test & Co"), "Test &amp; Co");
    assert_eq!(escape_xml("<tag>"), "&lt;tag&gt;");
}

#[test]
fn escape_xml_all_five() {
    assert_eq!(escape_xml("A & B <C>"), "A &amp; B &lt;C&gt;");
    assert_eq!(escape_xml("\"x\" 'y'"), "&quot;x&quot; &apos;y&apos;");
    assert_eq!(escape_xml(""), "");
    assert_eq!(escape_xml("&amp;"), "&amp;amp;");
    assert_eq!(escape_xml("é€ ok"), "é€ ok");
}

#[test]
fn date_shape_is_checked() {
    for bad in ["", "2024-1-15", "2024/01/15", "20240115", "2024-01-155", "2024-01015", "----------",
        "2024-0-115", "2024-01-1", " 2024-01-15"]
    {
        let error = format_date_for_facturx(bad).unwrap_err();
        assert_eq!(error.value, bad);
        assert_eq!(error.message(), format!("Format de date invalide: {}", bad));
    }
    assert_eq!(format_date_for_facturx("abcd-ef-gh").unwrap(), "abcdefgh");
    assert_eq!(format_date_for_facturx("2024-01-1é").unwrap(), "2024011é");
}

#[test]
fn xml_of_a_two_line_invoice() {
    let mut invoice = invoice();
    let totals = invoice.compute_totals().unwrap();
    assert_eq!(totals, (200_000_000_000, 400_000_000_000_000, 2_400_000_000_000_000));
    let xml = generate_facturx_xml(&invoice, &emitter(), totals).unwrap();
    assert_eq!(xml, EXPECTED);
    let again = generate_facturx_xml(&invoice, &emitter(), totals).unwrap();
    assert_eq!(xml, again);
}

#[test]
fn xml_leaves_out_what_is_absent() {
    let mut invoice = invoice();
    invoice.due_date = None;
    invoice.buyer_reference = None;
    invoice.purchase_order_reference = None;
    let mut emitter = emitter();
    emitter.num_tva = Some(String::new());
    let totals = invoice.compute_totals().unwrap();
    let xml = generate_facturx_xml(&invoice, &emitter, totals).unwrap();
    assert!(!xml.contains("BuyerReference"));
    assert!(!xml.contains("BuyerOrderReferencedDocument"));
    assert!(!xml.contains("SpecifiedTradePaymentTerms"));
    assert!(!xml.contains("SpecifiedTaxRegistration"));
    invoice.purchase_order_reference = Some("PO <7>".to_string());
    invoice.recipient_vat_number = Some("FR98".to_string());
    let xml = generate_facturx_xml(&invoice, &emitter, totals).unwrap();
    assert!(xml.contains("</ram:BuyerTradeParty>\n                    <ram:BuyerOrderReferencedDocument>\n                        <ram:IssuerAssignedID>PO &lt;7&gt;</ram:IssuerAssignedID>\n                    </ram:BuyerOrderReferencedDocument>\n        </ram:ApplicableHeaderTradeAgreement>"));
    assert_eq!(xml.matches("<ram:ID schemeID=\"VA\">FR98</ram:ID>").count(), 1);
}

#[test]
fn xml_escapes_free_text() {
    let mut invoice = invoice();
    invoice.recipient_name = "A & B <C>".to_string();
    let totals = invoice.compute_totals().unwrap();
    let xml = generate_facturx_xml(&invoice, &emitter(), totals).unwrap();
    assert!(xml.contains("<ram:Name>A &amp; B &lt;C&gt;</ram:Name>"));
}

#[test]
fn xml_refuses_malformed_dates() {
    let mut invoice = invoice();
    invoice.issue_date = "15/01/2024".to_string();
    invoice.due_date = Some("bad".to_string());
    match generate_facturx_xml(&invoice, &emitter(), (0, 0, 0)) {
        Err(XmlError::DateFormat(e)) => assert_eq!(e.value, "15/01/2024"),
        other => panic!("{:?}", other),
    }
    invoice.issue_date = "2024-01-15".to_string();
    let error = generate_facturx_xml(&invoice, &emitter(), (0, 0, 0)).unwrap_err();
    assert_eq!(error.message(), "Format de date invalide: bad");
    invoice.due_date = Some(String::new());
    assert!(generate_facturx_xml(&invoice, &emitter(), (0, 0, 0)).is_ok());
}

#[test]
fn xml_refuses_amounts_that_do_not_add_up() {
    let mut invoice = invoice();
    invoice.lines[0].total_ht = Some(i128::MAX);
    invoice.lines[1].total_ht = Some(1);
    match generate_facturx_xml(&invoice, &emitter(), (0, 0, 0)) {
        Err(XmlError::AmountsTooLarge) => {}
        other => panic!("{:?}", other),
    }
    assert!(calculate_vat_breakdown(&invoice).is_none());
    assert_eq!(
        XmlError::AmountsTooLarge.message(),
        "Montants trop grands pour le récapitulatif TVA"
    );
}

#[test]
fn breakdown_groups_by_rate_in_order_of_appearance() {
    let mut invoice = invoice();
    invoice.lines = vec![
        line("a", 100, 10000, 2000),
        line("b", 200, 10000, 550),
        line("", 100, 10000, 1000),
        line("c", 0, 10000, 2000),
        line("d", 300, 10000, 2000),
        line("e", 100, 10000, 0),
    ];
    invoice.lines[1].discount_value = Some(1000);
    invoice.lines[1].discount_type = Some(DiscountType::Percent);
    invoice.compute_totals().unwrap();
    let groups = calculate_vat_breakdown(&invoice).unwrap();
    assert_eq!(
        groups,
        vec![
            VatGroup { rate: 2000, base_ht: 40_000_000_000, vat_amount: 80_000_000_000_000 },
            VatGroup { rate: 550, base_ht: 18_000_000_000, vat_amount: 9_900_000_000_000 },
            VatGroup { rate: 0, base_ht: 10_000_000_000, vat_amount: 0 },
        ]
    );
    let xml = generate_vat_breakdown_xml(&groups);
    assert_eq!(xml.matches("<ram:ApplicableTradeTax>").count(), 3);
    assert!(xml.starts_with("\n            <ram:ApplicableTradeTax>\n                <ram:CalculatedAmount>80.00</ram:CalculatedAmount>\n                <ram:TypeCode>VAT</ram:TypeCode>\n                <ram:BasisAmount>400.00</ram:BasisAmount>\n                <ram:CategoryCode>S</ram:CategoryCode>\n                <ram:RateApplicablePercent>20.00</ram:RateApplicablePercent>\n            </ram:ApplicableTradeTax>"));
    assert!(xml.contains("<ram:CalculatedAmount>9.90</ram:CalculatedAmount>"));
    assert!(xml.contains("<ram:RateApplicablePercent>5.50</ram:RateApplicablePercent>"));
    assert!(xml.contains("<ram:RateApplicablePercent>0.00</ram:RateApplicablePercent>"));
    assert_eq!(generate_vat_breakdown_xml(&Vec::new()), "");
}

#[test]
fn breakdown_of_the_two_line_invoice() {
    let mut invoice = invoice();
    invoice.compute_totals().unwrap();
    let groups = calculate_vat_breakdown(&invoice).unwrap();
    assert_eq!(
        groups,
        vec![VatGroup { rate: 2000, base_ht: 200_000_000_000, vat_amount: 400_000_000_000_000 }]
    );
}

const EXPECTED: &str = "<?xml version=\"1.0\" encoding=\"UTF-8\"?>\n<rsm:CrossIndustryInvoice xmlns:rsm=\"urn:un:unece:uncefact:data:standard:CrossIndustryInvoice:100\"\n    xmlns:ram=\"urn:un:unece:uncefact:data:standard:ReusableAggregateBusinessInformationEntity:100\"\n    xmlns:udt=\"urn:un:unece:uncefact:data:standard:UnqualifiedDataType:100\"\n    xmlns:qdt=\"urn:un:unece:uncefact:data:standard:QualifiedDataType:100\">\n    <rsm:ExchangedDocumentContext>\n        <ram:GuidelineSpecifiedDocumentContextParameter>\n            <ram:ID>urn:factur-x.eu:1p0:minimum</ram:ID>\n        </ram:GuidelineSpecifiedDocumentContextParameter>\n    </rsm:ExchangedDocumentContext>\n    <rsm:ExchangedDocument>\n        <ram:ID>FA-2024-001</ram:ID>\n        <ram:TypeCode>380</ram:TypeCode>\n        <ram:IssueDateTime>\n            <udt:DateTimeString format=\"102\">20240115</udt:DateTimeString>\n        </ram:IssueDateTime>\n    </rsm:ExchangedDocument>\n    <rsm:SupplyChainTradeTransaction>\n        <ram:ApplicableHeaderTradeAgreement>\n                    <ram:BuyerReference>REF &amp; 1</ram:BuyerReference>\n            <ram:SellerTradeParty>\n                <ram:Name>Ma Société &lt;SARL&gt;</ram:Name>\n                <ram:SpecifiedLegalOrganization>\n                    <ram:ID schemeID=\"0002\">12345678901234</ram:ID>\n                </ram:SpecifiedLegalOrganization>\n                <ram:PostalTradeAddress>\n                    <ram:LineOne>1 rue de Paris</ram:LineOne>\n                    <ram:CountryID>FR</ram:CountryID>\n                </ram:PostalTradeAddress>\n                        <ram:SpecifiedTaxRegistration>\n                            <ram:ID schemeID=\"VA\">FR12345678901</ram:ID>\n                        </ram:SpecifiedTaxRegistration>\n            </ram:SellerTradeParty>\n            <ram:BuyerTradeParty>\n                <ram:Name>Client</ram:Name>\n                <ram:SpecifiedLegalOrganization>\n                    <ram:ID schemeID=\"0002\">98765432109876</ram:ID>\n                </ram:SpecifiedLegalOrganization>\n                <ram:PostalTradeAddress>\n                    <ram:LineOne>2 avenue</ram:LineOne>\n                    <ram:CountryID>FR</ram:CountryID>\n                </ram:PostalTradeAddress>\n            </ram:BuyerTradeParty>\n        </ram:ApplicableHeaderTradeAgreement>\n        <ram:ApplicableHeaderTradeDelivery/>\n        <ram:ApplicableHeaderTradeSettlement>\n            <ram:InvoiceCurrencyCode>EUR</ram:InvoiceCurrencyCode>\n                    <ram:SpecifiedTradePaymentTerms>\n                        <ram:DueDateDateTime>\n                            <udt:DateTimeString format=\"102\">20240214</udt:DateTimeString>\n                        </ram:DueDateDateTime>\n                    </ram:SpecifiedTradePaymentTerms>\n            <ram:ApplicableTradeTax>\n                <ram:CalculatedAmount>400.00</ram:CalculatedAmount>\n                <ram:TypeCode>VAT</ram:TypeCode>\n                <ram:BasisAmount>2000.00</ram:BasisAmount>\n                <ram:CategoryCode>S</ram:CategoryCode>\n                <ram:RateApplicablePercent>20.00</ram:RateApplicablePercent>\n            </ram:ApplicableTradeTax>\n            <ram:SpecifiedTradeSettlementHeaderMonetarySummation>\n                <ram:LineTotalAmount>2000.00</ram:LineTotalAmount>\n                <ram:TaxBasisTotalAmount>2000.00</ram:TaxBasisTotalAmount>\n                <ram:TaxTotalAmount currencyID=\"EUR\">400.00</ram:TaxTotalAmount>\n                <ram:GrandTotalAmount>2400.00</ram:GrandTotalAmount>\n                <ram:DuePayableAmount>2400.00</ram:DuePayableAmount>\n            </ram:SpecifiedTradeSettlementHeaderMonetarySummation>\n        </ram:ApplicableHeaderTradeSettlement>\n    </rsm:SupplyChainTradeTransaction>\n</rsm:CrossIndustryInvoice>";
