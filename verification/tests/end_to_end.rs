use facturx_create::facturx::pdf_document::new_invoice_document;
use facturx_create::facturx::pdf_generator::{
    finish_invoice_pdf, layout_invoice, plan_invoice_pdf, DrawOp, LogoSize, PdfPlan,
};
use facturx_create::facturx::vat::calculate_vat_breakdown;
use facturx_create::facturx::xml_generator::generate_facturx_xml;
use facturx_create::models::invoice::InvoiceForm;
use facturx_create::models::line::InvoiceLine;
use facturx_create::EmitterConfig;
use krilla::geom::{PathBuilder, Size, Transform};
use krilla::image::Image;
use krilla::page::PageSettings;
use krilla::paint::Stroke;
use krilla::Document;
use lopdf::Object;

fn line(description: &str, quantity: i32, unit_price_ht: i32, vat_rate: i32) -> InvoiceLine {
    InvoiceLine {
        description: description.to_string(),
        quantity,
        unit_price_ht,
        vat_rate,
        ..Default::default()
    }
}

fn invoice() -> InvoiceForm {
    InvoiceForm {
        invoice_number: "TEST-001".to_string(),
        issue_date: "2024-01-31".to_string(),
        type_code: 380,
        currency_code: "EUR".to_string(),
        due_date: Some("2024-02-28".to_string()),
        payment_terms: Some("Paiement à 30 jours".to_string()),
        buyer_reference: None,
        purchase_order_reference: None,
        recipient_name: "Client Test SARL".to_string(),
        recipient_siret: "98765432109876".to_string(),
        recipient_vat_number: Some("FR98765432109".to_string()),
        recipient_address: "456 Client Avenue, 69001 Lyon".to_string(),
        recipient_country_code: "FR".to_string(),
        lines: vec![
            line("Développement logiciel", 1000, 15000, 2000),
            line("Maintenance mensuelle", 100, 50000, 2000),
        ],
    }
}

fn emitter() -> EmitterConfig {
    EmitterConfig {
        siren: Some("123456789".to_string()),
        siret: "12345678901234".to_string(),
        name: "Test Company".to_string(),
        address: "123 Test Street, 75001 Paris".to_string(),
        bic: Some("BNPAFRPP".to_string()),
        num_tva: Some("FR12345678901".to_string()),
        logo: None,
        xml_storage: None,
        pdf_storage: None,
    }
}

/// Draws the rules of a plan on the page of a new document; the texts
/// are left out, for which fonts would have to be at hand.
fn draw_rules(plan: &PdfPlan) -> Document {
    draw_rules_and_logo(plan, None)
}

/// The same, with the logo where the plan has one.
fn draw_rules_and_logo(plan: &PdfPlan, logo: Option<Image>) -> Document {
    let mut doc = new_invoice_document().unwrap();
    let mut page = doc.start_page_with(PageSettings::from_wh(595.0, 842.0).unwrap());
    let mut surface = page.surface();
    surface.set_fill(None);
    surface.set_stroke(Some(Stroke { width: 0.5, ..Default::default() }));
    for op in &plan.ops {
        if let DrawOp::Rule { x1, x2, y } = op {
            let mut builder = PathBuilder::new();
            builder.move_to(*x1 as f32 / 2.0, *y as f32 / 2.0);
            builder.line_to(*x2 as f32 / 2.0, *y as f32 / 2.0);
            surface.draw_path(&builder.finish().unwrap());
        }
        if let DrawOp::Image { x, y, width, height } = op {
            let size = Size::from_wh(*width as f32 / 2.0, *height as f32 / 2.0).unwrap();
            surface.push_transform(&Transform::from_translate(*x as f32 / 2.0, *y as f32 / 2.0));
            surface.draw_image(logo.clone().unwrap(), size);
            surface.pop();
        }
    }
    surface.finish();
    page.finish();
    doc
}

fn text_of(object: &Object) -> String {
    match object {
        Object::String(bytes, _) => {
            if bytes.starts_with(&[0xfe, 0xff]) {
                let units: Vec<u16> =
                    bytes[2..].chunks(2).map(|c| u16::from_be_bytes([c[0], c[1]])).collect();
                String::from_utf16(&units).unwrap()
            } else {
                String::from_utf8(bytes.clone()).unwrap()
            }
        }
        other => panic!("{:?}", other),
    }
}

#[test]
fn the_pdf_carries_the_xml_and_the_packet() {
    let mut invoice = invoice();
    let totals = invoice.compute_totals().unwrap();
    assert_eq!(totals, (200_000_000_000, 400_000_000_000_000, 2_400_000_000_000_000));
    let xml = generate_facturx_xml(&invoice, &emitter(), totals).unwrap();
    assert!(xml.contains("<ram:TaxBasisTotalAmount>2000.00</ram:TaxBasisTotalAmount>"));
    assert!(xml.contains("<ram:TaxTotalAmount currencyID=\"EUR\">400.00</ram:TaxTotalAmount>"));
    assert!(xml.contains("<ram:GrandTotalAmount>2400.00</ram:GrandTotalAmount>"));
    assert_eq!(xml.matches("<ram:ApplicableTradeTax>").count(), 1);
    assert!(xml.contains("<ram:BasisAmount>2000.00</ram:BasisAmount>"));
    assert!(xml.contains("<ram:CalculatedAmount>400.00</ram:CalculatedAmount>"));
    assert!(xml.contains("<ram:RateApplicablePercent>20.00</ram:RateApplicablePercent>"));

    let plan = plan_invoice_pdf(&invoice, &emitter(), totals, &xml, None).unwrap();
    let document = draw_rules(&plan);
    let pdf = finish_invoice_pdf(document, plan.embedded, &plan.metadata).unwrap();

    let doc = lopdf::Document::load_mem(&pdf).unwrap();
    let catalog = doc.catalog().unwrap();

    // the catalog lists exactly one associated file, under the standard name
    let (_, listed) = doc.dereference(catalog.get(b"AF").unwrap()).unwrap();
    let listed = listed.as_array().unwrap();
    assert_eq!(listed.len(), 1);
    let (_, spec) = doc.dereference(&listed[0]).unwrap();
    let spec = spec.as_dict().unwrap();
    assert_eq!(text_of(spec.get(b"F").unwrap()), "factur-x.xml");
    assert_eq!(text_of(spec.get(b"UF").unwrap()), "factur-x.xml");
    assert_eq!(spec.get(b"AFRelationship").unwrap().as_name().unwrap(), b"Data");
    assert_eq!(text_of(spec.get(b"Desc").unwrap()), "Factur-X XML invoice data");

    // the embedded file gives the XML back byte for byte
    let files = spec.get(b"EF").unwrap().as_dict().unwrap();
    let (_, stream) = doc.dereference(files.get(b"F").unwrap()).unwrap();
    let stream = stream.as_stream().unwrap();
    assert_eq!(stream.dict.get(b"Subtype").unwrap().as_name().unwrap(), b"text/xml");
    let content = stream.decompressed_content().unwrap_or_else(|_| stream.content.clone());
    assert_eq!(content, xml.as_bytes());
    assert_eq!(String::from_utf8(content).unwrap(), xml);

    // the metadata stream is the packet
    let (_, metadata) = doc.dereference(catalog.get(b"Metadata").unwrap()).unwrap();
    let packet = String::from_utf8(metadata.as_stream().unwrap().content.clone()).unwrap();
    assert!(packet.starts_with("<?xpacket begin=\"\" id=\"W5M0MpCehiHzreSzNTczkc9d\"?>"));
    assert!(packet.contains("<pdfaid:part>3</pdfaid:part>"));
    assert!(packet.contains("<pdfaid:conformance>B</pdfaid:conformance>"));
    assert!(packet.contains("<fx:DocumentFileName>factur-x.xml</fx:DocumentFileName>"));
    assert!(packet.contains("<fx:ConformanceLevel>MINIMUM</fx:ConformanceLevel>"));
    assert!(packet.contains("<rdf:li xml:lang=\"x-default\">Facture TEST-001</rdf:li>"));
    assert!(packet.contains("<rdf:li>Test Company</rdf:li>"));
}

#[test]
fn the_pdf_shows_the_logo() {
    let mut invoice = invoice();
    let totals = invoice.compute_totals().unwrap();
    let xml = generate_facturx_xml(&invoice, &emitter(), totals).unwrap();
    let logo = Image::from_rgba8(vec![200; 4 * 6 * 3], 6, 3);
    let (width, height) = logo.size();
    assert_eq!((width, height), (6, 3));
    let plan =
        plan_invoice_pdf(&invoice, &emitter(), totals, &xml, Some(LogoSize { width, height })).unwrap();
    match &plan.ops[0] {
        DrawOp::Image { x, y, width, height } => assert_eq!((*x, *y, *width, *height), (495, 114, 200, 100)),
        other => panic!("{:?}", other),
    }
    let document = draw_rules_and_logo(&plan, Some(logo));
    let pdf = finish_invoice_pdf(document, plan.embedded, &plan.metadata).unwrap();

    let doc = lopdf::Document::load_mem(&pdf).unwrap();
    let images: Vec<_> = doc
        .objects
        .values()
        .filter_map(|o| o.as_stream().ok())
        .filter(|s| s.dict.get(b"Subtype").and_then(|n| n.as_name()).ok() == Some(&b"Image"[..]))
        .collect();
    assert!(!images.is_empty());
    assert!(images.iter().any(|s| {
        s.dict.get(b"Width").and_then(|n| n.as_i64()).ok() == Some(6)
            && s.dict.get(b"Height").and_then(|n| n.as_i64()).ok() == Some(3)
    }));
    let (_, listed) = doc.dereference(doc.catalog().unwrap().get(b"AF").unwrap()).unwrap();
    assert_eq!(listed.as_array().unwrap().len(), 1);
}

#[test]
fn lines_that_are_not_valid_show_in_neither_rendering() {
    let mut plain = invoice();
    plain.lines.push(line("Livraison", 100, 2000, 0));
    let mut mixed = plain.clone();
    mixed.lines.insert(0, line("Rien", 0, 15000, 2000));
    mixed.lines.insert(2, line("", 100, 15000, 550));
    mixed.lines.push(line("Offert", 100, 0, 2000));
    mixed.lines.push(line("Taux", 100, 100, -1));

    let totals = plain.compute_totals().unwrap();
    assert_eq!(mixed.compute_totals().unwrap(), totals);
    assert_eq!(totals, (202_000_000_000, 400_000_000_000_000, 2_420_000_000_000_000));

    // a rate of zero is a rate like any other, and bears no tax
    let groups = calculate_vat_breakdown(&mixed).unwrap();
    assert_eq!(groups, calculate_vat_breakdown(&plain).unwrap());
    assert_eq!(groups.len(), 2);
    assert_eq!((groups[1].rate, groups[1].base_ht, groups[1].vat_amount), (0, 2_000_000_000, 0));

    let xml = generate_facturx_xml(&mixed, &emitter(), totals).unwrap();
    assert_eq!(xml, generate_facturx_xml(&plain, &emitter(), totals).unwrap());
    assert_eq!(xml.matches("<ram:ApplicableTradeTax>").count(), 2);
    assert!(xml.contains("<ram:RateApplicablePercent>0.00</ram:RateApplicablePercent>"));

    let texts = |form: &InvoiceForm| -> Vec<String> {
        layout_invoice(form, &emitter(), totals, None).unwrap().iter().map(|op| format!("{:?}", op)).collect()
    };
    let page = texts(&mixed);
    assert_eq!(page, texts(&plain));
    assert!(page.iter().any(|t| t.contains("Livraison")));
    assert!(page.iter().all(|t| !t.contains("Rien") && !t.contains("Offert") && !t.contains("Taux")));
}
