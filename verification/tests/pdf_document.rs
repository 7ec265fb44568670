use facturx_create::facturx::pdf_document::{
    embed_invoice_xml, modification_date, new_invoice_document, push_joined, write_document,
    written_or_faults, DocumentError, ModificationDate,
};
use facturx_create::facturx::pdf_generator::{embedded_xml, finish_invoice_pdf, CompletionError};
use facturx_create::facturx::xmp_metadata::XmpMetadata;
use krilla::embed::{AssociationKind, EmbeddedFile};
use krilla::error::KrillaError;
use std::sync::Arc;

fn date(year: u16, month: u8, day: u8, hour: u8, minute: u8, second: u8) -> ModificationDate {
    ModificationDate { year, month, day, hour, minute, second }
}

fn metadata() -> XmpMetadata {
    XmpMetadata { title: "Facture 1".to_string(), author: "Nous".to_string(), ..Default::default() }
}

#[test]
fn date_of_a_time_stamp() {
    assert_eq!(modification_date("2024-01-31T12:05:09+00:00"), date(2024, 1, 31, 12, 5, 9));
    assert_eq!(modification_date("1999-12-31T23:59:59"), date(1999, 12, 31, 23, 59, 59));
    assert_eq!(modification_date("0000-00-00T00:00:00"), date(0, 0, 0, 0, 0, 0));
    assert_eq!(modification_date("9999-99-99T99:99:99"), date(9999, 99, 99, 99, 99, 99));
}

#[test]
fn date_of_what_is_no_time_stamp() {
    let fallback = date(2024, 1, 1, 0, 0, 0);
    assert_eq!(modification_date(""), fallback);
    assert_eq!(modification_date("hier, vers midi"), fallback);
    assert_eq!(modification_date("+1999-12-31T23:59:59"), fallback);
    // each part is read by itself
    assert_eq!(modification_date("1999"), date(1999, 1, 1, 0, 0, 0));
    assert_eq!(modification_date("199"), fallback);
    assert_eq!(modification_date("1999-07"), date(1999, 7, 1, 0, 0, 0));
    assert_eq!(modification_date("19x9-07-1yT08:z0:45"), date(2024, 7, 1, 8, 0, 45));
    assert_eq!(modification_date("????-??-??T??:??:07"), date(2024, 1, 1, 0, 0, 7));
    // digits of other scripts are no digits here
    assert_eq!(modification_date("١٩٩٩-07-15T08:30:45"), date(2024, 7, 15, 8, 30, 45));
}

#[test]
fn texts_are_joined() {
    let join = |parts: &[&str]| {
        let mut out = "=".to_string();
        push_joined(&mut out, &parts.iter().map(|p| p.to_string()).collect(), "; ");
        out
    };
    assert_eq!(join(&[]), "=");
    assert_eq!(join(&["a"]), "=a");
    assert_eq!(join(&["a", "b"]), "=a; b");
    assert_eq!(join(&["a", "", "c"]), "=a; ; c");
}

#[test]
fn document_errors_as_text() {
    assert_eq!(DocumentError::Configuration("x".to_string()).message(), "Erreur configuration PDF: x");
    assert_eq!(DocumentError::MimeType.message(), "Erreur creation MimeType");
    assert_eq!(DocumentError::Embedding("factur-x.xml".to_string()).message(), "Fichier deja embarque: factur-x.xml");
    assert_eq!(
        DocumentError::Validation(vec!["a".to_string(), "b".to_string()]).message(),
        "Erreurs de validation PDF/A-3: a; b"
    );
    assert_eq!(DocumentError::Validation(vec![]).message(), "Erreurs de validation PDF/A-3: ");
    assert_eq!(DocumentError::Generation("x".to_string()).message(), "Erreur generation PDF: x");
    assert_eq!(
        CompletionError::Document(DocumentError::Generation("x".to_string())).message(),
        "Erreur generation PDF: x"
    );
}

#[test]
fn a_new_document_is_held_to_the_archival_form() {
    let document = new_invoice_document().unwrap();
    let pdf = write_document(document).unwrap();
    assert!(pdf.starts_with(b"%PDF-"));
    let read = lopdf::Document::load_mem(&pdf).unwrap();
    let catalog = read.catalog().unwrap();
    let (_, metadata) = read.dereference(catalog.get(b"Metadata").unwrap()).unwrap();
    let packet = String::from_utf8_lossy(&metadata.as_stream().unwrap().content).to_string();
    assert!(packet.contains("pdfaid:part"));
    assert!(packet.contains("pdfaid:conformance"));
    assert!(catalog.get(b"OutputIntents").is_ok());
    assert!(catalog.get(b"AF").is_err());
}

#[test]
fn a_file_is_embedded_once() {
    let mut document = new_invoice_document().unwrap();
    let when = date(2024, 1, 31, 12, 0, 0);
    assert!(embed_invoice_xml(&mut document, embedded_xml("<a/>"), when).is_ok());
    match embed_invoice_xml(&mut document, embedded_xml("<b/>"), when) {
        Err(DocumentError::Embedding(name)) => assert_eq!(name, "factur-x.xml"),
        other => panic!("{:?}", other),
    }
    let pdf = write_document(document).unwrap();
    let read = lopdf::Document::load_mem(&pdf).unwrap();
    let catalog = read.catalog().unwrap();
    let (_, listed) = read.dereference(catalog.get(b"AF").unwrap()).unwrap();
    assert_eq!(listed.as_array().unwrap().len(), 1);
    let (_, spec) = read.dereference(&listed.as_array().unwrap()[0]).unwrap();
    let files = spec.as_dict().unwrap().get(b"EF").unwrap().as_dict().unwrap();
    let (_, stream) = read.dereference(files.get(b"F").unwrap()).unwrap();
    let stream = stream.as_stream().unwrap();
    let content = stream.decompressed_content().unwrap_or_else(|_| stream.content.clone());
    // the file that came last is the one that is listed
    assert_eq!(content, b"<b/>");
    let params = stream.dict.get(b"Params").unwrap().as_dict().unwrap();
    let changed = String::from_utf8_lossy(params.get(b"ModDate").unwrap().as_str().unwrap()).to_string();
    assert!(changed.starts_with("D:20240131120000"), "{}", changed);
}

#[test]
fn a_file_of_no_mime_type_is_refused() {
    let mut document = new_invoice_document().unwrap();
    let mut file = embedded_xml("<a/>");
    file.mime_type = "no mime type".to_string();
    match embed_invoice_xml(&mut document, file, date(2024, 1, 31, 12, 0, 0)) {
        Err(DocumentError::MimeType) => {}
        other => panic!("{:?}", other),
    }
    // nothing was embedded
    let pdf = write_document(document).unwrap();
    let read = lopdf::Document::load_mem(&pdf).unwrap();
    assert!(read.catalog().unwrap().get(b"AF").is_err());
}

#[test]
fn the_faults_of_a_document_are_handed_on() {
    let mut document = new_invoice_document().unwrap();
    document
        .embed_file(EmbeddedFile {
            path: "factur-x.xml".to_string(),
            mime_type: None,
            description: None,
            association_kind: AssociationKind::Data,
            data: b"<a/>".to_vec().into(),
            modification_date: None,
            compress: None,
            location: None,
        })
        .unwrap();
    match write_document(document) {
        Err(DocumentError::Validation(faults)) => {
            assert!(faults.len() >= 2, "{:?}", faults);
            assert!(faults.iter().any(|f| f.contains("MissingDate")), "{:?}", faults);
            assert!(faults.iter().any(|f| f.contains("MissingMimeType")), "{:?}", faults);
            let text = DocumentError::Validation(faults.clone()).message();
            assert_eq!(text, format!("Erreurs de validation PDF/A-3: {}", faults.join("; ")));
        }
        other => panic!("{:?}", other.map(|bytes| bytes.len())),
    }
}

#[test]
fn a_pdf_is_finished_step_by_step() {
    let document = new_invoice_document().unwrap();
    let pdf = finish_invoice_pdf(document, embedded_xml("<a/>"), &metadata()).unwrap();
    let read = lopdf::Document::load_mem(&pdf).unwrap();
    let catalog = read.catalog().unwrap();
    assert!(catalog.get(b"AF").is_ok());
    let (_, packet) = read.dereference(catalog.get(b"Metadata").unwrap()).unwrap();
    let packet = String::from_utf8(packet.as_stream().unwrap().content.clone()).unwrap();
    assert!(packet.contains("<fx:DocumentFileName>factur-x.xml</fx:DocumentFileName>"));

    // metadata that is not valid is refused once the document is written
    let document = new_invoice_document().unwrap();
    let mut broken = metadata();
    broken.title = String::new();
    match finish_invoice_pdf(document, embedded_xml("<a/>"), &broken) {
        Err(CompletionError::Metadata(e)) => assert_eq!(e.errors.len(), 1),
        other => panic!("{:?}", other.map(|bytes| bytes.len())),
    }
}

#[test]
fn what_is_taken_for_a_mime_type() {
    let when = date(2024, 1, 31, 12, 0, 0);
    let taken = ["text/xml", "application/vnd.ms-excel", "a/b", "A-1/x+y.z", "0/9"];
    let refused = [
        "", "/", "text", "text/", "/xml", "text/xml/", "a/b/c", "text//xml", "text /xml", "text/x ml",
        "té/xml", "text/x_ml", "text/xml;charset=utf-8", "text\\xml", "*/*",
    ];
    let mut document = new_invoice_document().unwrap();
    for (i, mime_type) in taken.iter().enumerate() {
        let mut file = embedded_xml("<a/>");
        file.path = format!("file-{}.xml", i);
        file.mime_type = mime_type.to_string();
        assert!(embed_invoice_xml(&mut document, file, when).is_ok(), "{}", mime_type);
    }
    for mime_type in refused {
        let mut file = embedded_xml("<a/>");
        file.path = "other.xml".to_string();
        file.mime_type = mime_type.to_string();
        match embed_invoice_xml(&mut document, file, when) {
            Err(DocumentError::MimeType) => {}
            other => panic!("{}: {:?}", mime_type, other),
        }
    }
    // a name is held from the first time on, whatever was refused in between
    let mut file = embedded_xml("<a/>");
    file.path = "other.xml".to_string();
    assert!(embed_invoice_xml(&mut document, file.clone(), when).is_ok());
    match embed_invoice_xml(&mut document, file, when) {
        Err(DocumentError::Embedding(name)) => assert_eq!(name, "other.xml"),
        other => panic!("{:?}", other),
    }
    let mut file = embedded_xml("<a/>");
    file.path = "file-0.xml".to_string();
    assert!(matches!(embed_invoice_xml(&mut document, file, when), Err(DocumentError::Embedding(_))));
}

#[test]
fn what_the_writer_said_is_handed_on() {
    assert_eq!(written_or_faults(Ok(vec![1, 2, 3])).unwrap(), vec![1, 2, 3]);
    assert_eq!(written_or_faults(Ok(vec![])).unwrap(), Vec::<u8>::new());
    match written_or_faults(Err(KrillaError::Validation(vec![]))) {
        Err(DocumentError::Validation(faults)) => assert!(faults.is_empty()),
        other => panic!("{:?}", other),
    }
    match written_or_faults(Err(KrillaError::DuplicateNamedDestination(Arc::new("ici".to_string())))) {
        Err(DocumentError::Generation(detail)) => {
            assert!(detail.contains("DuplicateNamedDestination") && detail.contains("ici"), "{}", detail)
        }
        other => panic!("{:?}", other),
    }
}

#[test]
fn the_same_document_is_written_the_same() {
    let write = || {
        let mut document = new_invoice_document().unwrap();
        embed_invoice_xml(&mut document, embedded_xml("<a>é</a>"), date(2024, 1, 31, 12, 0, 0)).unwrap();
        write_document(document).unwrap()
    };
    let first = write();
    assert!(first.starts_with(b"%PDF-"));
    assert_eq!(first, write());
}
