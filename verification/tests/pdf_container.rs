use facturx_create::facturx::pdf_container::{
    metadata_target, replace_document_metadata, replace_xmp_metadata, ContainerError,
    MetadataLookup,
};
use facturx_create::facturx::pdf_document::{new_invoice_document, write_document};
use facturx_create::facturx::pdf_generator::{
    complete_invoice_pdf, embedded_xml, AssociationKind, CompletionError,
};
use facturx_create::facturx::xmp_metadata::{FacturXProfile, XmpMetadata};
use lopdf::{Dictionary, Document, Object, Stream};

fn name(text: &str) -> Object {
    Object::Name(text.as_bytes().to_vec())
}

/// A PDF of one empty page; `metadata` is what the catalog holds under
/// `Metadata`, where the number of the metadata stream stands for a
/// reference to it.
fn sample_pdf(metadata: Option<Object>) -> (Vec<u8>, (u32, u16)) {
    let mut doc = Document::with_version("1.7");
    let pages_id = doc.new_object_id();
    let mut meta = Dictionary::new();
    meta.set("Type", name("Metadata"));
    meta.set("Subtype", name("XML"));
    let meta_id = doc.add_object(Stream::new(meta, b"<old/>".to_vec()));
    let mut page = Dictionary::new();
    page.set("Type", name("Page"));
    page.set("Parent", pages_id);
    page.set(
        "MediaBox",
        vec![Object::Integer(0), Object::Integer(0), Object::Integer(595), Object::Integer(842)],
    );
    let page_id = doc.add_object(page);
    let mut pages = Dictionary::new();
    pages.set("Type", name("Pages"));
    pages.set("Kids", vec![Object::Reference(page_id)]);
    pages.set("Count", 1);
    doc.objects.insert(pages_id, Object::Dictionary(pages));
    let mut catalog = Dictionary::new();
    catalog.set("Type", name("Catalog"));
    catalog.set("Pages", pages_id);
    match metadata {
        Some(Object::Null) => catalog.set("Metadata", Object::Reference(meta_id)),
        Some(other) => catalog.set("Metadata", other),
        None => {}
    }
    let catalog_id = doc.add_object(catalog);
    doc.trailer.set("Root", catalog_id);
    let mut out = Vec::new();
    doc.save_to(&mut out).unwrap();
    (out, meta_id)
}

/// A PDF as the PDF writer returns one, of one empty page.
fn written() -> Vec<u8> {
    write_document(new_invoice_document().unwrap()).unwrap()
}

/// Reads `pdf` and puts the packet into the document.
fn replace_in(pdf: &[u8], xmp: &[u8]) -> Result<Vec<u8>, ContainerError> {
    replace_document_metadata(Document::load_mem(pdf).unwrap(), xmp)
}

fn metadata_of(pdf: &[u8]) -> (Dictionary, Vec<u8>, (u32, u16)) {
    let doc = Document::load_mem(pdf).unwrap();
    let id = doc.catalog().unwrap().get(b"Metadata").unwrap().as_reference().unwrap();
    let stream = doc.get_object(id).unwrap().as_stream().unwrap();
    (stream.dict.clone(), stream.content.clone(), id)
}

#[test]
fn the_packet_takes_the_place_of_the_metadata_stream() {
    let (pdf, meta_id) = sample_pdf(Some(Object::Null));
    assert_eq!(metadata_of(&pdf).1, b"<old/>");
    let xmp = "<?xpacket begin=\"\"?><x:xmpmeta>é</x:xmpmeta>";
    let out = replace_in(&pdf, xmp.as_bytes()).unwrap();
    assert_ne!(out, pdf);
    let (dict, content, id) = metadata_of(&out);
    assert_eq!(id, meta_id);
    assert_eq!(content, xmp.as_bytes());
    assert_eq!(dict.get(b"Type").unwrap().as_name().unwrap(), b"Metadata");
    assert_eq!(dict.get(b"Subtype").unwrap().as_name().unwrap(), b"XML");
    assert_eq!(dict.get(b"Length").unwrap().as_i64().unwrap(), xmp.len() as i64);
    let before = Document::load_mem(&pdf).unwrap();
    let after = Document::load_mem(&out).unwrap();
    assert_eq!(before.get_pages(), after.get_pages());
    assert_eq!(before.objects.len(), after.objects.len());
    let again = replace_in(&pdf, xmp.as_bytes()).unwrap();
    assert_eq!(out, again);
}

#[test]
fn the_packet_goes_into_a_pdf_that_was_written() {
    let pdf = written();
    let (_, old, place) = metadata_of(&pdf);
    assert!(!old.is_empty());
    let xmp = "<?xpacket begin=\"\"?><x:xmpmeta>é</x:xmpmeta>";
    let out = replace_xmp_metadata(&pdf, xmp.as_bytes()).unwrap();
    let (dict, content, id) = metadata_of(&out);
    assert_eq!(id, place);
    assert_eq!(content, xmp.as_bytes());
    assert_eq!(dict.get(b"Type").unwrap().as_name().unwrap(), b"Metadata");
    assert_eq!(dict.get(b"Subtype").unwrap().as_name().unwrap(), b"XML");
    let before = Document::load_mem(&pdf).unwrap();
    let after = Document::load_mem(&out).unwrap();
    assert_eq!(before.get_pages(), after.get_pages());
    assert_eq!(before.objects.len(), after.objects.len());
    for (id, object) in &before.objects {
        if *id != place {
            assert_eq!(format!("{:?}", object), format!("{:?}", after.objects[id]));
        }
    }
    assert_eq!(out, replace_xmp_metadata(&pdf, xmp.as_bytes()).unwrap());
}

#[test]
fn bytes_that_could_not_be_read() {
    let error = ContainerError::Load("Header".to_string());
    assert_eq!(error.message(), "Erreur chargement PDF: Header");
}

#[test]
fn a_catalog_without_metadata() {
    let (pdf, _) = sample_pdf(None);
    match replace_in(&pdf, b"x") {
        Err(ContainerError::MissingMetadata) => {}
        other => panic!("{:?}", other),
    }
    assert_eq!(
        ContainerError::MissingMetadata.message(),
        "Pas de reference /Metadata dans le catalogue"
    );
}

#[test]
fn metadata_that_is_no_reference() {
    let (pdf, _) = sample_pdf(Some(Object::Integer(3)));
    match replace_in(&pdf, b"x") {
        Err(ContainerError::MetadataNotReference) => {}
        other => panic!("{:?}", other),
    }
    assert_eq!(
        ContainerError::MetadataNotReference.message(),
        "/Metadata n'est pas une reference"
    );
}

#[test]
fn lookups_and_their_errors() {
    assert!(matches!(metadata_target(MetadataLookup::Found(7, 0)), Ok((7, 0))));
    assert!(matches!(
        metadata_target(MetadataLookup::NoEntry),
        Err(ContainerError::MissingMetadata)
    ));
    assert!(matches!(
        metadata_target(MetadataLookup::NotAReference),
        Err(ContainerError::MetadataNotReference)
    ));
    match metadata_target(MetadataLookup::NoCatalog("DictKey".to_string())) {
        Err(e) => assert_eq!(e.message(), "Erreur acces catalogue: DictKey"),
        Ok(_) => panic!(),
    }
    assert_eq!(ContainerError::Save("x".to_string()).message(), "Erreur sauvegarde PDF: x");
}

#[test]
fn completing_a_pdf() {
    let pdf = written();
    let metadata = XmpMetadata {
        title: "Facture FA-1".to_string(),
        author: "Moi".to_string(),
        subject: "Facture Factur-X pour Client".to_string(),
        profile: FacturXProfile::Minimum,
        xml_filename: "factur-x.xml".to_string(),
        facturx_version: "1.0".to_string(),
    };
    let out = complete_invoice_pdf(&pdf, &metadata).unwrap();
    let packet = String::from_utf8(metadata_of(&out).1).unwrap();
    assert!(packet.contains("<pdfaid:part>3</pdfaid:part>"));
    assert!(packet.contains("<pdfaid:conformance>B</pdfaid:conformance>"));
    assert!(packet.contains("<fx:DocumentFileName>factur-x.xml</fx:DocumentFileName>"));
    assert!(packet.contains("<rdf:li xml:lang=\"x-default\">Facture FA-1</rdf:li>"));

    let mut untitled = metadata.clone();
    untitled.title = String::new();
    match complete_invoice_pdf(&pdf, &untitled) {
        Err(e @ CompletionError::Metadata(_)) => assert_eq!(
            e.message(),
            "Erreur generation XMP: Validation XMP échouée: title: Le titre du document est requis pour PDF/A-3"
        ),
        other => panic!("{:?}", other),
    }
}

#[test]
fn the_embedded_file_holds_the_xml_byte_for_byte() {
    let xml = "<?xml version=\"1.0\"?><a>é & co</a>";
    let file = embedded_xml(xml);
    assert_eq!(file.path, "factur-x.xml");
    assert_eq!(file.mime_type, "text/xml");
    assert_eq!(file.description, "Factur-X XML invoice data");
    assert_eq!(file.association_kind, AssociationKind::Data);
    assert_eq!(file.data, xml.as_bytes());
    assert_eq!(String::from_utf8(file.data).unwrap(), xml);
}

#[test]
fn a_document_is_worked_on_as_its_bytes_are() {
    let pdf = written();
    let place = metadata_of(&pdf).2;
    let document = Document::load_mem(&pdf).unwrap();
    let out = replace_document_metadata(document, b"<new/>").unwrap();
    let (dict, content, id) = metadata_of(&out);
    assert_eq!((content, id), (b"<new/>".to_vec(), place));
    assert_eq!(dict.get(b"Subtype").unwrap().as_name().unwrap(), b"XML");
    assert_eq!(out, replace_xmp_metadata(&pdf, b"<new/>").unwrap());
}

#[test]
fn documents_without_a_place_for_the_packet() {
    // no catalog at all
    match replace_document_metadata(Document::with_version("1.7"), b"<new/>") {
        Err(ContainerError::Catalog(detail)) => assert!(!detail.is_empty()),
        other => panic!("{:?}", other),
    }
    // a catalog that is no dictionary
    let mut odd = Document::with_version("1.7");
    let id = odd.add_object(Object::Integer(1));
    odd.trailer.set("Root", id);
    assert!(matches!(replace_document_metadata(odd, b"<new/>"), Err(ContainerError::Catalog(_))));
    // a catalog without the entry, and one whose entry is no reference
    let (pdf, _) = sample_pdf(None);
    let document = Document::load_mem(&pdf).unwrap();
    assert!(matches!(replace_document_metadata(document, b"<new/>"), Err(ContainerError::MissingMetadata)));
    let (pdf, _) = sample_pdf(Some(Object::Integer(7)));
    let document = Document::load_mem(&pdf).unwrap();
    assert!(matches!(
        replace_document_metadata(document, b"<new/>"),
        Err(ContainerError::MetadataNotReference)
    ));
    // the key is looked up as it is written
    let (pdf, _) = sample_pdf(None);
    let mut document = Document::load_mem(&pdf).unwrap();
    document.catalog_mut().unwrap().set("metadata", Object::Reference((1, 0)));
    assert!(matches!(replace_document_metadata(document, b"<new/>"), Err(ContainerError::MissingMetadata)));
}

#[test]
fn a_reference_to_an_object_that_is_not_there() {
    // the catalog names the place; what stands there is not looked at
    let (pdf, _) = sample_pdf(Some(Object::Reference((4242, 0))));
    let out = replace_in(&pdf, b"<new/>").unwrap();
    let doc = Document::load_mem(&out).unwrap();
    let id = doc.catalog().unwrap().get(b"Metadata").unwrap().as_reference().unwrap();
    assert_eq!(id, (4242, 0));
}

#[test]
fn errors_of_the_container_as_they_are_handed_on() {
    assert_eq!(
        CompletionError::Container(ContainerError::MissingMetadata).message(),
        "Erreur remplacement XMP: Pas de reference /Metadata dans le catalogue"
    );
    assert_eq!(
        CompletionError::Container(ContainerError::Load("Header".to_string())).message(),
        "Erreur remplacement XMP: Erreur chargement PDF: Header"
    );
}
