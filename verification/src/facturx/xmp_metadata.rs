//! The XMP packet that declares a PDF to be PDF/A-3 and to carry a
//! Factur-X invoice, and the checks on what goes into it.

use vstd::prelude::*;
use crate::calendar::{current_timestamp, spec_is_timestamp};
use crate::facturx::xml_generator::{push_escaped, spec_escape_xml};
use crate::models::error::push_if;
use crate::text::{ends_with, spec_ends_with, str_equals};

verus! {

/// The Factur-X profile of an invoice.
#[derive(Debug, Clone, Copy, PartialEq, Eq, Structural)]
pub enum FacturXProfile {
    Minimum,
    BasicWL,
    Basic,
    EN16931,
    Extended,
}

impl FacturXProfile {
    /// The URN of the profile, as text.
    pub open spec fn spec_urn(&self) -> Seq<char> {
        match self {
            FacturXProfile::Minimum => "urn:factur-x.eu:1p0:minimum"@,
            FacturXProfile::BasicWL => "urn:factur-x.eu:1p0:basicwl"@,
            FacturXProfile::Basic => "urn:factur-x.eu:1p0:basic"@,
            FacturXProfile::EN16931 => "urn:factur-x.eu:1p0:en16931"@,
            FacturXProfile::Extended => "urn:factur-x.eu:1p0:extended"@,
        }
    }

    /// The name of the profile in the XMP packet, as text.
    pub open spec fn spec_name(&self) -> Seq<char> {
        match self {
            FacturXProfile::Minimum => "MINIMUM"@,
            FacturXProfile::BasicWL => "BASIC WL"@,
            FacturXProfile::Basic => "BASIC"@,
            FacturXProfile::EN16931 => "EN 16931"@,
            FacturXProfile::Extended => "EXTENDED"@,
        }
    }

    /// The URN that identifies the profile.
    pub fn urn(&self) -> (urn: &'static str)
        ensures
            urn@ == self.spec_urn(),
    {
        match self {
            FacturXProfile::Minimum => "urn:factur-x.eu:1p0:minimum",
            FacturXProfile::BasicWL => "urn:factur-x.eu:1p0:basicwl",
            FacturXProfile::Basic => "urn:factur-x.eu:1p0:basic",
            FacturXProfile::EN16931 => "urn:factur-x.eu:1p0:en16931",
            FacturXProfile::Extended => "urn:factur-x.eu:1p0:extended",
        }
    }

    /// The name of the profile in the XMP packet.
    pub fn name(&self) -> (name: &'static str)
        ensures
            name@ == self.spec_name(),
    {
        match self {
            FacturXProfile::Minimum => "MINIMUM",
            FacturXProfile::BasicWL => "BASIC WL",
            FacturXProfile::Basic => "BASIC",
            FacturXProfile::EN16931 => "EN 16931",
            FacturXProfile::Extended => "EXTENDED",
        }
    }
}

/// The name under which the XML is embedded in a Factur-X PDF.
pub const STANDARD_XML_FILENAME: &'static str = "factur-x.xml";

pub const DEFAULT_SUBJECT: &'static str = "Facture électronique Factur-X";

pub const DEFAULT_VERSION: &'static str = "1.0";

/// What the XMP packet says of the document.
#[derive(Debug, Clone)]
pub struct XmpMetadata {
    /// The title of the document, such as "Facture FA-2024-001".
    pub title: String,
    /// Who made the document: the name of the issuer.
    pub author: String,
    pub subject: String,
    pub profile: FacturXProfile,
    /// The name of the embedded XML file.
    pub xml_filename: String,
    /// The version of Factur-X.
    pub facturx_version: String,
}

impl Default for XmpMetadata {
    /// No title and no author yet; the MINIMUM profile, the standard file
    /// name and version 1.0.
    fn default() -> (m: Self)
        ensures
            m.title@.len() == 0,
            m.author@.len() == 0,
            m.subject@ == DEFAULT_SUBJECT@,
            m.profile == FacturXProfile::Minimum,
            m.xml_filename@ == STANDARD_XML_FILENAME@,
            m.facturx_version@ == DEFAULT_VERSION@,
    {
        XmpMetadata {
            title: String::new(),
            author: String::new(),
            subject: String::from_str(DEFAULT_SUBJECT),
            profile: FacturXProfile::Minimum,
            xml_filename: String::from_str(STANDARD_XML_FILENAME),
            facturx_version: String::from_str(DEFAULT_VERSION),
        }
    }
}

/// One field of the metadata that cannot go into a packet, and why.
#[derive(Debug, Clone)]
pub struct XmpValidationError {
    pub field: String,
    pub message: String,
}

impl View for XmpValidationError {
    type V = (Seq<char>, Seq<char>);

    /// The field's name and the message, as text.
    open spec fn view(&self) -> (Seq<char>, Seq<char>) {
        (self.field@, self.message@)
    }
}

impl XmpValidationError {
    /// The field's name, a colon and the message, as text.
    pub open spec fn spec_text(&self) -> Seq<char> {
        self.field@ + ": "@ + self.message@
    }

    /// The field's name, a colon and the message.
    pub fn to_text(&self) -> (text: String)
        ensures
            text@ == self.spec_text(),
    {
        let mut text = String::from_str(self.field.as_str());
        text.append(": ");
        text.append(self.message.as_str());
        text
    }
}

/// The field names and messages of a list of errors, in order.
pub open spec fn xmp_errors_view(errors: Seq<XmpValidationError>) -> Seq<(Seq<char>, Seq<char>)> {
    errors.map_values(|e: XmpValidationError| e@)
}

/// The texts of a list of warnings, in order.
pub open spec fn warnings_view(warnings: Seq<String>) -> Seq<Seq<char>> {
    warnings.map_values(|w: String| w@)
}

/// What the checks on the metadata found.
#[derive(Debug)]
pub struct XmpValidationResult {
    pub is_valid: bool,
    pub errors: Vec<XmpValidationError>,
    pub warnings: Vec<String>,
}

impl XmpValidationResult {
    /// Nothing found.
    pub fn success() -> (r: Self)
        ensures
            r.is_valid,
            r.errors@.len() == 0,
            r.warnings@.len() == 0,
    {
        XmpValidationResult { is_valid: true, errors: Vec::new(), warnings: Vec::new() }
    }

    /// One error found, on `field`.
    pub fn with_error(field: &str, message: &str) -> (r: Self)
        ensures
            !r.is_valid,
            xmp_errors_view(r.errors@) == seq![(field@, message@)],
            r.warnings@.len() == 0,
    {
        let mut errors: Vec<XmpValidationError> = Vec::new();
        errors.push(
            XmpValidationError {
                field: String::from_str(field),
                message: String::from_str(message),
            },
        );
        assert(xmp_errors_view(errors@) =~= seq![(field@, message@)]);
        XmpValidationResult { is_valid: false, errors, warnings: Vec::new() }
    }
}

pub const MSG_TITLE: &'static str = "Le titre du document est requis pour PDF/A-3";

pub const MSG_AUTHOR: &'static str = "L'auteur du document est requis pour PDF/A-3";

pub const MSG_FILENAME_REQUIRED: &'static str = "Le nom du fichier XML embarqué est requis";

pub const MSG_FILENAME_EXTENSION: &'static str = "Le fichier XML doit avoir l'extension .xml";

pub const MSG_VERSION: &'static str = "La version Factur-X est requise";

pub const MSG_XMP_REFUSED: &'static str = "Validation XMP échouée: ";

/// The errors of the metadata, in the order of the rules: a title, an
/// author, a file name that ends in `.xml`, a version.
pub open spec fn spec_xmp_errors(metadata: &XmpMetadata) -> Seq<(Seq<char>, Seq<char>)> {
    let e0 = Seq::<(Seq<char>, Seq<char>)>::empty();
    let e1 = push_if(e0, metadata.title@.len() == 0, ("title"@, MSG_TITLE@));
    let e2 = push_if(e1, metadata.author@.len() == 0, ("author"@, MSG_AUTHOR@));
    let e3 = if metadata.xml_filename@.len() == 0 {
        e2.push(("xml_filename"@, MSG_FILENAME_REQUIRED@))
    } else {
        push_if(
            e2,
            !spec_ends_with(metadata.xml_filename@, ".xml"@),
            ("xml_filename"@, MSG_FILENAME_EXTENSION@),
        )
    };
    push_if(e3, metadata.facturx_version@.len() == 0, ("facturx_version"@, MSG_VERSION@))
}

/// The warning on a file name that is not the standard one.
pub open spec fn spec_filename_warning(filename: Seq<char>) -> Seq<char> {
    "Le nom de fichier XML '"@ + filename + "' n'est pas le nom standard 'factur-x.xml'"@
}

/// The warnings on the metadata: one where the file name is not the
/// standard one.
pub open spec fn spec_xmp_warnings(metadata: &XmpMetadata) -> Seq<Seq<char>> {
    push_if(
        Seq::<Seq<char>>::empty(),
        metadata.xml_filename@ != STANDARD_XML_FILENAME@,
        spec_filename_warning(metadata.xml_filename@),
    )
}

/// Adds an error on `field` to `errors`.
fn push_xmp_error(errors: &mut Vec<XmpValidationError>, field: &str, message: &str)
    ensures
        xmp_errors_view(final(errors)@) == xmp_errors_view(old(errors)@).push((field@, message@)),
{
    errors.push(
        XmpValidationError { field: String::from_str(field), message: String::from_str(message) },
    );
    assert(xmp_errors_view(final(errors)@) =~= xmp_errors_view(old(errors)@).push(
        (field@, message@),
    ));
}

/// Checks the metadata rule by rule.  Every broken rule is reported; a
/// warning does not make the metadata invalid.
pub fn validate_xmp_metadata(metadata: &XmpMetadata) -> (result: XmpValidationResult)
    ensures
        xmp_errors_view(result.errors@) == spec_xmp_errors(metadata),
        warnings_view(result.warnings@) == spec_xmp_warnings(metadata),
        result.is_valid == (spec_xmp_errors(metadata).len() == 0),
{
    let mut errors: Vec<XmpValidationError> = Vec::new();
    let mut warnings: Vec<String> = Vec::new();
    assert(xmp_errors_view(errors@) =~= Seq::<(Seq<char>, Seq<char>)>::empty());
    assert(warnings_view(warnings@) =~= Seq::<Seq<char>>::empty());
    if metadata.title.as_str().unicode_len() == 0 {
        push_xmp_error(&mut errors, "title", MSG_TITLE);
    }
    if metadata.author.as_str().unicode_len() == 0 {
        push_xmp_error(&mut errors, "author", MSG_AUTHOR);
    }
    if metadata.xml_filename.as_str().unicode_len() == 0 {
        push_xmp_error(&mut errors, "xml_filename", MSG_FILENAME_REQUIRED);
    } else if !ends_with(metadata.xml_filename.as_str(), ".xml") {
        push_xmp_error(&mut errors, "xml_filename", MSG_FILENAME_EXTENSION);
    }
    if !str_equals(metadata.xml_filename.as_str(), STANDARD_XML_FILENAME) {
        let mut warning = String::from_str("Le nom de fichier XML '");
        warning.append(metadata.xml_filename.as_str());
        warning.append("' n'est pas le nom standard 'factur-x.xml'");
        warnings.push(warning);
        assert(warnings_view(warnings@) =~= spec_xmp_warnings(metadata));
    }
    if metadata.facturx_version.as_str().unicode_len() == 0 {
        push_xmp_error(&mut errors, "facturx_version", MSG_VERSION);
    }
    assert(xmp_errors_view(errors@).len() == errors@.len());
    XmpValidationResult { is_valid: errors.len() == 0, errors, warnings }
}

/// The metadata that cannot go into a packet: the errors found in it.
#[derive(Debug)]
pub struct XmpError {
    pub errors: Vec<XmpValidationError>,
}

/// The errors as text, each as its field, a colon and its message, with
/// `"; "` between them.
pub open spec fn spec_joined_errors(errors: Seq<(Seq<char>, Seq<char>)>) -> Seq<char>
    decreases errors.len(),
{
    if errors.len() == 0 {
        Seq::empty()
    } else if errors.len() == 1 {
        errors[0].0 + ": "@ + errors[0].1
    } else {
        spec_joined_errors(errors.drop_last()) + "; "@ + errors.last().0 + ": "@ + errors.last().1
    }
}

impl XmpError {
    /// What the error says, as text: every field error, one after the other.
    pub open spec fn spec_message(&self) -> Seq<char> {
        MSG_XMP_REFUSED@ + spec_joined_errors(xmp_errors_view(self.errors@))
    }

    /// What the error says.
    pub fn message(&self) -> (m: String)
        ensures
            m@ == self.spec_message(),
    {
        let mut joined = String::new();
        let mut i: usize = 0;
        let ghost all = xmp_errors_view(self.errors@);
        assert(all.take(0) =~= Seq::<(Seq<char>, Seq<char>)>::empty());
        while i < self.errors.len()
            invariant
                i <= self.errors.len(),
                all == xmp_errors_view(self.errors@),
                joined@ == spec_joined_errors(all.take(i as int)),
            decreases self.errors.len() - i,
        {
            proof {
                assert(all.take(i + 1).drop_last() =~= all.take(i as int));
                assert(all.take(i + 1).last() == self.errors@[i as int]@);
            }
            let ghost before = joined@;
            if i > 0 {
                joined.append("; ");
            }
            joined.append(self.errors[i].field.as_str());
            joined.append(": ");
            joined.append(self.errors[i].message.as_str());
            proof {
                if i == 0 {
                    assert(all.take(1)[0] == self.errors@[0]@);
                    assert(joined@ =~= spec_joined_errors(all.take(1)));
                }
            }
            i += 1;
        }
        assert(all.take(all.len() as int) =~= all);
        let mut m = String::from_str(MSG_XMP_REFUSED);
        m.append(joined.as_str());
        m
    }
}

pub const XMP_OPEN: &'static str =
    "<?xpacket begin=\"\" id=\"W5M0MpCehiHzreSzNTczkc9d\"?>\n<x:xmpmeta xmlns:x=\"adobe:ns:meta/\">\n  <rdf:RDF xmlns:rdf=\"http://www.w3.org/1999/02/22-rdf-syntax-ns#\">\n\n    <!-- Dublin Core -->\n    <rdf:Description rdf:about=\"\"\n        xmlns:dc=\"http://purl.org/dc/elements/1.1/\">\n      <dc:format>application/pdf</dc:format>\n      <dc:title>\n        <rdf:Alt>\n          <rdf:li xml:lang=\"x-default\">";

pub const XMP_CREATOR: &'static str =
    "</rdf:li>\n        </rdf:Alt>\n      </dc:title>\n      <dc:creator>\n        <rdf:Seq>\n          <rdf:li>";

pub const XMP_DESCRIPTION: &'static str =
    "</rdf:li>\n        </rdf:Seq>\n      </dc:creator>\n      <dc:description>\n        <rdf:Alt>\n          <rdf:li xml:lang=\"x-default\">";

pub const XMP_CREATE_DATE: &'static str =
    "</rdf:li>\n        </rdf:Alt>\n      </dc:description>\n    </rdf:Description>\n\n    <!-- XMP Basic -->\n    <rdf:Description rdf:about=\"\"\n        xmlns:xmp=\"http://ns.adobe.com/xap/1.0/\">\n      <xmp:CreatorTool>Generate-Factur-X</xmp:CreatorTool>\n      <xmp:CreateDate>";

pub const XMP_MODIFY_DATE: &'static str =
    "</xmp:CreateDate>\n      <xmp:ModifyDate>";

pub const XMP_METADATA_DATE: &'static str =
    "</xmp:ModifyDate>\n      <xmp:MetadataDate>";

pub const XMP_DATES_END: &'static str =
    "</xmp:MetadataDate>\n    </rdf:Description>\n\n";

pub const XMP_PRODUCER: &'static str =
    "    <!-- PDF Properties -->\n    <rdf:Description rdf:about=\"\"\n        xmlns:pdf=\"http://ns.adobe.com/pdf/1.3/\">\n      <pdf:Producer>Generate-Factur-X (printpdf + lopdf)</pdf:Producer>\n    </rdf:Description>\n\n";

pub const XMP_PDFA_IDENTIFICATION: &'static str =
    "    <!-- PDF/A Identification -->\n    <rdf:Description rdf:about=\"\"\n        xmlns:pdfaid=\"http://www.aiim.org/pdfa/ns/id/\">\n      <pdfaid:part>3</pdfaid:part>\n      <pdfaid:conformance>B</pdfaid:conformance>\n    </rdf:Description>\n\n";

pub const XMP_EXTENSION_SCHEMA: &'static str =
    "    <!-- PDF/A Extension Schema for Factur-X -->\n    <rdf:Description rdf:about=\"\"\n        xmlns:pdfaExtension=\"http://www.aiim.org/pdfa/ns/extension/\"\n        xmlns:pdfaSchema=\"http://www.aiim.org/pdfa/ns/schema#\"\n        xmlns:pdfaProperty=\"http://www.aiim.org/pdfa/ns/property#\">\n      <pdfaExtension:schemas>\n        <rdf:Bag>\n          <rdf:li rdf:parseType=\"Resource\">\n            <pdfaSchema:schema>Factur-X PDFA Extension Schema</pdfaSchema:schema>\n            <pdfaSchema:namespaceURI>urn:factur-x:pdfa:CrossIndustryDocument:invoice:1p0#</pdfaSchema:namespaceURI>\n            <pdfaSchema:prefix>fx</pdfaSchema:prefix>\n            <pdfaSchema:property>\n              <rdf:Seq>\n                <rdf:li rdf:parseType=\"Resource\">\n                  <pdfaProperty:name>DocumentFileName</pdfaProperty:name>\n                  <pdfaProperty:valueType>Text</pdfaProperty:valueType>\n                  <pdfaProperty:category>external</pdfaProperty:category>\n                  <pdfaProperty:description>Name of the embedded XML invoice file</pdfaProperty:description>\n                </rdf:li>\n                <rdf:li rdf:parseType=\"Resource\">\n                  <pdfaProperty:name>DocumentType</pdfaProperty:name>\n                  <pdfaProperty:valueType>Text</pdfaProperty:valueType>\n                  <pdfaProperty:category>external</pdfaProperty:category>\n                  <pdfaProperty:description>INVOICE</pdfaProperty:description>\n                </rdf:li>\n                <rdf:li rdf:parseType=\"Resource\">\n                  <pdfaProperty:name>Version</pdfaProperty:name>\n                  <pdfaProperty:valueType>Text</pdfaProperty:valueType>\n                  <pdfaProperty:category>external</pdfaProperty:category>\n                  <pdfaProperty:description>Version of the Factur-X standard</pdfaProperty:description>\n                </rdf:li>\n                <rdf:li rdf:parseType=\"Resource\">\n                  <pdfaProperty:name>ConformanceLevel</pdfaProperty:name>\n                  <pdfaProperty:valueType>Text</pdfaProperty:valueType>\n                  <pdfaProperty:category>external</pdfaProperty:category>\n                  <pdfaProperty:description>Conformance level of the Factur-X invoice</pdfaProperty:description>\n                </rdf:li>\n              </rdf:Seq>\n            </pdfaSchema:property>\n          </rdf:li>\n        </rdf:Bag>\n      </pdfaExtension:schemas>\n    </rdf:Description>\n\n";

pub const XMP_FILE_NAME: &'static str =
    "    <!-- Factur-X Specific Metadata -->\n    <rdf:Description rdf:about=\"\"\n        xmlns:fx=\"urn:factur-x:pdfa:CrossIndustryDocument:invoice:1p0#\">\n      <fx:DocumentFileName>";

pub const XMP_VERSION: &'static str =
    "</fx:DocumentFileName>\n      <fx:DocumentType>INVOICE</fx:DocumentType>\n      <fx:Version>";

pub const XMP_CONFORMANCE_LEVEL: &'static str =
    "</fx:Version>\n      <fx:ConformanceLevel>";

pub const XMP_CLOSE: &'static str =
    "</fx:ConformanceLevel>\n    </rdf:Description>\n\n  </rdf:RDF>\n</x:xmpmeta>\n<?xpacket end=\"w\"?>";


/// The XMP packet of `metadata`, stamped with `timestamp` as the time of
/// creation, of modification and of the metadata.  It holds the Dublin
/// Core title, creator and description, the XMP dates, the producer, the
/// PDF/A identification (part 3, conformance B), the extension schema that
/// declares the four Factur-X properties, and the values of those
/// properties.  The fields of `metadata` are escaped.
pub open spec fn spec_xmp_packet(metadata: &XmpMetadata, timestamp: Seq<char>) -> Seq<char> {
    XMP_OPEN@ + spec_escape_xml(metadata.title@) + XMP_CREATOR@ + spec_escape_xml(metadata.author@)
        + XMP_DESCRIPTION@ + spec_escape_xml(metadata.subject@) + XMP_CREATE_DATE@ + timestamp
        + XMP_MODIFY_DATE@ + timestamp + XMP_METADATA_DATE@ + timestamp + XMP_DATES_END@
        + XMP_PRODUCER@ + XMP_PDFA_IDENTIFICATION@ + XMP_EXTENSION_SCHEMA@ + XMP_FILE_NAME@
        + spec_escape_xml(metadata.xml_filename@) + XMP_VERSION@ + spec_escape_xml(
        metadata.facturx_version@,
    ) + XMP_CONFORMANCE_LEVEL@ + metadata.profile.spec_name() + XMP_CLOSE@
}

/// Writes the XMP packet of `metadata` with the given time stamp.
pub fn render_xmp_metadata(metadata: &XmpMetadata, timestamp: &str) -> (xmp: String)
    ensures
        xmp@ == spec_xmp_packet(metadata, timestamp@),
{
    let mut xmp = String::from_str(XMP_OPEN);
    push_escaped(&mut xmp, metadata.title.as_str());
    xmp.append(XMP_CREATOR);
    push_escaped(&mut xmp, metadata.author.as_str());
    xmp.append(XMP_DESCRIPTION);
    push_escaped(&mut xmp, metadata.subject.as_str());
    xmp.append(XMP_CREATE_DATE);
    xmp.append(timestamp);
    xmp.append(XMP_MODIFY_DATE);
    xmp.append(timestamp);
    xmp.append(XMP_METADATA_DATE);
    xmp.append(timestamp);
    xmp.append(XMP_DATES_END);
    xmp.append(XMP_PRODUCER);
    xmp.append(XMP_PDFA_IDENTIFICATION);
    xmp.append(XMP_EXTENSION_SCHEMA);
    xmp.append(XMP_FILE_NAME);
    push_escaped(&mut xmp, metadata.xml_filename.as_str());
    xmp.append(XMP_VERSION);
    push_escaped(&mut xmp, metadata.facturx_version.as_str());
    xmp.append(XMP_CONFORMANCE_LEVEL);
    xmp.append(metadata.profile.name());
    xmp.append(XMP_CLOSE);
    xmp
}

/// What the generator returned, as sequences of characters.
pub open spec fn xmp_result_view(r: Result<String, XmpError>) -> Result<
    Seq<char>,
    Seq<(Seq<char>, Seq<char>)>,
> {
    match r {
        Ok(xmp) => Ok(xmp@),
        Err(e) => Err(xmp_errors_view(e.errors@)),
    }
}

/// What becomes of metadata in the generator at the time `timestamp`:
/// metadata with errors is refused with all of them, any other is written
/// as a packet.
pub open spec fn spec_xmp_outcome(metadata: &XmpMetadata, timestamp: Seq<char>) -> Result<
    Seq<char>,
    Seq<(Seq<char>, Seq<char>)>,
> {
    if spec_xmp_errors(metadata).len() > 0 {
        Err(spec_xmp_errors(metadata))
    } else {
        Ok(spec_xmp_packet(metadata, timestamp))
    }
}

/// The same metadata at the same time gives the same packet, or the same
/// refusal, every time.
pub proof fn lemma_xmp_is_determined(
    metadata: &XmpMetadata,
    timestamp: Seq<char>,
    first: Result<String, XmpError>,
    second: Result<String, XmpError>,
)
    requires
        xmp_result_view(first) == spec_xmp_outcome(metadata, timestamp),
        xmp_result_view(second) == spec_xmp_outcome(metadata, timestamp),
    ensures
        xmp_result_view(first) == xmp_result_view(second),
        first is Ok ==> second is Ok && first->Ok_0@ == second->Ok_0@,
{
}

/// Checks the metadata and, where it is valid, writes its XMP packet with
/// `timestamp`; else returns the errors found.
pub fn generate_xmp_metadata_at(metadata: &XmpMetadata, timestamp: &str) -> (r: Result<
    String,
    XmpError,
>)
    ensures
        xmp_result_view(r) == spec_xmp_outcome(metadata, timestamp@),
{
    let validation = validate_xmp_metadata(metadata);
    if !validation.is_valid {
        return Err(XmpError { errors: validation.errors });
    }
    Ok(render_xmp_metadata(metadata, timestamp))
}

/// Checks the metadata and, where it is valid, writes its XMP packet,
/// stamped three times with the one present moment, written as universal
/// time with its offset; else returns the errors found.
pub fn generate_xmp_metadata(metadata: &XmpMetadata) -> (r: Result<String, XmpError>)
    ensures
        exists|timestamp: Seq<char>|
            spec_is_timestamp(timestamp) && xmp_result_view(r) == #[trigger] spec_xmp_outcome(
                metadata,
                timestamp,
            ),
{
    let timestamp = current_timestamp();
    generate_xmp_metadata_at(metadata, timestamp.as_str())
}

} // verus!
