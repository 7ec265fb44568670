//! The PDF document of an invoice: it is made so that it is held to
//! PDF/A-3b, the XML is embedded in it as an associated file, and it is
//! written.  The page is drawn by whoever holds the document in between.

use vstd::prelude::*;
use crate::facturx::pdf_generator::{AssociationKind, EmbeddedXml, XML_MIME_TYPE};
use crate::session::{spec_all_digits, spec_digit_value, spec_digits_value};
use crate::text::{chars_of, is_ascii_digit, spec_is_ascii_digit};

verus! {

#[verifier::external_type_specification]
#[verifier::external_body]
pub struct ExPdfDocument(krilla::Document);

#[verifier::external_type_specification]
#[verifier::external_body]
pub struct ExConfiguration(krilla::configure::Configuration);

#[verifier::external_type_specification]
#[verifier::external_body]
pub struct ExConfigurationError(krilla::configure::ConfigurationError);

#[verifier::external_type_specification]
#[verifier::external_body]
pub struct ExMimeType(krilla::embed::MimeType);

#[verifier::external_type_specification]
#[verifier::external_body]
pub struct ExKrillaError(krilla::error::KrillaError);

#[verifier::external_type_specification]
#[verifier::external_body]
pub struct ExValidationError(krilla::configure::ValidationError);

#[verifier::external_type_specification]
#[verifier::external_body]
pub struct ExValidators(krilla::configure::Validators);

/// The names under which `document` holds embedded files.
pub uninterp spec fn embedded_names(document: krilla::Document) -> Set<Seq<char>>;

/// The archival forms of PDF that a document is held to.
#[derive(Debug, Clone, Copy, PartialEq, Eq, Structural)]
pub enum ArchivalForm {
    /// PDF/A-3, conformance level B.
    A3B,
}

/// `krilla::configure::ConfigurationBuilder`, with
/// `with_archival_validator` and `finish`: the configuration that holds a
/// document to the archival form.  `finish` refuses validators whose
/// ranges of PDF versions do not meet, and a version set outside their
/// range; with the one validator and no version set it returns a
/// configuration.
#[verifier::external_body]
fn archival_configuration(form: ArchivalForm) -> (r: Result<
    krilla::configure::Configuration,
    krilla::configure::ConfigurationError,
>)
    ensures
        r is Ok,
{
    krilla::configure::ConfigurationBuilder::new().with_archival_validator(
        match form {
            ArchivalForm::A3B => krilla::configure::Archival::A3_B,
        },
    ).finish()
}

/// `krilla::Document::new_with`: an empty document with the given
/// configuration, all other settings as they are by default.  It holds no
/// embedded file yet.
#[verifier::external_body]
fn document_with(configuration: krilla::configure::Configuration) -> (document: krilla::Document)
    ensures
        embedded_names(document) == Set::<Seq<char>>::empty(),
{
    krilla::Document::new_with(krilla::SerializeSettings { configuration, ..Default::default() })
}

/// The `Debug` text of a `krilla::configure::ConfigurationError`.
#[verifier::external_body]
fn describe_configuration_error(error: &krilla::configure::ConfigurationError) -> String {
    format!("{:?}", error)
}

/// A character that may stand in either part of a MIME type: a letter
/// `a` to `z` or `A` to `Z`, a digit, `-`, `+` or `.`.
pub open spec fn spec_is_mime_char(c: char) -> bool {
    let u = c as u32;
    ||| 0x30 <= u <= 0x39
    ||| 0x41 <= u <= 0x5A
    ||| 0x61 <= u <= 0x7A
    ||| c == '-'
    ||| c == '+'
    ||| c == '.'
}

/// `s` is taken for a MIME type: two parts with one `/` between them,
/// neither part empty, both made of the characters that may stand there.
pub open spec fn spec_is_mime_type(s: Seq<char>) -> bool {
    exists|i: int|
        0 < i < s.len() - 1 && #[trigger] s[i] == '/' && forall|j: int|
            0 <= j < s.len() && j != i ==> spec_is_mime_char(#[trigger] s[j])
}

/// The MIME type under which the XML of an invoice is embedded is one
/// that is taken for a MIME type.
pub proof fn lemma_xml_mime_type_is_taken()
    ensures
        spec_is_mime_type(XML_MIME_TYPE@),
{
    reveal_strlit("text/xml");
    let s = XML_MIME_TYPE@;
    assert(s[4] == '/');
    assert forall|j: int| 0 <= j < s.len() && j != 4 implies spec_is_mime_char(#[trigger] s[j]) by {
        assert(s[0] == 't' && s[1] == 'e' && s[2] == 'x' && s[3] == 't' && s[5] == 'x' && s[6]
            == 'm' && s[7] == 'l');
    }
}

/// `krilla::embed::MimeType::new`: the MIME type of that text, where the
/// text is taken for one: krilla splits it at `/`, wants two parts, and of
/// each part that it is not empty and made of ASCII letters, digits, `-`,
/// `+` and `.`.
#[verifier::external_body]
fn mime_type_of(text: &str) -> (r: Option<krilla::embed::MimeType>)
    ensures
        r is Some <==> spec_is_mime_type(text@),
{
    krilla::embed::MimeType::new(text)
}

/// `krilla::Document::embed_file`: embeds the file, dated with
/// `krilla::metadata::DateTime`.  krilla puts the file under its name in
/// the map of the embedded files, in place of what stood under that name,
/// and says whether the name was new to the map.
#[verifier::external_body]
fn embed_file(
    document: &mut krilla::Document,
    file: EmbeddedXml,
    mime_type: krilla::embed::MimeType,
    date: ModificationDate,
) -> (fresh: bool)
    ensures
        fresh == !embedded_names(*old(document)).contains(file.path@),
        embedded_names(*final(document)) == embedded_names(*old(document)).insert(file.path@),
{
    document.embed_file(krilla::embed::EmbeddedFile {
        path: file.path,
        mime_type: Some(mime_type),
        description: Some(file.description),
        association_kind: match file.association_kind {
            AssociationKind::Data => krilla::embed::AssociationKind::Data,
        },
        data: file.data.into(),
        modification_date: Some(krilla::metadata::DateTime::new(date.year).month(date.month).day(
            date.day).hour(date.hour).minute(date.minute).second(date.second)),
        compress: Some(file.compress),
        location: None,
    }).is_some()
}

/// What writing a document comes to, in plain values.
pub enum FinishView {
    /// The bytes of the PDF.
    Written(Seq<u8>),
    /// The document is not of the form that it is held to; one text for
    /// each fault, in the order of the PDF writer's list.
    Invalid(Seq<Seq<char>>),
    /// The document could not be written; what the PDF writer said.
    Failed(Seq<char>),
}

/// What `krilla::Document::finish` returns for `document`.
pub uninterp spec fn krilla_finish(document: krilla::Document) -> FinishView;

/// The `Debug` text of `error`.
pub uninterp spec fn krilla_error_text(error: krilla::error::KrillaError) -> Seq<char>;

/// The `Debug` text of each entry of the list that `error` holds, where it
/// is the variant `Validation`; nothing where it is another.
pub uninterp spec fn krilla_error_faults(error: krilla::error::KrillaError) -> Option<
    Seq<Seq<char>>,
>;

/// The `Debug` text of one entry of a list of validation errors.
pub uninterp spec fn krilla_fault_text(
    entry: (krilla::configure::ValidationError, krilla::configure::Validators),
) -> Seq<char>;

/// What an error of the PDF writer comes to, in plain values.
pub open spec fn spec_failure(error: krilla::error::KrillaError) -> FinishView {
    match krilla_error_faults(error) {
        Some(faults) => FinishView::Invalid(faults),
        None => FinishView::Failed(krilla_error_text(error)),
    }
}

/// What the PDF writer returned, in plain values.
pub open spec fn spec_finish_view(result: Result<Vec<u8>, krilla::error::KrillaError>)
    -> FinishView {
    match result {
        Ok(bytes) => FinishView::Written(bytes@),
        Err(error) => spec_failure(error),
    }
}

/// The texts of the entries of a list of validation errors, in order.
pub open spec fn spec_fault_texts(
    entries: Seq<(krilla::configure::ValidationError, krilla::configure::Validators)>,
) -> Seq<Seq<char>> {
    Seq::new(entries.len(), |i: int| krilla_fault_text(entries[i]))
}

/// `bytes` is a PDF as the PDF writer returns one.
pub open spec fn spec_written_pdf(bytes: Seq<u8>) -> bool {
    exists|document: krilla::Document| #[trigger]
        krilla_finish(document) == FinishView::Written(bytes)
}

/// `krilla::Document::finish`: the bytes of the PDF, or why it could not
/// be written.  What it returns depends on the document alone, and is
/// given the name `krilla_finish`.
#[verifier::external_body]
fn finish_document(document: krilla::Document) -> (r: Result<
    Vec<u8>,
    krilla::error::KrillaError,
>)
    ensures
        spec_finish_view(r) == krilla_finish(document),
{
    document.finish()
}

/// Tells the variant `Validation` of `krilla::error::KrillaError` from the
/// others, and hands out the list that it holds; any other error comes
/// back as it is.
#[verifier::external_body]
fn validation_errors(error: krilla::error::KrillaError) -> (r: Result<
    Vec<(krilla::configure::ValidationError, krilla::configure::Validators)>,
    krilla::error::KrillaError,
>)
    ensures
        match r {
            Ok(entries) => krilla_error_faults(error) == Some(spec_fault_texts(entries@)),
            Err(other) => krilla_error_faults(error) is None && other == error,
        },
{
    match error {
        krilla::error::KrillaError::Validation(errors) => Ok(errors),
        other => Err(other),
    }
}

/// The `Debug` text of one entry of krilla's list of validation errors.
#[verifier::external_body]
fn describe_validation_error(
    error: &(krilla::configure::ValidationError, krilla::configure::Validators),
) -> (text: String)
    ensures
        text@ == krilla_fault_text(*error),
{
    format!("{:?}", error)
}

/// The `Debug` text of a `krilla::error::KrillaError`.
#[verifier::external_body]
fn describe_krilla_error(error: &krilla::error::KrillaError) -> (text: String)
    ensures
        text@ == krilla_error_text(*error),
{
    format!("{:?}", error)
}

/// The day and the time at which a file was last changed.
#[derive(Debug, Clone, Copy, PartialEq, Eq, Structural)]
pub struct ModificationDate {
    pub year: u16,
    pub month: u8,
    pub day: u8,
    pub hour: u8,
    pub minute: u8,
    pub second: u8,
}

/// The number written at `from..to` in `stamp`, where digits and nothing
/// else stand there; `otherwise` where they do not.
pub open spec fn spec_stamp_field(stamp: Seq<char>, from: int, to: int, otherwise: nat) -> nat {
    if 0 <= from <= to <= stamp.len() && spec_all_digits(stamp.subrange(from, to)) {
        spec_digits_value(stamp.subrange(from, to))
    } else {
        otherwise
    }
}

/// The day and the time that a time stamp of the form
/// `YYYY-MM-DDTHH:MM:SS` names, read place by place.  A part that is not
/// written in digits is taken from the first of January 2024, midnight.
pub open spec fn spec_modification_date(stamp: Seq<char>) -> ModificationDate {
    ModificationDate {
        year: spec_stamp_field(stamp, 0, 4, 2024) as u16,
        month: spec_stamp_field(stamp, 5, 7, 1) as u8,
        day: spec_stamp_field(stamp, 8, 10, 1) as u8,
        hour: spec_stamp_field(stamp, 11, 13, 0) as u8,
        minute: spec_stamp_field(stamp, 14, 16, 0) as u8,
        second: spec_stamp_field(stamp, 17, 19, 0) as u8,
    }
}

/// Ten to the power of `n`.
spec fn spec_power_of_ten(n: nat) -> nat
    decreases n,
{
    if n == 0 {
        1
    } else {
        10 * spec_power_of_ten((n - 1) as nat)
    }
}

/// Reads the number written at `from..to`.
fn stamp_field(stamp: &Vec<char>, from: usize, to: usize, otherwise: u16) -> (r: u16)
    requires
        from <= to <= from + 4,
    ensures
        r == spec_stamp_field(stamp@, from as int, to as int, otherwise as nat),
        to - from <= 2 && otherwise <= 99 ==> r <= 99,
{
    if to > stamp.len() {
        return otherwise;
    }
    let ghost field = stamp@.subrange(from as int, to as int);
    let mut value: u16 = 0;
    let mut i: usize = from;
    proof {
        assert(field.take(0) =~= Seq::<char>::empty());
        reveal_with_fuel(spec_power_of_ten, 6);
    }
    while i < to
        invariant
            from <= i <= to <= stamp.len(),
            to <= from + 4,
            field == stamp@.subrange(from as int, to as int),
            value == spec_digits_value(field.take(i - from)),
            value < spec_power_of_ten((i - from) as nat),
            spec_all_digits(field.take(i - from)),
        decreases to - i,
    {
        proof {
            reveal_with_fuel(spec_power_of_ten, 6);
            assert(field.take(i - from + 1).drop_last() =~= field.take(i - from));
            assert(field.take(i - from + 1).last() == stamp@[i as int]);
        }
        let c = stamp[i];
        if !is_ascii_digit(c) {
            proof {
                assert(field[i - from] == c);
                assert(!spec_all_digits(field));
            }
            return otherwise;
        }
        let digit: u16 = (c as u32 - 0x30) as u16;
        assert(digit == spec_digit_value(c));
        value = value * 10 + digit;
        i += 1;
        proof {
            assert forall|k: int| 0 <= k < i - from implies spec_is_ascii_digit(
                #[trigger] field.take(i - from)[k],
            ) by {
                if k < i - from - 1 {
                    assert(field.take(i - from - 1)[k] == field.take(i - from)[k]);
                }
            }
        }
    }
    proof {
        assert(field.take(to - from) =~= field);
        reveal_with_fuel(spec_power_of_ten, 6);
    }
    value
}

/// The day and the time that a time stamp names.
pub fn modification_date(stamp: &str) -> (date: ModificationDate)
    ensures
        date == spec_modification_date(stamp@),
{
    let chars = chars_of(stamp);
    let year: u16 = stamp_field(&chars, 0, 4, 2024);
    let month: u16 = stamp_field(&chars, 5, 7, 1);
    let day: u16 = stamp_field(&chars, 8, 10, 1);
    let hour: u16 = stamp_field(&chars, 11, 13, 0);
    let minute: u16 = stamp_field(&chars, 14, 16, 0);
    let second: u16 = stamp_field(&chars, 17, 19, 0);
    ModificationDate {
        year,
        month: month as u8,
        day: day as u8,
        hour: hour as u8,
        minute: minute as u8,
        second: second as u8,
    }
}

/// The texts of `parts`, each as a sequence of characters.
pub open spec fn spec_texts(parts: Seq<String>) -> Seq<Seq<char>> {
    Seq::new(parts.len(), |i: int| parts[i]@)
}

/// `parts` one after the other, with `separator` between each two.
pub open spec fn spec_join(parts: Seq<Seq<char>>, separator: Seq<char>) -> Seq<char>
    decreases parts.len(),
{
    if parts.len() == 0 {
        Seq::empty()
    } else if parts.len() == 1 {
        parts[0]
    } else {
        spec_join(parts.drop_last(), separator) + separator + parts.last()
    }
}

/// Appends `parts` to `out`, with `separator` between each two.
pub fn push_joined(out: &mut String, parts: &Vec<String>, separator: &str)
    ensures
        final(out)@ == old(out)@ + spec_join(spec_texts(parts@), separator@),
{
    let ghost texts = spec_texts(parts@);
    let mut i: usize = 0;
    assert(texts.take(0) =~= Seq::<Seq<char>>::empty());
    assert(out@ =~= old(out)@ + spec_join(texts.take(0), separator@));
    while i < parts.len()
        invariant
            i <= parts.len(),
            texts == spec_texts(parts@),
            out@ == old(out)@ + spec_join(texts.take(i as int), separator@),
        decreases parts.len() - i,
    {
        proof {
            assert(texts.take(i + 1).drop_last() =~= texts.take(i as int));
            assert(texts.take(i + 1).last() == parts@[i as int]@);
        }
        if i > 0 {
            out.append(separator);
        }
        out.append(parts[i].as_str());
        i += 1;
        assert(out@ =~= old(out)@ + spec_join(texts.take(i as int), separator@));
    }
    assert(texts.take(parts@.len() as int) =~= texts);
}

pub const MSG_CONFIGURATION: &'static str = "Erreur configuration PDF: ";

pub const MSG_MIME_TYPE: &'static str = "Erreur creation MimeType";

pub const MSG_EMBEDDING: &'static str = "Fichier deja embarque: ";

pub const MSG_VALIDATION: &'static str = "Erreurs de validation PDF/A-3: ";

pub const VALIDATION_SEPARATOR: &'static str = "; ";

pub const MSG_GENERATION: &'static str = "Erreur generation PDF: ";

/// Why the document could not be made or written.  The texts that some of
/// the errors hold are what the PDF writer said.
#[derive(Debug, Clone)]
pub enum DocumentError {
    /// No document can be held to PDF/A-3b.
    Configuration(String),
    /// The MIME type of the file to embed was not taken for one.
    MimeType,
    /// The document already held a file under that name.
    Embedding(String),
    /// The document is not PDF/A-3b; each text names one fault.
    Validation(Vec<String>),
    /// The document could not be written.
    Generation(String),
}

/// A `DocumentError`, its texts as sequences of characters.
pub enum DocumentErrorView {
    Configuration(Seq<char>),
    MimeType,
    Embedding(Seq<char>),
    Validation(Seq<Seq<char>>),
    Generation(Seq<char>),
}

impl View for DocumentError {
    type V = DocumentErrorView;

    open spec fn view(&self) -> DocumentErrorView {
        match self {
            DocumentError::Configuration(detail) => DocumentErrorView::Configuration(detail@),
            DocumentError::MimeType => DocumentErrorView::MimeType,
            DocumentError::Embedding(name) => DocumentErrorView::Embedding(name@),
            DocumentError::Validation(faults) => DocumentErrorView::Validation(
                spec_texts(faults@),
            ),
            DocumentError::Generation(detail) => DocumentErrorView::Generation(detail@),
        }
    }
}

impl DocumentError {
    /// What the error says, as text.
    pub open spec fn spec_message(&self) -> Seq<char> {
        match self {
            DocumentError::Configuration(detail) => MSG_CONFIGURATION@ + detail@,
            DocumentError::MimeType => MSG_MIME_TYPE@,
            DocumentError::Embedding(name) => MSG_EMBEDDING@ + name@,
            DocumentError::Validation(faults) => MSG_VALIDATION@ + spec_join(
                spec_texts(faults@),
                VALIDATION_SEPARATOR@,
            ),
            DocumentError::Generation(detail) => MSG_GENERATION@ + detail@,
        }
    }

    /// What the error says.
    pub fn message(&self) -> (m: String)
        ensures
            m@ == self.spec_message(),
    {
        match self {
            DocumentError::Configuration(detail) => {
                let mut m = String::from_str(MSG_CONFIGURATION);
                m.append(detail.as_str());
                m
            },
            DocumentError::MimeType => String::from_str(MSG_MIME_TYPE),
            DocumentError::Embedding(name) => {
                let mut m = String::from_str(MSG_EMBEDDING);
                m.append(name.as_str());
                m
            },
            DocumentError::Validation(faults) => {
                let mut m = String::from_str(MSG_VALIDATION);
                push_joined(&mut m, faults, VALIDATION_SEPARATOR);
                m
            },
            DocumentError::Generation(detail) => {
                let mut m = String::from_str(MSG_GENERATION);
                m.append(detail.as_str());
                m
            },
        }
    }
}

/// An empty document that is held to PDF/A-3b when it is written.  There
/// always is one: the error is that of the PDF writer's interface, which
/// refuses settings that this function does not make.
pub fn new_invoice_document() -> (r: Result<krilla::Document, DocumentError>)
    ensures
        r is Ok,
        embedded_names(r->Ok_0) == Set::<Seq<char>>::empty(),
{
    match archival_configuration(ArchivalForm::A3B) {
        Ok(configuration) => Ok(document_with(configuration)),
        Err(e) => Err(DocumentError::Configuration(describe_configuration_error(&e))),
    }
}

/// What becomes of embedding a file in a document that holds files under
/// the names `held`: a file whose MIME type is not taken for one is
/// refused; one under a name that is held already gives that name as an
/// error; any other is embedded.
pub open spec fn spec_embed_outcome(held: Set<Seq<char>>, file: EmbeddedXml) -> Result<
    (),
    DocumentErrorView,
> {
    if !spec_is_mime_type(file.mime_type@) {
        Err(DocumentErrorView::MimeType)
    } else if held.contains(file.path@) {
        Err(DocumentErrorView::Embedding(file.path@))
    } else {
        Ok(())
    }
}

/// The files that a document holds once `file` was to be embedded in it:
/// those that it held where the file was refused for its MIME type, and
/// with them the name of the file in every other case.
pub open spec fn spec_embed_names(held: Set<Seq<char>>, file: EmbeddedXml) -> Set<Seq<char>> {
    if spec_is_mime_type(file.mime_type@) {
        held.insert(file.path@)
    } else {
        held
    }
}

/// What embedding returned, its texts as sequences of characters.
pub open spec fn embed_result_view(r: Result<(), DocumentError>) -> Result<(), DocumentErrorView> {
    match r {
        Ok(()) => Ok(()),
        Err(e) => Err(e@),
    }
}

/// Embeds `file` in `document`, last changed on `date`.  A file whose
/// MIME type is not taken for one is refused and the document left as it
/// was.  Where the document already held a file under the same name, the
/// PDF writer lists the new file in its place, and the name is returned
/// as an error.
pub fn embed_invoice_xml(document: &mut krilla::Document, file: EmbeddedXml, date: ModificationDate)
    -> (r: Result<(), DocumentError>)
    ensures
        embed_result_view(r) == spec_embed_outcome(embedded_names(*old(document)), file),
        embedded_names(*final(document)) == spec_embed_names(embedded_names(*old(document)), file),
        !spec_is_mime_type(file.mime_type@) ==> *final(document) == *old(document),
{
    let mime_type = match mime_type_of(file.mime_type.as_str()) {
        Some(mime_type) => mime_type,
        None => {
            return Err(DocumentError::MimeType);
        },
    };
    let name = String::from_str(file.path.as_str());
    if embed_file(document, file, mime_type, date) {
        Ok(())
    } else {
        Err(DocumentError::Embedding(name))
    }
}

/// What a document function returned, its bytes and texts as sequences.
pub open spec fn write_result_view(r: Result<Vec<u8>, DocumentError>) -> Result<
    Seq<u8>,
    DocumentErrorView,
> {
    match r {
        Ok(bytes) => Ok(bytes@),
        Err(e) => Err(e@),
    }
}

/// What is returned for each thing that writing a document can come to:
/// the bytes written; the faults of a document that is not PDF/A-3b, one
/// by one and in the order in which the PDF writer names them; any other
/// failure as the writer words it.
pub open spec fn spec_write_outcome(finish: FinishView) -> Result<Seq<u8>, DocumentErrorView> {
    match finish {
        FinishView::Written(bytes) => Ok(bytes),
        FinishView::Invalid(faults) => Err(DocumentErrorView::Validation(faults)),
        FinishView::Failed(detail) => Err(DocumentErrorView::Generation(detail)),
    }
}

/// Turns what the PDF writer said of a document into the bytes written,
/// or into the error to report.
pub fn written_or_faults(result: Result<Vec<u8>, krilla::error::KrillaError>) -> (r: Result<
    Vec<u8>,
    DocumentError,
>)
    ensures
        write_result_view(r) == spec_write_outcome(spec_finish_view(result)),
{
    let error = match result {
        Ok(bytes) => {
            return Ok(bytes);
        },
        Err(error) => error,
    };
    match validation_errors(error) {
        Ok(errors) => {
            let mut faults: Vec<String> = Vec::new();
            let mut i: usize = 0;
            let ghost texts = spec_fault_texts(errors@);
            assert(spec_texts(faults@) =~= texts.take(0));
            while i < errors.len()
                invariant
                    i <= errors.len(),
                    texts == spec_fault_texts(errors@),
                    spec_texts(faults@) == texts.take(i as int),
                decreases errors.len() - i,
            {
                let text = describe_validation_error(&errors[i]);
                let ghost before = faults@;
                assert(spec_texts(before).len() == before.len());
                assert(texts.take(i as int).len() == i);
                faults.push(text);
                proof {
                    assert(faults@.len() == i + 1);
                    assert forall|k: int| 0 <= k < i + 1 implies spec_texts(faults@)[k]
                        == texts.take(i + 1)[k] by {
                        if k < i {
                            assert(faults@[k] == before[k]);
                            assert(spec_texts(before)[k] == texts.take(i as int)[k]);
                            assert(texts.take(i as int)[k] == texts[k]);
                        } else {
                            assert(faults@[k]@ == krilla_fault_text(errors@[k]));
                            assert(texts[k] == krilla_fault_text(errors@[k]));
                        }
                    }
                }
                i += 1;
                assert(spec_texts(faults@) =~= texts.take(i as int));
            }
            assert(texts.take(errors@.len() as int) =~= texts);
            Err(DocumentError::Validation(faults))
        },
        Err(other) => Err(DocumentError::Generation(describe_krilla_error(&other))),
    }
}

/// Writes `document`: returns its bytes where the PDF writer writes it,
/// or what the writer found wrong with it.
pub fn write_document(document: krilla::Document) -> (r: Result<Vec<u8>, DocumentError>)
    ensures
        write_result_view(r) == spec_write_outcome(krilla_finish(document)),
        r is Ok ==> spec_written_pdf(r->Ok_0@),
{
    written_or_faults(finish_document(document))
}

} // verus!
