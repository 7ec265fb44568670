//! The PDF as a container: putting the XMP packet into the metadata stream
//! of a PDF that has been written.

use vstd::prelude::*;
use vstd::string::StringSliceAdditionalSpecFns;
use vstd::utf8::{encode_utf8, is_ascii_chars, is_ascii_chars_encode_utf8};
use crate::facturx::pdf_document::spec_written_pdf;

verus! {

#[verifier::external_type_specification]
#[verifier::external_body]
pub struct ExDocument(lopdf::Document);

#[verifier::external_type_specification]
#[verifier::external_body]
pub struct ExDictionary(lopdf::Dictionary);

#[verifier::external_type_specification]
#[verifier::external_body]
pub struct ExStream(lopdf::Stream);

#[verifier::external_type_specification]
#[verifier::external_body]
pub struct ExError(lopdf::Error);

#[verifier::external_type_specification]
#[verifier::external_body]
pub struct ExIoError(std::io::Error);

/// Whether `lopdf::Document::load_mem` reads `bytes` as a PDF document.
pub uninterp spec fn lopdf_reads(bytes: Seq<u8>) -> bool;

/// Whether `document` has a catalog: whether `lopdf::Document::catalog`
/// finds one.
pub uninterp spec fn has_catalog(document: lopdf::Document) -> bool;

/// What the catalog of `document` holds, as `dictionary_references` has it.
pub uninterp spec fn catalog_references(document: lopdf::Document) -> Map<
    Seq<u8>,
    Option<(u32, u16)>,
>;

/// What `dictionary` holds: its keys, and under each key the number and
/// the generation of the object that the entry refers to, or nothing
/// where the entry is no reference.
pub uninterp spec fn dictionary_references(dictionary: lopdf::Dictionary) -> Map<
    Seq<u8>,
    Option<(u32, u16)>,
>;

/// The entries of `dictionary` that are names: under each of their keys
/// the name that the entry holds.
pub uninterp spec fn dictionary_names(dictionary: lopdf::Dictionary) -> Map<Seq<u8>, Seq<u8>>;

/// The entries of the dictionary of `stream` that are names.
pub uninterp spec fn stream_names(stream: lopdf::Stream) -> Map<Seq<u8>, Seq<u8>>;

/// The content of `stream`.
pub uninterp spec fn stream_content(stream: lopdf::Stream) -> Seq<u8>;

/// The objects of `document` that are streams: under the number and the
/// generation of each, the names in its dictionary and its content.
pub uninterp spec fn document_streams(document: lopdf::Document) -> Map<
    (u32, u16),
    (Map<Seq<u8>, Seq<u8>>, Seq<u8>),
>;

/// The largest object number that `document` counts: its field `max_id`.
pub uninterp spec fn document_max_id(document: lopdf::Document) -> u32;

/// The largest object number of a document that can be written: lopdf
/// counts one object more for the table of a document that keeps its
/// table in a stream, and one past the last for the size of the table.
pub const MAX_OBJECT_NUMBER: u32 = 0xffff_fffd;

/// What `lopdf::Document::save_to` writes of `document`, or nothing where
/// it cannot write.
pub uninterp spec fn lopdf_saved(document: lopdf::Document) -> Option<Seq<u8>>;

/// `lopdf::Document::load_mem`: reads a document from bytes, or says why
/// it cannot.  Whether it can depends on the bytes alone, and is given
/// the name `lopdf_reads`.  On a table of objects whose numbers reach the
/// largest that 32 bits hold, lopdf adds past that number: only bytes
/// that the PDF writer returned are let in, whose numbers count the
/// objects of one document.
#[verifier::external_body]
fn load_document(bytes: &[u8]) -> (r: Result<lopdf::Document, lopdf::Error>)
    requires
        spec_written_pdf(bytes@),
    ensures
        r is Ok <==> lopdf_reads(bytes@),
        r is Ok ==> document_max_id(r->Ok_0) <= MAX_OBJECT_NUMBER,
{
    lopdf::Document::load_mem(bytes)
}

/// `lopdf::Document::catalog`: the catalog of the document, or why there is none.
#[verifier::external_body]
fn document_catalog<'a>(document: &'a lopdf::Document) -> (r: Result<
    &'a lopdf::Dictionary,
    lopdf::Error,
>)
    ensures
        r is Ok <==> has_catalog(*document),
        r is Ok ==> dictionary_references(*r->Ok_0) == catalog_references(*document),
{
    document.catalog()
}

/// `lopdf::Dictionary::get`, the entry handed out as what
/// `lopdf::Object::as_reference` makes of it: nothing where the
/// dictionary has no such key; else the number and the generation that the
/// entry holds, or nothing where the entry is no reference.
#[verifier::external_body]
fn dictionary_reference(dictionary: &lopdf::Dictionary, key: &[u8]) -> (r: Option<
    Option<(u32, u16)>,
>)
    ensures
        r == (if dictionary_references(*dictionary).dom().contains(key@) {
            Some(dictionary_references(*dictionary)[key@])
        } else {
            None
        }),
{
    match dictionary.get(key) {
        Ok(object) => Some(object.as_reference().ok()),
        Err(_) => None,
    }
}

/// `lopdf::Dictionary::new`: a dictionary without entries.
#[verifier::external_body]
fn new_dictionary() -> lopdf::Dictionary {
    lopdf::Dictionary::new()
}

/// `lopdf::Dictionary::set`, with a name as the value: the entry under
/// the bytes of `key` is the name made of the bytes of `name`, in place of
/// what stood under that key; the other entries stay.
#[verifier::external_body]
fn dictionary_set_name(dictionary: &mut lopdf::Dictionary, key: &str, name: &str)
    ensures
        dictionary_names(*final(dictionary)) == dictionary_names(*old(dictionary)).insert(
            encode_utf8(key@),
            encode_utf8(name@),
        ),
{
    dictionary.set(key, lopdf::Object::Name(name.as_bytes().to_vec()))
}

/// The key under which a stream holds the length of its content.
pub const LENGTH_KEY: &'static str = "Length";

/// `lopdf::Stream::new`: a stream with the given dictionary and content.
/// It enters the length of the content in the dictionary under `Length`,
/// as a number, so that a name under that key is lost.
#[verifier::external_body]
fn new_stream(dictionary: lopdf::Dictionary, content: Vec<u8>) -> (stream: lopdf::Stream)
    ensures
        stream_names(stream) == dictionary_names(dictionary).remove(encode_utf8(LENGTH_KEY@)),
        stream_content(stream) == content@,
{
    lopdf::Stream::new(dictionary, content)
}

/// `BTreeMap::insert` on the objects of the document: puts `stream` under
/// `id`, in place of what was there; the other objects stay.
#[verifier::external_body]
fn insert_stream(document: &mut lopdf::Document, id: (u32, u16), stream: lopdf::Stream)
    ensures
        document_streams(*final(document)) == document_streams(*old(document)).insert(
            id,
            (stream_names(stream), stream_content(stream)),
        ),
        document_max_id(*final(document)) == document_max_id(*old(document)),
{
    document.objects.insert(id, lopdf::Object::Stream(stream));
}

/// `lopdf::Document::save_to`, into a vector of bytes: the header, each
/// object in the order of the numbers, the table of the objects and the
/// trailer.  What is written depends on the document alone, and is given
/// the name `lopdf_saved`.  lopdf adds up to two to the largest object
/// number, so a document whose number leaves no room is kept out.
#[verifier::external_body]
fn save_document(document: &mut lopdf::Document) -> (r: Result<Vec<u8>, std::io::Error>)
    requires
        document_max_id(*old(document)) <= MAX_OBJECT_NUMBER,
    ensures
        match r {
            Ok(bytes) => lopdf_saved(*old(document)) == Some(bytes@),
            Err(_) => lopdf_saved(*old(document)) is None,
        },
{
    let mut out = Vec::new();
    document.save_to(&mut out).map(|_| out)
}

/// The `Debug` text of a `lopdf::Error`.
#[verifier::external_body]
fn describe_error(error: &lopdf::Error) -> String {
    format!("{:?}", error)
}

/// The `Debug` text of a `std::io::Error`.
#[verifier::external_body]
fn describe_io_error(error: &std::io::Error) -> String {
    format!("{:?}", error)
}

/// The key of the catalog under which the metadata stream is referred to.
pub const METADATA_KEY: &'static str = "Metadata";

/// The keys under which a stream names its type and its subtype.
pub const TYPE_KEY: &'static str = "Type";

pub const SUBTYPE_KEY: &'static str = "Subtype";

/// The type and the subtype of a metadata stream.
pub const METADATA_TYPE: &'static str = "Metadata";

pub const METADATA_SUBTYPE: &'static str = "XML";

pub const MSG_LOAD: &'static str = "Erreur chargement PDF: ";

pub const MSG_CATALOG: &'static str = "Erreur acces catalogue: ";

pub const MSG_NO_METADATA: &'static str = "Pas de reference /Metadata dans le catalogue";

pub const MSG_NOT_A_REFERENCE: &'static str = "/Metadata n'est pas une reference";

pub const MSG_SAVE: &'static str = "Erreur sauvegarde PDF: ";

/// Why the container could not be worked on.  The text that some of the
/// errors hold is what the PDF reader or writer said.
#[derive(Debug, Clone)]
pub enum ContainerError {
    /// The bytes could not be read as a PDF.
    Load(String),
    /// The document has no catalog.
    Catalog(String),
    /// The catalog has no entry for the metadata.
    MissingMetadata,
    /// The entry for the metadata is not a reference to an object.
    MetadataNotReference,
    /// The document could not be written.
    Save(String),
}

impl ContainerError {
    /// What the error says, as text.
    pub open spec fn spec_message(&self) -> Seq<char> {
        match self {
            ContainerError::Load(detail) => MSG_LOAD@ + detail@,
            ContainerError::Catalog(detail) => MSG_CATALOG@ + detail@,
            ContainerError::MissingMetadata => MSG_NO_METADATA@,
            ContainerError::MetadataNotReference => MSG_NOT_A_REFERENCE@,
            ContainerError::Save(detail) => MSG_SAVE@ + detail@,
        }
    }

    /// What the error says.
    pub fn message(&self) -> (m: String)
        ensures
            m@ == self.spec_message(),
    {
        match self {
            ContainerError::Load(detail) => {
                let mut m = String::from_str(MSG_LOAD);
                m.append(detail.as_str());
                m
            },
            ContainerError::Catalog(detail) => {
                let mut m = String::from_str(MSG_CATALOG);
                m.append(detail.as_str());
                m
            },
            ContainerError::MissingMetadata => String::from_str(MSG_NO_METADATA),
            ContainerError::MetadataNotReference => String::from_str(MSG_NOT_A_REFERENCE),
            ContainerError::Save(detail) => {
                let mut m = String::from_str(MSG_SAVE);
                m.append(detail.as_str());
                m
            },
        }
    }
}

/// Where the metadata stream of a document is, or why it is not found.
#[derive(Debug, Clone, Copy, PartialEq, Eq, Structural)]
pub enum MetadataPlace {
    /// The document has no catalog.
    NoCatalog,
    /// The catalog has no entry for the metadata.
    NoEntry,
    /// The entry is not a reference.
    NotAReference,
    /// The number and the generation of the object that holds the metadata.
    Found(u32, u16),
}

/// What looking for the metadata stream of a document came to.
#[derive(Debug, Clone)]
pub enum MetadataLookup {
    /// The document has no catalog; what the reader said of it.
    NoCatalog(String),
    /// The catalog has no entry for the metadata.
    NoEntry,
    /// The entry is not a reference.
    NotAReference,
    /// The number and the generation of the object that holds the metadata.
    Found(u32, u16),
}

impl MetadataLookup {
    /// The place that was found, or why none was.
    pub open spec fn place(&self) -> MetadataPlace {
        match self {
            MetadataLookup::NoCatalog(_) => MetadataPlace::NoCatalog,
            MetadataLookup::NoEntry => MetadataPlace::NoEntry,
            MetadataLookup::NotAReference => MetadataPlace::NotAReference,
            MetadataLookup::Found(number, generation) => MetadataPlace::Found(
                *number,
                *generation,
            ),
        }
    }
}

/// Where the metadata stream of `document` is: the object that the entry
/// `Metadata` of its catalog refers to.
pub open spec fn spec_metadata_place(document: lopdf::Document) -> MetadataPlace {
    let entries = catalog_references(document);
    let key = METADATA_KEY.spec_bytes();
    if !has_catalog(document) {
        MetadataPlace::NoCatalog
    } else if !entries.dom().contains(key) {
        MetadataPlace::NoEntry
    } else {
        match entries[key] {
            Some((number, generation)) => MetadataPlace::Found(number, generation),
            None => MetadataPlace::NotAReference,
        }
    }
}

/// The error that each failure to find the metadata stream comes to;
/// none where it was found.
pub open spec fn spec_place_error(place: MetadataPlace, error: ContainerError) -> bool {
    match place {
        MetadataPlace::NoCatalog => error is Catalog,
        MetadataPlace::NoEntry => error is MissingMetadata,
        MetadataPlace::NotAReference => error is MetadataNotReference,
        MetadataPlace::Found(_, _) => false,
    }
}

/// The object to put the XMP packet into, or the error that the lookup
/// comes to.
pub fn metadata_target(lookup: MetadataLookup) -> (r: Result<(u32, u16), ContainerError>)
    ensures
        match lookup {
            MetadataLookup::NoCatalog(detail) => r is Err && r->Err_0 is Catalog
                && r->Err_0->Catalog_0 == detail,
            MetadataLookup::NoEntry => r is Err && r->Err_0 is MissingMetadata,
            MetadataLookup::NotAReference => r is Err && r->Err_0 is MetadataNotReference,
            MetadataLookup::Found(number, generation) => r == Ok::<
                (u32, u16),
                ContainerError,
            >((number, generation)),
        },
{
    match lookup {
        MetadataLookup::NoCatalog(detail) => Err(ContainerError::Catalog(detail)),
        MetadataLookup::NoEntry => Err(ContainerError::MissingMetadata),
        MetadataLookup::NotAReference => Err(ContainerError::MetadataNotReference),
        MetadataLookup::Found(number, generation) => Ok((number, generation)),
    }
}

/// Looks for the metadata stream of `document`: the catalog, its entry
/// for the metadata, and the object that the entry refers to.
fn lookup_metadata(document: &lopdf::Document) -> (lookup: MetadataLookup)
    ensures
        lookup.place() == spec_metadata_place(*document),
{
    let catalog = match document_catalog(document) {
        Ok(catalog) => catalog,
        Err(e) => {
            return MetadataLookup::NoCatalog(describe_error(&e));
        },
    };
    match dictionary_reference(catalog, METADATA_KEY.as_bytes()) {
        None => MetadataLookup::NoEntry,
        Some(None) => MetadataLookup::NotAReference,
        Some(Some(id)) => MetadataLookup::Found(id.0, id.1),
    }
}

/// `after` is `before` with the metadata stream put under the number
/// `number` and the generation `generation`: a stream that names its type
/// `Metadata` and its subtype `XML` and holds `xmp`; every other stream
/// is as it was.
pub open spec fn spec_metadata_put(
    before: lopdf::Document,
    after: lopdf::Document,
    number: u32,
    generation: u16,
    xmp: Seq<u8>,
) -> bool {
    exists|names: Map<Seq<u8>, Seq<u8>>|
        {
            &&& names.contains_pair(encode_utf8(TYPE_KEY@), encode_utf8(METADATA_TYPE@))
            &&& names.contains_pair(encode_utf8(SUBTYPE_KEY@), encode_utf8(METADATA_SUBTYPE@))
            &&& #[trigger] document_streams(before).insert((number, generation), (names, xmp))
                == document_streams(after)
        }
}

/// What writing a document comes to: its bytes as lopdf writes them, or
/// the error of a document that lopdf cannot write.
pub open spec fn spec_saved(document: lopdf::Document, r: Result<Vec<u8>, ContainerError>) -> bool {
    match r {
        Ok(bytes) => lopdf_saved(document) == Some(bytes@),
        Err(e) => e is Save && lopdf_saved(document) is None,
    }
}

/// What putting the packet `xmp` into `document` comes to.  A document
/// without a catalog is refused, then one whose catalog has no entry for
/// the metadata, then one whose entry is no reference.  In any other the
/// stream is put under the number that the entry names, and the result is
/// that document as lopdf writes it.
pub open spec fn spec_metadata_replaced(
    document: lopdf::Document,
    xmp: Seq<u8>,
    r: Result<Vec<u8>, ContainerError>,
) -> bool {
    match spec_metadata_place(document) {
        MetadataPlace::Found(number, generation) => exists|after: lopdf::Document|
            spec_metadata_put(document, after, number, generation, xmp) && #[trigger] spec_saved(
                after,
                r,
            ),
        place => r is Err && spec_place_error(place, r->Err_0),
    }
}

/// The keys of a stream's type, subtype and length are three keys.
proof fn lemma_stream_keys_differ()
    ensures
        encode_utf8(TYPE_KEY@) != encode_utf8(SUBTYPE_KEY@),
        encode_utf8(TYPE_KEY@) != encode_utf8(LENGTH_KEY@),
        encode_utf8(SUBTYPE_KEY@) != encode_utf8(LENGTH_KEY@),
{
    reveal_strlit("Type");
    reveal_strlit("Subtype");
    reveal_strlit("Length");
    assert(is_ascii_chars(TYPE_KEY@));
    assert(is_ascii_chars(SUBTYPE_KEY@));
    assert(is_ascii_chars(LENGTH_KEY@));
    is_ascii_chars_encode_utf8(TYPE_KEY@);
    is_ascii_chars_encode_utf8(SUBTYPE_KEY@);
    is_ascii_chars_encode_utf8(LENGTH_KEY@);
}

/// Puts `xmp` in place of the metadata stream of `document`, under the
/// same object number, and returns the document written anew.
///
/// A document without a catalog is refused, and so is one whose catalog
/// does not refer to a metadata stream.  Whether any other can be
/// written is for the PDF writer to say.  The largest object number of
/// the document leaves room for the writer to count on.
pub fn replace_document_metadata(document: lopdf::Document, xmp: &[u8]) -> (r: Result<
    Vec<u8>,
    ContainerError,
>)
    requires
        document_max_id(document) <= MAX_OBJECT_NUMBER,
    ensures
        spec_metadata_replaced(document, xmp@, r),
{
    let ghost before = document;
    let mut document = document;
    let id = match metadata_target(lookup_metadata(&document)) {
        Ok(id) => id,
        Err(e) => {
            return Err(e);
        },
    };
    let mut dictionary = new_dictionary();
    dictionary_set_name(&mut dictionary, TYPE_KEY, METADATA_TYPE);
    dictionary_set_name(&mut dictionary, SUBTYPE_KEY, METADATA_SUBTYPE);
    let stream = new_stream(dictionary, vstd::slice::slice_to_vec(xmp));
    let ghost names = stream_names(stream);
    insert_stream(&mut document, id, stream);
    let ghost after = document;
    let r = match save_document(&mut document) {
        Ok(bytes) => Ok(bytes),
        Err(e) => Err(ContainerError::Save(describe_io_error(&e))),
    };
    proof {
        lemma_stream_keys_differ();
        assert(names.contains_pair(encode_utf8(TYPE_KEY@), encode_utf8(METADATA_TYPE@)));
        assert(names.contains_pair(encode_utf8(SUBTYPE_KEY@), encode_utf8(METADATA_SUBTYPE@)));
        assert(document_streams(before).insert((id.0, id.1), (names, xmp@)) == document_streams(
            after,
        ));
        assert(spec_metadata_put(before, after, id.0, id.1, xmp@));
        assert(spec_saved(after, r));
    }
    r
}

/// What putting the packet `xmp` into the PDF `pdf` comes to: bytes that
/// lopdf cannot read are refused; of those that it can, the document that
/// it reads is worked on as `spec_metadata_replaced` says.
pub open spec fn spec_xmp_replaced(pdf: Seq<u8>, xmp: Seq<u8>, r: Result<Vec<u8>, ContainerError>)
    -> bool {
    if lopdf_reads(pdf) {
        exists|document: lopdf::Document| #[trigger] spec_metadata_replaced(document, xmp, r)
    } else {
        r is Err && r->Err_0 is Load
    }
}

/// Puts `xmp` in place of the metadata stream of the PDF `pdf`, under the
/// same object number, and returns the PDF written anew.  `pdf` is a PDF
/// as the PDF writer returns one.
///
/// Bytes that cannot be read as a PDF are refused; of those that can,
/// the document is worked on as `replace_document_metadata` does.
pub fn replace_xmp_metadata(pdf: &[u8], xmp: &[u8]) -> (r: Result<Vec<u8>, ContainerError>)
    requires
        spec_written_pdf(pdf@),
    ensures
        spec_xmp_replaced(pdf@, xmp@, r),
        (r is Err && r->Err_0 is Load) <==> !lopdf_reads(pdf@),
{
    match load_document(pdf) {
        Ok(document) => replace_document_metadata(document, xmp),
        Err(e) => Err(ContainerError::Load(describe_error(&e))),
    }
}

} // verus!
