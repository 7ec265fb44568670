//! The two renderings of an invoice, the CII XML and the page of the PDF,
//! and the XMP packet that goes with them.

pub mod pdf_container;
pub mod pdf_document;
pub mod pdf_generator;
pub mod vat;
pub mod xml_generator;
pub mod xmp_metadata;

pub use xml_generator::generate_facturx_xml;
