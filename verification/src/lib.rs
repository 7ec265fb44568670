//! Factur-X invoices: the tax calculation on an invoice, its Cross Industry
//! Invoice XML, the layout of its page, and the XMP packet of the PDF/A-3
//! that carries both.

use vstd::prelude::*;

pub mod calendar;
pub mod decimal;
pub mod facturx;
pub mod models;
pub mod session;
pub mod text;

verus! {

/// Who issues the invoices.
#[derive(Debug, Clone)]
pub struct EmitterConfig {
    pub siren: Option<String>,
    pub siret: String,
    pub name: String,
    pub address: String,
    pub bic: Option<String>,
    pub num_tva: Option<String>,
    pub logo: Option<String>,
    pub xml_storage: Option<String>,
    pub pdf_storage: Option<String>,
}

} // verus!
