//! The invoice data model and its validation results.

pub mod error;
pub mod invoice;
pub mod line;
