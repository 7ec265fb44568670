//! Field-level validation errors, as they are reported to the caller.

use vstd::prelude::*;
use crate::decimal::{spec_decimal, push_decimal};

verus! {

/// One problem found in one field.
#[derive(Debug, Clone)]
pub struct FieldError {
    pub field: String,
    pub message: String,
}

impl View for FieldError {
    type V = (Seq<char>, Seq<char>);

    /// The field's name and the message, as text.
    open spec fn view(&self) -> (Seq<char>, Seq<char>) {
        (self.field@, self.message@)
    }
}

/// The field names and messages of a list of errors, in order.
pub open spec fn errors_view(errors: Seq<FieldError>) -> Seq<(Seq<char>, Seq<char>)> {
    errors.map_values(|e: FieldError| e@)
}

/// `list`, with `entry` at its end where `cond` holds.
pub open spec fn push_if<T>(list: Seq<T>, cond: bool, entry: T) -> Seq<T> {
    if cond {
        list.push(entry)
    } else {
        list
    }
}

impl FieldError {
    /// An error on `field`.
    pub fn new(field: &str, message: &str) -> (e: Self)
        ensures
            e@ == (field@, message@),
    {
        FieldError { field: String::from_str(field), message: String::from_str(message) }
    }
}

/// What a validation request is answered with.
#[derive(Debug)]
pub struct ValidationResponse {
    pub success: bool,
    pub errors: Vec<FieldError>,
}

impl ValidationResponse {
    /// The answer to a request that broke no rule.
    pub fn ok() -> (r: Self)
        ensures
            r.success,
            r.errors@.len() == 0,
    {
        ValidationResponse { success: true, errors: Vec::new() }
    }

    /// The answer to a request that broke the rules `errors`.
    pub fn with_errors(errors: Vec<FieldError>) -> (r: Self)
        ensures
            !r.success,
            r.errors == errors,
    {
        ValidationResponse { success: false, errors }
    }
}

/// The errors found in one invoice line.
#[derive(Debug)]
pub struct LineValidationResult {
    pub line_index: usize,
    pub errors: Vec<FieldError>,
}

/// The name under which a field of the line at `index` is reported:
/// `lines[<index>][<field>]`.
pub open spec fn spec_line_field(index: nat, field: Seq<char>) -> Seq<char> {
    "lines["@ + spec_decimal(index) + "]["@ + field + "]"@
}

impl LineValidationResult {
    /// No error found yet in the line at `line_index`.
    pub fn new(line_index: usize) -> (r: Self)
        ensures
            r.line_index == line_index,
            r.errors@.len() == 0,
    {
        LineValidationResult { line_index, errors: Vec::new() }
    }

    /// Adds an error on the field `field` of the line, under the name
    /// `lines[<index>][<field>]`.
    pub fn add_error(&mut self, field: &str, message: &str)
        ensures
            final(self).line_index == old(self).line_index,
            final(self).errors@.len() == old(self).errors@.len() + 1,
            final(self).errors@.drop_last() == old(self).errors@,
            final(self).errors@.last()@ == (
                spec_line_field(old(self).line_index as nat, field@),
                message@,
            ),
            errors_view(final(self).errors@) == errors_view(old(self).errors@).push(
                (spec_line_field(old(self).line_index as nat, field@), message@),
            ),
    {
        let mut name = String::from_str("lines[");
        push_decimal(&mut name, self.line_index as u128);
        name.append("][");
        name.append(field);
        name.append("]");
        let error = FieldError { field: name, message: String::from_str(message) };
        self.errors.push(error);
        assert(final(self).errors@.drop_last() =~= old(self).errors@);
        assert(errors_view(final(self).errors@) =~= errors_view(old(self).errors@).push(
            (spec_line_field(old(self).line_index as nat, field@), message@),
        ));
    }

    /// Whether no error was found.
    pub fn is_valid(&self) -> (r: bool)
        ensures
            r == (self.errors@.len() == 0),
    {
        self.errors.len() == 0
    }
}

} // verus!
