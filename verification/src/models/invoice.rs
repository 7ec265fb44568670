//! The invoice as it is submitted, and the checks on its fields.

use vstd::prelude::*;
use vstd::string::StringSliceAdditionalSpecFns;
use vstd::utf8::encode_utf8;
use crate::calendar::{is_valid_date, spec_is_valid_date};
use crate::models::error::{FieldError, errors_view, push_if};
use crate::models::line::{InvoiceLine, TAX_STEPS, lemma_line_totals};
use crate::text::{
    chars_of,
    count_ascii_digits,
    is_ascii_upper,
    is_blank,
    keep_alphanumeric,
    spec_alphanumerics,
    spec_ascii_digits,
    spec_is_ascii_upper,
    spec_is_blank,
    spec_trim,
    trim_chars,
};

verus! {

/// The kinds of document (UNTDID 1001) that an invoice can be.
#[derive(Debug, Clone, Copy, PartialEq, Eq, Structural)]
pub enum InvoiceTypeCode {
    /// 380, a commercial invoice.
    Invoice,
    /// 381, a credit note.
    CreditNote,
    /// 384, a corrected invoice.
    CorrectedInvoice,
    /// 389, a prepayment invoice.
    PrepaymentInvoice,
}

impl Default for InvoiceTypeCode {
    fn default() -> (r: Self)
        ensures
            r == InvoiceTypeCode::Invoice,
    {
        InvoiceTypeCode::Invoice
    }
}

impl InvoiceTypeCode {
    /// The number of the kind.
    pub open spec fn spec_code(&self) -> u16 {
        match self {
            InvoiceTypeCode::Invoice => 380,
            InvoiceTypeCode::CreditNote => 381,
            InvoiceTypeCode::CorrectedInvoice => 384,
            InvoiceTypeCode::PrepaymentInvoice => 389,
        }
    }

    /// The name of the kind, as it is shown.
    pub open spec fn spec_label(&self) -> Seq<char> {
        match self {
            InvoiceTypeCode::Invoice => "Facture"@,
            InvoiceTypeCode::CreditNote => "Avoir"@,
            InvoiceTypeCode::CorrectedInvoice => "Facture rectificative"@,
            InvoiceTypeCode::PrepaymentInvoice => "Facture d'acompte"@,
        }
    }

    /// The name of the kind in capitals, as it heads the page.
    pub open spec fn spec_title(&self) -> Seq<char> {
        match self {
            InvoiceTypeCode::Invoice => "FACTURE"@,
            InvoiceTypeCode::CreditNote => "AVOIR"@,
            InvoiceTypeCode::CorrectedInvoice => "FACTURE RECTIFICATIVE"@,
            InvoiceTypeCode::PrepaymentInvoice => "FACTURE D'ACOMPTE"@,
        }
    }

    /// The kind that has the number `code`, if there is one.
    pub open spec fn spec_from_code(code: u16) -> Option<InvoiceTypeCode> {
        if code == 380 {
            Some(InvoiceTypeCode::Invoice)
        } else if code == 381 {
            Some(InvoiceTypeCode::CreditNote)
        } else if code == 384 {
            Some(InvoiceTypeCode::CorrectedInvoice)
        } else if code == 389 {
            Some(InvoiceTypeCode::PrepaymentInvoice)
        } else {
            None
        }
    }

    /// The number of the kind.
    pub fn code(&self) -> (c: u16)
        ensures
            c == self.spec_code(),
    {
        match self {
            InvoiceTypeCode::Invoice => 380,
            InvoiceTypeCode::CreditNote => 381,
            InvoiceTypeCode::CorrectedInvoice => 384,
            InvoiceTypeCode::PrepaymentInvoice => 389,
        }
    }

    /// The name of the kind, as it is shown.
    pub fn label(&self) -> (l: &'static str)
        ensures
            l@ == self.spec_label(),
    {
        match self {
            InvoiceTypeCode::Invoice => "Facture",
            InvoiceTypeCode::CreditNote => "Avoir",
            InvoiceTypeCode::CorrectedInvoice => "Facture rectificative",
            InvoiceTypeCode::PrepaymentInvoice => "Facture d'acompte",
        }
    }

    /// The name of the kind in capitals, as it heads the page.
    pub fn title(&self) -> (t: &'static str)
        ensures
            t@ == self.spec_title(),
    {
        match self {
            InvoiceTypeCode::Invoice => "FACTURE",
            InvoiceTypeCode::CreditNote => "AVOIR",
            InvoiceTypeCode::CorrectedInvoice => "FACTURE RECTIFICATIVE",
            InvoiceTypeCode::PrepaymentInvoice => "FACTURE D'ACOMPTE",
        }
    }

    /// The kind that has the number `code`; none for any other number.
    pub fn from_code(code: u16) -> (r: Option<Self>)
        ensures
            r == Self::spec_from_code(code),
    {
        if code == 380 {
            Some(InvoiceTypeCode::Invoice)
        } else if code == 381 {
            Some(InvoiceTypeCode::CreditNote)
        } else if code == 384 {
            Some(InvoiceTypeCode::CorrectedInvoice)
        } else if code == 389 {
            Some(InvoiceTypeCode::PrepaymentInvoice)
        } else {
            None
        }
    }

    /// A kind's number leads back to the kind, and a number that names a
    /// kind is that kind's number.
    pub proof fn lemma_code_round_trip(kind: InvoiceTypeCode, code: u16)
        ensures
            Self::spec_from_code(kind.spec_code()) == Some(kind),
            Self::spec_from_code(code) is Some ==> Self::spec_from_code(code)->0.spec_code() == code,
    {
    }
}

/// The invoice as it is submitted.
#[derive(Debug, Clone)]
pub struct InvoiceForm {
    /// BT-1, the invoice's number.
    pub invoice_number: String,
    /// BT-2, the day of issue, `YYYY-MM-DD`.
    pub issue_date: String,
    /// BT-3, the number of the kind of document.
    pub type_code: u16,
    /// BT-5, the currency, three capital letters.
    pub currency_code: String,
    /// BT-9, the day payment is due, `YYYY-MM-DD`.
    pub due_date: Option<String>,
    /// BT-20, the terms of payment in words.
    pub payment_terms: Option<String>,
    /// BT-10, the buyer's reference.
    pub buyer_reference: Option<String>,
    /// BT-13, the reference of the purchase order.
    pub purchase_order_reference: Option<String>,
    /// BT-44, the recipient's name.
    pub recipient_name: String,
    /// BT-47, the recipient's SIRET.
    pub recipient_siret: String,
    /// BT-48, the recipient's VAT number.
    pub recipient_vat_number: Option<String>,
    /// BT-50 to BT-55, the recipient's address.
    pub recipient_address: String,
    /// BT-55, the recipient's country, two capital letters.
    pub recipient_country_code: String,
    pub lines: Vec<InvoiceLine>,
}

/// The whole of an invoice: the form, the issuer's SIRET and the totals.
/// `total_ht` counts steps of 10^-8 of the currency unit, `total_vat` and
/// `total_ttc` steps of 10^-12.
#[derive(Debug, Clone)]
pub struct FacturXInvoice {
    pub invoice_number: String,
    pub issue_date: String,
    pub type_code: u16,
    pub currency_code: String,
    pub due_date: Option<String>,
    pub payment_terms: Option<String>,
    pub buyer_reference: Option<String>,
    pub purchase_order_reference: Option<String>,
    pub emitter_siret: String,
    pub recipient_name: String,
    pub recipient_siret: String,
    pub recipient_vat_number: Option<String>,
    pub recipient_address: String,
    pub recipient_country_code: String,
    pub lines: Vec<InvoiceLine>,
    pub total_ht: i128,
    pub total_vat: i128,
    pub total_ttc: i128,
}

pub const MSG_INVOICE_NUMBER: &'static str = "Le numéro de facture est obligatoire (BT-1)";

pub const MSG_ISSUE_DATE_REQUIRED: &'static str = "La date d'émission est obligatoire (BT-2)";

pub const MSG_ISSUE_DATE_FORMAT: &'static str = "Format de date invalide (attendu: AAAA-MM-JJ)";

pub const MSG_TYPE_CODE: &'static str =
    "Type de document invalide. Valeurs acceptées: 380 (Facture), 381 (Avoir), 384 (Rectificative), 389 (Acompte)";

pub const MSG_CURRENCY_REQUIRED: &'static str = "Le code devise est obligatoire (BT-5)";

pub const MSG_CURRENCY_FORMAT: &'static str = "Code devise invalide (format ISO 4217, ex: EUR)";

pub const MSG_DUE_DATE_FORMAT: &'static str =
    "Format de date d'échéance invalide (attendu: AAAA-MM-JJ)";

pub const MSG_RECIPIENT_NAME: &'static str = "Le nom du destinataire est obligatoire (BT-44)";

pub const MSG_SIRET_REQUIRED: &'static str = "Le SIRET du destinataire est obligatoire";

pub const MSG_SIRET_FORMAT: &'static str = "Le SIRET doit contenir 14 chiffres";

pub const MSG_COUNTRY_REQUIRED: &'static str =
    "Le code pays du destinataire est obligatoire (BT-55)";

pub const MSG_COUNTRY_FORMAT: &'static str =
    "Code pays invalide (format ISO 3166-1 alpha-2, ex: FR)";

pub const MSG_VAT_NUMBER_FORMAT: &'static str =
    "Format de numéro TVA invalide (ex: FR12345678901)";

pub const MSG_NO_LINES: &'static str = "La facture doit contenir au moins une ligne";

/// `s` is made of exactly `n` capital letters `A` to `Z`.
pub open spec fn spec_is_upper_code(s: Seq<char>, n: nat) -> bool {
    s.len() == n && forall|i: int| 0 <= i < s.len() ==> spec_is_ascii_upper(#[trigger] s[i])
}

/// The letters and numbers of a VAT number take 4 to 15 bytes, and the first
/// two of them (or the only one) are capital letters `A` to `Z`.
pub open spec fn spec_vat_number_shape(cleaned: Seq<char>) -> bool {
    &&& 4 <= encode_utf8(cleaned).len() <= 15
    &&& forall|i: int| 0 <= i < cleaned.len() && i < 2 ==> spec_is_ascii_upper(#[trigger] cleaned[i])
}

/// Whether `chars` is made of exactly `n` capital letters `A` to `Z`.
pub fn is_upper_code(chars: &Vec<char>, n: usize) -> (r: bool)
    ensures
        r == spec_is_upper_code(chars@, n as nat),
{
    if chars.len() != n {
        return false;
    }
    let mut i: usize = 0;
    while i < chars.len()
        invariant
            i <= chars.len(),
            forall|k: int| 0 <= k < i ==> spec_is_ascii_upper(#[trigger] chars@[k]),
        decreases chars.len() - i,
    {
        if !is_ascii_upper(chars[i]) {
            return false;
        }
        i += 1;
    }
    true
}

/// Whether `cleaned`, the letters and numbers of a VAT number, has the
/// shape of one.
pub fn has_vat_number_shape(cleaned: &str) -> (r: bool)
    ensures
        r == spec_vat_number_shape(cleaned@),
{
    let bytes: usize = cleaned.as_bytes().len();
    if bytes < 4 || bytes > 15 {
        return false;
    }
    let x = chars_of(cleaned);
    let mut i: usize = 0;
    while i < x.len() && i < 2
        invariant
            i <= x.len(),
            i <= 2,
            x@ == cleaned@,
            4 <= encode_utf8(cleaned@).len() <= 15,
            forall|k: int| 0 <= k < i ==> spec_is_ascii_upper(#[trigger] x@[k]),
        decreases x.len() - i,
    {
        if !is_ascii_upper(x[i]) {
            return false;
        }
        i += 1;
    }
    true
}

/// What the format checks say of the fields of a form.
#[derive(Debug, Clone, Copy, PartialEq, Eq, Structural)]
pub struct FormatChecks {
    pub issue_date: bool,
    pub currency_code: bool,
    /// Of the due date where there is one, else `true`.
    pub due_date: bool,
    pub recipient_siret: bool,
    pub recipient_country_code: bool,
    /// Of the VAT number where there is one, else `true`.
    pub recipient_vat_number: bool,
}

/// The errors of the lines, line by line, each line's in field order.
pub open spec fn spec_lines_errors(lines: Seq<InvoiceLine>) -> Seq<(Seq<char>, Seq<char>)>
    decreases lines.len(),
{
    if lines.len() == 0 {
        Seq::empty()
    } else {
        spec_lines_errors(lines.drop_last()) + lines.last().spec_validate(
            (lines.len() - 1) as nat,
        )
    }
}

/// The text of an optional field, empty where there is none.
pub open spec fn spec_text(field: Option<String>) -> Seq<char> {
    match field {
        Some(s) => s@,
        None => Seq::empty(),
    }
}

impl InvoiceForm {
    /// A SIRET holds exactly 14 digits; what stands between them is not looked at.
    pub open spec fn spec_is_valid_siret(siret: Seq<char>) -> bool {
        spec_ascii_digits(siret).len() == 14
    }

    /// A currency code is three capital letters, white space around them aside.
    pub open spec fn spec_is_valid_currency_code(code: Seq<char>) -> bool {
        spec_is_upper_code(spec_trim(code), 3)
    }

    /// A country code is two capital letters, white space around them aside.
    pub open spec fn spec_is_valid_country_code(code: Seq<char>) -> bool {
        spec_is_upper_code(spec_trim(code), 2)
    }

    /// A VAT number is judged by its letters and numbers alone.
    pub open spec fn spec_is_valid_vat_number(vat: Seq<char>) -> bool {
        spec_vat_number_shape(spec_alphanumerics(vat))
    }

    /// What the format checks say of this form.
    pub open spec fn spec_format_checks(&self) -> FormatChecks {
        FormatChecks {
            issue_date: spec_is_valid_date(self.issue_date@),
            currency_code: Self::spec_is_valid_currency_code(self.currency_code@),
            due_date: match self.due_date {
                Some(d) => spec_is_valid_date(d@),
                None => true,
            },
            recipient_siret: Self::spec_is_valid_siret(self.recipient_siret@),
            recipient_country_code: Self::spec_is_valid_country_code(
                self.recipient_country_code@,
            ),
            recipient_vat_number: match self.recipient_vat_number {
                Some(v) => Self::spec_is_valid_vat_number(v@),
                None => true,
            },
        }
    }

    /// The errors of the fields that describe the document, in the order of
    /// the fields, after `prior`.  The number of the invoice is reported as
    /// missing where it is empty.  Any other field that must be there is
    /// reported as missing where it is blank, and as malformed where it is
    /// not blank and fails its format check; a field that may be absent is
    /// reported only where it is not blank and fails its check.
    pub open spec fn spec_document_errors(
        &self,
        checks: FormatChecks,
        prior: Seq<(Seq<char>, Seq<char>)>,
    ) -> Seq<(Seq<char>, Seq<char>)> {
        let e1 = push_if(
            prior,
            self.invoice_number@.len() == 0,
            ("invoice_number"@, MSG_INVOICE_NUMBER@),
        );
        let e2 = if spec_is_blank(self.issue_date@) {
            e1.push(("issue_date"@, MSG_ISSUE_DATE_REQUIRED@))
        } else {
            push_if(e1, !checks.issue_date, ("issue_date"@, MSG_ISSUE_DATE_FORMAT@))
        };
        let e3 = push_if(
            e2,
            InvoiceTypeCode::spec_from_code(self.type_code) is None,
            ("type_code"@, MSG_TYPE_CODE@),
        );
        let e4 = if spec_is_blank(self.currency_code@) {
            e3.push(("currency_code"@, MSG_CURRENCY_REQUIRED@))
        } else {
            push_if(e3, !checks.currency_code, ("currency_code"@, MSG_CURRENCY_FORMAT@))
        };
        push_if(
            e4,
            self.due_date is Some && !spec_is_blank(spec_text(self.due_date)) && !checks.due_date,
            ("due_date"@, MSG_DUE_DATE_FORMAT@),
        )
    }

    /// The errors of the fields that describe the recipient, in the order
    /// of the fields, after `prior`; reported as those of the document are.
    pub open spec fn spec_recipient_errors(
        &self,
        checks: FormatChecks,
        prior: Seq<(Seq<char>, Seq<char>)>,
    ) -> Seq<(Seq<char>, Seq<char>)> {
        let e1 = push_if(
            prior,
            spec_is_blank(self.recipient_name@),
            ("recipient_name"@, MSG_RECIPIENT_NAME@),
        );
        let e2 = if spec_is_blank(self.recipient_siret@) {
            e1.push(("recipient_siret"@, MSG_SIRET_REQUIRED@))
        } else {
            push_if(e1, !checks.recipient_siret, ("recipient_siret"@, MSG_SIRET_FORMAT@))
        };
        let e3 = if spec_is_blank(self.recipient_country_code@) {
            e2.push(("recipient_country_code"@, MSG_COUNTRY_REQUIRED@))
        } else {
            push_if(
                e2,
                !checks.recipient_country_code,
                ("recipient_country_code"@, MSG_COUNTRY_FORMAT@),
            )
        };
        push_if(
            e3,
            self.recipient_vat_number is Some && !spec_is_blank(
                spec_text(self.recipient_vat_number),
            ) && !checks.recipient_vat_number,
            ("recipient_vat_number"@, MSG_VAT_NUMBER_FORMAT@),
        )
    }

    /// The errors of the fields above the lines: the document's, then the
    /// recipient's.
    pub open spec fn spec_header_errors(&self, checks: FormatChecks) -> Seq<(Seq<char>, Seq<char>)> {
        self.spec_recipient_errors(checks, self.spec_document_errors(checks, Seq::empty()))
    }

    /// All the errors of the form: those of the header, then one for an
    /// invoice without lines, or else those of each line.
    pub open spec fn spec_errors(&self, checks: FormatChecks) -> Seq<(Seq<char>, Seq<char>)> {
        if self.lines@.len() == 0 {
            self.spec_header_errors(checks).push(("lines"@, MSG_NO_LINES@))
        } else {
            self.spec_header_errors(checks) + spec_lines_errors(self.lines@)
        }
    }

    /// Whether `siret` holds exactly 14 digits.
    pub fn is_valid_siret(siret: &str) -> (r: bool)
        ensures
            r == Self::spec_is_valid_siret(siret@),
    {
        count_ascii_digits(siret) == 14
    }

    /// Whether `code` is three capital letters.
    pub fn is_valid_currency_code(code: &str) -> (r: bool)
        ensures
            r == Self::spec_is_valid_currency_code(code@),
    {
        let trimmed = trim_chars(code);
        is_upper_code(&trimmed, 3)
    }

    /// Whether `code` is two capital letters.
    pub fn is_valid_country_code(code: &str) -> (r: bool)
        ensures
            r == Self::spec_is_valid_country_code(code@),
    {
        let trimmed = trim_chars(code);
        is_upper_code(&trimmed, 2)
    }

    /// Whether `vat` has the shape of a VAT number.
    pub fn is_valid_vat_number(vat: &str) -> (r: bool)
        ensures
            r == Self::spec_is_valid_vat_number(vat@),
    {
        let cleaned = keep_alphanumeric(vat);
        has_vat_number_shape(cleaned.as_str())
    }

    /// Runs the format checks on the fields of the form.
    pub fn format_checks(&self) -> (checks: FormatChecks)
        ensures
            checks == self.spec_format_checks(),
    {
        FormatChecks {
            issue_date: is_valid_date(self.issue_date.as_str()),
            currency_code: Self::is_valid_currency_code(self.currency_code.as_str()),
            due_date: match &self.due_date {
                Some(d) => is_valid_date(d.as_str()),
                None => true,
            },
            recipient_siret: Self::is_valid_siret(self.recipient_siret.as_str()),
            recipient_country_code: Self::is_valid_country_code(
                self.recipient_country_code.as_str(),
            ),
            recipient_vat_number: match &self.recipient_vat_number {
                Some(v) => Self::is_valid_vat_number(v.as_str()),
                None => true,
            },
        }
    }

    /// Adds the errors of the fields that describe the document.
    fn push_document_errors(&self, checks: &FormatChecks, errors: &mut Vec<FieldError>)
        ensures
            errors_view(final(errors)@) == self.spec_document_errors(
                *checks,
                errors_view(old(errors)@),
            ),
    {
        if self.invoice_number.as_str().unicode_len() == 0 {
            push_error(errors, "invoice_number", MSG_INVOICE_NUMBER);
        }
        if is_blank(self.issue_date.as_str()) {
            push_error(errors, "issue_date", MSG_ISSUE_DATE_REQUIRED);
        } else if !checks.issue_date {
            push_error(errors, "issue_date", MSG_ISSUE_DATE_FORMAT);
        }
        if InvoiceTypeCode::from_code(self.type_code).is_none() {
            push_error(errors, "type_code", MSG_TYPE_CODE);
        }
        if is_blank(self.currency_code.as_str()) {
            push_error(errors, "currency_code", MSG_CURRENCY_REQUIRED);
        } else if !checks.currency_code {
            push_error(errors, "currency_code", MSG_CURRENCY_FORMAT);
        }
        match &self.due_date {
            Some(d) => {
                if !is_blank(d.as_str()) && !checks.due_date {
                    push_error(errors, "due_date", MSG_DUE_DATE_FORMAT);
                }
            },
            None => {},
        }
    }

    /// Adds the errors of the fields that describe the recipient.
    fn push_recipient_errors(&self, checks: &FormatChecks, errors: &mut Vec<FieldError>)
        ensures
            errors_view(final(errors)@) == self.spec_recipient_errors(
                *checks,
                errors_view(old(errors)@),
            ),
    {
        if is_blank(self.recipient_name.as_str()) {
            push_error(errors, "recipient_name", MSG_RECIPIENT_NAME);
        }
        if is_blank(self.recipient_siret.as_str()) {
            push_error(errors, "recipient_siret", MSG_SIRET_REQUIRED);
        } else if !checks.recipient_siret {
            push_error(errors, "recipient_siret", MSG_SIRET_FORMAT);
        }
        if is_blank(self.recipient_country_code.as_str()) {
            push_error(errors, "recipient_country_code", MSG_COUNTRY_REQUIRED);
        } else if !checks.recipient_country_code {
            push_error(errors, "recipient_country_code", MSG_COUNTRY_FORMAT);
        }
        match &self.recipient_vat_number {
            Some(v) => {
                if !is_blank(v.as_str()) && !checks.recipient_vat_number {
                    push_error(errors, "recipient_vat_number", MSG_VAT_NUMBER_FORMAT);
                }
            },
            None => {},
        }
    }

    /// Adds the errors of each line, in the order of the lines.
    fn push_lines_errors(&self, errors: &mut Vec<FieldError>)
        ensures
            errors_view(final(errors)@) == errors_view(old(errors)@) + spec_lines_errors(
                self.lines@,
            ),
    {
        let ghost header = errors_view(errors@);
        let mut i: usize = 0;
        assert(self.lines@.take(0) =~= Seq::<InvoiceLine>::empty());
        assert(header + spec_lines_errors(self.lines@.take(0)) =~= header);
        while i < self.lines.len()
            invariant
                i <= self.lines.len(),
                errors_view(errors@) == header + spec_lines_errors(self.lines@.take(i as int)),
            decreases self.lines.len() - i,
        {
            let mut found = self.lines[i].validate(i);
            let ghost before = errors_view(errors@);
            let ghost added = errors_view(found.errors@);
            errors.append(&mut found.errors);
            proof {
                assert(errors_view(errors@) =~= before + added);
                let next = self.lines@.take(i + 1);
                assert(next.drop_last() =~= self.lines@.take(i as int));
                assert(next.last() == self.lines@[i as int]);
                assert(header + spec_lines_errors(next) =~= before + added);
            }
            i += 1;
        }
        assert(self.lines@.take(self.lines@.len() as int) =~= self.lines@);
    }

    /// The errors of the form, given what the format checks said.
    pub fn validate_with(&self, checks: &FormatChecks) -> (errors: Vec<FieldError>)
        ensures
            errors_view(errors@) == self.spec_errors(*checks),
    {
        let mut errors: Vec<FieldError> = Vec::new();
        assert(errors_view(errors@) =~= Seq::<(Seq<char>, Seq<char>)>::empty());
        self.push_document_errors(checks, &mut errors);
        self.push_recipient_errors(checks, &mut errors);
        if self.lines.len() == 0 {
            push_error(&mut errors, "lines", MSG_NO_LINES);
        } else {
            self.push_lines_errors(&mut errors);
        }
        errors
    }

    /// Checks the whole form and reports every rule it breaks.
    pub fn validate(&self) -> (errors: Vec<FieldError>)
        ensures
            errors_view(errors@) == self.spec_errors(self.spec_format_checks()),
    {
        let checks = self.format_checks();
        self.validate_with(&checks)
    }
}

/// Adds an error on `field` to `errors`.
fn push_error(errors: &mut Vec<FieldError>, field: &str, message: &str)
    ensures
        errors_view(final(errors)@) == errors_view(old(errors)@).push((field@, message@)),
{
    errors.push(FieldError::new(field, message));
    assert(errors_view(final(errors)@) =~= errors_view(old(errors)@).push((field@, message@)));
}

/// The lines after the tax calculation: each valid line with its computed
/// fields filled, every other line as it was.
pub open spec fn spec_computed_lines(lines: Seq<InvoiceLine>) -> Seq<InvoiceLine> {
    lines.map_values(
        |l: InvoiceLine|
            if l.spec_is_valid() {
                l.spec_computed()
            } else {
                l
            },
    )
}

/// The sum of the totals without tax of the valid lines.
pub open spec fn spec_sum_ht(lines: Seq<InvoiceLine>) -> int
    decreases lines.len(),
{
    if lines.len() == 0 {
        0
    } else {
        spec_sum_ht(lines.drop_last()) + if lines.last().spec_is_valid() {
            lines.last().spec_total_ht()
        } else {
            0
        }
    }
}

/// The sum of the tax of the valid lines.
pub open spec fn spec_sum_vat(lines: Seq<InvoiceLine>) -> int
    decreases lines.len(),
{
    if lines.len() == 0 {
        0
    } else {
        spec_sum_vat(lines.drop_last()) + if lines.last().spec_is_valid() {
            lines.last().spec_total_vat()
        } else {
            0
        }
    }
}

/// The sum of the totals with tax of the valid lines.
pub open spec fn spec_sum_ttc(lines: Seq<InvoiceLine>) -> int
    decreases lines.len(),
{
    if lines.len() == 0 {
        0
    } else {
        spec_sum_ttc(lines.drop_last()) + if lines.last().spec_is_valid() {
            lines.last().spec_total_ttc()
        } else {
            0
        }
    }
}

/// The totals of an invoice, where the largest of them, the total with
/// tax, is a number that the machine can hold.
pub open spec fn spec_totals(lines: Seq<InvoiceLine>) -> Option<(i128, i128, i128)> {
    if spec_sum_ttc(lines) <= i128::MAX {
        Some(
            (spec_sum_ht(lines) as i128, spec_sum_vat(lines) as i128, spec_sum_ttc(lines) as i128),
        )
    } else {
        None
    }
}

/// On a valid line no total is below zero, and the total with tax is the
/// largest of the three.
pub proof fn lemma_valid_line_totals(line: InvoiceLine)
    requires
        line.spec_is_valid(),
    ensures
        0 <= line.spec_total_ht() <= line.spec_total_ttc(),
        0 <= line.spec_total_vat() <= line.spec_total_ttc(),
{
    let h = line.spec_total_ht();
    let r = line.vat_rate as int;
    assert(0 <= h * r && h <= h * (10_000 + r) && h * r <= h * (10_000 + r)) by (nonlinear_arith)
        requires
            0 <= h,
            0 <= r,
    ;
}

/// No sum is below zero, and the sum of the totals with tax is the largest.
pub proof fn lemma_sums_ordered(lines: Seq<InvoiceLine>)
    ensures
        0 <= spec_sum_ht(lines) <= spec_sum_ttc(lines),
        0 <= spec_sum_vat(lines) <= spec_sum_ttc(lines),
    decreases lines.len(),
{
    if lines.len() > 0 {
        lemma_sums_ordered(lines.drop_last());
        if lines.last().spec_is_valid() {
            lemma_valid_line_totals(lines.last());
        }
    }
}

/// The sum of the totals with tax does not go down as lines are added.
pub proof fn lemma_sum_ttc_grows(lines: Seq<InvoiceLine>, n: int)
    requires
        0 <= n <= lines.len(),
    ensures
        spec_sum_ttc(lines.take(n)) <= spec_sum_ttc(lines),
    decreases lines.len() - n,
{
    if n < lines.len() {
        lemma_sum_ttc_grows(lines, n + 1);
        assert(lines.take(n + 1).drop_last() =~= lines.take(n));
        if lines.take(n + 1).last().spec_is_valid() {
            lemma_valid_line_totals(lines.take(n + 1).last());
        }
    } else {
        assert(lines.take(n) =~= lines);
    }
}

impl InvoiceForm {
    /// Computes the totals of every valid line in place and adds them up.
    /// Lines that are not valid are left as they are and count for nothing.
    /// The result is `None` where the total with tax is too large a number.
    pub fn compute_totals(&mut self) -> (totals: Option<(i128, i128, i128)>)
        ensures
            final(self).lines@ == spec_computed_lines(old(self).lines@),
            *final(self) == (InvoiceForm { lines: final(self).lines, ..*old(self) }),
            totals == spec_totals(old(self).lines@),
    {
        let mut total_ht: i128 = 0;
        let mut total_vat: i128 = 0;
        let mut total_ttc: i128 = 0;
        let mut fits: bool = true;
        let mut i: usize = 0;
        let ghost before = self.lines@;
        assert(before.take(0) =~= Seq::<InvoiceLine>::empty());
        while i < self.lines.len()
            invariant
                i <= self.lines.len(),
                self.lines@.len() == before.len(),
                *self == (InvoiceForm { lines: self.lines, ..*old(self) }),
                forall|k: int| 0 <= k < i ==> self.lines@[k] == spec_computed_lines(before)[k],
                forall|k: int| i <= k < before.len() ==> self.lines@[k] == before[k],
                fits ==> total_ht == spec_sum_ht(before.take(i as int)),
                fits ==> total_vat == spec_sum_vat(before.take(i as int)),
                fits ==> total_ttc == spec_sum_ttc(before.take(i as int)),
                !fits ==> spec_sum_ttc(before.take(i as int)) > i128::MAX,
            decreases self.lines.len() - i,
        {
            proof {
                assert(before.take(i + 1).drop_last() =~= before.take(i as int));
                assert(before.take(i + 1).last() == before[i as int]);
                lemma_sums_ordered(before.take(i as int));
                lemma_sums_ordered(before.take(i + 1));
                before[i as int].lemma_ranges();
            }
            if self.lines[i].is_valid() {
                let line = &mut self.lines[i];
                line.compute_totals();
                let ht = line.total_ht_value();
                let vat = line.total_vat_value();
                let ttc = line.total_ttc_value();
                if fits {
                    match total_ttc.checked_add(ttc) {
                        Some(sum) => {
                            total_ttc = sum;
                            total_ht = total_ht + ht;
                            total_vat = total_vat + vat;
                        },
                        None => {
                            fits = false;
                        },
                    }
                } else {
                    proof {
                        lemma_valid_line_totals(before[i as int]);
                    }
                }
            }
            i += 1;
        }
        proof {
            assert(before.take(before.len() as int) =~= before);
            assert(self.lines@ =~= spec_computed_lines(before));
        }
        if fits {
            Some((total_ht, total_vat, total_ttc))
        } else {
            None
        }
    }
}

/// Adding a line to an invoice adds the line's totals to the sums where
/// the line is valid, and leaves the sums as they were where it is not.
pub proof fn lemma_sums_of_one_more_line(lines: Seq<InvoiceLine>, line: InvoiceLine)
    ensures
        line.spec_is_valid() ==> spec_sum_ht(lines.push(line)) == spec_sum_ht(lines)
            + line.spec_total_ht(),
        line.spec_is_valid() ==> spec_sum_vat(lines.push(line)) == spec_sum_vat(lines)
            + line.spec_total_vat(),
        line.spec_is_valid() ==> spec_sum_ttc(lines.push(line)) == spec_sum_ttc(lines)
            + line.spec_total_ttc(),
        !line.spec_is_valid() ==> spec_sum_ht(lines.push(line)) == spec_sum_ht(lines),
        !line.spec_is_valid() ==> spec_sum_vat(lines.push(line)) == spec_sum_vat(lines),
        !line.spec_is_valid() ==> spec_sum_ttc(lines.push(line)) == spec_sum_ttc(lines),
{
    assert(lines.push(line).drop_last() =~= lines);
}

/// The sum of the totals with tax is the sum of the totals without tax,
/// counted in the finer steps, and the sum of the tax.
pub proof fn lemma_sum_ttc_is_ht_and_vat(lines: Seq<InvoiceLine>)
    ensures
        spec_sum_ttc(lines) == spec_sum_ht(lines) * TAX_STEPS + spec_sum_vat(lines),
    decreases lines.len(),
{
    if lines.len() > 0 {
        lemma_sum_ttc_is_ht_and_vat(lines.drop_last());
        lemma_line_totals(lines.last());
        let a = spec_sum_ht(lines.drop_last());
        let h = lines.last().spec_total_ht();
        assert((a + h) * 10_000 == a * 10_000 + h * 10_000) by (nonlinear_arith);
    }
}

/// Lines that are not valid count for nothing: the sums of an invoice are
/// those of its valid lines alone.
pub proof fn lemma_sums_skip_invalid_lines(lines: Seq<InvoiceLine>)
    ensures
        spec_sum_ht(lines) == spec_sum_ht(lines.filter(|l: InvoiceLine| l.spec_is_valid())),
        spec_sum_vat(lines) == spec_sum_vat(lines.filter(|l: InvoiceLine| l.spec_is_valid())),
        spec_sum_ttc(lines) == spec_sum_ttc(lines.filter(|l: InvoiceLine| l.spec_is_valid())),
    decreases lines.len(),
{
    reveal(Seq::filter);
    let valid = |l: InvoiceLine| l.spec_is_valid();
    if lines.len() > 0 {
        lemma_sums_skip_invalid_lines(lines.drop_last());
        if lines.last().spec_is_valid() {
            lemma_sums_of_one_more_line(lines.drop_last().filter(valid), lines.last());
        }
    }
}

} // verus!
