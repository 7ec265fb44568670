//! The invoice as it is entered in two steps: first the document and the
//! recipient, then the lines.

use vstd::prelude::*;
use crate::EmitterConfig;
use crate::decimal::{push_decimal, spec_decimal};
use crate::facturx::pdf_generator::{format_date_display, spec_format_date_display};
use crate::models::error::{FieldError, errors_view, push_if, spec_line_field};
use crate::models::invoice::{InvoiceForm, InvoiceTypeCode};
use crate::models::line::InvoiceLine;
use crate::text::{
    chars_of,
    is_ascii_digit,
    is_blank,
    spec_is_ascii_digit,
    spec_is_blank,
    str_equals,
    string_of,
};

verus! {

/// The picture shown where the issuer has none of its own.
pub const DEFAULT_LOGO_PATH: &'static str = "/assets/underwork.jpeg";

/// Where the pictures are served from.
pub const ASSETS_PREFIX: &'static str = "/assets/";

/// The path of the issuer's logo: its own where it names one that is not
/// blank, else the default picture.
pub open spec fn spec_logo_path(emitter: &EmitterConfig) -> Seq<char> {
    match emitter.logo {
        Some(logo) => if spec_is_blank(logo@) {
            DEFAULT_LOGO_PATH@
        } else {
            ASSETS_PREFIX@ + logo@
        },
        None => DEFAULT_LOGO_PATH@,
    }
}

/// The path of the logo to show for `emitter`.
pub fn get_logo_path(emitter: &EmitterConfig) -> (path: String)
    ensures
        path@ == spec_logo_path(emitter),
{
    match &emitter.logo {
        Some(logo) => {
            if is_blank(logo.as_str()) {
                String::from_str(DEFAULT_LOGO_PATH)
            } else {
                let mut path = String::from_str(ASSETS_PREFIX);
                path.append(logo.as_str());
                path
            }
        },
        None => String::from_str(DEFAULT_LOGO_PATH),
    }
}

/// The number that the decimal digit `c` stands for.
pub open spec fn spec_digit_value(c: char) -> nat {
    (c as u32 - 0x30) as nat
}

/// The number that the digits of `s` stand for, read as a decimal numeral.
pub open spec fn spec_digits_value(s: Seq<char>) -> nat
    decreases s.len(),
{
    if s.len() == 0 {
        0
    } else {
        10 * spec_digits_value(s.drop_last()) + spec_digit_value(s.last())
    }
}

/// `s` is made of decimal digits and nothing else.
pub open spec fn spec_all_digits(s: Seq<char>) -> bool {
    forall|i: int| 0 <= i < s.len() ==> spec_is_ascii_digit(#[trigger] s[i])
}

/// A numeral without its plus sign, if it has one.
pub open spec fn spec_unsigned_body(s: Seq<char>) -> Seq<char> {
    if s.len() > 0 && s[0] == '+' {
        s.drop_first()
    } else {
        s
    }
}

/// The number that `s` stands for, where it is a decimal numeral, with or
/// without a plus sign before it, of a number that is at most `max`.
pub open spec fn spec_parse_unsigned(s: Seq<char>, max: nat) -> Option<nat> {
    let body = spec_unsigned_body(s);
    if body.len() > 0 && spec_all_digits(body) && spec_digits_value(body) <= max {
        Some(spec_digits_value(body))
    } else {
        None
    }
}

/// The value of the first digits of a numeral is at most that of all of them.
proof fn lemma_digits_value_grows(s: Seq<char>, n: int)
    requires
        0 <= n <= s.len(),
    ensures
        spec_digits_value(s.take(n)) <= spec_digits_value(s),
    decreases s.len() - n,
{
    if n < s.len() {
        assert(s.take(n + 1).drop_last() =~= s.take(n));
        lemma_digits_value_grows(s, n + 1);
    } else {
        assert(s.take(n) =~= s);
    }
}

/// Reads `text` as a decimal numeral, with or without a plus sign before
/// it.  Any other text, and a number above `max`, gives nothing.
pub fn parse_unsigned(text: &Vec<char>, max: u64) -> (r: Option<u64>)
    ensures
        match r {
            Some(n) => spec_parse_unsigned(text@, max as nat) == Some(n as nat),
            None => spec_parse_unsigned(text@, max as nat) is None,
        },
{
    let start: usize = if text.len() > 0 && text[0] == '+' {
        1
    } else {
        0
    };
    let ghost body = spec_unsigned_body(text@);
    assert(body =~= text@.subrange(start as int, text@.len() as int));
    if start == text.len() {
        return None;
    }
    let mut value: u64 = 0;
    let mut i: usize = start;
    assert(body.take(0) =~= Seq::<char>::empty());
    while i < text.len()
        invariant
            start <= i <= text.len(),
            start < text.len(),
            body == spec_unsigned_body(text@),
            body == text@.subrange(start as int, text@.len() as int),
            spec_all_digits(body.take(i - start)),
            value == spec_digits_value(body.take(i - start)),
            value <= max,
        decreases text.len() - i,
    {
        let c = text[i];
        proof {
            assert(body[i - start] == c);
            assert(body.take(i - start + 1).drop_last() =~= body.take(i - start));
        }
        if !is_ascii_digit(c) {
            assert(!spec_is_ascii_digit(body[i - start]));
            return None;
        }
        let code: u32 = c as u32;
        let digit: u64 = (code - 0x30) as u64;
        if digit > max || value > (max - digit) / 10 {
            proof {
                lemma_digits_value_grows(body, i - start + 1);
                assert(spec_digit_value(c) == digit);
                assert(spec_digits_value(body.take(i - start + 1)) == 10 * value + digit);
                assert(10 * value + digit > max);
            }
            return None;
        }
        value = value * 10 + digit;
        proof {
            let next = body.take(i - start + 1);
            assert forall|k: int| 0 <= k < next.len() implies spec_is_ascii_digit(
                #[trigger] next[k],
            ) by {
                if k < i - start {
                    assert(next[k] == body.take(i - start)[k]);
                }
            }
        }
        i += 1;
    }
    assert(body.take(body.len() as int) =~= body);
    Some(value)
}

/// The line and the field that a name of the form
/// `lines[<number>][<field>]` speaks of.
pub open spec fn spec_parse_line_field(name: Seq<char>) -> Option<(nat, Seq<char>)> {
    let prefix = "lines["@;
    if name.len() >= 6 && name.subrange(0, 6) == prefix {
        let rest = name.subrange(6, name.len() as int);
        let close = rest.index_of_first(']');
        match close {
            Some(at) => {
                let index = spec_parse_unsigned(rest.subrange(0, at), usize::MAX as nat);
                let tail = rest.subrange(at + 1, rest.len() as int);
                if index is Some && tail.len() >= 2 && tail[0] == '[' && tail.last() == ']' {
                    Some((index->0, tail.subrange(1, tail.len() - 1)))
                } else {
                    None
                }
            },
            None => None,
        }
    } else {
        None
    }
}

/// Where `c` first stands in `x` at or after `from`.
fn find_char(x: &Vec<char>, from: usize, c: char) -> (r: Option<usize>)
    requires
        from <= x.len(),
    ensures
        match r {
            Some(at) => from <= at < x.len() && x@[at as int] == c && forall|k: int|
                from <= k < at ==> x@[k] != c,
            None => forall|k: int| from <= k < x.len() ==> x@[k] != c,
        },
{
    let mut i: usize = from;
    while i < x.len()
        invariant
            from <= i <= x.len(),
            forall|k: int| from <= k < i ==> x@[k] != c,
        decreases x.len() - i,
    {
        if x[i] == c {
            return Some(i);
        }
        i += 1;
    }
    None
}

/// The characters of `x` from `from` up to `to`.
fn slice_chars(x: &Vec<char>, from: usize, to: usize) -> (out: Vec<char>)
    requires
        from <= to <= x.len(),
    ensures
        out@ == x@.subrange(from as int, to as int),
{
    let mut out: Vec<char> = Vec::new();
    let mut i: usize = from;
    while i < to
        invariant
            from <= i <= to <= x.len(),
            out@ == x@.subrange(from as int, i as int),
        decreases to - i,
    {
        out.push(x[i]);
        assert(out@ =~= x@.subrange(from as int, i + 1));
        i += 1;
    }
    assert(out@ =~= x@.subrange(from as int, to as int));
    out
}

/// Reads the name of a field of a line, of the form
/// `lines[<number>][<field>]`, and returns the number and the field.
pub fn parse_line_field(name: &str) -> (r: Option<(usize, String)>)
    ensures
        match r {
            Some((index, field)) => spec_parse_line_field(name@) == Some((index as nat, field@)),
            None => spec_parse_line_field(name@) is None,
        },
{
    let x = chars_of(name);
    proof {
        reveal_strlit("lines[");
    }
    if x.len() < 6 || x[0] != 'l' || x[1] != 'i' || x[2] != 'n' || x[3] != 'e' || x[4] != 's'
        || x[5] != '[' {
        proof {
            if x.len() >= 6 {
                let head = name@.subrange(0, 6);
                assert(head[0] == x@[0] && head[1] == x@[1] && head[2] == x@[2] && head[3]
                    == x@[3] && head[4] == x@[4] && head[5] == x@[5]);
            }
        }
        return None;
    }
    assert(name@.subrange(0, 6) =~= "lines["@);
    let ghost rest = name@.subrange(6, name@.len() as int);
    let close = match find_char(&x, 6, ']') {
        Some(at) => at,
        None => {
            proof {
                if rest.index_of_first(']') is Some {
                    rest.index_of_first_ensures(']');
                    let at = rest.index_of_first(']')->0;
                    assert(rest[at] == x@[at + 6]);
                }
            }
            return None;
        },
    };
    proof {
        rest.index_of_first_ensures(']');
        assert(rest[close - 6] == ']');
        assert(rest.contains(']'));
        let at = rest.index_of_first(']')->0;
        if at < close - 6 {
            assert(rest[at] == x@[at + 6]);
        } else if at > close - 6 {
            assert(rest[close - 6] == ']');
        }
        assert(at == close - 6);
        assert(rest.subrange(0, at) =~= x@.subrange(6, close as int));
        assert(rest.subrange(at + 1, rest.len() as int) =~= x@.subrange(
            close + 1,
            x@.len() as int,
        ));
    }
    let digits = slice_chars(&x, 6, close);
    let index = match parse_unsigned(&digits, usize::MAX as u64) {
        Some(n) => n as usize,
        None => {
            return None;
        },
    };
    let ghost tail = x@.subrange(close + 1, x@.len() as int);
    if x.len() - close - 1 < 2 || x[close + 1] != '[' || x[x.len() - 1] != ']' {
        proof {
            if tail.len() >= 2 {
                assert(tail[0] == x@[close + 1]);
                assert(tail.last() == x@[x@.len() - 1]);
            }
        }
        return None;
    }
    proof {
        assert(tail[0] == x@[close + 1]);
        assert(tail.last() == x@[x@.len() - 1]);
        assert(tail.subrange(1, tail.len() - 1) =~= x@.subrange(close + 2, x@.len() - 1));
    }
    let field = slice_chars(&x, close + 2, x.len() - 1);
    Some((index, string_of(&field)))
}

/// What is entered in the first step.
#[derive(Debug, Clone)]
pub struct InvoiceSession {
    pub invoice_number: String,
    pub issue_date: String,
    /// The day of issue as it is shown, `DD/MM/YYYY`.
    pub issue_date_display: String,
    pub type_code: u16,
    pub type_label: String,
    pub currency_code: String,
    pub due_date: Option<String>,
    /// The day payment is due as it is shown, `DD/MM/YYYY`.
    pub due_date_display: Option<String>,
    pub payment_terms: Option<String>,
    pub buyer_reference: Option<String>,
    pub purchase_order_reference: Option<String>,
    pub recipient_name: String,
    pub recipient_siret: String,
    pub recipient_vat_number: Option<String>,
    pub recipient_address: String,
    pub recipient_country_code: String,
}

pub const MSG_STEP1_INVOICE_NUMBER: &'static str = "Le numero de facture est obligatoire";

pub const MSG_STEP1_ISSUE_DATE: &'static str = "La date d'emission est obligatoire";

pub const MSG_STEP1_RECIPIENT_NAME: &'static str = "Le nom du client est obligatoire";

pub const MSG_STEP1_SIRET_REQUIRED: &'static str = "Le SIRET du client est obligatoire";

pub const MSG_STEP1_SIRET_FORMAT: &'static str = "Le SIRET doit contenir 14 chiffres";

pub const MSG_STEP1_COUNTRY: &'static str = "Le pays est obligatoire";

pub const MSG_LINES_REQUIRED: &'static str = "La facture doit contenir au moins une ligne";

/// The errors of what is entered in the first step, in the order of the
/// fields: number, day of issue, recipient's name, SIRET and country must
/// not be blank, and the SIRET must hold 14 digits.
pub open spec fn spec_validate_step1(data: &InvoiceSession) -> Seq<(Seq<char>, Seq<char>)> {
    let e0 = Seq::<(Seq<char>, Seq<char>)>::empty();
    let e1 = push_if(
        e0,
        spec_is_blank(data.invoice_number@),
        ("invoice_number"@, MSG_STEP1_INVOICE_NUMBER@),
    );
    let e2 = push_if(e1, spec_is_blank(data.issue_date@), ("issue_date"@, MSG_STEP1_ISSUE_DATE@));
    let e3 = push_if(
        e2,
        spec_is_blank(data.recipient_name@),
        ("recipient_name"@, MSG_STEP1_RECIPIENT_NAME@),
    );
    let e4 = if spec_is_blank(data.recipient_siret@) {
        e3.push(("recipient_siret"@, MSG_STEP1_SIRET_REQUIRED@))
    } else {
        push_if(
            e3,
            !InvoiceForm::spec_is_valid_siret(data.recipient_siret@),
            ("recipient_siret"@, MSG_STEP1_SIRET_FORMAT@),
        )
    };
    push_if(
        e4,
        spec_is_blank(data.recipient_country_code@),
        ("recipient_country_code"@, MSG_STEP1_COUNTRY@),
    )
}

/// Adds an error on `field` to `errors`.
fn push_error(errors: &mut Vec<FieldError>, field: &str, message: &str)
    ensures
        errors_view(final(errors)@) == errors_view(old(errors)@).push((field@, message@)),
{
    errors.push(FieldError::new(field, message));
    assert(errors_view(final(errors)@) =~= errors_view(old(errors)@).push((field@, message@)));
}

/// Checks what is entered in the first step and reports every rule it breaks.
pub fn validate_step1(data: &InvoiceSession) -> (errors: Vec<FieldError>)
    ensures
        errors_view(errors@) == spec_validate_step1(data),
{
    let mut errors: Vec<FieldError> = Vec::new();
    assert(errors_view(errors@) =~= Seq::<(Seq<char>, Seq<char>)>::empty());
    if is_blank(data.invoice_number.as_str()) {
        push_error(&mut errors, "invoice_number", MSG_STEP1_INVOICE_NUMBER);
    }
    if is_blank(data.issue_date.as_str()) {
        push_error(&mut errors, "issue_date", MSG_STEP1_ISSUE_DATE);
    }
    if is_blank(data.recipient_name.as_str()) {
        push_error(&mut errors, "recipient_name", MSG_STEP1_RECIPIENT_NAME);
    }
    if is_blank(data.recipient_siret.as_str()) {
        push_error(&mut errors, "recipient_siret", MSG_STEP1_SIRET_REQUIRED);
    } else if !InvoiceForm::is_valid_siret(data.recipient_siret.as_str()) {
        push_error(&mut errors, "recipient_siret", MSG_STEP1_SIRET_FORMAT);
    }
    if is_blank(data.recipient_country_code.as_str()) {
        push_error(&mut errors, "recipient_country_code", MSG_STEP1_COUNTRY);
    }
    errors
}

/// The message on the line at `index`, which is counted from one in it.
pub open spec fn spec_line_message(index: nat, what: Seq<char>) -> Seq<char> {
    "Ligne "@ + spec_decimal(index + 1) + what
}

pub const MSG_LINE_NO_DESCRIPTION: &'static str = " : la description est obligatoire";

pub const MSG_LINE_NO_QUANTITY: &'static str = " : la quantite doit etre superieure a 0";

pub const MSG_LINE_NO_PRICE: &'static str = " : le prix unitaire doit etre superieur a 0";

/// The errors of the line at `index`, after `prior`: a blank description,
/// a quantity or a unit price that is not above zero.
pub open spec fn spec_line_errors(
    prior: Seq<(Seq<char>, Seq<char>)>,
    line: InvoiceLine,
    index: nat,
) -> Seq<(Seq<char>, Seq<char>)> {
    let e1 = push_if(
        prior,
        spec_is_blank(line.description@),
        (
            spec_line_field(index, "description"@),
            spec_line_message(index, MSG_LINE_NO_DESCRIPTION@),
        ),
    );
    let e2 = push_if(
        e1,
        line.quantity <= 0,
        (spec_line_field(index, "quantity"@), spec_line_message(index, MSG_LINE_NO_QUANTITY@)),
    );
    push_if(
        e2,
        line.unit_price_ht <= 0,
        (spec_line_field(index, "unit_price_ht"@), spec_line_message(index, MSG_LINE_NO_PRICE@)),
    )
}

/// The errors of the lines, line by line.
pub open spec fn spec_all_line_errors(lines: Seq<InvoiceLine>) -> Seq<(Seq<char>, Seq<char>)>
    decreases lines.len(),
{
    if lines.len() == 0 {
        Seq::empty()
    } else {
        spec_line_errors(
            spec_all_line_errors(lines.drop_last()),
            lines.last(),
            (lines.len() - 1) as nat,
        )
    }
}

/// The errors of the lines of a form: one for a form without lines, else
/// those of each line.
pub open spec fn spec_validate_lines(form: &InvoiceForm) -> Seq<(Seq<char>, Seq<char>)> {
    if form.lines@.len() == 0 {
        seq![("lines"@, MSG_LINES_REQUIRED@)]
    } else {
        spec_all_line_errors(form.lines@)
    }
}

/// Adds an error on a field of the line at `index`.
fn push_line_error(errors: &mut Vec<FieldError>, index: usize, field: &str, what: &str)
    requires
        index < usize::MAX,
    ensures
        errors_view(final(errors)@) == errors_view(old(errors)@).push(
            (spec_line_field(index as nat, field@), spec_line_message(index as nat, what@)),
        ),
{
    let mut name = String::from_str("lines[");
    push_decimal(&mut name, index as u128);
    name.append("][");
    name.append(field);
    name.append("]");
    let mut message = String::from_str("Ligne ");
    push_decimal(&mut message, (index + 1) as u128);
    message.append(what);
    errors.push(FieldError { field: name, message });
    assert(errors_view(final(errors)@) =~= errors_view(old(errors)@).push(
        (spec_line_field(index as nat, field@), spec_line_message(index as nat, what@)),
    ));
}

/// Checks the lines of a form and reports every rule they break.
pub fn validate_lines(form: &InvoiceForm) -> (errors: Vec<FieldError>)
    ensures
        errors_view(errors@) == spec_validate_lines(form),
{
    let mut errors: Vec<FieldError> = Vec::new();
    assert(errors_view(errors@) =~= Seq::<(Seq<char>, Seq<char>)>::empty());
    if form.lines.len() == 0 {
        push_error(&mut errors, "lines", MSG_LINES_REQUIRED);
        assert(errors_view(errors@) =~= seq![("lines"@, MSG_LINES_REQUIRED@)]);
        return errors;
    }
    let mut i: usize = 0;
    assert(form.lines@.take(0) =~= Seq::<InvoiceLine>::empty());
    while i < form.lines.len()
        invariant
            i <= form.lines.len(),
            errors_view(errors@) == spec_all_line_errors(form.lines@.take(i as int)),
        decreases form.lines.len() - i,
    {
        proof {
            assert(form.lines@.take(i + 1).drop_last() =~= form.lines@.take(i as int));
        }
        let line = &form.lines[i];
        if is_blank(line.description.as_str()) {
            push_line_error(&mut errors, i, "description", MSG_LINE_NO_DESCRIPTION);
        }
        if line.quantity <= 0 {
            push_line_error(&mut errors, i, "quantity", MSG_LINE_NO_QUANTITY);
        }
        if line.unit_price_ht <= 0 {
            push_line_error(&mut errors, i, "unit_price_ht", MSG_LINE_NO_PRICE);
        }
        i += 1;
    }
    assert(form.lines@.take(form.lines@.len() as int) =~= form.lines@);
    errors
}

/// What is entered in the first step, its texts as sequences of characters.
pub struct InvoiceSessionView {
    pub invoice_number: Seq<char>,
    pub issue_date: Seq<char>,
    pub issue_date_display: Seq<char>,
    pub type_code: u16,
    pub type_label: Seq<char>,
    pub currency_code: Seq<char>,
    pub due_date: Option<Seq<char>>,
    pub due_date_display: Option<Seq<char>>,
    pub payment_terms: Option<Seq<char>>,
    pub buyer_reference: Option<Seq<char>>,
    pub purchase_order_reference: Option<Seq<char>>,
    pub recipient_name: Seq<char>,
    pub recipient_siret: Seq<char>,
    pub recipient_vat_number: Option<Seq<char>>,
    pub recipient_address: Seq<char>,
    pub recipient_country_code: Seq<char>,
}

/// An optional text as a sequence of characters.
pub open spec fn spec_option_view(text: Option<String>) -> Option<Seq<char>> {
    match text {
        Some(t) => Some(t@),
        None => None,
    }
}

impl View for InvoiceSession {
    type V = InvoiceSessionView;

    open spec fn view(&self) -> InvoiceSessionView {
        InvoiceSessionView {
            invoice_number: self.invoice_number@,
            issue_date: self.issue_date@,
            issue_date_display: self.issue_date_display@,
            type_code: self.type_code,
            type_label: self.type_label@,
            currency_code: self.currency_code@,
            due_date: spec_option_view(self.due_date),
            due_date_display: spec_option_view(self.due_date_display),
            payment_terms: spec_option_view(self.payment_terms),
            buyer_reference: spec_option_view(self.buyer_reference),
            purchase_order_reference: spec_option_view(self.purchase_order_reference),
            recipient_name: self.recipient_name@,
            recipient_siret: self.recipient_siret@,
            recipient_vat_number: spec_option_view(self.recipient_vat_number),
            recipient_address: self.recipient_address@,
            recipient_country_code: self.recipient_country_code@,
        }
    }
}

/// The kind of document that is taken where none is given or named.
pub const DEFAULT_TYPE_CODE: u16 = 380;

pub const DEFAULT_TYPE_LABEL: &'static str = "Facture";

pub const DEFAULT_CURRENCY: &'static str = "EUR";

pub const DEFAULT_COUNTRY: &'static str = "FR";

/// A text that may be left out: nothing where it is blank.
pub open spec fn spec_optional(value: Seq<char>) -> Option<Seq<char>> {
    if spec_is_blank(value) {
        None
    } else {
        Some(value)
    }
}

/// The number of the kind that `value` gives: the number it stands for,
/// or that of an invoice where it stands for none.
pub open spec fn spec_type_code(value: Seq<char>) -> u16 {
    match spec_parse_unsigned(value, u16::MAX as nat) {
        Some(n) => n as u16,
        None => DEFAULT_TYPE_CODE,
    }
}

/// The name of the kind with the number `code`, or that of an invoice
/// where the number names no kind.
pub open spec fn spec_type_label(code: u16) -> Seq<char> {
    match InvoiceTypeCode::spec_from_code(code) {
        Some(kind) => kind.spec_label(),
        None => DEFAULT_TYPE_LABEL@,
    }
}

/// What is entered after one more field has come in.  A field that is
/// not of the first step changes nothing.
pub open spec fn spec_apply_field(
    session: InvoiceSessionView,
    name: Seq<char>,
    value: Seq<char>,
) -> InvoiceSessionView {
    if name == "invoice_number"@ {
        InvoiceSessionView { invoice_number: value, ..session }
    } else if name == "issue_date"@ {
        InvoiceSessionView { issue_date: value, ..session }
    } else if name == "type_code"@ {
        InvoiceSessionView {
            type_code: spec_type_code(value),
            type_label: spec_type_label(spec_type_code(value)),
            ..session
        }
    } else if name == "currency_code"@ {
        InvoiceSessionView { currency_code: value, ..session }
    } else if name == "due_date"@ {
        InvoiceSessionView { due_date: spec_optional(value), ..session }
    } else if name == "payment_terms"@ {
        InvoiceSessionView { payment_terms: spec_optional(value), ..session }
    } else if name == "buyer_reference"@ {
        InvoiceSessionView { buyer_reference: spec_optional(value), ..session }
    } else if name == "purchase_order_reference"@ {
        InvoiceSessionView { purchase_order_reference: spec_optional(value), ..session }
    } else if name == "recipient_name"@ {
        InvoiceSessionView { recipient_name: value, ..session }
    } else if name == "recipient_siret"@ {
        InvoiceSessionView { recipient_siret: value, ..session }
    } else if name == "recipient_vat_number"@ {
        InvoiceSessionView { recipient_vat_number: spec_optional(value), ..session }
    } else if name == "recipient_address"@ {
        InvoiceSessionView { recipient_address: value, ..session }
    } else if name == "recipient_country_code"@ {
        InvoiceSessionView { recipient_country_code: value, ..session }
    } else {
        session
    }
}

/// A text that may be left out: nothing where it is blank.
fn optional(value: String) -> (r: Option<String>)
    ensures
        spec_option_view(r) == spec_optional(value@),
{
    if is_blank(value.as_str()) {
        None
    } else {
        Some(value)
    }
}

impl InvoiceSession {
    /// Nothing entered yet: an invoice in euros to a recipient in France.
    pub fn new() -> (session: InvoiceSession)
        ensures
            session@ == (InvoiceSessionView {
                invoice_number: Seq::empty(),
                issue_date: Seq::empty(),
                issue_date_display: Seq::empty(),
                type_code: DEFAULT_TYPE_CODE,
                type_label: Seq::empty(),
                currency_code: DEFAULT_CURRENCY@,
                due_date: None,
                due_date_display: None,
                payment_terms: None,
                buyer_reference: None,
                purchase_order_reference: None,
                recipient_name: Seq::empty(),
                recipient_siret: Seq::empty(),
                recipient_vat_number: None,
                recipient_address: Seq::empty(),
                recipient_country_code: DEFAULT_COUNTRY@,
            }),
    {
        InvoiceSession {
            invoice_number: String::new(),
            issue_date: String::new(),
            issue_date_display: String::new(),
            type_code: DEFAULT_TYPE_CODE,
            type_label: String::new(),
            currency_code: String::from_str(DEFAULT_CURRENCY),
            due_date: None,
            due_date_display: None,
            payment_terms: None,
            buyer_reference: None,
            purchase_order_reference: None,
            recipient_name: String::new(),
            recipient_siret: String::new(),
            recipient_vat_number: None,
            recipient_address: String::new(),
            recipient_country_code: String::from_str(DEFAULT_COUNTRY),
        }
    }

    /// Takes in the field `name` with the text `value`.
    pub fn apply_field(&mut self, name: &str, value: String)
        ensures
            final(self)@ == spec_apply_field(old(self)@, name@, value@),
    {
        if str_equals(name, "invoice_number") {
            self.invoice_number = value;
        } else if str_equals(name, "issue_date") {
            self.issue_date = value;
        } else if str_equals(name, "type_code") {
            let digits = chars_of(value.as_str());
            let code: u16 = match parse_unsigned(&digits, 65535) {
                Some(n) => n as u16,
                None => DEFAULT_TYPE_CODE,
            };
            self.type_code = code;
            self.type_label = match InvoiceTypeCode::from_code(code) {
                Some(kind) => String::from_str(kind.label()),
                None => String::from_str(DEFAULT_TYPE_LABEL),
            };
        } else if str_equals(name, "currency_code") {
            self.currency_code = value;
        } else if str_equals(name, "due_date") {
            self.due_date = optional(value);
        } else if str_equals(name, "payment_terms") {
            self.payment_terms = optional(value);
        } else if str_equals(name, "buyer_reference") {
            self.buyer_reference = optional(value);
        } else if str_equals(name, "purchase_order_reference") {
            self.purchase_order_reference = optional(value);
        } else if str_equals(name, "recipient_name") {
            self.recipient_name = value;
        } else if str_equals(name, "recipient_siret") {
            self.recipient_siret = value;
        } else if str_equals(name, "recipient_vat_number") {
            self.recipient_vat_number = optional(value);
        } else if str_equals(name, "recipient_address") {
            self.recipient_address = value;
        } else if str_equals(name, "recipient_country_code") {
            self.recipient_country_code = value;
        }
    }

    /// Sets the dates as they are shown from the dates as they are entered.
    pub fn finish(&mut self)
        ensures
            final(self)@ == (InvoiceSessionView {
                issue_date_display: spec_format_date_display(old(self).issue_date@),
                due_date_display: match old(self).due_date {
                    Some(d) => Some(spec_format_date_display(d@)),
                    None => None,
                },
                ..old(self)@
            }),
    {
        self.issue_date_display = format_date_display(self.issue_date.as_str());
        self.due_date_display = match &self.due_date {
            Some(d) => Some(format_date_display(d.as_str())),
            None => None,
        };
    }

    /// The form of an invoice with what was entered in the first step and
    /// the lines of the second.
    pub fn into_form(&self, lines: Vec<InvoiceLine>) -> (form: InvoiceForm)
        ensures
            form.invoice_number@ == self.invoice_number@,
            form.issue_date@ == self.issue_date@,
            form.type_code == self.type_code,
            form.currency_code@ == self.currency_code@,
            spec_option_view(form.due_date) == spec_option_view(self.due_date),
            spec_option_view(form.payment_terms) == spec_option_view(self.payment_terms),
            spec_option_view(form.buyer_reference) == spec_option_view(self.buyer_reference),
            spec_option_view(form.purchase_order_reference) == spec_option_view(
                self.purchase_order_reference,
            ),
            form.recipient_name@ == self.recipient_name@,
            form.recipient_siret@ == self.recipient_siret@,
            spec_option_view(form.recipient_vat_number) == spec_option_view(
                self.recipient_vat_number,
            ),
            form.recipient_address@ == self.recipient_address@,
            form.recipient_country_code@ == self.recipient_country_code@,
            form.lines == lines,
    {
        InvoiceForm {
            invoice_number: String::from_str(self.invoice_number.as_str()),
            issue_date: String::from_str(self.issue_date.as_str()),
            type_code: self.type_code,
            currency_code: String::from_str(self.currency_code.as_str()),
            due_date: copy_optional(&self.due_date),
            payment_terms: copy_optional(&self.payment_terms),
            buyer_reference: copy_optional(&self.buyer_reference),
            purchase_order_reference: copy_optional(&self.purchase_order_reference),
            recipient_name: String::from_str(self.recipient_name.as_str()),
            recipient_siret: String::from_str(self.recipient_siret.as_str()),
            recipient_vat_number: copy_optional(&self.recipient_vat_number),
            recipient_address: String::from_str(self.recipient_address.as_str()),
            recipient_country_code: String::from_str(self.recipient_country_code.as_str()),
            lines,
        }
    }
}

/// A copy of an optional text.
fn copy_optional(text: &Option<String>) -> (r: Option<String>)
    ensures
        spec_option_view(r) == spec_option_view(*text),
{
    match text {
        Some(t) => Some(String::from_str(t.as_str())),
        None => None,
    }
}

/// The name under which the PDF of the invoice with the number `number`
/// is handed out: slashes, backslashes and spaces of the number give way
/// to underscores.
pub open spec fn spec_pdf_filename(number: Seq<char>) -> Seq<char> {
    "facture_"@ + number.map_values(
        |c: char|
            if c == '/' || c == '\\' || c == ' ' {
                '_'
            } else {
                c
            },
    ) + ".pdf"@
}

/// The name under which the PDF of an invoice is handed out.
pub fn pdf_filename(number: &str) -> (name: String)
    ensures
        name@ == spec_pdf_filename(number@),
{
    let x = chars_of(number);
    let mut name = String::from_str("facture_");
    let ghost safe = |c: char|
        if c == '/' || c == '\\' || c == ' ' {
            '_'
        } else {
            c
        };
    let mut i: usize = 0;
    assert(name@ =~= "facture_"@ + x@.take(0).map_values(safe));
    while i < x.len()
        invariant
            i <= x.len(),
            safe == |c: char|
                if c == '/' || c == '\\' || c == ' ' {
                    '_'
                } else {
                    c
                },
            name@ == "facture_"@ + x@.take(i as int).map_values(safe),
        decreases x.len() - i,
    {
        let c = x[i];
        if c == '/' || c == '\\' || c == ' ' {
            name.push('_');
        } else {
            name.push(c);
        }
        assert(name@ =~= "facture_"@ + x@.take(i + 1).map_values(safe));
        i += 1;
    }
    assert(x@.take(x@.len() as int) =~= x@);
    name.append(".pdf");
    name
}

} // verus!
