//! The Cross Industry Invoice XML of an invoice, in the MINIMUM profile.

use vstd::prelude::*;
use crate::EmitterConfig;
use crate::decimal::{push_decimal, push_rounded, spec_decimal, spec_format_rounded};
use crate::facturx::vat::{
    VatGroup,
    calculate_vat_breakdown,
    lemma_breakdown_skips_invalid_lines,
    spec_vat_breakdown,
};
use crate::models::invoice::InvoiceForm;
use crate::models::line::InvoiceLine;
use crate::text::chars_of;

verus! {

/// What stands for `c` in XML text: an entity for `&`, `<`, `>`, `"` and
/// `'`, the character itself for any other.
pub open spec fn spec_escape_char(c: char) -> Seq<char> {
    if c == '&' {
        "&amp;"@
    } else if c == '<' {
        "&lt;"@
    } else if c == '>' {
        "&gt;"@
    } else if c == '"' {
        "&quot;"@
    } else if c == '\'' {
        "&apos;"@
    } else {
        seq![c]
    }
}

/// `s` with each character replaced by what stands for it in XML text.
pub open spec fn spec_escape_xml(s: Seq<char>) -> Seq<char>
    decreases s.len(),
{
    if s.len() == 0 {
        Seq::empty()
    } else {
        spec_escape_xml(s.drop_last()) + spec_escape_char(s.last())
    }
}

/// Appends to `out` what stands for `c` in XML text.
fn push_escaped_char(out: &mut String, c: char)
    ensures
        final(out)@ == old(out)@ + spec_escape_char(c),
{
    if c == '&' {
        out.append("&amp;");
    } else if c == '<' {
        out.append("&lt;");
    } else if c == '>' {
        out.append("&gt;");
    } else if c == '"' {
        out.append("&quot;");
    } else if c == '\'' {
        out.append("&apos;");
    } else {
        out.push(c);
        assert(final(out)@ =~= old(out)@ + seq![c]);
    }
}

/// Appends `text` to `out`, escaped for XML.
pub fn push_escaped(out: &mut String, text: &str)
    ensures
        final(out)@ == old(out)@ + spec_escape_xml(text@),
{
    let x = chars_of(text);
    let mut i: usize = 0;
    assert(x@.take(0) =~= Seq::<char>::empty());
    assert(out@ =~= old(out)@ + spec_escape_xml(x@.take(0)));
    while i < x.len()
        invariant
            i <= x.len(),
            out@ == old(out)@ + spec_escape_xml(x@.take(i as int)),
        decreases x.len() - i,
    {
        let ghost before = out@;
        push_escaped_char(out, x[i]);
        proof {
            let next = x@.take(i + 1);
            assert(next.drop_last() =~= x@.take(i as int));
            assert(next.last() == x@[i as int]);
            assert(out@ =~= old(out)@ + spec_escape_xml(next));
        }
        i += 1;
    }
    assert(x@.take(x@.len() as int) =~= x@);
}

/// `s` with `&`, `<`, `>`, `"` and `'` replaced by their XML entities.
pub fn escape_xml(s: &str) -> (out: String)
    ensures
        out@ == spec_escape_xml(s@),
{
    let mut out = String::new();
    push_escaped(&mut out, s);
    assert(out@ =~= spec_escape_xml(s@));
    out
}

/// Escaping goes character by character: the escaped form of two texts
/// joined is the two escaped forms joined.
pub proof fn lemma_escape_xml_concat(a: Seq<char>, b: Seq<char>)
    ensures
        spec_escape_xml(a + b) == spec_escape_xml(a) + spec_escape_xml(b),
    decreases b.len(),
{
    if b.len() == 0 {
        assert(a + b =~= a);
        assert(spec_escape_xml(a) + spec_escape_xml(b) =~= spec_escape_xml(a));
    } else {
        lemma_escape_xml_concat(a, b.drop_last());
        assert((a + b).drop_last() =~= a + b.drop_last());
        assert((a + b).last() == b.last());
        assert(spec_escape_xml(a + b) =~= spec_escape_xml(a) + spec_escape_xml(b));
    }
}

/// None of `<`, `>`, `"` and `'` is left in an escaped text.
pub proof fn lemma_escape_xml_clean(s: Seq<char>, i: int)
    requires
        0 <= i < spec_escape_xml(s).len(),
    ensures
        spec_escape_xml(s)[i] != '<',
        spec_escape_xml(s)[i] != '>',
        spec_escape_xml(s)[i] != '"',
        spec_escape_xml(s)[i] != '\'',
    decreases s.len(),
{
    reveal_strlit("&amp;");
    reveal_strlit("&lt;");
    reveal_strlit("&gt;");
    reveal_strlit("&quot;");
    reveal_strlit("&apos;");
    if s.len() > 0 {
        let head = spec_escape_xml(s.drop_last());
        if i < head.len() {
            lemma_escape_xml_clean(s.drop_last(), i);
        }
    }
}

/// The text of a date that is not in the shape `YYYY-MM-DD`.
#[derive(Debug, Clone)]
pub struct DateFormatError {
    pub value: String,
}

impl DateFormatError {
    /// What the error says, as text.
    pub open spec fn spec_message(&self) -> Seq<char> {
        "Format de date invalide: "@ + self.value@
    }

    /// What the error says.
    pub fn message(&self) -> (m: String)
        ensures
            m@ == self.spec_message(),
    {
        let mut m = String::from_str("Format de date invalide: ");
        m.append(self.value.as_str());
        m
    }
}

/// `s` has ten characters, of which the fifth and the eighth are hyphens
/// and no other is.
pub open spec fn spec_is_date_shape(s: Seq<char>) -> bool {
    &&& s.len() == 10
    &&& forall|i: int| 0 <= i < 10 ==> ((#[trigger] s[i] == '-') <==> (i == 4 || i == 7))
}

/// The year, month and day of a date in the shape `YYYY-MM-DD`, set side by side.
pub open spec fn spec_compact_date(s: Seq<char>) -> Seq<char> {
    s.subrange(0, 4) + s.subrange(5, 7) + s.subrange(8, 10)
}

/// The day, month and year of a date in the shape `YYYY-MM-DD`, with
/// slashes between them.
pub open spec fn spec_display_date_parts(s: Seq<char>) -> Seq<char> {
    s.subrange(8, 10) + seq!['/'] + s.subrange(5, 7) + seq!['/'] + s.subrange(0, 4)
}

/// Whether `x` has the shape `YYYY-MM-DD`.
pub fn is_date_shape(x: &Vec<char>) -> (r: bool)
    ensures
        r == spec_is_date_shape(x@),
{
    if x.len() != 10 {
        return false;
    }
    let mut i: usize = 0;
    while i < 10
        invariant
            i <= 10,
            x.len() == 10,
            forall|k: int| 0 <= k < i ==> ((#[trigger] x@[k] == '-') <==> (k == 4 || k == 7)),
        decreases 10 - i,
    {
        let hyphen = x[i] == '-';
        let wanted = i == 4 || i == 7;
        if hyphen != wanted {
            return false;
        }
        i += 1;
    }
    true
}

/// Turns a date `YYYY-MM-DD` into `YYYYMMDD`, the form that the XML holds.
/// Any text that is not in that shape is refused.
pub fn format_date_for_facturx(date: &str) -> (r: Result<String, DateFormatError>)
    ensures
        spec_is_date_shape(date@) ==> r is Ok && r->Ok_0@ == spec_compact_date(date@),
        !spec_is_date_shape(date@) ==> r is Err && r->Err_0.value@ == date@,
{
    let x = chars_of(date);
    if !is_date_shape(&x) {
        return Err(DateFormatError { value: String::from_str(date) });
    }
    let mut out = String::new();
    out.push(x[0]);
    out.push(x[1]);
    out.push(x[2]);
    out.push(x[3]);
    out.push(x[5]);
    out.push(x[6]);
    out.push(x[8]);
    out.push(x[9]);
    assert(out@ =~= spec_compact_date(date@));
    Ok(out)
}

/// Why no XML could be made of an invoice.
#[derive(Debug, Clone)]
pub enum XmlError {
    /// The day of issue or the day payment is due is not in the shape `YYYY-MM-DD`.
    DateFormat(DateFormatError),
    /// The amounts taxed at one rate add up to too large a number.
    AmountsTooLarge,
}

impl XmlError {
    /// What the error says, as text.
    pub open spec fn spec_message(&self) -> Seq<char> {
        match self {
            XmlError::DateFormat(e) => e.spec_message(),
            XmlError::AmountsTooLarge => MSG_AMOUNTS_TOO_LARGE@,
        }
    }

    /// What the error says.
    pub fn message(&self) -> (m: String)
        ensures
            m@ == self.spec_message(),
    {
        match self {
            XmlError::DateFormat(e) => e.message(),
            XmlError::AmountsTooLarge => String::from_str(MSG_AMOUNTS_TOO_LARGE),
        }
    }
}

pub const MSG_AMOUNTS_TOO_LARGE: &'static str = "Montants trop grands pour le récapitulatif TVA";

/// Steps of a total without tax in one hundredth of the currency unit.
pub const HT_STEPS_PER_CENT: u128 = 1_000_000;

/// Steps of a tax, or of a total with tax, in one hundredth of the currency unit.
pub const TAX_STEPS_PER_CENT: u128 = 10_000_000_000;

pub const XML_OPEN: &'static str =
    "<?xml version=\"1.0\" encoding=\"UTF-8\"?>\n<rsm:CrossIndustryInvoice xmlns:rsm=\"urn:un:unece:uncefact:data:standard:CrossIndustryInvoice:100\"\n    xmlns:ram=\"urn:un:unece:uncefact:data:standard:ReusableAggregateBusinessInformationEntity:100\"\n    xmlns:udt=\"urn:un:unece:uncefact:data:standard:UnqualifiedDataType:100\"\n    xmlns:qdt=\"urn:un:unece:uncefact:data:standard:QualifiedDataType:100\">\n    <rsm:ExchangedDocumentContext>\n        <ram:GuidelineSpecifiedDocumentContextParameter>\n            <ram:ID>urn:factur-x.eu:1p0:minimum</ram:ID>\n        </ram:GuidelineSpecifiedDocumentContextParameter>\n    </rsm:ExchangedDocumentContext>\n    <rsm:ExchangedDocument>\n        <ram:ID>";

pub const XML_TYPE_CODE: &'static str = "</ram:ID>\n        <ram:TypeCode>";

pub const XML_ISSUE_DATE: &'static str =
    "</ram:TypeCode>\n        <ram:IssueDateTime>\n            <udt:DateTimeString format=\"102\">";

pub const XML_AGREEMENT: &'static str =
    "</udt:DateTimeString>\n        </ram:IssueDateTime>\n    </rsm:ExchangedDocument>\n    <rsm:SupplyChainTradeTransaction>\n        <ram:ApplicableHeaderTradeAgreement>";

pub const XML_SELLER_NAME: &'static str =
    "\n            <ram:SellerTradeParty>\n                <ram:Name>";

pub const XML_PARTY_SIRET: &'static str =
    "</ram:Name>\n                <ram:SpecifiedLegalOrganization>\n                    <ram:ID schemeID=\"0002\">";

pub const XML_PARTY_ADDRESS: &'static str =
    "</ram:ID>\n                </ram:SpecifiedLegalOrganization>\n                <ram:PostalTradeAddress>\n                    <ram:LineOne>";

pub const XML_SELLER_ADDRESS_END: &'static str =
    "</ram:LineOne>\n                    <ram:CountryID>FR</ram:CountryID>\n                </ram:PostalTradeAddress>";

pub const XML_BUYER_NAME: &'static str =
    "\n            </ram:SellerTradeParty>\n            <ram:BuyerTradeParty>\n                <ram:Name>";

pub const XML_BUYER_COUNTRY: &'static str = "</ram:LineOne>\n                    <ram:CountryID>";

pub const XML_BUYER_ADDRESS_END: &'static str =
    "</ram:CountryID>\n                </ram:PostalTradeAddress>";

pub const XML_BUYER_END: &'static str = "\n            </ram:BuyerTradeParty>";

pub const XML_SETTLEMENT: &'static str =
    "\n        </ram:ApplicableHeaderTradeAgreement>\n        <ram:ApplicableHeaderTradeDelivery/>\n        <ram:ApplicableHeaderTradeSettlement>\n            <ram:InvoiceCurrencyCode>";

pub const XML_CURRENCY_END: &'static str = "</ram:InvoiceCurrencyCode>";

pub const XML_SUMMATION: &'static str =
    "\n            <ram:SpecifiedTradeSettlementHeaderMonetarySummation>\n                <ram:LineTotalAmount>";

pub const XML_TAX_BASIS_TOTAL: &'static str =
    "</ram:LineTotalAmount>\n                <ram:TaxBasisTotalAmount>";

pub const XML_TAX_TOTAL: &'static str =
    "</ram:TaxBasisTotalAmount>\n                <ram:TaxTotalAmount currencyID=\"";

pub const XML_TAX_TOTAL_VALUE: &'static str = "\">";

pub const XML_GRAND_TOTAL: &'static str =
    "</ram:TaxTotalAmount>\n                <ram:GrandTotalAmount>";

pub const XML_DUE_PAYABLE: &'static str =
    "</ram:GrandTotalAmount>\n                <ram:DuePayableAmount>";

pub const XML_CLOSE: &'static str =
    "</ram:DuePayableAmount>\n            </ram:SpecifiedTradeSettlementHeaderMonetarySummation>\n        </ram:ApplicableHeaderTradeSettlement>\n    </rsm:SupplyChainTradeTransaction>\n</rsm:CrossIndustryInvoice>";

pub const XML_DUE_DATE: &'static str =
    "\n                    <ram:SpecifiedTradePaymentTerms>\n                        <ram:DueDateDateTime>\n                            <udt:DateTimeString format=\"102\">";

pub const XML_DUE_DATE_END: &'static str =
    "</udt:DateTimeString>\n                        </ram:DueDateDateTime>\n                    </ram:SpecifiedTradePaymentTerms>";

pub const XML_TAX_REGISTRATION: &'static str =
    "\n                        <ram:SpecifiedTaxRegistration>\n                            <ram:ID schemeID=\"VA\">";

pub const XML_TAX_REGISTRATION_END: &'static str =
    "</ram:ID>\n                        </ram:SpecifiedTaxRegistration>";

pub const XML_BUYER_REFERENCE: &'static str = "\n                    <ram:BuyerReference>";

pub const XML_BUYER_REFERENCE_END: &'static str = "</ram:BuyerReference>";

pub const XML_ORDER_REFERENCE: &'static str =
    "\n                    <ram:BuyerOrderReferencedDocument>\n                        <ram:IssuerAssignedID>";

pub const XML_ORDER_REFERENCE_END: &'static str =
    "</ram:IssuerAssignedID>\n                    </ram:BuyerOrderReferencedDocument>";

pub const XML_TRADE_TAX_AMOUNT: &'static str =
    "\n            <ram:ApplicableTradeTax>\n                <ram:CalculatedAmount>";

pub const XML_TRADE_TAX_BASIS: &'static str =
    "</ram:CalculatedAmount>\n                <ram:TypeCode>VAT</ram:TypeCode>\n                <ram:BasisAmount>";

pub const XML_TRADE_TAX_RATE: &'static str =
    "</ram:BasisAmount>\n                <ram:CategoryCode>S</ram:CategoryCode>\n                <ram:RateApplicablePercent>";

pub const XML_TRADE_TAX_END: &'static str =
    "</ram:RateApplicablePercent>\n            </ram:ApplicableTradeTax>";


/// `prefix`, followed by `open`, the escaped text of `field` and `close`
/// where the field is there and not empty.
pub open spec fn spec_with_optional(
    prefix: Seq<char>,
    open: Seq<char>,
    field: Option<String>,
    close: Seq<char>,
) -> Seq<char> {
    match field {
        Some(text) => if text@.len() > 0 {
            prefix + open + spec_escape_xml(text@) + close
        } else {
            prefix
        },
        None => prefix,
    }
}

/// Whether the invoice has a day on which payment is due.
pub open spec fn spec_has_due_date(invoice: &InvoiceForm) -> bool {
    invoice.due_date is Some && invoice.due_date->0@.len() > 0
}

/// `prefix`, followed by the block of one rate: the tax, the basis and the
/// rate, each with two decimals.
pub open spec fn spec_with_trade_tax(prefix: Seq<char>, group: VatGroup) -> Seq<char> {
    prefix + XML_TRADE_TAX_AMOUNT@ + spec_format_rounded(
        group.vat_amount as int,
        TAX_STEPS_PER_CENT as nat,
        2,
    ) + XML_TRADE_TAX_BASIS@ + spec_format_rounded(
        group.base_ht as int,
        HT_STEPS_PER_CENT as nat,
        2,
    ) + XML_TRADE_TAX_RATE@ + spec_format_rounded(group.rate as int, 1, 2) + XML_TRADE_TAX_END@
}

/// `prefix`, followed by the blocks of all rates, in order.
pub open spec fn spec_with_trade_taxes(prefix: Seq<char>, groups: Seq<VatGroup>) -> Seq<char>
    decreases groups.len(),
{
    if groups.len() == 0 {
        prefix
    } else {
        spec_with_trade_tax(spec_with_trade_taxes(prefix, groups.drop_last()), groups.last())
    }
}

/// The XML from its start to the buyer's reference: the number, the kind
/// and the day of issue of the document.
pub open spec fn spec_xml_document(invoice: &InvoiceForm) -> Seq<char> {
    spec_with_optional(
        XML_OPEN@ + spec_escape_xml(invoice.invoice_number@) + XML_TYPE_CODE@ + spec_decimal(
            invoice.type_code as nat,
        ) + XML_ISSUE_DATE@ + spec_compact_date(invoice.issue_date@) + XML_AGREEMENT@,
        XML_BUYER_REFERENCE@,
        invoice.buyer_reference,
        XML_BUYER_REFERENCE_END@,
    )
}

/// `prefix`, followed by the seller: name, SIRET, address, and the VAT
/// number where there is one.
pub open spec fn spec_with_seller(prefix: Seq<char>, emitter: &EmitterConfig) -> Seq<char> {
    spec_with_optional(
        prefix + XML_SELLER_NAME@ + spec_escape_xml(emitter.name@) + XML_PARTY_SIRET@
            + spec_escape_xml(emitter.siret@) + XML_PARTY_ADDRESS@ + spec_escape_xml(
            emitter.address@,
        ) + XML_SELLER_ADDRESS_END@,
        XML_TAX_REGISTRATION@,
        emitter.num_tva,
        XML_TAX_REGISTRATION_END@,
    )
}

/// `prefix`, followed by the buyer: name, SIRET, address, country, the VAT
/// number where there is one, and the reference of the order where there is one.
pub open spec fn spec_with_buyer(prefix: Seq<char>, invoice: &InvoiceForm) -> Seq<char> {
    spec_with_optional(
        spec_with_optional(
            prefix + XML_BUYER_NAME@ + spec_escape_xml(invoice.recipient_name@) + XML_PARTY_SIRET@
                + spec_escape_xml(invoice.recipient_siret@) + XML_PARTY_ADDRESS@ + spec_escape_xml(
                invoice.recipient_address@,
            ) + XML_BUYER_COUNTRY@ + spec_escape_xml(invoice.recipient_country_code@)
                + XML_BUYER_ADDRESS_END@,
            XML_TAX_REGISTRATION@,
            invoice.recipient_vat_number,
            XML_TAX_REGISTRATION_END@,
        ) + XML_BUYER_END@,
        XML_ORDER_REFERENCE@,
        invoice.purchase_order_reference,
        XML_ORDER_REFERENCE_END@,
    )
}

/// `prefix`, followed by the currency and, where there is one, the day
/// payment is due.
pub open spec fn spec_with_terms(prefix: Seq<char>, invoice: &InvoiceForm) -> Seq<char> {
    let head = prefix + XML_SETTLEMENT@ + spec_escape_xml(invoice.currency_code@)
        + XML_CURRENCY_END@;
    if spec_has_due_date(invoice) {
        head + XML_DUE_DATE@ + spec_compact_date(invoice.due_date->0@) + XML_DUE_DATE_END@
    } else {
        head
    }
}

/// `prefix`, followed by the totals, each with two decimals, and the end
/// of the document.
pub open spec fn spec_with_summation(
    prefix: Seq<char>,
    invoice: &InvoiceForm,
    totals: (i128, i128, i128),
) -> Seq<char> {
    prefix + XML_SUMMATION@ + spec_format_rounded(totals.0 as int, HT_STEPS_PER_CENT as nat, 2)
        + XML_TAX_BASIS_TOTAL@ + spec_format_rounded(totals.0 as int, HT_STEPS_PER_CENT as nat, 2)
        + XML_TAX_TOTAL@ + spec_escape_xml(invoice.currency_code@) + XML_TAX_TOTAL_VALUE@
        + spec_format_rounded(totals.1 as int, TAX_STEPS_PER_CENT as nat, 2) + XML_GRAND_TOTAL@
        + spec_format_rounded(totals.2 as int, TAX_STEPS_PER_CENT as nat, 2) + XML_DUE_PAYABLE@
        + spec_format_rounded(totals.2 as int, TAX_STEPS_PER_CENT as nat, 2) + XML_CLOSE@
}

/// The XML of an invoice whose dates are well-formed, with `groups` as the
/// tax of each rate.
pub open spec fn spec_facturx_xml(
    invoice: &InvoiceForm,
    emitter: &EmitterConfig,
    totals: (i128, i128, i128),
    groups: Seq<VatGroup>,
) -> Seq<char> {
    spec_with_summation(
        spec_with_trade_taxes(
            spec_with_terms(
                spec_with_buyer(spec_with_seller(spec_xml_document(invoice), emitter), invoice),
                invoice,
            ),
            groups,
        ),
        invoice,
        totals,
    )
}

/// Appends `open`, the escaped text of `field` and `close` where the field
/// is there and not empty.
fn push_optional(out: &mut String, open: &str, field: &Option<String>, close: &str)
    ensures
        final(out)@ == spec_with_optional(old(out)@, open@, *field, close@),
{
    match field {
        Some(text) => {
            if text.as_str().unicode_len() > 0 {
                out.append(open);
                push_escaped(out, text.as_str());
                out.append(close);
            }
        },
        None => {},
    }
}

/// Appends the block of one rate.
fn push_trade_tax(out: &mut String, group: &VatGroup)
    ensures
        final(out)@ == spec_with_trade_tax(old(out)@, *group),
{
    out.append(XML_TRADE_TAX_AMOUNT);
    push_rounded(out, group.vat_amount, TAX_STEPS_PER_CENT, 2);
    out.append(XML_TRADE_TAX_BASIS);
    push_rounded(out, group.base_ht, HT_STEPS_PER_CENT, 2);
    out.append(XML_TRADE_TAX_RATE);
    push_rounded(out, group.rate as i128, 1, 2);
    out.append(XML_TRADE_TAX_END);
}

/// Appends the blocks of all rates, in order.
fn push_trade_taxes(out: &mut String, groups: &Vec<VatGroup>)
    ensures
        final(out)@ == spec_with_trade_taxes(old(out)@, groups@),
{
    let mut i: usize = 0;
    assert(groups@.take(0) =~= Seq::<VatGroup>::empty());
    while i < groups.len()
        invariant
            i <= groups.len(),
            out@ == spec_with_trade_taxes(old(out)@, groups@.take(i as int)),
        decreases groups.len() - i,
    {
        proof {
            assert(groups@.take(i + 1).drop_last() =~= groups@.take(i as int));
        }
        push_trade_tax(out, &groups[i]);
        i += 1;
    }
    assert(groups@.take(groups@.len() as int) =~= groups@);
}

/// Starts the XML: the document and the buyer's reference.
fn xml_document(invoice: &InvoiceForm, issue_date: &str) -> (out: String)
    requires
        issue_date@ == spec_compact_date(invoice.issue_date@),
    ensures
        out@ == spec_xml_document(invoice),
{
    let mut out = String::from_str(XML_OPEN);
    push_escaped(&mut out, invoice.invoice_number.as_str());
    out.append(XML_TYPE_CODE);
    push_decimal(&mut out, invoice.type_code as u128);
    out.append(XML_ISSUE_DATE);
    out.append(issue_date);
    out.append(XML_AGREEMENT);
    push_optional(&mut out, XML_BUYER_REFERENCE, &invoice.buyer_reference, XML_BUYER_REFERENCE_END);
    out
}

/// Appends the seller.
fn push_seller(out: &mut String, emitter: &EmitterConfig)
    ensures
        final(out)@ == spec_with_seller(old(out)@, emitter),
{
    out.append(XML_SELLER_NAME);
    push_escaped(out, emitter.name.as_str());
    out.append(XML_PARTY_SIRET);
    push_escaped(out, emitter.siret.as_str());
    out.append(XML_PARTY_ADDRESS);
    push_escaped(out, emitter.address.as_str());
    out.append(XML_SELLER_ADDRESS_END);
    push_optional(out, XML_TAX_REGISTRATION, &emitter.num_tva, XML_TAX_REGISTRATION_END);
}

/// Appends the buyer.
fn push_buyer(out: &mut String, invoice: &InvoiceForm)
    ensures
        final(out)@ == spec_with_buyer(old(out)@, invoice),
{
    out.append(XML_BUYER_NAME);
    push_escaped(out, invoice.recipient_name.as_str());
    out.append(XML_PARTY_SIRET);
    push_escaped(out, invoice.recipient_siret.as_str());
    out.append(XML_PARTY_ADDRESS);
    push_escaped(out, invoice.recipient_address.as_str());
    out.append(XML_BUYER_COUNTRY);
    push_escaped(out, invoice.recipient_country_code.as_str());
    out.append(XML_BUYER_ADDRESS_END);
    push_optional(out, XML_TAX_REGISTRATION, &invoice.recipient_vat_number, XML_TAX_REGISTRATION_END);
    out.append(XML_BUYER_END);
    push_optional(
        out,
        XML_ORDER_REFERENCE,
        &invoice.purchase_order_reference,
        XML_ORDER_REFERENCE_END,
    );
}

/// Appends the currency and the day payment is due.
fn push_terms(out: &mut String, invoice: &InvoiceForm, due_date: &Option<String>)
    requires
        spec_has_due_date(invoice) ==> *due_date is Some && due_date->0@ == spec_compact_date(
            invoice.due_date->0@,
        ),
        !spec_has_due_date(invoice) ==> *due_date is None,
    ensures
        final(out)@ == spec_with_terms(old(out)@, invoice),
{
    out.append(XML_SETTLEMENT);
    push_escaped(out, invoice.currency_code.as_str());
    out.append(XML_CURRENCY_END);
    match due_date {
        Some(date) => {
            out.append(XML_DUE_DATE);
            out.append(date.as_str());
            out.append(XML_DUE_DATE_END);
        },
        None => {},
    }
}

/// Appends the totals and the end of the document.
fn push_summation(out: &mut String, invoice: &InvoiceForm, totals: (i128, i128, i128))
    ensures
        final(out)@ == spec_with_summation(old(out)@, invoice, totals),
{
    out.append(XML_SUMMATION);
    push_rounded(out, totals.0, HT_STEPS_PER_CENT, 2);
    out.append(XML_TAX_BASIS_TOTAL);
    push_rounded(out, totals.0, HT_STEPS_PER_CENT, 2);
    out.append(XML_TAX_TOTAL);
    push_escaped(out, invoice.currency_code.as_str());
    out.append(XML_TAX_TOTAL_VALUE);
    push_rounded(out, totals.1, TAX_STEPS_PER_CENT, 2);
    out.append(XML_GRAND_TOTAL);
    push_rounded(out, totals.2, TAX_STEPS_PER_CENT, 2);
    out.append(XML_DUE_PAYABLE);
    push_rounded(out, totals.2, TAX_STEPS_PER_CENT, 2);
    out.append(XML_CLOSE);
}

/// The XML of the tax of each rate, as it stands in the document.
pub fn generate_vat_breakdown_xml(groups: &Vec<VatGroup>) -> (xml: String)
    ensures
        xml@ == spec_with_trade_taxes(Seq::empty(), groups@),
{
    let mut xml = String::new();
    push_trade_taxes(&mut xml, groups);
    xml
}

/// An error of the XML generator, its text as a sequence of characters.
pub enum XmlErrorView {
    DateFormat(Seq<char>),
    AmountsTooLarge,
}

impl View for XmlError {
    type V = XmlErrorView;

    open spec fn view(&self) -> XmlErrorView {
        match self {
            XmlError::DateFormat(e) => XmlErrorView::DateFormat(e.value@),
            XmlError::AmountsTooLarge => XmlErrorView::AmountsTooLarge,
        }
    }
}

/// What the generator returned, as sequences of characters.
pub open spec fn xml_result_view(r: Result<String, XmlError>) -> Result<Seq<char>, XmlErrorView> {
    match r {
        Ok(xml) => Ok(xml@),
        Err(e) => Err(e@),
    }
}

/// What becomes of an invoice in the XML generator.  A day of issue that
/// is not in the shape `YYYY-MM-DD` is refused, with the text of that
/// day; then a day on which payment is due that is there, not empty and
/// not in that shape, with its text; then amounts that are too large to
/// add up rate by rate.  Any other invoice is rendered.
pub open spec fn spec_xml_outcome(
    invoice: &InvoiceForm,
    emitter: &EmitterConfig,
    totals: (i128, i128, i128),
) -> Result<Seq<char>, XmlErrorView> {
    if !spec_is_date_shape(invoice.issue_date@) {
        Err(XmlErrorView::DateFormat(invoice.issue_date@))
    } else if spec_has_due_date(invoice) && !spec_is_date_shape(invoice.due_date->0@) {
        Err(XmlErrorView::DateFormat(invoice.due_date->0@))
    } else {
        match spec_vat_breakdown(invoice.lines@) {
            Some(groups) => Ok(spec_facturx_xml(invoice, emitter, totals, groups)),
            None => Err(XmlErrorView::AmountsTooLarge),
        }
    }
}

/// `part` stands in `text`, from the place `at` on.
pub open spec fn spec_stands_at(text: Seq<char>, part: Seq<char>, at: int) -> bool {
    0 <= at && at + part.len() <= text.len() && text.subrange(at, at + part.len()) == part
}

/// What begins a text begins every text that the first one begins.
proof fn lemma_prefix_of_prefix(a: Seq<char>, b: Seq<char>, c: Seq<char>)
    requires
        a.is_prefix_of(b),
        b.is_prefix_of(c),
    ensures
        a.is_prefix_of(c),
{
    assert(a =~= c.subrange(0, a.len() as int)) by {
        assert(b =~= c.subrange(0, b.len() as int));
        assert(a =~= b.subrange(0, a.len() as int));
    }
}

/// What stands in the beginning of a text stands in the text.
proof fn lemma_stands_in_longer(head: Seq<char>, text: Seq<char>, part: Seq<char>, at: int)
    requires
        spec_stands_at(head, part, at),
        head.is_prefix_of(text),
    ensures
        spec_stands_at(text, part, at),
{
    assert(head =~= text.subrange(0, head.len() as int));
    assert(text.subrange(at, at + part.len()) =~= head.subrange(at, at + part.len()));
}

/// What begins a text begins the text with more put after it.
proof fn lemma_prefix_step(a: Seq<char>, b: Seq<char>, c: Seq<char>)
    requires
        a.is_prefix_of(b),
    ensures
        a.is_prefix_of(b + c),
{
    assert(b.is_prefix_of(b + c)) by {
        assert(b =~= (b + c).subrange(0, b.len() as int));
    }
    lemma_prefix_of_prefix(a, b, b + c);
}

/// An optional block is put after what stood before it.
proof fn lemma_optional_follows(
    a: Seq<char>,
    prefix: Seq<char>,
    open: Seq<char>,
    field: Option<String>,
    close: Seq<char>,
)
    requires
        a.is_prefix_of(prefix),
    ensures
        a.is_prefix_of(spec_with_optional(prefix, open, field, close)),
{
    if field is Some && field->0@.len() > 0 {
        lemma_prefix_step(a, prefix, open);
        lemma_prefix_step(a, prefix + open, spec_escape_xml(field->0@));
        lemma_prefix_step(a, prefix + open + spec_escape_xml(field->0@), close);
    }
}

/// The buyer begins with the name between its tags.
proof fn lemma_buyer_begins_with_name(a: Seq<char>, prefix: Seq<char>, invoice: &InvoiceForm)
    requires
        a.is_prefix_of(
            prefix + XML_BUYER_NAME@ + spec_escape_xml(invoice.recipient_name@) + XML_PARTY_SIRET@,
        ),
    ensures
        a.is_prefix_of(spec_with_buyer(prefix, invoice)),
{
    let t1 = prefix + XML_BUYER_NAME@ + spec_escape_xml(invoice.recipient_name@) + XML_PARTY_SIRET@;
    let t2 = t1 + spec_escape_xml(invoice.recipient_siret@);
    lemma_prefix_step(a, t1, spec_escape_xml(invoice.recipient_siret@));
    let t3 = t2 + XML_PARTY_ADDRESS@;
    lemma_prefix_step(a, t2, XML_PARTY_ADDRESS@);
    let t4 = t3 + spec_escape_xml(invoice.recipient_address@);
    lemma_prefix_step(a, t3, spec_escape_xml(invoice.recipient_address@));
    let t5 = t4 + XML_BUYER_COUNTRY@;
    lemma_prefix_step(a, t4, XML_BUYER_COUNTRY@);
    let t6 = t5 + spec_escape_xml(invoice.recipient_country_code@);
    lemma_prefix_step(a, t5, spec_escape_xml(invoice.recipient_country_code@));
    let t7 = t6 + XML_BUYER_ADDRESS_END@;
    lemma_prefix_step(a, t6, XML_BUYER_ADDRESS_END@);
    let t8 = spec_with_optional(
        t7,
        XML_TAX_REGISTRATION@,
        invoice.recipient_vat_number,
        XML_TAX_REGISTRATION_END@,
    );
    lemma_optional_follows(
        a,
        t7,
        XML_TAX_REGISTRATION@,
        invoice.recipient_vat_number,
        XML_TAX_REGISTRATION_END@,
    );
    lemma_prefix_step(a, t8, XML_BUYER_END@);
    lemma_optional_follows(
        a,
        t8 + XML_BUYER_END@,
        XML_ORDER_REFERENCE@,
        invoice.purchase_order_reference,
        XML_ORDER_REFERENCE_END@,
    );
}

/// The terms are put after what stood before them.
proof fn lemma_terms_follow(a: Seq<char>, prefix: Seq<char>, invoice: &InvoiceForm)
    requires
        a.is_prefix_of(prefix),
    ensures
        a.is_prefix_of(spec_with_terms(prefix, invoice)),
{
    let t1 = prefix + XML_SETTLEMENT@;
    lemma_prefix_step(a, prefix, XML_SETTLEMENT@);
    let t2 = t1 + spec_escape_xml(invoice.currency_code@);
    lemma_prefix_step(a, t1, spec_escape_xml(invoice.currency_code@));
    let t3 = t2 + XML_CURRENCY_END@;
    lemma_prefix_step(a, t2, XML_CURRENCY_END@);
    if spec_has_due_date(invoice) {
        lemma_prefix_step(a, t3, XML_DUE_DATE@);
        lemma_prefix_step(a, t3 + XML_DUE_DATE@, spec_compact_date(invoice.due_date->0@));
        lemma_prefix_step(
            a,
            t3 + XML_DUE_DATE@ + spec_compact_date(invoice.due_date->0@),
            XML_DUE_DATE_END@,
        );
    }
}

/// The block of one rate is put after what stood before it.
proof fn lemma_trade_tax_follows(a: Seq<char>, prefix: Seq<char>, group: VatGroup)
    requires
        a.is_prefix_of(prefix),
    ensures
        a.is_prefix_of(spec_with_trade_tax(prefix, group)),
{
    let vat = spec_format_rounded(group.vat_amount as int, TAX_STEPS_PER_CENT as nat, 2);
    let base = spec_format_rounded(group.base_ht as int, HT_STEPS_PER_CENT as nat, 2);
    let rate = spec_format_rounded(group.rate as int, 1, 2);
    let t1 = prefix + XML_TRADE_TAX_AMOUNT@;
    lemma_prefix_step(a, prefix, XML_TRADE_TAX_AMOUNT@);
    let t2 = t1 + vat;
    lemma_prefix_step(a, t1, vat);
    let t3 = t2 + XML_TRADE_TAX_BASIS@;
    lemma_prefix_step(a, t2, XML_TRADE_TAX_BASIS@);
    let t4 = t3 + base;
    lemma_prefix_step(a, t3, base);
    let t5 = t4 + XML_TRADE_TAX_RATE@;
    lemma_prefix_step(a, t4, XML_TRADE_TAX_RATE@);
    let t6 = t5 + rate;
    lemma_prefix_step(a, t5, rate);
    lemma_prefix_step(a, t6, XML_TRADE_TAX_END@);
}

/// The blocks of the rates are put after what stood before them.
proof fn lemma_trade_taxes_follow(a: Seq<char>, prefix: Seq<char>, groups: Seq<VatGroup>)
    requires
        a.is_prefix_of(prefix),
    ensures
        a.is_prefix_of(spec_with_trade_taxes(prefix, groups)),
    decreases groups.len(),
{
    if groups.len() > 0 {
        lemma_trade_taxes_follow(a, prefix, groups.drop_last());
        lemma_trade_tax_follows(
            a,
            spec_with_trade_taxes(prefix, groups.drop_last()),
            groups.last(),
        );
    }
}

/// The totals are put after what stood before them.
proof fn lemma_summation_follows(
    a: Seq<char>,
    prefix: Seq<char>,
    invoice: &InvoiceForm,
    totals: (i128, i128, i128),
)
    requires
        a.is_prefix_of(prefix),
    ensures
        a.is_prefix_of(spec_with_summation(prefix, invoice, totals)),
{
    let ht = spec_format_rounded(totals.0 as int, HT_STEPS_PER_CENT as nat, 2);
    let vat = spec_format_rounded(totals.1 as int, TAX_STEPS_PER_CENT as nat, 2);
    let ttc = spec_format_rounded(totals.2 as int, TAX_STEPS_PER_CENT as nat, 2);
    let t1 = prefix + XML_SUMMATION@;
    lemma_prefix_step(a, prefix, XML_SUMMATION@);
    let t2 = t1 + ht;
    lemma_prefix_step(a, t1, ht);
    let t3 = t2 + XML_TAX_BASIS_TOTAL@;
    lemma_prefix_step(a, t2, XML_TAX_BASIS_TOTAL@);
    let t4 = t3 + ht;
    lemma_prefix_step(a, t3, ht);
    let t5 = t4 + XML_TAX_TOTAL@;
    lemma_prefix_step(a, t4, XML_TAX_TOTAL@);
    let t6 = t5 + spec_escape_xml(invoice.currency_code@);
    lemma_prefix_step(a, t5, spec_escape_xml(invoice.currency_code@));
    let t7 = t6 + XML_TAX_TOTAL_VALUE@;
    lemma_prefix_step(a, t6, XML_TAX_TOTAL_VALUE@);
    let t8 = t7 + vat;
    lemma_prefix_step(a, t7, vat);
    let t9 = t8 + XML_GRAND_TOTAL@;
    lemma_prefix_step(a, t8, XML_GRAND_TOTAL@);
    let t10 = t9 + ttc;
    lemma_prefix_step(a, t9, ttc);
    let t11 = t10 + XML_DUE_PAYABLE@;
    lemma_prefix_step(a, t10, XML_DUE_PAYABLE@);
    let t12 = t11 + ttc;
    lemma_prefix_step(a, t11, ttc);
    lemma_prefix_step(a, t12, XML_CLOSE@);
}

/// In the XML of an invoice the name of the recipient stands escaped
/// between the tags of the buyer's name, whatever the name holds; and
/// nothing of the escaped name is one of `<`, `>`, `"` and `'`.
pub proof fn lemma_xml_holds_escaped_recipient_name(
    invoice: &InvoiceForm,
    emitter: &EmitterConfig,
    totals: (i128, i128, i128),
    groups: Seq<VatGroup>,
)
    ensures
        exists|at: int| #[trigger]
            spec_stands_at(
                spec_facturx_xml(invoice, emitter, totals, groups),
                XML_BUYER_NAME@ + spec_escape_xml(invoice.recipient_name@) + XML_PARTY_SIRET@,
                at,
            ),
        forall|i: int|
            0 <= i < spec_escape_xml(invoice.recipient_name@).len() ==> {
                let c = #[trigger] spec_escape_xml(invoice.recipient_name@)[i];
                c != '<' && c != '>' && c != '"' && c != '\''
            },
{
    let seller = spec_with_seller(spec_xml_document(invoice), emitter);
    let part = XML_BUYER_NAME@ + spec_escape_xml(invoice.recipient_name@) + XML_PARTY_SIRET@;
    let named = seller + XML_BUYER_NAME@ + spec_escape_xml(invoice.recipient_name@)
        + XML_PARTY_SIRET@;
    let at = seller.len() as int;
    assert(spec_stands_at(named, part, at)) by {
        assert(named.subrange(at, at + part.len()) =~= part);
    }
    assert(named.is_prefix_of(named)) by {
        assert(named =~= named.subrange(0, named.len() as int));
    }
    let buyer = spec_with_buyer(seller, invoice);
    lemma_buyer_begins_with_name(named, seller, invoice);
    let terms = spec_with_terms(buyer, invoice);
    lemma_terms_follow(named, buyer, invoice);
    let taxes = spec_with_trade_taxes(terms, groups);
    lemma_trade_taxes_follow(named, terms, groups);
    let xml = spec_with_summation(taxes, invoice, totals);
    lemma_summation_follows(named, taxes, invoice, totals);
    lemma_stands_in_longer(named, xml, part, at);
    assert(xml == spec_facturx_xml(invoice, emitter, totals, groups));
    assert(spec_stands_at(spec_facturx_xml(invoice, emitter, totals, groups), part, at));
    assert forall|i: int| 0 <= i < spec_escape_xml(invoice.recipient_name@).len() implies {
        let c = #[trigger] spec_escape_xml(invoice.recipient_name@)[i];
        c != '<' && c != '>' && c != '"' && c != '\''
    } by {
        lemma_escape_xml_clean(invoice.recipient_name@, i);
    }
}

/// Two invoices that differ only in lines that are not valid give the same
/// XML, or the same refusal.
pub proof fn lemma_xml_skips_invalid_lines(
    first: &InvoiceForm,
    second: &InvoiceForm,
    emitter: &EmitterConfig,
    totals: (i128, i128, i128),
)
    requires
        *first == (InvoiceForm { lines: first.lines, ..*second }),
        first.lines@.filter(|l: InvoiceLine| l.spec_is_valid()) == second.lines@.filter(
            |l: InvoiceLine| l.spec_is_valid(),
        ),
    ensures
        spec_xml_outcome(first, emitter, totals) == spec_xml_outcome(second, emitter, totals),
{
    lemma_breakdown_skips_invalid_lines(first.lines@);
    lemma_breakdown_skips_invalid_lines(second.lines@);
}

/// The same invoice, issuer and totals give the same XML, or the same
/// refusal, every time.
pub proof fn lemma_xml_is_determined(
    invoice: &InvoiceForm,
    emitter: &EmitterConfig,
    totals: (i128, i128, i128),
    first: Result<String, XmlError>,
    second: Result<String, XmlError>,
)
    requires
        xml_result_view(first) == spec_xml_outcome(invoice, emitter, totals),
        xml_result_view(second) == spec_xml_outcome(invoice, emitter, totals),
    ensures
        xml_result_view(first) == xml_result_view(second),
        first is Ok ==> second is Ok && first->Ok_0@ == second->Ok_0@,
{
}

/// Renders `invoice` as Cross Industry Invoice XML in the MINIMUM profile.
/// `totals` are the totals without tax, of tax and with tax, as
/// `InvoiceForm::compute_totals` returns them.
pub fn generate_facturx_xml(
    invoice: &InvoiceForm,
    emitter: &EmitterConfig,
    totals: (i128, i128, i128),
) -> (r: Result<String, XmlError>)
    ensures
        xml_result_view(r) == spec_xml_outcome(invoice, emitter, totals),
{
    let issue_date = match format_date_for_facturx(invoice.issue_date.as_str()) {
        Ok(date) => date,
        Err(e) => {
            return Err(XmlError::DateFormat(e));
        },
    };
    let due_date: Option<String> = match &invoice.due_date {
        Some(date) => {
            if date.as_str().unicode_len() > 0 {
                match format_date_for_facturx(date.as_str()) {
                    Ok(compact) => Some(compact),
                    Err(e) => {
                        return Err(XmlError::DateFormat(e));
                    },
                }
            } else {
                None
            }
        },
        None => None,
    };
    let groups = match calculate_vat_breakdown(invoice) {
        Some(groups) => groups,
        None => {
            return Err(XmlError::AmountsTooLarge);
        },
    };
    let mut xml = xml_document(invoice, issue_date.as_str());
    push_seller(&mut xml, emitter);
    push_buyer(&mut xml, invoice);
    push_terms(&mut xml, invoice, &due_date);
    push_trade_taxes(&mut xml, &groups);
    push_summation(&mut xml, invoice, totals);
    Ok(xml)
}

} // verus!
