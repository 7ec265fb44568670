//! One billable line and the tax calculation on it.
//!
//! Quantities, prices and rates are whole numbers of hundredths, so that a
//! line's totals are exact: nothing is rounded before an amount is printed.
//! What is entered with more than two decimals has to be brought to
//! hundredths by whoever fills the line; the line itself does not round.
//!
//! | field                         | one step is                         |
//! |-------------------------------|-------------------------------------|
//! | `quantity`                    | 0.01 of a unit                      |
//! | `unit_price_ht`               | 0.01 of the currency unit           |
//! | `vat_rate`                    | 0.01 of a percent                   |
//! | `discount_value`              | 0.01 of a percent, or of the currency unit |
//! | `discount_amount`, `total_ht` | 10^-8 of the currency unit          |
//! | `total_vat`, `total_ttc`      | 10^-12 of the currency unit         |

use vstd::prelude::*;
use vstd::string::StringSliceAdditionalSpecFns;
use crate::decimal::{push_plain, spec_plain};
use crate::text::str_equals;
use crate::models::error::{LineValidationResult, errors_view, push_if, spec_line_field};

verus! {

/// Steps of `total_vat` and `total_ttc` in one step of `total_ht`; also the
/// value of `vat_rate` that means 100 %.
pub const TAX_STEPS: i128 = 10_000;

/// Largest magnitude of a stored `discount_amount` that the calculator works on (2^93).
pub const DISCOUNT_LIMIT: i128 = 0x2000_0000_0000_0000_0000_0000;

/// Largest magnitude of a stored `total_ht` that the calculator works on (2^94).
pub const HT_LIMIT: i128 = 0x4000_0000_0000_0000_0000_0000;

pub const MSG_LINE_DESCRIPTION: &'static str = "La description est obligatoire";

pub const MSG_LINE_QUANTITY: &'static str = "La quantité doit être supérieure à 0";

pub const MSG_LINE_UNIT_PRICE: &'static str = "Le prix unitaire HT doit être supérieur à 0";

pub const MSG_LINE_VAT_NEGATIVE: &'static str = "Le taux de TVA ne peut pas être négatif";

pub const MSG_LINE_VAT_TOO_HIGH: &'static str = "Le taux de TVA ne peut pas dépasser 100%";

/// How a discount value is read.
#[derive(Debug, Clone, Copy, PartialEq, Eq, Structural)]
pub enum DiscountType {
    /// A percentage of the gross amount of the line.
    Percent,
    /// An amount in the invoice's currency.
    Amount,
}

impl DiscountType {
    /// The kind of discount that `code` names, if it names one.
    pub open spec fn spec_from_code(code: Seq<char>) -> Option<DiscountType> {
        if code == "percent"@ {
            Some(DiscountType::Percent)
        } else if code == "amount"@ {
            Some(DiscountType::Amount)
        } else {
            None
        }
    }

    /// The kind of discount that `code` names: `percent` or `amount`.
    pub fn from_code(code: &str) -> (r: Option<DiscountType>)
        ensures
            r == Self::spec_from_code(code@),
    {
        if str_equals(code, "percent") {
            Some(DiscountType::Percent)
        } else if str_equals(code, "amount") {
            Some(DiscountType::Amount)
        } else {
            None
        }
    }
}

impl Default for DiscountType {
    fn default() -> (r: Self)
        ensures
            r == DiscountType::Percent,
    {
        DiscountType::Percent
    }
}

/// One billable line.  What the calculator computes is absent until it
/// has computed it.
#[derive(Debug, Clone)]
pub struct InvoiceLine {
    pub description: String,
    pub quantity: i32,
    pub unit_price_ht: i32,
    pub vat_rate: i32,
    /// The discount, if any; read as `discount_type` says.
    pub discount_value: Option<i32>,
    /// `None` stands for `Percent`.
    pub discount_type: Option<DiscountType>,
    pub total_ht: Option<i128>,
    pub total_ttc: Option<i128>,
    pub total_vat: Option<i128>,
    pub discount_amount: Option<i128>,
}

/// The larger of zero and `v`.
pub open spec fn spec_floor_zero(v: int) -> int {
    if v < 0 {
        0
    } else {
        v
    }
}

/// The stored amount, or zero where none is stored.
pub open spec fn spec_stored(amount: Option<i128>) -> int {
    match amount {
        Some(v) => v as int,
        None => 0,
    }
}

/// The product of two numbers is no larger in magnitude than the product
/// of their bounds.
proof fn lemma_product_bound(a: int, b: int, x: int, y: int)
    requires
        -x <= a <= x,
        -y <= b <= y,
    ensures
        -(x * y) <= a * b <= x * y,
{
    assert(-(x * y) <= a * b <= x * y) by (nonlinear_arith)
        requires
            -x <= a <= x,
            -y <= b <= y,
    ;
}

impl InvoiceLine {
    /// Quantity times unit price, in steps of `total_ht`.
    pub open spec fn spec_gross(&self) -> int {
        self.quantity * self.unit_price_ht * TAX_STEPS
    }

    /// The discount that the line's inputs give, in steps of `total_ht`:
    /// nothing without a discount value above zero, else that percentage of
    /// the gross amount, or the value itself where it is an amount.
    pub open spec fn spec_discount(&self) -> int {
        match self.discount_value {
            Some(d) => if d <= 0 {
                0
            } else if self.discount_type == Some(DiscountType::Amount) {
                d * 1_000_000
            } else {
                self.quantity * self.unit_price_ht * d
            },
            None => 0,
        }
    }

    /// Gross amount less discount, never below zero.
    pub open spec fn spec_total_ht(&self) -> int {
        spec_floor_zero(self.spec_gross() - self.spec_discount())
    }

    /// The tax on `spec_total_ht`, in steps of `total_vat`.
    pub open spec fn spec_total_vat(&self) -> int {
        self.spec_total_ht() * self.vat_rate
    }

    /// `spec_total_ht` with its tax, in steps of `total_ttc`.
    pub open spec fn spec_total_ttc(&self) -> int {
        self.spec_total_ht() * (TAX_STEPS + self.vat_rate)
    }

    /// The line with the four computed fields filled from its inputs.
    pub open spec fn spec_computed(&self) -> InvoiceLine {
        InvoiceLine {
            discount_amount: Some(self.spec_discount() as i128),
            total_ht: Some(self.spec_total_ht() as i128),
            total_vat: Some(self.spec_total_vat() as i128),
            total_ttc: Some(self.spec_total_ttc() as i128),
            ..*self
        }
    }

    /// A line counts towards the totals and is rendered: its description is
    /// not empty, quantity and unit price are above zero, the rate is not
    /// below zero.
    pub open spec fn spec_is_valid(&self) -> bool {
        &&& self.description@.len() > 0
        &&& self.quantity > 0
        &&& self.unit_price_ht > 0
        &&& self.vat_rate >= 0
    }

    /// The stored discount is one the calculator can subtract.
    pub open spec fn discount_in_range(&self) -> bool {
        -DISCOUNT_LIMIT <= spec_stored(self.discount_amount) <= DISCOUNT_LIMIT
    }

    /// The stored total is one the calculator can put tax on.
    pub open spec fn total_ht_in_range(&self) -> bool {
        -HT_LIMIT <= spec_stored(self.total_ht) <= HT_LIMIT
    }

    /// What the inputs give is within the ranges of the stored amounts.
    pub proof fn lemma_ranges(&self)
        ensures
            -DISCOUNT_LIMIT <= self.spec_discount() <= DISCOUNT_LIMIT,
            -0x1_0000_0000_0000_0000_000 <= self.spec_gross() <= 0x1_0000_0000_0000_0000_000,
            0 <= self.spec_total_ht() <= HT_LIMIT,
            -0x2000_0000_0000_0000_0000_0000_0000_0000 <= self.spec_total_vat()
                <= 0x2000_0000_0000_0000_0000_0000_0000_0000,
            -0x4000_0000_0000_0000_0000_0000_0000_0000 <= self.spec_total_ttc()
                <= 0x4000_0000_0000_0000_0000_0000_0000_0000,
    {
        let q = self.quantity as int;
        let p = self.unit_price_ht as int;
        let r = self.vat_rate as int;
        lemma_product_bound(q, p, 0x8000_0000, 0x8000_0000);
        lemma_product_bound(q * p, TAX_STEPS as int, 0x4000_0000_0000_0000int, 10_000);
        match self.discount_value {
            Some(d) => {
                lemma_product_bound(q * p, d as int, 0x4000_0000_0000_0000int, 0x8000_0000);
            },
            None => {},
        }
        let h = self.spec_total_ht();
        lemma_product_bound(h, r, HT_LIMIT as int, 0x8000_0000);
        lemma_product_bound(h, TAX_STEPS + r, HT_LIMIT as int, 0x8000_2710int);
    }

    /// Sets `discount_amount` from the discount value and type.
    pub fn compute_discount(&mut self)
        ensures
            *final(self) == (InvoiceLine {
                discount_amount: Some(old(self).spec_discount() as i128),
                ..*old(self)
            }),
            final(self).discount_in_range(),
            final(self).discount_amount == Some(old(self).spec_discount() as i128),
            old(self).spec_discount() as i128 == old(self).spec_discount(),
    {
        proof {
            self.lemma_ranges();
            lemma_product_bound(
                self.quantity as int,
                self.unit_price_ht as int,
                0x8000_0000,
                0x8000_0000,
            );
        }
        let amount: i128 = match self.discount_value {
            Some(d) => {
                if d <= 0 {
                    0
                } else {
                    match self.discount_type {
                        Some(DiscountType::Amount) => (d as i128) * 1_000_000,
                        _ => {
                            let gross: i128 = (self.quantity as i128) * (self.unit_price_ht as i128);
                            gross * (d as i128)
                        },
                    }
                }
            },
            None => 0,
        };
        self.discount_amount = Some(amount);
    }

    /// Sets `total_ht` to the gross amount less the stored discount (zero
    /// where none is stored), and to zero where that is below zero.
    pub fn compute_total_ht(&mut self)
        requires
            old(self).discount_in_range(),
        ensures
            *final(self) == (InvoiceLine {
                total_ht: Some(
                    spec_floor_zero(
                        old(self).spec_gross() - spec_stored(old(self).discount_amount),
                    ) as i128,
                ),
                ..*old(self)
            }),
            final(self).total_ht_in_range(),
            spec_stored(final(self).total_ht) == spec_floor_zero(
                old(self).spec_gross() - spec_stored(old(self).discount_amount),
            ),
    {
        proof {
            self.lemma_ranges();
            lemma_product_bound(
                self.quantity as int,
                self.unit_price_ht as int,
                0x8000_0000,
                0x8000_0000,
            );
        }
        let gross: i128 = (self.quantity as i128) * (self.unit_price_ht as i128) * TAX_STEPS;
        let discount: i128 = match self.discount_amount {
            Some(d) => d,
            None => 0,
        };
        let net: i128 = gross - discount;
        self.total_ht = Some(if net < 0 { 0 } else { net });
    }

    /// Sets `total_vat` to the stored `total_ht` times the rate; to nothing
    /// where no `total_ht` is stored.
    pub fn compute_total_vat(&mut self)
        requires
            old(self).total_ht_in_range(),
        ensures
            *final(self) == (InvoiceLine {
                total_vat: match old(self).total_ht {
                    Some(ht) => Some((ht * old(self).vat_rate) as i128),
                    None => None,
                },
                ..*old(self)
            }),
            old(self).total_ht is Some ==> spec_stored(final(self).total_vat) == spec_stored(
                old(self).total_ht,
            ) * old(self).vat_rate,
    {
        match self.total_ht {
            Some(ht) => {
                proof {
                    lemma_product_bound(
                        ht as int,
                        self.vat_rate as int,
                        HT_LIMIT as int,
                        0x8000_0000,
                    );
                }
                self.total_vat = Some(ht * (self.vat_rate as i128));
            },
            None => {
                self.total_vat = None;
            },
        }
    }

    /// Sets `total_ttc` to the stored `total_ht` with its tax; to nothing
    /// where no `total_ht` is stored.
    pub fn compute_total_ttc(&mut self)
        requires
            old(self).total_ht_in_range(),
        ensures
            *final(self) == (InvoiceLine {
                total_ttc: match old(self).total_ht {
                    Some(ht) => Some((ht * (TAX_STEPS + old(self).vat_rate)) as i128),
                    None => None,
                },
                ..*old(self)
            }),
            old(self).total_ht is Some ==> spec_stored(final(self).total_ttc) == spec_stored(
                old(self).total_ht,
            ) * (TAX_STEPS + old(self).vat_rate),
    {
        match self.total_ht {
            Some(ht) => {
                proof {
                    lemma_product_bound(
                        ht as int,
                        TAX_STEPS + self.vat_rate,
                        HT_LIMIT as int,
                        0x8000_2710int,
                    );
                }
                self.total_ttc = Some(ht * (TAX_STEPS + (self.vat_rate as i128)));
            },
            None => {
                self.total_ttc = None;
            },
        }
    }

    /// Computes the discount and the three totals from the line's inputs.
    pub fn compute_totals(&mut self)
        ensures
            *final(self) == old(self).spec_computed(),
            spec_stored(final(self).discount_amount) == old(self).spec_discount(),
            spec_stored(final(self).total_ht) == old(self).spec_total_ht(),
            spec_stored(final(self).total_vat) == old(self).spec_total_vat(),
            spec_stored(final(self).total_ttc) == old(self).spec_total_ttc(),
    {
        proof {
            self.lemma_ranges();
        }
        self.compute_discount();
        self.compute_total_ht();
        self.compute_total_vat();
        self.compute_total_ttc();
    }

    /// The stored total without tax, or zero.
    pub fn total_ht_value(&self) -> (v: i128)
        ensures
            v == spec_stored(self.total_ht),
    {
        match self.total_ht {
            Some(v) => v,
            None => 0,
        }
    }

    /// The stored tax, or zero.
    pub fn total_vat_value(&self) -> (v: i128)
        ensures
            v == spec_stored(self.total_vat),
    {
        match self.total_vat {
            Some(v) => v,
            None => 0,
        }
    }

    /// The stored total with tax, or zero.
    pub fn total_ttc_value(&self) -> (v: i128)
        ensures
            v == spec_stored(self.total_ttc),
    {
        match self.total_ttc {
            Some(v) => v,
            None => 0,
        }
    }

    /// Whether the line counts towards the totals and is rendered.
    pub fn is_valid(&self) -> (r: bool)
        ensures
            r == self.spec_is_valid(),
    {
        self.description.as_str().unicode_len() > 0 && self.quantity > 0 && self.unit_price_ht > 0
            && self.vat_rate >= 0
    }

    /// The errors of the line at `index`, each under the name of its field:
    /// an empty description, a quantity or a unit price that is not above
    /// zero, a rate below zero, a rate above 100 %.
    pub open spec fn spec_validate(&self, index: nat) -> Seq<(Seq<char>, Seq<char>)> {
        let e0 = Seq::<(Seq<char>, Seq<char>)>::empty();
        let e1 = push_if(
            e0,
            self.description@.len() == 0,
            (spec_line_field(index, "description"@), MSG_LINE_DESCRIPTION@),
        );
        let e2 = push_if(
            e1,
            self.quantity <= 0,
            (spec_line_field(index, "quantity"@), MSG_LINE_QUANTITY@),
        );
        let e3 = push_if(
            e2,
            self.unit_price_ht <= 0,
            (spec_line_field(index, "unit_price_ht"@), MSG_LINE_UNIT_PRICE@),
        );
        let e4 = push_if(
            e3,
            self.vat_rate < 0,
            (spec_line_field(index, "vat_rate"@), MSG_LINE_VAT_NEGATIVE@),
        );
        push_if(
            e4,
            self.vat_rate > TAX_STEPS,
            (spec_line_field(index, "vat_rate"@), MSG_LINE_VAT_TOO_HIGH@),
        )
    }

    /// Checks the line field by field and reports every rule it breaks.
    pub fn validate(&self, line_index: usize) -> (result: LineValidationResult)
        ensures
            result.line_index == line_index,
            errors_view(result.errors@) == self.spec_validate(line_index as nat),
    {
        let mut result = LineValidationResult::new(line_index);
        assert(errors_view(result.errors@) =~= Seq::<(Seq<char>, Seq<char>)>::empty());
        if self.description.as_str().unicode_len() == 0 {
            result.add_error("description", MSG_LINE_DESCRIPTION);
        }
        if self.quantity <= 0 {
            result.add_error("quantity", MSG_LINE_QUANTITY);
        }
        if self.unit_price_ht <= 0 {
            result.add_error("unit_price_ht", MSG_LINE_UNIT_PRICE);
        }
        if self.vat_rate < 0 {
            result.add_error("vat_rate", MSG_LINE_VAT_NEGATIVE);
        }
        if self.vat_rate as i128 > TAX_STEPS {
            result.add_error("vat_rate", MSG_LINE_VAT_TOO_HIGH);
        }
        result
    }
}

impl Default for InvoiceLine {
    /// One unit at no price, taxed at 20 %, nothing computed.
    fn default() -> (line: Self)
        ensures
            line.description@.len() == 0,
            line.quantity == 100,
            line.unit_price_ht == 0,
            line.vat_rate == 2000,
            line.discount_value is None,
            line.discount_type is None,
            line.total_ht is None,
            line.total_vat is None,
            line.total_ttc is None,
            line.discount_amount is None,
    {
        InvoiceLine {
            description: String::new(),
            quantity: 100,
            unit_price_ht: 0,
            vat_rate: 2000,
            discount_value: None,
            discount_type: None,
            total_ht: None,
            total_vat: None,
            total_ttc: None,
            discount_amount: None,
        }
    }
}

/// The totals of a line hang together: the total without tax is the gross
/// amount less the discount, or zero where that is below zero; the tax is
/// that total times the rate; and the total with tax is the two together,
/// each counted in the steps of its field.
pub proof fn lemma_line_totals(line: InvoiceLine)
    ensures
        line.spec_total_ht() == spec_floor_zero(
            line.quantity * line.unit_price_ht * TAX_STEPS - line.spec_discount(),
        ),
        line.spec_total_ht() >= 0,
        line.spec_total_vat() == line.spec_total_ht() * line.vat_rate,
        line.spec_total_ttc() == line.spec_total_ht() * TAX_STEPS + line.spec_total_vat(),
        line.spec_computed().total_ht == Some(line.spec_total_ht() as i128),
        line.spec_total_ht() as i128 == line.spec_total_ht(),
        line.spec_total_vat() as i128 == line.spec_total_vat(),
        line.spec_total_ttc() as i128 == line.spec_total_ttc(),
{
    line.lemma_ranges();
    let h = line.spec_total_ht();
    let r = line.vat_rate as int;
    assert(h * (10_000 + r) == h * 10_000 + h * r) by (nonlinear_arith);
}

/// A line whose quantity is zero is not valid, whatever else it holds; a
/// rate of zero does not make a line invalid, and such a line bears no tax.
pub proof fn lemma_line_boundaries(line: InvoiceLine)
    ensures
        line.quantity == 0 ==> !line.spec_is_valid(),
        line.vat_rate == 0 ==> line.spec_total_vat() == 0,
        line.vat_rate == 0 ==> line.spec_is_valid() == (line.description@.len() > 0
            && line.quantity > 0 && line.unit_price_ht > 0),
{
}

impl InvoiceLine {
    /// The line in a few words: quantity, unit price, rate and the stored
    /// total with tax, each written in full.
    pub open spec fn spec_summary(&self) -> Seq<char> {
        spec_plain(self.quantity as int, 2) + " × "@ + spec_plain(self.unit_price_ht as int, 2)
            + "€ HT @"@ + spec_plain(self.vat_rate as int, 2) + "% = "@ + spec_plain(
            spec_stored(self.total_ttc),
            12,
        ) + "€ TTC"@
    }

    /// The line in a few words.
    pub fn summary(&self) -> (text: String)
        ensures
            text@ == self.spec_summary(),
    {
        let mut text = String::new();
        push_plain(&mut text, self.quantity as i128, 2);
        assert(text@ =~= spec_plain(self.quantity as int, 2));
        text.append(" × ");
        push_plain(&mut text, self.unit_price_ht as i128, 2);
        text.append("€ HT @");
        push_plain(&mut text, self.vat_rate as i128, 2);
        text.append("% = ");
        push_plain(&mut text, self.total_ttc_value(), 12);
        text.append("€ TTC");
        text
    }

    /// A line as it is entered: what is missing of quantity and unit
    /// price counts as zero, a missing rate as 20 %; a discount is kept only
    /// where it is above zero; nothing is computed yet.
    pub fn from_parts(
        description: String,
        quantity: Option<i32>,
        unit_price_ht: Option<i32>,
        vat_rate: Option<i32>,
        discount_value: Option<i32>,
        discount_type: Option<DiscountType>,
    ) -> (line: InvoiceLine)
        ensures
            line.description == description,
            line.quantity == (match quantity {
                Some(q) => q,
                None => 0,
            }),
            line.unit_price_ht == (match unit_price_ht {
                Some(p) => p,
                None => 0,
            }),
            line.vat_rate == (match vat_rate {
                Some(r) => r,
                None => 2000,
            }),
            line.discount_value == (match discount_value {
                Some(d) => if d > 0 {
                    Some(d)
                } else {
                    None
                },
                None => None,
            }),
            line.discount_type == discount_type,
            line.total_ht is None,
            line.total_vat is None,
            line.total_ttc is None,
            line.discount_amount is None,
    {
        InvoiceLine {
            description,
            quantity: match quantity {
                Some(q) => q,
                None => 0,
            },
            unit_price_ht: match unit_price_ht {
                Some(p) => p,
                None => 0,
            },
            vat_rate: match vat_rate {
                Some(r) => r,
                None => 2000,
            },
            discount_value: match discount_value {
                Some(d) => if d > 0 {
                    Some(d)
                } else {
                    None
                },
                None => None,
            },
            discount_type,
            total_ht: None,
            total_ttc: None,
            total_vat: None,
            discount_amount: None,
        }
    }
}

} // verus!
