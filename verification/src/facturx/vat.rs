//! The tax of an invoice, rate by rate.

use vstd::prelude::*;
use crate::models::invoice::{
    InvoiceForm,
    lemma_sums_ordered,
    lemma_valid_line_totals,
    spec_computed_lines,
    spec_sum_ht,
    spec_sum_ttc,
    spec_sum_vat,
};
use crate::models::line::{InvoiceLine, spec_stored};

verus! {

/// What the valid lines taxed at one rate come to.  `rate` counts
/// hundredths of a percent, `base_ht` steps of 10^-8 of the currency unit,
/// `vat_amount` steps of 10^-12.
#[derive(Debug, Clone, Copy, PartialEq, Eq, Structural)]
pub struct VatGroup {
    pub rate: i32,
    pub base_ht: i128,
    pub vat_amount: i128,
}

/// Where in `groups` the first group of `rate` stands, if there is one.
pub open spec fn spec_find_rate(groups: Seq<VatGroup>, rate: i32) -> Option<int>
    decreases groups.len(),
{
    if groups.len() == 0 {
        None
    } else {
        match spec_find_rate(groups.drop_last(), rate) {
            Some(i) => Some(i),
            None => if groups.last().rate == rate {
                Some(groups.len() - 1)
            } else {
                None
            },
        }
    }
}

/// `groups` with one more line taken in: its amounts are added to the group
/// of its rate, or make a new group at the end where the rate is new.
/// Nothing where a sum would be too large a number.
pub open spec fn spec_add_line(groups: Seq<VatGroup>, rate: i32, base_ht: i128, vat_amount: i128)
    -> Option<Seq<VatGroup>> {
    match spec_find_rate(groups, rate) {
        Some(i) => {
            let base = groups[i].base_ht + base_ht;
            let vat = groups[i].vat_amount + vat_amount;
            if i128::MIN <= base <= i128::MAX && i128::MIN <= vat <= i128::MAX {
                Some(
                    groups.update(
                        i,
                        VatGroup { rate, base_ht: base as i128, vat_amount: vat as i128 },
                    ),
                )
            } else {
                None
            }
        },
        None => Some(groups.push(VatGroup { rate, base_ht, vat_amount })),
    }
}

/// The stored totals of the valid lines, summed rate by rate, the rates in
/// the order in which the lines first show them.  Nothing where a sum would
/// be too large a number.
pub open spec fn spec_vat_breakdown(lines: Seq<InvoiceLine>) -> Option<Seq<VatGroup>>
    decreases lines.len(),
{
    if lines.len() == 0 {
        Some(Seq::empty())
    } else {
        match spec_vat_breakdown(lines.drop_last()) {
            Some(groups) => {
                let line = lines.last();
                if line.spec_is_valid() {
                    spec_add_line(
                        groups,
                        line.vat_rate,
                        spec_stored(line.total_ht) as i128,
                        spec_stored(line.total_vat) as i128,
                    )
                } else {
                    Some(groups)
                }
            },
            None => None,
        }
    }
}

/// A group found among the first groups is found at the same place among all.
proof fn lemma_find_rate_stable(groups: Seq<VatGroup>, n: int, rate: i32)
    requires
        0 <= n <= groups.len(),
        spec_find_rate(groups.take(n), rate) is Some,
    ensures
        spec_find_rate(groups, rate) == spec_find_rate(groups.take(n), rate),
    decreases groups.len() - n,
{
    if n < groups.len() {
        assert(groups.take(n + 1).drop_last() =~= groups.take(n));
        lemma_find_rate_stable(groups, n + 1, rate);
    } else {
        assert(groups.take(n) =~= groups);
    }
}

/// Where in `groups` the first group of `rate` stands, if there is one.
pub fn find_rate(groups: &Vec<VatGroup>, rate: i32) -> (r: Option<usize>)
    ensures
        match r {
            Some(i) => spec_find_rate(groups@, rate) == Some(i as int) && i < groups.len()
                && groups@[i as int].rate == rate,
            None => spec_find_rate(groups@, rate) is None,
        },
{
    let mut i: usize = 0;
    assert(groups@.take(0) =~= Seq::<VatGroup>::empty());
    while i < groups.len()
        invariant
            i <= groups.len(),
            spec_find_rate(groups@.take(i as int), rate) is None,
        decreases groups.len() - i,
    {
        proof {
            assert(groups@.take(i + 1).drop_last() =~= groups@.take(i as int));
        }
        if groups[i].rate == rate {
            proof {
                lemma_find_rate_stable(groups@, i + 1, rate);
            }
            return Some(i);
        }
        i += 1;
    }
    assert(groups@.take(groups@.len() as int) =~= groups@);
    None
}

/// Takes one more line into `groups`.  Returns whether the sums could be
/// held; where not, `groups` is left as it was.
pub fn add_line(groups: &mut Vec<VatGroup>, rate: i32, base_ht: i128, vat_amount: i128) -> (done:
    bool)
    ensures
        match spec_add_line(old(groups)@, rate, base_ht, vat_amount) {
            Some(next) => done && final(groups)@ == next,
            None => !done && final(groups)@ == old(groups)@,
        },
{
    match find_rate(groups, rate) {
        Some(i) => {
            let group = groups[i];
            match (group.base_ht.checked_add(base_ht), group.vat_amount.checked_add(vat_amount)) {
                (Some(base), Some(vat)) => {
                    groups[i] = VatGroup { rate, base_ht: base, vat_amount: vat };
                    true
                },
                _ => false,
            }
        },
        None => {
            groups.push(VatGroup { rate, base_ht, vat_amount });
            true
        },
    }
}

/// Sums the stored totals of the valid lines of `invoice` rate by rate.
/// The result is `None` where a sum is too large a number.
pub fn calculate_vat_breakdown(invoice: &InvoiceForm) -> (r: Option<Vec<VatGroup>>)
    ensures
        match r {
            Some(groups) => spec_vat_breakdown(invoice.lines@) == Some(groups@)
                && spec_groups_match(groups@, invoice.lines@),
            None => spec_vat_breakdown(invoice.lines@) is None,
        },
{
    let mut groups: Vec<VatGroup> = Vec::new();
    let mut i: usize = 0;
    assert(invoice.lines@.take(0) =~= Seq::<InvoiceLine>::empty());
    while i < invoice.lines.len()
        invariant
            i <= invoice.lines.len(),
            spec_vat_breakdown(invoice.lines@.take(i as int)) == Some(groups@),
        decreases invoice.lines.len() - i,
    {
        proof {
            assert(invoice.lines@.take(i + 1).drop_last() =~= invoice.lines@.take(i as int));
        }
        let line = &invoice.lines[i];
        if line.is_valid() {
            if !add_line(&mut groups, line.vat_rate, line.total_ht_value(), line.total_vat_value()) {
                proof {
                    lemma_breakdown_fails_on(invoice.lines@, i + 1);
                }
                return None;
            }
        }
        i += 1;
    }
    proof {
        assert(invoice.lines@.take(invoice.lines@.len() as int) =~= invoice.lines@);
        lemma_breakdown_matches(invoice.lines@);
    }
    Some(groups)
}

/// Once the sums of the first lines cannot be held, those of all cannot.
proof fn lemma_breakdown_fails_on(lines: Seq<InvoiceLine>, n: int)
    requires
        0 <= n <= lines.len(),
        spec_vat_breakdown(lines.take(n)) is None,
    ensures
        spec_vat_breakdown(lines) is None,
    decreases lines.len() - n,
{
    if n < lines.len() {
        assert(lines.take(n + 1).drop_last() =~= lines.take(n));
        lemma_breakdown_fails_on(lines, n + 1);
    } else {
        assert(lines.take(n) =~= lines);
    }
}

/// The sum of the stored totals without tax of the valid lines taxed at `rate`.
pub open spec fn spec_base_at_rate(lines: Seq<InvoiceLine>, rate: i32) -> int
    decreases lines.len(),
{
    if lines.len() == 0 {
        0
    } else {
        spec_base_at_rate(lines.drop_last(), rate) + if lines.last().spec_is_valid()
            && lines.last().vat_rate == rate {
            spec_stored(lines.last().total_ht)
        } else {
            0
        }
    }
}

/// The sum of the stored tax of the valid lines taxed at `rate`.
pub open spec fn spec_vat_at_rate(lines: Seq<InvoiceLine>, rate: i32) -> int
    decreases lines.len(),
{
    if lines.len() == 0 {
        0
    } else {
        spec_vat_at_rate(lines.drop_last(), rate) + if lines.last().spec_is_valid()
            && lines.last().vat_rate == rate {
            spec_stored(lines.last().total_vat)
        } else {
            0
        }
    }
}

/// A valid line is taxed at `rate`.
pub open spec fn spec_rate_occurs(lines: Seq<InvoiceLine>, rate: i32) -> bool {
    exists|k: int| 0 <= k < lines.len() && #[trigger] lines[k].spec_is_valid() && lines[k].vat_rate == rate
}

/// No two groups are of the same rate, each group is of a rate at which a
/// valid line is taxed and holds the sums of the lines of its rate, and no
/// rate of a valid line is without its group.
pub open spec fn spec_groups_match(groups: Seq<VatGroup>, lines: Seq<InvoiceLine>) -> bool {
    &&& forall|i: int, j: int|
        0 <= i < j < groups.len() ==> (#[trigger] groups[i]).rate != (#[trigger] groups[j]).rate
    &&& forall|i: int|
        0 <= i < groups.len() ==> {
            &&& spec_rate_occurs(lines, (#[trigger] groups[i]).rate)
            &&& groups[i].base_ht == spec_base_at_rate(lines, groups[i].rate)
            &&& groups[i].vat_amount == spec_vat_at_rate(lines, groups[i].rate)
        }
    &&& forall|k: int|
        0 <= k < lines.len() && (#[trigger] lines[k]).spec_is_valid() ==> spec_find_rate(
            groups,
            lines[k].vat_rate,
        ) is Some
}

/// What `spec_find_rate` finds is a group of the rate, and it finds one
/// wherever there is one.
proof fn lemma_find_rate(groups: Seq<VatGroup>, rate: i32)
    ensures
        match spec_find_rate(groups, rate) {
            Some(i) => 0 <= i < groups.len() && groups[i].rate == rate,
            None => forall|k: int| 0 <= k < groups.len() ==> (#[trigger] groups[k]).rate != rate,
        },
    decreases groups.len(),
{
    if groups.len() > 0 {
        lemma_find_rate(groups.drop_last(), rate);
        if spec_find_rate(groups.drop_last(), rate) is None {
            assert forall|k: int| 0 <= k < groups.len() - 1 implies (#[trigger] groups[k]).rate
                != rate by {
                assert(groups.drop_last()[k] == groups[k]);
            }
        } else {
            let i = spec_find_rate(groups.drop_last(), rate)->0;
            assert(groups.drop_last()[i] == groups[i]);
        }
    }
}

/// A rate that a group is of is found.
proof fn lemma_find_rate_finds(groups: Seq<VatGroup>, k: int)
    requires
        0 <= k < groups.len(),
    ensures
        spec_find_rate(groups, groups[k].rate) is Some,
{
    lemma_find_rate(groups, groups[k].rate);
}

/// The groups of an invoice are of distinct rates, hold for each rate the
/// sums of the valid lines taxed at it, and leave out no rate of a valid line.
pub proof fn lemma_breakdown_matches(lines: Seq<InvoiceLine>)
    requires
        spec_vat_breakdown(lines) is Some,
    ensures
        spec_groups_match(spec_vat_breakdown(lines)->0, lines),
    decreases lines.len(),
{
    let groups = spec_vat_breakdown(lines)->0;
    if lines.len() == 0 {
        return ;
    }
    let rest = lines.drop_last();
    let line = lines.last();
    let before = spec_vat_breakdown(rest)->0;
    lemma_breakdown_matches(rest);
    assert forall|k: int| 0 <= k < rest.len() implies rest[k] == lines[k] by {}
    assert forall|r: i32| spec_rate_occurs(rest, r) implies spec_rate_occurs(lines, r) by {
        let k = choose|k: int|
            0 <= k < rest.len() && #[trigger] rest[k].spec_is_valid() && rest[k].vat_rate == r;
        assert(lines[k].spec_is_valid() && lines[k].vat_rate == r);
    }
    if !line.spec_is_valid() {
        assert(groups == before);
        assert forall|k: int|
            0 <= k < lines.len() && (#[trigger] lines[k]).spec_is_valid() implies spec_find_rate(
            groups,
            lines[k].vat_rate,
        ) is Some by {
            assert(k < rest.len());
            assert(rest[k].spec_is_valid());
        }
        return ;
    }
    let rate = line.vat_rate;
    lemma_find_rate(before, rate);
    assert(lines[lines.len() - 1].spec_is_valid() && lines[lines.len() - 1].vat_rate == rate);
    assert(spec_rate_occurs(lines, rate));
    match spec_find_rate(before, rate) {
        Some(at) => {
            assert(groups =~= before.update(at, groups[at]));
            assert forall|i: int, j: int| 0 <= i < j < groups.len() implies (#[trigger] groups[i]).rate
                != (#[trigger] groups[j]).rate by {
                assert(groups[i].rate == before[i].rate);
                assert(groups[j].rate == before[j].rate);
            }
            assert forall|i: int| 0 <= i < groups.len() implies {
                &&& spec_rate_occurs(lines, (#[trigger] groups[i]).rate)
                &&& groups[i].base_ht == spec_base_at_rate(lines, groups[i].rate)
                &&& groups[i].vat_amount == spec_vat_at_rate(lines, groups[i].rate)
            } by {
                assert(groups[i].rate == before[i].rate);
                if i != at {
                    assert(groups[i] == before[i]);
                    assert(before[i].rate != before[at].rate);
                }
            }
            assert forall|k: int|
                0 <= k < lines.len() && (#[trigger] lines[k]).spec_is_valid() implies spec_find_rate(
                groups,
                lines[k].vat_rate,
            ) is Some by {
                if k < rest.len() {
                    assert(rest[k].spec_is_valid());
                    lemma_find_rate(before, lines[k].vat_rate);
                    let i = spec_find_rate(before, lines[k].vat_rate)->0;
                    assert(groups[i].rate == before[i].rate);
                    lemma_find_rate_finds(groups, i);
                } else {
                    assert(groups[at].rate == rate);
                    lemma_find_rate_finds(groups, at);
                }
            }
        },
        None => {
            assert(groups =~= before.push(groups.last()));
            assert forall|i: int, j: int| 0 <= i < j < groups.len() implies (#[trigger] groups[i]).rate
                != (#[trigger] groups[j]).rate by {
                assert(groups[i] == before[i]);
                if j < before.len() {
                    assert(groups[j] == before[j]);
                }
            }
            lemma_sums_of_absent_rate(rest, before, rate);
            assert forall|i: int| 0 <= i < groups.len() implies {
                &&& spec_rate_occurs(lines, (#[trigger] groups[i]).rate)
                &&& groups[i].base_ht == spec_base_at_rate(lines, groups[i].rate)
                &&& groups[i].vat_amount == spec_vat_at_rate(lines, groups[i].rate)
            } by {
                if i < before.len() {
                    assert(groups[i] == before[i]);
                    assert(before[i].rate != rate);
                }
            }
            assert forall|k: int|
                0 <= k < lines.len() && (#[trigger] lines[k]).spec_is_valid() implies spec_find_rate(
                groups,
                lines[k].vat_rate,
            ) is Some by {
                if k < rest.len() {
                    assert(rest[k].spec_is_valid());
                    lemma_find_rate(before, lines[k].vat_rate);
                    let i = spec_find_rate(before, lines[k].vat_rate)->0;
                    assert(groups[i] == before[i]);
                    lemma_find_rate_finds(groups, i);
                } else {
                    lemma_find_rate_finds(groups, groups.len() - 1);
                }
            }
        },
    }
}

/// Where no group is of a rate, no valid line is taxed at it, and its sums
/// are zero.
proof fn lemma_sums_of_absent_rate(lines: Seq<InvoiceLine>, groups: Seq<VatGroup>, rate: i32)
    requires
        spec_groups_match(groups, lines),
        spec_find_rate(groups, rate) is None,
    ensures
        spec_base_at_rate(lines, rate) == 0,
        spec_vat_at_rate(lines, rate) == 0,
{
    assert forall|k: int| 0 <= k < lines.len() implies !((#[trigger] lines[k]).spec_is_valid()
        && lines[k].vat_rate == rate) by {}
    lemma_sums_without_rate(lines, rate);
}

/// The sums of a rate at which no valid line is taxed are zero.
proof fn lemma_sums_without_rate(lines: Seq<InvoiceLine>, rate: i32)
    requires
        forall|k: int|
            0 <= k < lines.len() ==> !((#[trigger] lines[k]).spec_is_valid() && lines[k].vat_rate
                == rate),
    ensures
        spec_base_at_rate(lines, rate) == 0,
        spec_vat_at_rate(lines, rate) == 0,
    decreases lines.len(),
{
    if lines.len() > 0 {
        assert forall|k: int| 0 <= k < lines.len() - 1 implies !((#[trigger] lines.drop_last()[k]).spec_is_valid()
            && lines.drop_last()[k].vat_rate == rate) by {
            assert(lines.drop_last()[k] == lines[k]);
        }
        lemma_sums_without_rate(lines.drop_last(), rate);
        assert(!(lines[lines.len() - 1].spec_is_valid() && lines[lines.len() - 1].vat_rate == rate));
    }
}

/// Lines that are not valid are left out of the groups, wherever they
/// stand: the groups of an invoice are those of its valid lines alone.
pub proof fn lemma_breakdown_skips_invalid_lines(lines: Seq<InvoiceLine>)
    ensures
        spec_vat_breakdown(lines) == spec_vat_breakdown(
            lines.filter(|l: InvoiceLine| l.spec_is_valid()),
        ),
    decreases lines.len(),
{
    reveal(Seq::filter);
    let valid = |l: InvoiceLine| l.spec_is_valid();
    if lines.len() > 0 {
        lemma_breakdown_skips_invalid_lines(lines.drop_last());
        if lines.last().spec_is_valid() {
            let kept = lines.drop_last().filter(valid);
            assert(kept.push(lines.last()).drop_last() =~= kept);
        }
    }
}

/// Over the lines as the calculator leaves them, the sums of one rate are
/// not below zero and not above the sums of the whole invoice.
proof fn lemma_rate_sums_bounded(lines: Seq<InvoiceLine>, rate: i32)
    ensures
        0 <= spec_base_at_rate(spec_computed_lines(lines), rate) <= spec_sum_ht(lines),
        0 <= spec_vat_at_rate(spec_computed_lines(lines), rate) <= spec_sum_vat(lines),
    decreases lines.len(),
{
    let computed = spec_computed_lines(lines);
    if lines.len() > 0 {
        lemma_rate_sums_bounded(lines.drop_last(), rate);
        assert(computed.drop_last() =~= spec_computed_lines(lines.drop_last()));
        let line = lines.last();
        line.lemma_ranges();
        if line.spec_is_valid() {
            lemma_valid_line_totals(line);
            assert(computed.last() == line.spec_computed());
        } else {
            assert(computed.last() == line);
        }
    }
}

/// Where the totals of an invoice can be held, so can the sums of each
/// rate: once the calculator has filled in the lines, the tax can be told
/// rate by rate.
pub proof fn lemma_breakdown_of_computed_lines(lines: Seq<InvoiceLine>)
    requires
        spec_sum_ttc(lines) <= i128::MAX,
    ensures
        spec_vat_breakdown(spec_computed_lines(lines)) is Some,
    decreases lines.len(),
{
    let computed = spec_computed_lines(lines);
    if lines.len() > 0 {
        let rest = lines.drop_last();
        let line = lines.last();
        lemma_sums_ordered(rest);
        lemma_sums_ordered(lines);
        line.lemma_ranges();
        if line.spec_is_valid() {
            lemma_valid_line_totals(line);
        }
        lemma_breakdown_of_computed_lines(rest);
        assert(computed.drop_last() =~= spec_computed_lines(rest));
        let before = spec_vat_breakdown(spec_computed_lines(rest))->0;
        lemma_breakdown_matches(spec_computed_lines(rest));
        if line.spec_is_valid() {
            assert(computed.last() == line.spec_computed());
            assert(computed.last().spec_is_valid());
            let rate = line.vat_rate;
            lemma_find_rate(before, rate);
            lemma_rate_sums_bounded(rest, rate);
            lemma_rate_sums_bounded(lines, rate);
        } else {
            assert(computed.last() == line);
        }
    }
}

} // verus!
