//! The page of the invoice: what is drawn where, in the order in which it
//! is drawn.  Lengths are whole numbers of half points from the top left
//! corner of an A4 page.

use vstd::prelude::*;
use vstd::string::StringSliceAdditionalSpecFns;
use crate::EmitterConfig;
use crate::calendar::current_timestamp;
use vstd::utf8::encode_utf8;
use crate::calendar::spec_is_timestamp;
use crate::facturx::pdf_container::{ContainerError, replace_xmp_metadata, spec_xmp_replaced};
use crate::facturx::pdf_document::{
    DocumentError,
    FinishView,
    embed_invoice_xml,
    embedded_names,
    krilla_finish,
    modification_date,
    spec_embed_outcome,
    spec_write_outcome,
    spec_written_pdf,
    write_document,
};
use crate::facturx::xmp_metadata::{
    DEFAULT_VERSION,
    FacturXProfile,
    STANDARD_XML_FILENAME,
    XmpError,
    XmpMetadata,
    generate_xmp_metadata,
    spec_xmp_errors,
    spec_xmp_outcome,
    spec_xmp_packet,
    xmp_errors_view,
    xmp_result_view,
};
use crate::decimal::{push_decimal, push_rounded, spec_decimal, spec_format_rounded};
use crate::facturx::vat::{
    VatGroup,
    calculate_vat_breakdown,
    lemma_breakdown_skips_invalid_lines,
    spec_vat_breakdown,
};
use crate::facturx::xml_generator::{
    HT_STEPS_PER_CENT,
    TAX_STEPS_PER_CENT,
    spec_display_date_parts,
    spec_is_date_shape,
};
use crate::models::invoice::{InvoiceForm, InvoiceTypeCode};
use crate::models::line::{InvoiceLine, spec_stored};
use crate::text::chars_of;

verus! {

/// Where the hyphens of `s` stand, from the first to the last.
pub open spec fn spec_hyphens(s: Seq<char>) -> Seq<int>
    decreases s.len(),
{
    if s.len() == 0 {
        Seq::empty()
    } else if s.last() == '-' {
        spec_hyphens(s.drop_last()).push(s.len() - 1)
    } else {
        spec_hyphens(s.drop_last())
    }
}

/// A date for display: a text of ten characters with exactly two hyphens
/// is turned round, what follows the second hyphen coming first and what
/// precedes the first hyphen last, with slashes between the three parts.
/// Any other text is left as it is.
pub open spec fn spec_format_date_display(s: Seq<char>) -> Seq<char> {
    let hyphens = spec_hyphens(s);
    if s.len() == 10 && hyphens.len() == 2 {
        s.subrange(hyphens[1] + 1, 10) + seq!['/'] + s.subrange(hyphens[0] + 1, hyphens[1])
            + seq!['/'] + s.subrange(0, hyphens[0])
    } else {
        s
    }
}

/// The hyphens of a text stand inside it, in rising order.
pub proof fn lemma_hyphens_bounds(s: Seq<char>)
    ensures
        forall|k: int|
            0 <= k < spec_hyphens(s).len() ==> 0 <= #[trigger] spec_hyphens(s)[k] < s.len(),
        forall|j: int, k: int|
            0 <= j < k < spec_hyphens(s).len() ==> spec_hyphens(s)[j] < spec_hyphens(s)[k],
    decreases s.len(),
{
    if s.len() > 0 {
        let h = spec_hyphens(s);
        let t = spec_hyphens(s.drop_last());
        lemma_hyphens_bounds(s.drop_last());
        assert forall|k: int| 0 <= k < h.len() implies 0 <= #[trigger] h[k] < s.len() by {
            if k < t.len() {
                assert(h[k] == t[k]);
            }
        }
        assert forall|j: int, k: int| 0 <= j < k < h.len() implies h[j] < h[k] by {
            assert(h[j] == t[j]);
            if k < t.len() {
                assert(h[k] == t[k]);
            }
        }
    }
}

/// Appends the characters of `x` from `from` up to `to`.
fn push_range(out: &mut String, x: &Vec<char>, from: usize, to: usize)
    requires
        from <= to <= x.len(),
    ensures
        final(out)@ == old(out)@ + x@.subrange(from as int, to as int),
{
    let mut i: usize = from;
    assert(out@ =~= old(out)@ + x@.subrange(from as int, from as int));
    while i < to
        invariant
            from <= i <= to <= x.len(),
            out@ == old(out)@ + x@.subrange(from as int, i as int),
        decreases to - i,
    {
        let ghost before = out@;
        out.push(x[i]);
        assert(out@ =~= old(out)@ + x@.subrange(from as int, i + 1));
        i += 1;
    }
}

/// Turns a date `YYYY-MM-DD` into `DD/MM/YYYY` for display.  A text that
/// does not have ten characters and exactly two hyphens is returned as it is.
pub fn format_date_display(date: &str) -> (out: String)
    ensures
        out@ == spec_format_date_display(date@),
{
    let x = chars_of(date);
    let mut hyphens: Vec<usize> = Vec::new();
    let mut i: usize = 0;
    assert(x@.take(0) =~= Seq::<char>::empty());
    while i < x.len()
        invariant
            i <= x.len(),
            hyphens@.len() == spec_hyphens(x@.take(i as int)).len(),
            forall|k: int|
                0 <= k < hyphens@.len() ==> #[trigger] hyphens@[k] == spec_hyphens(
                    x@.take(i as int),
                )[k],
        decreases x.len() - i,
    {
        proof {
            assert(x@.take(i + 1).drop_last() =~= x@.take(i as int));
        }
        if x[i] == '-' {
            hyphens.push(i);
        }
        i += 1;
    }
    proof {
        assert(x@.take(x@.len() as int) =~= x@);
        lemma_hyphens_bounds(x@);
    }
    if x.len() == 10 && hyphens.len() == 2 {
        let first = hyphens[0];
        let second = hyphens[1];
        let mut out = String::new();
        push_range(&mut out, &x, second + 1, 10);
        out.push('/');
        push_range(&mut out, &x, first + 1, second);
        out.push('/');
        push_range(&mut out, &x, 0, first);
        assert(out@ =~= spec_format_date_display(date@));
        out
    } else {
        String::from_str(date)
    }
}

proof fn lemma_hyphens_step(s: Seq<char>, k: int)
    requires
        0 <= k < s.len(),
    ensures
        spec_hyphens(s.take(k + 1)) == if s[k] == '-' {
            spec_hyphens(s.take(k)).push(k)
        } else {
            spec_hyphens(s.take(k))
        },
{
    assert(s.take(k + 1).drop_last() =~= s.take(k));
}

/// A date in the shape `YYYY-MM-DD` is displayed as `DD/MM/YYYY`.
pub proof fn lemma_display_of_date_shape(s: Seq<char>)
    requires
        spec_is_date_shape(s),
    ensures
        spec_format_date_display(s) == spec_display_date_parts(s),
{
    assert(s.take(0) =~= Seq::<char>::empty());
    lemma_hyphens_step(s, 0);
    lemma_hyphens_step(s, 1);
    lemma_hyphens_step(s, 2);
    lemma_hyphens_step(s, 3);
    lemma_hyphens_step(s, 4);
    lemma_hyphens_step(s, 5);
    lemma_hyphens_step(s, 6);
    lemma_hyphens_step(s, 7);
    lemma_hyphens_step(s, 8);
    lemma_hyphens_step(s, 9);
    assert(s.take(10) =~= s);
    assert(spec_hyphens(s) =~= seq![4int, 7int]);
}

/// Width of the page, A4.
pub const PAGE_WIDTH: u32 = 1190;

/// Height of the page, A4.
pub const PAGE_HEIGHT: u32 = 1684;

pub const MARGIN_LEFT: u32 = 114;

pub const MARGIN_RIGHT: u32 = 114;

pub const MARGIN_TOP: u32 = 114;

pub const MARGIN_BOTTOM: u32 = 114;

/// The lowest place at which the cursor may stand when something is drawn.
pub const CURSOR_LIMIT: u32 = PAGE_HEIGHT - MARGIN_BOTTOM;

/// The largest step that the cursor takes at once.
pub const MAX_ADVANCE: u32 = 100;

pub const FONT_SIZE_TITLE: u32 = 36;

pub const FONT_SIZE_HEADER: u32 = 24;

pub const FONT_SIZE_NORMAL: u32 = 20;

pub const FONT_SIZE_SMALL: u32 = 16;

pub const LINE_HEIGHT: u32 = 28;

/// Where the title of the page begins.
pub const TITLE_X: u32 = PAGE_WIDTH / 2 - 80;

/// Where the dates begin.
pub const DATES_X: u32 = PAGE_WIDTH - MARGIN_RIGHT - 240;

pub const COLUMN_DESCRIPTION: u32 = MARGIN_LEFT;

pub const COLUMN_QUANTITY: u32 = 560;

pub const COLUMN_UNIT_PRICE: u32 = 680;

pub const COLUMN_VAT: u32 = 820;

pub const COLUMN_TOTAL: u32 = 960;

/// Where the tax of each rate begins.
pub const VAT_GROUP_X: u32 = MARGIN_LEFT + 20;

/// Where the totals begin.
pub const TOTALS_X: u32 = PAGE_WIDTH - MARGIN_RIGHT - 300;

/// Where the rules end.
pub const RULE_END: u32 = PAGE_WIDTH - MARGIN_RIGHT;

/// Where the caption at the foot of the page stands.
pub const FOOTER_Y: u32 = PAGE_HEIGHT - 60;

/// Characters of a description that make it too long for its column, and
/// how many of them are kept before the dots.
pub const DESCRIPTION_MAX: usize = 40;

pub const DESCRIPTION_KEPT: usize = 37;

/// The same for the description that a discount line repeats.
pub const DISCOUNT_DESCRIPTION_MAX: usize = 25;

pub const DISCOUNT_DESCRIPTION_KEPT: usize = 22;

pub const FOOTER_CAPTION: &'static str = "Facture conforme Factur-X - XML embarque";

/// The two faces of the font.
#[derive(Debug, Clone, Copy, PartialEq, Eq, Structural)]
pub enum FontFace {
    Regular,
    Bold,
}

/// The height to which the logo is scaled.
pub const LOGO_HEIGHT: u32 = 100;

/// The room left between the logo and the base line of what follows it.
pub const LOGO_GAP: u32 = 60;

/// The widest that the logo may be: the page between its margins.
pub const LOGO_MAX_WIDTH: u32 = PAGE_WIDTH - MARGIN_LEFT - MARGIN_RIGHT;

/// The size of the logo as it comes, in pixels.
#[derive(Debug, Clone, Copy, PartialEq, Eq, Structural)]
pub struct LogoSize {
    pub width: u32,
    pub height: u32,
}

/// One thing to draw.
#[derive(Debug, Clone)]
pub enum DrawOp {
    /// A text in black, its base line beginning at `(x, y)`.
    Text { text: String, font: FontFace, size: u32, x: u32, y: u32 },
    /// A grey line half a point wide from `(x1, y)` to `(x2, y)`.
    Rule { x1: u32, x2: u32, y: u32 },
    /// The logo, its top left corner at `(x, y)`, scaled to `width` by `height`.
    Image { x: u32, y: u32, width: u32, height: u32 },
}

/// One thing to draw, its text as a sequence of characters.
pub enum DrawOpView {
    Text { text: Seq<char>, font: FontFace, size: u32, x: u32, y: u32 },
    Rule { x1: u32, x2: u32, y: u32 },
    Image { x: u32, y: u32, width: u32, height: u32 },
}

impl View for DrawOp {
    type V = DrawOpView;

    open spec fn view(&self) -> DrawOpView {
        match self {
            DrawOp::Text { text, font, size, x, y } => DrawOpView::Text {
                text: text@,
                font: *font,
                size: *size,
                x: *x,
                y: *y,
            },
            DrawOp::Rule { x1, x2, y } => DrawOpView::Rule { x1: *x1, x2: *x2, y: *y },
            DrawOp::Image { x, y, width, height } => DrawOpView::Image {
                x: *x,
                y: *y,
                width: *width,
                height: *height,
            },
        }
    }
}

/// The views of a list of things to draw, in order.
pub open spec fn ops_view(ops: Seq<DrawOp>) -> Seq<DrawOpView> {
    ops.map_values(|op: DrawOp| op@)
}

/// A page as it fills: what has been drawn, where the cursor stands, and
/// whether the content has run past the foot of the page.
pub struct PageView {
    pub ops: Seq<DrawOpView>,
    pub y: u32,
    pub overflowed: bool,
}

/// The page before anything is drawn: the cursor below the top margin.
pub open spec fn spec_blank_page() -> PageView {
    PageView { ops: Seq::empty(), y: MARGIN_TOP, overflowed: false }
}

/// The page with one more thing drawn at the cursor.  Nothing is drawn on
/// a page that has overflowed, and a page whose cursor stands below the
/// limit overflows.
pub open spec fn spec_draw(page: PageView, op: DrawOpView) -> PageView {
    if page.overflowed {
        page
    } else if page.y > CURSOR_LIMIT {
        PageView { overflowed: true, ..page }
    } else {
        PageView { ops: page.ops.push(op), ..page }
    }
}

/// The page with a text drawn at the cursor.
pub open spec fn spec_text(page: PageView, text: Seq<char>, font: FontFace, size: u32, x: u32)
    -> PageView {
    spec_draw(page, DrawOpView::Text { text, font, size, x, y: page.y })
}

/// The page with a rule drawn at the cursor, from the left margin to the right.
pub open spec fn spec_rule(page: PageView) -> PageView {
    spec_draw(page, DrawOpView::Rule { x1: MARGIN_LEFT, x2: RULE_END, y: page.y })
}

/// The width of the logo once it is scaled to its height on the page, the
/// ratio of its sides kept as far as whole half points allow.
pub open spec fn spec_logo_width(size: LogoSize) -> int {
    size.width * LOGO_HEIGHT / (size.height as int)
}

/// The logo has a height, and scaled to its height on the page it has a
/// width and is no wider than the page between its margins.
pub open spec fn spec_logo_fits(size: LogoSize) -> bool {
    size.height > 0 && 0 < spec_logo_width(size) <= LOGO_MAX_WIDTH
}

/// The page with the logo drawn at the cursor, across the middle of the page.
pub open spec fn spec_image(page: PageView, size: LogoSize) -> PageView {
    spec_draw(
        page,
        DrawOpView::Image {
            x: ((PAGE_WIDTH - spec_logo_width(size)) / 2) as u32,
            y: page.y,
            width: spec_logo_width(size) as u32,
            height: LOGO_HEIGHT,
        },
    )
}

/// The page with the cursor moved down by `dy`.  A cursor that stands
/// below the limit does not move: the page overflows.
pub open spec fn spec_advance(page: PageView, dy: u32) -> PageView {
    if page.overflowed {
        page
    } else if page.y > CURSOR_LIMIT {
        PageView { overflowed: true, ..page }
    } else {
        PageView { y: (page.y + dy) as u32, ..page }
    }
}

/// Drawing at the cursor keeps the page in order.
proof fn lemma_draw_in_order(page: PageView, op: DrawOpView)
    requires
        spec_page_in_order(page),
        spec_op_y(op) == page.y,
    ensures
        spec_page_in_order(spec_draw(page, op)),
{
    let next = spec_draw(page, op);
    if !page.overflowed && page.y <= CURSOR_LIMIT {
        assert forall|i: int| 0 <= i < next.ops.len() implies spec_op_y(#[trigger] next.ops[i])
            <= CURSOR_LIMIT && spec_op_y(next.ops[i]) <= next.y by {
            if i < page.ops.len() {
                assert(next.ops[i] == page.ops[i]);
            }
        }
        assert forall|i: int, j: int| 0 <= i <= j < next.ops.len() implies spec_op_y(
            #[trigger] next.ops[i],
        ) <= spec_op_y(#[trigger] next.ops[j]) by {
            if i < page.ops.len() {
                assert(next.ops[i] == page.ops[i]);
            }
            if j < page.ops.len() {
                assert(next.ops[j] == page.ops[j]);
            }
        }
    }
}

/// Moving the cursor down keeps the page in order.
proof fn lemma_advance_in_order(page: PageView, dy: u32)
    requires
        spec_page_in_order(page),
        page.y + dy <= u32::MAX,
    ensures
        spec_page_in_order(spec_advance(page, dy)),
{
    let next = spec_advance(page, dy);
    assert forall|i: int| 0 <= i < next.ops.len() implies spec_op_y(#[trigger] next.ops[i])
        <= CURSOR_LIMIT && spec_op_y(next.ops[i]) <= next.y by {
        assert(next.ops[i] == page.ops[i]);
    }
    assert forall|i: int, j: int| 0 <= i <= j < next.ops.len() implies spec_op_y(
        #[trigger] next.ops[i],
    ) <= spec_op_y(#[trigger] next.ops[j]) by {
        assert(next.ops[i] == page.ops[i]);
        assert(next.ops[j] == page.ops[j]);
    }
}

/// The width of the logo once it is scaled to its height on the page.
pub fn logo_width(size: LogoSize) -> (width: u32)
    requires
        spec_logo_fits(size),
    ensures
        width == spec_logo_width(size),
{
    assert(size.width * LOGO_HEIGHT <= 0xffff_ffff * 100) by (nonlinear_arith)
        requires
            size.width <= 0xffff_ffff,
            LOGO_HEIGHT == 100,
    ;
    let wide: u64 = (size.width as u64) * (LOGO_HEIGHT as u64);
    (wide / (size.height as u64)) as u32
}

/// Whether the logo can be put on the page.
pub fn logo_fits(size: LogoSize) -> (r: bool)
    ensures
        r == spec_logo_fits(size),
{
    if size.height == 0 {
        return false;
    }
    assert(size.width * LOGO_HEIGHT <= 0xffff_ffff * 100) by (nonlinear_arith)
        requires
            size.width <= 0xffff_ffff,
            LOGO_HEIGHT == 100,
    ;
    let wide: u64 = (size.width as u64) * (LOGO_HEIGHT as u64);
    let width: u64 = wide / (size.height as u64);
    0 < width && width <= LOGO_MAX_WIDTH as u64
}

/// A page as it fills.
pub struct Page {
    pub ops: Vec<DrawOp>,
    pub y: u32,
    pub overflowed: bool,
}

impl View for Page {
    type V = PageView;

    open spec fn view(&self) -> PageView {
        PageView { ops: ops_view(self.ops@), y: self.y, overflowed: self.overflowed }
    }
}

/// How far down the page `op` is drawn.
pub open spec fn spec_op_y(op: DrawOpView) -> u32 {
    match op {
        DrawOpView::Text { y, .. } => y,
        DrawOpView::Rule { y, .. } => y,
        DrawOpView::Image { y, .. } => y,
    }
}

/// Everything on the page was drawn above the limit and no lower than the
/// cursor stands, each thing no higher than the one before it.
pub open spec fn spec_page_in_order(page: PageView) -> bool {
    &&& forall|i: int|
        0 <= i < page.ops.len() ==> spec_op_y(#[trigger] page.ops[i]) <= CURSOR_LIMIT && spec_op_y(
            page.ops[i],
        ) <= page.y
    &&& forall|i: int, j: int|
        0 <= i <= j < page.ops.len() ==> spec_op_y(#[trigger] page.ops[i]) <= spec_op_y(
            #[trigger] page.ops[j],
        )
}

impl Page {
    /// The cursor stands at most one step below the limit, and what is
    /// drawn is in order.
    pub open spec fn wf(&self) -> bool {
        &&& self.y <= CURSOR_LIMIT + MAX_ADVANCE
        &&& spec_page_in_order(self@)
    }

    /// A page on which nothing is drawn yet.
    pub fn new() -> (page: Page)
        ensures
            page.wf(),
            page@ == spec_blank_page(),
    {
        let page = Page { ops: Vec::new(), y: MARGIN_TOP, overflowed: false };
        assert(page@.ops =~= Seq::<DrawOpView>::empty());
        page
    }

    /// Draws a text at the cursor.
    pub fn text(&mut self, text: String, font: FontFace, size: u32, x: u32)
        requires
            old(self).wf(),
        ensures
            final(self).wf(),
            final(self)@ == spec_text(old(self)@, text@, font, size, x),
    {
        if self.overflowed {
        } else if self.y > CURSOR_LIMIT {
            self.overflowed = true;
        } else {
            let y = self.y;
            self.ops.push(DrawOp::Text { text, font, size, x, y });
            assert(final(self)@.ops =~= old(self)@.ops.push(
                DrawOpView::Text { text: text@, font, size, x, y },
            ));
        }
        proof {
            lemma_draw_in_order(
                old(self)@,
                DrawOpView::Text { text: text@, font, size, x, y: old(self).y },
            );
        }
    }

    /// Draws a rule at the cursor.
    pub fn rule(&mut self)
        requires
            old(self).wf(),
        ensures
            final(self).wf(),
            final(self)@ == spec_rule(old(self)@),
    {
        if self.overflowed {
        } else if self.y > CURSOR_LIMIT {
            self.overflowed = true;
        } else {
            let y = self.y;
            self.ops.push(DrawOp::Rule { x1: MARGIN_LEFT, x2: RULE_END, y });
            assert(final(self)@.ops =~= old(self)@.ops.push(
                DrawOpView::Rule { x1: MARGIN_LEFT, x2: RULE_END, y },
            ));
        }
        proof {
            lemma_draw_in_order(
                old(self)@,
                DrawOpView::Rule { x1: MARGIN_LEFT, x2: RULE_END, y: old(self).y },
            );
        }
    }

    /// Draws the logo at the cursor, across the middle of the page.
    pub fn image(&mut self, size: LogoSize)
        requires
            old(self).wf(),
            spec_logo_fits(size),
        ensures
            final(self).wf(),
            final(self)@ == spec_image(old(self)@, size),
    {
        let width: u32 = logo_width(size);
        if self.overflowed {
        } else if self.y > CURSOR_LIMIT {
            self.overflowed = true;
        } else {
            let y: u32 = self.y;
            let x: u32 = (PAGE_WIDTH - width) / 2;
            self.ops.push(DrawOp::Image { x, y, width, height: LOGO_HEIGHT });
            assert(final(self)@.ops =~= old(self)@.ops.push(
                DrawOpView::Image { x, y, width, height: LOGO_HEIGHT },
            ));
        }
        proof {
            lemma_draw_in_order(
                old(self)@,
                DrawOpView::Image {
                    x: ((PAGE_WIDTH - width) / 2) as u32,
                    y: old(self).y,
                    width,
                    height: LOGO_HEIGHT,
                },
            );
        }
    }

    /// Moves the cursor down.
    pub fn advance(&mut self, dy: u32)
        requires
            old(self).wf(),
            dy <= MAX_ADVANCE,
        ensures
            final(self).wf(),
            final(self)@ == spec_advance(old(self)@, dy),
    {
        if self.overflowed {
        } else if self.y > CURSOR_LIMIT {
            self.overflowed = true;
        } else {
            self.y = self.y + dy;
        }
        proof {
            lemma_advance_in_order(old(self)@, dy);
        }
    }
}

/// The page with a text drawn at the cursor and the cursor moved down by `dy`.
pub open spec fn spec_line(
    page: PageView,
    text: Seq<char>,
    font: FontFace,
    size: u32,
    x: u32,
    dy: u32,
) -> PageView {
    spec_advance(spec_text(page, text, font, size, x), dy)
}

impl Page {
    /// Draws a text at the cursor and moves the cursor down.
    pub fn line(&mut self, text: String, font: FontFace, size: u32, x: u32, dy: u32)
        requires
            old(self).wf(),
            dy <= MAX_ADVANCE,
        ensures
            final(self).wf(),
            final(self)@ == spec_line(old(self)@, text@, font, size, x, dy),
    {
        self.text(text, font, size, x);
        self.advance(dy);
    }
}

/// An optional text is there and not empty.
pub open spec fn spec_present(field: Option<String>) -> bool {
    field is Some && field->0@.len() > 0
}

/// `s`, or where it has more than `max` characters, its first `kept` and three dots.
pub open spec fn spec_truncated(s: Seq<char>, max: nat, kept: nat) -> Seq<char> {
    if s.len() > max {
        s.subrange(0, kept as int) + "..."@
    } else {
        s
    }
}

/// A rate with one decimal and a percent sign.
pub open spec fn spec_percent(rate: i32) -> Seq<char> {
    spec_format_rounded(rate as int, 10, 1) + "%"@
}

/// An amount after its label, with two decimals and the currency.
pub open spec fn spec_amount(label: Seq<char>, value: i128, unit: u128, currency: Seq<char>)
    -> Seq<char> {
    label + spec_format_rounded(value as int, unit as nat, 2) + " "@ + currency
}

/// The line that tells of a discount.
pub open spec fn spec_discount_text(description: Seq<char>, discount: i128, currency: Seq<char>)
    -> Seq<char> {
    "  - Rabais sur "@ + spec_truncated(
        description,
        DISCOUNT_DESCRIPTION_MAX as nat,
        DISCOUNT_DESCRIPTION_KEPT as nat,
    ) + ": -"@ + spec_format_rounded(discount as int, HT_STEPS_PER_CENT as nat, 2) + " "@
        + currency
}

/// The line that tells of the tax at one rate.
pub open spec fn spec_group_text(group: VatGroup, currency: Seq<char>) -> Seq<char> {
    "TVA "@ + spec_format_rounded(group.rate as int, 10, 1) + "% : Base "@ + spec_format_rounded(
        group.base_ht as int,
        HT_STEPS_PER_CENT as nat,
        2,
    ) + " "@ + currency + " - TVA "@ + spec_format_rounded(
        group.vat_amount as int,
        TAX_STEPS_PER_CENT as nat,
        2,
    ) + " "@ + currency
}

/// `label` followed by `value`.
fn labelled(label: &str, value: &str) -> (text: String)
    ensures
        text@ == label@ + value@,
{
    let mut text = String::from_str(label);
    text.append(value);
    text
}

/// `s`, or where it has more than `max` characters, its first `kept` and three dots.
pub fn truncated(s: &str, max: usize, kept: usize) -> (text: String)
    requires
        kept <= max,
    ensures
        text@ == spec_truncated(s@, max as nat, kept as nat),
{
    let x = chars_of(s);
    if x.len() > max {
        let mut text = String::new();
        push_range(&mut text, &x, 0, kept);
        text.append("...");
        assert(text@ =~= spec_truncated(s@, max as nat, kept as nat));
        text
    } else {
        String::from_str(s)
    }
}

/// A number of hundredths with two decimals.
fn hundredths(value: i32) -> (text: String)
    ensures
        text@ == spec_format_rounded(value as int, 1, 2),
{
    let mut text = String::new();
    push_rounded(&mut text, value as i128, 1, 2);
    assert(text@ =~= spec_format_rounded(value as int, 1, 2));
    text
}

/// A rate with one decimal and a percent sign.
fn percent(rate: i32) -> (text: String)
    ensures
        text@ == spec_percent(rate),
{
    let mut text = String::new();
    push_rounded(&mut text, rate as i128, 10, 1);
    text.append("%");
    assert(text@ =~= spec_percent(rate));
    text
}

/// An amount with two decimals.
fn money(value: i128, unit: u128) -> (text: String)
    requires
        unit > 0,
    ensures
        text@ == spec_format_rounded(value as int, unit as nat, 2),
{
    let mut text = String::new();
    push_rounded(&mut text, value, unit, 2);
    assert(text@ =~= spec_format_rounded(value as int, unit as nat, 2));
    text
}

/// An amount after its label, with two decimals and the currency.
fn amount(label: &str, value: i128, unit: u128, currency: &str) -> (text: String)
    requires
        unit > 0,
    ensures
        text@ == spec_amount(label@, value, unit, currency@),
{
    let mut text = String::from_str(label);
    push_rounded(&mut text, value, unit, 2);
    text.append(" ");
    text.append(currency);
    text
}

/// The line that tells of a discount.
fn discount_text(description: &str, discount: i128, currency: &str) -> (text: String)
    ensures
        text@ == spec_discount_text(description@, discount, currency@),
{
    let short = truncated(description, DISCOUNT_DESCRIPTION_MAX, DISCOUNT_DESCRIPTION_KEPT);
    let mut text = String::from_str("  - Rabais sur ");
    text.append(short.as_str());
    text.append(": -");
    push_rounded(&mut text, discount, HT_STEPS_PER_CENT, 2);
    text.append(" ");
    text.append(currency);
    text
}

/// The line that tells of the tax at one rate.
fn group_text(group: &VatGroup, currency: &str) -> (text: String)
    ensures
        text@ == spec_group_text(*group, currency@),
{
    let mut text = String::from_str("TVA ");
    push_rounded(&mut text, group.rate as i128, 10, 1);
    text.append("% : Base ");
    push_rounded(&mut text, group.base_ht, HT_STEPS_PER_CENT, 2);
    text.append(" ");
    text.append(currency);
    text.append(" - TVA ");
    push_rounded(&mut text, group.vat_amount, TAX_STEPS_PER_CENT, 2);
    text.append(" ");
    text.append(currency);
    text
}

/// The page with the issuer at its head: name, address, SIRET and, where
/// there is one, the VAT number.
pub open spec fn spec_emitter_block(page: PageView, emitter: &EmitterConfig) -> PageView {
    let page1 = spec_line(page, emitter.name@, FontFace::Bold, FONT_SIZE_TITLE, MARGIN_LEFT, 44);
    let page2 = spec_line(
        page1,
        emitter.address@,
        FontFace::Regular,
        FONT_SIZE_NORMAL,
        MARGIN_LEFT,
        LINE_HEIGHT,
    );
    let page3 = spec_line(
        page2,
        "SIRET: "@ + emitter.siret@,
        FontFace::Regular,
        FONT_SIZE_SMALL,
        MARGIN_LEFT,
        LINE_HEIGHT,
    );
    let page4 = if spec_present(emitter.num_tva) {
        spec_line(
            page3,
            "TVA: "@ + emitter.num_tva->0@,
            FontFace::Regular,
            FONT_SIZE_SMALL,
            MARGIN_LEFT,
            LINE_HEIGHT,
        )
    } else {
        page3
    };
    spec_advance(page4, 40)
}

/// The page with the title of the document, its number and its dates.
pub open spec fn spec_title_block(page: PageView, invoice: &InvoiceForm, kind: InvoiceTypeCode)
    -> PageView {
    let page1 = spec_line(page, kind.spec_title(), FontFace::Bold, FONT_SIZE_TITLE, TITLE_X, 52);
    let page2 = spec_text(
        page1,
        "N "@ + invoice.invoice_number@,
        FontFace::Bold,
        FONT_SIZE_HEADER,
        MARGIN_LEFT,
    );
    let page3 = spec_line(
        page2,
        "Date: "@ + spec_format_date_display(invoice.issue_date@),
        FontFace::Regular,
        FONT_SIZE_NORMAL,
        DATES_X,
        LINE_HEIGHT,
    );
    let page4 = if spec_present(invoice.due_date) {
        spec_line(
            page3,
            "Echeance: "@ + spec_format_date_display(invoice.due_date->0@),
            FontFace::Regular,
            FONT_SIZE_NORMAL,
            DATES_X,
            LINE_HEIGHT,
        )
    } else {
        page3
    };
    spec_advance(page4, 40)
}

/// The page with the recipient: name, address where there is one, SIRET,
/// VAT number where there is one, and country.
pub open spec fn spec_recipient_block(page: PageView, invoice: &InvoiceForm) -> PageView {
    let page1 = spec_line(page, "CLIENT"@, FontFace::Bold, FONT_SIZE_HEADER, MARGIN_LEFT, 36);
    let page2 = spec_line(
        page1,
        invoice.recipient_name@,
        FontFace::Regular,
        FONT_SIZE_NORMAL,
        MARGIN_LEFT,
        LINE_HEIGHT,
    );
    let page3 = if invoice.recipient_address@.len() > 0 {
        spec_line(
            page2,
            invoice.recipient_address@,
            FontFace::Regular,
            FONT_SIZE_NORMAL,
            MARGIN_LEFT,
            LINE_HEIGHT,
        )
    } else {
        page2
    };
    let page4 = spec_line(
        page3,
        "SIRET: "@ + invoice.recipient_siret@,
        FontFace::Regular,
        FONT_SIZE_SMALL,
        MARGIN_LEFT,
        LINE_HEIGHT,
    );
    let page5 = if spec_present(invoice.recipient_vat_number) {
        spec_line(
            page4,
            "N TVA: "@ + invoice.recipient_vat_number->0@,
            FontFace::Regular,
            FONT_SIZE_SMALL,
            MARGIN_LEFT,
            LINE_HEIGHT,
        )
    } else {
        page4
    };
    let page6 = spec_line(
        page5,
        "Pays: "@ + invoice.recipient_country_code@,
        FontFace::Regular,
        FONT_SIZE_SMALL,
        MARGIN_LEFT,
        LINE_HEIGHT,
    );
    spec_advance(page6, 60)
}

/// The page with the head of the table: the names of the five columns and
/// a rule below them.
pub open spec fn spec_table_head(page: PageView) -> PageView {
    let page1 = spec_text(page, "Description"@, FontFace::Bold, FONT_SIZE_SMALL, COLUMN_DESCRIPTION);
    let page2 = spec_text(page1, "Qte"@, FontFace::Bold, FONT_SIZE_SMALL, COLUMN_QUANTITY);
    let page3 = spec_text(page2, "PU HT"@, FontFace::Bold, FONT_SIZE_SMALL, COLUMN_UNIT_PRICE);
    let page4 = spec_text(page3, "TVA"@, FontFace::Bold, FONT_SIZE_SMALL, COLUMN_VAT);
    let page5 = spec_text(page4, "Total HT"@, FontFace::Bold, FONT_SIZE_SMALL, COLUMN_TOTAL);
    spec_advance(spec_rule(spec_advance(page5, 8)), LINE_HEIGHT)
}

/// The page with the row of one line: description, quantity, unit price,
/// rate and stored total without tax, and below it the stored discount
/// where it is above zero.
pub open spec fn spec_line_row(page: PageView, line: InvoiceLine, currency: Seq<char>)
    -> PageView {
    let page1 = spec_text(
        page,
        spec_truncated(line.description@, DESCRIPTION_MAX as nat, DESCRIPTION_KEPT as nat),
        FontFace::Regular,
        FONT_SIZE_SMALL,
        COLUMN_DESCRIPTION,
    );
    let page2 = spec_text(
        page1,
        spec_format_rounded(line.quantity as int, 1, 2),
        FontFace::Regular,
        FONT_SIZE_SMALL,
        COLUMN_QUANTITY,
    );
    let page3 = spec_text(
        page2,
        spec_format_rounded(line.unit_price_ht as int, 1, 2),
        FontFace::Regular,
        FONT_SIZE_SMALL,
        COLUMN_UNIT_PRICE,
    );
    let page4 = spec_text(
        page3,
        spec_percent(line.vat_rate),
        FontFace::Regular,
        FONT_SIZE_SMALL,
        COLUMN_VAT,
    );
    let page5 = spec_line(
        page4,
        spec_format_rounded(spec_stored(line.total_ht), HT_STEPS_PER_CENT as nat, 2),
        FontFace::Regular,
        FONT_SIZE_SMALL,
        COLUMN_TOTAL,
        LINE_HEIGHT,
    );
    if line.discount_amount is Some && line.discount_amount->0 > 0 {
        spec_line(
            page5,
            spec_discount_text(line.description@, line.discount_amount->0, currency),
            FontFace::Regular,
            FONT_SIZE_SMALL,
            COLUMN_DESCRIPTION,
            LINE_HEIGHT,
        )
    } else {
        page5
    }
}

/// The page with the rows of the valid lines, in the order of the lines.
pub open spec fn spec_line_rows(page: PageView, lines: Seq<InvoiceLine>, currency: Seq<char>)
    -> PageView
    decreases lines.len(),
{
    if lines.len() == 0 {
        page
    } else {
        let before = spec_line_rows(page, lines.drop_last(), currency);
        if lines.last().spec_is_valid() {
            spec_line_row(before, lines.last(), currency)
        } else {
            before
        }
    }
}

/// Lines that are not valid leave no row on the page, wherever they stand:
/// the rows of an invoice are those of its valid lines alone.
pub proof fn lemma_rows_skip_invalid_lines(
    page: PageView,
    lines: Seq<InvoiceLine>,
    currency: Seq<char>,
)
    ensures
        spec_line_rows(page, lines, currency) == spec_line_rows(
            page,
            lines.filter(|l: InvoiceLine| l.spec_is_valid()),
            currency,
        ),
    decreases lines.len(),
{
    reveal(Seq::filter);
    let valid = |l: InvoiceLine| l.spec_is_valid();
    if lines.len() > 0 {
        lemma_rows_skip_invalid_lines(page, lines.drop_last(), currency);
        if lines.last().spec_is_valid() {
            let kept = lines.drop_last().filter(valid);
            assert(kept.push(lines.last()).drop_last() =~= kept);
        }
    }
}

/// The page with the lines of the groups, in order.
pub open spec fn spec_group_lines(page: PageView, groups: Seq<VatGroup>, currency: Seq<char>)
    -> PageView
    decreases groups.len(),
{
    if groups.len() == 0 {
        page
    } else {
        spec_line(
            spec_group_lines(page, groups.drop_last(), currency),
            spec_group_text(groups.last(), currency),
            FontFace::Regular,
            FONT_SIZE_SMALL,
            VAT_GROUP_X,
            LINE_HEIGHT,
        )
    }
}

/// The page with the rule that ends the table and, where there is any
/// tax, the tax rate by rate under its heading.
pub open spec fn spec_vat_block(page: PageView, groups: Seq<VatGroup>, currency: Seq<char>)
    -> PageView {
    let page1 = spec_advance(spec_rule(spec_advance(page, 16)), 40);
    if groups.len() > 0 {
        let page2 = spec_line(
            page1,
            "Recapitulatif TVA"@,
            FontFace::Bold,
            FONT_SIZE_SMALL,
            MARGIN_LEFT,
            LINE_HEIGHT,
        );
        spec_advance(spec_group_lines(page2, groups, currency), 20)
    } else {
        page1
    }
}

/// The page with the three totals, the last of them in bold.
pub open spec fn spec_totals_block(
    page: PageView,
    totals: (i128, i128, i128),
    currency: Seq<char>,
) -> PageView {
    let page1 = spec_line(
        page,
        spec_amount("Total HT: "@, totals.0, HT_STEPS_PER_CENT, currency),
        FontFace::Regular,
        FONT_SIZE_NORMAL,
        TOTALS_X,
        LINE_HEIGHT,
    );
    let page2 = spec_line(
        page1,
        spec_amount("Total TVA: "@, totals.1, TAX_STEPS_PER_CENT, currency),
        FontFace::Regular,
        FONT_SIZE_NORMAL,
        TOTALS_X,
        36,
    );
    spec_line(
        page2,
        spec_amount("Total TTC: "@, totals.2, TAX_STEPS_PER_CENT, currency),
        FontFace::Bold,
        FONT_SIZE_HEADER,
        TOTALS_X,
        60,
    )
}

/// The page with the terms of payment, where there are any.
pub open spec fn spec_terms_block(page: PageView, invoice: &InvoiceForm) -> PageView {
    if spec_present(invoice.payment_terms) {
        spec_text(
            page,
            "Conditions: "@ + invoice.payment_terms->0@,
            FontFace::Regular,
            FONT_SIZE_SMALL,
            MARGIN_LEFT,
        )
    } else {
        page
    }
}

/// The page with the logo at its head, where there is one, and room below it.
pub open spec fn spec_logo_block(page: PageView, logo: Option<LogoSize>) -> PageView {
    match logo {
        Some(size) => spec_advance(spec_advance(spec_image(page, size), LOGO_HEIGHT), LOGO_GAP),
        None => page,
    }
}

/// The page of an invoice of the kind `kind`, with `groups` as the tax of
/// each rate, before the caption at its foot: the logo, the issuer, the
/// title, the recipient, the table of the lines, the tax, the totals and
/// the terms of payment, from the top margin down.
pub open spec fn spec_page(
    invoice: &InvoiceForm,
    emitter: &EmitterConfig,
    totals: (i128, i128, i128),
    logo: Option<LogoSize>,
    kind: InvoiceTypeCode,
    groups: Seq<VatGroup>,
) -> PageView {
    let currency = invoice.currency_code@;
    let head = spec_recipient_block(
        spec_title_block(
            spec_emitter_block(spec_logo_block(spec_blank_page(), logo), emitter),
            invoice,
            kind,
        ),
        invoice,
    );
    let table = spec_line_rows(spec_table_head(head), invoice.lines@, currency);
    spec_terms_block(
        spec_totals_block(spec_vat_block(table, groups, currency), totals, currency),
        invoice,
    )
}

/// The caption at the foot of every page.
pub open spec fn spec_footer() -> DrawOpView {
    DrawOpView::Text {
        text: FOOTER_CAPTION@,
        font: FontFace::Regular,
        size: FONT_SIZE_SMALL,
        x: MARGIN_LEFT,
        y: FOOTER_Y,
    }
}

/// Whether an optional text is there and not empty.
fn present(field: &Option<String>) -> (r: bool)
    ensures
        r == spec_present(*field),
{
    match field {
        Some(text) => text.as_str().unicode_len() > 0,
        None => false,
    }
}

/// Draws the issuer.
fn draw_emitter_block(page: &mut Page, emitter: &EmitterConfig)
    requires
        old(page).wf(),
    ensures
        final(page).wf(),
        final(page)@ == spec_emitter_block(old(page)@, emitter),
{
    page.line(String::from_str(emitter.name.as_str()), FontFace::Bold, FONT_SIZE_TITLE, MARGIN_LEFT, 44);
    page.line(
        String::from_str(emitter.address.as_str()),
        FontFace::Regular,
        FONT_SIZE_NORMAL,
        MARGIN_LEFT,
        LINE_HEIGHT,
    );
    page.line(
        labelled("SIRET: ", emitter.siret.as_str()),
        FontFace::Regular,
        FONT_SIZE_SMALL,
        MARGIN_LEFT,
        LINE_HEIGHT,
    );
    if present(&emitter.num_tva) {
        match &emitter.num_tva {
            Some(number) => {
                page.line(
                    labelled("TVA: ", number.as_str()),
                    FontFace::Regular,
                    FONT_SIZE_SMALL,
                    MARGIN_LEFT,
                    LINE_HEIGHT,
                );
            },
            None => {},
        }
    }
    page.advance(40);
}

/// Draws the title, the number and the dates.
fn draw_title_block(page: &mut Page, invoice: &InvoiceForm, kind: InvoiceTypeCode)
    requires
        old(page).wf(),
    ensures
        final(page).wf(),
        final(page)@ == spec_title_block(old(page)@, invoice, kind),
{
    page.line(String::from_str(kind.title()), FontFace::Bold, FONT_SIZE_TITLE, TITLE_X, 52);
    page.text(
        labelled("N ", invoice.invoice_number.as_str()),
        FontFace::Bold,
        FONT_SIZE_HEADER,
        MARGIN_LEFT,
    );
    let issued = format_date_display(invoice.issue_date.as_str());
    page.line(
        labelled("Date: ", issued.as_str()),
        FontFace::Regular,
        FONT_SIZE_NORMAL,
        DATES_X,
        LINE_HEIGHT,
    );
    if present(&invoice.due_date) {
        match &invoice.due_date {
            Some(date) => {
                let due = format_date_display(date.as_str());
                page.line(
                    labelled("Echeance: ", due.as_str()),
                    FontFace::Regular,
                    FONT_SIZE_NORMAL,
                    DATES_X,
                    LINE_HEIGHT,
                );
            },
            None => {},
        }
    }
    page.advance(40);
}

/// Draws the recipient.
fn draw_recipient_block(page: &mut Page, invoice: &InvoiceForm)
    requires
        old(page).wf(),
    ensures
        final(page).wf(),
        final(page)@ == spec_recipient_block(old(page)@, invoice),
{
    page.line(String::from_str("CLIENT"), FontFace::Bold, FONT_SIZE_HEADER, MARGIN_LEFT, 36);
    page.line(
        String::from_str(invoice.recipient_name.as_str()),
        FontFace::Regular,
        FONT_SIZE_NORMAL,
        MARGIN_LEFT,
        LINE_HEIGHT,
    );
    if invoice.recipient_address.as_str().unicode_len() > 0 {
        page.line(
            String::from_str(invoice.recipient_address.as_str()),
            FontFace::Regular,
            FONT_SIZE_NORMAL,
            MARGIN_LEFT,
            LINE_HEIGHT,
        );
    }
    page.line(
        labelled("SIRET: ", invoice.recipient_siret.as_str()),
        FontFace::Regular,
        FONT_SIZE_SMALL,
        MARGIN_LEFT,
        LINE_HEIGHT,
    );
    if present(&invoice.recipient_vat_number) {
        match &invoice.recipient_vat_number {
            Some(number) => {
                page.line(
                    labelled("N TVA: ", number.as_str()),
                    FontFace::Regular,
                    FONT_SIZE_SMALL,
                    MARGIN_LEFT,
                    LINE_HEIGHT,
                );
            },
            None => {},
        }
    }
    page.line(
        labelled("Pays: ", invoice.recipient_country_code.as_str()),
        FontFace::Regular,
        FONT_SIZE_SMALL,
        MARGIN_LEFT,
        LINE_HEIGHT,
    );
    page.advance(60);
}

/// Draws the head of the table.
fn draw_table_head(page: &mut Page)
    requires
        old(page).wf(),
    ensures
        final(page).wf(),
        final(page)@ == spec_table_head(old(page)@),
{
    page.text(String::from_str("Description"), FontFace::Bold, FONT_SIZE_SMALL, COLUMN_DESCRIPTION);
    page.text(String::from_str("Qte"), FontFace::Bold, FONT_SIZE_SMALL, COLUMN_QUANTITY);
    page.text(String::from_str("PU HT"), FontFace::Bold, FONT_SIZE_SMALL, COLUMN_UNIT_PRICE);
    page.text(String::from_str("TVA"), FontFace::Bold, FONT_SIZE_SMALL, COLUMN_VAT);
    page.text(String::from_str("Total HT"), FontFace::Bold, FONT_SIZE_SMALL, COLUMN_TOTAL);
    page.advance(8);
    page.rule();
    page.advance(LINE_HEIGHT);
}

/// Draws the row of one line.
fn draw_line_row(page: &mut Page, line: &InvoiceLine, currency: &str)
    requires
        old(page).wf(),
    ensures
        final(page).wf(),
        final(page)@ == spec_line_row(old(page)@, *line, currency@),
{
    page.text(
        truncated(line.description.as_str(), DESCRIPTION_MAX, DESCRIPTION_KEPT),
        FontFace::Regular,
        FONT_SIZE_SMALL,
        COLUMN_DESCRIPTION,
    );
    page.text(hundredths(line.quantity), FontFace::Regular, FONT_SIZE_SMALL, COLUMN_QUANTITY);
    page.text(
        hundredths(line.unit_price_ht),
        FontFace::Regular,
        FONT_SIZE_SMALL,
        COLUMN_UNIT_PRICE,
    );
    page.text(percent(line.vat_rate), FontFace::Regular, FONT_SIZE_SMALL, COLUMN_VAT);
    page.line(
        money(line.total_ht_value(), HT_STEPS_PER_CENT),
        FontFace::Regular,
        FONT_SIZE_SMALL,
        COLUMN_TOTAL,
        LINE_HEIGHT,
    );
    match line.discount_amount {
        Some(discount) => {
            if discount > 0 {
                page.line(
                    discount_text(line.description.as_str(), discount, currency),
                    FontFace::Regular,
                    FONT_SIZE_SMALL,
                    COLUMN_DESCRIPTION,
                    LINE_HEIGHT,
                );
            }
        },
        None => {},
    }
}

/// Draws the rows of the valid lines.
fn draw_line_rows(page: &mut Page, lines: &Vec<InvoiceLine>, currency: &str)
    requires
        old(page).wf(),
    ensures
        final(page).wf(),
        final(page)@ == spec_line_rows(old(page)@, lines@, currency@),
{
    let mut i: usize = 0;
    assert(lines@.take(0) =~= Seq::<InvoiceLine>::empty());
    while i < lines.len()
        invariant
            i <= lines.len(),
            page.wf(),
            page@ == spec_line_rows(old(page)@, lines@.take(i as int), currency@),
        decreases lines.len() - i,
    {
        proof {
            assert(lines@.take(i + 1).drop_last() =~= lines@.take(i as int));
        }
        if lines[i].is_valid() {
            draw_line_row(page, &lines[i], currency);
        }
        i += 1;
    }
    assert(lines@.take(lines@.len() as int) =~= lines@);
}

/// Draws the lines of the groups.
fn draw_group_lines(page: &mut Page, groups: &Vec<VatGroup>, currency: &str)
    requires
        old(page).wf(),
    ensures
        final(page).wf(),
        final(page)@ == spec_group_lines(old(page)@, groups@, currency@),
{
    let mut i: usize = 0;
    assert(groups@.take(0) =~= Seq::<VatGroup>::empty());
    while i < groups.len()
        invariant
            i <= groups.len(),
            page.wf(),
            page@ == spec_group_lines(old(page)@, groups@.take(i as int), currency@),
        decreases groups.len() - i,
    {
        proof {
            assert(groups@.take(i + 1).drop_last() =~= groups@.take(i as int));
        }
        page.line(
            group_text(&groups[i], currency),
            FontFace::Regular,
            FONT_SIZE_SMALL,
            VAT_GROUP_X,
            LINE_HEIGHT,
        );
        i += 1;
    }
    assert(groups@.take(groups@.len() as int) =~= groups@);
}

/// Draws the rule that ends the table, and the tax rate by rate.
fn draw_vat_block(page: &mut Page, groups: &Vec<VatGroup>, currency: &str)
    requires
        old(page).wf(),
    ensures
        final(page).wf(),
        final(page)@ == spec_vat_block(old(page)@, groups@, currency@),
{
    page.advance(16);
    page.rule();
    page.advance(40);
    if groups.len() > 0 {
        page.line(
            String::from_str("Recapitulatif TVA"),
            FontFace::Bold,
            FONT_SIZE_SMALL,
            MARGIN_LEFT,
            LINE_HEIGHT,
        );
        draw_group_lines(page, groups, currency);
        page.advance(20);
    }
}

/// Draws the three totals.
fn draw_totals_block(page: &mut Page, totals: (i128, i128, i128), currency: &str)
    requires
        old(page).wf(),
    ensures
        final(page).wf(),
        final(page)@ == spec_totals_block(old(page)@, totals, currency@),
{
    page.line(
        amount("Total HT: ", totals.0, HT_STEPS_PER_CENT, currency),
        FontFace::Regular,
        FONT_SIZE_NORMAL,
        TOTALS_X,
        LINE_HEIGHT,
    );
    page.line(
        amount("Total TVA: ", totals.1, TAX_STEPS_PER_CENT, currency),
        FontFace::Regular,
        FONT_SIZE_NORMAL,
        TOTALS_X,
        36,
    );
    page.line(
        amount("Total TTC: ", totals.2, TAX_STEPS_PER_CENT, currency),
        FontFace::Bold,
        FONT_SIZE_HEADER,
        TOTALS_X,
        60,
    );
}

/// Draws the terms of payment.
fn draw_terms_block(page: &mut Page, invoice: &InvoiceForm)
    requires
        old(page).wf(),
    ensures
        final(page).wf(),
        final(page)@ == spec_terms_block(old(page)@, invoice),
{
    if present(&invoice.payment_terms) {
        match &invoice.payment_terms {
            Some(terms) => {
                page.text(
                    labelled("Conditions: ", terms.as_str()),
                    FontFace::Regular,
                    FONT_SIZE_SMALL,
                    MARGIN_LEFT,
                );
            },
            None => {},
        }
    }
}

/// Why no page could be laid out.
#[derive(Debug, Clone, Copy, PartialEq, Eq, Structural)]
pub enum LayoutError {
    /// The number of the kind of document names no kind.
    UnknownTypeCode(u16),
    /// The amounts taxed at one rate add up to too large a number.
    AmountsTooLarge,
    /// The content runs past the foot of the page.
    PageOverflow,
    /// The logo has no height, or scaled to the page it has no width or is
    /// wider than the page between its margins.
    LogoSize,
}

pub const MSG_LAYOUT_TYPE_CODE: &'static str = "Type de document invalide: ";

pub const MSG_LAYOUT_AMOUNTS: &'static str = "Montants trop grands pour le recapitulatif TVA";

pub const MSG_LAYOUT_OVERFLOW: &'static str = "La facture ne tient pas sur une page";

pub const MSG_LAYOUT_LOGO: &'static str = "Dimensions du logo invalides";

impl LayoutError {
    /// What the error says, as text.
    pub open spec fn spec_message(&self) -> Seq<char> {
        match self {
            LayoutError::UnknownTypeCode(code) => MSG_LAYOUT_TYPE_CODE@ + spec_decimal(
                *code as nat,
            ),
            LayoutError::AmountsTooLarge => MSG_LAYOUT_AMOUNTS@,
            LayoutError::PageOverflow => MSG_LAYOUT_OVERFLOW@,
            LayoutError::LogoSize => MSG_LAYOUT_LOGO@,
        }
    }

    /// What the error says.
    pub fn message(&self) -> (m: String)
        ensures
            m@ == self.spec_message(),
    {
        match self {
            LayoutError::UnknownTypeCode(code) => {
                let mut m = String::from_str(MSG_LAYOUT_TYPE_CODE);
                push_decimal(&mut m, *code as u128);
                m
            },
            LayoutError::AmountsTooLarge => String::from_str(MSG_LAYOUT_AMOUNTS),
            LayoutError::PageOverflow => String::from_str(MSG_LAYOUT_OVERFLOW),
            LayoutError::LogoSize => String::from_str(MSG_LAYOUT_LOGO),
        }
    }
}

/// What becomes of an invoice in the layout: an invoice of an unknown
/// kind is refused, then one with a logo that cannot be put on the page,
/// then one whose amounts are too large to add up rate by rate, then one
/// whose content runs past the foot of the page.  Of any other the page
/// is laid out, the caption at its foot drawn last.
pub open spec fn spec_layout_outcome(
    invoice: &InvoiceForm,
    emitter: &EmitterConfig,
    totals: (i128, i128, i128),
    logo: Option<LogoSize>,
) -> Result<Seq<DrawOpView>, LayoutError> {
    match InvoiceTypeCode::spec_from_code(invoice.type_code) {
        None => Err(LayoutError::UnknownTypeCode(invoice.type_code)),
        Some(kind) => if logo is Some && !spec_logo_fits(logo->0) {
            Err(LayoutError::LogoSize)
        } else {
            match spec_vat_breakdown(invoice.lines@) {
                None => Err(LayoutError::AmountsTooLarge),
                Some(groups) => {
                    let page = spec_page(invoice, emitter, totals, logo, kind, groups);
                    if page.overflowed {
                        Err(LayoutError::PageOverflow)
                    } else {
                        Ok(page.ops.push(spec_footer()))
                    }
                },
            }
        },
    }
}

/// What the layout returned, its texts as sequences of characters.
pub open spec fn layout_result_view(r: Result<Vec<DrawOp>, LayoutError>) -> Result<
    Seq<DrawOpView>,
    LayoutError,
> {
    match r {
        Ok(ops) => Ok(ops_view(ops@)),
        Err(e) => Err(e),
    }
}

/// Two invoices that differ only in lines that are not valid give the same
/// page, or the same refusal.
pub proof fn lemma_layout_skips_invalid_lines(
    first: &InvoiceForm,
    second: &InvoiceForm,
    emitter: &EmitterConfig,
    totals: (i128, i128, i128),
    logo: Option<LogoSize>,
)
    requires
        *first == (InvoiceForm { lines: first.lines, ..*second }),
        first.lines@.filter(|l: InvoiceLine| l.spec_is_valid()) == second.lines@.filter(
            |l: InvoiceLine| l.spec_is_valid(),
        ),
    ensures
        spec_layout_outcome(first, emitter, totals, logo) == spec_layout_outcome(
            second,
            emitter,
            totals,
            logo,
        ),
{
    lemma_breakdown_skips_invalid_lines(first.lines@);
    lemma_breakdown_skips_invalid_lines(second.lines@);
    if InvoiceTypeCode::spec_from_code(first.type_code) is Some && spec_vat_breakdown(
        first.lines@,
    ) is Some {
        let kind = InvoiceTypeCode::spec_from_code(first.type_code)->0;
        let head = spec_recipient_block(
            spec_title_block(
                spec_emitter_block(spec_logo_block(spec_blank_page(), logo), emitter),
                first,
                kind,
            ),
            first,
        );
        lemma_rows_skip_invalid_lines(spec_table_head(head), first.lines@, first.currency_code@);
        lemma_rows_skip_invalid_lines(spec_table_head(head), second.lines@, first.currency_code@);
    }
}

/// The same invoice, issuer, totals and logo give the same page, or the
/// same refusal, every time.
pub proof fn lemma_layout_is_determined(
    invoice: &InvoiceForm,
    emitter: &EmitterConfig,
    totals: (i128, i128, i128),
    logo: Option<LogoSize>,
    first: Result<Vec<DrawOp>, LayoutError>,
    second: Result<Vec<DrawOp>, LayoutError>,
)
    requires
        layout_result_view(first) == spec_layout_outcome(invoice, emitter, totals, logo),
        layout_result_view(second) == spec_layout_outcome(invoice, emitter, totals, logo),
    ensures
        layout_result_view(first) == layout_result_view(second),
{
}

/// Lays out the page of `invoice`: what is drawn where, in the order in
/// which it is drawn, the caption at the foot of the page last.  `totals`
/// are the totals as `InvoiceForm::compute_totals` returns them, `logo`
/// the size in pixels of the logo to put at the head of the page.
///
/// An invoice whose kind is unknown is refused, and so is one whose
/// content does not fit on one page.  On the page that is returned,
/// everything but the caption begins above the bottom margin, and nothing
/// is drawn higher than what was drawn before it.
pub fn layout_invoice(
    invoice: &InvoiceForm,
    emitter: &EmitterConfig,
    totals: (i128, i128, i128),
    logo: Option<LogoSize>,
) -> (r: Result<Vec<DrawOp>, LayoutError>)
    ensures
        layout_result_view(r) == spec_layout_outcome(invoice, emitter, totals, logo),
        r is Ok ==> forall|i: int|
            0 <= i < r->Ok_0@.len() - 1 ==> spec_op_y(#[trigger] r->Ok_0@[i]@) <= CURSOR_LIMIT,
        r is Ok ==> forall|i: int, j: int|
            0 <= i <= j < r->Ok_0@.len() ==> spec_op_y(#[trigger] r->Ok_0@[i]@) <= spec_op_y(
                #[trigger] r->Ok_0@[j]@,
            ),
{
    let kind = match InvoiceTypeCode::from_code(invoice.type_code) {
        Some(kind) => kind,
        None => {
            return Err(LayoutError::UnknownTypeCode(invoice.type_code));
        },
    };
    match logo {
        Some(size) => {
            if !logo_fits(size) {
                return Err(LayoutError::LogoSize);
            }
        },
        None => {},
    }
    let groups = match calculate_vat_breakdown(invoice) {
        Some(groups) => groups,
        None => {
            return Err(LayoutError::AmountsTooLarge);
        },
    };
    let currency = invoice.currency_code.as_str();
    let mut page = Page::new();
    match logo {
        Some(size) => {
            page.image(size);
            page.advance(LOGO_HEIGHT);
            page.advance(LOGO_GAP);
        },
        None => {},
    }
    draw_emitter_block(&mut page, emitter);
    draw_title_block(&mut page, invoice, kind);
    draw_recipient_block(&mut page, invoice);
    draw_table_head(&mut page);
    draw_line_rows(&mut page, &invoice.lines, currency);
    draw_vat_block(&mut page, &groups, currency);
    draw_totals_block(&mut page, totals, currency);
    draw_terms_block(&mut page, invoice);
    if page.overflowed {
        return Err(LayoutError::PageOverflow);
    }
    let ghost drawn = page@.ops;
    let mut ops = page.ops;
    ops.push(
        DrawOp::Text {
            text: String::from_str(FOOTER_CAPTION),
            font: FontFace::Regular,
            size: FONT_SIZE_SMALL,
            x: MARGIN_LEFT,
            y: FOOTER_Y,
        },
    );
    proof {
        assert(ops_view(ops@) =~= drawn.push(spec_footer()));
        assert forall|i: int| 0 <= i < ops@.len() - 1 implies spec_op_y(#[trigger] ops@[i]@)
            <= CURSOR_LIMIT by {
            assert(ops@[i]@ == drawn[i]);
        }
        assert forall|i: int, j: int| 0 <= i <= j < ops@.len() implies spec_op_y(
            #[trigger] ops@[i]@,
        ) <= spec_op_y(#[trigger] ops@[j]@) by {
            if i < ops@.len() - 1 {
                assert(ops@[i]@ == drawn[i]);
            }
            if j < ops@.len() - 1 {
                assert(ops@[j]@ == drawn[j]);
            }
        }
    }
    Ok(ops)
}

/// The MIME type under which the XML is embedded.
pub const XML_MIME_TYPE: &'static str = "text/xml";

/// What the embedded file is said to be.
pub const XML_DESCRIPTION: &'static str = "Factur-X XML invoice data";

/// How an embedded file is related to the document that holds it.
#[derive(Debug, Clone, Copy, PartialEq, Eq, Structural)]
pub enum AssociationKind {
    /// The file holds the data that the document shows.
    Data,
}

/// The file to embed in the PDF and to list among its associated files.
#[derive(Debug, Clone)]
pub struct EmbeddedXml {
    pub path: String,
    pub mime_type: String,
    pub description: String,
    pub association_kind: AssociationKind,
    pub data: Vec<u8>,
    /// Whether the file is to be compressed in the PDF.
    pub compress: bool,
}

/// The XML of an invoice as the file to embed: under the standard name,
/// as `text/xml`, related to the document as its data, its content the
/// bytes of `xml` and nothing else, to be compressed.
pub fn embedded_xml(xml: &str) -> (file: EmbeddedXml)
    ensures
        file.path@ == STANDARD_XML_FILENAME@,
        file.mime_type@ == XML_MIME_TYPE@,
        file.description@ == XML_DESCRIPTION@,
        file.association_kind == AssociationKind::Data,
        file.data@ == xml.spec_bytes(),
        file.compress,
{
    EmbeddedXml {
        path: String::from_str(STANDARD_XML_FILENAME),
        mime_type: String::from_str(XML_MIME_TYPE),
        description: String::from_str(XML_DESCRIPTION),
        association_kind: AssociationKind::Data,
        data: vstd::slice::slice_to_vec(xml.as_bytes()),
        compress: true,
    }
}

/// The metadata of the PDF of an invoice of the kind `kind`: the kind and
/// the number as its title, the issuer as its author, the MINIMUM profile.
pub fn invoice_xmp_metadata(invoice: &InvoiceForm, emitter: &EmitterConfig, kind: InvoiceTypeCode)
    -> (metadata: XmpMetadata)
    ensures
        metadata.title@ == kind.spec_label() + " "@ + invoice.invoice_number@,
        metadata.author@ == emitter.name@,
        metadata.subject@ == kind.spec_label() + " Factur-X pour "@ + invoice.recipient_name@,
        metadata.profile == FacturXProfile::Minimum,
        metadata.xml_filename@ == STANDARD_XML_FILENAME@,
        metadata.facturx_version@ == DEFAULT_VERSION@,
{
    let mut title = String::from_str(kind.label());
    title.append(" ");
    title.append(invoice.invoice_number.as_str());
    let mut subject = String::from_str(kind.label());
    subject.append(" Factur-X pour ");
    subject.append(invoice.recipient_name.as_str());
    XmpMetadata {
        title,
        author: String::from_str(emitter.name.as_str()),
        subject,
        profile: FacturXProfile::Minimum,
        xml_filename: String::from_str(STANDARD_XML_FILENAME),
        facturx_version: String::from_str(DEFAULT_VERSION),
    }
}

/// All that goes into the PDF of an invoice: what is drawn on its page,
/// the file embedded in it, and its metadata.
#[derive(Debug, Clone)]
pub struct PdfPlan {
    pub ops: Vec<DrawOp>,
    pub embedded: EmbeddedXml,
    pub metadata: XmpMetadata,
}

/// Plans the PDF of `invoice`: lays out its page as `layout_invoice` does,
/// takes `xml_content` as the file to embed, and sets up the metadata.
/// It fails where, and as, `layout_invoice` fails.
pub fn plan_invoice_pdf(
    invoice: &InvoiceForm,
    emitter: &EmitterConfig,
    totals: (i128, i128, i128),
    xml_content: &str,
    logo: Option<LogoSize>,
) -> (r: Result<PdfPlan, LayoutError>)
    ensures
        match r {
            Ok(plan) => {
                &&& spec_layout_outcome(invoice, emitter, totals, logo) == Ok::<
                    Seq<DrawOpView>,
                    LayoutError,
                >(ops_view(plan.ops@))
                &&& plan.embedded.path@ == STANDARD_XML_FILENAME@
                &&& plan.embedded.mime_type@ == XML_MIME_TYPE@
                &&& plan.embedded.description@ == XML_DESCRIPTION@
                &&& plan.embedded.association_kind == AssociationKind::Data
                &&& plan.embedded.data@ == xml_content.spec_bytes()
                &&& plan.embedded.compress
                &&& plan.metadata.title@ == InvoiceTypeCode::spec_from_code(
                    invoice.type_code,
                )->0.spec_label() + " "@ + invoice.invoice_number@
                &&& plan.metadata.author@ == emitter.name@
                &&& plan.metadata.subject@ == InvoiceTypeCode::spec_from_code(
                    invoice.type_code,
                )->0.spec_label() + " Factur-X pour "@ + invoice.recipient_name@
                &&& plan.metadata.profile == FacturXProfile::Minimum
                &&& plan.metadata.xml_filename@ == STANDARD_XML_FILENAME@
                &&& plan.metadata.facturx_version@ == DEFAULT_VERSION@
            },
            Err(e) => spec_layout_outcome(invoice, emitter, totals, logo) == Err::<
                Seq<DrawOpView>,
                LayoutError,
            >(e),
        },
{
    let ops = match layout_invoice(invoice, emitter, totals, logo) {
        Ok(ops) => ops,
        Err(e) => {
            return Err(e);
        },
    };
    match InvoiceTypeCode::from_code(invoice.type_code) {
        Some(kind) => Ok(
            PdfPlan {
                ops,
                embedded: embedded_xml(xml_content),
                metadata: invoice_xmp_metadata(invoice, emitter, kind),
            },
        ),
        None => Err(LayoutError::UnknownTypeCode(invoice.type_code)),
    }
}

/// Why the PDF of an invoice could not be finished.
#[derive(Debug)]
pub enum CompletionError {
    /// The file could not be embedded, or the document not written.
    Document(DocumentError),
    /// The metadata cannot go into a packet.
    Metadata(XmpError),
    /// The packet could not be put into the PDF.
    Container(ContainerError),
}

pub const MSG_XMP_GENERATION: &'static str = "Erreur generation XMP: ";

pub const MSG_XMP_REPLACEMENT: &'static str = "Erreur remplacement XMP: ";

impl CompletionError {
    /// What the error says, as text.
    pub open spec fn spec_message(&self) -> Seq<char> {
        match self {
            CompletionError::Document(e) => e.spec_message(),
            CompletionError::Metadata(e) => MSG_XMP_GENERATION@ + e.spec_message(),
            CompletionError::Container(e) => MSG_XMP_REPLACEMENT@ + e.spec_message(),
        }
    }

    /// What the error says.
    pub fn message(&self) -> (m: String)
        ensures
            m@ == self.spec_message(),
    {
        match self {
            CompletionError::Document(e) => e.message(),
            CompletionError::Metadata(e) => {
                let mut m = String::from_str(MSG_XMP_GENERATION);
                m.append(e.message().as_str());
                m
            },
            CompletionError::Container(e) => {
                let mut m = String::from_str(MSG_XMP_REPLACEMENT);
                m.append(e.message().as_str());
                m
            },
        }
    }
}

/// What putting the packet `xmp` into the PDF `baseline` comes to, as
/// `spec_xmp_replaced` has it, an error of the container handed on as it
/// is.
pub open spec fn spec_packet_put(baseline: Seq<u8>, xmp: Seq<u8>, r: Result<
    Vec<u8>,
    CompletionError,
>) -> bool {
    match r {
        Ok(bytes) => spec_xmp_replaced(baseline, xmp, Ok::<Vec<u8>, ContainerError>(bytes)),
        Err(CompletionError::Container(e)) => spec_xmp_replaced(
            baseline,
            xmp,
            Err::<Vec<u8>, ContainerError>(e),
        ),
        Err(_) => false,
    }
}

/// What completing the PDF `baseline` with `metadata` comes to.  Metadata
/// that is not valid is refused with all its errors.  Of any other the
/// packet is written, stamped with one moment, and its bytes are put into
/// the PDF.
pub open spec fn spec_completed(baseline: Seq<u8>, metadata: &XmpMetadata, r: Result<
    Vec<u8>,
    CompletionError,
>) -> bool {
    if spec_xmp_errors(metadata).len() > 0 {
        r is Err && r->Err_0 is Metadata && xmp_errors_view(r->Err_0->Metadata_0.errors@)
            == spec_xmp_errors(metadata)
    } else {
        exists|stamp: Seq<char>|
            spec_is_timestamp(stamp) && #[trigger] spec_packet_put(
                baseline,
                encode_utf8(spec_xmp_packet(metadata, stamp)),
                r,
            )
    }
}

/// Completes the PDF `baseline`, written from a plan: writes the XMP packet
/// of `metadata`, stamped with the present time, and puts it in place of
/// the metadata stream of the PDF.  Metadata that is not valid is refused
/// before the PDF is looked at.  `baseline` is a PDF as the PDF writer
/// returns one.
pub fn complete_invoice_pdf(baseline: &[u8], metadata: &XmpMetadata) -> (r: Result<
    Vec<u8>,
    CompletionError,
>)
    requires
        spec_written_pdf(baseline@),
    ensures
        spec_completed(baseline@, metadata, r),
{
    let generated = generate_xmp_metadata(metadata);
    let ghost stamp = choose|stamp: Seq<char>|
        spec_is_timestamp(stamp) && xmp_result_view(generated) == #[trigger] spec_xmp_outcome(
            metadata,
            stamp,
        );
    let xmp = match generated {
        Ok(xmp) => xmp,
        Err(e) => {
            return Err(CompletionError::Metadata(e));
        },
    };
    let r = match replace_xmp_metadata(baseline, xmp.as_str().as_bytes()) {
        Ok(pdf) => Ok(pdf),
        Err(e) => Err(CompletionError::Container(e)),
    };
    assert(spec_packet_put(baseline@, encode_utf8(spec_xmp_packet(metadata, stamp)), r));
    r
}

/// What writing the document `filled` and completing what was written
/// comes to: the error of a document that the PDF writer does not write,
/// or else what completing its bytes comes to.
pub open spec fn spec_written_and_completed(
    filled: krilla::Document,
    metadata: &XmpMetadata,
    r: Result<Vec<u8>, CompletionError>,
) -> bool {
    match krilla_finish(filled) {
        FinishView::Written(bytes) => spec_completed(bytes, metadata, r),
        other => r is Err && r->Err_0 is Document && Err::<Seq<u8>, _>(r->Err_0->Document_0@)
            == spec_write_outcome(other),
    }
}

/// What finishing the PDF of an invoice comes to.  A file that cannot be
/// embedded is refused, as `spec_embed_outcome` says.  Else some document
/// holds the file besides what `document` held; it is written, and what
/// was written is completed.
pub open spec fn spec_finished(
    document: krilla::Document,
    embedded: EmbeddedXml,
    metadata: &XmpMetadata,
    r: Result<Vec<u8>, CompletionError>,
) -> bool {
    match spec_embed_outcome(embedded_names(document), embedded) {
        Err(e) => r is Err && r->Err_0 is Document && r->Err_0->Document_0@ == e,
        Ok(_) => exists|filled: krilla::Document|
            embedded_names(filled) == embedded_names(document).insert(embedded.path@)
                && #[trigger] spec_written_and_completed(filled, metadata, r),
    }
}

/// Finishes the PDF of an invoice once its page is drawn on `document`:
/// embeds `embedded`, last changed at the present time, writes the
/// document, and completes what was written as `complete_invoice_pdf`
/// does.  The first step that fails ends the work, and its error is
/// returned.
pub fn finish_invoice_pdf(
    document: krilla::Document,
    embedded: EmbeddedXml,
    metadata: &XmpMetadata,
) -> (r: Result<Vec<u8>, CompletionError>)
    ensures
        spec_finished(document, embedded, metadata, r),
{
    let mut document = document;
    let date = modification_date(current_timestamp().as_str());
    match embed_invoice_xml(&mut document, embedded, date) {
        Ok(()) => {},
        Err(e) => {
            return Err(CompletionError::Document(e));
        },
    }
    let ghost filled = document;
    let r = match write_document(document) {
        Ok(baseline) => complete_invoice_pdf(baseline.as_slice(), metadata),
        Err(e) => Err(CompletionError::Document(e)),
    };
    assert(spec_written_and_completed(filled, metadata, r));
    r
}

} // verus!
