//! Character-level helpers shared by the validators and the renderers.
//!
//! Every function is stated over the `Seq<char>` view of its arguments, so
//! that the contracts of the callers can speak of text as plain sequences.

use vstd::prelude::*;

verus! {

/// `String::push` appends one character to the end of the string.
pub assume_specification[ String::push ](s: &mut String, c: char)
    ensures
        final(s)@ == old(s)@.push(c),
;

/// The characters of `s`, in order.
pub fn chars_of(s: &str) -> (out: Vec<char>)
    ensures
        out@ == s@,
{
    let mut out: Vec<char> = Vec::new();
    for c in it: s.chars()
        invariant
            out@ == it.seq().take(it.index() as int),
    {
        out.push(c);
    }
    out
}

/// The string made of `chars`, in order.
pub fn string_of(chars: &Vec<char>) -> (s: String)
    ensures
        s@ == chars@,
{
    let mut s = String::new();
    let mut i: usize = 0;
    while i < chars.len()
        invariant
            i <= chars.len(),
            s@ == chars@.take(i as int),
        decreases chars.len() - i,
    {
        s.push(chars[i]);
        i += 1;
    }
    s
}

/// Whether two strings hold the same characters.
pub fn str_equals(a: &str, b: &str) -> (r: bool)
    ensures
        r == (a@ == b@),
{
    let x = chars_of(a);
    let y = chars_of(b);
    if x.len() != y.len() {
        return false;
    }
    let mut i: usize = 0;
    while i < x.len()
        invariant
            i <= x.len(),
            x.len() == y.len(),
            x@ == a@,
            y@ == b@,
            forall|k: int| 0 <= k < i ==> x@[k] == y@[k],
        decreases x.len() - i,
    {
        if x[i] != y[i] {
            return false;
        }
        i += 1;
    }
    assert(a@ =~= b@);
    true
}

/// `s` ends with the characters of `suffix`.
pub open spec fn spec_ends_with(s: Seq<char>, suffix: Seq<char>) -> bool {
    suffix.len() <= s.len() && s.subrange(s.len() - suffix.len(), s.len() as int) == suffix
}

/// Whether `s` ends with `suffix`.
pub fn ends_with(s: &str, suffix: &str) -> (r: bool)
    ensures
        r == spec_ends_with(s@, suffix@),
{
    let x = chars_of(s);
    let y = chars_of(suffix);
    if y.len() > x.len() {
        return false;
    }
    let start: usize = x.len() - y.len();
    let mut i: usize = 0;
    while i < y.len()
        invariant
            i <= y.len(),
            start + y.len() == x.len(),
            x@ == s@,
            y@ == suffix@,
            forall|k: int| 0 <= k < i ==> x@[start + k] == y@[k],
        decreases y.len() - i,
    {
        if x[start + i] != y[i] {
            assert(s@.subrange(s@.len() - suffix@.len(), s@.len() as int)[i as int] == x@[start
                + i]);
            return false;
        }
        i += 1;
    }
    assert(s@.subrange(s@.len() - suffix@.len(), s@.len() as int) =~= suffix@);
    true
}

/// The code points with the Unicode property `White_Space`.
pub open spec fn spec_is_whitespace(c: char) -> bool {
    let u = c as u32;
    ||| 0x09 <= u <= 0x0D
    ||| u == 0x20
    ||| u == 0x85
    ||| u == 0xA0
    ||| u == 0x1680
    ||| 0x2000 <= u <= 0x200A
    ||| u == 0x2028
    ||| u == 0x2029
    ||| u == 0x202F
    ||| u == 0x205F
    ||| u == 0x3000
}

/// Whether `c` is a white-space character.
pub fn is_whitespace(c: char) -> (r: bool)
    ensures
        r == spec_is_whitespace(c),
{
    let u: u32 = c as u32;
    (0x09 <= u && u <= 0x0D) || u == 0x20 || u == 0x85 || u == 0xA0 || u == 0x1680 || (0x2000 <= u
        && u <= 0x200A) || u == 0x2028 || u == 0x2029 || u == 0x202F || u == 0x205F || u == 0x3000
}

/// Every character of `s` is white space (so also: `s` is empty).
pub open spec fn spec_is_blank(s: Seq<char>) -> bool {
    forall|i: int| 0 <= i < s.len() ==> spec_is_whitespace(#[trigger] s[i])
}

/// Whether `s` holds nothing but white space.
pub fn is_blank(s: &str) -> (r: bool)
    ensures
        r == spec_is_blank(s@),
{
    for c in it: s.chars()
        invariant
            it.seq() == s@,
            forall|k: int| 0 <= k < it.index() ==> spec_is_whitespace(#[trigger] s@[k]),
    {
        if !is_whitespace(c) {
            return false;
        }
    }
    true
}

/// Index of the first character of `s` that is not white space, or `s.len()`.
pub open spec fn spec_trim_start_index(s: Seq<char>) -> int
    decreases s.len(),
{
    if s.len() > 0 && spec_is_whitespace(s[0]) {
        1 + spec_trim_start_index(s.drop_first())
    } else {
        0
    }
}

/// Number of characters of `s` left once the trailing white space is cut.
pub open spec fn spec_trim_end_index(s: Seq<char>) -> int
    decreases s.len(),
{
    if s.len() > 0 && spec_is_whitespace(s.last()) {
        spec_trim_end_index(s.drop_last())
    } else {
        s.len() as int
    }
}

/// `s` without its leading and trailing white space.
pub open spec fn spec_trim(s: Seq<char>) -> Seq<char> {
    let start = spec_trim_start_index(s);
    let rest = s.subrange(start, s.len() as int);
    rest.subrange(0, spec_trim_end_index(rest))
}

/// Before the trim start stands nothing but white space, and at it none.
pub proof fn lemma_trim_start_index(s: Seq<char>)
    ensures
        0 <= spec_trim_start_index(s) <= s.len(),
        forall|k: int| 0 <= k < spec_trim_start_index(s) ==> spec_is_whitespace(#[trigger] s[k]),
        spec_trim_start_index(s) < s.len() ==> !spec_is_whitespace(s[spec_trim_start_index(s)]),
    decreases s.len(),
{
    if s.len() > 0 && spec_is_whitespace(s[0]) {
        let t = s.drop_first();
        lemma_trim_start_index(t);
        assert forall|k: int| 0 <= k < spec_trim_start_index(s) implies spec_is_whitespace(
            #[trigger] s[k],
        ) by {
            if k > 0 {
                assert(s[k] == t[k - 1]);
            }
        }
        if spec_trim_start_index(s) < s.len() {
            assert(s[spec_trim_start_index(s)] == t[spec_trim_start_index(t)]);
        }
    }
}

/// From the trim end on stands nothing but white space, and before it none.
pub proof fn lemma_trim_end_index(s: Seq<char>)
    ensures
        0 <= spec_trim_end_index(s) <= s.len(),
        forall|k: int| spec_trim_end_index(s) <= k < s.len() ==> spec_is_whitespace(#[trigger] s[k]),
        spec_trim_end_index(s) > 0 ==> !spec_is_whitespace(s[spec_trim_end_index(s) - 1]),
    decreases s.len(),
{
    if s.len() > 0 && spec_is_whitespace(s.last()) {
        let t = s.drop_last();
        lemma_trim_end_index(t);
        assert forall|k: int| spec_trim_end_index(s) <= k < s.len() implies spec_is_whitespace(
            #[trigger] s[k],
        ) by {
            if k < s.len() - 1 {
                assert(s[k] == t[k]);
            }
        }
        if spec_trim_end_index(s) > 0 {
            assert(s[spec_trim_end_index(s) - 1] == t[spec_trim_end_index(t) - 1]);
        }
    }
}

/// The first index `i` whose character is not white space is the trim start.
pub proof fn lemma_trim_start_is(s: Seq<char>, i: int)
    requires
        0 <= i <= s.len(),
        forall|k: int| 0 <= k < i ==> spec_is_whitespace(#[trigger] s[k]),
        i < s.len() ==> !spec_is_whitespace(s[i]),
    ensures
        spec_trim_start_index(s) == i,
{
    lemma_trim_start_index(s);
    let j = spec_trim_start_index(s);
    if j < i {
        assert(spec_is_whitespace(s[j]));
    } else if i < j {
        assert(spec_is_whitespace(s[i]));
    }
}

/// The last index `j` before which the character is not white space is the trim end.
pub proof fn lemma_trim_end_is(s: Seq<char>, j: int)
    requires
        0 <= j <= s.len(),
        forall|k: int| j <= k < s.len() ==> spec_is_whitespace(#[trigger] s[k]),
        j > 0 ==> !spec_is_whitespace(s[j - 1]),
    ensures
        spec_trim_end_index(s) == j,
{
    lemma_trim_end_index(s);
    let i = spec_trim_end_index(s);
    if i < j {
        assert(spec_is_whitespace(s[j - 1]));
    } else if j < i {
        assert(spec_is_whitespace(s[i - 1]));
    }
}

/// A text is blank exactly when nothing is left of it after trimming.
pub proof fn lemma_blank_iff_trim_empty(s: Seq<char>)
    ensures
        spec_is_blank(s) <==> spec_trim(s).len() == 0,
{
    lemma_trim_start_index(s);
    let start = spec_trim_start_index(s);
    let rest = s.subrange(start, s.len() as int);
    lemma_trim_end_index(rest);
    if spec_is_blank(s) {
        if start < s.len() {
            assert(spec_is_whitespace(s[start]));
        }
    } else {
        let k = choose|k: int| 0 <= k < s.len() && !spec_is_whitespace(#[trigger] s[k]);
        assert(start <= k);
        assert(rest[k - start] == s[k]);
        if spec_trim_end_index(rest) <= k - start {
            assert(spec_is_whitespace(rest[k - start]));
        }
    }
}

/// The characters of `s` without leading and trailing white space.
pub fn trim_chars(s: &str) -> (out: Vec<char>)
    ensures
        out@ == spec_trim(s@),
{
    let x = chars_of(s);
    let mut start: usize = 0;
    while start < x.len() && is_whitespace(x[start])
        invariant
            start <= x.len(),
            forall|k: int| 0 <= k < start ==> spec_is_whitespace(#[trigger] x@[k]),
        decreases x.len() - start,
    {
        start += 1;
    }
    let mut end: usize = x.len();
    while end > start && is_whitespace(x[end - 1])
        invariant
            start <= end <= x.len(),
            forall|k: int| end <= k < x.len() ==> spec_is_whitespace(#[trigger] x@[k]),
        decreases end,
    {
        end -= 1;
    }
    let ghost rest = x@.subrange(start as int, x@.len() as int);
    proof {
        lemma_trim_start_is(x@, start as int);
        assert forall|k: int| end - start <= k < rest.len() implies spec_is_whitespace(
            #[trigger] rest[k],
        ) by {
            assert(rest[k] == x@[k + start]);
        }
        if end > start {
            assert(rest[end - start - 1] == x@[end - 1]);
        }
        lemma_trim_end_is(rest, end - start);
    }
    let mut out: Vec<char> = Vec::new();
    let mut i: usize = start;
    while i < end
        invariant
            start <= i <= end <= x.len(),
            out@ == x@.subrange(start as int, i as int),
        decreases end - i,
    {
        out.push(x[i]);
        assert(x@.subrange(start as int, i as int).push(x@[i as int]) =~= x@.subrange(
            start as int,
            i + 1,
        ));
        i += 1;
    }
    assert(x@.subrange(start as int, end as int) =~= rest.subrange(0, end - start));
    out
}

/// `c` is one of `0` to `9`.
pub open spec fn spec_is_ascii_digit(c: char) -> bool {
    0x30 <= c as u32 <= 0x39
}

/// Whether `c` is one of `0` to `9`.
pub fn is_ascii_digit(c: char) -> (r: bool)
    ensures
        r == spec_is_ascii_digit(c),
{
    let u: u32 = c as u32;
    0x30 <= u && u <= 0x39
}

/// `c` is one of `A` to `Z`.
pub open spec fn spec_is_ascii_upper(c: char) -> bool {
    0x41 <= c as u32 <= 0x5A
}

/// Whether `c` is one of `A` to `Z`.
pub fn is_ascii_upper(c: char) -> (r: bool)
    ensures
        r == spec_is_ascii_upper(c),
{
    let u: u32 = c as u32;
    0x41 <= u && u <= 0x5A
}

/// Whether Unicode counts `c` as a letter or a number: what
/// `char::is_alphanumeric` answers.
pub uninterp spec fn unicode_alphanumeric(c: char) -> bool;

/// `char::is_alphanumeric`: the answer depends on the character alone, and
/// is given the name `unicode_alphanumeric`.
#[verifier::external_body]
fn char_is_alphanumeric(c: char) -> (r: bool)
    ensures
        r == unicode_alphanumeric(c),
{
    c.is_alphanumeric()
}

/// The letters and numbers of `s`, in order.
pub open spec fn spec_alphanumerics(s: Seq<char>) -> Seq<char> {
    s.filter(|c: char| unicode_alphanumeric(c))
}

/// The digits `0` to `9` of `s`, in order.
pub open spec fn spec_ascii_digits(s: Seq<char>) -> Seq<char> {
    s.filter(|c: char| spec_is_ascii_digit(c))
}

/// What passes a filter among the first `i + 1` characters is what passes
/// among the first `i`, and the next character where it passes too.
proof fn lemma_filter_step(s: Seq<char>, i: int, pred: spec_fn(char) -> bool)
    requires
        0 <= i < s.len(),
    ensures
        s.take(i + 1).filter(pred) == if pred(s[i]) {
            s.take(i).filter(pred).push(s[i])
        } else {
            s.take(i).filter(pred)
        },
{
    reveal(Seq::filter);
    assert(s.take(i + 1).drop_last() =~= s.take(i));
}

/// The letters and numbers of `s`, in order.
pub fn keep_alphanumeric(s: &str) -> (out: String)
    ensures
        out@ == spec_alphanumerics(s@),
{
    let x = chars_of(s);
    let mut out = String::new();
    let mut i: usize = 0;
    proof {
        reveal(Seq::filter);
        assert(x@.take(0) =~= Seq::<char>::empty());
    }
    while i < x.len()
        invariant
            i <= x.len(),
            out@ == spec_alphanumerics(x@.take(i as int)),
        decreases x.len() - i,
    {
        proof {
            lemma_filter_step(x@, i as int, |c: char| unicode_alphanumeric(c));
        }
        if char_is_alphanumeric(x[i]) {
            out.push(x[i]);
        }
        i += 1;
    }
    assert(x@.take(x@.len() as int) =~= x@);
    out
}

/// How many of the characters of `s` are digits `0` to `9`.
pub fn count_ascii_digits(s: &str) -> (n: usize)
    ensures
        n == spec_ascii_digits(s@).len(),
{
    let x = chars_of(s);
    let mut n: usize = 0;
    let mut i: usize = 0;
    proof {
        reveal(Seq::filter);
        assert(x@.take(0) =~= Seq::<char>::empty());
    }
    while i < x.len()
        invariant
            i <= x.len(),
            n <= i,
            n == spec_ascii_digits(x@.take(i as int)).len(),
        decreases x.len() - i,
    {
        proof {
            lemma_filter_step(x@, i as int, |c: char| spec_is_ascii_digit(c));
        }
        if is_ascii_digit(x[i]) {
            n += 1;
        }
        i += 1;
    }
    assert(x@.take(x@.len() as int) =~= x@);
    n
}

} // verus!
