//! Figures as they are shown: months, numbers and money.
use vstd::prelude::*;
use vstd::string::*;
use vstd::utf8::{
    decode_utf8, encode_utf8, encode_utf8_decode_utf8, encode_utf8_valid_utf8,
    is_char_boundary, is_char_boundary_iff_not_is_continuation_byte,
    is_char_boundary_start_end_of_seq, is_continuation_byte, valid_utf8_split,
};

use crate::analytics::{
    bucket_label, ratio_label, AnalyticsCurrencyTotal, AnalyticsMeasures, Real,
};
use crate::counting::{first_is, first_upto, none_found};
use crate::olap::measures::INFINITY_BITS;
use crate::text::{chars_of, join, joined, same, stretch, views};

verus! {

/// Whether a text can be cut before the byte `i`.
pub open spec fn cuts_at(bytes: Seq<u8>, i: int) -> bool {
    0 <= i <= bytes.len() && (i < bytes.len() ==> !is_continuation_byte(bytes[i]))
}

/// Whether the bytes from `a` to `b` are a text of their own.
pub open spec fn has_part(bytes: Seq<u8>, a: int, b: int) -> bool {
    a <= b && cuts_at(bytes, a) && cuts_at(bytes, b)
}

/// The text of the bytes from `a` to `b`.
pub open spec fn part_text(bytes: Seq<u8>, a: int, b: int) -> Seq<char> {
    decode_utf8(bytes.subrange(a, b))
}

/// Tests whether a text can be cut before the byte `i`.
fn can_cut(s: &str, i: usize) -> (r: bool)
    ensures
        r == cuts_at(encode_utf8(s@), i as int),
        r ==> is_char_boundary(encode_utf8(s@), i as int),
{
    let ghost bytes = encode_utf8(s@);
    proof {
        encode_utf8_valid_utf8(s@);
        is_char_boundary_start_end_of_seq(bytes);
    }
    if i > s.as_bytes().len() {
        return false;
    }
    if i == s.as_bytes().len() {
        return true;
    }
    proof {
        is_char_boundary_iff_not_is_continuation_byte(bytes, i as int);
    }
    s.is_char_boundary(i)
}

/// The text of the bytes from `a` to `b`.
fn cut(s: &str, a: usize, b: usize) -> (r: &str)
    requires
        has_part(encode_utf8(s@), a as int, b as int),
    ensures
        r@ == part_text(encode_utf8(s@), a as int, b as int),
        encode_utf8(r@) == encode_utf8(s@).subrange(a as int, b as int),
{
    let ghost bytes = encode_utf8(s@);
    let yes = can_cut(s, a);
    let (_, rest) = s.split_at(a);
    let ghost tail = encode_utf8(rest@);
    assert(tail =~= bytes.skip(a as int));
    assert(cuts_at(tail, b - a));
    let yes = can_cut(rest, b - a);
    let (part, _) = rest.split_at(b - a);
    assert(encode_utf8(part@) =~= bytes.subrange(a as int, b as int));
    proof {
        encode_utf8_decode_utf8(part@);
    }
    part
}

/// A month like `2024-03` in short: `03'24`. Anything else stays as it is.
pub open spec fn month_in_short(month: Seq<char>) -> Seq<char> {
    let bytes = encode_utf8(month);
    if has_part(bytes, 0, 4) && has_part(bytes, 5, 7) {
        part_text(bytes, 5, 7) + "'"@ + part_text(bytes, 2, 4)
    } else {
        month
    }
}

/// A month like `2024-03` in short: `03'24`. The year's last two bytes have to be
/// a text of their own, as they are for digits.
pub fn short_month(month: &str) -> (r: String)
    requires
        has_part(encode_utf8(month@), 0, 4) && has_part(encode_utf8(month@), 5, 7) ==> cuts_at(
            encode_utf8(month@),
            2,
        ),
    ensures
        r@ == month_in_short(month@),
{
    if can_cut(month, 0) && can_cut(month, 4) && can_cut(month, 5) && can_cut(month, 7) {
        let mut out = String::from_str(cut(month, 5, 7));
        out.append("'");
        out.append(cut(month, 2, 4));
        out
    } else {
        String::from_str(month)
    }
}

/// The size of a number, by its pattern without the sign.
pub open spec fn magnitude(x: Real) -> u64 {
    (x.bits % 0x8000_0000_0000_0000) as u64
}

/// Whether a number is one, and its size is at least that of a pattern.
pub open spec fn reaches(x: Real, limit: u64) -> bool {
    limit <= magnitude(x) <= INFINITY_BITS
}

/// Whether the size of a number is at least that of a pattern.
fn is_at_least(x: Real, limit: u64) -> (r: bool)
    ensures
        r == reaches(x, limit),
{
    let size: u64 = x.bits % 0x8000_0000_0000_0000;
    limit <= size && size <= INFINITY_BITS
}

/// How a number is shortened for a caption.
#[derive(Clone, Copy, Debug, PartialEq, Eq, Structural)]
pub enum CompactScale {
    /// In billions, with one decimal.
    Billions,
    /// In millions, with one decimal.
    Millions,
    /// In thousands, with no decimal.
    Thousands,
    /// As it is, with no decimal.
    Whole,
    /// As it is, with one decimal.
    Tenths,
}

/// The patterns of a billion, a million, ten thousand and a hundred.
pub const BILLION_BITS: u64 = 0x41cd_cd65_0000_0000;

pub const MILLION_BITS: u64 = 0x412e_8480_0000_0000;

pub const TEN_THOUSAND_BITS: u64 = 0x40c3_8800_0000_0000;

pub const HUNDRED_BITS: u64 = 0x4059_0000_0000_0000;

/// How a number is shortened for a caption.
pub open spec fn scale_of(x: Real) -> CompactScale {
    if reaches(x, BILLION_BITS) {
        CompactScale::Billions
    } else if reaches(x, MILLION_BITS) {
        CompactScale::Millions
    } else if reaches(x, TEN_THOUSAND_BITS) {
        CompactScale::Thousands
    } else if reaches(x, HUNDRED_BITS) {
        CompactScale::Whole
    } else {
        CompactScale::Tenths
    }
}

/// How a number is shortened for a caption.
pub fn compact_scale(value: Real) -> (r: CompactScale)
    ensures
        r == scale_of(value),
{
    if is_at_least(value, BILLION_BITS) {
        CompactScale::Billions
    } else if is_at_least(value, MILLION_BITS) {
        CompactScale::Millions
    } else if is_at_least(value, TEN_THOUSAND_BITS) {
        CompactScale::Thousands
    } else if is_at_least(value, HUNDRED_BITS) {
        CompactScale::Whole
    } else {
        CompactScale::Tenths
    }
}

/// What stands behind a shortened number.
pub open spec fn scale_suffix(scale: CompactScale) -> Seq<char> {
    match scale {
        CompactScale::Billions => "B"@,
        CompactScale::Millions => "M"@,
        CompactScale::Thousands => "K"@,
        CompactScale::Whole => ""@,
        CompactScale::Tenths => ""@,
    }
}

/// A shortened number, from its digits in the scale.
pub fn fmt_compact(scale: CompactScale, digits: &str) -> (r: String)
    ensures
        r@ == digits@ + scale_suffix(scale),
{
    let mut out = String::from_str(digits);
    match scale {
        CompactScale::Billions => {
            out.append("B");
        },
        CompactScale::Millions => {
            out.append("M");
        },
        CompactScale::Thousands => {
            out.append("K");
        },
        CompactScale::Whole => {
            out.append("");
        },
        CompactScale::Tenths => {
            out.append("");
        },
    }
    out
}

/// Whether a place is the dot of a number.
pub open spec fn is_dot(s: Seq<char>, i: int) -> bool {
    s[i] == '.'
}

/// The place of the dot of a number.
pub open spec fn dot_place(s: Seq<char>) -> Option<int> {
    first_upto(s.len() as int, |i: int| is_dot(s, i))
}

/// A text without the zeros at its end.
pub open spec fn without_zeros(s: Seq<char>) -> Seq<char>
    decreases s.len(),
{
    if s.len() > 0 && s.last() == '0' {
        without_zeros(s.drop_last())
    } else {
        s
    }
}

/// A number with a dot without the zeros at its end, and without the dot where
/// nothing is left behind it.
pub open spec fn shortened(s: Seq<char>) -> Seq<char> {
    match dot_place(s) {
        Some(dot) => {
            let t = without_zeros(s);
            if t.len() == dot + 1 {
                t.drop_last()
            } else {
                t
            }
        },
        None => s,
    }
}

/// The sign that groups of three digits have between them.
pub const GROUP_SIGN: char = '\u{202F}';

/// The first `n` digits of a whole number in groups of three, counted from its
/// end.
pub open spec fn grouped_upto(digits: Seq<char>, n: int) -> Seq<char>
    decreases n,
{
    if n <= 0 {
        Seq::empty()
    } else if n > 1 && (digits.len() - (n - 1)) % 3 == 0 {
        grouped_upto(digits, n - 1).push(GROUP_SIGN).push(digits[n - 1])
    } else {
        grouped_upto(digits, n - 1).push(digits[n - 1])
    }
}

/// The digits of a whole number in groups of three.
pub open spec fn grouped(digits: Seq<char>) -> Seq<char> {
    grouped_upto(digits, digits.len() as int)
}

/// A number without its sign in groups of three: what stands before the dot is
/// grouped, what stands behind it stays.
pub open spec fn grouped_number(body: Seq<char>) -> Seq<char> {
    match dot_place(body) {
        Some(dot) => if dot + 1 == body.len() {
            grouped(body.take(dot))
        } else {
            grouped(body.take(dot)) + seq!['.'] + body.skip(dot + 1)
        },
        None => grouped(body),
    }
}

/// A number as it is shown, from its digits.
pub open spec fn tidy(rendered: Seq<char>) -> Seq<char> {
    let s = shortened(rendered);
    if s.len() > 0 && s[0] == '-' {
        seq!['-'] + grouped_number(s.drop_first())
    } else {
        grouped_number(s)
    }
}

/// The place of the dot of a number.
fn find_dot(v: &Vec<char>) -> (r: Option<usize>)
    ensures
        match r {
            Some(k) => dot_place(v@) == Some(k as int) && k < v@.len(),
            None => dot_place(v@) is None,
        },
{
    let ghost p = |i: int| is_dot(v@, i);
    let mut i: usize = 0;
    while i < v.len()
        invariant
            i <= v@.len(),
            p == (|i: int| is_dot(v@, i)),
            forall|j: int| 0 <= j < i ==> !#[trigger] p(j),
        decreases v.len() - i,
    {
        if v[i] == '.' {
            proof {
                assert(p(i as int));
                first_is(v@.len() as int, p, i as int);
            }
            return Some(i);
        }
        assert(!p(i as int));
        i += 1;
    }
    proof {
        none_found(v@.len() as int, p);
    }
    None
}

/// A number with a dot without the zeros at its end.
fn shorten(v: Vec<char>) -> (r: Vec<char>)
    ensures
        r@ == shortened(v@),
{
    let ghost all = v@;
    match find_dot(&v) {
        Some(dot) => {
            let mut v = v;
            while v.len() > 0 && v[v.len() - 1] == '0'
                invariant
                    without_zeros(v@) == without_zeros(all),
                decreases v@.len(),
            {
                assert(v@.last() == '0');
                v.pop();
            }
            assert(without_zeros(v@) == v@);
            if v.len() > 0 && v.len() - 1 == dot {
                v.pop();
            }
            v
        },
        None => v,
    }
}

/// Appends the digits of a whole number in groups of three.
fn push_grouped(out: &mut String, v: &Vec<char>, from: usize, to: usize)
    requires
        from <= to <= v@.len(),
    ensures
        final(out)@ == old(out)@ + grouped(v@.subrange(from as int, to as int)),
{
    let ghost digits = v@.subrange(from as int, to as int);
    let ghost start = out@;
    let mut i: usize = from;
    assert(out@ =~= start + grouped_upto(digits, 0));
    while i < to
        invariant
            from <= i <= to <= v@.len(),
            digits == v@.subrange(from as int, to as int),
            out@ == start + grouped_upto(digits, i - from),
        decreases to - i,
    {
        if i > from && (to - i) % 3 == 0 {
            out.push(GROUP_SIGN);
        }
        out.push(v[i]);
        assert(digits[i - from] == v@[i as int]);
        assert(out@ =~= start + grouped_upto(digits, i - from + 1));
        i += 1;
    }
}

/// Appends some characters.
fn push_chars(out: &mut String, v: &Vec<char>, from: usize)
    requires
        from <= v@.len(),
    ensures
        final(out)@ == old(out)@ + v@.skip(from as int),
{
    let ghost start = out@;
    let mut i: usize = from;
    assert(out@ =~= start + v@.subrange(from as int, from as int));
    while i < v.len()
        invariant
            from <= i <= v@.len(),
            out@ == start + v@.subrange(from as int, i as int),
        decreases v.len() - i,
    {
        out.push(v[i]);
        assert(out@ =~= start + v@.subrange(from as int, i + 1));
        i += 1;
    }
    assert(v@.subrange(from as int, i as int) =~= v@.skip(from as int));
}

/// A number that is one: neither infinite nor undefined.
pub open spec fn finite(x: Real) -> bool {
    magnitude(x) < INFINITY_BITS
}

/// A number as it is shown, from its digits: without needless zeros, and in
/// groups of three. What is no number is shown as a zero.
pub fn fmt_decimal(value: Real, rendered: &str) -> (r: String)
    ensures
        r@ == (if finite(value) {
            tidy(rendered@)
        } else {
            "0"@
        }),
{
    if value.bits % 0x8000_0000_0000_0000 < INFINITY_BITS {
        tidy_number(rendered)
    } else {
        String::from_str("0")
    }
}

/// A number as it is shown, from its digits.
fn tidy_number(rendered: &str) -> (r: String)
    ensures
        r@ == tidy(rendered@),
{
    let v = shorten(chars_of(rendered));
    let signed = v.len() > 0 && v[0] == '-';
    let from: usize = if signed {
        1
    } else {
        0
    };
    let body = stretch(&v, from, v.len());
    assert(body@ =~= (if signed {
        v@.drop_first()
    } else {
        v@
    }));
    let mut out = String::new();
    if signed {
        out.push('-');
    }
    let ghost start = out@;
    match find_dot(&body) {
        Some(dot) => {
            push_grouped(&mut out, &body, 0, dot);
            assert(body@.subrange(0, dot as int) =~= body@.take(dot as int));
            if dot < body.len() - 1 {
                out.push('.');
                push_chars(&mut out, &body, dot + 1);
            }
        },
        None => {
            push_grouped(&mut out, &body, 0, body.len());
            assert(body@.subrange(0, body@.len() as int) =~= body@);
        },
    }
    assert(out@ =~= start + grouped_number(body@));
    assert(out@ =~= tidy(rendered@));
    out
}

/// A text without the signs between groups.
pub open spec fn ungrouped(s: Seq<char>) -> Seq<char>
    decreases s.len(),
{
    if s.len() == 0 {
        Seq::empty()
    } else if s.last() == GROUP_SIGN {
        ungrouped(s.drop_last())
    } else {
        ungrouped(s.drop_last()).push(s.last())
    }
}

/// Grouping adds nothing but the signs between groups: without them, the digits
/// are what they were.
pub proof fn grouping_keeps_the_digits(digits: Seq<char>, n: int)
    requires
        0 <= n <= digits.len(),
        forall|i: int| 0 <= i < digits.len() ==> #[trigger] digits[i] != GROUP_SIGN,
    ensures
        ungrouped(grouped_upto(digits, n)) == digits.take(n),
    decreases n,
{
    if n > 0 {
        grouping_keeps_the_digits(digits, n - 1);
        let before = grouped_upto(digits, n - 1);
        let g = grouped_upto(digits, n);
        assert(g.last() == digits[n - 1]);
        if n > 1 && (digits.len() - (n - 1)) % 3 == 0 {
            assert(g.drop_last() =~= before.push(GROUP_SIGN));
            assert(before.push(GROUP_SIGN).drop_last() =~= before);
            assert(ungrouped(before.push(GROUP_SIGN)) == ungrouped(before));
        } else {
            assert(g.drop_last() =~= before);
        }
        assert(digits.take(n) =~= digits.take(n - 1).push(digits[n - 1]));
    } else {
        assert(digits.take(0) =~= Seq::<char>::empty());
    }
}

/// A figure with the label it has to carry, if any.
pub open spec fn labelled(figure: Seq<char>, code: Seq<char>) -> Seq<char> {
    if code.len() == 0 {
        figure
    } else {
        figure + " "@ + code
    }
}

/// A figure with the label it has to carry, if any.
fn with_label(figure: &str, code: &str) -> (r: String)
    ensures
        r@ == labelled(figure@, code@),
{
    let mut out = String::from_str(figure);
    if code.unicode_len() > 0 {
        out.append(" ");
        out.append(code);
    }
    out
}

/// What is shown for money: a figure with its currency; a zero where there is no
/// money at all; and where no one figure is true, that there are several
/// currencies.
pub open spec fn money_shown(
    code: Option<Seq<char>>,
    nothing: bool,
    figure: Seq<char>,
    none: Seq<char>,
    mixed: Seq<char>,
) -> Seq<char> {
    match code {
        Some(code) => labelled(figure, code),
        None => if nothing {
            none
        } else {
            mixed
        },
    }
}

/// What is shown for money. `figure` is the one figure there is, as it is
/// rendered, `none` is a zero, and `mixed` says that there are several
/// currencies.
pub fn label_money(code: Option<&str>, nothing: bool, figure: &str, none: &str, mixed: &str) -> (r:
    String)
    ensures
        r@ == money_shown(
            match code {
                Some(code) => Some(code@),
                None => None,
            },
            nothing,
            figure@,
            none@,
            mixed@,
        ),
{
    match code {
        Some(code) => with_label(figure, code),
        None => if nothing {
            String::from_str(none)
        } else {
            String::from_str(mixed)
        },
    }
}

/// The currency that the one total of some measures carries.
pub open spec fn total_code(m: AnalyticsMeasures) -> Option<Seq<char>> {
    if m.currency_totals@.len() == 1 {
        Some(bucket_label(m.currency_totals@[0]))
    } else {
        None
    }
}

/// The total of some measures as it is shown.
fn total_shown(measures: &AnalyticsMeasures, figure: &str, none: &str, mixed: &str) -> (r:
    String)
    ensures
        r@ == money_shown(
            total_code(*measures),
            measures.currency_totals@.len() == 0,
            figure@,
            none@,
            mixed@,
        ),
{
    let code = match measures.single_currency_total() {
        Some((_, code)) => Some(code),
        None => None,
    };
    label_money(code, measures.currency_totals.len() == 0, figure, none, mixed)
}

/// Money for a tile, carrying the currency it is denominated in. `figure` is the
/// one total in short.
pub fn fmt_money_compact(measures: &AnalyticsMeasures, figure: &str, none: &str, mixed: &str) -> (r:
    String)
    ensures
        r@ == money_shown(
            total_code(*measures),
            measures.currency_totals@.len() == 0,
            figure@,
            none@,
            mixed@,
        ),
{
    total_shown(measures, figure, none, mixed)
}

/// Money at full precision, for report tables and tooltips. `figure` is the one
/// total with all its digits.
pub fn fmt_money_exact(measures: &AnalyticsMeasures, figure: &str, none: &str, mixed: &str) -> (r:
    String)
    ensures
        r@ == money_shown(
            total_code(*measures),
            measures.currency_totals@.len() == 0,
            figure@,
            none@,
            mixed@,
        ),
{
    total_shown(measures, figure, none, mixed)
}

/// The currency that the one value per kilogram of some measures carries.
pub open spec fn ratio_code(m: AnalyticsMeasures) -> Option<Seq<char>> {
    if m.value_per_net_weight@.len() == 1 && m.value_per_net_weight@[0].value_per_weight is Some {
        Some(ratio_label(m.value_per_net_weight@[0]))
    } else {
        None
    }
}

/// The value per kilogram of some measures as it is shown.
pub fn fmt_money_per_kg(measures: &AnalyticsMeasures, figure: &str, none: &str, mixed: &str) -> (r:
    String)
    ensures
        r@ == money_shown(
            ratio_code(*measures),
            measures.value_per_net_weight@.len() == 0,
            figure@,
            none@,
            mixed@,
        ),
{
    let code = match measures.single_currency_per_net_kg() {
        Some((_, code)) => Some(code),
        None => None,
    };
    label_money(code, measures.value_per_net_weight.len() == 0, figure, none, mixed)
}

/// Several currencies never collapse into one figure: what is shown for them
/// says that there are several, whatever figure was rendered.
pub proof fn several_currencies_have_no_figure(
    m: AnalyticsMeasures,
    figure: Seq<char>,
    none: Seq<char>,
    mixed: Seq<char>,
)
    requires
        m.currency_totals@.len() > 1,
    ensures
        money_shown(total_code(m), m.currency_totals@.len() == 0, figure, none, mixed) == mixed,
{
}

/// A total and its currency. One whose currency the source never stated is named
/// as such.
pub open spec fn bucket_text(
    total: AnalyticsCurrencyTotal,
    figure: Seq<char>,
    unstated: Seq<char>,
) -> Seq<char> {
    figure + " "@ + (if total.known {
        total.currency@
    } else {
        unstated
    })
}

/// The totals, each with its currency.
pub open spec fn bucket_texts(
    totals: Seq<AnalyticsCurrencyTotal>,
    figures: Seq<Seq<char>>,
    unstated: Seq<char>,
) -> Seq<Seq<char>> {
    Seq::new(totals.len(), |i: int| bucket_text(totals[i], figures[i], unstated))
}

/// What stands between two totals.
pub const BREAKDOWN_SIGN: &'static str = "  \u{b7}  ";

/// Every currency with its own total, where there are several. `figures` are the
/// totals as they are rendered.
pub fn currency_breakdown(measures: &AnalyticsMeasures, figures: &Vec<String>, unstated: &str) -> (r:
    Option<String>)
    requires
        figures@.len() == measures.currency_totals@.len(),
    ensures
        match r {
            Some(text) => measures.currency_totals@.len() >= 2 && text@ == joined(
                bucket_texts(measures.currency_totals@, views(figures@), unstated@),
                BREAKDOWN_SIGN@,
            ),
            None => measures.currency_totals@.len() < 2,
        },
{
    let totals = &measures.currency_totals;
    if totals.len() < 2 {
        return None;
    }
    let ghost all = bucket_texts(totals@, views(figures@), unstated@);
    let mut texts: Vec<String> = Vec::new();
    let mut i: usize = 0;
    assert(views(texts@) =~= all.take(0));
    while i < totals.len()
        invariant
            i <= totals@.len(),
            figures@.len() == totals@.len(),
            all == bucket_texts(totals@, views(figures@), unstated@),
            views(texts@) == all.take(i as int),
        decreases totals.len() - i,
    {
        let mut text = String::from_str(figures[i].as_str());
        text.append(" ");
        if totals[i].known {
            text.append(totals[i].currency.as_str());
        } else {
            text.append(unstated);
        }
        assert(text@ == all[i as int]);
        let ghost before = views(texts@);
        texts.push(text);
        assert(views(texts@) =~= before.push(all[i as int]));
        assert(all.take(i + 1) =~= all.take(i as int).push(all[i as int]));
        i += 1;
    }
    assert(all.take(i as int) =~= all);
    Some(join(&texts, BREAKDOWN_SIGN))
}

/// The total that is divided among some documents: there is one only inside a
/// single currency, and only for some documents.
pub fn value_per_document(measures: &AnalyticsMeasures, documents: u64) -> (r: Option<Real>)
    ensures
        r == (if measures.currency_totals@.len() == 1 && documents > 0 {
            Some(measures.currency_totals@[0].total_value)
        } else {
            None
        }),
{
    match measures.single_currency_total() {
        Some((total, _)) => if documents > 0 {
            Some(total)
        } else {
            None
        },
        None => None,
    }
}

/// The pattern of the smallest size that a number is compared to in percent.
pub const EPSILON_BITS: u64 = 0x3cb0_0000_0000_0000;

/// Whether a number is far enough from zero to compare another to it.
pub open spec fn comparable(x: Real) -> bool {
    EPSILON_BITS < magnitude(x) <= INFINITY_BITS
}

/// Whether a number is far enough from zero to compare another to it in percent.
pub fn is_comparable(x: Real) -> (r: bool)
    ensures
        r == comparable(x),
{
    let size: u64 = x.bits % 0x8000_0000_0000_0000;
    EPSILON_BITS < size && size <= INFINITY_BITS
}

/// A difference with its percentage, where there is something to compare to.
pub open spec fn with_percent(shown: Seq<char>, before: Real, percent: Seq<char>) -> Seq<char> {
    if comparable(before) {
        shown + " ("@ + percent + "%)"@
    } else {
        shown
    }
}

/// A difference with its percentage, where there is something to compare to.
pub fn difference_text(shown: &str, before: Real, percent: &str) -> (r: String)
    ensures
        r@ == with_percent(shown@, before, percent@),
{
    let mut out = String::from_str(shown);
    if is_comparable(before) {
        out.append(" (");
        out.append(percent);
        out.append("%)");
    }
    out
}

/// What is shown for the difference of two sums of money.
pub open spec fn money_difference_shown(
    left: Option<(Real, &str)>,
    right: Option<(Real, &str)>,
    delta: Seq<char>,
    percent: Seq<char>,
    mixed: Seq<char>,
) -> Seq<char> {
    match (left, right) {
        (Some((before, a)), Some((_, b))) => if a@ == b@ {
            with_percent(labelled(delta, a@), before, percent)
        } else {
            mixed
        },
        _ => mixed,
    }
}

/// The difference of two totals as it is shown, from the difference and the
/// percentage as they are rendered. Across currencies there is none.
pub fn money_difference(
    left: Option<(Real, &str)>,
    right: Option<(Real, &str)>,
    delta: &str,
    percent: &str,
    mixed: &str,
) -> (r: String)
    ensures
        r@ == money_difference_shown(left, right, delta@, percent@, mixed@),
{
    match (left, right) {
        (Some((before, a)), Some((_, b))) => if same(a, b) {
            let shown = with_label(delta, a);
            difference_text(shown.as_str(), before, percent)
        } else {
            String::from_str(mixed)
        },
        _ => String::from_str(mixed),
    }
}

/// A row of a comparison: a label, the two sides and their difference.
#[derive(Clone, Debug, PartialEq, Eq)]
pub struct CompareRow {
    pub label: String,
    pub left: String,
    pub right: String,
    pub difference: String,
}

/// A row that compares two numbers, from their texts, the text of their
/// difference and its percentage of the first.
pub fn compare_metric_row(
    label: &str,
    left: &str,
    right: &str,
    before: Real,
    delta: &str,
    percent: &str,
) -> (r: CompareRow)
    ensures
        r.label@ == label@,
        r.left@ == left@,
        r.right@ == right@,
        r.difference@ == with_percent(delta@, before, percent@),
{
    CompareRow {
        label: String::from_str(label),
        left: String::from_str(left),
        right: String::from_str(right),
        difference: difference_text(delta, before, percent),
    }
}

/// A row that compares two sums of money. Both are shown; their difference only
/// where both are of one currency, the same.
pub fn compare_money_row(
    label: &str,
    left: (&str, Option<(Real, &str)>),
    right: (&str, Option<(Real, &str)>),
    delta: &str,
    percent: &str,
    mixed: &str,
) -> (r: CompareRow)
    ensures
        r.label@ == label@,
        r.left@ == left.0@,
        r.right@ == right.0@,
        r.difference@ == money_difference_shown(left.1, right.1, delta@, percent@, mixed@),
{
    CompareRow {
        label: String::from_str(label),
        left: String::from_str(left.0),
        right: String::from_str(right.0),
        difference: money_difference(left.1, right.1, delta, percent, mixed),
    }
}

/// The bits of the number that is a significand times two to the power of its
/// scale less 1075.
pub open spec fn in_bits(significand: int, scale: int) -> int {
    (scale * 0x10_0000_0000_0000) + (significand - 0x10_0000_0000_0000)
}

/// Numbers are shortened from ten thousand on, to thousands, from a million on to
/// millions and from a billion on to billions, whatever their sign; from a hundred
/// on they have no fraction. The bounds are those numbers exactly.
pub proof fn numbers_are_shortened_by_their_size(x: Real)
    ensures
        in_bits(1_000_000_000int * 0x80_0000, 1075 - 23) == BILLION_BITS,
        in_bits(1_000_000int * 0x2_0000_0000, 1075 - 33) == MILLION_BITS,
        in_bits(10_000int * 0x80_0000_0000, 1075 - 39) == TEN_THOUSAND_BITS,
        in_bits(100int * 0x4000_0000_0000, 1075 - 46) == HUNDRED_BITS,
        finite(x) && magnitude(x) >= BILLION_BITS ==> scale_of(x) == CompactScale::Billions,
        MILLION_BITS <= magnitude(x) < BILLION_BITS ==> scale_of(x) == CompactScale::Millions,
        TEN_THOUSAND_BITS <= magnitude(x) < MILLION_BITS ==> scale_of(x)
            == CompactScale::Thousands,
        HUNDRED_BITS <= magnitude(x) < TEN_THOUSAND_BITS ==> scale_of(x) == CompactScale::Whole,
        magnitude(x) < HUNDRED_BITS ==> scale_of(x) == CompactScale::Tenths,
        x.bits >= 0x8000_0000_0000_0000 ==> scale_of(x) == scale_of(
            (Real { bits: (x.bits - 0x8000_0000_0000_0000) as u64 }),
        ),
        scale_suffix(CompactScale::Billions) == "B"@,
        scale_suffix(CompactScale::Millions) == "M"@,
        scale_suffix(CompactScale::Thousands) == "K"@,
        scale_suffix(CompactScale::Whole).len() == 0,
        scale_suffix(CompactScale::Tenths).len() == 0,
{
    reveal_strlit("");
}

/// A fraction of zeros is dropped with its point, and whole numbers stay as they
/// are.
pub proof fn a_fraction_of_zeros_is_dropped(whole: Seq<char>, k: nat)
    requires
        forall|i: int| 0 <= i < whole.len() ==> whole[i] != '.',
    ensures
        shortened(whole) == whole,
        shortened(whole + seq!['.'] + Seq::new(k, |i: int| '0')) == whole,
    decreases k,
{
    let p = |i: int| is_dot(whole, i);
    assert forall|i: int| 0 <= i < whole.len() implies !#[trigger] p(i) by {}
    none_found(whole.len() as int, p);
    let zeros = Seq::new(k, |i: int| '0');
    let s = whole + seq!['.'] + zeros;
    let q = |i: int| is_dot(s, i);
    assert(q(whole.len() as int));
    assert forall|i: int| 0 <= i < whole.len() implies !#[trigger] q(i) by {
        assert(s[i] == whole[i]);
    }
    first_is(s.len() as int, q, whole.len() as int);
    zeros_are_dropped(whole + seq!['.'], k);
    assert((whole + seq!['.']).drop_last() =~= whole);
}

/// Zeros behind a text that does not end in one are dropped.
proof fn zeros_are_dropped(text: Seq<char>, k: nat)
    requires
        text.len() > 0,
        text.last() != '0',
    ensures
        without_zeros(text + Seq::new(k, |i: int| '0')) == text,
    decreases k,
{
    let s = text + Seq::new(k, |i: int| '0');
    if k == 0 {
        assert(s =~= text);
    } else {
        zeros_are_dropped(text, (k - 1) as nat);
        assert(s.last() == '0');
        assert(s.drop_last() =~= text + Seq::new((k - 1) as nat, |i: int| '0'));
    }
}

/// Digits are grouped in threes from the right: a group more puts a sign before
/// it, and up to three digits stand alone.
pub proof fn digits_are_grouped_in_threes(digits: Seq<char>)
    ensures
        digits.len() <= 3 ==> grouped(digits) == digits,
        digits.len() > 3 ==> grouped(digits) == grouped(digits.take(digits.len() - 3)) + seq![
            '\u{202F}',
        ] + digits.skip(digits.len() - 3),
{
    let n = digits.len() as int;
    reveal_with_fuel(grouped_upto, 5);
    if n <= 3 {
        assert(grouped(digits) =~= digits);
    } else {
        let front = digits.take(n - 3);
        groups_of_front(digits, n - 3);
        assert(grouped_upto(digits, n) =~= grouped_upto(digits, n - 3).push('\u{202F}').push(
            digits[n - 3],
        ).push(digits[n - 2]).push(digits[n - 1]));
        assert(grouped(digits) =~= grouped(front) + seq!['\u{202F}'] + digits.skip(n - 3));
    }
}

/// The digits before the last three are grouped as if they stood alone.
proof fn groups_of_front(digits: Seq<char>, m: int)
    requires
        0 <= m <= digits.len() - 3,
    ensures
        grouped_upto(digits, m) == grouped_upto(digits.take(digits.len() - 3), m),
    decreases m,
{
    if m > 0 {
        groups_of_front(digits, m - 1);
        let front = digits.take(digits.len() - 3);
        assert((digits.len() - (m - 1)) % 3 == (front.len() - (m - 1)) % 3);
        assert(front[m - 1] == digits[m - 1]);
    }
}

/// Money in one currency is shown with its code, money in several only as mixed,
/// and no money as none.
pub proof fn money_is_shown_with_its_currency(
    m: AnalyticsMeasures,
    nothing: bool,
    figure: Seq<char>,
    none: Seq<char>,
    mixed: Seq<char>,
)
    ensures
        m.currency_totals@.len() == 1 && m.currency_totals@[0].known
            && m.currency_totals@[0].currency@.len() > 0 ==> money_shown(
            total_code(m),
            nothing,
            figure,
            none,
            mixed,
        ) == figure + " "@ + m.currency_totals@[0].currency@,
        m.currency_totals@.len() == 1 && !m.currency_totals@[0].known ==> money_shown(
            total_code(m),
            nothing,
            figure,
            none,
            mixed,
        ) == figure,
        m.currency_totals@.len() > 1 && !nothing ==> money_shown(
            total_code(m),
            nothing,
            figure,
            none,
            mixed,
        ) == mixed,
        m.currency_totals@.len() == 0 && nothing ==> money_shown(
            total_code(m),
            nothing,
            figure,
            none,
            mixed,
        ) == none,
        m.value_per_net_weight@.len() != 1 ==> ratio_code(m) is None,
{
    reveal_strlit("");
}

/// A difference is shown with its share only where there was something before,
/// and money only within one currency.
pub proof fn differences_compare_like_with_like(
    before: Real,
    after: Real,
    a: &str,
    b: &str,
    delta: Seq<char>,
    percent: Seq<char>,
    mixed: Seq<char>,
)
    ensures
        before.bits == 0 ==> with_percent(delta, before, percent) == delta,
        in_bits(0x10_0000_0000_0000, 1075 - 104) == EPSILON_BITS,
        finite(before) && magnitude(before) > EPSILON_BITS ==> with_percent(delta, before, percent)
            == delta + " ("@ + percent + "%)"@,
        a@ != b@ ==> money_difference_shown(
            Some((before, a)),
            Some((after, b)),
            delta,
            percent,
            mixed,
        ) == mixed,
        money_difference_shown(None, Some((after, b)), delta, percent, mixed) == mixed,
        money_difference_shown(Some((before, a)), None, delta, percent, mixed) == mixed,
        a@ == b@ && before.bits == 0 ==> money_difference_shown(
            Some((before, a)),
            Some((after, b)),
            delta,
            percent,
            mixed,
        ) == labelled(delta, a@),
{
}

} // verus!
