//! Text as sequences of characters: the vocabulary that every other module
//! states its contracts in.
use vstd::prelude::*;
use vstd::string::*;

verus! {

/// `String::push`: the text gains one character at its end.
pub assume_specification[ String::push ](s: &mut String, c: char)
    ensures
        final(s)@ == old(s)@.push(c),
;

/// What `char::is_alphanumeric` answers for one character: the Unicode
/// properties Alphabetic and Numeric.
pub uninterp spec fn alphanumeric(c: char) -> bool;

/// What `char::is_alphabetic` answers for one character: the Unicode property
/// Alphabetic.
pub uninterp spec fn alphabetic(c: char) -> bool;

/// What `char::to_lowercase` yields for one character, in order.
pub uninterp spec fn lower_char(c: char) -> Seq<char>;

/// What `str::to_lowercase` yields for a text. It is not the character by
/// character mapping: a final sigma is lowered by its context.
pub uninterp spec fn lower_text(s: Seq<char>) -> Seq<char>;

/// `char::is_alphanumeric`, which looks the character up in the Unicode tables: it
/// accepts what is alphabetic or numeric. Of the ASCII characters it accepts the
/// letters and the digits.
#[verifier::external_body]
pub(crate) fn is_alphanumeric(c: char) -> (r: bool)
    ensures
        r == alphanumeric(c),
        alphabetic(c) ==> r,
        (c as u32) < 128 ==> r == (is_digit(c) || is_ascii_letter(c)),
{
    c.is_alphanumeric()
}

/// `char::is_alphabetic`, which looks the character up in the Unicode tables.
/// Of the ASCII characters it accepts the letters.
#[verifier::external_body]
pub(crate) fn is_alphabetic(c: char) -> (r: bool)
    ensures
        r == alphabetic(c),
        (c as u32) < 128 ==> r == is_ascii_letter(c),
{
    c.is_alphabetic()
}

/// `char::to_lowercase`, with the characters that it yields collected. An ASCII
/// character yields one character: its small letter, or itself.
#[verifier::external_body]
pub(crate) fn char_to_lowercase(c: char) -> (r: Vec<char>)
    ensures
        r@ == lower_char(c),
        (c as u32) < 128 ==> r@ == seq![ascii_lower(c)],
{
    c.to_lowercase().collect()
}

/// A text in ASCII lower case: every other character stays as it is.
pub open spec fn ascii_lowered(s: Seq<char>) -> Seq<char> {
    s.map_values(|c: char| ascii_lower(c))
}

/// A text in ASCII.
pub open spec fn ascii_text(s: Seq<char>) -> bool {
    forall|i: int| 0 <= i < s.len() ==> (#[trigger] s[i]) as u32 <= 127
}

/// `str::to_lowercase`: a text that depends on the text alone. Of a text in ASCII
/// it is the ASCII lower case.
#[verifier::external_body]
pub(crate) fn text_to_lowercase(s: &str) -> (r: String)
    ensures
        r@ == lower_text(s@),
        ascii_text(s@) ==> r@ == ascii_lowered(s@),
{
    s.to_lowercase()
}

/// A decimal digit.
pub open spec fn is_digit(c: char) -> bool {
    '0' <= c <= '9'
}

/// A letter of the ASCII alphabet.
pub open spec fn is_ascii_letter(c: char) -> bool {
    'a' <= c <= 'z' || 'A' <= c <= 'Z'
}

/// The small letter of an ASCII capital; any other character itself.
pub open spec fn ascii_lower(c: char) -> char {
    if 'A' <= c <= 'Z' {
        ((c as u8) + 32) as char
    } else {
        c
    }
}

/// The characters with the Unicode property White_Space.
pub open spec fn is_space(c: char) -> bool {
    ||| '\u{9}' <= c <= '\u{d}'
    ||| c == ' '
    ||| c == '\u{85}'
    ||| c == '\u{a0}'
    ||| c == '\u{1680}'
    ||| '\u{2000}' <= c <= '\u{200a}'
    ||| c == '\u{2028}'
    ||| c == '\u{2029}'
    ||| c == '\u{202f}'
    ||| c == '\u{205f}'
    ||| c == '\u{3000}'
}

/// Tests for white space.
pub fn space(c: char) -> (r: bool)
    ensures
        r == is_space(c),
{
    ('\u{9}' <= c && c <= '\u{d}') || c == ' ' || c == '\u{85}' || c == '\u{a0}' || c == '\u{1680}'
        || ('\u{2000}' <= c && c <= '\u{200a}') || c == '\u{2028}' || c == '\u{2029}' || c
        == '\u{202f}' || c == '\u{205f}' || c == '\u{3000}'
}

/// Tests for a decimal digit.
pub fn digit(c: char) -> (r: bool)
    ensures
        r == is_digit(c),
{
    '0' <= c && c <= '9'
}

/// Lowers an ASCII capital.
pub fn to_ascii_lower(c: char) -> (r: char)
    ensures
        r == ascii_lower(c),
{
    if 'A' <= c && c <= 'Z' {
        ((c as u8) + 32) as char
    } else {
        c
    }
}

/// The characters of a text.
pub fn chars_of(s: &str) -> (r: Vec<char>)
    ensures
        r@ == s@,
{
    let mut out: Vec<char> = Vec::new();
    for c in it: s.chars()
        invariant
            it.seq() == s@,
            out@ == s@.take(it.index() as int),
    {
        out.push(c);
        assert(s@.take(it.index() + 1) =~= s@.take(it.index() as int).push(c));
    }
    assert(s@.take(s@.len() as int) =~= s@);
    out
}

/// The text of some characters.
pub fn string_of(v: &Vec<char>) -> (r: String)
    ensures
        r@ == v@,
{
    let mut out = String::new();
    let mut i: usize = 0;
    while i < v.len()
        invariant
            i <= v.len(),
            out@ == v@.take(i as int),
        decreases v.len() - i,
    {
        out.push(v[i]);
        assert(v@.take(i + 1) =~= v@.take(i as int).push(v@[i as int]));
        i += 1;
    }
    assert(v@.take(v@.len() as int) =~= v@);
    out
}

/// A stretch of characters.
pub fn stretch(v: &Vec<char>, from: usize, to: usize) -> (r: Vec<char>)
    requires
        from <= to <= v@.len(),
    ensures
        r@ == v@.subrange(from as int, to as int),
{
    let mut out: Vec<char> = Vec::new();
    let mut i: usize = from;
    while i < to
        invariant
            from <= i <= to <= v@.len(),
            out@ == v@.subrange(from as int, i as int),
        decreases to - i,
    {
        out.push(v[i]);
        assert(v@.subrange(from as int, i + 1) =~= v@.subrange(from as int, i as int).push(v@[i as int]));
        i += 1;
    }
    out
}

/// Equality of two texts.
pub fn same(a: &str, b: &str) -> (r: bool)
    ensures
        r == (a@ == b@),
{
    String::from_str(a) == String::from_str(b)
}

/// A text is in a list of texts.
pub open spec fn among(s: Seq<char>, list: Seq<&str>) -> bool {
    exists|i: int| 0 <= i < list.len() && (#[trigger] list[i])@ == s
}

/// Looks a text up in a list of texts.
pub fn is_among(s: &str, list: &[&str]) -> (r: bool)
    ensures
        r == among(s@, list@),
{
    let mut i: usize = 0;
    while i < list.len()
        invariant
            i <= list.len(),
            forall|j: int| 0 <= j < i ==> (#[trigger] list@[j])@ != s@,
        decreases list.len() - i,
    {
        if same(list[i], s) {
            assert(list@[i as int]@ == s@);
            return true;
        }
        i += 1;
    }
    false
}

/// `part` stands in `s` at place `i`.
pub open spec fn stands_at(s: Seq<char>, part: Seq<char>, i: int) -> bool {
    0 <= i && i + part.len() <= s.len() && s.subrange(i, i + part.len()) == part
}

/// `part` stands somewhere in `s`.
pub open spec fn holds(s: Seq<char>, part: Seq<char>) -> bool {
    exists|i: int| stands_at(s, part, i)
}

/// Tests whether `part` stands in `s` at place `i`.
pub fn chars_stand_at(s: &Vec<char>, part: &Vec<char>, i: usize) -> (r: bool)
    ensures
        r == stands_at(s@, part@, i as int),
{
    if i > s.len() || part.len() > s.len() - i {
        return false;
    }
    let mut k: usize = 0;
    while k < part.len()
        invariant
            k <= part.len(),
            i + part.len() <= s.len(),
            forall|j: int| 0 <= j < k ==> part@[j] == s@[i + j],
        decreases part.len() - k,
    {
        if s[i + k] != part[k] {
            proof {
                if s@.subrange(i as int, i + part@.len()) == part@ {
                    assert(s@.subrange(i as int, i + part@.len())[k as int] == part@[k as int]);
                }
            }
            return false;
        }
        k += 1;
    }
    assert(s@.subrange(i as int, i + part@.len()) =~= part@);
    true
}

/// The first place of `part` in `s`.
pub fn find(s: &Vec<char>, part: &Vec<char>) -> (r: Option<usize>)
    ensures
        match r {
            Some(i) => stands_at(s@, part@, i as int) && forall|j: int|
                0 <= j < i ==> !stands_at(s@, part@, j),
            None => !holds(s@, part@),
        },
{
    let mut i: usize = 0;
    while i < s.len()
        invariant
            i <= s.len(),
            forall|j: int| 0 <= j < i ==> !stands_at(s@, part@, j),
        decreases s.len() - i,
    {
        if chars_stand_at(s, part, i) {
            return Some(i);
        }
        i += 1;
    }
    if chars_stand_at(s, part, i) {
        return Some(i);
    }
    None
}

/// Tests whether `part` stands somewhere in `s`.
pub fn contains(s: &str, part: &str) -> (r: bool)
    ensures
        r == holds(s@, part@),
{
    let s_chars = chars_of(s);
    let part_chars = chars_of(part);
    let found = find(&s_chars, &part_chars);
    found.is_some()
}

/// `s` begins with `part`.
pub open spec fn begins(s: Seq<char>, part: Seq<char>) -> bool {
    stands_at(s, part, 0)
}

/// Tests whether `s` begins with `part`.
pub fn starts_with(s: &str, part: &str) -> (r: bool)
    ensures
        r == begins(s@, part@),
{
    chars_stand_at(&chars_of(s), &chars_of(part), 0)
}

/// `s` without the white space in front.
pub open spec fn trim_start(s: Seq<char>) -> Seq<char>
    decreases s.len(),
{
    if s.len() > 0 && is_space(s[0]) {
        trim_start(s.drop_first())
    } else {
        s
    }
}

/// `s` without the white space at its end.
pub open spec fn trim_end(s: Seq<char>) -> Seq<char>
    decreases s.len(),
{
    if s.len() > 0 && is_space(s.last()) {
        trim_end(s.drop_last())
    } else {
        s
    }
}

/// `s` without the white space around it.
pub open spec fn trimmed(s: Seq<char>) -> Seq<char> {
    trim_end(trim_start(s))
}

/// Cuts the white space around some characters off.
pub fn trim_chars(v: &Vec<char>) -> (r: Vec<char>)
    ensures
        r@ == trimmed(v@),
{
    let mut from: usize = 0;
    assert(v@.subrange(0, v@.len() as int) =~= v@);
    while from < v.len() && space(v[from])
        invariant
            from <= v.len(),
            trim_start(v@.subrange(from as int, v@.len() as int)) == trim_start(v@),
        decreases v.len() - from,
    {
        assert(v@.subrange(from as int, v@.len() as int).drop_first() =~= v@.subrange(
            from + 1,
            v@.len() as int,
        ));
        from += 1;
    }
    let ghost rest = v@.subrange(from as int, v@.len() as int);
    assert(trim_start(v@) == rest);
    let mut to: usize = v.len();
    while to > from && space(v[to - 1])
        invariant
            from <= to <= v.len(),
            rest == v@.subrange(from as int, v@.len() as int),
            trim_end(v@.subrange(from as int, to as int)) == trim_end(rest),
        decreases to,
    {
        assert(v@.subrange(from as int, to as int).drop_last() =~= v@.subrange(
            from as int,
            to - 1,
        ));
        to -= 1;
    }
    stretch(v, from, to)
}

/// Cuts the white space around a text off.
pub fn trim(s: &str) -> (r: String)
    ensures
        r@ == trimmed(s@),
{
    string_of(&trim_chars(&chars_of(s)))
}

/// The maximal runs of kept characters, in order, with `sep` between them.
pub open spec fn joined_runs(s: Seq<char>, keep: spec_fn(char) -> bool, sep: char) -> Seq<char>
    decreases s.len(),
{
    if s.len() == 0 {
        Seq::empty()
    } else {
        let before = joined_runs(s.drop_last(), keep, sep);
        if !keep(s.last()) {
            before
        } else if before.len() == 0 || (s.len() >= 2 && keep(s[s.len() - 2])) {
            before.push(s.last())
        } else {
            before.push(sep).push(s.last())
        }
    }
}

/// The words of a text with one space between them.
pub open spec fn collapsed(s: Seq<char>) -> Seq<char> {
    joined_runs(s, |c: char| !is_space(c), ' ')
}

/// Joins the words of a text with one space.
pub fn collapse_ws(s: &str) -> (r: String)
    ensures
        r@ == collapsed(s@),
{
    let v = chars_of(s);
    let ghost keep = |c: char| !is_space(c);
    let mut out = String::new();
    let mut fresh = true;
    let mut empty = true;
    let mut i: usize = 0;
    while i < v.len()
        invariant
            i <= v.len(),
            keep == (|c: char| !is_space(c)),
            out@ == joined_runs(v@.take(i as int), keep, ' '),
            empty == (out@.len() == 0),
            fresh == (i == 0 || is_space(v@[i - 1])),
        decreases v.len() - i,
    {
        let c = v[i];
        assert(v@.take(i + 1).drop_last() =~= v@.take(i as int));
        assert(v@.take(i + 1).last() == c);
        assert(i > 0 ==> v@.take(i + 1)[i - 1] == v@[i - 1]);
        if space(c) {
            fresh = true;
        } else {
            if fresh && !empty {
                out.push(' ');
            }
            out.push(c);
            fresh = false;
            empty = false;
        }
        i += 1;
    }
    assert(v@.take(v@.len() as int) =~= v@);
    out
}

/// The characters of a text, each lowered by itself.
pub open spec fn lower_chars(s: Seq<char>) -> Seq<char>
    decreases s.len(),
{
    if s.len() == 0 {
        Seq::empty()
    } else {
        lower_chars(s.drop_last()) + lower_char(s.last())
    }
}

/// Appends some characters.
pub fn extend_chars(out: &mut Vec<char>, more: &Vec<char>)
    ensures
        final(out)@ == old(out)@ + more@,
{
    let mut i: usize = 0;
    while i < more.len()
        invariant
            i <= more.len(),
            out@ == old(out)@ + more@.take(i as int),
        decreases more.len() - i,
    {
        out.push(more[i]);
        assert(more@.take(i + 1) =~= more@.take(i as int).push(more@[i as int]));
        assert(out@ =~= old(out)@ + more@.take(i + 1));
        i += 1;
    }
    assert(more@.take(more@.len() as int) =~= more@);
}

/// Lowers each character by itself.
pub fn lower_each(v: &Vec<char>) -> (r: Vec<char>)
    ensures
        r@ == lower_chars(v@),
{
    let mut out: Vec<char> = Vec::new();
    let mut i: usize = 0;
    while i < v.len()
        invariant
            i <= v.len(),
            out@ == lower_chars(v@.take(i as int)),
        decreases v.len() - i,
    {
        let lowered = char_to_lowercase(v[i]);
        extend_chars(&mut out, &lowered);
        assert(v@.take(i + 1).drop_last() =~= v@.take(i as int));
        assert(v@.take(i + 1).last() == v@[i as int]);
        i += 1;
    }
    assert(v@.take(v@.len() as int) =~= v@);
    out
}

/// The pieces of a text between separators: one more than it has separators.
pub open spec fn pieces(s: Seq<char>, sep: spec_fn(char) -> bool) -> Seq<Seq<char>>
    decreases s.len(),
{
    if s.len() == 0 {
        seq![Seq::empty()]
    } else {
        let before = pieces(s.drop_last(), sep);
        if sep(s.last()) {
            before.push(Seq::empty())
        } else {
            before.drop_last().push(before.last().push(s.last()))
        }
    }
}

/// What stands behind the last separator is the last piece.
pub proof fn last_piece(a: Seq<char>, c: char, b: Seq<char>, sep: spec_fn(char) -> bool)
    requires
        sep(c),
        forall|i: int| 0 <= i < b.len() ==> !sep(#[trigger] b[i]),
    ensures
        pieces(a + seq![c] + b, sep) == pieces(a, sep).push(b),
    decreases b.len(),
{
    let s = a + seq![c] + b;
    if b.len() == 0 {
        assert(s.drop_last() =~= a);
        assert(s.last() == c);
        assert(b =~= Seq::empty());
    } else {
        last_piece(a, c, b.drop_last(), sep);
        assert(s.drop_last() =~= a + seq![c] + b.drop_last());
        assert(s.last() == b.last());
        let before = pieces(s.drop_last(), sep);
        assert(before.drop_last() =~= pieces(a, sep));
        assert(before.last().push(s.last()) =~= b);
    }
}

/// A text without separators is its one piece.
pub proof fn only_piece(s: Seq<char>, sep: spec_fn(char) -> bool)
    requires
        forall|i: int| 0 <= i < s.len() ==> !sep(#[trigger] s[i]),
    ensures
        pieces(s, sep) == seq![s],
    decreases s.len(),
{
    if s.len() == 0 {
        assert(s =~= Seq::empty());
    } else {
        only_piece(s.drop_last(), sep);
        let before = pieces(s.drop_last(), sep);
        assert(before.drop_last() =~= Seq::empty());
        assert(before.last().push(s.last()) =~= s);
        assert(pieces(s, sep) =~= seq![s]);
    }
}

/// The texts of some runs of characters.
pub open spec fn chars_views(v: Seq<Vec<char>>) -> Seq<Seq<char>> {
    v.map_values(|x: Vec<char>| x@)
}

/// The texts of some strings.
pub open spec fn views(v: Seq<String>) -> Seq<Seq<char>> {
    v.map_values(|x: String| x@)
}

/// The words of a text: its maximal runs without white space.
pub open spec fn words(s: Seq<char>) -> Seq<Seq<char>>
    decreases s.len(),
{
    if s.len() == 0 {
        Seq::empty()
    } else {
        let before = words(s.drop_last());
        if is_space(s.last()) {
            before
        } else if s.len() >= 2 && !is_space(s[s.len() - 2]) {
            before.drop_last().push(before.last().push(s.last()))
        } else {
            before.push(seq![s.last()])
        }
    }
}

/// A text without white space, and not empty.
pub open spec fn is_word(s: Seq<char>) -> bool {
    s.len() > 0 && forall|i: int| 0 <= i < s.len() ==> !is_space(#[trigger] s[i])
}

/// A word is its one word.
pub proof fn only_word(s: Seq<char>)
    requires
        is_word(s),
    ensures
        words(s) == seq![s],
    decreases s.len(),
{
    let start = s.drop_last();
    assert(!is_space(s.last()));
    if s.len() == 1 {
        assert(words(start) =~= Seq::empty());
        assert(seq![s.last()] =~= s);
        assert(words(s) =~= seq![s]);
    } else {
        assert(is_word(start));
        only_word(start);
        assert(!is_space(s[s.len() - 2]));
        assert(words(start).drop_last() =~= Seq::empty());
        assert(words(start).last().push(s.last()) =~= s);
        assert(words(s) =~= seq![s]);
    }
}

/// A word behind a blank is the last word.
pub proof fn last_word(a: Seq<char>, blank: char, b: Seq<char>)
    requires
        is_space(blank),
        is_word(b),
    ensures
        words(a + seq![blank] + b) == words(a).push(b),
    decreases b.len(),
{
    let s = a + seq![blank] + b;
    let start = b.drop_last();
    assert(!is_space(b.last()));
    assert(s.last() == b.last());
    if b.len() == 1 {
        assert(s.drop_last() =~= a + seq![blank]);
        assert((a + seq![blank]).drop_last() =~= a);
        assert((a + seq![blank]).last() == blank);
        assert(words(a + seq![blank]) == words(a));
        assert(s[s.len() - 2] == blank);
        assert(seq![s.last()] =~= b);
    } else {
        assert(is_word(start));
        last_word(a, blank, start);
        assert(s.drop_last() =~= a + seq![blank] + start);
        assert(s[s.len() - 2] == b[b.len() - 2]);
        assert(words(s.drop_last()).drop_last() =~= words(a));
        assert(start.push(s.last()) =~= b);
    }
}

/// The words of a text.
pub fn split_words(s: &str) -> (r: Vec<Vec<char>>)
    ensures
        chars_views(r@) == words(s@),
{
    let v = chars_of(s);
    let mut out: Vec<Vec<char>> = Vec::new();
    let mut current: Vec<char> = Vec::new();
    let mut i: usize = 0;
    while i < v.len()
        invariant
            i <= v.len(),
            (current@.len() > 0) == (i > 0 && !is_space(v@[i - 1])),
            words(v@.take(i as int)) == (if current@.len() > 0 {
                chars_views(out@).push(current@)
            } else {
                chars_views(out@)
            }),
        decreases v.len() - i,
    {
        let c = v[i];
        let ghost upto = v@.take(i + 1);
        let ghost before = words(v@.take(i as int));
        let ghost old_current = current@;
        let ghost old_out = out@;
        assert(upto.drop_last() =~= v@.take(i as int));
        assert(upto.last() == c);
        assert(i > 0 ==> upto[i - 1] == v@[i - 1]);
        if space(c) {
            if current.len() > 0 {
                out.push(current);
                current = Vec::new();
                assert(chars_views(out@) =~= chars_views(old_out).push(old_current));
            }
            assert(words(upto) =~= chars_views(out@));
        } else {
            current.push(c);
            proof {
                if old_current.len() > 0 {
                    assert(before.drop_last() =~= chars_views(old_out));
                    assert(before.last() == old_current);
                } else {
                    assert(current@ =~= seq![c]);
                }
            }
            assert(words(upto) =~= chars_views(out@).push(current@));
        }
        i += 1;
    }
    assert(v@.take(v@.len() as int) =~= v@);
    if current.len() > 0 {
        let ghost old_current = current@;
        let ghost old_out = out@;
        out.push(current);
        assert(chars_views(out@) =~= chars_views(old_out).push(old_current));
    }
    out
}

/// A text that neither begins nor ends with white space is trimmed.
pub proof fn trimmed_is_fixed(s: Seq<char>)
    requires
        s.len() == 0 || (!is_space(s[0]) && !is_space(s.last())),
    ensures
        trimmed(s) == s,
{
}

/// Some texts with a separator between them.
pub open spec fn joined(parts: Seq<Seq<char>>, sep: Seq<char>) -> Seq<char>
    decreases parts.len(),
{
    if parts.len() == 0 {
        Seq::empty()
    } else if parts.len() == 1 {
        parts[0]
    } else {
        joined(parts.drop_last(), sep) + sep + parts.last()
    }
}

/// Joins some texts with a separator.
pub fn join(parts: &Vec<String>, sep: &str) -> (r: String)
    ensures
        r@ == joined(views(parts@), sep@),
{
    let mut out = String::new();
    let mut i: usize = 0;
    while i < parts.len()
        invariant
            i <= parts.len(),
            out@ == joined(views(parts@.take(i as int)), sep@),
        decreases parts.len() - i,
    {
        let ghost upto = views(parts@.take(i + 1));
        assert(upto.drop_last() =~= views(parts@.take(i as int)));
        assert(upto.last() == parts@[i as int]@);
        if i > 0 {
            out.append(sep);
        }
        out.append(parts[i].as_str());
        assert(out@ =~= joined(upto, sep@));
        i += 1;
    }
    assert(parts@.take(parts@.len() as int) =~= parts@);
    out
}

/// Copies some texts.
pub fn copy_texts(parts: &Vec<String>) -> (r: Vec<String>)
    ensures
        views(r@) == views(parts@),
        r@ == parts@,
{
    let mut out: Vec<String> = Vec::new();
    let mut i: usize = 0;
    while i < parts.len()
        invariant
            i <= parts.len(),
            out@ == parts@.take(i as int),
        decreases parts.len() - i,
    {
        out.push(parts[i].clone());
        assert(out@ =~= parts@.take(i + 1));
        i += 1;
    }
    assert(parts@.take(parts@.len() as int) =~= parts@);
    out
}

/// Appends a text to some texts.
pub fn push_text(texts: &mut Vec<String>, s: &str)
    ensures
        views(final(texts)@) == views(old(texts)@).push(s@),
        final(texts)@.len() == old(texts)@.len() + 1,
        forall|i: int| 0 <= i < old(texts)@.len() ==> final(texts)@[i] == old(texts)@[i],
        final(texts)@[old(texts)@.len() as int]@ == s@,
{
    texts.push(String::from_str(s));
    assert(views(texts@) =~= views(old(texts)@).push(s@));
}

/// What is left of a text at its start begins with no blank.
proof fn trim_start_is_bare(s: Seq<char>)
    ensures
        trim_start(s).len() > 0 ==> !is_space(trim_start(s)[0]),
    decreases s.len(),
{
    if s.len() > 0 && is_space(s[0]) {
        trim_start_is_bare(s.drop_first());
    }
}

/// What is left of a text at its end ends with no blank, and begins as it did.
proof fn trim_end_is_bare(s: Seq<char>)
    ensures
        trim_end(s).len() > 0 ==> !is_space(trim_end(s).last()) && trim_end(s)[0] == s[0],
    decreases s.len(),
{
    if s.len() > 0 && is_space(s.last()) {
        trim_end_is_bare(s.drop_last());
    }
}

/// Trimming a text twice is the same as once.
pub proof fn trimmed_is_stable(s: Seq<char>)
    ensures
        trimmed(trimmed(s)) == trimmed(s),
{
    trim_start_is_bare(s);
    trim_end_is_bare(trim_start(s));
    trimmed_is_fixed(trimmed(s));
}

/// A text whose words have one space between them, and nothing before or behind
/// them.
pub open spec fn tidy_words(s: Seq<char>) -> bool {
    &&& forall|i: int| 0 <= i < s.len() && is_space(#[trigger] s[i]) ==> s[i] == ' '
    &&& forall|i: int| 0 < i < s.len() && is_space(#[trigger] s[i]) ==> !is_space(s[i - 1])
    &&& s.len() > 0 ==> !is_space(s[0]) && !is_space(s.last())
}

/// Joining the words of a text tidies it.
pub proof fn collapsed_is_tidy(s: Seq<char>)
    ensures
        tidy_words(collapsed(s)),
    decreases s.len(),
{
    let keep = |c: char| !is_space(c);
    if s.len() > 0 {
        let before = collapsed(s.drop_last());
        collapsed_is_tidy(s.drop_last());
        assert(is_space(' '));
        if !is_space(s.last()) {
            let now = collapsed(s);
            if before.len() == 0 || (s.len() >= 2 && keep(s[s.len() - 2])) {
                assert(now =~= before.push(s.last()));
            } else {
                assert(now =~= before.push(' ').push(s.last()));
            }
        }
    }
}

/// The words of a tidy text are what it is; a space at its end is left out.
proof fn tidy_start_is_fixed(t: Seq<char>, n: int)
    requires
        tidy_words(t),
        0 <= n <= t.len(),
    ensures
        collapsed(t.take(n)) == (if n > 0 && is_space(t[n - 1]) {
            t.take(n - 1)
        } else {
            t.take(n)
        }),
    decreases n,
{
    let keep = |c: char| !is_space(c);
    let u = t.take(n);
    if n > 0 {
        tidy_start_is_fixed(t, n - 1);
        assert(u.drop_last() =~= t.take(n - 1));
        assert(u.last() == t[n - 1]);
        if n >= 2 {
            assert(u[n - 2] == t[n - 2]);
        }
        if is_space(t[n - 1]) {
            assert(!is_space(t[n - 2]));
        } else if n >= 2 && is_space(t[n - 2]) {
            assert(t[n - 2] == ' ');
            assert(n - 2 > 0);
            assert(u =~= t.take(n - 2).push(' ').push(t[n - 1]));
        } else {
            assert(u =~= t.take(n - 1).push(t[n - 1]));
        }
    } else {
        assert(u =~= Seq::<char>::empty());
    }
}

/// Joining the words of a text twice is the same as once.
pub proof fn collapsed_is_stable(s: Seq<char>)
    ensures
        collapsed(collapsed(s)) == collapsed(s),
{
    let t = collapsed(s);
    collapsed_is_tidy(s);
    tidy_start_is_fixed(t, t.len() as int);
    assert(t.take(t.len() as int) =~= t);
}

/// A part stands in the whole that it is put into.
pub proof fn part_stands(front: Seq<char>, part: Seq<char>, back: Seq<char>)
    ensures
        holds(front + part + back, part),
{
    let whole = front + part + back;
    let i = front.len() as int;
    assert(whole.subrange(i, i + part.len()) =~= part);
    assert(stands_at(whole, part, i));
}

/// What stands in a part stands in the whole.
pub proof fn part_stands_deeper(front: Seq<char>, middle: Seq<char>, back: Seq<char>, part: Seq<char>)
    requires
        holds(middle, part),
    ensures
        holds(front + middle + back, part),
{
    let k = choose|k: int| stands_at(middle, part, k);
    let whole = front + middle + back;
    let i = front.len() + k;
    assert(whole.subrange(i, i + part.len()) =~= middle.subrange(k, k + part.len()));
    assert(stands_at(whole, part, i));
}

/// Some texts, one behind the other.
pub open spec fn glued(pieces: Seq<Seq<char>>) -> Seq<char>
    decreases pieces.len(),
{
    if pieces.len() == 0 {
        Seq::empty()
    } else {
        glued(pieces.drop_last()) + pieces.last()
    }
}

/// The `n` texts from place `at` on, one behind the other.
pub open spec fn run(pieces: Seq<Seq<char>>, at: int, n: nat) -> Seq<char>
    decreases n,
{
    if n <= 1 {
        pieces[at]
    } else {
        run(pieces, at, (n - 1) as nat) + pieces[at + n - 1]
    }
}

/// Texts can be written in two runs.
proof fn glued_in_two(a: Seq<Seq<char>>, b: Seq<Seq<char>>)
    ensures
        glued(a + b) == glued(a) + glued(b),
    decreases b.len(),
{
    if b.len() == 0 {
        assert(a + b =~= a);
        assert(glued(a) + glued(b) =~= glued(a));
    } else {
        glued_in_two(a, b.drop_last());
        assert((a + b).drop_last() =~= a + b.drop_last());
        assert(glued(a) + (glued(b.drop_last()) + b.last()) =~= glued(a) + glued(b.drop_last())
            + b.last());
    }
}

/// A run of texts is those texts glued.
pub(crate) proof fn run_is_glued(pieces: Seq<Seq<char>>, at: int, n: nat)
    requires
        0 <= at,
        1 <= n,
        at + n <= pieces.len(),
    ensures
        run(pieces, at, n) == glued(pieces.subrange(at, at + n)),
    decreases n,
{
    let part = pieces.subrange(at, at + n);
    if n == 1 {
        assert(part.drop_last().len() == 0);
        assert(glued(part) == glued(part.drop_last()) + part.last());
        assert(glued(part) =~= pieces[at]);
    } else {
        run_is_glued(pieces, at, (n - 1) as nat);
        assert(part.drop_last() =~= pieces.subrange(at, at + n - 1));
    }
}

/// Texts that follow each other stand so in the whole.
pub(crate) proof fn run_stands(pieces: Seq<Seq<char>>, at: int, n: nat)
    requires
        0 <= at,
        1 <= n,
        at + n <= pieces.len(),
    ensures
        holds(glued(pieces), run(pieces, at, n)),
{
    let front = pieces.take(at);
    let part = pieces.subrange(at, at + n);
    let back = pieces.skip(at + n);
    assert(pieces =~= front + part + back);
    glued_in_two(front + part, back);
    glued_in_two(front, part);
    run_is_glued(pieces, at, n);
    let whole = glued(pieces);
    let i = glued(front).len() as int;
    assert(whole.subrange(i, i + glued(part).len()) =~= glued(part));
    assert(stands_at(whole, glued(part), i));
}

/// A text whose characters stand at a place of another stands in it.
pub(crate) proof fn text_stands(s: Seq<char>, part: Seq<char>, at: int)
    requires
        0 <= at,
        at + part.len() <= s.len(),
        forall|j: int| 0 <= j < part.len() ==> s[at + j] == #[trigger] part[j],
    ensures
        holds(s, part),
{
    assert(s.subrange(at, at + part.len()) =~= part);
    assert(stands_at(s, part, at));
}

/// Some word of a list stands in a text.
pub open spec fn holds_some(text: Seq<char>, words: Seq<Seq<char>>) -> bool {
    exists|k: int| 0 <= k < words.len() && holds(text, #[trigger] words[k])
}

/// A word that stands at a place of a text.
pub(crate) proof fn word_stands(text: Seq<char>, words: Seq<Seq<char>>, k: int, at: int)
    requires
        0 <= k < words.len(),
        0 <= at,
        at + words[k].len() <= text.len(),
        forall|j: int| 0 <= j < words[k].len() ==> text[at + j] == #[trigger] words[k][j],
    ensures
        holds_some(text, words),
{
    assert(text.subrange(at, at + words[k].len()) =~= words[k]);
    assert(stands_at(text, words[k], at));
    assert(holds(text, words[k]));
}

} // verus!
