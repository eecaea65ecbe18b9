//! What the first rows of a table say of its cells and columns.
use vstd::prelude::*;
use vstd::string::*;

use crate::counting::{all_counted, count_bound, count_upto, counted, none_found, same_condition};
use crate::import::cells::{
    cell_has_value, clean_text, has_value, header_text, header_words, normalize_value, Cell,
    CellValue,
};
use crate::text::{
    alphabetic, alphanumeric, chars_of, digit, is_alphabetic, is_digit, is_space, space,
    trim_chars, trimmed,
};

verus! {

/// Rows behind a header that are looked at for the shape of the table.
pub const SAMPLE_ROWS: usize = 8;

/// Number of first sheet rows scanned while searching for the header row.
pub const HEADER_SCAN_ROWS: usize = 50;

/// Rows gathered before a table is detected.
pub const DETECTION_BUFFER_ROWS: usize = 58;

/// Rows inspected when judging what a column holds. The detection buffer
/// already contains them, so a wider window costs nothing and stops a handful
/// of blank leading cells from deciding a column's fate.
pub const VALUE_SAMPLE_ROWS: usize = 58;

/// The letters of a text.
pub open spec fn letters(s: Seq<char>) -> nat {
    count_upto(s.len() as int, |i: int| alphabetic(s[i]))
}

/// The decimal digits of a text.
pub open spec fn digits(s: Seq<char>) -> nat {
    count_upto(s.len() as int, |i: int| is_digit(s[i]))
}

/// The white space of a text.
pub open spec fn spaces(s: Seq<char>) -> nat {
    count_upto(s.len() as int, |i: int| is_space(s[i]))
}

/// How many characters of each kind a text has.
struct CharCounts {
    letters: usize,
    digits: usize,
    spaces: usize,
}

/// Counts the characters of each kind.
fn count_chars(v: &Vec<char>) -> (r: CharCounts)
    ensures
        r.letters == letters(v@),
        r.digits == digits(v@),
        r.spaces == spaces(v@),
        forall|i: int| 0 <= i < v@.len() && is_digit(#[trigger] v@[i]) ==> !alphabetic(v@[i]),
{
    let ghost p_letter = |i: int| alphabetic(v@[i]);
    let ghost p_digit = |i: int| is_digit(v@[i]);
    let ghost p_space = |i: int| is_space(v@[i]);
    let mut r = CharCounts { letters: 0, digits: 0, spaces: 0 };
    let mut i: usize = 0;
    while i < v.len()
        invariant
            i <= v.len(),
            r.letters <= i,
            r.digits <= i,
            r.spaces <= i,
            p_letter == (|i: int| alphabetic(v@[i])),
            p_digit == (|i: int| is_digit(v@[i])),
            p_space == (|i: int| is_space(v@[i])),
            r.letters == count_upto(i as int, p_letter),
            r.digits == count_upto(i as int, p_digit),
            r.spaces == count_upto(i as int, p_space),
            forall|k: int| 0 <= k < i && is_digit(#[trigger] v@[k]) ==> !alphabetic(v@[k]),
        decreases v.len() - i,
    {
        let c = v[i];
        if is_alphabetic(c) {
            r.letters += 1;
        }
        if digit(c) {
            r.digits += 1;
        }
        if space(c) {
            r.spaces += 1;
        }
        i += 1;
    }
    r
}

/// A text that reads as a column label: some letters, and no fewer than digits.
pub open spec fn label_text(s: Seq<char>) -> bool {
    0 < s.len() <= 120 && letters(s) > 0 && letters(s) >= digits(s)
}

/// A cell that reads as a column label.
pub open spec fn label_cell(cell: Cell) -> bool {
    label_text(header_words(cell.value))
}

/// Tests whether a cell reads as a column label.
pub fn looks_like_header_label(cell: &Cell) -> (r: bool)
    ensures
        r == label_cell(*cell),
{
    let text = chars_of(header_text(cell).as_str());
    if text.len() == 0 || text.len() > 120 {
        return false;
    }
    let counts = count_chars(&text);
    counts.letters > 0 && counts.letters >= counts.digits
}

/// A blank that may stand inside a number: a space, or one that does not break.
pub open spec fn number_blank(c: char) -> bool {
    c == ' ' || c == '\u{00a0}' || c == '\u{202f}'
}

/// A text as it is tried for a number: without blanks, and with points for commas.
pub open spec fn bare_number_words(s: Seq<char>) -> Seq<char> {
    trimmed(s).filter(|c: char| !number_blank(c)).map_values(
        |c: char|
            if c == ',' {
                '.'
            } else {
                c
            },
    )
}

/// Brings a text to the form in which it is tried for a number.
pub fn bare_number_text(value: &str) -> (r: String)
    ensures
        r@ == bare_number_words(value@),
{
    let v = trim_chars(&chars_of(value));
    let ghost keep = |c: char| !number_blank(c);
    let ghost point = |c: char|
        if c == ',' {
            '.'
        } else {
            c
        };
    let mut out = String::new();
    let mut i: usize = 0;
    proof {
        reveal(Seq::filter);
        assert(out@ =~= v@.take(0).filter(keep).map_values(point));
    }
    while i < v.len()
        invariant
            i <= v@.len(),
            keep == (|c: char| !number_blank(c)),
            point == (|c: char|
                if c == ',' {
                    '.'
                } else {
                    c
                }),
            out@ == v@.take(i as int).filter(keep).map_values(point),
        decreases v.len() - i,
    {
        let c = v[i];
        let ghost before = v@.take(i as int).filter(keep);
        proof {
            reveal(Seq::filter);
            assert(v@.take(i + 1).drop_last() =~= v@.take(i as int));
        }
        if c == ',' {
            out.push('.');
            assert(out@ =~= before.push(c).map_values(point));
        } else if c != ' ' && c != '\u{00a0}' && c != '\u{202f}' {
            out.push(c);
            assert(out@ =~= before.push(c).map_values(point));
        }
        i += 1;
    }
    assert(v@.take(i as int) =~= v@);
    out
}

/// A cell that holds a number.
pub open spec fn numeric_cell(cell: Cell) -> bool {
    match cell.value {
        CellValue::Float { .. } | CellValue::Int(_) | CellValue::DateTime { .. } => true,
        CellValue::Text(_) => cell.bare_number,
        _ => false,
    }
}

/// Tests whether a cell holds a number.
pub fn looks_numeric_cell(cell: &Cell) -> (r: bool)
    ensures
        r == numeric_cell(*cell),
{
    match &cell.value {
        CellValue::Float { .. } => true,
        CellValue::Int(_) => true,
        CellValue::DateTime { .. } => true,
        CellValue::Text(_) => cell.bare_number,
        _ => false,
    }
}

/// A text that reads as the name of a country.
pub open spec fn country_text(s: Seq<char>) -> bool {
    let bare = trimmed(s);
    2 <= bare.len() <= 64 && forall|i: int|
        0 <= i < bare.len() ==> alphabetic(#[trigger] bare[i]) || is_space(bare[i]) || bare[i]
            == '-'
}

/// Tests whether a text reads as the name of a country.
pub fn looks_like_country(value: &str) -> (r: bool)
    ensures
        r == country_text(value@),
{
    let bare = trim_chars(&chars_of(value));
    if bare.len() < 2 || bare.len() > 64 {
        return false;
    }
    let mut i: usize = 0;
    while i < bare.len()
        invariant
            i <= bare.len(),
            bare@ == trimmed(value@),
            forall|j: int|
                0 <= j < i ==> alphabetic(#[trigger] bare@[j]) || is_space(bare@[j]) || bare@[j]
                    == '-',
        decreases bare.len() - i,
    {
        let c = bare[i];
        if !is_alphabetic(c) && !space(c) && c != '-' {
            assert(!(alphabetic(bare@[i as int]) || is_space(bare@[i as int]) || bare@[i as int]
                == '-'));
            return false;
        }
        i += 1;
    }
    true
}

/// The letters and digits of a text, in order.
pub open spec fn compact(s: Seq<char>) -> Seq<char> {
    s.filter(|c: char| alphanumeric(c))
}

/// A text that reads as a code: one word of a few letters and digits, at least
/// half of them digits.
pub open spec fn code_text(s: Seq<char>) -> bool {
    4 <= compact(s).len() <= 24 && spaces(s) == 0 && digits(compact(s)) * 2 >= compact(s).len()
}

/// A text that reads as a name: three letters or more, and more than digits.
pub open spec fn name_text(s: Seq<char>) -> bool {
    letters(s) >= 3 && letters(s) > digits(s)
}

/// The kinds of characters are told apart: a digit is no letter, and both count
/// among the letters and digits of a text.
pub open spec fn told_apart(s: Seq<char>) -> bool {
    forall|i: int|
        0 <= i < s.len() ==> (is_digit(#[trigger] s[i]) ==> !alphabetic(s[i])) && (is_digit(s[i])
            || alphabetic(s[i]) ==> alphanumeric(s[i]))
}

/// One more character counts by its kind.
proof fn counts_step(s: Seq<char>)
    requires
        s.len() > 0,
    ensures
        letters(s) == letters(s.drop_last()) + (if alphabetic(s.last()) {
            1nat
        } else {
            0nat
        }),
        digits(s) == digits(s.drop_last()) + (if is_digit(s.last()) {
            1nat
        } else {
            0nat
        }),
{
    let t = s.drop_last();
    let n = t.len() as int;
    assert forall|i: int| 0 <= i < n implies t[i] == s[i] by {}
    same_condition(n, |i: int| alphabetic(s[i]), |i: int| alphabetic(t[i]));
    same_condition(n, |i: int| is_digit(s[i]), |i: int| is_digit(t[i]));
}

/// The letters and digits of a text hold its letters and its digits.
proof fn compact_counts(s: Seq<char>)
    requires
        told_apart(s),
    ensures
        letters(s) + digits(s) <= compact(s).len(),
        digits(compact(s)) <= digits(s),
    decreases s.len(),
{
    reveal(Seq::filter);
    if s.len() > 0 {
        let t = s.drop_last();
        assert forall|i: int| 0 <= i < t.len() implies t[i] == s[i] by {}
        compact_counts(t);
        counts_step(s);
        assert(alphabetic(s.last()) || is_digit(s.last()) ==> alphanumeric(s.last())) by {
            assert(s.last() == s[s.len() - 1]);
        }
        assert(is_digit(s.last()) ==> !alphabetic(s.last())) by {
            assert(s.last() == s[s.len() - 1]);
        }
        if alphanumeric(s.last()) {
            assert(compact(s) =~= compact(t).push(s.last()));
            counts_step(compact(s));
            assert(compact(s).drop_last() =~= compact(t));
        } else {
            assert(compact(s) =~= compact(t));
        }
    }
}

/// Tests whether a text reads as a code. A code is no name.
pub fn looks_like_code(value: &str) -> (r: bool)
    ensures
        r == code_text(value@),
        r ==> !name_text(value@),
{
    let all = chars_of(value);
    let short = crate::import::aliases::keep_alphanumeric(&all);
    let counts = count_chars(&short);
    let spaces: usize = count_chars(&all).spaces;
    proof {
        count_bound(short@.len() as int, |i: int| is_digit(short@[i]));
        compact_counts(value@);
    }
    4 <= short.len() && short.len() <= 24 && spaces == 0 && counts.digits * 2 >= short.len()
}

/// Tests whether a text reads as a name.
pub fn looks_like_name(value: &str) -> (r: bool)
    ensures
        r == name_text(value@),
{
    let counts = count_chars(&chars_of(value));
    counts.letters >= 3 && counts.letters > counts.digits
}

/// The width of a row up to its last cell that says something.
pub open spec fn filled_width(row: Seq<Cell>) -> nat
    decreases row.len(),
{
    if row.len() == 0 {
        0
    } else if has_value(row.last().value) {
        row.len()
    } else {
        filled_width(row.drop_last())
    }
}

/// The width of a row up to its last cell that says something.
pub fn row_width(row: &Vec<Cell>) -> (r: usize)
    ensures
        r == filled_width(row@),
        r <= row@.len(),
{
    let mut end: usize = row.len();
    assert(row@.take(end as int) =~= row@);
    while end > 0
        invariant
            end <= row.len(),
            filled_width(row@.take(end as int)) == filled_width(row@),
        decreases end,
    {
        assert(row@.take(end as int).drop_last() =~= row@.take(end - 1));
        assert(row@.take(end as int).last() == row@[end - 1]);
        if cell_has_value(&row[end - 1]) {
            return end;
        }
        end -= 1;
    }
    0
}

/// What a sample cell can speak for.
#[derive(Clone, Copy, Debug, PartialEq, Eq, Structural)]
pub enum Vote {
    Number,
    Country,
    Code,
    Name,
    Anything,
}

/// A sample cell speaks for it.
pub open spec fn votes(cell: Cell, vote: Vote) -> bool {
    match vote {
        Vote::Number => cell.number,
        Vote::Country => country_text(clean_text(cell.value, false)),
        Vote::Code => code_text(clean_text(cell.value, false)),
        Vote::Name => name_text(clean_text(cell.value, false)),
        Vote::Anything => true,
    }
}

/// Row `i` of the samples has a clean text in a column.
pub open spec fn sampled(samples: Seq<Vec<Cell>>, column: int, i: int) -> bool {
    column < samples[i]@.len() && clean_text(samples[i]@[column].value, false).len() > 0
}

/// The number of rows that are looked at.
pub open spec fn sample_count(samples: Seq<Vec<Cell>>) -> int {
    if samples.len() < VALUE_SAMPLE_ROWS {
        samples.len() as int
    } else {
        VALUE_SAMPLE_ROWS as int
    }
}

/// How many sample rows have a clean text in a column.
pub open spec fn populated(samples: Seq<Vec<Cell>>, column: int) -> nat {
    count_upto(sample_count(samples), |i: int| sampled(samples, column, i))
}

/// How many of them speak for something.
pub open spec fn votes_for(samples: Seq<Vec<Cell>>, column: int, vote: Vote) -> nat {
    count_upto(
        sample_count(samples),
        |i: int| sampled(samples, column, i) && votes(samples[i]@[column], vote),
    )
}

/// At least `tenths` tenths of the texts of a column speak for something, and
/// there are some.
pub open spec fn agreed(samples: Seq<Vec<Cell>>, column: int, vote: Vote, tenths: nat) -> bool {
    populated(samples, column) > 0 && votes_for(samples, column, vote) * 10 >= populated(
        samples,
        column,
    ) * tenths
}

/// Counts the texts of a column in the rows from `from` on, and those that speak
/// for something.
pub fn poll(scanned: &Vec<Vec<Cell>>, from: usize, column: usize, vote: Vote) -> (r: (
    usize,
    usize,
))
    requires
        from <= scanned@.len(),
    ensures
        r.0 == populated(scanned@.skip(from as int), column as int),
        r.1 == votes_for(scanned@.skip(from as int), column as int, vote),
        r.0 <= 58,
        r.1 <= r.0,
        vote == Vote::Code ==> r.1 + votes_for(
            scanned@.skip(from as int),
            column as int,
            Vote::Name,
        ) <= r.0,
{
    let ghost samples = scanned@.skip(from as int);
    let ghost p = |i: int| sampled(samples, column as int, i);
    let ghost q = |i: int|
        sampled(samples, column as int, i) && votes(samples[i]@[column as int], vote);
    let ghost named = |i: int|
        sampled(samples, column as int, i) && votes(samples[i]@[column as int], Vote::Name);
    let mut filled: usize = 0;
    let mut speaking: usize = 0;
    let mut i: usize = 0;
    while i < VALUE_SAMPLE_ROWS && i < scanned.len() - from
        invariant
            from <= scanned@.len(),
            i <= 58,
            i <= scanned@.len() - from,
            samples == scanned@.skip(from as int),
            p == (|i: int| sampled(samples, column as int, i)),
            q == (|i: int|
                sampled(samples, column as int, i) && votes(samples[i]@[column as int], vote)),
            filled <= i,
            speaking <= filled,
            filled == count_upto(i as int, p),
            speaking == count_upto(i as int, q),
            named == (|i: int|
                sampled(samples, column as int, i) && votes(
                    samples[i]@[column as int],
                    Vote::Name,
                )),
            vote == Vote::Code ==> speaking + count_upto(i as int, named) <= filled,
        decreases 58 - i,
    {
        let row = &scanned[from + i];
        assert(samples[i as int] == *row);
        if column < row.len() {
            let cell = &row[column];
            let text = normalize_value(cell);
            if text.as_str().unicode_len() > 0 {
                filled += 1;
                let speaks = match vote {
                    Vote::Number => cell.number,
                    Vote::Country => looks_like_country(text.as_str()),
                    Vote::Code => looks_like_code(text.as_str()),
                    Vote::Name => looks_like_name(text.as_str()),
                    Vote::Anything => true,
                };
                if speaks {
                    speaking += 1;
                }
            }
        }
        i += 1;
    }
    (filled, speaking)
}

/// Tests whether a column's texts agree on something.
pub fn column_agrees(
    scanned: &Vec<Vec<Cell>>,
    from: usize,
    column: usize,
    vote: Vote,
    tenths: usize,
) -> (r: bool)
    requires
        from <= scanned@.len(),
        tenths <= 10,
    ensures
        r == agreed(scanned@.skip(from as int), column as int, vote, tenths as nat),
        r && vote == Vote::Code && tenths > 3 ==> !agreed(
            scanned@.skip(from as int),
            column as int,
            Vote::Name,
            7,
        ),
{
    let (filled, speaking) = poll(scanned, from, column, vote);
    assert(filled * tenths <= 580) by (nonlinear_arith)
        requires
            filled <= 58,
            tenths <= 10,
    ;
    assert(tenths > 3 ==> filled * tenths >= filled * 4) by (nonlinear_arith)
        requires
            filled >= 0,
            tenths >= 0,
    ;
    filled > 0 && speaking * 10 >= filled * tenths
}

/// How many texts a column has in the sample rows.
pub fn column_population(scanned: &Vec<Vec<Cell>>, from: usize, column: usize) -> (r: usize)
    requires
        from <= scanned@.len(),
    ensures
        r == populated(scanned@.skip(from as int), column as int),
{
    poll(scanned, from, column, Vote::Anything).0
}

/// The detection buffer holds the rows that are searched for the header and those
/// behind the last of them, and all of them are sampled.
pub proof fn the_buffer_holds_header_and_samples()
    ensures
        DETECTION_BUFFER_ROWS == HEADER_SCAN_ROWS + SAMPLE_ROWS,
        HEADER_SCAN_ROWS == 50,
        SAMPLE_ROWS == 8,
        VALUE_SAMPLE_ROWS == DETECTION_BUFFER_ROWS,
{
}

/// A text of letters alone, of up to 120 characters, is a label, and so is one
/// with as many digits as letters; what is empty, longer, without a letter or
/// mostly of digits is none.
pub proof fn labels_are_mostly_letters(s: Seq<char>)
    ensures
        1 <= s.len() <= 120 && (forall|i: int|
            0 <= i < s.len() ==> alphabetic(#[trigger] s[i]) && !is_digit(s[i])) ==> label_text(s),
        label_text(s) ==> 1 <= s.len() <= 120 && letters(s) >= 1 && digits(s) <= letters(s),
        1 <= s.len() <= 120 && letters(s) >= 1 && letters(s) == digits(s) ==> label_text(s),
        (forall|i: int| 0 <= i < s.len() ==> !alphabetic(#[trigger] s[i])) ==> !label_text(s),
        s.len() > 120 ==> !label_text(s),
{
    let letter = |i: int| alphabetic(s[i]);
    let figure = |i: int| is_digit(s[i]);
    if forall|i: int| 0 <= i < s.len() ==> alphabetic(#[trigger] s[i]) && !is_digit(s[i]) {
        assert forall|i: int| 0 <= i < s.len() implies #[trigger] letter(i) by {
            assert(alphabetic(s[i]));
        }
        all_counted(s.len() as int, letter);
        assert forall|i: int| 0 <= i < s.len() implies !#[trigger] figure(i) by {
            assert(alphabetic(s[i]));
        }
        none_found(s.len() as int, figure);
    }
    if forall|i: int| 0 <= i < s.len() ==> !alphabetic(#[trigger] s[i]) {
        assert forall|i: int| 0 <= i < s.len() implies !#[trigger] letter(i) by {
            assert(!alphabetic(s[i]));
        }
        none_found(s.len() as int, letter);
    }
}

/// Numbers and moments are numbers, a text is one where it reads as one, and
/// nothing else is.
pub proof fn numbers_are_numeric(cell: Cell)
    ensures
        cell.value is Float || cell.value is Int || cell.value is DateTime ==> numeric_cell(cell),
        cell.value is Text ==> numeric_cell(cell) == cell.bare_number,
        cell.value is Empty || cell.value is Error || cell.value is Bool ==> !numeric_cell(cell),
{
}

/// A text that is tried for a number holds neither a blank of the three kinds that
/// group digits nor a comma.
pub proof fn a_bare_number_has_no_blank_and_no_comma(s: Seq<char>)
    ensures
        forall|i: int|
            0 <= i < bare_number_words(s).len() ==> (#[trigger] bare_number_words(s)[i]) != ','
                && bare_number_words(s)[i] != ' ' && bare_number_words(s)[i] != '\u{00a0}'
                && bare_number_words(s)[i] != '\u{202f}',
{
    let keep = |c: char| !number_blank(c);
    let kept = trimmed(s).filter(keep);
    assert forall|i: int| 0 <= i < bare_number_words(s).len() implies (
    #[trigger] bare_number_words(s)[i]) != ',' && bare_number_words(s)[i] != ' '
        && bare_number_words(s)[i] != '\u{00a0}' && bare_number_words(s)[i] != '\u{202f}' by {
        trimmed(s).lemma_filter_pred(keep, i);
        assert(keep(kept[i]));
    }
}

/// A row ends behind its last cell that says something.
pub proof fn a_row_ends_behind_its_last_value(row: Seq<Cell>)
    ensures
        filled_width(row) <= row.len(),
        filled_width(row) > 0 ==> has_value(row[filled_width(row) - 1].value),
        forall|i: int| filled_width(row) <= i < row.len() ==> !has_value((#[trigger] row[i]).value),
    decreases row.len(),
{
    if row.len() > 0 && !has_value(row.last().value) {
        a_row_ends_behind_its_last_value(row.drop_last());
        assert forall|i: int| filled_width(row) <= i < row.len() implies !has_value(
            (#[trigger] row[i]).value,
        ) by {
            if i < row.len() - 1 {
                assert(row.drop_last()[i] == row[i]);
            }
        }
    }
}

/// A column agrees on something by tenths of its texts: seven texts of ten are
/// enough where seven tenths are asked for, and six are not; a column without a
/// text agrees on nothing, and all texts agree on anything asked.
pub proof fn texts_agree_by_tenths(
    samples: Seq<Vec<Cell>>,
    column: int,
    vote: Vote,
    tenths: nat,
    k: nat,
)
    requires
        1 <= tenths <= 10,
    ensures
        populated(samples, column) == 0 ==> !agreed(samples, column, vote, tenths),
        populated(samples, column) == 10 * k && k > 0 && votes_for(samples, column, vote) == tenths
            * k ==> agreed(samples, column, vote, tenths),
        populated(samples, column) == 10 * k && votes_for(samples, column, vote) + 1 == tenths * k
            ==> !agreed(samples, column, vote, tenths),
        populated(samples, column) > 0 && votes_for(samples, column, vote) == populated(
            samples,
            column,
        ) ==> agreed(samples, column, vote, tenths),
{
    let p = populated(samples, column);
    let v = votes_for(samples, column, vote);
    assert((tenths * k) * 10 == (10 * k) * tenths) by (nonlinear_arith);
    assert(p * tenths <= p * 10) by (nonlinear_arith)
        requires
            tenths <= 10,
    ;
}

/// A country's name has two to 64 characters, all of them letters, blanks or
/// hyphens; a code is one word of four to 24 letters and digits, at least half of
/// them digits; a name has three letters or more, and more letters than digits.
pub proof fn countries_codes_and_names_look_different(s: Seq<char>)
    ensures
        trimmed(s).len() < 2 || trimmed(s).len() > 64 ==> !country_text(s),
        2 <= trimmed(s).len() <= 64 && (forall|i: int|
            0 <= i < trimmed(s).len() ==> alphabetic(#[trigger] trimmed(s)[i])) ==> country_text(s),
        code_text(s) ==> 4 <= compact(s).len() <= 24 && forall|i: int|
            0 <= i < s.len() ==> !is_space(#[trigger] s[i]),
        code_text(s) ==> digits(compact(s)) >= 2,
        letters(s) < 3 || letters(s) <= digits(s) ==> !name_text(s),
        letters(s) >= 3 && digits(s) == 0 ==> name_text(s),
{
    if code_text(s) {
        assert forall|i: int| 0 <= i < s.len() implies !is_space(#[trigger] s[i]) by {
            if is_space(s[i]) {
                counted(s.len() as int, |k: int| is_space(s[k]), i);
            }
        }
    }
}

} // verus!
