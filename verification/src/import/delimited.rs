//! Delimited text tables.
use vstd::prelude::*;
use vstd::string::*;

use crate::counting::count_upto;
use crate::import::cells::{strip_marks, without_marks};
use crate::paths::{lower_ascii, FilePath, PathModel};
use crate::text::{ascii_lowered, collapse_ws, collapsed, same};

verus! {

/// The delimiters that are tried, in this order.
pub const DELIMITERS: [u8; 4] = [9, 59, 44, 124];

/// The numbers of fields of the records from byte `i` on, where the record that
/// byte `i` belongs to has `fields` fields so far: at most `limit` records. A
/// quotation mark opens and closes a quoted field, and stands for itself when
/// doubled inside one; a delimiter or a line end inside quotes is text. A last
/// record without a line end counts if it has several fields.
pub open spec fn widths_from(
    s: Seq<u8>,
    delimiter: u8,
    i: int,
    fields: nat,
    quoted: bool,
    limit: nat,
) -> Seq<nat>
    decreases s.len() - i,
{
    if limit == 0 {
        Seq::empty()
    } else if i < 0 || i >= s.len() {
        if fields > 1 {
            seq![fields]
        } else {
            Seq::empty()
        }
    } else if s[i] == 34 {
        if quoted && i + 1 < s.len() && s[i + 1] == 34 {
            widths_from(s, delimiter, i + 2, fields, quoted, limit)
        } else {
            widths_from(s, delimiter, i + 1, fields, !quoted, limit)
        }
    } else if s[i] == delimiter && !quoted {
        widths_from(s, delimiter, i + 1, fields + 1, quoted, limit)
    } else if s[i] == 10 && !quoted {
        seq![fields] + widths_from(s, delimiter, i + 1, 1, quoted, (limit - 1) as nat)
    } else {
        widths_from(s, delimiter, i + 1, fields, quoted, limit)
    }
}

/// The numbers of fields of the first records.
pub open spec fn record_widths(s: Seq<u8>, delimiter: u8, limit: nat) -> Seq<nat> {
    widths_from(s, delimiter, 0, 1, false, limit)
}

/// Some counts as numbers.
pub open spec fn numbers(v: Seq<usize>) -> Seq<nat> {
    v.map_values(|n: usize| n as nat)
}

/// Counts the fields of the first records.
pub fn delimited_record_widths(sample: &Vec<u8>, delimiter: u8, limit: usize) -> (r: Vec<usize>)
    requires
        sample@.len() < usize::MAX,
    ensures
        numbers(r@) == record_widths(sample@, delimiter, limit as nat),
{
    let ghost all = record_widths(sample@, delimiter, limit as nat);
    let mut widths: Vec<usize> = Vec::new();
    let mut fields: usize = 1;
    let mut quoted = false;
    let mut index: usize = 0;
    assert(numbers(widths@) =~= Seq::<nat>::empty());
    while index < sample.len() && widths.len() < limit
        invariant
            index <= sample@.len() < usize::MAX,
            widths@.len() <= limit,
            fields <= index + 1,
            numbers(widths@) + widths_from(
                sample@,
                delimiter,
                index as int,
                fields as nat,
                quoted,
                (limit - widths@.len()) as nat,
            ) == all,
        decreases sample.len() - index,
    {
        let byte: u8 = sample[index];
        if byte == 34 {
            if quoted && index + 1 < sample.len() && sample[index + 1] == 34 {
                index += 1;
            } else {
                quoted = !quoted;
            }
        } else if byte == delimiter && !quoted {
            fields += 1;
        } else if byte == 10 && !quoted {
            let ghost before = widths@;
            let ghost rest = widths_from(
                sample@,
                delimiter,
                index + 1,
                1,
                quoted,
                (limit - widths@.len() - 1) as nat,
            );
            widths.push(fields);
            assert(numbers(widths@) =~= numbers(before).push(fields as nat));
            assert(numbers(widths@) + rest =~= numbers(before) + (seq![fields as nat] + rest));
            fields = 1;
        }
        index += 1;
    }
    if fields > 1 && widths.len() < limit {
        let ghost before = widths@;
        widths.push(fields);
        assert(numbers(widths@) =~= numbers(before) + seq![fields as nat]);
    } else {
        assert(numbers(widths@) + Seq::<nat>::empty() =~= numbers(widths@));
    }
    widths
}

/// Record `k` has the width `w`.
pub open spec fn has_width(widths: Seq<nat>, w: nat, k: int) -> bool {
    widths[k] == w
}

/// How many records have the width `w`.
pub open spec fn frequency(widths: Seq<nat>, w: nat) -> nat {
    count_upto(widths.len() as int, |k: int| has_width(widths, w, k))
}

/// How well a delimiter fits: how many records share a width, that width, and
/// the delimiter itself. A fit is better by the first of these that differs.
#[derive(Clone, Copy, Debug, PartialEq, Eq, Structural)]
pub struct Fit {
    pub frequency: usize,
    pub width: usize,
    pub delimiter: u8,
}

/// One fit is better than another.
pub open spec fn better(a: Fit, b: Fit) -> bool {
    a.frequency > b.frequency || (a.frequency == b.frequency && (a.width > b.width || (a.width
        == b.width && a.delimiter > b.delimiter)))
}

/// Tests whether one fit is better than another.
fn is_better(a: Fit, b: Fit) -> (r: bool)
    ensures
        r == better(a, b),
{
    a.frequency > b.frequency || (a.frequency == b.frequency && (a.width > b.width || (a.width
        == b.width && a.delimiter > b.delimiter)))
}

/// A delimiter gives the records of a sample a shared width above one.
pub open spec fn fits(sample: Seq<u8>, fit: Fit) -> bool {
    let widths = record_widths(sample, fit.delimiter, 24);
    &&& DELIMITERS@.contains(fit.delimiter)
    &&& fit.width > 1
    &&& widths.contains(fit.width as nat)
    &&& fit.frequency == frequency(widths, fit.width as nat)
}

/// Counts the records of a width.
fn count_width(widths: &Vec<usize>, w: usize) -> (r: usize)
    ensures
        r == frequency(numbers(widths@), w as nat),
        r <= widths@.len(),
{
    let ghost all = numbers(widths@);
    let ghost n = w as nat;
    let ghost p = |k: int| has_width(all, n, k);
    let mut count: usize = 0;
    let mut k: usize = 0;
    while k < widths.len()
        invariant
            k <= widths@.len(),
            all == numbers(widths@),
            n == w,
            p == (|k: int| has_width(all, n, k)),
            count <= k,
            count == count_upto(k as int, p),
        decreases widths.len() - k,
    {
        if widths[k] == w {
            count += 1;
        }
        k += 1;
    }
    assert(all.len() == widths@.len());
    count
}

/// The best fit so far, with the fits of one more delimiter.
fn improve(sample: &Vec<u8>, delimiter: u8, best: Option<Fit>) -> (r: Option<Fit>)
    requires
        sample@.len() < usize::MAX,
        DELIMITERS@.contains(delimiter),
        best matches Some(b) ==> fits(sample@, b),
    ensures
        r matches Some(b) ==> fits(sample@, b),
        r is None ==> best is None,
        forall|f: Fit| #[trigger]
            fits(sample@, f) && f.delimiter == delimiter ==> r is Some && !better(f, r->0),
        best matches Some(b) ==> r is Some && !better(b, r->0),
        forall|f: Fit| best is Some && !better(f, best->0) ==> r is Some && !#[trigger] better(
            f,
            r->0,
        ),
{
    let widths = delimited_record_widths(sample, delimiter, 24);
    let ghost all = numbers(widths@);
    let mut top = best;
    let mut k: usize = 0;
    while k < widths.len()
        invariant
            k <= widths@.len(),
            DELIMITERS@.contains(delimiter),
            all == numbers(widths@),
            all == record_widths(sample@, delimiter, 24),
            top matches Some(b) ==> fits(sample@, b),
            top is None ==> best is None,
            forall|j: int|
                0 <= j < k && all[j] > 1 ==> top is Some && !better(
                    (Fit {
                        frequency: frequency(all, #[trigger] all[j]) as usize,
                        width: all[j] as usize,
                        delimiter,
                    }),
                    top->0,
                ),
            best matches Some(b) ==> top is Some && !better(b, top->0),
            forall|f: Fit| best is Some && !better(f, best->0) ==> top is Some && !#[trigger] better(
                f,
                top->0,
            ),
        decreases widths.len() - k,
    {
        let w: usize = widths[k];
        assert(all[k as int] == w as nat);
        if w > 1 {
            let fit = Fit { frequency: count_width(&widths, w), width: w, delimiter };
            assert(all.contains(w as nat));
            let replace = match top {
                Some(b) => is_better(fit, b),
                None => true,
            };
            if replace {
                top = Some(fit);
            }
        }
        k += 1;
    }
    proof {
        assert forall|f: Fit| #[trigger] fits(sample@, f) && f.delimiter == delimiter implies top is Some
            && !better(f, top->0) by {
            let j = choose|j: int| 0 <= j < all.len() && all[j] == f.width as nat;
            assert(all[j] > 1);
            assert(f.frequency == frequency(all, all[j]));
        }
    }
    top
}

/// The delimiter of a sample, by the best fit of all delimiters.
pub open spec fn best_fit(sample: Seq<u8>, fit: Fit) -> bool {
    fits(sample, fit) && forall|f: Fit| #[trigger] fits(sample, f) ==> !better(f, fit)
}

/// The delimiter of a table that shows none, by the name of its file: a tab in a
/// `.tsv` file, else a comma.
pub open spec fn own_delimiter(path: PathModel) -> u8 {
    match path.extension() {
        Some(e) => if ascii_lowered(e) == "tsv"@ {
            9
        } else {
            44
        },
        None => 44,
    }
}

/// The delimiter of a table that shows none.
fn default_delimiter(path: &FilePath) -> (r: u8)
    ensures
        r == own_delimiter(path@),
{
    match path.extension() {
        Some(e) => if same(lower_ascii(e.as_str()).as_str(), "tsv") {
            9
        } else {
            44
        },
        None => 44,
    }
}

/// Finds the delimiter of a table by the first bytes of its file. A table of one
/// column shows no delimiter and is read by that of its kind of file.
pub fn detect_delimiter(path: &FilePath, sample: &Vec<u8>) -> (r: Result<u8, String>)
    requires
        sample@.len() < usize::MAX,
    ensures
        match r {
            Ok(d) => sample@.len() > 0 && if exists|f: Fit| fits(sample@, f) {
                exists|fit: Fit| #[trigger] best_fit(sample@, fit) && fit.delimiter == d
            } else {
                d == own_delimiter(path@)
            },
            Err(e) => sample@.len() == 0 && e@ == "The delimited file is empty."@,
        },
{
    if sample.len() == 0 {
        return Err(String::from_str("The delimited file is empty."));
    }
    assert(DELIMITERS@[0] == 9 && DELIMITERS@[1] == 59 && DELIMITERS@[2] == 44 && DELIMITERS@[3]
        == 124);
    let a = improve(sample, 9, None);
    let b = improve(sample, 59, a);
    let c = improve(sample, 44, b);
    let d = improve(sample, 124, c);
    proof {
        assert forall|f: Fit| #[trigger] fits(sample@, f) implies d is Some && !better(f, d->0) by {
            assert(f.delimiter == 9 || f.delimiter == 59 || f.delimiter == 44 || f.delimiter
                == 124);
            if f.delimiter == 9 {
                assert(!better(f, a->0));
                assert(!better(f, b->0));
                assert(!better(f, c->0));
            } else if f.delimiter == 59 {
                assert(!better(f, b->0));
                assert(!better(f, c->0));
            } else if f.delimiter == 44 {
                assert(!better(f, c->0));
            }
        }
    }
    match d {
        Some(fit) => {
            assert(best_fit(sample@, fit));
            Ok(fit.delimiter)
        },
        None => Ok(default_delimiter(path)),
    }
}

/// Of the delimiters of a sample one at most fits best.
pub proof fn best_fit_is_unique(sample: Seq<u8>, a: Fit, b: Fit)
    requires
        best_fit(sample, a),
        best_fit(sample, b),
    ensures
        a == b,
{
    assert(!better(a, b) && !better(b, a));
}

/// The text of a previewed field: the first of a record without byte order marks.
pub open spec fn preview_field(value: Seq<char>, index: int) -> Seq<char> {
    if index == 0 {
        collapsed(without_marks(value))
    } else {
        collapsed(value)
    }
}

/// The text of a previewed field.
pub fn clean_preview_field(value: &str, index: usize) -> (r: String)
    ensures
        r@ == preview_field(value@, index as int),
{
    if index == 0 {
        collapse_ws(strip_marks(value).as_str())
    } else {
        collapse_ws(value)
    }
}

/// The separator of a table is one of tab, semicolon, comma and bar; one that
/// gives more records of one width is preferred, then one that gives wider ones.
pub proof fn the_most_regular_separator_is_best(sample: Seq<u8>, a: Fit, b: Fit)
    requires
        fits(sample, a),
        best_fit(sample, b),
    ensures
        b.delimiter == 9 || b.delimiter == 59 || b.delimiter == 44 || b.delimiter == 124,
        b.width > 1,
        a.frequency <= b.frequency,
        a.frequency == b.frequency ==> a.width <= b.width,
{
    assert(!better(a, b));
}

} // verus!
