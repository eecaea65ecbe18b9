//! Spreadsheet cells and their clean texts.
use vstd::prelude::*;
use vstd::string::*;

use crate::calendar::{
    civil, date_text, day_number, every_plausible_day_is_read, excel_serial_to_iso, format_date,
    format_time, not_before, serial_text, time_text, Serial,
};
use crate::digest::{feed, hash_128, le_byte, le_bytes, new_hasher, xxh3_128_of};
use crate::number::{signed_decimal, signed_text};
use crate::text::{chars_of, collapse_ws, collapsed, stretch, string_of, trim, trimmed};

verus! {

/// The fields of a date and time cell. `time_only` marks a fraction of a day
/// without a date.
#[derive(Clone, Copy, Debug, PartialEq, Eq, Structural)]
pub struct Moment {
    pub time_only: bool,
    pub year: i32,
    pub month: u32,
    pub day: u32,
    pub hour: u32,
    pub minute: u32,
    pub second: u32,
}

/// What a cell holds. A fractional number comes with the text that a header
/// shows (`shown`), the clean text of its value (`text`), and its reading as a
/// serial date; a date and time comes with its fields where it has any.
#[derive(Clone, Debug)]
pub enum CellValue {
    Empty,
    Error(String),
    Text(String),
    Float { shown: String, text: String, serial: Option<Serial> },
    Int(i64),
    Bool(bool),
    DateTime { shown: String, text: String, moment: Option<Moment> },
    DateTimeIso(String),
    DurationIso(String),
}

/// A cell: its value, and what the two number readers say of it.
#[derive(Clone, Debug)]
pub struct Cell {
    pub value: CellValue,
    /// Whether a text is one finite number once blanks are taken out.
    pub bare_number: bool,
    /// Whether the store reads the clean text of the value as a number.
    pub number: bool,
}

/// A value that says something.
pub open spec fn has_value(value: CellValue) -> bool {
    match value {
        CellValue::Empty | CellValue::Error(_) => false,
        CellValue::Text(s) | CellValue::DateTimeIso(s) | CellValue::DurationIso(s) => trimmed(
            s@,
        ).len() > 0,
        _ => true,
    }
}

/// Tests whether a cell says something.
pub fn cell_has_value(cell: &Cell) -> (r: bool)
    ensures
        r == has_value(cell.value),
{
    match &cell.value {
        CellValue::Empty => false,
        CellValue::Error(_) => false,
        CellValue::Text(s) => trim(s.as_str()).as_str().unicode_len() > 0,
        CellValue::DateTimeIso(s) => trim(s.as_str()).as_str().unicode_len() > 0,
        CellValue::DurationIso(s) => trim(s.as_str()).as_str().unicode_len() > 0,
        CellValue::Float { .. } => true,
        CellValue::Int(_) => true,
        CellValue::Bool(_) => true,
        CellValue::DateTime { .. } => true,
    }
}

/// A text without the byte order marks in front.
pub open spec fn without_marks(s: Seq<char>) -> Seq<char>
    decreases s.len(),
{
    if s.len() > 0 && s[0] == '\u{feff}' {
        without_marks(s.drop_first())
    } else {
        s
    }
}

/// Cuts the byte order marks in front of a text off.
pub fn strip_marks(s: &str) -> (r: String)
    ensures
        r@ == without_marks(s@),
{
    let v = chars_of(s);
    let mut from: usize = 0;
    assert(v@.subrange(0, v@.len() as int) =~= v@);
    while from < v.len() && v[from] == '\u{feff}'
        invariant
            from <= v.len(),
            without_marks(v@.subrange(from as int, v@.len() as int)) == without_marks(v@),
        decreases v.len() - from,
    {
        assert(v@.subrange(from as int, v@.len() as int).drop_first() =~= v@.subrange(
            from + 1,
            v@.len() as int,
        ));
        from += 1;
    }
    string_of(&stretch(&v, from, v.len()))
}

/// The text that a cell shows as a header.
pub open spec fn header_words(value: CellValue) -> Seq<char> {
    match value {
        CellValue::Text(s) => collapsed(without_marks(s@)),
        CellValue::Empty => Seq::empty(),
        CellValue::Error(s) => collapsed(s@),
        CellValue::Float { shown, .. } => collapsed(shown@),
        CellValue::Int(n) => collapsed(signed_decimal(n as int)),
        CellValue::Bool(b) => collapsed(
            if b {
                "true"@
            } else {
                "false"@
            },
        ),
        CellValue::DateTime { shown, .. } => collapsed(shown@),
        CellValue::DateTimeIso(s) => collapsed(s@),
        CellValue::DurationIso(s) => collapsed(s@),
    }
}

/// The text that a cell shows as a header.
pub fn header_text(cell: &Cell) -> (r: String)
    ensures
        r@ == header_words(cell.value),
{
    match &cell.value {
        CellValue::Text(s) => collapse_ws(strip_marks(s.as_str()).as_str()),
        CellValue::Empty => String::new(),
        CellValue::Error(s) => collapse_ws(s.as_str()),
        CellValue::Float { shown, .. } => collapse_ws(shown.as_str()),
        CellValue::Int(n) => collapse_ws(signed_text(*n).as_str()),
        CellValue::Bool(b) => collapse_ws(
            if *b {
                "true"
            } else {
                "false"
            },
        ),
        CellValue::DateTime { shown, .. } => collapse_ws(shown.as_str()),
        CellValue::DateTimeIso(s) => collapse_ws(s.as_str()),
        CellValue::DurationIso(s) => collapse_ws(s.as_str()),
    }
}

/// The text of a date and time: without a date if there is none, and without a
/// time at midnight.
pub open spec fn moment_text(m: Moment) -> Seq<char> {
    let date = date_text(m.year as int, m.month as int, m.day as int);
    let time = time_text(m.hour as int, m.minute as int, m.second as int);
    if m.time_only {
        time
    } else if m.hour == 0 && m.minute == 0 && m.second == 0 {
        date
    } else {
        date + seq![' '] + time
    }
}

/// The text of a date and time.
pub fn format_moment(m: Moment) -> (r: String)
    ensures
        r@ == moment_text(m),
{
    let time = format_time(m.hour, m.minute, m.second);
    if m.time_only {
        return time;
    }
    let mut out = format_date(m.year, m.month, m.day);
    if m.hour == 0 && m.minute == 0 && m.second == 0 {
        return out;
    }
    out.push(' ');
    out.append(time.as_str());
    assert(out@ =~= moment_text(m));
    out
}

/// The serial reading of a whole number.
pub open spec fn whole_serial(n: i64) -> Serial {
    Serial { days: n, whole: true, secs: 0 }
}

/// The clean text of a value. In a date column a plausible serial number is a date.
pub open spec fn clean_text(value: CellValue, expect_date: bool) -> Seq<char> {
    match value {
        CellValue::Empty | CellValue::Error(_) => Seq::empty(),
        CellValue::Text(s) | CellValue::DateTimeIso(s) | CellValue::DurationIso(s) => collapsed(s@),
        CellValue::Float { text, serial, .. } => match serial {
            Some(serial) => if expect_date && serial_text(serial) is Some {
                serial_text(serial)->0
            } else {
                text@
            },
            None => text@,
        },
        CellValue::Int(n) => if expect_date && serial_text(whole_serial(n)) is Some {
            serial_text(whole_serial(n))->0
        } else {
            signed_decimal(n as int)
        },
        CellValue::Bool(b) => if b {
            "TRUE"@
        } else {
            "FALSE"@
        },
        CellValue::DateTime { text, moment, .. } => match moment {
            Some(m) => moment_text(m),
            None => text@,
        },
    }
}

/// Converts a cell value to a clean string: integer-like numbers without ".0",
/// ISO dates, and collapsed whitespace.
pub fn normalize_value(cell: &Cell) -> (r: String)
    ensures
        r@ == clean_text(cell.value, false),
{
    normalize_cell(cell, false)
}

/// `expect_date` marks a date column; Excel serial numbers become dates.
pub fn normalize_cell(cell: &Cell, expect_date: bool) -> (r: String)
    ensures
        r@ == clean_text(cell.value, expect_date),
{
    match &cell.value {
        CellValue::Empty => String::new(),
        CellValue::Error(_) => String::new(),
        CellValue::Text(s) => collapse_ws(s.as_str()),
        CellValue::DateTimeIso(s) => collapse_ws(s.as_str()),
        CellValue::DurationIso(s) => collapse_ws(s.as_str()),
        CellValue::Float { text, serial, .. } => {
            if expect_date {
                if let Some(serial) = serial {
                    if let Some(date) = excel_serial_to_iso(*serial) {
                        return date;
                    }
                }
            }
            text.clone()
        },
        CellValue::Int(n) => {
            if expect_date {
                if let Some(date) = excel_serial_to_iso(Serial { days: *n, whole: true, secs: 0 }) {
                    return date;
                }
            }
            signed_text(*n)
        },
        CellValue::Bool(b) => String::from_str(
            if *b {
                "TRUE"
            } else {
                "FALSE"
            },
        ),
        CellValue::DateTime { text, moment, .. } => match moment {
            Some(m) => format_moment(*m),
            None => text.clone(),
        },
    }
}

/// A row without the empty cells at its end.
pub open spec fn filled_part(row: Seq<Cell>) -> Seq<Cell>
    decreases row.len(),
{
    if row.len() > 0 && row.last().value is Empty {
        filled_part(row.drop_last())
    } else {
        row
    }
}

/// The bytes that a row is hashed by: its clean texts with a separator between them.
pub open spec fn row_bytes(row: Seq<Cell>) -> Seq<u8>
    decreases row.len(),
{
    if row.len() == 0 {
        Seq::empty()
    } else {
        let text = vstd::utf8::encode_utf8(clean_text(row.last().value, false));
        if row.len() == 1 {
            text
        } else {
            row_bytes(row.drop_last()) + seq![0x1fu8] + text
        }
    }
}

/// File row hash. Trailing empty cells are trimmed so the hash does not depend
/// on the reading mode: streaming cells or full range.
pub fn row_hash_cells(row: &Vec<Cell>) -> (r: [u8; 16])
    ensures
        forall|i: int|
            0 <= i < 16 ==> #[trigger] r@[i] == le_byte(
                xxh3_128_of(row_bytes(filled_part(row@))) as nat,
                i as nat,
            ),
{
    let mut end: usize = row.len();
    assert(row@.take(end as int) =~= row@);
    while end > 0 && matches!(row[end - 1].value, CellValue::Empty)
        invariant
            end <= row.len(),
            filled_part(row@.take(end as int)) == filled_part(row@),
        decreases end,
    {
        assert(row@.take(end as int).drop_last() =~= row@.take(end - 1));
        assert(row@.take(end as int).last() == row@[end - 1]);
        end -= 1;
    }
    assert(end > 0 ==> row@.take(end as int).last() == row@[end - 1]);
    assert(filled_part(row@) == row@.take(end as int));
    let mut hasher = new_hasher();
    let mut i: usize = 0;
    while i < end
        invariant
            i <= end <= row.len(),
            crate::digest::fed(hasher) == row_bytes(row@.take(i as int)),
        decreases end - i,
    {
        if i > 0 {
            feed(&mut hasher, &[0x1f]);
        }
        let text = normalize_value(&row[i]);
        feed(&mut hasher, text.as_str().as_bytes());
        assert(row@.take(i + 1).drop_last() =~= row@.take(i as int));
        assert(row@.take(i + 1).last() == row@[i as int]);
        assert(crate::digest::fed(hasher) =~= row_bytes(row@.take(i + 1)));
        i += 1;
    }
    let bytes = le_bytes(hash_128(&hasher), 16);
    let mut out: [u8; 16] = [0; 16];
    let mut k: usize = 0;
    while k < 16
        invariant
            k <= 16,
            bytes@.len() == 16,
            forall|i: int| 0 <= i < k ==> #[trigger] out@[i] == bytes@[i],
        decreases 16 - k,
    {
        out[k] = bytes[k];
        k += 1;
    }
    out
}

/// Empty cells behind a row do not count: with or without them, a row is hashed
/// by the same bytes, so that its hash does not depend on how the file was read.
pub proof fn trailing_blanks_do_not_count(row: Seq<Cell>, more: Seq<Cell>)
    requires
        forall|i: int| 0 <= i < more.len() ==> (#[trigger] more[i]).value is Empty,
    ensures
        row_bytes(filled_part(row + more)) == row_bytes(filled_part(row)),
    decreases more.len(),
{
    if more.len() == 0 {
        assert(row + more =~= row);
    } else {
        let rest = more.drop_last();
        assert((row + more).last() == more[more.len() - 1]);
        assert((row + more).drop_last() =~= row + rest);
        trailing_blanks_do_not_count(row, rest);
    }
}

/// In a date column the serial number of a day between the 11th of June 1968 and
/// the 8th of April 2064 is that day, whether it was read as a whole number or as
/// a fraction; in any other column a number stays a number.
pub proof fn a_serial_number_is_its_day(
    y: int,
    m: int,
    d: int,
    n: i64,
    shown: String,
    text: String,
    serial: Serial,
)
    requires
        civil(y, m, d),
        not_before((y, m, d), (1968, 6, 11)),
        not_before((2064, 4, 8), (y, m, d)),
        n == day_number(y, m, d) - day_number(1899, 12, 30),
        serial == (Serial { days: n, whole: true, secs: 0 }),
    ensures
        clean_text(CellValue::Int(n), true) == date_text(y, m, d),
        clean_text(CellValue::Float { shown, text, serial: Some(serial) }, true) == date_text(
            y,
            m,
            d,
        ),
        clean_text(CellValue::Int(n), false) == signed_decimal(n as int),
        clean_text(CellValue::Float { shown, text, serial: Some(serial) }, false) == text@,
{
    every_plausible_day_is_read(y, m, d, serial);
}

/// A date and time is written as its date and, but for midnight, its time of day
/// behind a blank; a time without a date as the time alone. Whether the column is
/// one of dates makes no difference.
pub proof fn a_moment_is_its_date_and_time(
    m: Moment,
    shown: String,
    text: String,
    expect_date: bool,
)
    ensures
        clean_text(CellValue::DateTime { shown, text, moment: Some(m) }, expect_date) == (
        if m.time_only {
            time_text(m.hour as int, m.minute as int, m.second as int)
        } else if m.hour as int * 3600 + m.minute as int * 60 + m.second as int == 0 {
            date_text(m.year as int, m.month as int, m.day as int)
        } else {
            date_text(m.year as int, m.month as int, m.day as int) + seq![' '] + time_text(
                m.hour as int,
                m.minute as int,
                m.second as int,
            )
        }),
{
}

/// A cell says something exactly where its clean text does: an empty cell, an
/// error and a text of blanks say nothing, and a number, a truth value and a date
/// always do.
pub proof fn what_says_nothing_is_empty(value: CellValue, expect_date: bool)
    ensures
        value is Empty || value is Error ==> !has_value(value) && clean_text(
            value,
            expect_date,
        ).len() == 0,
        value matches CellValue::Text(s) ==> clean_text(value, expect_date) == collapsed(s@)
            && has_value(value) == (trimmed(s@).len() > 0),
        value is Int || value is Float || value is Bool || value is DateTime ==> has_value(value),
        value matches CellValue::Bool(b) ==> clean_text(value, expect_date) == (if b {
            "TRUE"@
        } else {
            "FALSE"@
        }),
{
}

} // verus!
