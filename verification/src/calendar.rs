//! Calendar dates, their day numbers and their ISO texts.
use chrono::Datelike;
use vstd::prelude::*;
use vstd::string::*;

use crate::number::{
    all_digits, decimal, decimal_reads_back, decimal_text, digits_value, parse_unsigned,
    read_unsigned, unsigned_digits,
};
use crate::text::{chars_of, chars_views, is_digit, last_piece, only_piece, pieces, string_of};

verus! {

/// A year with a 29th of February.
pub open spec fn leap(y: int) -> bool {
    y % 4 == 0 && (y % 100 != 0 || y % 400 == 0)
}

/// The number of days of a month.
pub open spec fn month_days(y: int, m: int) -> int {
    if m == 2 {
        if leap(y) {
            29
        } else {
            28
        }
    } else if m == 4 || m == 6 || m == 9 || m == 11 {
        30
    } else {
        31
    }
}

/// A day of the proleptic Gregorian calendar.
pub open spec fn civil(y: int, m: int, d: int) -> bool {
    1 <= y && 1 <= m <= 12 && 1 <= d <= month_days(y, m)
}

/// The days of a year in front of a month.
pub open spec fn days_before_month(y: int, m: int) -> int {
    (if m == 1 {
        0int
    } else if m == 2 {
        31
    } else if m == 3 {
        59
    } else if m == 4 {
        90
    } else if m == 5 {
        120
    } else if m == 6 {
        151
    } else if m == 7 {
        181
    } else if m == 8 {
        212
    } else if m == 9 {
        243
    } else if m == 10 {
        273
    } else if m == 11 {
        304
    } else {
        334
    }) + (if m > 2 && leap(y) {
        1int
    } else {
        0
    })
}

/// The days in front of a year, counted from the first of January of year 1.
pub open spec fn days_before_year(y: int) -> int {
    365 * (y - 1) + (y - 1) / 4 - (y - 1) / 100 + (y - 1) / 400
}

/// The number of a day, counted from the first of January of year 1.
pub open spec fn day_number(y: int, m: int, d: int) -> int {
    days_before_year(y) + days_before_month(y, m) + d
}

/// A year ends where the next one begins.
proof fn year_length(y: int)
    requires
        1 <= y,
    ensures
        days_before_year(y + 1) == days_before_year(y) + (if leap(y) {
            366int
        } else {
            365
        }),
{
}

/// Later years begin later.
proof fn years_ascend(a: int, b: int)
    requires
        1 <= a <= b,
    ensures
        days_before_year(a) <= days_before_year(b),
    decreases b - a,
{
    if a < b {
        years_ascend(a, b - 1);
        year_length(b - 1);
    }
}

/// Different days have different numbers.
pub proof fn day_number_injective(y: int, m: int, d: int, y2: int, m2: int, d2: int)
    requires
        civil(y, m, d),
        civil(y2, m2, d2),
        day_number(y, m, d) == day_number(y2, m2, d2),
    ensures
        y == y2,
        m == m2,
        d == d2,
{
    if y < y2 {
        year_length(y);
        years_ascend(y + 1, y2);
    } else if y2 < y {
        year_length(y2);
        years_ascend(y2 + 1, y);
    }
}

/// `NaiveDate::from_ymd_opt` of a day and, on it, `NaiveDate::checked_add_signed`
/// of a whole number of days, as year, month and day of the month. Both succeed
/// far inside the range of a `NaiveDate`, which ends after the year 262000, and
/// give the day whose number lies that many days later.
#[verifier::external_body]
fn date_after(year: i32, month: u32, day: u32, days: i64) -> (r: Option<(i32, u32, u32)>)
    requires
        civil(year as int, month as int, day as int),
        year <= 9999,
        0 <= days <= 1_000_000,
    ensures
        match r {
            Some((y, m, d)) => civil(y as int, m as int, d as int) && day_number(
                y as int,
                m as int,
                d as int,
            ) == day_number(year as int, month as int, day as int) + days,
            None => false,
        },
{
    let base = chrono::NaiveDate::from_ymd_opt(year, month, day)?;
    let date = base.checked_add_signed(chrono::Duration::days(days))?;
    Some((date.year(), date.month(), date.day()))
}

/// Decimal digits, with zeros in front up to a width.
pub open spec fn padded(n: nat, width: nat) -> Seq<char> {
    let digits = decimal(n);
    if digits.len() >= width {
        digits
    } else {
        Seq::new((width - digits.len()) as nat, |i: int| '0') + digits
    }
}

/// Appends a number with zeros in front up to a width.
pub fn push_padded(out: &mut String, n: u64, width: usize)
    ensures
        final(out)@ == old(out)@ + padded(n as nat, width as nat),
{
    let digits = decimal_text(n);
    let count: usize = digits.as_str().unicode_len();
    let mut k: usize = count;
    assert(out@ =~= old(out)@ + Seq::new(0, |i: int| '0'));
    while k < width
        invariant
            count == decimal(n as nat).len(),
            count <= k,
            k <= width || k == count,
            out@ == old(out)@ + Seq::new((k - count) as nat, |i: int| '0'),
        decreases width - k,
    {
        out.push('0');
        assert(out@ =~= old(out)@ + Seq::new((k + 1 - count) as nat, |i: int| '0'));
        k += 1;
    }
    out.append(digits.as_str());
    assert(out@ =~= old(out)@ + padded(n as nat, width as nat));
}

/// The text of a year: four digits, with a sign outside of them.
pub open spec fn year_text(y: int) -> Seq<char> {
    if 0 <= y <= 9999 {
        padded(y as nat, 4)
    } else if y < 0 {
        seq!['-'] + padded((-y) as nat, 4)
    } else {
        seq!['+'] + padded(y as nat, 4)
    }
}

/// Appends the text of a year.
pub fn push_year(out: &mut String, y: i32)
    ensures
        final(out)@ == old(out)@ + year_text(y as int),
{
    if y < 0 {
        out.push('-');
        push_padded(out, (-(y as i64)) as u64, 4);
        assert(out@ =~= old(out)@ + year_text(y as int));
    } else if y <= 9999 {
        push_padded(out, y as u64, 4);
    } else {
        out.push('+');
        push_padded(out, y as u64, 4);
        assert(out@ =~= old(out)@ + year_text(y as int));
    }
}

/// The ISO text of a date.
pub open spec fn date_text(y: int, m: int, d: int) -> Seq<char> {
    year_text(y) + seq!['-'] + padded(m as nat, 2) + seq!['-'] + padded(d as nat, 2)
}

/// The text of a time of day.
pub open spec fn time_text(h: int, m: int, s: int) -> Seq<char> {
    padded(h as nat, 2) + seq![':'] + padded(m as nat, 2) + seq![':'] + padded(s as nat, 2)
}

/// The ISO text of a date.
pub fn format_date(y: i32, m: u32, d: u32) -> (r: String)
    ensures
        r@ == date_text(y as int, m as int, d as int),
{
    let mut out = String::new();
    push_year(&mut out, y);
    out.push('-');
    push_padded(&mut out, m as u64, 2);
    out.push('-');
    push_padded(&mut out, d as u64, 2);
    assert(out@ =~= date_text(y as int, m as int, d as int));
    out
}

/// The text of a time of day.
pub fn format_time(h: u32, m: u32, s: u32) -> (r: String)
    ensures
        r@ == time_text(h as int, m as int, s as int),
{
    let mut out = String::new();
    push_padded(&mut out, h as u64, 2);
    out.push(':');
    push_padded(&mut out, m as u64, 2);
    out.push(':');
    push_padded(&mut out, s as u64, 2);
    assert(out@ =~= time_text(h as int, m as int, s as int));
    out
}

/// The part of a second behind its full seconds: as many groups of three digits as
/// it takes.
pub open spec fn fraction_text(nanos: nat) -> Seq<char> {
    if nanos == 0 {
        Seq::empty()
    } else if nanos % 1_000_000 == 0 {
        seq!['.'] + padded(nanos / 1_000_000, 3)
    } else if nanos % 1_000 == 0 {
        seq!['.'] + padded(nanos / 1_000, 6)
    } else {
        seq!['.'] + padded(nanos, 9)
    }
}

/// `s` is the text of a moment of world time, which lies some seconds and
/// nanoseconds behind the beginning of 1970.
pub open spec fn is_moment_text(secs: int, nanos: nat, s: Seq<char>) -> bool {
    let second = secs % 86400;
    exists|y: int, m: int, d: int| #[trigger]
        civil(y, m, d) && day_number(y, m, d) == day_number(1970, 1, 1) + secs / 86400 && s
            == date_text(y, m, d) + seq!['T'] + time_text(
            second / 3600,
            second / 60 % 60,
            second % 60,
        ) + fraction_text(nanos) + "+00:00"@
}

/// `DateTime::from_timestamp` of some seconds and nanoseconds, and
/// `DateTime::to_rfc3339` of that moment. It succeeds far inside the range of a
/// `DateTime`, which ends after the year 262000, and gives the date, a `T`, the
/// time of day, its fraction where there is one, and the offset of world time.
#[verifier::external_body]
fn rfc3339(secs: i64, nanos: u32) -> (r: Option<String>)
    requires
        0 <= secs <= 8_000_000_000_000,
        nanos < 1_000_000_000,
    ensures
        r is Some,
        is_moment_text(secs as int, nanos as nat, r->0@),
{
    chrono::DateTime::from_timestamp(secs, nanos).map(|moment| moment.to_rfc3339())
}

/// The text of a moment of world time.
pub fn moment_text(secs: i64, nanos: u32) -> (r: String)
    requires
        0 <= secs <= 8_000_000_000_000,
        nanos < 1_000_000_000,
    ensures
        is_moment_text(secs as int, nanos as nat, r@),
        r@.len() > 0,
{
    proof {
        reveal_strlit("+00:00");
    }
    match rfc3339(secs, nanos) {
        Some(text) => text,
        None => String::new(),
    }
}

/// A spreadsheet serial number: the days since the 30th of December 1899,
/// whether nothing was cut off to get them, and the seconds that the cut-off
/// part of a day amounts to.
#[derive(Clone, Copy, Debug, PartialEq, Eq, Structural)]
pub struct Serial {
    pub days: i64,
    pub whole: bool,
    pub secs: u32,
}

/// A serial number of a plausible date (1968-2064).
pub open spec fn plausible(serial: Serial) -> bool {
    25000 <= serial.days && (serial.days < 60000 || (serial.days == 60000 && serial.whole))
}

/// The date that lies `days` days after the 30th of December 1899.
pub open spec fn date_of_days(days: int) -> (int, int, int) {
    choose|y: int, m: int, d: int|
        #![trigger civil(y, m, d)]
        civil(y, m, d) && day_number(y, m, d) == day_number(1899, 12, 30) + days
}

/// The ISO text of a serial number.
pub open spec fn serial_text(serial: Serial) -> Option<Seq<char>> {
    if !plausible(serial) {
        None
    } else {
        let (y, m, d) = date_of_days(serial.days as int);
        if 0 < serial.secs < 86400 {
            Some(
                date_text(y, m, d) + seq![' '] + time_text(
                    serial.secs as int / 3600,
                    (serial.secs as int / 60) % 60,
                    serial.secs as int % 60,
                ),
            )
        } else {
            Some(date_text(y, m, d))
        }
    }
}

/// An optional text and its model.
pub open spec fn same_option(r: Option<String>, model: Option<Seq<char>>) -> bool {
    match r {
        Some(s) => model == Some(s@),
        None => model is None,
    }
}

/// Excel serial date (days since 1899-12-30) -> ISO date.
/// The range is limited to plausible years (1968-2064).
pub fn excel_serial_to_iso(serial: Serial) -> (r: Option<String>)
    ensures
        same_option(r, serial_text(serial)),
{
    if serial.days < 25000 || serial.days > 60000 || (serial.days == 60000 && !serial.whole) {
        return None;
    }
    match date_after(1899, 12, 30, serial.days) {
        Some((y, m, d)) => {
            proof {
                assert(civil(y as int, m as int, d as int));
                let (y2, m2, d2) = date_of_days(serial.days as int);
                assert(civil(y2, m2, d2));
                day_number_injective(y as int, m as int, d as int, y2, m2, d2);
            }
            let mut out = format_date(y, m, d);
            if serial.secs > 0 && serial.secs < 86400 {
                out.push(' ');
                let time = format_time(serial.secs / 3600, serial.secs / 60 % 60, serial.secs % 60);
                out.append(time.as_str());
                assert(out@ =~= serial_text(serial)->0);
            }
            Some(out)
        },
        None => None,
    }
}

/// The characters between the parts of a date.
pub open spec fn date_mark(c: char) -> bool {
    c == '.' || c == '/' || c == '-'
}

/// The number that one part of a date stands for.
pub open spec fn part_number(s: Seq<char>) -> Option<nat> {
    read_unsigned(s, u32::MAX as nat)
}

/// A year of four characters, and a month and a day of at most two.
pub open spec fn date_parts(year: Seq<char>, month: Seq<char>, day: Seq<char>) -> Option<
    (nat, nat, nat),
> {
    if day.len() <= 2 && month.len() <= 2 && year.len() == 4 {
        match (part_number(year), part_number(month), part_number(day)) {
            (Some(y), Some(m), Some(d)) => if 1 <= d <= 31 && 1 <= m <= 12 {
                Some((y, m, d))
            } else {
                None
            },
            _ => None,
        }
    } else {
        None
    }
}

/// What a text says as a date: day, month and year, or year, month and day.
pub open spec fn read_date(s: Seq<char>) -> Option<(nat, nat, nat)> {
    let parts = pieces(s, |c: char| date_mark(c));
    if parts.len() != 3 {
        None
    } else if date_parts(parts[2], parts[1], parts[0]) is Some {
        date_parts(parts[2], parts[1], parts[0])
    } else {
        date_parts(parts[0], parts[1], parts[2])
    }
}

/// The ISO text of a year, a month and a day.
pub open spec fn iso_text(y: nat, m: nat, d: nat) -> Seq<char> {
    padded(y, 4) + seq!['-'] + padded(m, 2) + seq!['-'] + padded(d, 2)
}

/// A date in ISO form; any other text itself.
pub open spec fn normalized_date(s: Seq<char>) -> Seq<char> {
    match read_date(s) {
        Some((y, m, d)) => iso_text(y, m, d),
        None => s,
    }
}

/// Splits a text at the marks of a date.
fn split_date(s: &str) -> (r: Vec<Vec<char>>)
    ensures
        chars_views(r@) == pieces(s@, |c: char| date_mark(c)),
{
    let v = chars_of(s);
    let ghost sep = |c: char| date_mark(c);
    let mut parts: Vec<Vec<char>> = Vec::new();
    let mut current: Vec<char> = Vec::new();
    let mut i: usize = 0;
    assert(chars_views(parts@).push(current@) =~= pieces(v@.take(0), sep));
    while i < v.len()
        invariant
            i <= v.len(),
            sep == (|c: char| date_mark(c)),
            chars_views(parts@).push(current@) == pieces(v@.take(i as int), sep),
        decreases v.len() - i,
    {
        let c = v[i];
        let ghost before = pieces(v@.take(i as int), sep);
        let ghost old_parts = parts@;
        let ghost old_current = current@;
        assert(v@.take(i + 1).drop_last() =~= v@.take(i as int));
        assert(v@.take(i + 1).last() == c);
        if c == '.' || c == '/' || c == '-' {
            parts.push(current);
            current = Vec::new();
            assert(chars_views(parts@) =~= chars_views(old_parts).push(old_current));
            assert(chars_views(parts@).push(current@) =~= before.push(Seq::empty()));
        } else {
            current.push(c);
            assert(before.drop_last() =~= chars_views(old_parts));
            assert(before.last() == old_current);
            assert(chars_views(parts@).push(current@) =~= before.drop_last().push(
                before.last().push(c),
            ));
        }
        i += 1;
    }
    assert(v@.take(v@.len() as int) =~= v@);
    let ghost done = parts@;
    let ghost last = current@;
    parts.push(current);
    assert(chars_views(parts@) =~= chars_views(done).push(last));
    parts
}

/// Reads one part of a date.
fn read_part(part: &Vec<char>) -> (r: Option<u64>)
    ensures
        match r {
            Some(n) => part_number(part@) == Some(n as nat) && n <= u32::MAX,
            None => part_number(part@) is None,
        },
{
    parse_unsigned(string_of(part).as_str(), 4294967295)
}

/// Reads a year, a month and a day.
fn read_parts(year: &Vec<char>, month: &Vec<char>, day: &Vec<char>) -> (r: Option<(u64, u64, u64)>)
    ensures
        match r {
            Some((y, m, d)) => date_parts(year@, month@, day@) == Some((y as nat, m as nat, d as nat)),
            None => date_parts(year@, month@, day@) is None,
        },
{
    if day.len() > 2 || month.len() > 2 || year.len() != 4 {
        return None;
    }
    match (read_part(year), read_part(month), read_part(day)) {
        (Some(y), Some(m), Some(d)) => if 1 <= d && d <= 31 && 1 <= m && m <= 12 {
            Some((y, m, d))
        } else {
            None
        },
        _ => None,
    }
}

/// The ISO text of a year, a month and a day.
fn format_iso(y: u64, m: u64, d: u64) -> (r: String)
    ensures
        r@ == iso_text(y as nat, m as nat, d as nat),
{
    let mut out = String::new();
    push_padded(&mut out, y, 4);
    out.push('-');
    push_padded(&mut out, m, 2);
    out.push('-');
    push_padded(&mut out, d, 2);
    assert(out@ =~= iso_text(y as nat, m as nat, d as nat));
    out
}

/// "31.12.2024" / "31/12/2024" / "31-12-2024" -> "2024-12-31".
/// "2024.12.31" / "2024-1-5" -> "2024-12-31" / "2024-01-05".
/// Existing ISO dates and unrecognized text are returned unchanged.
pub fn normalize_date(value: &str) -> (r: String)
    ensures
        r@ == normalized_date(value@),
{
    let parts = split_date(value);
    let ghost p = pieces(value@, |c: char| date_mark(c));
    assert(chars_views(parts@) == p);
    assert(parts@.len() == p.len());
    if parts.len() == 3 {
        assert(parts@[0]@ == p[0] && parts@[1]@ == p[1] && parts@[2]@ == p[2]);
        match read_parts(&parts[2], &parts[1], &parts[0]) {
            Some((y, m, d)) => {
                return format_iso(y, m, d);
            },
            None => {},
        }
        match read_parts(&parts[0], &parts[1], &parts[2]) {
            Some((y, m, d)) => {
                return format_iso(y, m, d);
            },
            None => {},
        }
    }
    value.to_owned()
}

/// Zeros in front do not change the number that digits stand for.
proof fn leading_zeros(k: nat, s: Seq<char>)
    requires
        forall|i: int| 0 <= i < s.len() ==> is_digit(#[trigger] s[i]),
    ensures
        digits_value(Seq::new(k, |i: int| '0') + s) == digits_value(s),
    decreases k + s.len(),
{
    let zeros = Seq::new(k, |i: int| '0');
    if s.len() > 0 {
        leading_zeros(k, s.drop_last());
        assert((zeros + s).drop_last() =~= zeros + s.drop_last());
        assert((zeros + s).last() == s.last());
    } else if k > 0 {
        leading_zeros((k - 1) as nat, s);
        assert((zeros + s).drop_last() =~= Seq::new((k - 1) as nat, |i: int| '0') + s);
        assert((zeros + s).last() == '0');
    } else {
        assert(zeros + s =~= s);
    }
}

/// A padded number reads back as the number.
proof fn padded_reads_back(n: nat, width: nat)
    requires
        n <= u32::MAX,
        decimal(n).len() <= width,
    ensures
        padded(n, width).len() == width,
        all_digits(padded(n, width)),
        part_number(padded(n, width)) == Some(n),
{
    decimal_reads_back(n);
    let digits = decimal(n);
    let zeros = Seq::new((width - digits.len()) as nat, |i: int| '0');
    let all = padded(n, width);
    leading_zeros((width - digits.len()) as nat, digits);
    assert(zeros + digits =~= all);
    assert forall|i: int| 0 <= i < all.len() implies is_digit(#[trigger] all[i]) by {
        if i < zeros.len() {
            assert(all[i] == '0');
        } else {
            assert(all[i] == digits[i - zeros.len()]);
        }
    }
    assert(is_digit(all[0]));
    assert(unsigned_digits(all) == all);
}

/// Short numbers have few digits.
proof fn few_digits(n: nat)
    ensures
        n < 100 ==> decimal(n).len() <= 2,
        n < 10000 ==> decimal(n).len() <= 4,
{
    reveal_with_fuel(decimal, 5);
}

/// A year of four characters is below ten thousand.
proof fn short_value(s: Seq<char>)
    requires
        forall|i: int| 0 <= i < s.len() ==> is_digit(#[trigger] s[i]),
        s.len() <= 4,
    ensures
        digits_value(s) < 10000,
        s.len() <= 3 ==> digits_value(s) < 1000,
        s.len() <= 2 ==> digits_value(s) < 100,
        s.len() <= 1 ==> digits_value(s) < 10,
    decreases s.len(),
{
    if s.len() > 0 {
        short_value(s.drop_last());
        assert(is_digit(s.last()));
    }
}

/// An ISO date is left as it is: reading it gives its year, month and day.
pub proof fn iso_date_is_fixed(y: nat, m: nat, d: nat)
    requires
        y < 10000,
        1 <= m <= 12,
        1 <= d <= 31,
    ensures
        read_date(iso_text(y, m, d)) == Some((y, m, d)),
        normalized_date(iso_text(y, m, d)) == iso_text(y, m, d),
{
    let sep = |c: char| date_mark(c);
    few_digits(y);
    few_digits(m);
    few_digits(d);
    padded_reads_back(y, 4);
    padded_reads_back(m, 2);
    padded_reads_back(d, 2);
    let ys = padded(y, 4);
    let ms = padded(m, 2);
    let ds = padded(d, 2);
    only_piece(ys, sep);
    last_piece(ys, '-', ms, sep);
    last_piece(ys + seq!['-'] + ms, '-', ds, sep);
    let parts = pieces(iso_text(y, m, d), sep);
    assert(parts =~= seq![ys, ms, ds]);
    assert(parts[0] == ys && parts[1] == ms && parts[2] == ds);
    assert(date_parts(ds, ms, ys) is None);
}

/// Bringing a date into ISO form once is enough.
pub proof fn normalized_date_is_stable(s: Seq<char>)
    ensures
        normalized_date(normalized_date(s)) == normalized_date(s),
{
    match read_date(s) {
        Some((y, m, d)) => {
            let parts = pieces(s, |c: char| date_mark(c));
            let year = if date_parts(parts[2], parts[1], parts[0]) is Some {
                parts[2]
            } else {
                parts[0]
            };
            assert(part_number(year) == Some(y));
            short_value(unsigned_digits(year));
            iso_date_is_fixed(y, m, d);
        },
        None => {},
    }
}

/// The day after a day.
pub open spec fn next_day(y: int, m: int, d: int) -> (int, int, int) {
    if d < month_days(y, m) {
        (y, m, d + 1)
    } else if m < 12 {
        (y, m + 1, 1)
    } else {
        (y + 1, 1, 1)
    }
}

/// Days are numbered one after the other, from the first of January of year 1 on.
pub proof fn days_are_numbered_in_turn(y: int, m: int, d: int)
    requires
        civil(y, m, d),
    ensures
        day_number(1, 1, 1) == 1,
        civil(next_day(y, m, d).0, next_day(y, m, d).1, next_day(y, m, d).2),
        day_number(next_day(y, m, d).0, next_day(y, m, d).1, next_day(y, m, d).2) == day_number(
            y,
            m,
            d,
        ) + 1,
{
    year_length(y);
}

/// A year has 365 days, and one more where it can be divided by four, but for the
/// centuries that cannot be divided by four hundred. Twelve months make it up:
/// those with 30 days are April, June, September and November, and February has
/// 28, or 29 in a longer year.
pub proof fn years_and_months_have_their_days(y: int, m: int)
    requires
        1 <= y,
        1 <= m <= 12,
    ensures
        day_number(y + 1, 1, 1) - day_number(y, 1, 1) == (if y % 400 == 0 || (y % 4 == 0 && y % 100
            != 0) {
            366int
        } else {
            365
        }),
        civil(y, m, 28),
        !civil(y, m, 32),
        civil(y, m, 29) == (m != 2 || y % 400 == 0 || (y % 4 == 0 && y % 100 != 0)),
        civil(y, m, 30) == (m != 2),
        civil(y, m, 31) == (m != 2 && m != 4 && m != 6 && m != 9 && m != 11),
{
    year_length(y);
}

/// The days of a year in front of a month do not exceed the year.
proof fn later_days_have_greater_numbers(y: int, m: int, d: int, y2: int, m2: int, d2: int)
    requires
        civil(y, m, d),
        civil(y2, m2, d2),
        y < y2 || (y == y2 && (m < m2 || (m == m2 && d < d2))),
    ensures
        day_number(y, m, d) < day_number(y2, m2, d2),
{
    if y < y2 {
        year_length(y);
        years_ascend(y + 1, y2);
    }
}

/// A day is not before another.
pub open spec fn not_before(a: (int, int, int), b: (int, int, int)) -> bool {
    a.0 > b.0 || (a.0 == b.0 && (a.1 > b.1 || (a.1 == b.1 && a.2 >= b.2)))
}

/// Every day from the 11th of June 1968 to the 8th of April 2064 is read: the
/// whole serial number of the day, which counts from the 30th of December 1899,
/// gives the day's ISO text, with the time of day behind it where there is one.
pub proof fn every_plausible_day_is_read(y: int, m: int, d: int, serial: Serial)
    requires
        civil(y, m, d),
        not_before((y, m, d), (1968, 6, 11)),
        not_before((2064, 4, 8), (y, m, d)),
        serial.days == day_number(y, m, d) - day_number(1899, 12, 30),
        serial.whole || (y, m, d) != (2064int, 4int, 8int),
    ensures
        25000 <= serial.days <= 60000,
        serial.secs == 0 ==> serial_text(serial) == Some(date_text(y, m, d)),
        forall|h: int, min: int, sec: int|
            0 <= h < 24 && 0 <= min < 60 && 0 <= sec < 60 && serial.secs == h * 3600 + min * 60
                + sec && serial.secs > 0 ==> serial_text(serial) == Some(
                date_text(y, m, d) + seq![' '] + #[trigger] time_text(h, min, sec),
            ),
{
    assert(day_number(1968, 6, 11) - day_number(1899, 12, 30) == 25000);
    assert(day_number(2064, 4, 8) - day_number(1899, 12, 30) == 60000);
    if (y, m, d) != (1968int, 6int, 11int) {
        later_days_have_greater_numbers(1968, 6, 11, y, m, d);
    }
    if (y, m, d) != (2064int, 4int, 8int) {
        later_days_have_greater_numbers(y, m, d, 2064, 4, 8);
    }
    let (y2, m2, d2) = date_of_days(serial.days as int);
    assert(civil(y2, m2, d2) && day_number(y2, m2, d2) == day_number(1899, 12, 30) + serial.days);
    day_number_injective(y, m, d, y2, m2, d2);
    assert forall|h: int, min: int, sec: int|
        0 <= h < 24 && 0 <= min < 60 && 0 <= sec < 60 && serial.secs == h * 3600 + min * 60 + sec
            && serial.secs > 0 implies serial_text(serial) == Some(
        date_text(y, m, d) + seq![' '] + #[trigger] time_text(h, min, sec),
    ) by {
        let s = serial.secs as int;
        assert(s / 3600 == h);
        assert(s / 60 == h * 60 + min);
        assert((s / 60) % 60 == min);
        assert(s % 60 == sec);
    }
}

/// A number that stands for no day of those years is no date.
pub proof fn other_numbers_are_no_dates(serial: Serial)
    requires
        serial.days < 25000 || serial.days > 60000 || (serial.days == 60000 && !serial.whole),
    ensures
        serial_text(serial) is None,
{
}

/// The ISO text of a date has ten characters: four digits of the year, two of
/// the month and two of the day, in this order, with dashes between them. So
/// texts are ordered as their dates are.
pub proof fn date_text_is_year_month_day(y: nat, m: nat, d: nat)
    requires
        y < 10000,
        1 <= m <= 12,
        1 <= d <= 31,
    ensures
        date_text(y as int, m as int, d as int).len() == 10,
        part_number(date_text(y as int, m as int, d as int).subrange(0, 4)) == Some(y),
        date_text(y as int, m as int, d as int)[4] == '-',
        part_number(date_text(y as int, m as int, d as int).subrange(5, 7)) == Some(m),
        date_text(y as int, m as int, d as int)[7] == '-',
        part_number(date_text(y as int, m as int, d as int).subrange(8, 10)) == Some(d),
        iso_text(y, m, d) == date_text(y as int, m as int, d as int),
{
    few_digits(y);
    few_digits(m);
    few_digits(d);
    padded_reads_back(y, 4);
    padded_reads_back(m, 2);
    padded_reads_back(d, 2);
    let t = date_text(y as int, m as int, d as int);
    assert(t.subrange(0, 4) =~= padded(y, 4));
    assert(t.subrange(5, 7) =~= padded(m, 2));
    assert(t.subrange(8, 10) =~= padded(d, 2));
}

/// The text of a time of day has eight characters: two digits each of the hour,
/// the minute and the second, with colons between them.
pub proof fn time_text_is_hour_minute_second(h: nat, m: nat, s: nat)
    requires
        h < 24,
        m < 60,
        s < 60,
    ensures
        time_text(h as int, m as int, s as int).len() == 8,
        part_number(time_text(h as int, m as int, s as int).subrange(0, 2)) == Some(h),
        time_text(h as int, m as int, s as int)[2] == ':',
        part_number(time_text(h as int, m as int, s as int).subrange(3, 5)) == Some(m),
        time_text(h as int, m as int, s as int)[5] == ':',
        part_number(time_text(h as int, m as int, s as int).subrange(6, 8)) == Some(s),
{
    few_digits(h);
    few_digits(m);
    few_digits(s);
    padded_reads_back(h, 2);
    padded_reads_back(m, 2);
    padded_reads_back(s, 2);
    let t = time_text(h as int, m as int, s as int);
    assert(t.subrange(0, 2) =~= padded(h, 2));
    assert(t.subrange(3, 5) =~= padded(m, 2));
    assert(t.subrange(6, 8) =~= padded(s, 2));
}

/// A text of digits has no date mark.
proof fn digits_have_no_mark(s: Seq<char>)
    requires
        all_digits(s),
    ensures
        forall|i: int| 0 <= i < s.len() ==> !date_mark(#[trigger] s[i]),
{
    assert forall|i: int| 0 <= i < s.len() implies !date_mark(#[trigger] s[i]) by {
        assert(is_digit(s[i]));
    }
}

/// A date that begins with its day is brought into ISO form: a day and a month of
/// one or two digits and a year of four, with points, strokes or dashes between
/// them.
pub proof fn day_first_dates_are_read(
    day: Seq<char>,
    month: Seq<char>,
    year: Seq<char>,
    a: char,
    b: char,
    y: nat,
    m: nat,
    d: nat,
)
    requires
        all_digits(day) && 1 <= day.len() <= 2 && part_number(day) == Some(d),
        all_digits(month) && 1 <= month.len() <= 2 && part_number(month) == Some(m),
        all_digits(year) && year.len() == 4 && part_number(year) == Some(y),
        a == '.' || a == '/' || a == '-',
        b == '.' || b == '/' || b == '-',
        1 <= m <= 12,
        1 <= d <= 31,
    ensures
        normalized_date(day + seq![a] + month + seq![b] + year) == date_text(
            y as int,
            m as int,
            d as int,
        ),
{
    let sep = |c: char| date_mark(c);
    digits_have_no_mark(day);
    digits_have_no_mark(month);
    digits_have_no_mark(year);
    only_piece(day, sep);
    last_piece(day, a, month, sep);
    last_piece(day + seq![a] + month, b, year, sep);
    let parts = pieces(day + seq![a] + month + seq![b] + year, sep);
    assert(parts =~= seq![day, month, year]);
    assert(parts[0] == day && parts[1] == month && parts[2] == year);
    assert(forall|i: int| 0 <= i < year.len() ==> is_digit(#[trigger] year[i]));
    assert(unsigned_digits(year) == year) by {
        assert(is_digit(year[0]));
    }
    short_value(year);
    date_text_is_year_month_day(y, m, d);
}

} // verus!
