//! Measures of the projection: totals by currency and by weight unit.
use vstd::prelude::*;
use vstd::string::*;

use crate::analytics::{
    AnalyticsCurrencyTotal, AnalyticsMeasureExclusions, AnalyticsMeasures,
    AnalyticsUsdCompatibility, AnalyticsValuePerWeight, AnalyticsWeightTotal, Real,
};
use crate::copies::{copy_currency_total, copy_ratio, same_ratio};
use crate::counting::{all_upto, first_found, first_is, first_upto, none_found};
use crate::olap::statements::UNKNOWN_CURRENCY_KEY;
use crate::ordered::{insert_text, text_below_is_strict, texts_ascend};
use crate::text::{begins, same, starts_with, views};

verus! {

/// A count as the database hands it out; a negative one counts as none.
pub open spec fn count_of(n: i64) -> u64 {
    if n < 0 {
        0
    } else {
        n as u64
    }
}

/// Reads a count as the database hands it out.
pub fn read_count(n: i64) -> (r: u64)
    ensures
        r == count_of(n),
{
    if n < 0 {
        0
    } else {
        n as u64
    }
}

/// Zero.
pub open spec fn zero() -> Real {
    Real { bits: 0 }
}

/// A number, or zero where the database has none.
pub open spec fn or_zero(x: Option<Real>) -> Real {
    match x {
        Some(x) => x,
        None => zero(),
    }
}

/// Reads a number that may be missing.
pub fn read_real(x: Option<Real>) -> (r: Real)
    ensures
        r == or_zero(x),
{
    match x {
        Some(x) => x,
        None => Real { bits: 0 },
    }
}

/// The pattern of the greatest double-precision number, infinity; the patterns
/// above it stand for no number, or have the sign set.
pub const INFINITY_BITS: u64 = 0x7ff0_0000_0000_0000;

/// Whether a number is above zero.
pub open spec fn positive(x: Real) -> bool {
    0 < x.bits <= INFINITY_BITS
}

/// Whether a number is above zero.
pub fn is_positive(x: Real) -> (r: bool)
    ensures
        r == positive(x),
{
    0 < x.bits && x.bits <= INFINITY_BITS
}

/// A currency that the source states.
pub open spec fn known_currency(currency: Seq<char>) -> bool {
    currency.len() > 0 && !begins(currency, UNKNOWN_CURRENCY_KEY@)
}

/// Whether a currency is one that the source states.
pub fn currency_is_known(currency: &str) -> (r: bool)
    ensures
        r == known_currency(currency@),
{
    currency.unicode_len() != 0 && !starts_with(currency, UNKNOWN_CURRENCY_KEY)
}

/// How many kilograms a weight unit has, by the pattern of the number.
pub open spec fn kilograms_of(unit: Seq<char>) -> Option<Real> {
    if unit == "kg"@ {
        Some(Real { bits: 0x3ff0_0000_0000_0000 })
    } else if unit == "g"@ {
        Some(Real { bits: 0x3f50_624d_d2f1_a9fc })
    } else if unit == "tonne"@ {
        Some(Real { bits: 0x408f_4000_0000_0000 })
    } else if unit == "lb"@ {
        Some(Real { bits: 0x3fdd_07a8_4ab7_5e51 })
    } else {
        None
    }
}

/// How many kilograms a weight unit has.
pub fn weight_factor(unit: &str) -> (r: Option<Real>)
    ensures
        r == kilograms_of(unit@),
{
    if same(unit, "kg") {
        Some(Real { bits: 0x3ff0_0000_0000_0000 })
    } else if same(unit, "g") {
        Some(Real { bits: 0x3f50_624d_d2f1_a9fc })
    } else if same(unit, "tonne") {
        Some(Real { bits: 0x408f_4000_0000_0000 })
    } else if same(unit, "lb") {
        Some(Real { bits: 0x3fdd_07a8_4ab7_5e51 })
    } else {
        None
    }
}

/// One bucket of values, from a row of the database.
pub fn currency_total(currency: String, rows: i64, total: Option<Real>) -> (r:
    AnalyticsCurrencyTotal)
    ensures
        r.currency == currency,
        r.known == known_currency(currency@),
        r.valued_rows == count_of(rows),
        r.total_value == or_zero(total),
{
    let known = currency_is_known(currency.as_str());
    AnalyticsCurrencyTotal {
        known,
        currency,
        valued_rows: read_count(rows),
        total_value: read_real(total),
    }
}

/// One bucket of weights, from a row of the database.
pub fn weight_total(source_unit: String, rows: i64, total: Option<Real>, total_kg: Option<Real>)
    -> (r: AnalyticsWeightTotal)
    ensures
        r.source_unit == source_unit,
        r.known == kilograms_of(source_unit@) is Some,
        r.factor_to_kg == kilograms_of(source_unit@),
        r.known ==> r.normalized_unit is Some && r.normalized_unit->0@ == "kg"@,
        !r.known ==> r.normalized_unit is None,
        r.weighted_rows == count_of(rows),
        r.total_source_weight == or_zero(total),
        r.total_kg == total_kg,
{
    let factor = weight_factor(source_unit.as_str());
    let known = factor.is_some();
    let normalized_unit = if known {
        Some(String::from_str("kg"))
    } else {
        None
    };
    AnalyticsWeightTotal {
        source_unit,
        known,
        normalized_unit,
        factor_to_kg: factor,
        weighted_rows: read_count(rows),
        total_source_weight: read_real(total),
        total_kg,
    }
}

/// Values and weights of one currency and one source unit, as the database
/// hands them out. The two sums stay with the caller, who adds them up.
#[derive(Clone, Debug)]
pub struct PairedRow {
    pub currency: String,
    pub source_unit: String,
    pub rows: i64,
}

/// The rows of one currency.
#[derive(Clone, Debug)]
pub struct PairedGroup {
    pub currency: String,
    pub source_units: Vec<String>,
    pub paired_rows: u64,
    /// The places of the group's rows.
    pub members: Vec<usize>,
}

/// Whether a row belongs to a currency.
pub open spec fn has_currency(rows: Seq<PairedRow>, currency: Seq<char>, i: int) -> bool {
    rows[i].currency@ == currency
}

/// The places of the rows of a currency among the first `n`.
pub open spec fn places_of(rows: Seq<PairedRow>, currency: Seq<char>, n: int) -> Seq<usize> {
    all_upto(n, |i: int| has_currency(rows, currency, i))
}

/// How many rows the first `n` pairs of a currency stand for.
pub open spec fn paired_count(rows: Seq<PairedRow>, currency: Seq<char>, n: int) -> nat
    decreases n,
{
    if n <= 0 {
        0
    } else if has_currency(rows, currency, n - 1) {
        paired_count(rows, currency, n - 1) + count_of(rows[n - 1].rows) as nat
    } else {
        paired_count(rows, currency, n - 1)
    }
}

/// How many rows the first `n` pairs stand for.
pub open spec fn all_counted(rows: Seq<PairedRow>, n: int) -> nat
    decreases n,
{
    if n <= 0 {
        0
    } else {
        all_counted(rows, n - 1) + count_of(rows[n - 1].rows) as nat
    }
}

/// A unit of one of the first `n` rows of a currency.
pub open spec fn has_unit(rows: Seq<PairedRow>, currency: Seq<char>, unit: Seq<char>, n: int) ->
    bool {
    exists|i: int| 0 <= i < n && has_currency(rows, currency, i) && #[trigger] rows[i].source_unit@ == unit
}

/// What a currency's rows come to.
pub open spec fn is_group(rows: Seq<PairedRow>, group: PairedGroup) -> bool {
    &&& group.members@ == places_of(rows, group.currency@, rows.len() as int)
    &&& group.paired_rows == paired_count(rows, group.currency@, rows.len() as int)
    &&& texts_ascend(views(group.source_units@))
    &&& forall|unit: Seq<char>| #[trigger]
        views(group.source_units@).contains(unit) <==> has_unit(
            rows,
            group.currency@,
            unit,
            rows.len() as int,
        )
}

/// The currencies of some rows, each once.
pub open spec fn currencies_of(rows: Seq<PairedRow>) -> Set<Seq<char>> {
    rows.map_values(|row: PairedRow| row.currency@).to_set()
}

/// The currencies of some groups.
pub open spec fn group_currencies(groups: Seq<PairedGroup>) -> Seq<Seq<char>> {
    groups.map_values(|g: PairedGroup| g.currency@)
}

/// A currency counts no more rows than all of them together.
proof fn counted_in_all(rows: Seq<PairedRow>, currency: Seq<char>, n: int)
    requires
        0 <= n <= rows.len(),
    ensures
        paired_count(rows, currency, n) <= all_counted(rows, n),
        all_counted(rows, n) <= all_counted(rows, rows.len() as int),
    decreases rows.len() - n, n,
{
    counted_below(rows, currency, n);
    if n < rows.len() {
        counted_in_all(rows, currency, n + 1);
    }
}

proof fn counted_below(rows: Seq<PairedRow>, currency: Seq<char>, n: int)
    requires
        0 <= n <= rows.len(),
    ensures
        paired_count(rows, currency, n) <= all_counted(rows, n),
    decreases n,
{
    if n > 0 {
        counted_below(rows, currency, n - 1);
    }
}

/// Gathers the rows of one currency.
fn gather(rows: &Vec<PairedRow>, currency: String) -> (r: PairedGroup)
    requires
        all_counted(rows@, rows@.len() as int) <= u64::MAX,
    ensures
        r.currency == currency,
        is_group(rows@, r),
{
    let mut members: Vec<usize> = Vec::new();
    let mut units: Vec<String> = Vec::new();
    let mut count: u64 = 0;
    let mut i: usize = 0;
    assert(views(units@) =~= Seq::<Seq<char>>::empty());
    while i < rows.len()
        invariant
            i <= rows@.len(),
            all_counted(rows@, rows@.len() as int) <= u64::MAX,
            members@ == places_of(rows@, currency@, i as int),
            count == paired_count(rows@, currency@, i as int),
            texts_ascend(views(units@)),
            forall|unit: Seq<char>| #[trigger]
                views(units@).contains(unit) <==> has_unit(rows@, currency@, unit, i as int),
        decreases rows.len() - i,
    {
        let ghost before = views(units@);
        if same(rows[i].currency.as_str(), currency.as_str()) {
            assert(has_currency(rows@, currency@, i as int));
            proof {
                counted_in_all(rows@, currency@, i + 1);
            }
            members.push(i);
            count = count + read_count(rows[i].rows);
            insert_text(&mut units, rows[i].source_unit.as_str());
            assert forall|unit: Seq<char>| #[trigger] views(units@).contains(unit) <==> has_unit(
                rows@,
                currency@,
                unit,
                i + 1,
            ) by {
                if unit == rows@[i as int].source_unit@ {
                    assert(has_unit(rows@, currency@, unit, i + 1));
                }
                if before.contains(unit) {
                    assert(has_unit(rows@, currency@, unit, i as int));
                }
            }
        } else {
            assert(!has_currency(rows@, currency@, i as int));
            assert forall|unit: Seq<char>| #[trigger] views(units@).contains(unit) <==> has_unit(
                rows@,
                currency@,
                unit,
                i + 1,
            ) by {
                if before.contains(unit) {
                    assert(has_unit(rows@, currency@, unit, i as int));
                }
            }
        }
        i += 1;
    }
    PairedGroup { currency, source_units: units, paired_rows: count, members }
}

/// Groups the rows by currency, in the order of the currencies. The units of a
/// group are sorted and none stands twice.
pub fn group_pairs(rows: &Vec<PairedRow>) -> (r: Vec<PairedGroup>)
    requires
        all_counted(rows@, rows@.len() as int) <= u64::MAX,
    ensures
        texts_ascend(group_currencies(r@)),
        forall|i: int| 0 <= i < r@.len() ==> is_group(rows@, #[trigger] r@[i]),
        forall|i: int|
            0 <= i < rows@.len() ==> group_currencies(r@).contains(#[trigger] rows@[i].currency@),
        forall|c: Seq<char>| #[trigger]
            group_currencies(r@).contains(c) ==> exists|i: int|
                0 <= i < rows@.len() && #[trigger] has_currency(rows@, c, i),
        group_currencies(r@).to_set() == currencies_of(rows@),
        r@.len() == currencies_of(rows@).len(),
{
    let mut currencies: Vec<String> = Vec::new();
    let mut i: usize = 0;
    assert(views(currencies@) =~= Seq::<Seq<char>>::empty());
    while i < rows.len()
        invariant
            i <= rows@.len(),
            texts_ascend(views(currencies@)),
            forall|k: int|
                0 <= k < i ==> views(currencies@).contains(#[trigger] rows@[k].currency@),
            forall|c: Seq<char>| #[trigger]
                views(currencies@).contains(c) ==> exists|k: int|
                    0 <= k < i && #[trigger] has_currency(rows@, c, k),
        decreases rows.len() - i,
    {
        let ghost before = views(currencies@);
        insert_text(&mut currencies, rows[i].currency.as_str());
        assert forall|c: Seq<char>| #[trigger] views(currencies@).contains(c) implies exists|k: int|
            0 <= k < i + 1 && #[trigger] has_currency(rows@, c, k) by {
            if before.contains(c) {
                let k = choose|k: int| 0 <= k < i && #[trigger] has_currency(rows@, c, k);
                assert(has_currency(rows@, c, k));
            } else {
                assert(has_currency(rows@, c, i as int));
            }
        }
        i += 1;
    }
    let mut groups: Vec<PairedGroup> = Vec::new();
    let mut k: usize = 0;
    while k < currencies.len()
        invariant
            k <= currencies@.len(),
            all_counted(rows@, rows@.len() as int) <= u64::MAX,
            group_currencies(groups@) == views(currencies@).take(k as int),
            forall|j: int| 0 <= j < groups@.len() ==> is_group(rows@, #[trigger] groups@[j]),
        decreases currencies.len() - k,
    {
        let ghost before = groups@;
        let group = gather(rows, currencies[k].clone());
        groups.push(group);
        assert(group_currencies(groups@) =~= group_currencies(before).push(currencies@[k as int]@));
        assert(views(currencies@).take(k + 1) =~= views(currencies@).take(k as int).push(
            currencies@[k as int]@,
        ));
        k += 1;
    }
    assert(views(currencies@).take(k as int) =~= views(currencies@));
    proof {
        let all = rows@.map_values(|row: PairedRow| row.currency@);
        let list = group_currencies(groups@);
        assert forall|c: Seq<char>| list.to_set().contains(c) == currencies_of(rows@).contains(c) by {
            if list.contains(c) {
                let k = choose|k: int| 0 <= k < rows@.len() && #[trigger] has_currency(rows@, c, k);
                assert(all[k] == c);
            }
            if all.contains(c) {
                let k = choose|k: int| 0 <= k < all.len() && all[k] == c;
                assert(rows@[k].currency@ == c);
            }
        }
        assert(list.to_set() =~= currencies_of(rows@));
        ascending_is_unique(list);
        list.unique_seq_to_set();
    }
    groups
}

/// No text stands twice among texts in ascending order.
proof fn ascending_is_unique(texts: Seq<Seq<char>>)
    requires
        texts_ascend(texts),
    ensures
        texts.no_duplicates(),
{
    assert forall|i: int, j: int| 0 <= i < texts.len() && 0 <= j < texts.len() && i != j implies texts[i]
        != texts[j] by {
        text_below_is_strict(texts[i]);
    }
}

/// The value per kilogram of one currency, from its group, its two sums and the
/// quotient of them, which counts only where there is a weight.
pub fn value_per_weight(group: PairedGroup, total_value: Real, total_weight: Real, quotient: Real)
    -> (r: AnalyticsValuePerWeight)
    ensures
        r.currency == group.currency,
        r.normalized_weight_unit@ == "kg"@,
        r.source_weight_units == group.source_units,
        r.paired_rows == group.paired_rows,
        r.total_value == total_value,
        r.total_weight == total_weight,
        r.value_per_weight == (if positive(total_weight) {
            Some(quotient)
        } else {
            None
        }),
{
    let ratio = if is_positive(total_weight) {
        Some(quotient)
    } else {
        None
    };
    AnalyticsValuePerWeight {
        currency: group.currency,
        normalized_weight_unit: String::from_str("kg"),
        source_weight_units: group.source_units,
        paired_rows: group.paired_rows,
        total_value,
        total_weight,
        value_per_weight: ratio,
    }
}

/// The one bucket that can stand for all values: there is no other, and its
/// currency is known.
pub open spec fn only_bucket(totals: Seq<AnalyticsCurrencyTotal>) -> Option<AnalyticsCurrencyTotal> {
    if totals.len() == 1 && totals[0].known {
        Some(totals[0])
    } else {
        None
    }
}

/// Whether a value per weight is of a currency.
pub open spec fn ratio_in(
    ratios: Seq<AnalyticsValuePerWeight>,
    currency: Seq<char>,
    i: int,
) -> bool {
    ratios[i].currency@ == currency
}

/// The place of the first value per weight of a currency.
pub open spec fn ratio_place(ratios: Seq<AnalyticsValuePerWeight>, currency: Seq<char>) -> Option<
    int,
> {
    first_upto(ratios.len() as int, |i: int| ratio_in(ratios, currency, i))
}

/// Measures whose one comparable figure is honest: it is the only bucket there
/// is, and its value per weight is of the same currency.
pub open spec fn honest(m: AnalyticsMeasures) -> bool {
    &&& m.compatible_value_total == only_bucket(m.currency_totals@)
    &&& match m.compatible_value_total {
        None => m.compatible_value_per_net_weight is None,
        Some(total) => match ratio_place(m.value_per_net_weight@, total.currency@) {
            None => m.compatible_value_per_net_weight is None,
            Some(k) => m.compatible_value_per_net_weight is Some && same_ratio(
                m.compatible_value_per_net_weight->0,
                m.value_per_net_weight@[k],
            ),
        },
    }
}

/// The rows that the measures leave out, as the database counts them.
#[derive(Clone, Copy, Debug)]
pub struct ExclusionCounts {
    pub value_without_known_currency: i64,
    pub net_weight_without_known_unit: i64,
    pub gross_weight_without_known_unit: i64,
    pub ratio_without_known_currency: i64,
    pub ratio_without_known_weight_unit: i64,
    pub ratio_with_zero_or_missing_weight: i64,
}

/// The rows that the measures leave out.
pub open spec fn exclusions_of(counts: ExclusionCounts) -> AnalyticsMeasureExclusions {
    AnalyticsMeasureExclusions {
        value_without_known_currency: count_of(counts.value_without_known_currency),
        net_weight_without_known_unit: count_of(counts.net_weight_without_known_unit),
        gross_weight_without_known_unit: count_of(counts.gross_weight_without_known_unit),
        ratio_without_known_currency: count_of(counts.ratio_without_known_currency),
        ratio_without_known_weight_unit: count_of(counts.ratio_without_known_weight_unit),
        ratio_with_zero_or_missing_weight: count_of(counts.ratio_with_zero_or_missing_weight),
    }
}

/// Finds the first value per weight of a currency.
fn find_ratio(ratios: &Vec<AnalyticsValuePerWeight>, currency: &str) -> (r: Option<usize>)
    ensures
        match r {
            Some(k) => ratio_place(ratios@, currency@) == Some(k as int) && k < ratios@.len(),
            None => ratio_place(ratios@, currency@) is None,
        },
{
    let ghost p = |i: int| ratio_in(ratios@, currency@, i);
    let mut i: usize = 0;
    while i < ratios.len()
        invariant
            i <= ratios@.len(),
            p == (|i: int| ratio_in(ratios@, currency@, i)),
            forall|j: int| 0 <= j < i ==> !#[trigger] p(j),
        decreases ratios.len() - i,
    {
        if same(ratios[i].currency.as_str(), currency) {
            proof {
                assert(p(i as int));
                first_is(ratios@.len() as int, p, i as int);
            }
            return Some(i);
        }
        assert(!p(i as int));
        i += 1;
    }
    proof {
        none_found(ratios@.len() as int, p);
    }
    None
}

/// The sums of the paired rows of one currency, and the quotient of the two.
#[derive(Clone, Copy, Debug)]
pub struct PairSums {
    pub total_value: Real,
    pub total_weight: Real,
    pub quotient: Real,
}

/// The currencies of some values per weight.
pub open spec fn ratio_currencies(ratios: Seq<AnalyticsValuePerWeight>) -> Seq<Seq<char>> {
    ratios.map_values(|ratio: AnalyticsValuePerWeight| ratio.currency@)
}

/// The value per weight of one currency: of all its rows, with their units in
/// order and each once.
pub open spec fn is_ratio(
    rows: Seq<PairedRow>,
    sums: PairSums,
    ratio: AnalyticsValuePerWeight,
) -> bool {
    &&& ratio.normalized_weight_unit@ == "kg"@
    &&& ratio.paired_rows == paired_count(rows, ratio.currency@, rows.len() as int)
    &&& texts_ascend(views(ratio.source_weight_units@))
    &&& forall|unit: Seq<char>| #[trigger]
        views(ratio.source_weight_units@).contains(unit) <==> has_unit(
            rows,
            ratio.currency@,
            unit,
            rows.len() as int,
        )
    &&& ratio.total_value == sums.total_value
    &&& ratio.total_weight == sums.total_weight
    &&& ratio.value_per_weight == (if positive(sums.total_weight) {
        Some(sums.quotient)
    } else {
        None
    })
}

/// The values per weight of some paired rows: one for each currency, in the order
/// of the currencies.
fn projection_ratios(rows: &Vec<PairedRow>, sums: &Vec<PairSums>) -> (r: Vec<
    AnalyticsValuePerWeight,
>)
    requires
        all_counted(rows@, rows@.len() as int) <= u64::MAX,
        sums@.len() == currencies_of(rows@).len(),
    ensures
        r@.len() == sums@.len(),
        texts_ascend(ratio_currencies(r@)),
        ratio_currencies(r@).to_set() == currencies_of(rows@),
        forall|k: int| 0 <= k < r@.len() ==> is_ratio(rows@, sums@[k], #[trigger] r@[k]),
{
    let mut groups = group_pairs(rows);
    let ghost all = groups@;
    let mut out: Vec<AnalyticsValuePerWeight> = Vec::new();
    let mut k: usize = 0;
    assert(all.skip(0) =~= all);
    assert(ratio_currencies(out@) =~= group_currencies(all).take(0));
    while k < sums.len()
        invariant
            k <= sums@.len(),
            all.len() == sums@.len(),
            groups@ == all.skip(k as int),
            forall|j: int| 0 <= j < all.len() ==> is_group(rows@, #[trigger] all[j]),
            out@.len() == k,
            ratio_currencies(out@) == group_currencies(all).take(k as int),
            forall|j: int| 0 <= j < k ==> is_ratio(rows@, sums@[j], #[trigger] out@[j]),
        decreases sums.len() - k,
    {
        let ghost before = out@;
        let group = groups.remove(0);
        assert(group == all[k as int]);
        assert(groups@ =~= all.skip(k + 1));
        out.push(
            value_per_weight(group, sums[k].total_value, sums[k].total_weight, sums[k].quotient),
        );
        assert(ratio_currencies(out@) =~= ratio_currencies(before).push(group.currency@));
        assert(ratio_currencies(out@) =~= group_currencies(all).take(k + 1));
        k += 1;
    }
    assert(group_currencies(all).take(k as int) =~= group_currencies(all));
    out
}

/// The measures of a query, from its buckets, its paired rows and the sums of each
/// currency among those, in the order of the currencies.
pub fn projection_measures(
    currency_totals: Vec<AnalyticsCurrencyTotal>,
    net_weight_totals: Vec<AnalyticsWeightTotal>,
    gross_weight_totals: Vec<AnalyticsWeightTotal>,
    pairs: &Vec<PairedRow>,
    sums: &Vec<PairSums>,
    exclusions: ExclusionCounts,
) -> (r: AnalyticsMeasures)
    requires
        all_counted(pairs@, pairs@.len() as int) <= u64::MAX,
        sums@.len() == currencies_of(pairs@).len(),
    ensures
        r.currency_totals == currency_totals,
        r.net_weight_totals == net_weight_totals,
        r.gross_weight_totals == gross_weight_totals,
        r.value_per_net_weight@.len() == sums@.len(),
        texts_ascend(ratio_currencies(r.value_per_net_weight@)),
        ratio_currencies(r.value_per_net_weight@).to_set() == currencies_of(pairs@),
        forall|k: int|
            0 <= k < sums@.len() ==> is_ratio(
                pairs@,
                sums@[k],
                #[trigger] r.value_per_net_weight@[k],
            ),
        r.exclusions == exclusions_of(exclusions),
        honest(r),
{
    let value_per_net_weight = projection_ratios(pairs, sums);
    let mut total: Option<AnalyticsCurrencyTotal> = None;
    let mut ratio: Option<AnalyticsValuePerWeight> = None;
    if currency_totals.len() == 1 && currency_totals[0].known {
        total = Some(copy_currency_total(&currency_totals[0]));
        match find_ratio(&value_per_net_weight, currency_totals[0].currency.as_str()) {
            Some(k) => {
                ratio = Some(copy_ratio(&value_per_net_weight[k]));
            },
            None => {},
        }
    }
    AnalyticsMeasures {
        currency_totals,
        net_weight_totals,
        gross_weight_totals,
        value_per_net_weight,
        compatible_value_total: total,
        compatible_value_per_net_weight: ratio,
        exclusions: AnalyticsMeasureExclusions {
            value_without_known_currency: read_count(exclusions.value_without_known_currency),
            net_weight_without_known_unit: read_count(exclusions.net_weight_without_known_unit),
            gross_weight_without_known_unit: read_count(exclusions.gross_weight_without_known_unit),
            ratio_without_known_currency: read_count(exclusions.ratio_without_known_currency),
            ratio_without_known_weight_unit: read_count(exclusions.ratio_without_known_weight_unit),
            ratio_with_zero_or_missing_weight: read_count(
                exclusions.ratio_with_zero_or_missing_weight,
            ),
        },
    }
}

/// The total in dollars, where dollars are the one known currency.
pub open spec fn usd_total(m: AnalyticsMeasures) -> Option<Real> {
    match m.compatible_value_total {
        Some(total) => if total.known && total.currency@ == "USD"@ {
            Some(total.total_value)
        } else {
            None
        },
        None => None,
    }
}

/// The dollars per net kilogram, where dollars are the one known currency.
pub open spec fn usd_per_kg(m: AnalyticsMeasures) -> Option<Real> {
    match m.compatible_value_per_net_weight {
        Some(metric) => if metric.currency@ == "USD"@ {
            metric.value_per_weight
        } else {
            None
        },
        None => None,
    }
}

/// The dollar figures of some measures.
pub open spec fn usd_figures(m: AnalyticsMeasures) -> Option<AnalyticsUsdCompatibility> {
    match usd_total(m) {
        Some(total) => Some(
            AnalyticsUsdCompatibility {
                total_value_usd: total,
                avg_value_per_net_kg: usd_per_kg(m),
            },
        ),
        None => None,
    }
}

/// The dollar figures of a query.
pub fn projection_usd_compat(measures: &AnalyticsMeasures) -> (r: Option<
    AnalyticsUsdCompatibility,
>)
    ensures
        r == usd_figures(*measures),
{
    match measures.compatible_usd_total() {
        Some(total) => Some(
            AnalyticsUsdCompatibility {
                total_value_usd: total,
                avg_value_per_net_kg: measures.compatible_usd_per_net_kg(),
            },
        ),
        None => None,
    }
}

/// The dollar figures of a part of a query that is in dollars as a whole.
pub open spec fn inherited_usd(
    query_is_usd: bool,
    total: Real,
    paired_weight: Real,
    quotient: Real,
) -> Option<AnalyticsUsdCompatibility> {
    if query_is_usd {
        Some(
            AnalyticsUsdCompatibility {
                total_value_usd: total,
                avg_value_per_net_kg: if positive(paired_weight) {
                    Some(quotient)
                } else {
                    None
                },
            },
        )
    } else {
        None
    }
}

/// The dollar figures of a part of a query, from its total, the weight of its
/// paired rows and the quotient of their value and weight, which counts only
/// where there is a weight.
pub fn inherited_projection_usd(
    query_is_usd: bool,
    total_value: Real,
    paired_weight_kg: Real,
    quotient: Real,
) -> (r: Option<AnalyticsUsdCompatibility>)
    ensures
        r == inherited_usd(query_is_usd, total_value, paired_weight_kg, quotient),
{
    if query_is_usd {
        let avg = if is_positive(paired_weight_kg) {
            Some(quotient)
        } else {
            None
        };
        Some(
            AnalyticsUsdCompatibility { total_value_usd: total_value, avg_value_per_net_kg: avg },
        )
    } else {
        None
    }
}

/// Money is never added across currencies: where there is a total in dollars,
/// the rows have one bucket only, it is in dollars, and the total is its own.
pub proof fn dollars_stand_alone(m: AnalyticsMeasures)
    requires
        honest(m),
        usd_total(m) is Some,
    ensures
        m.currency_totals@.len() == 1,
        m.currency_totals@[0].known,
        m.currency_totals@[0].currency@ == "USD"@,
        usd_total(m) == Some(m.currency_totals@[0].total_value),
{
}

/// The dollars per kilogram of a query are a quotient of the same cohort: they
/// come only beside a total in dollars, and from a value per weight in dollars.
pub proof fn ratio_is_of_the_cohort(m: AnalyticsMeasures)
    requires
        honest(m),
        usd_per_kg(m) is Some,
    ensures
        usd_total(m) is Some,
        exists|k: int|
            0 <= k < m.value_per_net_weight@.len() && ratio_in(m.value_per_net_weight@, "USD"@, k)
                && #[trigger] m.value_per_net_weight@[k].value_per_weight == usd_per_kg(m),
{
    let total = m.compatible_value_total->0;
    let ratios = m.value_per_net_weight@;
    let p = |i: int| ratio_in(ratios, total.currency@, i);
    first_found(ratios.len() as int, p);
    let k = ratio_place(ratios, total.currency@)->0;
    assert(p(k));
    assert(ratio_in(ratios, "USD"@, k));
    assert(ratios[k].value_per_weight == usd_per_kg(m));
}

/// The significand of a number that is neither zero, subnormal nor infinite.
pub open spec fn significand(x: Real) -> int {
    0x10_0000_0000_0000 + x.bits as int % 0x10_0000_0000_0000
}

/// The power of two that the significand is multiplied by, plus 1075.
pub open spec fn scale(x: Real) -> int {
    x.bits as int / 0x10_0000_0000_0000
}

/// The factors that bring weights to kilograms are the numbers nearest to 1 for
/// a kilogram, 1/1000 for a gram, 1000 for a tonne and 0.45359237 for a pound;
/// no other unit has one.
pub proof fn units_have_their_kilograms(unit: Seq<char>)
    ensures
        kilograms_of("kg"@) is Some && scale(kilograms_of("kg"@)->0) == 1075 - 52 && significand(
            kilograms_of("kg"@)->0,
        ) == 0x10_0000_0000_0000,
        kilograms_of("tonne"@) is Some && scale(kilograms_of("tonne"@)->0) == 1075 - 43
            && significand(kilograms_of("tonne"@)->0) == 1000 * 0x800_0000_0000,
        kilograms_of("g"@) is Some && scale(kilograms_of("g"@)->0) == 1075 - 62 && -500
            <= significand(kilograms_of("g"@)->0) * 1000 - 0x4000_0000_0000_0000 <= 500,
        kilograms_of("lb"@) is Some && scale(kilograms_of("lb"@)->0) == 1075 - 54 && -50_000_000
            <= significand(kilograms_of("lb"@)->0) * 100_000_000 - 45_359_237
            * 0x40_0000_0000_0000 <= 50_000_000,
        kilograms_of(unit) is Some ==> unit == "kg"@ || unit == "g"@ || unit == "tonne"@ || unit
            == "lb"@,
{
    reveal_strlit("kg");
    reveal_strlit("g");
    reveal_strlit("tonne");
    reveal_strlit("lb");
    assert("kg"@.len() == 2 && "g"@.len() == 1 && "tonne"@.len() == 5 && "lb"@.len() == 2);
    assert("kg"@[0] == 'k' && "lb"@[0] == 'l');
}

/// A currency is known where it is named and its name does not begin like that of
/// the unknown ones.
pub proof fn unknown_currencies_are_not_known(rest: Seq<char>)
    ensures
        !known_currency(Seq::empty()),
        !known_currency("__unknown__"@ + rest),
        rest.len() > 0 && rest[0] != '_' ==> known_currency(rest),
{
    reveal_strlit("__unknown__");
    let marked = "__unknown__"@ + rest;
    assert(marked.subrange(0, 11) =~= "__unknown__"@);
    if rest.len() > 0 && rest[0] != '_' && begins(rest, "__unknown__"@) {
        assert(rest.subrange(0, 11)[0] == rest[0]);
    }
}

/// Numbers are positive from the least one up to the infinite one: neither zero,
/// nor a number with a minus sign, nor what is no number.
pub proof fn positive_numbers_are_above_zero(x: Real)
    ensures
        x.bits == 0 ==> !positive(x),
        x.bits >= 0x8000_0000_0000_0000 ==> !positive(x),
        0 < x.bits && scale(x) < 0x7ff ==> positive(x),
        scale(x) == 0x7ff ==> (positive(x) <==> x.bits % 0x10_0000_0000_0000 == 0),
{
}

/// Each exclusion is counted under its own reason.
pub proof fn exclusions_keep_their_reasons(counts: ExclusionCounts)
    ensures
        counts.value_without_known_currency >= 0 ==> exclusions_of(
            counts,
        ).value_without_known_currency == counts.value_without_known_currency,
        counts.net_weight_without_known_unit >= 0 ==> exclusions_of(
            counts,
        ).net_weight_without_known_unit == counts.net_weight_without_known_unit,
        counts.gross_weight_without_known_unit >= 0 ==> exclusions_of(
            counts,
        ).gross_weight_without_known_unit == counts.gross_weight_without_known_unit,
        counts.ratio_without_known_currency >= 0 ==> exclusions_of(
            counts,
        ).ratio_without_known_currency == counts.ratio_without_known_currency,
        counts.ratio_without_known_weight_unit >= 0 ==> exclusions_of(
            counts,
        ).ratio_without_known_weight_unit == counts.ratio_without_known_weight_unit,
        counts.ratio_with_zero_or_missing_weight >= 0 ==> exclusions_of(
            counts,
        ).ratio_with_zero_or_missing_weight == counts.ratio_with_zero_or_missing_weight,
{
}

/// Dollar figures are the total of the only bucket, in dollars, and the ratio in
/// dollars: a total in another currency or in several has none.
pub proof fn only_dollars_give_dollar_figures(m: AnalyticsMeasures)
    requires
        honest(m),
    ensures
        usd_figures(m) is Some <==> m.currency_totals@.len() == 1 && m.currency_totals@[0].known
            && m.currency_totals@[0].currency@ == "USD"@,
        match usd_figures(m) {
            Some(usd) => usd.total_value_usd == m.currency_totals@[0].total_value && (
            usd.avg_value_per_net_kg is Some ==> exists|k: int|
                0 <= k < m.value_per_net_weight@.len() && (
                #[trigger] m.value_per_net_weight@[k]).currency@ == "USD"@
                    && usd.avg_value_per_net_kg == m.value_per_net_weight@[k].value_per_weight),
            None => true,
        },
{
    match usd_figures(m) {
        Some(usd) => {
            let p = |i: int| ratio_in(m.value_per_net_weight@, "USD"@, i);
            let n = m.value_per_net_weight@.len() as int;
            match ratio_place(m.value_per_net_weight@, "USD"@) {
                Some(k) => {
                    first_found(n, p);
                    assert(m.value_per_net_weight@[k].currency@ == "USD"@);
                },
                None => {},
            }
        },
        None => {},
    }
}

} // verus!
