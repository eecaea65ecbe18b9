//! The statements that read and fill the projection.
use vstd::prelude::*;
use vstd::string::*;

use crate::number::{decimal, decimal_text};
use crate::olap::filter::{where_clause, where_extra_clause, DuckFilter};
use crate::olap::sql::{glue, literal, sql_string, str_views};
use crate::text::{glued, holds, run, run_stands, views};

verus! {

/// The key of rows whose currency is not known.
pub const UNKNOWN_CURRENCY_KEY: &'static str = "__unknown__";

/// The key of rows whose weight unit is not known.
pub const UNKNOWN_UNIT_KEY: &'static str = "__unknown__";

/// A number brought between two bounds.
pub open spec fn clamped(n: nat, low: nat, high: nat) -> nat {
    if n < low {
        low
    } else if n > high {
        high
    } else {
        n
    }
}

/// Brings a number between two bounds.
pub fn clamp(n: u64, low: u64, high: u64) -> (r: u64)
    ensures
        r == clamped(n as nat, low as nat, high as nat),
{
    if n < low {
        low
    } else if n > high {
        high
    } else {
        n
    }
}

/// A number brought between two bounds lies between them, is the nearest such
/// number, and stays as it is where it lay between them.
pub proof fn clamping_is_nearest(n: nat, low: nat, high: nat, other: nat)
    requires
        low <= high,
    ensures
        low <= clamped(n, low, high) <= high,
        low <= n <= high ==> clamped(n, low, high) == n,
        low <= other <= high && n <= other ==> clamped(n, low, high) <= other,
        low <= other <= high && n >= other ==> clamped(n, low, high) >= other,
{
}

/// All rows that a filter selects, counted.
pub open spec fn count_text(filter: Seq<Seq<char>>) -> Seq<char> {
    "SELECT COUNT(*) FROM records "@ + where_clause(filter)
}

/// The statement that counts the rows a filter selects.
pub fn count_sql(filter: &DuckFilter) -> (r: String)
    ensures
        r@ == count_text(views(filter.conditions@)),
{
    let mut out = String::from_str("SELECT COUNT(*) FROM records ");
    out.append(filter.where_sql().as_str());
    out
}

/// The pieces of a weight column in kilograms.
pub open spec fn kilograms_pieces(weight: Seq<char>) -> Seq<Seq<char>> {
    seq![
        "CASE weight_unit_key\n            WHEN 'kg' THEN "@,
        weight,
        "\n            "@,
        "WHEN 'g' THEN "@,
        weight,
        " * 0.001\n            "@,
        "WHEN 'tonne' THEN "@,
        weight,
        " * 1000.0\n            "@,
        "WHEN 'lb' THEN "@,
        weight,
        " * 0.45359237\n         END"@,
    ]
}

/// The expression of a weight column in kilograms.
pub open spec fn kilograms(weight: Seq<char>) -> Seq<char> {
    glued(kilograms_pieces(weight))
}

/// A weight column in kilograms.
pub fn normalized_weight_sql(weight: &str) -> (r: String)
    ensures
        r@ == kilograms(weight@),
{
    let parts: [&str; 12] = [
        "CASE weight_unit_key\n            WHEN 'kg' THEN ",
        weight,
        "\n            ",
        "WHEN 'g' THEN ",
        weight,
        " * 0.001\n            ",
        "WHEN 'tonne' THEN ",
        weight,
        " * 1000.0\n            ",
        "WHEN 'lb' THEN ",
        weight,
        " * 0.45359237\n         END",
    ];
    assert(str_views(parts@) =~= kilograms_pieces(weight@));
    glue(&parts)
}

/// A weight in kilograms stays as it is, one in grams is a thousandth, one in
/// tonnes a thousandfold, and one in pounds 0.45359237 of it.
pub proof fn weights_are_brought_to_kilograms(weight: Seq<char>)
    ensures
        holds(
            kilograms(weight),
            "CASE weight_unit_key\n            WHEN 'kg' THEN "@
                + weight
                + "\n            "@,
        ),
        holds(
            kilograms(weight),
            "WHEN 'g' THEN "@
                + weight
                + " * 0.001\n            "@,
        ),
        holds(
            kilograms(weight),
            "WHEN 'tonne' THEN "@
                + weight
                + " * 1000.0\n            "@,
        ),
        holds(
            kilograms(weight),
            "WHEN 'lb' THEN "@
                + weight
                + " * 0.45359237\n         END"@,
        ),
{
    reveal_with_fuel(run, 3);
    let pieces = kilograms_pieces(weight);
    run_stands(pieces, 0, 3);
    run_stands(pieces, 3, 3);
    run_stands(pieces, 6, 3);
    run_stands(pieces, 9, 3);
}

/// The pieces of the statement below, in order.
pub open spec fn weight_totals_pieces(filter: Seq<Seq<char>>, weight: Seq<char>) -> Seq<Seq<char>> {
    seq![
        "SELECT\n            "@,
        "COALESCE(NULLIF(weight_unit_key, ''), '"@,
        UNKNOWN_UNIT_KEY@,
        "') AS source_unit"@,
        ",\n            "@,
        "COUNT(*) AS weighted_rows"@,
        ",\n            "@,
        "COALESCE(SUM("@,
        weight,
        "), 0.0) AS source_total"@,
        ",\n            "@,
        "SUM("@,
        kilograms(weight),
        ") AS kg_total"@,
        "\n         "@,
        "FROM records\n         "@,
        where_extra_clause(filter),
        " "@,
        weight,
        " IS NOT NULL\n         GROUP BY source_unit"@,
        "\n         "@,
        "ORDER BY source_total DESC, source_unit"@,
    ]
}

/// The totals of a weight column by source unit.
pub open spec fn weight_totals_text(filter: Seq<Seq<char>>, weight: Seq<char>) -> Seq<char> {
    glued(weight_totals_pieces(filter, weight))
}

/// The statement of the totals of a weight column by source unit.
pub fn weight_totals_sql(filter: &DuckFilter, weight: &str) -> (r: String)
    ensures
        r@ == weight_totals_text(views(filter.conditions@), weight@),
{
    let clause = filter.where_extra_sql();
    let normalized = normalized_weight_sql(weight);
    let parts: [&str; 22] = [
        "SELECT\n            ",
        "COALESCE(NULLIF(weight_unit_key, ''), '",
        UNKNOWN_UNIT_KEY,
        "') AS source_unit",
        ",\n            ",
        "COUNT(*) AS weighted_rows",
        ",\n            ",
        "COALESCE(SUM(",
        weight,
        "), 0.0) AS source_total",
        ",\n            ",
        "SUM(",
        normalized.as_str(),
        ") AS kg_total",
        "\n         ",
        "FROM records\n         ",
        clause.as_str(),
        " ",
        weight,
        " IS NOT NULL\n         GROUP BY source_unit",
        "\n         ",
        "ORDER BY source_total DESC, source_unit",
    ];
    assert(str_views(parts@) =~= weight_totals_pieces(views(filter.conditions@), weight@));
    glue(&parts)
}

/// The totals of a weight column are by source unit, both in that unit and in
/// kilograms, over the selected rows that have the weight.
pub proof fn weight_totals_are_by_source_unit(filter: Seq<Seq<char>>, weight: Seq<char>)
    ensures
        holds(
            weight_totals_text(filter, weight),
            "COALESCE(NULLIF(weight_unit_key, ''), '"@
                + "__unknown__"@
                + "') AS source_unit"@,
        ),
        holds(
            weight_totals_text(filter, weight),
            "COUNT(*) AS weighted_rows"@,
        ),
        holds(
            weight_totals_text(filter, weight),
            "COALESCE(SUM("@
                + weight
                + "), 0.0) AS source_total"@,
        ),
        holds(
            weight_totals_text(filter, weight),
            "SUM("@
                + kilograms(weight)
                + ") AS kg_total"@,
        ),
        holds(
            weight_totals_text(filter, weight),
            "FROM records\n         "@
                + where_extra_clause(filter)
                + " "@
                + weight
                + " IS NOT NULL\n         GROUP BY source_unit"@,
        ),
        holds(
            weight_totals_text(filter, weight),
            "ORDER BY source_total DESC, source_unit"@,
        ),
{
    reveal_with_fuel(run, 5);
    let pieces = weight_totals_pieces(filter, weight);
    run_stands(pieces, 1, 3);
    run_stands(pieces, 5, 1);
    run_stands(pieces, 7, 3);
    run_stands(pieces, 11, 3);
    run_stands(pieces, 15, 5);
    run_stands(pieces, 21, 1);
}

/// The pieces of the statement below, in order.
pub open spec fn currency_totals_pieces(filter: Seq<Seq<char>>) -> Seq<Seq<char>> {
    seq![
        "SELECT\n                "@,
        "COALESCE(NULLIF(currency_key, ''), '"@,
        UNKNOWN_CURRENCY_KEY@,
        "') AS currency"@,
        ",\n                "@,
        "COUNT(*) AS valued_rows"@,
        ",\n                "@,
        "COALESCE(SUM(value_num), 0.0) AS total_value"@,
        "\n             "@,
        "FROM records\n             "@,
        where_extra_clause(filter),
        " value_num IS NOT NULL\n             GROUP BY currency"@,
        "\n             "@,
        "ORDER BY total_value DESC, currency"@,
    ]
}

/// The totals of the values by currency.
pub open spec fn currency_totals_text(filter: Seq<Seq<char>>) -> Seq<char> {
    glued(currency_totals_pieces(filter))
}

/// The statement of the totals of the values by currency.
pub fn currency_totals_sql(filter: &DuckFilter) -> (r: String)
    ensures
        r@ == currency_totals_text(views(filter.conditions@)),
{
    let clause = filter.where_extra_sql();
    let parts: [&str; 14] = [
        "SELECT\n                ",
        "COALESCE(NULLIF(currency_key, ''), '",
        UNKNOWN_CURRENCY_KEY,
        "') AS currency",
        ",\n                ",
        "COUNT(*) AS valued_rows",
        ",\n                ",
        "COALESCE(SUM(value_num), 0.0) AS total_value",
        "\n             ",
        "FROM records\n             ",
        clause.as_str(),
        " value_num IS NOT NULL\n             GROUP BY currency",
        "\n             ",
        "ORDER BY total_value DESC, currency",
    ];
    assert(str_views(parts@) =~= currency_totals_pieces(views(filter.conditions@)));
    glue(&parts)
}

/// The totals of the values are by currency, over the selected rows that have a
/// value.
pub proof fn currency_totals_are_by_currency(filter: Seq<Seq<char>>)
    ensures
        holds(
            currency_totals_text(filter),
            "COALESCE(NULLIF(currency_key, ''), '"@
                + "__unknown__"@
                + "') AS currency"@,
        ),
        holds(
            currency_totals_text(filter),
            "COUNT(*) AS valued_rows"@,
        ),
        holds(
            currency_totals_text(filter),
            "COALESCE(SUM(value_num), 0.0) AS total_value"@,
        ),
        holds(
            currency_totals_text(filter),
            "FROM records\n             "@
                + where_extra_clause(filter)
                + " value_num IS NOT NULL\n             GROUP BY currency"@,
        ),
        holds(
            currency_totals_text(filter),
            "ORDER BY total_value DESC, currency"@,
        ),
{
    reveal_with_fuel(run, 3);
    let pieces = currency_totals_pieces(filter);
    run_stands(pieces, 1, 3);
    run_stands(pieces, 5, 1);
    run_stands(pieces, 7, 1);
    run_stands(pieces, 9, 3);
    run_stands(pieces, 13, 1);
}

/// The pieces of the statement below, in order.
pub open spec fn value_per_weight_pieces(filter: Seq<Seq<char>>) -> Seq<Seq<char>> {
    let net_kg = kilograms("net_kg_num"@);
    seq![
        "SELECT\n                "@,
        "COALESCE(NULLIF(currency_key, ''), '"@,
        UNKNOWN_CURRENCY_KEY@,
        "') AS currency"@,
        ",\n                "@,
        "COALESCE(NULLIF(weight_unit_key, ''), '"@,
        UNKNOWN_UNIT_KEY@,
        "') AS source_unit"@,
        ",\n                "@,
        "COUNT(*) AS paired_rows"@,
        ",\n                "@,
        "COALESCE(SUM(value_num), 0.0) AS total_value"@,
        ",\n                "@,
        "COALESCE(SUM("@,
        net_kg,
        "), 0.0) AS total_weight"@,
        "\n             "@,
        "FROM records\n             "@,
        where_extra_clause(filter),
        " value_num IS NOT NULL\n               "@,
        "AND net_kg_num IS NOT NULL\n               "@,
        "AND ("@,
        net_kg,
        ") > 0\n             GROUP BY currency, source_unit"@,
        "\n             ORDER BY currency, source_unit"@,
    ]
}

/// Values and net weights by currency and source unit.
pub open spec fn value_per_weight_text(filter: Seq<Seq<char>>) -> Seq<char> {
    glued(value_per_weight_pieces(filter))
}

/// The statement of values and net weights by currency and source unit.
pub fn value_per_weight_sql(filter: &DuckFilter) -> (r: String)
    ensures
        r@ == value_per_weight_text(views(filter.conditions@)),
{
    let clause = filter.where_extra_sql();
    let net_kg = normalized_weight_sql("net_kg_num");
    let parts: [&str; 25] = [
        "SELECT\n                ",
        "COALESCE(NULLIF(currency_key, ''), '",
        UNKNOWN_CURRENCY_KEY,
        "') AS currency",
        ",\n                ",
        "COALESCE(NULLIF(weight_unit_key, ''), '",
        UNKNOWN_UNIT_KEY,
        "') AS source_unit",
        ",\n                ",
        "COUNT(*) AS paired_rows",
        ",\n                ",
        "COALESCE(SUM(value_num), 0.0) AS total_value",
        ",\n                ",
        "COALESCE(SUM(",
        net_kg.as_str(),
        "), 0.0) AS total_weight",
        "\n             ",
        "FROM records\n             ",
        clause.as_str(),
        " value_num IS NOT NULL\n               ",
        "AND net_kg_num IS NOT NULL\n               ",
        "AND (",
        net_kg.as_str(),
        ") > 0\n             GROUP BY currency, source_unit",
        "\n             ORDER BY currency, source_unit",
    ];
    assert(str_views(parts@) =~= value_per_weight_pieces(views(filter.conditions@)));
    glue(&parts)
}

/// Values and weights are paired by currency and source unit: the value's total
/// beside the total of the net kilograms, over the selected rows that have both.
pub proof fn values_are_paired_with_net_kilograms(filter: Seq<Seq<char>>)
    ensures
        holds(
            value_per_weight_text(filter),
            "COALESCE(NULLIF(currency_key, ''), '"@
                + "__unknown__"@
                + "') AS currency"@,
        ),
        holds(
            value_per_weight_text(filter),
            "COALESCE(NULLIF(weight_unit_key, ''), '"@
                + "__unknown__"@
                + "') AS source_unit"@,
        ),
        holds(
            value_per_weight_text(filter),
            "COUNT(*) AS paired_rows"@,
        ),
        holds(
            value_per_weight_text(filter),
            "COALESCE(SUM(value_num), 0.0) AS total_value"@,
        ),
        holds(
            value_per_weight_text(filter),
            "COALESCE(SUM("@
                + kilograms("net_kg_num"@)
                + "), 0.0) AS total_weight"@,
        ),
        holds(
            value_per_weight_text(filter),
            "FROM records\n             "@
                + where_extra_clause(filter)
                + " value_num IS NOT NULL\n               "@
                + "AND net_kg_num IS NOT NULL\n               "@
                + "AND ("@
                + kilograms("net_kg_num"@)
                + ") > 0\n             GROUP BY currency, source_unit"@,
        ),
{
    reveal_with_fuel(run, 7);
    let pieces = value_per_weight_pieces(filter);
    run_stands(pieces, 1, 3);
    run_stands(pieces, 5, 3);
    run_stands(pieces, 9, 1);
    run_stands(pieces, 11, 1);
    run_stands(pieces, 13, 3);
    run_stands(pieces, 17, 7);
}

/// A row whose currency is not known.
pub const UNKNOWN_CURRENCY_SQL: &'static str = "(COALESCE(currency_key, '') = '' OR starts_with(currency_key, '__unknown__'))";

/// A row whose weight unit is not known.
pub const UNKNOWN_UNIT_SQL: &'static str = "(COALESCE(weight_unit_key, '') = '' OR starts_with(weight_unit_key, '__unknown__'))";

/// A row whose currency is known.
pub const KNOWN_CURRENCY_SQL: &'static str = "COALESCE(currency_key, '') <> ''
         AND NOT starts_with(currency_key, '__unknown__')";

/// The pieces of the statement below, in order.
pub open spec fn exclusions_pieces(filter: Seq<Seq<char>>) -> Seq<Seq<char>> {
    seq![
        "SELECT\n            COALESCE(SUM(CASE WHEN value_num IS NOT NULL AND "@,
        UNKNOWN_CURRENCY_SQL@,
        "\n                "@,
        "THEN 1 ELSE 0 END), 0),\n            "@,
        "COALESCE(SUM(CASE WHEN net_kg_num IS NOT NULL AND "@,
        UNKNOWN_UNIT_SQL@,
        "\n                "@,
        "THEN 1 ELSE 0 END), 0),\n            "@,
        "COALESCE(SUM(CASE WHEN gross_kg_num IS NOT NULL AND "@,
        UNKNOWN_UNIT_SQL@,
        "\n                "@,
        "THEN 1 ELSE 0 END), 0),\n            "@,
        "COALESCE(SUM(CASE WHEN value_num IS NOT NULL AND net_kg_num IS NOT NULL\n                "@,
        "AND "@,
        UNKNOWN_CURRENCY_SQL@,
        " THEN 1 ELSE 0 END), 0),\n            "@,
        "COALESCE(SUM(CASE WHEN value_num IS NOT NULL AND net_kg_num IS NOT NULL\n                "@,
        "AND "@,
        UNKNOWN_UNIT_SQL@,
        " THEN 1 ELSE 0 END), 0),\n            "@,
        "COALESCE(SUM(CASE WHEN value_num IS NOT NULL\n                "@,
        "AND (net_kg_num IS NULL OR net_kg_num <= 0) THEN 1 ELSE 0 END), 0)\n         "@,
        "FROM records "@,
        where_clause(filter),
    ]
}

/// How many rows the measures leave out, by reason.
pub open spec fn exclusions_text(filter: Seq<Seq<char>>) -> Seq<char> {
    glued(exclusions_pieces(filter))
}

/// The statement of the rows that the measures leave out.
pub fn exclusions_sql(filter: &DuckFilter) -> (r: String)
    ensures
        r@ == exclusions_text(views(filter.conditions@)),
{
    let clause = filter.where_sql();
    let parts: [&str; 24] = [
        "SELECT\n            COALESCE(SUM(CASE WHEN value_num IS NOT NULL AND ",
        UNKNOWN_CURRENCY_SQL,
        "\n                ",
        "THEN 1 ELSE 0 END), 0),\n            ",
        "COALESCE(SUM(CASE WHEN net_kg_num IS NOT NULL AND ",
        UNKNOWN_UNIT_SQL,
        "\n                ",
        "THEN 1 ELSE 0 END), 0),\n            ",
        "COALESCE(SUM(CASE WHEN gross_kg_num IS NOT NULL AND ",
        UNKNOWN_UNIT_SQL,
        "\n                ",
        "THEN 1 ELSE 0 END), 0),\n            ",
        "COALESCE(SUM(CASE WHEN value_num IS NOT NULL AND net_kg_num IS NOT NULL\n                ",
        "AND ",
        UNKNOWN_CURRENCY_SQL,
        " THEN 1 ELSE 0 END), 0),\n            ",
        "COALESCE(SUM(CASE WHEN value_num IS NOT NULL AND net_kg_num IS NOT NULL\n                ",
        "AND ",
        UNKNOWN_UNIT_SQL,
        " THEN 1 ELSE 0 END), 0),\n            ",
        "COALESCE(SUM(CASE WHEN value_num IS NOT NULL\n                ",
        "AND (net_kg_num IS NULL OR net_kg_num <= 0) THEN 1 ELSE 0 END), 0)\n         ",
        "FROM records ",
        clause.as_str(),
    ];
    assert(str_views(parts@) =~= exclusions_pieces(views(filter.conditions@)));
    glue(&parts)
}

/// The rows left out are counted by reason: values without a currency, net and
/// gross weights without a unit, pairs without a currency or a unit, and values
/// without a net weight, in this order.
pub proof fn each_exclusion_counts_its_reason(filter: Seq<Seq<char>>)
    ensures
        holds(
            exclusions_text(filter),
            "SELECT\n            COALESCE(SUM(CASE WHEN value_num IS NOT NULL AND "@
                + "(COALESCE(currency_key, '') = '' OR starts_with(currency_key, '__unknown__'))"@
                + "\n                "@
                + "THEN 1 ELSE 0 END), 0),\n            "@
                + "COALESCE(SUM(CASE WHEN net_kg_num IS NOT NULL AND "@
                + "(COALESCE(weight_unit_key, '') = '' OR starts_with(weight_unit_key, '__unknown__'))"@
                + "\n                "@
                + "THEN 1 ELSE 0 END), 0),\n            "@
                + "COALESCE(SUM(CASE WHEN gross_kg_num IS NOT NULL AND "@
                + "(COALESCE(weight_unit_key, '') = '' OR starts_with(weight_unit_key, '__unknown__'))"@
                + "\n                "@
                + "THEN 1 ELSE 0 END), 0),\n            "@
                + "COALESCE(SUM(CASE WHEN value_num IS NOT NULL AND net_kg_num IS NOT NULL\n                "@
                + "AND "@
                + "(COALESCE(currency_key, '') = '' OR starts_with(currency_key, '__unknown__'))"@
                + " THEN 1 ELSE 0 END), 0),\n            "@
                + "COALESCE(SUM(CASE WHEN value_num IS NOT NULL AND net_kg_num IS NOT NULL\n                "@
                + "AND "@
                + "(COALESCE(weight_unit_key, '') = '' OR starts_with(weight_unit_key, '__unknown__'))"@
                + " THEN 1 ELSE 0 END), 0),\n            "@
                + "COALESCE(SUM(CASE WHEN value_num IS NOT NULL\n                "@
                + "AND (net_kg_num IS NULL OR net_kg_num <= 0) THEN 1 ELSE 0 END), 0)\n         "@
                + "FROM records "@
                + where_clause(filter),
        ),
{
    reveal_with_fuel(run, 24);
    let pieces = exclusions_pieces(filter);
    run_stands(pieces, 0, 24);
}

/// The pieces of the statement below, in order.
pub open spec fn overview_pieces(filter: Seq<Seq<char>>) -> Seq<Seq<char>> {
    seq![
        "SELECT\n            "@,
        "COUNT(*),\n            "@,
        "COUNT(DISTINCT NULLIF(declaration_number, '')),\n            "@,
        "COUNT(DISTINCT NULLIF(sender_label, '')),\n            "@,
        "COUNT(DISTINCT NULLIF(recipient_label, '')),\n            "@,
        "COUNT(DISTINCT NULLIF(edrpou_label, '')),\n            "@,
        "COUNT(DISTINCT NULLIF(trademark_label, '')),\n            "@,
        "COUNT(DISTINCT NULLIF(product_code, '')),\n            "@,
        "COUNT(DISTINCT NULLIF(origin_key, '')),\n            "@,
        "COUNT(DISTINCT NULLIF(dispatch_key, '')),\n            "@,
        "COUNT(DISTINCT NULLIF(trade_key, '')),\n            "@,
        "COALESCE(SUM(quantity_num), 0.0)\n         "@,
        "FROM records "@,
        where_clause(filter),
    ]
}

/// The headline counts.
pub open spec fn overview_text(filter: Seq<Seq<char>>) -> Seq<char> {
    glued(overview_pieces(filter))
}

/// The statement of the headline counts.
pub fn overview_sql(filter: &DuckFilter) -> (r: String)
    ensures
        r@ == overview_text(views(filter.conditions@)),
{
    let clause = filter.where_sql();
    let parts: [&str; 14] = [
        "SELECT\n            ",
        "COUNT(*),\n            ",
        "COUNT(DISTINCT NULLIF(declaration_number, '')),\n            ",
        "COUNT(DISTINCT NULLIF(sender_label, '')),\n            ",
        "COUNT(DISTINCT NULLIF(recipient_label, '')),\n            ",
        "COUNT(DISTINCT NULLIF(edrpou_label, '')),\n            ",
        "COUNT(DISTINCT NULLIF(trademark_label, '')),\n            ",
        "COUNT(DISTINCT NULLIF(product_code, '')),\n            ",
        "COUNT(DISTINCT NULLIF(origin_key, '')),\n            ",
        "COUNT(DISTINCT NULLIF(dispatch_key, '')),\n            ",
        "COUNT(DISTINCT NULLIF(trade_key, '')),\n            ",
        "COALESCE(SUM(quantity_num), 0.0)\n         ",
        "FROM records ",
        clause.as_str(),
    ];
    assert(str_views(parts@) =~= overview_pieces(views(filter.conditions@)));
    glue(&parts)
}

/// The headline counts the selected rows, then the different declarations,
/// senders, recipients, company codes, trademarks, product codes and countries of
/// origin, dispatch and trade, and adds the quantities up, in this order.
pub proof fn the_headline_counts_each_party_once(filter: Seq<Seq<char>>)
    ensures
        holds(
            overview_text(filter),
            "COUNT(*),\n            "@
                + "COUNT(DISTINCT NULLIF(declaration_number, '')),\n            "@
                + "COUNT(DISTINCT NULLIF(sender_label, '')),\n            "@
                + "COUNT(DISTINCT NULLIF(recipient_label, '')),\n            "@
                + "COUNT(DISTINCT NULLIF(edrpou_label, '')),\n            "@
                + "COUNT(DISTINCT NULLIF(trademark_label, '')),\n            "@
                + "COUNT(DISTINCT NULLIF(product_code, '')),\n            "@
                + "COUNT(DISTINCT NULLIF(origin_key, '')),\n            "@
                + "COUNT(DISTINCT NULLIF(dispatch_key, '')),\n            "@
                + "COUNT(DISTINCT NULLIF(trade_key, '')),\n            "@
                + "COALESCE(SUM(quantity_num), 0.0)\n         "@
                + "FROM records "@
                + where_clause(filter),
        ),
{
    reveal_with_fuel(run, 13);
    let pieces = overview_pieces(filter);
    run_stands(pieces, 1, 13);
}

/// The pieces of the statement below, in order.
pub open spec fn months_pieces(filter: Seq<Seq<char>>, limit: nat) -> Seq<Seq<char>> {
    let net_kg = kilograms("net_kg_num"@);
    seq![
        "SELECT\n            "@,
        "month,\n            "@,
        "COUNT(*) AS rows_count,\n            "@,
        "COUNT(DISTINCT NULLIF(declaration_number, '')) AS declarations_count,\n            "@,
        "COALESCE(SUM(value_num), 0.0) AS total_value,\n            "@,
        "COALESCE(SUM("@,
        net_kg,
        "), 0.0) AS total_net_kg"@,
        ",\n            COALESCE(SUM(CASE WHEN value_num IS NOT NULL AND ("@,
        net_kg,
        ") > 0\n                "@,
        "THEN value_num ELSE 0.0 END), 0.0) AS paired_value,\n            "@,
        "COALESCE(SUM(CASE WHEN value_num IS NOT NULL AND ("@,
        net_kg,
        ") > 0\n                THEN ("@,
        net_kg,
        ") ELSE 0.0 END), 0.0) AS paired_weight"@,
        ",\n            "@,
        "COUNT(value_num) AS valued_rows,\n            "@,
        "COUNT(net_kg_num) AS net_rows,\n            "@,
        "COALESCE(SUM(net_kg_num), 0.0) AS net_source_total,\n            "@,
        "COUNT(CASE WHEN value_num IS NOT NULL AND net_kg_num > 0\n                "@,
        "THEN 1 END) AS paired_row_count,\n            "@,
        "COALESCE(SUM(CASE WHEN value_num IS NOT NULL AND net_kg_num > 0\n                "@,
        "THEN value_num END), 0.0) AS paired_source_value,\n            "@,
        "COALESCE(SUM(CASE WHEN value_num IS NOT NULL AND net_kg_num > 0\n                "@,
        "THEN net_kg_num END), 0.0) AS paired_source_net"@,
        "\n         "@,
        "FROM records\n         "@,
        where_extra_clause(filter),
        " month IS NOT NULL AND month <> ''\n         "@,
        "GROUP BY month\n         "@,
        "ORDER BY month DESC\n         "@,
        "LIMIT "@,
        decimal(limit),
    ]
}

/// The newest months, at most `limit` of them.
pub open spec fn months_text(filter: Seq<Seq<char>>, limit: nat) -> Seq<char> {
    glued(months_pieces(filter, limit))
}

/// The statement of the newest months.
pub fn months_sql(filter: &DuckFilter, limit: u64) -> (r: String)
    ensures
        r@ == months_text(views(filter.conditions@), limit as nat),
{
    let clause = filter.where_extra_sql();
    let net_kg = normalized_weight_sql("net_kg_num");
    let count = decimal_text(limit);
    let parts: [&str; 35] = [
        "SELECT\n            ",
        "month,\n            ",
        "COUNT(*) AS rows_count,\n            ",
        "COUNT(DISTINCT NULLIF(declaration_number, '')) AS declarations_count,\n            ",
        "COALESCE(SUM(value_num), 0.0) AS total_value,\n            ",
        "COALESCE(SUM(",
        net_kg.as_str(),
        "), 0.0) AS total_net_kg",
        ",\n            COALESCE(SUM(CASE WHEN value_num IS NOT NULL AND (",
        net_kg.as_str(),
        ") > 0\n                ",
        "THEN value_num ELSE 0.0 END), 0.0) AS paired_value,\n            ",
        "COALESCE(SUM(CASE WHEN value_num IS NOT NULL AND (",
        net_kg.as_str(),
        ") > 0\n                THEN (",
        net_kg.as_str(),
        ") ELSE 0.0 END), 0.0) AS paired_weight",
        ",\n            ",
        "COUNT(value_num) AS valued_rows,\n            ",
        "COUNT(net_kg_num) AS net_rows,\n            ",
        "COALESCE(SUM(net_kg_num), 0.0) AS net_source_total,\n            ",
        "COUNT(CASE WHEN value_num IS NOT NULL AND net_kg_num > 0\n                ",
        "THEN 1 END) AS paired_row_count,\n            ",
        "COALESCE(SUM(CASE WHEN value_num IS NOT NULL AND net_kg_num > 0\n                ",
        "THEN value_num END), 0.0) AS paired_source_value,\n            ",
        "COALESCE(SUM(CASE WHEN value_num IS NOT NULL AND net_kg_num > 0\n                ",
        "THEN net_kg_num END), 0.0) AS paired_source_net",
        "\n         ",
        "FROM records\n         ",
        clause.as_str(),
        " month IS NOT NULL AND month <> ''\n         ",
        "GROUP BY month\n         ",
        "ORDER BY month DESC\n         ",
        "LIMIT ",
        count.as_str(),
    ];
    assert(str_views(parts@) =~= months_pieces(views(filter.conditions@), limit as nat));
    glue(&parts)
}

/// Each month has the totals that its columns are named for, over the selected
/// rows that have a month, and the newest months come first.
pub proof fn each_month_has_its_totals(filter: Seq<Seq<char>>, limit: nat)
    ensures
        holds(
            months_text(filter, limit),
            "COALESCE(SUM("@
                + kilograms("net_kg_num"@)
                + "), 0.0) AS total_net_kg"@,
        ),
        holds(
            months_text(filter, limit),
            "SELECT\n            "@
                + "month,\n            "@
                + "COUNT(*) AS rows_count,\n            "@
                + "COUNT(DISTINCT NULLIF(declaration_number, '')) AS declarations_count,\n            "@
                + "COALESCE(SUM(value_num), 0.0) AS total_value,\n            "@
                + "COALESCE(SUM("@
                + kilograms("net_kg_num"@)
                + "), 0.0) AS total_net_kg"@
                + ",\n            COALESCE(SUM(CASE WHEN value_num IS NOT NULL AND ("@
                + kilograms("net_kg_num"@)
                + ") > 0\n                "@
                + "THEN value_num ELSE 0.0 END), 0.0) AS paired_value,\n            "@
                + "COALESCE(SUM(CASE WHEN value_num IS NOT NULL AND ("@
                + kilograms("net_kg_num"@)
                + ") > 0\n                THEN ("@
                + kilograms("net_kg_num"@)
                + ") ELSE 0.0 END), 0.0) AS paired_weight"@,
        ),
        holds(
            months_text(filter, limit),
            "COUNT(value_num) AS valued_rows,\n            "@
                + "COUNT(net_kg_num) AS net_rows,\n            "@
                + "COALESCE(SUM(net_kg_num), 0.0) AS net_source_total,\n            "@
                + "COUNT(CASE WHEN value_num IS NOT NULL AND net_kg_num > 0\n                "@
                + "THEN 1 END) AS paired_row_count,\n            "@
                + "COALESCE(SUM(CASE WHEN value_num IS NOT NULL AND net_kg_num > 0\n                "@
                + "THEN value_num END), 0.0) AS paired_source_value,\n            "@
                + "COALESCE(SUM(CASE WHEN value_num IS NOT NULL AND net_kg_num > 0\n                "@
                + "THEN net_kg_num END), 0.0) AS paired_source_net"@,
        ),
        holds(
            months_text(filter, limit),
            "FROM records\n         "@
                + where_extra_clause(filter)
                + " month IS NOT NULL AND month <> ''\n         "@
                + "GROUP BY month\n         "@
                + "ORDER BY month DESC\n         "@
                + "LIMIT "@
                + decimal(limit),
        ),
{
    reveal_with_fuel(run, 17);
    let pieces = months_pieces(filter, limit);
    run_stands(pieces, 5, 3);
    run_stands(pieces, 0, 17);
    run_stands(pieces, 18, 9);
    run_stands(pieces, 28, 7);
}

/// The pieces of the statement below, in order.
pub open spec fn section_pieces(filter: Seq<Seq<char>>, label: Seq<char>, limit: nat) -> Seq<Seq<char>> {
    let net_kg = kilograms("net_kg_num"@);
    let gross_kg = kilograms("gross_kg_num"@);
    seq![
        "SELECT\n            "@,
        label,
        " AS label,\n            "@,
        "COUNT(*) AS rows_count,\n            "@,
        "COUNT(DISTINCT NULLIF(declaration_number, '')) AS declarations_count,\n            "@,
        "COUNT(DISTINCT NULLIF(edrpou_label, '')) AS companies_count,\n            "@,
        "COALESCE(SUM(value_num), 0.0) AS total_value,\n            "@,
        "COALESCE(SUM("@,
        net_kg,
        "), 0.0) AS total_net_kg"@,
        ",\n            "@,
        "COALESCE(SUM("@,
        gross_kg,
        "), 0.0) AS total_gross_kg"@,
        ",\n            COALESCE(SUM(quantity_num), 0.0) AS total_quantity"@,
        ",\n            "@,
        "COALESCE(SUM(CASE WHEN value_num IS NOT NULL AND ("@,
        net_kg,
        ") > 0\n                "@,
        "THEN value_num ELSE 0.0 END), 0.0) AS paired_value,\n            "@,
        "COALESCE(SUM(CASE WHEN value_num IS NOT NULL AND ("@,
        net_kg,
        ") > 0\n                THEN ("@,
        net_kg,
        ") ELSE 0.0 END), 0.0) AS paired_weight,\n            "@,
        "COUNT(value_num) AS valued_rows,\n            "@,
        "COUNT(net_kg_num) AS net_rows,\n            "@,
        "COUNT(gross_kg_num) AS gross_rows,\n            "@,
        "COALESCE(SUM(net_kg_num), 0.0) AS net_source_total,\n            "@,
        "COALESCE(SUM(gross_kg_num), 0.0) AS gross_source_total,\n            "@,
        "COUNT(CASE WHEN value_num IS NOT NULL AND net_kg_num > 0\n                "@,
        "THEN 1 END) AS paired_row_count,\n            "@,
        "COALESCE(SUM(CASE WHEN value_num IS NOT NULL AND net_kg_num > 0\n                "@,
        "THEN value_num END), 0.0) AS paired_source_value,\n            "@,
        "COALESCE(SUM(CASE WHEN value_num IS NOT NULL AND net_kg_num > 0\n                "@,
        "THEN net_kg_num END), 0.0) AS paired_source_net"@,
        "\n         "@,
        "FROM records\n         "@,
        where_extra_clause(filter),
        " "@,
        label,
        " IS NOT NULL AND "@,
        label,
        " <> ''\n         GROUP BY "@,
        label,
        "\n         "@,
        "ORDER BY total_value DESC, total_net_kg DESC, rows_count DESC, label\n         "@,
        "LIMIT "@,
        decimal(clamped(limit, 1, 20000)),
    ]
}

/// The groups of a section, ranked, at most `limit` of them.
pub open spec fn section_text(filter: Seq<Seq<char>>, label: Seq<char>, limit: nat) -> Seq<char> {
    glued(section_pieces(filter, label, limit))
}

/// The statement of the groups of a section.
pub fn section_sql(filter: &DuckFilter, label: &str, limit: u64) -> (r: String)
    ensures
        r@ == section_text(views(filter.conditions@), label@, limit as nat),
{
    let clause = filter.where_extra_sql();
    let net_kg = normalized_weight_sql("net_kg_num");
    let gross_kg = normalized_weight_sql("gross_kg_num");
    let count = decimal_text(clamp(limit, 1, 20000));
    let parts: [&str; 49] = [
        "SELECT\n            ",
        label,
        " AS label,\n            ",
        "COUNT(*) AS rows_count,\n            ",
        "COUNT(DISTINCT NULLIF(declaration_number, '')) AS declarations_count,\n            ",
        "COUNT(DISTINCT NULLIF(edrpou_label, '')) AS companies_count,\n            ",
        "COALESCE(SUM(value_num), 0.0) AS total_value,\n            ",
        "COALESCE(SUM(",
        net_kg.as_str(),
        "), 0.0) AS total_net_kg",
        ",\n            ",
        "COALESCE(SUM(",
        gross_kg.as_str(),
        "), 0.0) AS total_gross_kg",
        ",\n            COALESCE(SUM(quantity_num), 0.0) AS total_quantity",
        ",\n            ",
        "COALESCE(SUM(CASE WHEN value_num IS NOT NULL AND (",
        net_kg.as_str(),
        ") > 0\n                ",
        "THEN value_num ELSE 0.0 END), 0.0) AS paired_value,\n            ",
        "COALESCE(SUM(CASE WHEN value_num IS NOT NULL AND (",
        net_kg.as_str(),
        ") > 0\n                THEN (",
        net_kg.as_str(),
        ") ELSE 0.0 END), 0.0) AS paired_weight,\n            ",
        "COUNT(value_num) AS valued_rows,\n            ",
        "COUNT(net_kg_num) AS net_rows,\n            ",
        "COUNT(gross_kg_num) AS gross_rows,\n            ",
        "COALESCE(SUM(net_kg_num), 0.0) AS net_source_total,\n            ",
        "COALESCE(SUM(gross_kg_num), 0.0) AS gross_source_total,\n            ",
        "COUNT(CASE WHEN value_num IS NOT NULL AND net_kg_num > 0\n                ",
        "THEN 1 END) AS paired_row_count,\n            ",
        "COALESCE(SUM(CASE WHEN value_num IS NOT NULL AND net_kg_num > 0\n                ",
        "THEN value_num END), 0.0) AS paired_source_value,\n            ",
        "COALESCE(SUM(CASE WHEN value_num IS NOT NULL AND net_kg_num > 0\n                ",
        "THEN net_kg_num END), 0.0) AS paired_source_net",
        "\n         ",
        "FROM records\n         ",
        clause.as_str(),
        " ",
        label,
        " IS NOT NULL AND ",
        label,
        " <> ''\n         GROUP BY ",
        label,
        "\n         ",
        "ORDER BY total_value DESC, total_net_kg DESC, rows_count DESC, label\n         ",
        "LIMIT ",
        count.as_str(),
    ];
    assert(str_views(parts@) =~= section_pieces(views(filter.conditions@), label@, limit as nat));
    glue(&parts)
}

/// Each group of a section has the totals that its columns are named for: net
/// kilograms are those of the net weights and gross kilograms those of the gross
/// weights. The groups are those of the selected rows that have the label, and the
/// greatest values come first.
pub proof fn each_group_has_its_totals(filter: Seq<Seq<char>>, label: Seq<char>, limit: nat)
    ensures
        holds(
            section_text(filter, label, limit),
            "COALESCE(SUM("@
                + kilograms("net_kg_num"@)
                + "), 0.0) AS total_net_kg"@,
        ),
        holds(
            section_text(filter, label, limit),
            "COALESCE(SUM("@
                + kilograms("gross_kg_num"@)
                + "), 0.0) AS total_gross_kg"@,
        ),
        holds(
            section_text(filter, label, limit),
            "SELECT\n            "@
                + label
                + " AS label,\n            "@
                + "COUNT(*) AS rows_count,\n            "@
                + "COUNT(DISTINCT NULLIF(declaration_number, '')) AS declarations_count,\n            "@
                + "COUNT(DISTINCT NULLIF(edrpou_label, '')) AS companies_count,\n            "@
                + "COALESCE(SUM(value_num), 0.0) AS total_value,\n            "@
                + "COALESCE(SUM("@
                + kilograms("net_kg_num"@)
                + "), 0.0) AS total_net_kg"@
                + ",\n            "@
                + "COALESCE(SUM("@
                + kilograms("gross_kg_num"@)
                + "), 0.0) AS total_gross_kg"@
                + ",\n            COALESCE(SUM(quantity_num), 0.0) AS total_quantity"@,
        ),
        holds(
            section_text(filter, label, limit),
            "COALESCE(SUM(CASE WHEN value_num IS NOT NULL AND ("@
                + kilograms("net_kg_num"@)
                + ") > 0\n                "@
                + "THEN value_num ELSE 0.0 END), 0.0) AS paired_value,\n            "@
                + "COALESCE(SUM(CASE WHEN value_num IS NOT NULL AND ("@
                + kilograms("net_kg_num"@)
                + ") > 0\n                THEN ("@
                + kilograms("net_kg_num"@)
                + ") ELSE 0.0 END), 0.0) AS paired_weight,\n            "@
                + "COUNT(value_num) AS valued_rows,\n            "@
                + "COUNT(net_kg_num) AS net_rows,\n            "@
                + "COUNT(gross_kg_num) AS gross_rows,\n            "@
                + "COALESCE(SUM(net_kg_num), 0.0) AS net_source_total,\n            "@
                + "COALESCE(SUM(gross_kg_num), 0.0) AS gross_source_total,\n            "@
                + "COUNT(CASE WHEN value_num IS NOT NULL AND net_kg_num > 0\n                "@
                + "THEN 1 END) AS paired_row_count,\n            "@
                + "COALESCE(SUM(CASE WHEN value_num IS NOT NULL AND net_kg_num > 0\n                "@
                + "THEN value_num END), 0.0) AS paired_source_value,\n            "@
                + "COALESCE(SUM(CASE WHEN value_num IS NOT NULL AND net_kg_num > 0\n                "@
                + "THEN net_kg_num END), 0.0) AS paired_source_net"@,
        ),
        holds(
            section_text(filter, label, limit),
            "FROM records\n         "@
                + where_extra_clause(filter)
                + " "@
                + label
                + " IS NOT NULL AND "@
                + label
                + " <> ''\n         GROUP BY "@
                + label
                + "\n         "@
                + "ORDER BY total_value DESC, total_net_kg DESC, rows_count DESC, label\n         "@
                + "LIMIT "@
                + decimal(clamped(limit, 1, 20000)),
        ),
{
    reveal_with_fuel(run, 20);
    let pieces = section_pieces(filter, label, limit);
    run_stands(pieces, 7, 3);
    run_stands(pieces, 11, 3);
    run_stands(pieces, 0, 15);
    run_stands(pieces, 16, 20);
    run_stands(pieces, 37, 12);
}

/// The pieces of the statement below, in order.
pub open spec fn price_cohorts_pieces(filter: Seq<Seq<char>>) -> Seq<Seq<char>> {
    let net_kg = kilograms("net_kg_num"@);
    seq![
        "WITH priced AS (\n            "@,
        "SELECT\n                "@,
        "currency_key,\n                "@,
        "weight_unit_key,\n                "@,
        "value_num,\n                "@,
        "("@,
        net_kg,
        ") AS net_weight_kg"@,
        ",\n                "@,
        "value_num / ("@,
        net_kg,
        ") AS price"@,
        "\n            "@,
        "FROM records\n            "@,
        where_extra_clause(filter),
        " value_num IS NOT NULL\n              AND ("@,
        net_kg,
        ") > 0\n              AND "@,
        KNOWN_CURRENCY_SQL@,
        "\n         )"@,
        "\n         SELECT\n            currency_key,\n            "@,
        "COUNT(*) AS sample_count,\n            "@,
        "AVG(price),\n            "@,
        "MIN(price),\n            "@,
        "MAX(price),\n            "@,
        "SUM(value_num) / NULLIF(SUM(net_weight_kg), 0),\n            "@,
        "quantile_cont(price, 0.25),\n            "@,
        "quantile_cont(price, 0.5),\n            "@,
        "quantile_cont(price, 0.75),\n            "@,
        "SUM(value_num),\n            "@,
        "SUM(net_weight_kg)\n         "@,
        "FROM priced\n         "@,
        "GROUP BY currency_key"@,
        "\n         ORDER BY currency_key"@,
    ]
}

/// Value per net kilogram by currency.
pub open spec fn price_cohorts_text(filter: Seq<Seq<char>>) -> Seq<char> {
    glued(price_cohorts_pieces(filter))
}

/// The statement of the value per net kilogram by currency.
pub fn price_cohorts_sql(filter: &DuckFilter) -> (r: String)
    ensures
        r@ == price_cohorts_text(views(filter.conditions@)),
{
    let clause = filter.where_extra_sql();
    let net_kg = normalized_weight_sql("net_kg_num");
    let parts: [&str; 34] = [
        "WITH priced AS (\n            ",
        "SELECT\n                ",
        "currency_key,\n                ",
        "weight_unit_key,\n                ",
        "value_num,\n                ",
        "(",
        net_kg.as_str(),
        ") AS net_weight_kg",
        ",\n                ",
        "value_num / (",
        net_kg.as_str(),
        ") AS price",
        "\n            ",
        "FROM records\n            ",
        clause.as_str(),
        " value_num IS NOT NULL\n              AND (",
        net_kg.as_str(),
        ") > 0\n              AND ",
        KNOWN_CURRENCY_SQL,
        "\n         )",
        "\n         SELECT\n            currency_key,\n            ",
        "COUNT(*) AS sample_count,\n            ",
        "AVG(price),\n            ",
        "MIN(price),\n            ",
        "MAX(price),\n            ",
        "SUM(value_num) / NULLIF(SUM(net_weight_kg), 0),\n            ",
        "quantile_cont(price, 0.25),\n            ",
        "quantile_cont(price, 0.5),\n            ",
        "quantile_cont(price, 0.75),\n            ",
        "SUM(value_num),\n            ",
        "SUM(net_weight_kg)\n         ",
        "FROM priced\n         ",
        "GROUP BY currency_key",
        "\n         ORDER BY currency_key",
    ];
    assert(str_views(parts@) =~= price_cohorts_pieces(views(filter.conditions@)));
    glue(&parts)
}

/// A price is the value of a row by its net kilograms, over the selected rows
/// that have a value, a net weight and a known currency; each currency has its
/// count, mean, least, greatest and weighted mean price, its quartiles and its
/// totals, in this order.
pub proof fn a_price_is_value_per_net_kilogram(filter: Seq<Seq<char>>)
    ensures
        holds(
            price_cohorts_text(filter),
            "("@
                + kilograms("net_kg_num"@)
                + ") AS net_weight_kg"@,
        ),
        holds(
            price_cohorts_text(filter),
            "value_num / ("@
                + kilograms("net_kg_num"@)
                + ") AS price"@,
        ),
        holds(
            price_cohorts_text(filter),
            "FROM records\n            "@
                + where_extra_clause(filter)
                + " value_num IS NOT NULL\n              AND ("@
                + kilograms("net_kg_num"@)
                + ") > 0\n              AND "@
                + "COALESCE(currency_key, '') <> ''\n         AND NOT starts_with(currency_key, '__unknown__')"@
                + "\n         )"@,
        ),
        holds(
            price_cohorts_text(filter),
            "COUNT(*) AS sample_count,\n            "@
                + "AVG(price),\n            "@
                + "MIN(price),\n            "@
                + "MAX(price),\n            "@
                + "SUM(value_num) / NULLIF(SUM(net_weight_kg), 0),\n            "@
                + "quantile_cont(price, 0.25),\n            "@
                + "quantile_cont(price, 0.5),\n            "@
                + "quantile_cont(price, 0.75),\n            "@
                + "SUM(value_num),\n            "@
                + "SUM(net_weight_kg)\n         "@
                + "FROM priced\n         "@
                + "GROUP BY currency_key"@,
        ),
{
    reveal_with_fuel(run, 12);
    let pieces = price_cohorts_pieces(filter);
    run_stands(pieces, 5, 3);
    run_stands(pieces, 9, 3);
    run_stands(pieces, 13, 7);
    run_stands(pieces, 21, 12);
}

/// The pieces of the statement below, in order.
pub open spec fn price_units_pieces(filter: Seq<Seq<char>>) -> Seq<Seq<char>> {
    let net_kg = kilograms("net_kg_num"@);
    seq![
        "SELECT DISTINCT currency_key, weight_unit_key"@,
        "\n         "@,
        "FROM records\n         "@,
        where_extra_clause(filter),
        " value_num IS NOT NULL\n           AND ("@,
        net_kg,
        ") > 0\n           AND "@,
        KNOWN_CURRENCY_SQL@,
        "\n"@,
        "         ORDER BY currency_key, weight_unit_key"@,
    ]
}

/// The weight units behind each currency.
pub open spec fn price_units_text(filter: Seq<Seq<char>>) -> Seq<char> {
    glued(price_units_pieces(filter))
}

/// The statement of the weight units behind each currency.
pub fn price_units_sql(filter: &DuckFilter) -> (r: String)
    ensures
        r@ == price_units_text(views(filter.conditions@)),
{
    let clause = filter.where_extra_sql();
    let net_kg = normalized_weight_sql("net_kg_num");
    let parts: [&str; 10] = [
        "SELECT DISTINCT currency_key, weight_unit_key",
        "\n         ",
        "FROM records\n         ",
        clause.as_str(),
        " value_num IS NOT NULL\n           AND (",
        net_kg.as_str(),
        ") > 0\n           AND ",
        KNOWN_CURRENCY_SQL,
        "\n",
        "         ORDER BY currency_key, weight_unit_key",
    ];
    assert(str_views(parts@) =~= price_units_pieces(views(filter.conditions@)));
    glue(&parts)
}

/// The units behind the prices are those of the rows that the prices come from.
pub proof fn units_are_those_of_the_prices(filter: Seq<Seq<char>>)
    ensures
        holds(
            price_units_text(filter),
            "SELECT DISTINCT currency_key, weight_unit_key"@,
        ),
        holds(
            price_units_text(filter),
            "FROM records\n         "@
                + where_extra_clause(filter)
                + " value_num IS NOT NULL\n           AND ("@
                + kilograms("net_kg_num"@)
                + ") > 0\n           AND "@
                + "COALESCE(currency_key, '') <> ''\n         AND NOT starts_with(currency_key, '__unknown__')"@
                + "\n"@,
        ),
{
    reveal_with_fuel(run, 7);
    let pieces = price_units_pieces(filter);
    run_stands(pieces, 0, 1);
    run_stands(pieces, 2, 7);
}

/// The pieces of the statement below, in order.
pub open spec fn price_excluded_pieces(filter: Seq<Seq<char>>) -> Seq<Seq<char>> {
    let net_kg = kilograms("net_kg_num"@);
    seq![
        "SELECT COUNT(*) FROM records\n         "@,
        where_extra_clause(filter),
        " value_num IS NOT NULL AND (\n            NOT ("@,
        KNOWN_CURRENCY_SQL@,
        ") OR net_kg_num IS NULL OR ("@,
        net_kg,
        ") IS NULL OR ("@,
        net_kg,
        ") <= 0\n         )"@,
    ]
}

/// The valued rows without a price.
pub open spec fn price_excluded_text(filter: Seq<Seq<char>>) -> Seq<char> {
    glued(price_excluded_pieces(filter))
}

/// The statement of the valued rows without a price.
pub fn price_excluded_sql(filter: &DuckFilter) -> (r: String)
    ensures
        r@ == price_excluded_text(views(filter.conditions@)),
{
    let clause = filter.where_extra_sql();
    let net_kg = normalized_weight_sql("net_kg_num");
    let parts: [&str; 9] = [
        "SELECT COUNT(*) FROM records\n         ",
        clause.as_str(),
        " value_num IS NOT NULL AND (\n            NOT (",
        KNOWN_CURRENCY_SQL,
        ") OR net_kg_num IS NULL OR (",
        net_kg.as_str(),
        ") IS NULL OR (",
        net_kg.as_str(),
        ") <= 0\n         )",
    ];
    assert(str_views(parts@) =~= price_excluded_pieces(views(filter.conditions@)));
    glue(&parts)
}

/// A selected row with a value that has no price is counted: its currency is not
/// known, or it has no net kilograms.
pub proof fn a_valued_row_without_a_price_is_counted(filter: Seq<Seq<char>>)
    ensures
        holds(
            price_excluded_text(filter),
            "SELECT COUNT(*) FROM records\n         "@
                + where_extra_clause(filter)
                + " value_num IS NOT NULL AND (\n            NOT ("@
                + "COALESCE(currency_key, '') <> ''\n         AND NOT starts_with(currency_key, '__unknown__')"@
                + ") OR net_kg_num IS NULL OR ("@
                + kilograms("net_kg_num"@)
                + ") IS NULL OR ("@
                + kilograms("net_kg_num"@)
                + ") <= 0\n         )"@,
        ),
{
    reveal_with_fuel(run, 9);
    let pieces = price_excluded_pieces(filter);
    run_stands(pieces, 0, 9);
}

/// The pieces of the statement below, in order.
pub open spec fn price_metric_pieces(filter: Seq<Seq<char>>, price: Seq<char>, weight: Seq<char>) -> Seq<Seq<char>> {
    seq![
        "WITH priced AS (\n            "@,
        "SELECT "@,
        price,
        " AS price, "@,
        weight,
        " AS weight\n            FROM records "@,
        where_clause(filter),
        "\n"@,
        "         ),\n         agg AS (\n            SELECT\n                "@,
        "COUNT(price) AS price_count"@,
        ",\n                "@,
        "AVG(price) AS price_avg"@,
        ",\n                "@,
        "MIN(price) AS price_min"@,
        ",\n                "@,
        "MAX(price) AS price_max"@,
        ",\n                "@,
        "SUM(CASE WHEN price IS NOT NULL AND weight IS NOT NULL AND weight > 0\n                    "@,
        "THEN price * weight ELSE 0 END) AS weighted_sum"@,
        ",\n                "@,
        "SUM(CASE WHEN price IS NOT NULL AND weight IS NOT NULL AND weight > 0\n                    "@,
        "THEN weight ELSE 0 END) AS weighted_kg"@,
        ",\n                "@,
        "quantile_cont(price, 0.25) AS p25"@,
        ",\n                "@,
        "quantile_cont(price, 0.5) AS p50"@,
        ",\n                "@,
        "quantile_cont(price, 0.75) AS p75"@,
        "\n            FROM priced\n         )\n         "@,
        "SELECT\n            "@,
        "price_count,\n            "@,
        "price_avg,\n            "@,
        "price_min,\n            "@,
        "price_max,\n            "@,
        "weighted_sum,\n            "@,
        "weighted_kg,\n            "@,
        "p25,\n            "@,
        "p50,\n            "@,
        "p75\n         "@,
        "FROM agg"@,
    ]
}

/// One source price metric, weighted by an expression.
pub open spec fn price_metric_text(filter: Seq<Seq<char>>, price: Seq<char>, weight: Seq<char>) -> Seq<char> {
    glued(price_metric_pieces(filter, price, weight))
}

/// The statement of one source price metric.
pub fn price_metric_sql(filter: &DuckFilter, price: &str, weight: &str) -> (r: String)
    ensures
        r@ == price_metric_text(views(filter.conditions@), price@, weight@),
{
    let clause = filter.where_sql();
    let parts: [&str; 40] = [
        "WITH priced AS (\n            ",
        "SELECT ",
        price,
        " AS price, ",
        weight,
        " AS weight\n            FROM records ",
        clause.as_str(),
        "\n",
        "         ),\n         agg AS (\n            SELECT\n                ",
        "COUNT(price) AS price_count",
        ",\n                ",
        "AVG(price) AS price_avg",
        ",\n                ",
        "MIN(price) AS price_min",
        ",\n                ",
        "MAX(price) AS price_max",
        ",\n                ",
        "SUM(CASE WHEN price IS NOT NULL AND weight IS NOT NULL AND weight > 0\n                    ",
        "THEN price * weight ELSE 0 END) AS weighted_sum",
        ",\n                ",
        "SUM(CASE WHEN price IS NOT NULL AND weight IS NOT NULL AND weight > 0\n                    ",
        "THEN weight ELSE 0 END) AS weighted_kg",
        ",\n                ",
        "quantile_cont(price, 0.25) AS p25",
        ",\n                ",
        "quantile_cont(price, 0.5) AS p50",
        ",\n                ",
        "quantile_cont(price, 0.75) AS p75",
        "\n            FROM priced\n         )\n         ",
        "SELECT\n            ",
        "price_count,\n            ",
        "price_avg,\n            ",
        "price_min,\n            ",
        "price_max,\n            ",
        "weighted_sum,\n            ",
        "weighted_kg,\n            ",
        "p25,\n            ",
        "p50,\n            ",
        "p75\n         ",
        "FROM agg",
    ];
    assert(str_views(parts@) =~= price_metric_pieces(views(filter.conditions@), price@, weight@));
    glue(&parts)
}

/// A metric counts, averages and bounds its price, weighs it by its weight where
/// both are there, and gives its quartiles, over the selected rows.
pub proof fn a_metric_measures_its_price(filter: Seq<Seq<char>>, price: Seq<char>, weight: Seq<char>)
    ensures
        holds(
            price_metric_text(filter, price, weight),
            "SELECT "@
                + price
                + " AS price, "@
                + weight
                + " AS weight\n            FROM records "@
                + where_clause(filter)
                + "\n"@,
        ),
        holds(
            price_metric_text(filter, price, weight),
            "COUNT(price) AS price_count"@,
        ),
        holds(
            price_metric_text(filter, price, weight),
            "AVG(price) AS price_avg"@,
        ),
        holds(
            price_metric_text(filter, price, weight),
            "MIN(price) AS price_min"@,
        ),
        holds(
            price_metric_text(filter, price, weight),
            "MAX(price) AS price_max"@,
        ),
        holds(
            price_metric_text(filter, price, weight),
            "SUM(CASE WHEN price IS NOT NULL AND weight IS NOT NULL AND weight > 0\n                    "@
                + "THEN price * weight ELSE 0 END) AS weighted_sum"@,
        ),
        holds(
            price_metric_text(filter, price, weight),
            "SUM(CASE WHEN price IS NOT NULL AND weight IS NOT NULL AND weight > 0\n                    "@
                + "THEN weight ELSE 0 END) AS weighted_kg"@,
        ),
        holds(
            price_metric_text(filter, price, weight),
            "quantile_cont(price, 0.25) AS p25"@,
        ),
        holds(
            price_metric_text(filter, price, weight),
            "quantile_cont(price, 0.5) AS p50"@,
        ),
        holds(
            price_metric_text(filter, price, weight),
            "quantile_cont(price, 0.75) AS p75"@,
        ),
        holds(
            price_metric_text(filter, price, weight),
            "SELECT\n            "@
                + "price_count,\n            "@
                + "price_avg,\n            "@
                + "price_min,\n            "@
                + "price_max,\n            "@
                + "weighted_sum,\n            "@
                + "weighted_kg,\n            "@
                + "p25,\n            "@
                + "p50,\n            "@
                + "p75\n         "@
                + "FROM agg"@,
        ),
{
    reveal_with_fuel(run, 11);
    let pieces = price_metric_pieces(filter, price, weight);
    run_stands(pieces, 1, 7);
    run_stands(pieces, 9, 1);
    run_stands(pieces, 11, 1);
    run_stands(pieces, 13, 1);
    run_stands(pieces, 15, 1);
    run_stands(pieces, 17, 2);
    run_stands(pieces, 20, 2);
    run_stands(pieces, 23, 1);
    run_stands(pieces, 25, 1);
    run_stands(pieces, 27, 1);
    run_stands(pieces, 29, 11);
}

/// The pieces of the statement below, in order.
pub open spec fn group_count_pieces(filter: Seq<Seq<char>>, field: Seq<char>, limit: nat) -> Seq<Seq<char>> {
    seq![
        "SELECT COUNT(*) FROM ("@,
        "\n                SELECT "@,
        field,
        ", COUNT(*) rows_count, SUM(value_num) total_value, SUM(net_kg_num) net\n                "@,
        "FROM records\n                "@,
        where_extra_clause(filter),
        " "@,
        field,
        " IS NOT NULL AND "@,
        field,
        " <> ''\n                GROUP BY "@,
        field,
        "\n"@,
        "                ORDER BY total_value DESC NULLS LAST, net DESC NULLS LAST, rows_count DESC\n                "@,
        "LIMIT "@,
        decimal(clamped(limit, 1, 200)),
        "\n"@,
        "            )"@,
    ]
}

/// How many groups a field has, at most `limit` of them counted.
pub open spec fn group_count_text(filter: Seq<Seq<char>>, field: Seq<char>, limit: nat) -> Seq<char> {
    glued(group_count_pieces(filter, field, limit))
}

/// The statement that counts the groups of a field.
pub fn group_count_sql(filter: &DuckFilter, field: &str, limit: u64) -> (r: String)
    ensures
        r@ == group_count_text(views(filter.conditions@), field@, limit as nat),
{
    let clause = filter.where_extra_sql();
    let count = decimal_text(clamp(limit, 1, 200));
    let parts: [&str; 18] = [
        "SELECT COUNT(*) FROM (",
        "\n                SELECT ",
        field,
        ", COUNT(*) rows_count, SUM(value_num) total_value, SUM(net_kg_num) net\n                ",
        "FROM records\n                ",
        clause.as_str(),
        " ",
        field,
        " IS NOT NULL AND ",
        field,
        " <> ''\n                GROUP BY ",
        field,
        "\n",
        "                ORDER BY total_value DESC NULLS LAST, net DESC NULLS LAST, rows_count DESC\n                ",
        "LIMIT ",
        count.as_str(),
        "\n",
        "            )",
    ];
    assert(str_views(parts@) =~= group_count_pieces(views(filter.conditions@), field@, limit as nat));
    glue(&parts)
}

/// The groups counted are those of the field's values in the selected rows.
pub proof fn groups_are_those_of_the_field(filter: Seq<Seq<char>>, field: Seq<char>, limit: nat)
    ensures
        holds(
            group_count_text(filter, field, limit),
            "SELECT COUNT(*) FROM ("@,
        ),
        holds(
            group_count_text(filter, field, limit),
            "FROM records\n                "@
                + where_extra_clause(filter)
                + " "@
                + field
                + " IS NOT NULL AND "@
                + field
                + " <> ''\n                GROUP BY "@
                + field
                + "\n"@,
        ),
        holds(
            group_count_text(filter, field, limit),
            "LIMIT "@
                + decimal(clamped(limit, 1, 200))
                + "\n"@,
        ),
{
    reveal_with_fuel(run, 9);
    let pieces = group_count_pieces(filter, field, limit);
    run_stands(pieces, 0, 1);
    run_stands(pieces, 4, 9);
    run_stands(pieces, 14, 3);
}

/// The pieces of the statement below, in order.
pub open spec fn section_rollup_pieces(kind: Seq<char>, hs_level: nat, label: Seq<char>) -> Seq<Seq<char>> {
    seq![
        "INSERT INTO rollup_sections\n"@,
        "         WITH labeled AS (\n            "@,
        "SELECT\n                "@,
        "record_scope,\n                "@,
        "year_key,\n                "@,
        label,
        " AS label"@,
        ",\n                "@,
        "declaration_number,\n                "@,
        "edrpou_label,\n                "@,
        "value_num,\n                "@,
        "net_weight_kg,\n                "@,
        "gross_weight_kg,\n                "@,
        "net_kg_num,\n                "@,
        "gross_kg_num,\n                "@,
        "quantity_num,\n                "@,
        "currency_key\n            "@,
        "FROM rollup_expanded\n"@,
        "         )\n         "@,
        "SELECT\n            record_scope,\n            year_key,\n            "@,
        literal(kind),
        ",\n            "@,
        decimal(hs_level),
        ",\n            "@,
        "label,\n            "@,
        "COUNT(*)::BIGINT,\n            "@,
        "COUNT(DISTINCT NULLIF(declaration_number, ''))::BIGINT,\n            "@,
        "COUNT(DISTINCT NULLIF(edrpou_label, ''))::BIGINT,\n            "@,
        "CASE\n                "@,
        "WHEN COUNT(value_num) = 0 THEN 0.0\n"@,
        "                WHEN COUNT(*) FILTER (\n                    "@,
        "WHERE value_num IS NOT NULL AND (\n                        "@,
        "COALESCE(currency_key, '') = ''\n                        "@,
        "OR starts_with(currency_key, '__unknown__')\n                    "@,
        ")\n                "@,
        ") > 0 THEN NULL\n                "@,
        "WHEN COUNT(DISTINCT currency_key) FILTER (\n                    "@,
        "WHERE value_num IS NOT NULL\n                      "@,
        "AND NOT starts_with(currency_key, '__unknown__')\n                "@,
        ") = 1 AND MIN(currency_key) FILTER (\n                    "@,
        "WHERE value_num IS NOT NULL\n                      "@,
        "AND NOT starts_with(currency_key, '__unknown__')\n                "@,
        ") "@,
        "= 'USD' THEN SUM(value_num)\n                "@,
        "ELSE NULL\n            "@,
        "END,\n            "@,
        "COALESCE(SUM(net_weight_kg), 0.0),\n            "@,
        "COALESCE(SUM(gross_weight_kg), 0.0),\n            "@,
        "COALESCE(SUM(quantity_num), 0.0),\n            "@,
        "COALESCE(SUM(CASE WHEN value_num IS NOT NULL AND net_weight_kg > 0\n                "@,
        "THEN value_num ELSE 0.0 END), 0.0),\n            "@,
        "COALESCE(SUM(CASE WHEN value_num IS NOT NULL AND net_weight_kg > 0\n                "@,
        "THEN net_weight_kg ELSE 0.0 END), 0.0),\n            "@,
        "COALESCE(SUM(value_num), 0.0),\n            "@,
        "COUNT(value_num),\n            "@,
        "COUNT(net_kg_num),\n            "@,
        "COUNT(gross_kg_num),\n            "@,
        "COALESCE(SUM(net_kg_num), 0.0),\n            "@,
        "COALESCE(SUM(gross_kg_num), 0.0),\n            "@,
        "COUNT(CASE WHEN value_num IS NOT NULL AND net_kg_num > 0 THEN 1 END),\n            "@,
        "COALESCE(SUM(CASE WHEN value_num IS NOT NULL AND net_kg_num > 0\n                "@,
        "THEN value_num END), 0.0),\n            "@,
        "COALESCE(SUM(CASE WHEN value_num IS NOT NULL AND net_kg_num > 0\n                "@,
        "THEN net_kg_num END), 0.0)\n         "@,
        "FROM labeled\n         "@,
        "WHERE label IS NOT NULL AND label <> ''\n         "@,
        "GROUP BY record_scope, year_key, label"@,
    ]
}

/// Fills the rollup of one section by a label expression.
pub open spec fn section_rollup_text(kind: Seq<char>, hs_level: nat, label: Seq<char>) -> Seq<char> {
    glued(section_rollup_pieces(kind, hs_level, label))
}

/// The statement that fills the rollup of one section.
pub fn section_rollup_sql(kind: &str, hs_level: u8, label: &str) -> (r: String)
    ensures
        r@ == section_rollup_text(kind@, hs_level as nat, label@),
{
    let quoted = sql_string(kind);
    let level = decimal_text(hs_level as u64);
    let parts: [&str; 67] = [
        "INSERT INTO rollup_sections\n",
        "         WITH labeled AS (\n            ",
        "SELECT\n                ",
        "record_scope,\n                ",
        "year_key,\n                ",
        label,
        " AS label",
        ",\n                ",
        "declaration_number,\n                ",
        "edrpou_label,\n                ",
        "value_num,\n                ",
        "net_weight_kg,\n                ",
        "gross_weight_kg,\n                ",
        "net_kg_num,\n                ",
        "gross_kg_num,\n                ",
        "quantity_num,\n                ",
        "currency_key\n            ",
        "FROM rollup_expanded\n",
        "         )\n         ",
        "SELECT\n            record_scope,\n            year_key,\n            ",
        quoted.as_str(),
        ",\n            ",
        level.as_str(),
        ",\n            ",
        "label,\n            ",
        "COUNT(*)::BIGINT,\n            ",
        "COUNT(DISTINCT NULLIF(declaration_number, ''))::BIGINT,\n            ",
        "COUNT(DISTINCT NULLIF(edrpou_label, ''))::BIGINT,\n            ",
        "CASE\n                ",
        "WHEN COUNT(value_num) = 0 THEN 0.0\n",
        "                WHEN COUNT(*) FILTER (\n                    ",
        "WHERE value_num IS NOT NULL AND (\n                        ",
        "COALESCE(currency_key, '') = ''\n                        ",
        "OR starts_with(currency_key, '__unknown__')\n                    ",
        ")\n                ",
        ") > 0 THEN NULL\n                ",
        "WHEN COUNT(DISTINCT currency_key) FILTER (\n                    ",
        "WHERE value_num IS NOT NULL\n                      ",
        "AND NOT starts_with(currency_key, '__unknown__')\n                ",
        ") = 1 AND MIN(currency_key) FILTER (\n                    ",
        "WHERE value_num IS NOT NULL\n                      ",
        "AND NOT starts_with(currency_key, '__unknown__')\n                ",
        ") ",
        "= 'USD' THEN SUM(value_num)\n                ",
        "ELSE NULL\n            ",
        "END,\n            ",
        "COALESCE(SUM(net_weight_kg), 0.0),\n            ",
        "COALESCE(SUM(gross_weight_kg), 0.0),\n            ",
        "COALESCE(SUM(quantity_num), 0.0),\n            ",
        "COALESCE(SUM(CASE WHEN value_num IS NOT NULL AND net_weight_kg > 0\n                ",
        "THEN value_num ELSE 0.0 END), 0.0),\n            ",
        "COALESCE(SUM(CASE WHEN value_num IS NOT NULL AND net_weight_kg > 0\n                ",
        "THEN net_weight_kg ELSE 0.0 END), 0.0),\n            ",
        "COALESCE(SUM(value_num), 0.0),\n            ",
        "COUNT(value_num),\n            ",
        "COUNT(net_kg_num),\n            ",
        "COUNT(gross_kg_num),\n            ",
        "COALESCE(SUM(net_kg_num), 0.0),\n            ",
        "COALESCE(SUM(gross_kg_num), 0.0),\n            ",
        "COUNT(CASE WHEN value_num IS NOT NULL AND net_kg_num > 0 THEN 1 END),\n            ",
        "COALESCE(SUM(CASE WHEN value_num IS NOT NULL AND net_kg_num > 0\n                ",
        "THEN value_num END), 0.0),\n            ",
        "COALESCE(SUM(CASE WHEN value_num IS NOT NULL AND net_kg_num > 0\n                ",
        "THEN net_kg_num END), 0.0)\n         ",
        "FROM labeled\n         ",
        "WHERE label IS NOT NULL AND label <> ''\n         ",
        "GROUP BY record_scope, year_key, label",
    ];
    assert(str_views(parts@) =~= section_rollup_pieces(kind@, hs_level as nat, label@));
    glue(&parts)
}

/// A rollup of a section is filled in the order of its table's columns: scope,
/// year, kind, level, label, the counts, the value, the net before the gross
/// weight, and the totals of the pairs.
pub proof fn a_rollup_keeps_what_its_table_names(kind: Seq<char>, hs_level: nat, label: Seq<char>)
    ensures
        holds(
            section_rollup_text(kind, hs_level, label),
            "INSERT INTO rollup_sections\n"@,
        ),
        holds(
            section_rollup_text(kind, hs_level, label),
            label
                + " AS label"@,
        ),
        holds(
            section_rollup_text(kind, hs_level, label),
            "FROM rollup_expanded\n"@,
        ),
        holds(
            section_rollup_text(kind, hs_level, label),
            "SELECT\n            record_scope,\n            year_key,\n            "@
                + literal(kind)
                + ",\n            "@
                + decimal(hs_level)
                + ",\n            "@
                + "label,\n            "@
                + "COUNT(*)::BIGINT,\n            "@
                + "COUNT(DISTINCT NULLIF(declaration_number, ''))::BIGINT,\n            "@
                + "COUNT(DISTINCT NULLIF(edrpou_label, ''))::BIGINT,\n            "@
                + "CASE\n                "@
                + "WHEN COUNT(value_num) = 0 THEN 0.0\n"@,
        ),
        holds(
            section_rollup_text(kind, hs_level, label),
            "= 'USD' THEN SUM(value_num)\n                "@
                + "ELSE NULL\n            "@
                + "END,\n            "@
                + "COALESCE(SUM(net_weight_kg), 0.0),\n            "@
                + "COALESCE(SUM(gross_weight_kg), 0.0),\n            "@
                + "COALESCE(SUM(quantity_num), 0.0),\n            "@
                + "COALESCE(SUM(CASE WHEN value_num IS NOT NULL AND net_weight_kg > 0\n                "@
                + "THEN value_num ELSE 0.0 END), 0.0),\n            "@
                + "COALESCE(SUM(CASE WHEN value_num IS NOT NULL AND net_weight_kg > 0\n                "@
                + "THEN net_weight_kg ELSE 0.0 END), 0.0),\n            "@
                + "COALESCE(SUM(value_num), 0.0),\n            "@
                + "COUNT(value_num),\n            "@
                + "COUNT(net_kg_num),\n            "@
                + "COUNT(gross_kg_num),\n            "@
                + "COALESCE(SUM(net_kg_num), 0.0),\n            "@
                + "COALESCE(SUM(gross_kg_num), 0.0),\n            "@
                + "COUNT(CASE WHEN value_num IS NOT NULL AND net_kg_num > 0 THEN 1 END),\n            "@
                + "COALESCE(SUM(CASE WHEN value_num IS NOT NULL AND net_kg_num > 0\n                "@
                + "THEN value_num END), 0.0),\n            "@
                + "COALESCE(SUM(CASE WHEN value_num IS NOT NULL AND net_kg_num > 0\n                "@
                + "THEN net_kg_num END), 0.0)\n         "@
                + "FROM labeled\n         "@
                + "WHERE label IS NOT NULL AND label <> ''\n         "@
                + "GROUP BY record_scope, year_key, label"@,
        ),
{
    reveal_with_fuel(run, 24);
    let pieces = section_rollup_pieces(kind, hs_level, label);
    run_stands(pieces, 0, 1);
    run_stands(pieces, 5, 2);
    run_stands(pieces, 17, 1);
    run_stands(pieces, 19, 11);
    run_stands(pieces, 43, 24);
}

/// The pieces of the statement below, in order.
pub open spec fn first_page_pieces(filter: Seq<Seq<char>>, limit: nat) -> Seq<Seq<char>> {
    seq![
        "SELECT COUNT(*) "@,
        "FROM (SELECT id FROM records "@,
        where_clause(filter),
        " ORDER BY id LIMIT "@,
        decimal(clamped(limit, 1, 500)),
        ")"@,
    ]
}

/// The first rows of a result, at most `limit` of them.
pub open spec fn first_page_text(filter: Seq<Seq<char>>, limit: nat) -> Seq<char> {
    glued(first_page_pieces(filter, limit))
}

/// The statement of the first rows of a result.
pub fn first_page_sql(filter: &DuckFilter, limit: u64) -> (r: String)
    ensures
        r@ == first_page_text(views(filter.conditions@), limit as nat),
{
    let clause = filter.where_sql();
    let count = decimal_text(clamp(limit, 1, 500));
    let parts: [&str; 6] = [
        "SELECT COUNT(*) ",
        "FROM (SELECT id FROM records ",
        clause.as_str(),
        " ORDER BY id LIMIT ",
        count.as_str(),
        ")",
    ];
    assert(str_views(parts@) =~= first_page_pieces(views(filter.conditions@), limit as nat));
    glue(&parts)
}

/// The first page is made of the selected rows with the least ids.
pub proof fn a_first_page_is_by_id(filter: Seq<Seq<char>>, limit: nat)
    ensures
        holds(
            first_page_text(filter, limit),
            "FROM (SELECT id FROM records "@
                + where_clause(filter)
                + " ORDER BY id LIMIT "@
                + decimal(clamped(limit, 1, 500))
                + ")"@,
        ),
{
    reveal_with_fuel(run, 5);
    let pieces = first_page_pieces(filter, limit);
    run_stands(pieces, 1, 5);
}

/// The pieces of the statement below, in order.
pub open spec fn bench_overview_pieces(filter: Seq<Seq<char>>) -> Seq<Seq<char>> {
    seq![
        "SELECT COUNT(*) FROM (\n                    "@,
        "SELECT\n                        "@,
        "COUNT(*),\n                        "@,
        "COUNT(DISTINCT declaration_number),\n                        "@,
        "COUNT(DISTINCT recipient_label),\n                        "@,
        "COUNT(DISTINCT sender_label),\n                        "@,
        "COUNT(DISTINCT edrpou_label),\n                        "@,
        "SUM(value_num),\n                        "@,
        "SUM(net_kg_num),\n                        "@,
        "SUM(gross_kg_num),\n                        "@,
        "SUM(quantity_num)\n                    "@,
        "FROM records "@,
        where_clause(filter),
        "\n"@,
        "                )"@,
    ]
}

/// Headline totals and distinct counts.
pub open spec fn bench_overview_text(filter: Seq<Seq<char>>) -> Seq<char> {
    glued(bench_overview_pieces(filter))
}

/// The statement of headline totals and distinct counts.
pub fn bench_overview_sql(filter: &DuckFilter) -> (r: String)
    ensures
        r@ == bench_overview_text(views(filter.conditions@)),
{
    let clause = filter.where_sql();
    let parts: [&str; 15] = [
        "SELECT COUNT(*) FROM (\n                    ",
        "SELECT\n                        ",
        "COUNT(*),\n                        ",
        "COUNT(DISTINCT declaration_number),\n                        ",
        "COUNT(DISTINCT recipient_label),\n                        ",
        "COUNT(DISTINCT sender_label),\n                        ",
        "COUNT(DISTINCT edrpou_label),\n                        ",
        "SUM(value_num),\n                        ",
        "SUM(net_kg_num),\n                        ",
        "SUM(gross_kg_num),\n                        ",
        "SUM(quantity_num)\n                    ",
        "FROM records ",
        clause.as_str(),
        "\n",
        "                )",
    ];
    assert(str_views(parts@) =~= bench_overview_pieces(views(filter.conditions@)));
    glue(&parts)
}

/// The measured headline counts the selected rows and different parties, and adds
/// up values, weights and quantities.
pub proof fn the_measured_headline_is_of_the_selected_rows(filter: Seq<Seq<char>>)
    ensures
        holds(
            bench_overview_text(filter),
            "COUNT(*),\n                        "@
                + "COUNT(DISTINCT declaration_number),\n                        "@
                + "COUNT(DISTINCT recipient_label),\n                        "@
                + "COUNT(DISTINCT sender_label),\n                        "@
                + "COUNT(DISTINCT edrpou_label),\n                        "@
                + "SUM(value_num),\n                        "@
                + "SUM(net_kg_num),\n                        "@
                + "SUM(gross_kg_num),\n                        "@
                + "SUM(quantity_num)\n                    "@
                + "FROM records "@
                + where_clause(filter)
                + "\n"@,
        ),
{
    reveal_with_fuel(run, 12);
    let pieces = bench_overview_pieces(filter);
    run_stands(pieces, 2, 12);
}

/// The pieces of the statement below, in order.
pub open spec fn bench_price_pieces(filter: Seq<Seq<char>>) -> Seq<Seq<char>> {
    seq![
        "SELECT COUNT(*) FROM (\n                    "@,
        "SELECT AVG(value_num / NULLIF(net_kg_num, 0))\n                    "@,
        "FROM records\n                    "@,
        where_extra_clause(filter),
        " value_num IS NOT NULL AND net_kg_num IS NOT NULL AND net_kg_num > 0\n"@,
        "                )"@,
    ]
}

/// The average price per weight.
pub open spec fn bench_price_text(filter: Seq<Seq<char>>) -> Seq<char> {
    glued(bench_price_pieces(filter))
}

/// The statement of the average price per weight.
pub fn bench_price_sql(filter: &DuckFilter) -> (r: String)
    ensures
        r@ == bench_price_text(views(filter.conditions@)),
{
    let clause = filter.where_extra_sql();
    let parts: [&str; 6] = [
        "SELECT COUNT(*) FROM (\n                    ",
        "SELECT AVG(value_num / NULLIF(net_kg_num, 0))\n                    ",
        "FROM records\n                    ",
        clause.as_str(),
        " value_num IS NOT NULL AND net_kg_num IS NOT NULL AND net_kg_num > 0\n",
        "                )",
    ];
    assert(str_views(parts@) =~= bench_price_pieces(views(filter.conditions@)));
    glue(&parts)
}

/// The measured price is the mean of value by net weight over the selected rows
/// that have both.
pub proof fn the_measured_price_is_value_by_weight(filter: Seq<Seq<char>>)
    ensures
        holds(
            bench_price_text(filter),
            "SELECT AVG(value_num / NULLIF(net_kg_num, 0))\n                    "@
                + "FROM records\n                    "@
                + where_extra_clause(filter)
                + " value_num IS NOT NULL AND net_kg_num IS NOT NULL AND net_kg_num > 0\n"@,
        ),
{
    reveal_with_fuel(run, 4);
    let pieces = bench_price_pieces(filter);
    run_stands(pieces, 1, 4);
}

/// The pieces of the statement below, in order.
pub open spec fn bench_pivot_pieces(filter: Seq<Seq<char>>, limit: nat) -> Seq<Seq<char>> {
    seq![
        "SELECT COUNT(*) FROM (\n                    "@,
        "SELECT recipient_label, month, SUM(value_num)\n                    "@,
        "FROM records\n                    "@,
        where_extra_clause(filter),
        " recipient_label IS NOT NULL AND recipient_label <> ''\n                      "@,
        "AND month IS NOT NULL AND month <> ''\n                    "@,
        "GROUP BY recipient_label, month\n                    "@,
        "LIMIT "@,
        decimal(clamped(limit, 1, 10000)),
        "\n"@,
        "                )"@,
    ]
}

/// Recipients by month, at most `limit` pairs of them.
pub open spec fn bench_pivot_text(filter: Seq<Seq<char>>, limit: nat) -> Seq<char> {
    glued(bench_pivot_pieces(filter, limit))
}

/// The statement of recipients by month.
pub fn bench_pivot_sql(filter: &DuckFilter, limit: u64) -> (r: String)
    ensures
        r@ == bench_pivot_text(views(filter.conditions@), limit as nat),
{
    let clause = filter.where_extra_sql();
    let count = decimal_text(clamp(limit, 1, 10000));
    let parts: [&str; 11] = [
        "SELECT COUNT(*) FROM (\n                    ",
        "SELECT recipient_label, month, SUM(value_num)\n                    ",
        "FROM records\n                    ",
        clause.as_str(),
        " recipient_label IS NOT NULL AND recipient_label <> ''\n                      ",
        "AND month IS NOT NULL AND month <> ''\n                    ",
        "GROUP BY recipient_label, month\n                    ",
        "LIMIT ",
        count.as_str(),
        "\n",
        "                )",
    ];
    assert(str_views(parts@) =~= bench_pivot_pieces(views(filter.conditions@), limit as nat));
    glue(&parts)
}

/// The measured pivot adds the values up by recipient and month over the selected
/// rows that have both.
pub proof fn the_measured_pivot_is_by_recipient_and_month(filter: Seq<Seq<char>>, limit: nat)
    ensures
        holds(
            bench_pivot_text(filter, limit),
            "SELECT recipient_label, month, SUM(value_num)\n                    "@
                + "FROM records\n                    "@
                + where_extra_clause(filter)
                + " recipient_label IS NOT NULL AND recipient_label <> ''\n                      "@
                + "AND month IS NOT NULL AND month <> ''\n                    "@
                + "GROUP BY recipient_label, month\n                    "@
                + "LIMIT "@
                + decimal(clamped(limit, 1, 10000))
                + "\n"@,
        ),
{
    reveal_with_fuel(run, 9);
    let pieces = bench_pivot_pieces(filter, limit);
    run_stands(pieces, 1, 9);
}

} // verus!
