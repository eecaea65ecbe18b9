//! The conditions that a query puts on projected rows.
use vstd::prelude::*;
use vstd::string::*;

use crate::number::{parse_signed, read_signed, signed_decimal, signed_text};
use crate::olap::sql::{literal, sql_string};
use crate::query::{blank, is_blank, no_rules, Filters, Query, RecordScope};
use crate::text::{join, joined, lower_text, push_text, text_to_lowercase, trim, trimmed, views};

verus! {

/// What the store's normalisers make of a query's filters: the year, and the keys
/// of the values that are compared as keys. A key counts where its filter is set.
#[derive(Clone, Debug)]
pub struct FilterKeys {
    pub year: Option<i64>,
    pub trademark: String,
    pub edrpou: String,
    pub trade_country: String,
    pub dispatch_country: String,
    pub origin_country: String,
}

/// Some conditions and one more, if it applies.
pub open spec fn with_condition(list: Seq<Seq<char>>, applies: bool, text: Seq<char>) -> Seq<
    Seq<char>,
> {
    if applies {
        list.push(text)
    } else {
        list
    }
}

/// A field begins with a text.
pub open spec fn prefix_condition(field: Seq<char>, value: Seq<char>) -> Seq<char> {
    "starts_with(coalesce("@ + field + ", ''), "@ + literal(value) + ")"@
}

/// A field holds a text, whatever the case of its letters.
pub open spec fn contains_condition(field: Seq<char>, value: Seq<char>) -> Seq<char> {
    "contains(lower(coalesce("@ + field + ", '')), "@ + literal(lower_text(value)) + ")"@
}

/// A field is a key.
pub open spec fn key_condition(field: Seq<char>, key: Seq<char>) -> Seq<char> {
    field + " = "@ + literal(key)
}

/// The columns that a search text is looked for in.
pub const SEARCHED: &'static str = "contains(lower(coalesce(description, '') || ' ' || coalesce(sender_label, '') ||\n                 ' ' || coalesce(recipient_label, '') || ' ' || coalesce(product_code, '') || ' '\n                 || coalesce(trademark_label, '')), ";

/// The conditions of a query, in their order.
pub open spec fn query_conditions(query: Query, keys: FilterKeys) -> Seq<Seq<char>> {
    let f = query.filters;
    let c0 = with_condition(
        Seq::empty(),
        query.record_scope == RecordScope::Canonical,
        "dup_first_file IS NULL"@,
    );
    let c1 = with_condition(
        c0,
        !blank(query.text@),
        SEARCHED@ + literal(lower_text(trimmed(query.text@))) + ")"@,
    );
    let c2 = with_condition(
        c1,
        keys.year is Some,
        "year = "@ + signed_decimal(keys.year->0 as int),
    );
    let c3 = with_condition(
        c2,
        !blank(f.product_code@),
        prefix_condition("product_code_text"@, trimmed(f.product_code@)),
    );
    let c4 = with_condition(
        c3,
        !blank(f.trademark@),
        key_condition("trademark_key"@, keys.trademark@),
    );
    let c5 = with_condition(
        c4,
        !blank(f.description@),
        contains_condition("description_text"@, trimmed(f.description@)),
    );
    let c6 = with_condition(
        c5,
        !blank(f.sender@),
        contains_condition("sender_text"@, trimmed(f.sender@)),
    );
    let c7 = with_condition(
        c6,
        !blank(f.recipient@),
        contains_condition("recipient_text"@, trimmed(f.recipient@)),
    );
    let c8 = with_condition(
        c7,
        !blank(f.edrpou@),
        key_condition("edrpou_key"@, keys.edrpou@),
    );
    let c9 = with_condition(
        c8,
        !blank(f.trade_country@),
        key_condition("trade_key"@, keys.trade_country@),
    );
    let c10 = with_condition(
        c9,
        !blank(f.dispatch_country@),
        key_condition("dispatch_key"@, keys.dispatch_country@),
    );
    with_condition(
        c10,
        !blank(f.origin_country@),
        key_condition("origin_key"@, keys.origin_country@),
    )
}

/// The conditions that a query puts on projected rows.
#[derive(Clone, Debug)]
pub struct DuckFilter {
    pub conditions: Vec<String>,
}

/// Adds the condition on the year, read as the store reads it: a value that
/// holds a year narrows the rows, and one that does not is no filter.
pub fn push_year_eq(conditions: &mut Vec<String>, year: Option<i64>)
    ensures
        views(final(conditions)@) == with_condition(
            views(old(conditions)@),
            year is Some,
            "year = "@ + signed_decimal(year->0 as int),
        ),
{
    match year {
        Some(year) => {
            let mut text = String::from_str("year = ");
            text.append(signed_text(year).as_str());
            push_text(conditions, text.as_str());
        },
        None => {},
    }
}

/// Adds a comparison of a field with a key, where the filter is set.
fn push_key(conditions: &mut Vec<String>, field: &str, value: &str, key: &str)
    ensures
        views(final(conditions)@) == with_condition(
            views(old(conditions)@),
            !blank(value@),
            key_condition(field@, key@),
        ),
{
    if !is_blank(value) {
        let mut text = String::from_str(field);
        text.append(" = ");
        text.append(sql_string(key).as_str());
        push_text(conditions, text.as_str());
    }
}

/// Equality against a normalized country key: synonyms and localized names are
/// one ISO-like code before they are compared.
pub fn push_country_eq(conditions: &mut Vec<String>, field: &str, value: &str, key: &str)
    ensures
        views(final(conditions)@) == with_condition(
            views(old(conditions)@),
            !blank(value@),
            key_condition(field@, key@),
        ),
{
    push_key(conditions, field, value, key);
}

/// Equality against a normalized text key.
pub fn push_normalized_eq(conditions: &mut Vec<String>, field: &str, value: &str, key: &str)
    ensures
        views(final(conditions)@) == with_condition(
            views(old(conditions)@),
            !blank(value@),
            key_condition(field@, key@),
        ),
{
    push_key(conditions, field, value, key);
}

/// Adds a prefix match, where the filter is set.
pub fn push_prefix(conditions: &mut Vec<String>, field: &str, value: &str)
    ensures
        views(final(conditions)@) == with_condition(
            views(old(conditions)@),
            !blank(value@),
            prefix_condition(field@, trimmed(value@)),
        ),
{
    let value = trim(value);
    if value.as_str().unicode_len() > 0 {
        let mut text = String::from_str("starts_with(coalesce(");
        text.append(field);
        text.append(", ''), ");
        text.append(sql_string(value.as_str()).as_str());
        text.append(")");
        push_text(conditions, text.as_str());
    }
}

/// Adds a match of a part, where the filter is set. The column is folded by
/// Unicode rules, so the value is folded in the same way: with ASCII folding a
/// Cyrillic name would never match.
pub fn push_contains(conditions: &mut Vec<String>, field: &str, value: &str)
    ensures
        views(final(conditions)@) == with_condition(
            views(old(conditions)@),
            !blank(value@),
            contains_condition(field@, trimmed(value@)),
        ),
{
    let value = trim(value);
    if value.as_str().unicode_len() > 0 {
        let mut text = String::from_str("contains(lower(coalesce(");
        text.append(field);
        text.append(", '')), ");
        text.append(sql_string(text_to_lowercase(value.as_str()).as_str()).as_str());
        text.append(")");
        push_text(conditions, text.as_str());
    }
}

/// The clause that conditions make: empty without any.
pub open spec fn where_clause(conditions: Seq<Seq<char>>) -> Seq<char> {
    if conditions.len() == 0 {
        Seq::empty()
    } else {
        "WHERE "@ + joined(conditions, " AND "@)
    }
}

/// The clause that conditions make when another one follows.
pub open spec fn where_extra_clause(conditions: Seq<Seq<char>>) -> Seq<char> {
    if conditions.len() == 0 {
        "WHERE"@
    } else {
        "WHERE "@ + joined(conditions, " AND "@) + " AND"@
    }
}

impl DuckFilter {
    /// The conditions of a query.
    pub fn from_query(query: &Query, keys: &FilterKeys) -> (r: Self)
        ensures
            views(r.conditions@) == query_conditions(*query, *keys),
    {
        let mut conditions: Vec<String> = Vec::new();
        assert(views(conditions@) =~= Seq::<Seq<char>>::empty());
        if query.record_scope == RecordScope::Canonical {
            push_text(&mut conditions, "dup_first_file IS NULL");
        }
        let text = trim(query.text.as_str());
        if text.as_str().unicode_len() > 0 {
            let mut condition = String::from_str(SEARCHED);
            condition.append(sql_string(text_to_lowercase(text.as_str()).as_str()).as_str());
            condition.append(")");
            push_text(&mut conditions, condition.as_str());
        }
        let filters = &query.filters;
        push_year_eq(&mut conditions, keys.year);
        push_prefix(&mut conditions, "product_code_text", filters.product_code.as_str());
        push_normalized_eq(
            &mut conditions,
            "trademark_key",
            filters.trademark.as_str(),
            keys.trademark.as_str(),
        );
        push_contains(&mut conditions, "description_text", filters.description.as_str());
        push_contains(&mut conditions, "sender_text", filters.sender.as_str());
        push_contains(&mut conditions, "recipient_text", filters.recipient.as_str());
        push_normalized_eq(
            &mut conditions,
            "edrpou_key",
            filters.edrpou.as_str(),
            keys.edrpou.as_str(),
        );
        push_country_eq(
            &mut conditions,
            "trade_key",
            filters.trade_country.as_str(),
            keys.trade_country.as_str(),
        );
        push_country_eq(
            &mut conditions,
            "dispatch_key",
            filters.dispatch_country.as_str(),
            keys.dispatch_country.as_str(),
        );
        push_country_eq(
            &mut conditions,
            "origin_key",
            filters.origin_country.as_str(),
            keys.origin_country.as_str(),
        );
        DuckFilter { conditions }
    }

    /// The clause of the conditions.
    pub fn where_sql(&self) -> (r: String)
        ensures
            r@ == where_clause(views(self.conditions@)),
    {
        assert(views(self.conditions@).len() == self.conditions@.len());
        if self.conditions.len() == 0 {
            String::new()
        } else {
            let mut out = String::from_str("WHERE ");
            out.append(join(&self.conditions, " AND ").as_str());
            out
        }
    }

    /// The clause of the conditions, when another condition follows.
    pub fn where_extra_sql(&self) -> (r: String)
        ensures
            r@ == where_extra_clause(views(self.conditions@)),
    {
        assert(views(self.conditions@).len() == self.conditions@.len());
        if self.conditions.len() == 0 {
            String::from_str("WHERE")
        } else {
            let mut out = String::from_str("WHERE ");
            out.append(join(&self.conditions, " AND ").as_str());
            out.append(" AND");
            out
        }
    }
}

/// One more condition behind the open clause is the clause of all conditions.
pub proof fn extra_condition_joins(conditions: Seq<Seq<char>>, extra: Seq<char>)
    ensures
        where_extra_clause(conditions) + seq![' '] + extra == where_clause(conditions.push(extra)),
{
    reveal_strlit("WHERE");
    reveal_strlit("WHERE ");
    reveal_strlit(" AND");
    reveal_strlit(" AND ");
    let all = conditions.push(extra);
    assert(all.drop_last() =~= conditions);
    assert(all.last() == extra);
    if conditions.len() == 0 {
        assert(joined(all, " AND "@) == extra);
        assert(where_extra_clause(conditions) + seq![' '] + extra =~= "WHERE "@ + extra);
    } else {
        assert(joined(all, " AND "@) == joined(conditions, " AND "@) + " AND "@ + extra);
        assert(where_extra_clause(conditions) + seq![' '] + extra =~= where_clause(all));
    }
}

/// Whether the projection can answer a query: it has no advanced rules.
pub fn supports_projection_query(query: &Query) -> (r: bool)
    ensures
        r == no_rules(query.advanced),
{
    match &query.advanced {
        Some(rules) => rules.is_empty(),
        None => true,
    }
}

/// Which rollup answers a query: its scope, and its year or 0 for all years.
#[derive(Clone, Copy, Debug)]
pub struct RollupSelector {
    pub record_scope: &'static str,
    pub year_key: i64,
}

/// No filter but the year is set.
pub open spec fn only_year(f: Filters) -> bool {
    &&& blank(f.product_code@)
    &&& blank(f.trademark@)
    &&& blank(f.description@)
    &&& blank(f.sender@)
    &&& blank(f.recipient@)
    &&& blank(f.edrpou@)
    &&& blank(f.trade_country@)
    &&& blank(f.dispatch_country@)
    &&& blank(f.origin_country@)
}

/// The year of the rollup that answers a query.
pub open spec fn rollup_year(query: Query) -> Option<int> {
    if !blank(query.text@) || !no_rules(query.advanced) || !only_year(query.filters) {
        None
    } else if blank(query.filters.year@) {
        Some(0)
    } else {
        match read_signed(trimmed(query.filters.year@)) {
            Some(n) => if n > 0 {
                Some(n)
            } else {
                None
            },
            None => None,
        }
    }
}

/// The name of a scope of rows.
pub open spec fn scope_name(scope: RecordScope) -> Seq<char> {
    match scope {
        RecordScope::Canonical => "canonical"@,
        RecordScope::Occurrences => "occurrences"@,
    }
}

impl RollupSelector {
    /// The rollup that answers a query, if one does: the query asks for nothing
    /// but a year.
    pub fn from_query(query: &Query) -> (r: Option<RollupSelector>)
        ensures
            match r {
                Some(s) => rollup_year(*query) == Some(s.year_key as int) && s.record_scope@
                    == scope_name(query.record_scope),
                None => rollup_year(*query) is None,
            },
    {
        if !is_blank(query.text.as_str()) || !supports_projection_query(query) {
            return None;
        }
        let f = &query.filters;
        if !(is_blank(f.product_code.as_str()) && is_blank(f.trademark.as_str()) && is_blank(
            f.description.as_str(),
        ) && is_blank(f.sender.as_str()) && is_blank(f.recipient.as_str()) && is_blank(
            f.edrpou.as_str(),
        ) && is_blank(f.trade_country.as_str()) && is_blank(f.dispatch_country.as_str())
            && is_blank(f.origin_country.as_str())) {
            return None;
        }
        let year = trim(f.year.as_str());
        let year_key: i64 = if year.as_str().unicode_len() == 0 {
            0
        } else {
            match parse_signed(year.as_str()) {
                Some(n) => if n > 0 {
                    n
                } else {
                    return None;
                },
                None => {
                    return None;
                },
            }
        };
        Some(
            RollupSelector {
                record_scope: match query.record_scope {
                    RecordScope::Canonical => "canonical",
                    RecordScope::Occurrences => "occurrences",
                },
                year_key,
            },
        )
    }
}

/// Whether a rollup answers a query.
pub fn supports_rollup_query(query: &Query) -> (r: bool)
    ensures
        r == (rollup_year(*query) is Some),
{
    RollupSelector::from_query(query).is_some()
}

/// Every query that a rollup answers, the projection answers too.
pub proof fn rollup_implies_projection(query: Query)
    requires
        rollup_year(query) is Some,
    ensures
        no_rules(query.advanced),
{
}

/// One where a condition applies, and none where it does not.
pub open spec fn one_if(applies: bool) -> nat {
    if applies {
        1
    } else {
        0
    }
}

/// One more condition leaves the others standing.
proof fn condition_is_kept(list: Seq<Seq<char>>, applies: bool, text: Seq<char>)
    ensures
        with_condition(list, applies, text).len() == list.len() + one_if(applies),
        applies ==> with_condition(list, applies, text).contains(text),
        forall|x: Seq<char>| #[trigger]
            list.contains(x) ==> with_condition(list, applies, text).contains(x),
{
    let after = with_condition(list, applies, text);
    if applies {
        assert(after[list.len() as int] == text);
    }
    assert forall|x: Seq<char>| #[trigger] list.contains(x) implies after.contains(x) by {
        let k = choose|k: int| 0 <= k < list.len() && list[k] == x;
        assert(after[k] == x);
    }
}

/// The condition that a search text puts on a row: some of the described goods,
/// the sender, the recipient, the product code and the trademark holds it.
pub open spec fn search_condition(text: Seq<char>) -> Seq<char> {
    "contains(lower(coalesce(description, '') || ' ' || coalesce(sender_label, '') ||\n                 ' ' || coalesce(recipient_label, '') || ' ' || coalesce(product_code, '') || ' '\n                 || coalesce(trademark_label, '')), "@
        + literal(lower_text(trimmed(text))) + ")"@
}

/// Every filter is put on its own column: a product code on the beginning of the
/// product code, a description, a sender and a recipient on a part of their own
/// texts, and the others on their own keys. The scope that leaves repeated rows
/// out asks for the first of them, the year asks for its rows, and a search text
/// is looked for in the row's words. Nothing else narrows the rows: there are as
/// many conditions as there are things that were asked for.
pub proof fn every_filter_is_on_its_own_column(query: Query, keys: FilterKeys)
    ensures
        ({
            let f = query.filters;
            let c = query_conditions(query, keys);
            &&& query.record_scope == RecordScope::Canonical ==> c.contains(
                "dup_first_file IS NULL"@,
            )
            &&& !blank(query.text@) ==> c.contains(search_condition(query.text@))
            &&& keys.year matches Some(year) ==> c.contains("year = "@ + signed_decimal(year as int))
            &&& !blank(f.product_code@) ==> c.contains(
                "starts_with(coalesce(product_code_text, ''), "@ + literal(trimmed(f.product_code@)) + ")"@,
            )
            &&& !blank(f.trademark@) ==> c.contains(
                "trademark_key = "@ + literal(keys.trademark@),
            )
            &&& !blank(f.description@) ==> c.contains(
                "contains(lower(coalesce(description_text, '')), "@ + literal(lower_text(trimmed(f.description@))) + ")"@,
            )
            &&& !blank(f.sender@) ==> c.contains(
                "contains(lower(coalesce(sender_text, '')), "@ + literal(lower_text(trimmed(f.sender@))) + ")"@,
            )
            &&& !blank(f.recipient@) ==> c.contains(
                "contains(lower(coalesce(recipient_text, '')), "@ + literal(lower_text(trimmed(f.recipient@))) + ")"@,
            )
            &&& !blank(f.edrpou@) ==> c.contains(
                "edrpou_key = "@ + literal(keys.edrpou@),
            )
            &&& !blank(f.trade_country@) ==> c.contains(
                "trade_key = "@ + literal(keys.trade_country@),
            )
            &&& !blank(f.dispatch_country@) ==> c.contains(
                "dispatch_key = "@ + literal(keys.dispatch_country@),
            )
            &&& !blank(f.origin_country@) ==> c.contains(
                "origin_key = "@ + literal(keys.origin_country@),
            )
            &&& c.len() == one_if(query.record_scope == RecordScope::Canonical) + one_if(
                !blank(query.text@),
            ) + one_if(keys.year is Some) + one_if(!blank(f.product_code@)) + one_if(!blank(f.trademark@)) + one_if(!blank(f.description@)) + one_if(!blank(f.sender@)) + one_if(!blank(f.recipient@)) + one_if(!blank(f.edrpou@)) + one_if(!blank(f.trade_country@)) + one_if(!blank(f.dispatch_country@)) + one_if(!blank(f.origin_country@))
        }),
{
    let f = query.filters;
    reveal_strlit("contains(lower(coalesce(");
    reveal_strlit(", '')), ");
    reveal_strlit("starts_with(coalesce(");
    reveal_strlit(", ''), ");
    reveal_strlit(" = ");
    reveal_strlit("starts_with(coalesce(product_code_text, ''), ");
    reveal_strlit("product_code_text");
    assert("starts_with(coalesce(product_code_text, ''), "@ =~= "starts_with(coalesce("@ + "product_code_text"@ + ", ''), "@);
    reveal_strlit("trademark_key = ");
    reveal_strlit("trademark_key");
    assert("trademark_key = "@ =~= "trademark_key"@ + " = "@);
    reveal_strlit("contains(lower(coalesce(description_text, '')), ");
    reveal_strlit("description_text");
    assert("contains(lower(coalesce(description_text, '')), "@ =~= "contains(lower(coalesce("@ + "description_text"@ + ", '')), "@);
    reveal_strlit("contains(lower(coalesce(sender_text, '')), ");
    reveal_strlit("sender_text");
    assert("contains(lower(coalesce(sender_text, '')), "@ =~= "contains(lower(coalesce("@ + "sender_text"@ + ", '')), "@);
    reveal_strlit("contains(lower(coalesce(recipient_text, '')), ");
    reveal_strlit("recipient_text");
    assert("contains(lower(coalesce(recipient_text, '')), "@ =~= "contains(lower(coalesce("@ + "recipient_text"@ + ", '')), "@);
    reveal_strlit("edrpou_key = ");
    reveal_strlit("edrpou_key");
    assert("edrpou_key = "@ =~= "edrpou_key"@ + " = "@);
    reveal_strlit("trade_key = ");
    reveal_strlit("trade_key");
    assert("trade_key = "@ =~= "trade_key"@ + " = "@);
    reveal_strlit("dispatch_key = ");
    reveal_strlit("dispatch_key");
    assert("dispatch_key = "@ =~= "dispatch_key"@ + " = "@);
    reveal_strlit("origin_key = ");
    reveal_strlit("origin_key");
    assert("origin_key = "@ =~= "origin_key"@ + " = "@);
    let c0 = with_condition(Seq::empty(), query.record_scope == RecordScope::Canonical, "dup_first_file IS NULL"@);
    condition_is_kept(Seq::empty(), query.record_scope == RecordScope::Canonical, "dup_first_file IS NULL"@);
    let c1 = with_condition(c0, !blank(query.text@), SEARCHED@ + literal(lower_text(trimmed(query.text@))) + ")"@);
    condition_is_kept(c0, !blank(query.text@), SEARCHED@ + literal(lower_text(trimmed(query.text@))) + ")"@);
    let c2 = with_condition(c1, keys.year is Some, "year = "@ + signed_decimal(keys.year->0 as int));
    condition_is_kept(c1, keys.year is Some, "year = "@ + signed_decimal(keys.year->0 as int));
    let c3 = with_condition(c2, !blank(f.product_code@), prefix_condition("product_code_text"@, trimmed(f.product_code@)));
    condition_is_kept(c2, !blank(f.product_code@), prefix_condition("product_code_text"@, trimmed(f.product_code@)));
    let c4 = with_condition(c3, !blank(f.trademark@), key_condition("trademark_key"@, keys.trademark@));
    condition_is_kept(c3, !blank(f.trademark@), key_condition("trademark_key"@, keys.trademark@));
    let c5 = with_condition(c4, !blank(f.description@), contains_condition("description_text"@, trimmed(f.description@)));
    condition_is_kept(c4, !blank(f.description@), contains_condition("description_text"@, trimmed(f.description@)));
    let c6 = with_condition(c5, !blank(f.sender@), contains_condition("sender_text"@, trimmed(f.sender@)));
    condition_is_kept(c5, !blank(f.sender@), contains_condition("sender_text"@, trimmed(f.sender@)));
    let c7 = with_condition(c6, !blank(f.recipient@), contains_condition("recipient_text"@, trimmed(f.recipient@)));
    condition_is_kept(c6, !blank(f.recipient@), contains_condition("recipient_text"@, trimmed(f.recipient@)));
    let c8 = with_condition(c7, !blank(f.edrpou@), key_condition("edrpou_key"@, keys.edrpou@));
    condition_is_kept(c7, !blank(f.edrpou@), key_condition("edrpou_key"@, keys.edrpou@));
    let c9 = with_condition(c8, !blank(f.trade_country@), key_condition("trade_key"@, keys.trade_country@));
    condition_is_kept(c8, !blank(f.trade_country@), key_condition("trade_key"@, keys.trade_country@));
    let c10 = with_condition(c9, !blank(f.dispatch_country@), key_condition("dispatch_key"@, keys.dispatch_country@));
    condition_is_kept(c9, !blank(f.dispatch_country@), key_condition("dispatch_key"@, keys.dispatch_country@));
    let c11 = with_condition(c10, !blank(f.origin_country@), key_condition("origin_key"@, keys.origin_country@));
    condition_is_kept(c10, !blank(f.origin_country@), key_condition("origin_key"@, keys.origin_country@));
    assert(c11 == query_conditions(query, keys));
}

/// Every condition has to hold: conditions stand behind one word `WHERE` with the
/// word `AND` between them, and where there is none there is no clause.
pub proof fn every_condition_is_required(conditions: Seq<Seq<char>>, one: Seq<char>, next: Seq<char>)
    ensures
        where_clause(Seq::empty()).len() == 0,
        where_clause(seq![one]) == "WHERE "@ + one,
        conditions.len() > 0 ==> where_clause(conditions.push(next)) == where_clause(conditions)
            + " AND "@ + next,
        where_extra_clause(Seq::empty()) == "WHERE"@,
        where_extra_clause(seq![one]) == "WHERE "@ + one + " AND"@,
        conditions.len() > 0 ==> where_extra_clause(conditions) == where_clause(conditions)
            + " AND"@,
{
    let all = conditions.push(next);
    assert(all.drop_last() =~= conditions);
    assert(all.last() == next);
    if conditions.len() > 0 {
        assert(joined(all, " AND "@) == joined(conditions, " AND "@) + " AND "@ + next);
        assert(where_clause(all) =~= where_clause(conditions) + " AND "@ + next);
    }
}

/// A rollup answers for all years, or for one year, and only a query that asks for
/// nothing else: one with a search text, with rules or with any other filter is
/// not answered by it. It holds the rows of the scope that was asked for.
pub proof fn a_rollup_answers_years_only(query: Query)
    ensures
        rollup_year(query) is Some ==> blank(query.text@) && blank(query.filters.product_code@)
            && blank(query.filters.trademark@) && blank(query.filters.description@) && blank(
            query.filters.sender@,
        ) && blank(query.filters.recipient@) && blank(query.filters.edrpou@) && blank(
            query.filters.trade_country@,
        ) && blank(query.filters.dispatch_country@) && blank(query.filters.origin_country@)
            && no_rules(query.advanced),
        rollup_year(query) == Some(0int) ==> blank(query.filters.year@),
        match rollup_year(query) {
            Some(year) => year == 0 || (year > 0 && read_signed(trimmed(query.filters.year@))
                == Some(year)),
            None => true,
        },
        scope_name(RecordScope::Canonical) == "canonical"@,
        scope_name(RecordScope::Occurrences) == "occurrences"@,
{
}

} // verus!
