//! What a person searches for.
use vstd::prelude::*;
use vstd::string::*;

use crate::text::{trim, trimmed, trimmed_is_fixed};

verus! {

/// A result field: its id and the label it is shown by.
#[derive(Clone, Debug, PartialEq, Eq)]
pub struct FieldInfo {
    pub id: String,
    pub label: String,
}

/// An advanced query: the text of its rules, and the number of conditions in them.
#[derive(Clone, Debug, PartialEq, Eq)]
pub struct QueryExpr {
    pub rules: String,
    pub conditions: usize,
}

impl QueryExpr {
    /// Whether the rules hold no condition.
    pub fn is_empty(&self) -> (r: bool)
        ensures
            r == (self.conditions == 0),
    {
        self.conditions == 0
    }
}

/// Filter values; an empty string means the filter is not set.
#[derive(Clone, Debug, PartialEq, Eq)]
pub struct Filters {
    pub year: String,
    pub product_code: String,
    pub trademark: String,
    pub description: String,
    pub sender: String,
    pub recipient: String,
    pub edrpou: String,
    pub trade_country: String,
    pub dispatch_country: String,
    pub origin_country: String,
}

/// A text of blanks alone.
pub open spec fn blank(s: Seq<char>) -> bool {
    trimmed(s).len() == 0
}

/// Tests for a text of blanks alone.
pub fn is_blank(s: &str) -> (r: bool)
    ensures
        r == blank(s@),
{
    trim(s).as_str().unicode_len() == 0
}

/// No filter is set.
pub open spec fn no_filters(f: Filters) -> bool {
    &&& blank(f.year@)
    &&& blank(f.product_code@)
    &&& blank(f.trademark@)
    &&& blank(f.description@)
    &&& blank(f.sender@)
    &&& blank(f.recipient@)
    &&& blank(f.edrpou@)
    &&& blank(f.trade_country@)
    &&& blank(f.dispatch_country@)
    &&& blank(f.origin_country@)
}

/// Every filter is the empty text.
pub open spec fn cleared(f: Filters) -> bool {
    &&& f.year@ == Seq::<char>::empty()
    &&& f.product_code@ == Seq::<char>::empty()
    &&& f.trademark@ == Seq::<char>::empty()
    &&& f.description@ == Seq::<char>::empty()
    &&& f.sender@ == Seq::<char>::empty()
    &&& f.recipient@ == Seq::<char>::empty()
    &&& f.edrpou@ == Seq::<char>::empty()
    &&& f.trade_country@ == Seq::<char>::empty()
    &&& f.dispatch_country@ == Seq::<char>::empty()
    &&& f.origin_country@ == Seq::<char>::empty()
}

impl Default for Filters {
    fn default() -> (r: Self)
        ensures
            cleared(r),
    {
        Filters {
            year: String::new(),
            product_code: String::new(),
            trademark: String::new(),
            description: String::new(),
            sender: String::new(),
            recipient: String::new(),
            edrpou: String::new(),
            trade_country: String::new(),
            dispatch_country: String::new(),
            origin_country: String::new(),
        }
    }
}

impl Filters {
    /// Whether no filter is set.
    pub fn is_empty(&self) -> (r: bool)
        ensures
            r == no_filters(*self),
    {
        is_blank(self.year.as_str()) && is_blank(self.product_code.as_str()) && is_blank(
            self.trademark.as_str(),
        ) && is_blank(self.description.as_str()) && is_blank(self.sender.as_str()) && is_blank(
            self.recipient.as_str(),
        ) && is_blank(self.edrpou.as_str()) && is_blank(self.trade_country.as_str()) && is_blank(
            self.dispatch_country.as_str(),
        ) && is_blank(self.origin_country.as_str())
    }

    /// Unsets every filter.
    pub fn clear(&mut self)
        ensures
            cleared(*final(self)),
            no_filters(*final(self)),
    {
        *self = Filters::default();
    }
}

/// Whether a result row stands for a record or for each of its occurrences.
#[derive(Clone, Copy, Debug, PartialEq, Eq, Structural)]
pub enum RecordScope {
    Canonical,
    Occurrences,
}

impl Default for RecordScope {
    fn default() -> (r: Self)
        ensures
            r is Canonical,
    {
        RecordScope::Canonical
    }
}

/// A search: words, filters, advanced rules and the scope of its rows.
#[derive(Clone, Debug, PartialEq, Eq)]
pub struct Query {
    pub text: String,
    pub filters: Filters,
    pub advanced: Option<QueryExpr>,
    pub record_scope: RecordScope,
}

impl Default for Query {
    fn default() -> (r: Self)
        ensures
            r.text@ == Seq::<char>::empty(),
            cleared(r.filters),
            r.advanced is None,
            r.record_scope is Canonical,
    {
        Query {
            text: String::new(),
            filters: Filters::default(),
            advanced: None,
            record_scope: RecordScope::default(),
        }
    }
}

/// Advanced rules without a condition, or none.
pub open spec fn no_rules(advanced: Option<QueryExpr>) -> bool {
    match advanced {
        Some(rules) => rules.conditions == 0,
        None => true,
    }
}

/// A query that asks for nothing in particular.
pub open spec fn no_query(q: Query) -> bool {
    blank(q.text@) && no_filters(q.filters) && no_rules(q.advanced)
}

impl Query {
    /// Whether the query asks for nothing in particular.
    pub fn is_empty(&self) -> (r: bool)
        ensures
            r == no_query(*self),
    {
        is_blank(self.text.as_str()) && self.filters.is_empty() && match &self.advanced {
            Some(rules) => rules.is_empty(),
            None => true,
        }
    }
}

/// Analytics runs for a query that asks for something.
pub fn analytics_should_run(q: &Query) -> (r: bool)
    ensures
        r == !no_query(*q),
{
    !q.is_empty()
}

/// Optional ordering for a result page: a result-field id and a direction.
/// When absent, the default recency order is used.
#[derive(Clone, Debug)]
pub struct ResultSort {
    /// Result field id (matches `FieldInfo::id` from the schema/results).
    pub field: String,
    pub descending: bool,
}

/// Row ids, row values and source names of one result page.
pub type SearchPage = (Vec<i64>, Vec<Vec<String>>, Vec<Option<String>>);

/// A result page together with the fields of its columns.
pub type DynamicSearchPage = (
    Vec<FieldInfo>,
    Vec<i64>,
    Vec<Vec<String>>,
    Vec<Option<String>>,
);

/// A query asks for nothing exactly where its text, each of its ten filters and
/// its rules do: one filter that says something makes it a query.
pub proof fn any_filter_makes_a_query(q: Query)
    ensures
        trimmed(q.text@).len() > 0 || trimmed(q.filters.year@).len() > 0 || trimmed(
            q.filters.product_code@,
        ).len() > 0 || trimmed(q.filters.trademark@).len() > 0 || trimmed(
            q.filters.description@,
        ).len() > 0 || trimmed(q.filters.sender@).len() > 0 || trimmed(q.filters.recipient@).len()
            > 0 || trimmed(q.filters.edrpou@).len() > 0 || trimmed(q.filters.trade_country@).len()
            > 0 || trimmed(q.filters.dispatch_country@).len() > 0 || trimmed(
            q.filters.origin_country@,
        ).len() > 0 || (match q.advanced {
            Some(rules) => rules.conditions > 0,
            None => false,
        }) <==> !no_query(q),
        cleared(q.filters) ==> no_filters(q.filters),
{
    if cleared(q.filters) {
        trimmed_is_fixed(Seq::<char>::empty());
    }
}

} // verus!
