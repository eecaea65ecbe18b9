//! What a person decides about an import: sheets, meanings and fixed values.
use vstd::prelude::*;
use vstd::string::*;

use crate::import::mapping::{sources, ColSrc, Source};
use crate::ordered::{entered, entry_value, has_key, keyed, map_of_pairs, OrderedMap};
use crate::schema::{place_in_range, Schema};
use crate::table::{
    fixable, fixed_value, semantic_label, semantic_name, validate_fixed_value, SemanticField,
};
use crate::text::trimmed;

verus! {

/// Some texts, ascending, each once.
pub type TextSet = OrderedMap<String, ()>;

/// Meanings decided by column: a meaning, or none.
pub type Overrides = OrderedMap<usize, Option<SemanticField>>;

/// Values pinned for a whole table, by meaning.
pub type FixedValues = OrderedMap<SemanticField, String>;

/// What a person decides about an import.
#[derive(Clone, Debug)]
pub struct ImportOptions {
    /// Workbook sheets to import. `None` imports every readable sheet.
    pub selected_sheets: Option<TextSet>,
    /// Per-sheet semantic overrides keyed by zero-based source column index.
    /// `Some(field)` maps the value into the canonical semantic column;
    /// `None` explicitly keeps that source column unmapped.
    pub sheet_semantics: OrderedMap<String, Overrides>,
    /// Per-sheet values supplied by a saved source profile when the source has
    /// no currency or weight-unit column. Only `Currency` and `WeightUnit` are
    /// accepted, and values are materialized into existing canonical storage.
    pub sheet_fixed_values: OrderedMap<String, FixedValues>,
}

impl ImportOptions {
    /// Every map is in order.
    pub open spec fn wf(&self) -> bool {
        &&& match self.selected_sheets {
            Some(sheets) => sheets.wf(),
            None => true,
        }
        &&& self.sheet_semantics.wf()
        &&& self.sheet_fixed_values.wf()
        &&& forall|k: Seq<char>| #[trigger]
            self.sheet_semantics@.contains_key(k) ==> self.sheet_semantics@[k].wf()
        &&& forall|k: Seq<char>| #[trigger]
            self.sheet_fixed_values@.contains_key(k) ==> self.sheet_fixed_values@[k].wf()
    }

    /// Nothing is decided.
    pub open spec fn untouched(&self) -> bool {
        self.selected_sheets is None && self.sheet_semantics.entries@.len() == 0
            && self.sheet_fixed_values.entries@.len() == 0
    }
}

impl Default for ImportOptions {
    fn default() -> (r: Self)
        ensures
            r.wf(),
            r.untouched(),
    {
        ImportOptions {
            selected_sheets: None,
            sheet_semantics: OrderedMap::new(),
            sheet_fixed_values: OrderedMap::new(),
        }
    }
}

/// The set of some texts.
pub open spec fn text_set(texts: Seq<String>) -> Map<Seq<char>, ()> {
    Map::new(|k: Seq<char>| exists|i: int| 0 <= i < texts.len() && (#[trigger] texts[i])@ == k, |k: Seq<char>| ())
}

/// Gathers some texts into a set.
pub fn set_of_texts(texts: Vec<String>) -> (r: TextSet)
    ensures
        r.wf(),
        r@ == text_set(texts@),
{
    let mut out: TextSet = OrderedMap::new();
    let mut i: usize = 0;
    assert(out@ =~= text_set(texts@.take(0)));
    while i < texts.len()
        invariant
            i <= texts@.len(),
            out.wf(),
            out@ == text_set(texts@.take(i as int)),
        decreases texts.len() - i,
    {
        let ghost before = texts@.take(i as int);
        let ghost after = texts@.take(i + 1);
        let ghost old_out = out@;
        out.insert(texts[i].clone(), ());
        proof {
            let k0 = texts@[i as int]@;
            assert forall|k: Seq<char>| text_set(after).contains_key(k) == (text_set(
                before,
            ).contains_key(k) || k == k0) by {
                if text_set(before).contains_key(k) {
                    let j = choose|j: int| 0 <= j < before.len() && (#[trigger] before[j])@ == k;
                    assert(after[j]@ == k);
                }
                if k == k0 {
                    assert(after[i as int]@ == k);
                }
                if text_set(after).contains_key(k) {
                    let j = choose|j: int| 0 <= j < after.len() && (#[trigger] after[j])@ == k;
                    if j < i {
                        assert(before[j]@ == k);
                    }
                }
            }
            assert(out@ =~= text_set(after));
        }
        i += 1;
    }
    assert(texts@.take(i as int) =~= texts@);
    out
}

impl ImportOptions {
    /// Imports only the given sheets.
    pub fn selected_sheets(sheets: Vec<String>) -> (r: Self)
        ensures
            r.wf(),
            r.selected_sheets matches Some(set) && set@ == text_set(sheets@),
            r.sheet_semantics.entries@.len() == 0,
            r.sheet_fixed_values.entries@.len() == 0,
    {
        ImportOptions {
            selected_sheets: Some(set_of_texts(sheets)),
            sheet_semantics: OrderedMap::new(),
            sheet_fixed_values: OrderedMap::new(),
        }
    }

    /// The same options with the meanings of one sheet decided.
    pub fn with_sheet_semantics(
        self,
        sheet: String,
        semantics: Vec<(usize, Option<SemanticField>)>,
    ) -> (r: Self)
        requires
            self.wf(),
        ensures
            r.wf(),
            r.selected_sheets == self.selected_sheets,
            r.sheet_fixed_values == self.sheet_fixed_values,
            exists|o: Overrides|
                o.wf() && o@ == entered(semantics@) && r.sheet_semantics@
                    == #[trigger] self.sheet_semantics@.insert(sheet@, o),
    {
        let overrides = map_of_pairs(semantics);
        let ghost o = overrides;
        let mut sheet_semantics = self.sheet_semantics;
        let ghost before = sheet_semantics@;
        sheet_semantics.insert(sheet, overrides);
        assert(sheet_semantics@ == before.insert(sheet@, o));
        ImportOptions {
            selected_sheets: self.selected_sheets,
            sheet_semantics,
            sheet_fixed_values: self.sheet_fixed_values,
        }
    }

    /// The same options with the fixed values of one sheet given.
    pub fn with_sheet_fixed_values(
        self,
        sheet: String,
        values: Vec<(SemanticField, String)>,
    ) -> (r: Self)
        requires
            self.wf(),
        ensures
            r.wf(),
            r.selected_sheets == self.selected_sheets,
            r.sheet_semantics == self.sheet_semantics,
            exists|v: FixedValues|
                v.wf() && v@ == entered(values@) && r.sheet_fixed_values@
                    == #[trigger] self.sheet_fixed_values@.insert(sheet@, v),
    {
        let fixed = map_of_pairs(values);
        let ghost v = fixed;
        let mut sheet_fixed_values = self.sheet_fixed_values;
        let ghost before = sheet_fixed_values@;
        sheet_fixed_values.insert(sheet, fixed);
        assert(sheet_fixed_values@ == before.insert(sheet@, v));
        ImportOptions {
            selected_sheets: self.selected_sheets,
            sheet_semantics: self.sheet_semantics,
            sheet_fixed_values,
        }
    }
}

/// The first refusal among some pinned values.
pub open spec fn value_refusal(entries: Seq<(SemanticField, String)>) -> Option<Seq<char>>
    decreases entries.len(),
{
    if entries.len() == 0 {
        None
    } else {
        match value_refusal(entries.drop_last()) {
            Some(e) => Some(e),
            None => match fixed_value(entries.last().0, entries.last().1@) {
                Err(e) => Some(e),
                Ok(_) => None,
            },
        }
    }
}

/// Why the pinned values of a table are refused.
pub open spec fn values_refusal(values: FixedValues) -> Option<Seq<char>> {
    if values.entries@.len() > 2 {
        Some("At most two fixed semantic values are supported."@)
    } else {
        value_refusal(values.entries@)
    }
}

/// `checked` are the pinned values, trimmed.
pub open spec fn trimmed_values(values: FixedValues, checked: FixedValues) -> bool {
    &&& checked.wf()
    &&& checked@.dom() == values@.dom()
    &&& forall|k: SemanticField| #[trigger]
        values@.contains_key(k) ==> fixable(k) && checked@[k]@ == trimmed(values@[k]@)
}

/// Checks the pinned values of a table, and returns them trimmed.
pub fn validate_fixed_values(values: &FixedValues) -> (r: Result<FixedValues, String>)
    requires
        values.wf(),
    ensures
        match r {
            Ok(checked) => values_refusal(*values) is None && trimmed_values(*values, checked),
            Err(e) => values_refusal(*values) == Some(e@),
        },
{
    if values.len() > 2 {
        return Err(String::from_str("At most two fixed semantic values are supported."));
    }
    let ghost entries = values.entries@;
    let mut checked: FixedValues = OrderedMap::new();
    let mut i: usize = 0;
    while i < values.entries.len()
        invariant
            values.wf(),
            entries == values.entries@,
            entries.len() <= 2,
            i <= entries.len(),
            value_refusal(entries.take(i as int)) is None,
            checked.wf(),
            forall|k: SemanticField| #[trigger]
                checked@.contains_key(k) ==> values@.contains_key(k) && fixable(k)
                    && checked@[k]@ == trimmed(values@[k]@),
            forall|j: int| 0 <= j < i ==> checked@.contains_key((#[trigger] entries[j]).0),
        decreases values.entries.len() - i,
    {
        let ghost upto = entries.take(i + 1);
        assert(upto.drop_last() =~= entries.take(i as int));
        assert(upto.last() == entries[i as int]);
        proof {
            entry_value(entries, i as int);
        }
        let semantic = values.entries[i].0;
        match validate_fixed_value(semantic, values.entries[i].1.as_str()) {
            Ok(value) => {
                checked.insert(semantic, value);
            },
            Err(e) => {
                proof {
                    refusal_stays(entries, i + 1);
                }
                return Err(e);
            },
        }
        i += 1;
    }
    proof {
        assert(entries.take(i as int) =~= entries);
        assert forall|k: SemanticField| values@.contains_key(k) implies checked@.contains_key(k) by {
            assert(has_key(entries, k));
            let j = choose|j: int| keyed(entries, j, k);
            assert(keyed(entries, j, k));
            assert(checked@.contains_key(entries[j].0));
        }
        assert(checked@.dom() =~= values@.dom());
    }
    Ok(checked)
}

/// A refusal among the first values is the refusal of all.
proof fn refusal_stays(entries: Seq<(SemanticField, String)>, n: int)
    requires
        0 <= n <= entries.len(),
        value_refusal(entries.take(n)) is Some,
    ensures
        value_refusal(entries) == value_refusal(entries.take(n)),
    decreases entries.len() - n,
{
    if n < entries.len() {
        assert(entries.take(n + 1).drop_last() =~= entries.take(n));
        refusal_stays(entries, n + 1);
    } else {
        assert(entries.take(n) =~= entries);
    }
}

/// The first refusal among the sheets.
pub open spec fn sheet_refusal(sheets: Seq<(String, FixedValues)>) -> Option<Seq<char>>
    decreases sheets.len(),
{
    if sheets.len() == 0 {
        None
    } else {
        match sheet_refusal(sheets.drop_last()) {
            Some(e) => Some(e),
            None => values_refusal(sheets.last().1),
        }
    }
}

/// A refusal among the first sheets is the refusal of all.
proof fn sheet_refusal_stays(sheets: Seq<(String, FixedValues)>, n: int)
    requires
        0 <= n <= sheets.len(),
        sheet_refusal(sheets.take(n)) is Some,
    ensures
        sheet_refusal(sheets) == sheet_refusal(sheets.take(n)),
    decreases sheets.len() - n,
{
    if n < sheets.len() {
        assert(sheets.take(n + 1).drop_last() =~= sheets.take(n));
        sheet_refusal_stays(sheets, n + 1);
    } else {
        assert(sheets.take(n) =~= sheets);
    }
}

/// Checks the pinned values of every sheet.
pub fn validate_import_options(options: &ImportOptions) -> (r: Result<(), String>)
    requires
        options.wf(),
    ensures
        match r {
            Ok(_) => sheet_refusal(options.sheet_fixed_values.entries@) is None,
            Err(e) => sheet_refusal(options.sheet_fixed_values.entries@) == Some(e@),
        },
{
    let ghost sheets = options.sheet_fixed_values.entries@;
    let mut i: usize = 0;
    while i < options.sheet_fixed_values.entries.len()
        invariant
            options.wf(),
            sheets == options.sheet_fixed_values.entries@,
            i <= sheets.len(),
            sheet_refusal(sheets.take(i as int)) is None,
        decreases options.sheet_fixed_values.entries.len() - i,
    {
        let ghost upto = sheets.take(i + 1);
        assert(upto.drop_last() =~= sheets.take(i as int));
        assert(upto.last() == sheets[i as int]);
        proof {
            entry_value(sheets, i as int);
            assert(options.sheet_fixed_values@.contains_key(sheets[i as int].0@));
        }
        match validate_fixed_values(&options.sheet_fixed_values.entries[i].1) {
            Ok(_) => {},
            Err(e) => {
                proof {
                    sheet_refusal_stays(sheets, i + 1);
                }
                return Err(e);
            },
        }
        i += 1;
    }
    assert(sheets.take(i as int) =~= sheets);
    Ok(())
}

/// The place of the column that a pinned value is stored in.
pub open spec fn fixed_place(schema: Schema, semantic: SemanticField) -> Option<int> {
    match semantic {
        SemanticField::Currency => schema.place("contract"@),
        SemanticField::WeightUnit => schema.place("unit"@),
        _ => None,
    }
}

/// The place of the column that a pinned value is stored in.
pub fn fixed_storage_target(schema: &Schema, semantic: SemanticField) -> (r: Option<usize>)
    ensures
        match r {
            Some(i) => fixed_place(*schema, semantic) == Some(i as int) && i
                < schema.columns@.len(),
            None => fixed_place(*schema, semantic) is None,
        },
{
    match semantic {
        SemanticField::Currency => schema.position("contract"),
        SemanticField::WeightUnit => schema.position("unit"),
        _ => None,
    }
}

/// The sources with one pinned value entered, if there is one.
pub open spec fn pinned_into(
    schema: Schema,
    start: Seq<Source>,
    values: FixedValues,
    semantic: SemanticField,
) -> Result<Seq<Source>, Seq<char>> {
    if !values@.contains_key(semantic) {
        Ok(start)
    } else {
        match fixed_place(schema, semantic) {
            Some(t) => Ok(start.update(t, Source::Fixed(trimmed(values@[semantic]@)))),
            None => Err("No canonical storage exists for fixed "@ + semantic_label(semantic) + "."@),
        }
    }
}

/// The sources with the pinned values of a table entered.
pub open spec fn with_fixed(schema: Schema, start: Seq<Source>, values: FixedValues) -> Result<
    Seq<Source>,
    Seq<char>,
> {
    match values_refusal(values) {
        Some(e) => Err(e),
        None => match pinned_into(schema, start, values, SemanticField::Currency) {
            Err(e) => Err(e),
            Ok(next) => pinned_into(schema, next, values, SemanticField::WeightUnit),
        },
    }
}

/// Sources and what they should be.
pub open spec fn same_sources(
    r: Result<Vec<ColSrc>, String>,
    model: Result<Seq<Source>, Seq<char>>,
) -> bool {
    match r {
        Ok(v) => model == Ok::<Seq<Source>, Seq<char>>(sources(v@)),
        Err(e) => model == Err::<Seq<Source>, Seq<char>>(e@),
    }
}

/// Enters one pinned value.
fn pin_value(
    schema: &Schema,
    mapping: Vec<ColSrc>,
    checked: &FixedValues,
    semantic: SemanticField,
    Ghost(values): Ghost<FixedValues>,
) -> (r: Result<Vec<ColSrc>, String>)
    requires
        mapping@.len() == schema.columns@.len(),
        trimmed_values(values, *checked),
    ensures
        same_sources(r, pinned_into(*schema, sources(mapping@), values, semantic)),
        r matches Ok(v) ==> v@.len() == mapping@.len(),
{
    let mut mapping = mapping;
    match checked.get(&semantic) {
        Some(value) => match fixed_storage_target(schema, semantic) {
            Some(target) => {
                let ghost before = sources(mapping@);
                assert(values@.contains_key(semantic));
                mapping[target] = ColSrc::Fixed(value.clone());
                assert(sources(mapping@) =~= before.update(
                    target as int,
                    Source::Fixed(trimmed(values@[semantic]@)),
                ));
                Ok(mapping)
            },
            None => {
                let mut message = String::from_str("No canonical storage exists for fixed ");
                message.append(semantic_name(semantic));
                message.append(".");
                assert(values@.contains_key(semantic));
                Err(message)
            },
        },
        None => {
            assert(!values@.contains_key(semantic));
            Ok(mapping)
        },
    }
}

/// Enters the pinned values of a table into the sources of the canonical columns.
pub fn apply_fixed_values(schema: &Schema, mapping: Vec<ColSrc>, values: &FixedValues) -> (r: Result<
    Vec<ColSrc>,
    String,
>)
    requires
        values.wf(),
        mapping@.len() == schema.columns@.len(),
    ensures
        same_sources(r, with_fixed(*schema, sources(mapping@), *values)),
        r matches Ok(v) ==> v@.len() == mapping@.len(),
{
    let checked = match validate_fixed_values(values) {
        Ok(checked) => checked,
        Err(e) => {
            return Err(e);
        },
    };
    match pin_value(schema, mapping, &checked, SemanticField::Currency, Ghost(*values)) {
        Ok(next) => pin_value(schema, next, &checked, SemanticField::WeightUnit, Ghost(*values)),
        Err(e) => Err(e),
    }
}

/// A pinned currency is kept in the column of the contract and a pinned weight
/// unit in that of the unit; every other column keeps its source.
pub proof fn pinned_values_have_their_own_columns(
    schema: Schema,
    start: Seq<Source>,
    values: FixedValues,
    t: int,
)
    requires
        0 <= t < start.len(),
        start.len() == schema.columns@.len(),
    ensures
        fixed_place(schema, SemanticField::Currency) == schema.place("contract"@),
        fixed_place(schema, SemanticField::WeightUnit) == schema.place("unit"@),
        match with_fixed(schema, start, values) {
            Ok(next) => next.len() == start.len() && (schema.place("contract"@) != Some(t)
                && schema.place("unit"@) != Some(t) ==> next[t] == start[t]) && (
            values@.contains_key(SemanticField::WeightUnit) && schema.place("unit"@) == Some(t)
                ==> next[t] == Source::Fixed(trimmed(values@[SemanticField::WeightUnit]@))) && (
            values@.contains_key(SemanticField::Currency) && schema.place("contract"@) == Some(t)
                && schema.place("unit"@) != Some(t) ==> next[t] == Source::Fixed(
                trimmed(values@[SemanticField::Currency]@),
            )),
            Err(_) => true,
        },
        values.entries@.len() > 2 ==> with_fixed(schema, start, values) is Err,
{
    place_in_range(schema.columns@, "contract"@);
    place_in_range(schema.columns@, "unit"@);
}

} // verus!
