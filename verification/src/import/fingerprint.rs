//! The identity of an import: the content of its file and a person's decisions.
use vstd::prelude::*;
use vstd::string::*;
use vstd::utf8::encode_utf8;
use xxhash_rust::xxh3::Xxh3;

use crate::digest::{fed, feed, hash_64, hex, le_bytes, le_word, new_hasher, push_hex, xxh3_64_of};
use crate::import::options::{FixedValues, ImportOptions, Overrides, TextSet};
use crate::ordered::OrderedMap;
use crate::table::{semantic_label, semantic_name, SemanticField};
use crate::text::{trim, trimmed};

verus! {

/// The bytes of the selected sheets.
pub open spec fn selection_bytes(sheets: Seq<(String, ())>) -> Seq<u8>
    decreases sheets.len(),
{
    if sheets.len() == 0 {
        encode_utf8("\u{0}selected"@)
    } else {
        selection_bytes(sheets.drop_last()) + seq![0u8] + encode_utf8(sheets.last().0@)
    }
}

/// The bytes of some decided meanings.
pub open spec fn decision_bytes(decisions: Seq<(usize, Option<SemanticField>)>) -> Seq<u8>
    decreases decisions.len(),
{
    if decisions.len() == 0 {
        Seq::empty()
    } else {
        decision_bytes(decisions.drop_last()) + le_word(decisions.last().0 as nat) + encode_utf8(
            match decisions.last().1 {
                Some(semantic) => semantic_label(semantic),
                None => "None"@,
            },
        )
    }
}

/// The bytes of the decided meanings of some sheets.
pub open spec fn mapping_bytes(sheets: Seq<(String, Overrides)>) -> Seq<u8>
    decreases sheets.len(),
{
    if sheets.len() == 0 {
        Seq::empty()
    } else {
        mapping_bytes(sheets.drop_last()) + encode_utf8("\u{0}mapping\u{0}"@) + encode_utf8(
            sheets.last().0@,
        ) + decision_bytes(sheets.last().1.entries@)
    }
}

/// The bytes of some pinned values.
pub open spec fn value_bytes(values: Seq<(SemanticField, String)>) -> Seq<u8>
    decreases values.len(),
{
    if values.len() == 0 {
        Seq::empty()
    } else {
        value_bytes(values.drop_last()) + encode_utf8(semantic_label(values.last().0)) + seq![0u8]
            + encode_utf8(trimmed(values.last().1@))
    }
}

/// The bytes of the pinned values of some sheets.
pub open spec fn fixed_bytes(sheets: Seq<(String, FixedValues)>) -> Seq<u8>
    decreases sheets.len(),
{
    if sheets.len() == 0 {
        Seq::empty()
    } else {
        fixed_bytes(sheets.drop_last()) + encode_utf8("\u{0}fixed\u{0}"@) + encode_utf8(
            sheets.last().0@,
        ) + value_bytes(sheets.last().1.entries@)
    }
}

/// The bytes of a person's decisions.
pub open spec fn option_bytes(options: ImportOptions) -> Seq<u8> {
    (match options.selected_sheets {
        Some(sheets) => selection_bytes(sheets.entries@),
        None => Seq::empty(),
    }) + mapping_bytes(options.sheet_semantics.entries@) + fixed_bytes(
        options.sheet_fixed_values.entries@,
    )
}

/// The identity of an import: the hash of its content, followed by a hash of the
/// decisions where there are any.
pub open spec fn fingerprint(content_hash: Seq<char>, options: ImportOptions) -> Seq<char> {
    if options.untouched() {
        content_hash
    } else {
        content_hash + ":s:"@ + hex(
            xxh3_64_of(encode_utf8(content_hash) + option_bytes(options)) as nat,
            16,
        )
    }
}

/// Feeds the text of a name.
fn feed_text(hasher: &mut Xxh3, s: &str)
    ensures
        fed(*final(hasher)) == fed(*old(hasher)) + encode_utf8(s@),
{
    feed(hasher, s.as_bytes());
}

/// Feeds the selected sheets.
fn feed_selection(hasher: &mut Xxh3, sheets: &TextSet)
    ensures
        fed(*final(hasher)) == fed(*old(hasher)) + selection_bytes(sheets.entries@),
{
    let ghost start = fed(*hasher);
    feed_text(hasher, "\u{0}selected");
    let mut i: usize = 0;
    assert(sheets.entries@.take(0) =~= Seq::<(String, ())>::empty());
    while i < sheets.entries.len()
        invariant
            i <= sheets.entries@.len(),
            fed(*hasher) == start + selection_bytes(sheets.entries@.take(i as int)),
        decreases sheets.entries.len() - i,
    {
        let ghost upto = sheets.entries@.take(i + 1);
        assert(upto.drop_last() =~= sheets.entries@.take(i as int));
        assert(upto.last() == sheets.entries@[i as int]);
        feed(hasher, &[0]);
        feed_text(hasher, sheets.entries[i].0.as_str());
        assert(fed(*hasher) =~= start + selection_bytes(upto));
        i += 1;
    }
    assert(sheets.entries@.take(i as int) =~= sheets.entries@);
}

/// Feeds some decided meanings.
fn feed_decisions(hasher: &mut Xxh3, decisions: &Overrides)
    ensures
        fed(*final(hasher)) == fed(*old(hasher)) + decision_bytes(decisions.entries@),
{
    let ghost start = fed(*hasher);
    let mut i: usize = 0;
    assert(start =~= start + decision_bytes(decisions.entries@.take(0)));
    while i < decisions.entries.len()
        invariant
            i <= decisions.entries@.len(),
            fed(*hasher) == start + decision_bytes(decisions.entries@.take(i as int)),
        decreases decisions.entries.len() - i,
    {
        let ghost upto = decisions.entries@.take(i + 1);
        assert(upto.drop_last() =~= decisions.entries@.take(i as int));
        assert(upto.last() == decisions.entries@[i as int]);
        let word = le_bytes(decisions.entries[i].0 as u128, 8);
        assert(word@ =~= le_word(decisions.entries@[i as int].0 as nat));
        feed(hasher, word.as_slice());
        match decisions.entries[i].1 {
            Some(semantic) => {
                feed_text(hasher, semantic_name(semantic));
            },
            None => {
                feed_text(hasher, "None");
            },
        }
        assert(fed(*hasher) =~= start + decision_bytes(upto));
        i += 1;
    }
    assert(decisions.entries@.take(i as int) =~= decisions.entries@);
}

/// Feeds the decided meanings of some sheets.
fn feed_mapping(hasher: &mut Xxh3, sheets: &OrderedMap<String, Overrides>)
    ensures
        fed(*final(hasher)) == fed(*old(hasher)) + mapping_bytes(sheets.entries@),
{
    let ghost start = fed(*hasher);
    let mut i: usize = 0;
    assert(start =~= start + mapping_bytes(sheets.entries@.take(0)));
    while i < sheets.entries.len()
        invariant
            i <= sheets.entries@.len(),
            fed(*hasher) == start + mapping_bytes(sheets.entries@.take(i as int)),
        decreases sheets.entries.len() - i,
    {
        let ghost upto = sheets.entries@.take(i + 1);
        assert(upto.drop_last() =~= sheets.entries@.take(i as int));
        assert(upto.last() == sheets.entries@[i as int]);
        feed_text(hasher, "\u{0}mapping\u{0}");
        feed_text(hasher, sheets.entries[i].0.as_str());
        feed_decisions(hasher, &sheets.entries[i].1);
        assert(fed(*hasher) =~= start + mapping_bytes(upto));
        i += 1;
    }
    assert(sheets.entries@.take(i as int) =~= sheets.entries@);
}

/// Feeds some pinned values.
fn feed_values(hasher: &mut Xxh3, values: &FixedValues)
    ensures
        fed(*final(hasher)) == fed(*old(hasher)) + value_bytes(values.entries@),
{
    let ghost start = fed(*hasher);
    let mut i: usize = 0;
    assert(start =~= start + value_bytes(values.entries@.take(0)));
    while i < values.entries.len()
        invariant
            i <= values.entries@.len(),
            fed(*hasher) == start + value_bytes(values.entries@.take(i as int)),
        decreases values.entries.len() - i,
    {
        let ghost upto = values.entries@.take(i + 1);
        assert(upto.drop_last() =~= values.entries@.take(i as int));
        assert(upto.last() == values.entries@[i as int]);
        feed_text(hasher, semantic_name(values.entries[i].0));
        feed(hasher, &[0]);
        feed_text(hasher, trim(values.entries[i].1.as_str()).as_str());
        assert(fed(*hasher) =~= start + value_bytes(upto));
        i += 1;
    }
    assert(values.entries@.take(i as int) =~= values.entries@);
}

/// Feeds the pinned values of some sheets.
fn feed_fixed(hasher: &mut Xxh3, sheets: &OrderedMap<String, FixedValues>)
    ensures
        fed(*final(hasher)) == fed(*old(hasher)) + fixed_bytes(sheets.entries@),
{
    let ghost start = fed(*hasher);
    let mut i: usize = 0;
    assert(start =~= start + fixed_bytes(sheets.entries@.take(0)));
    while i < sheets.entries.len()
        invariant
            i <= sheets.entries@.len(),
            fed(*hasher) == start + fixed_bytes(sheets.entries@.take(i as int)),
        decreases sheets.entries.len() - i,
    {
        let ghost upto = sheets.entries@.take(i + 1);
        assert(upto.drop_last() =~= sheets.entries@.take(i as int));
        assert(upto.last() == sheets.entries@[i as int]);
        feed_text(hasher, "\u{0}fixed\u{0}");
        feed_text(hasher, sheets.entries[i].0.as_str());
        feed_values(hasher, &sheets.entries[i].1);
        assert(fed(*hasher) =~= start + fixed_bytes(upto));
        i += 1;
    }
    assert(sheets.entries@.take(i as int) =~= sheets.entries@);
}

/// The identity of an import.
pub fn import_fingerprint(content_hash: &str, options: &ImportOptions) -> (r: String)
    ensures
        r@ == fingerprint(content_hash@, *options),
{
    if options.selected_sheets.is_none() && options.sheet_semantics.len() == 0
        && options.sheet_fixed_values.len() == 0 {
        return content_hash.to_owned();
    }
    let mut hasher = new_hasher();
    feed_text(&mut hasher, content_hash);
    match &options.selected_sheets {
        Some(sheets) => {
            feed_selection(&mut hasher, sheets);
        },
        None => {},
    }
    feed_mapping(&mut hasher, &options.sheet_semantics);
    feed_fixed(&mut hasher, &options.sheet_fixed_values);
    assert(fed(hasher) =~= encode_utf8(content_hash@) + option_bytes(*options));
    let mut out = String::from_str(content_hash);
    out.append(":s:");
    push_hex(&mut out, hash_64(&hasher) as u128, 16);
    out
}

/// An import without options goes by its content alone, and one with options by
/// its content and them.
pub proof fn options_mark_the_fingerprint(content_hash: Seq<char>, options: ImportOptions)
    ensures
        options.untouched() ==> fingerprint(content_hash, options) == content_hash,
        !options.untouched() ==> fingerprint(content_hash, options).len() > content_hash.len()
            && fingerprint(content_hash, options).take(content_hash.len() as int)
            == content_hash,
{
    reveal_strlit(":s:");
    if !options.untouched() {
        assert(fingerprint(content_hash, options).take(content_hash.len() as int)
            =~= content_hash);
    }
}

} // verus!
