//! A map whose keys are kept in ascending order.
use vstd::prelude::*;
use vstd::string::*;

use crate::table::SemanticField;
use crate::text::{chars_of, views};

verus! {

/// How two keys stand to each other.
#[derive(Clone, Copy, Debug, PartialEq, Eq, Structural)]
pub enum Rank {
    Below,
    Same,
    Above,
}

/// A key type with a total order on what its values mean.
pub trait OrderedKey: Sized {
    type Model;

    /// What a key means; keys with one meaning are one key.
    spec fn model(&self) -> Self::Model;

    /// `a` comes before `b`.
    spec fn below(a: Self::Model, b: Self::Model) -> bool;

    proof fn below_is_strict(a: Self::Model)
        ensures
            !Self::below(a, a),
    ;

    proof fn below_chains(a: Self::Model, b: Self::Model, c: Self::Model)
        requires
            Self::below(a, b),
            Self::below(b, c),
        ensures
            Self::below(a, c),
    ;

    fn rank(&self, other: &Self) -> (r: Rank)
        ensures
            match r {
                Rank::Below => Self::below(self.model(), other.model()),
                Rank::Same => self.model() == other.model(),
                Rank::Above => Self::below(other.model(), self.model()),
            },
    ;
}

impl OrderedKey for usize {
    type Model = usize;

    open spec fn model(&self) -> usize {
        *self
    }

    open spec fn below(a: usize, b: usize) -> bool {
        a < b
    }

    proof fn below_is_strict(a: usize) {
    }

    proof fn below_chains(a: usize, b: usize, c: usize) {
    }

    fn rank(&self, other: &usize) -> (r: Rank) {
        if *self < *other {
            Rank::Below
        } else if *self == *other {
            Rank::Same
        } else {
            Rank::Above
        }
    }
}

/// The place of a meaning in the order of meanings.
pub open spec fn semantic_place(semantic: SemanticField) -> int {
    match semantic {
        SemanticField::Date => 0,
        SemanticField::DeclarationNumber => 1,
        SemanticField::CompanyCode => 2,
        SemanticField::Sender => 3,
        SemanticField::Recipient => 4,
        SemanticField::ProductCode => 5,
        SemanticField::Description => 6,
        SemanticField::Trademark => 7,
        SemanticField::Country => 8,
        SemanticField::OriginCountry => 9,
        SemanticField::DispatchCountry => 10,
        SemanticField::TradeCountry => 11,
        SemanticField::Quantity => 12,
        SemanticField::NetWeight => 13,
        SemanticField::GrossWeight => 14,
        SemanticField::Value => 15,
        SemanticField::Currency => 16,
        SemanticField::WeightUnit => 17,
    }
}

/// The place of a meaning in the order of meanings.
pub fn place_of_semantic(semantic: SemanticField) -> (r: u8)
    ensures
        r == semantic_place(semantic),
{
    match semantic {
        SemanticField::Date => 0,
        SemanticField::DeclarationNumber => 1,
        SemanticField::CompanyCode => 2,
        SemanticField::Sender => 3,
        SemanticField::Recipient => 4,
        SemanticField::ProductCode => 5,
        SemanticField::Description => 6,
        SemanticField::Trademark => 7,
        SemanticField::Country => 8,
        SemanticField::OriginCountry => 9,
        SemanticField::DispatchCountry => 10,
        SemanticField::TradeCountry => 11,
        SemanticField::Quantity => 12,
        SemanticField::NetWeight => 13,
        SemanticField::GrossWeight => 14,
        SemanticField::Value => 15,
        SemanticField::Currency => 16,
        SemanticField::WeightUnit => 17,
    }
}

impl OrderedKey for SemanticField {
    type Model = SemanticField;

    open spec fn model(&self) -> SemanticField {
        *self
    }

    open spec fn below(a: SemanticField, b: SemanticField) -> bool {
        semantic_place(a) < semantic_place(b)
    }

    proof fn below_is_strict(a: SemanticField) {
    }

    proof fn below_chains(a: SemanticField, b: SemanticField, c: SemanticField) {
    }

    fn rank(&self, other: &SemanticField) -> (r: Rank) {
        let a: u8 = place_of_semantic(*self);
        let b: u8 = place_of_semantic(*other);
        if a < b {
            Rank::Below
        } else if a == b {
            Rank::Same
        } else {
            Rank::Above
        }
    }
}

/// The order of texts by their characters.
pub open spec fn text_below(a: Seq<char>, b: Seq<char>) -> bool
    decreases b.len(),
{
    if b.len() == 0 {
        false
    } else if a.len() == 0 {
        true
    } else if a[0] == b[0] {
        text_below(a.drop_first(), b.drop_first())
    } else {
        a[0] < b[0]
    }
}

/// No text lies below itself.
pub proof fn text_below_is_strict(a: Seq<char>)
    ensures
        !text_below(a, a),
    decreases a.len(),
{
    if a.len() > 0 {
        text_below_is_strict(a.drop_first());
    }
}

/// What lies below a text lies below everything above that text.
pub proof fn text_below_chains(a: Seq<char>, b: Seq<char>, c: Seq<char>)
    requires
        text_below(a, b),
        text_below(b, c),
    ensures
        text_below(a, c),
    decreases c.len(),
{
    if a.len() > 0 && b.len() > 0 && c.len() > 0 && a[0] == b[0] && b[0] == c[0] {
        text_below_chains(a.drop_first(), b.drop_first(), c.drop_first());
    }
}

/// Two texts with a common start are ordered by what follows it.
proof fn text_below_past_common_start(a: Seq<char>, b: Seq<char>, n: int)
    requires
        0 <= n <= a.len(),
        n <= b.len(),
        a.take(n) == b.take(n),
    ensures
        text_below(a, b) == text_below(a.skip(n), b.skip(n)),
    decreases n,
{
    if n == 0 {
        assert(a.skip(0) =~= a);
        assert(b.skip(0) =~= b);
    } else {
        assert(a.take(n)[0] == a[0]);
        assert(b.take(n)[0] == b[0]);
        assert(a.drop_first().take(n - 1) =~= a.take(n).drop_first());
        assert(b.drop_first().take(n - 1) =~= b.take(n).drop_first());
        text_below_past_common_start(a.drop_first(), b.drop_first(), n - 1);
        assert(a.drop_first().skip(n - 1) =~= a.skip(n));
        assert(b.drop_first().skip(n - 1) =~= b.skip(n));
    }
}

/// How two texts stand to each other.
pub fn rank_texts(a: &str, b: &str) -> (r: Rank)
    ensures
        match r {
            Rank::Below => text_below(a@, b@),
            Rank::Same => a@ == b@,
            Rank::Above => text_below(b@, a@),
        },
{
    let x = chars_of(a);
    let y = chars_of(b);
    let mut i: usize = 0;
    while i < x.len() && i < y.len() && x[i] == y[i]
        invariant
            i <= x.len(),
            i <= y.len(),
            forall|j: int| 0 <= j < i ==> x@[j] == y@[j],
        decreases x.len() - i,
    {
        i += 1;
    }
    proof {
        assert(x@.take(i as int) =~= y@.take(i as int));
        text_below_past_common_start(x@, y@, i as int);
        text_below_past_common_start(y@, x@, i as int);
        if i == x@.len() && i == y@.len() {
            assert(x@ =~= y@);
        }
    }
    if i == x.len() {
        if i == y.len() {
            Rank::Same
        } else {
            Rank::Below
        }
    } else if i == y.len() {
        Rank::Above
    } else if x[i] < y[i] {
        Rank::Below
    } else {
        Rank::Above
    }
}

impl OrderedKey for String {
    type Model = Seq<char>;

    open spec fn model(&self) -> Seq<char> {
        self@
    }

    open spec fn below(a: Seq<char>, b: Seq<char>) -> bool {
        text_below(a, b)
    }

    proof fn below_is_strict(a: Seq<char>) {
        text_below_is_strict(a);
    }

    proof fn below_chains(a: Seq<char>, b: Seq<char>, c: Seq<char>) {
        text_below_chains(a, b, c);
    }

    fn rank(&self, other: &String) -> (r: Rank) {
        rank_texts(self.as_str(), other.as_str())
    }
}

/// A map whose entries stand in the ascending order of their keys.
#[derive(Clone, Debug)]
pub struct OrderedMap<K, V> {
    pub entries: Vec<(K, V)>,
}

/// The keys ascend.
pub open spec fn ascending<K: OrderedKey, V>(entries: Seq<(K, V)>) -> bool {
    forall|i: int, j: int|
        0 <= i < j < entries.len() ==> K::below(
            (#[trigger] entries[i]).0.model(),
            (#[trigger] entries[j]).0.model(),
        )
}

/// Entry `i` carries the key `k`.
pub open spec fn keyed<K: OrderedKey, V>(entries: Seq<(K, V)>, i: int, k: K::Model) -> bool {
    0 <= i < entries.len() && entries[i].0.model() == k
}

/// Some entry carries the key `k`.
pub open spec fn has_key<K: OrderedKey, V>(entries: Seq<(K, V)>, k: K::Model) -> bool {
    exists|i: int| keyed(entries, i, k)
}

/// What the entries map each key to.
pub open spec fn mapping_of<K: OrderedKey, V>(entries: Seq<(K, V)>) -> Map<K::Model, V> {
    Map::new(
        |k: K::Model| has_key(entries, k),
        |k: K::Model| entries[choose|i: int| keyed(entries, i, k)].1,
    )
}

impl<K: OrderedKey, V> View for OrderedMap<K, V> {
    type V = Map<K::Model, V>;

    open spec fn view(&self) -> Map<K::Model, V> {
        mapping_of(self.entries@)
    }
}

/// Entries with ascending keys give each key the value of the one entry that carries it.
pub proof fn entry_value<K: OrderedKey, V>(entries: Seq<(K, V)>, i: int)
    requires
        ascending(entries),
        0 <= i < entries.len(),
    ensures
        mapping_of(entries).contains_key(entries[i].0.model()),
        mapping_of(entries)[entries[i].0.model()] == entries[i].1,
{
    let k = entries[i].0.model();
    assert(keyed(entries, i, k));
    let j = choose|j: int| keyed(entries, j, k);
    assert(keyed(entries, j, k));
    K::below_is_strict(k);
    if i < j {
        assert(K::below(entries[i].0.model(), entries[j].0.model()));
    } else if j < i {
        assert(K::below(entries[j].0.model(), entries[i].0.model()));
    }
}

impl<K: OrderedKey, V> OrderedMap<K, V> {
    /// The keys ascend.
    pub open spec fn wf(&self) -> bool {
        ascending(self.entries@)
    }

    /// A map without entries.
    pub fn new() -> (r: Self)
        ensures
            r.wf(),
            r@ == Map::<K::Model, V>::empty(),
            r.entries@.len() == 0,
    {
        let r = OrderedMap { entries: Vec::new() };
        assert(r@ =~= Map::<K::Model, V>::empty());
        r
    }

    /// The number of entries.
    pub fn len(&self) -> (r: usize)
        ensures
            r == self.entries@.len(),
    {
        self.entries.len()
    }

    /// Whether there is no entry.
    pub fn is_empty(&self) -> (r: bool)
        ensures
            r == (self.entries@.len() == 0),
            r == (self@ == Map::<K::Model, V>::empty()),
    {
        let r = self.entries.len() == 0;
        proof {
            if r {
                assert(self@ =~= Map::<K::Model, V>::empty());
            } else {
                assert(keyed(self.entries@, 0, self.entries@[0].0.model()));
                assert(self@.contains_key(self.entries@[0].0.model()));
            }
        }
        r
    }

    /// The first place whose key is not below `key`.
    fn seek(&self, key: &K) -> (r: (usize, bool))
        requires
            self.wf(),
        ensures
            r.0 <= self.entries@.len(),
            forall|i: int|
                0 <= i < r.0 ==> K::below(
                    (#[trigger] self.entries@[i]).0.model(),
                    key.model(),
                ),
            forall|i: int|
                r.0 <= i < self.entries@.len() && (r.1 ==> r.0 < i) ==> K::below(
                    key.model(),
                    (#[trigger] self.entries@[i]).0.model(),
                ),
            r.1 ==> keyed(self.entries@, r.0 as int, key.model()),
            r.1 == has_key(self.entries@, key.model()),
    {
        let mut at: usize = 0;
        while at < self.entries.len()
            invariant
                self.wf(),
                at <= self.entries@.len(),
                forall|i: int|
                    0 <= i < at ==> K::below(
                        (#[trigger] self.entries@[i]).0.model(),
                        key.model(),
                    ),
            decreases self.entries.len() - at,
        {
            match self.entries[at].0.rank(key) {
                Rank::Below => {
                    at += 1;
                },
                Rank::Same => {
                    assert(keyed(self.entries@, at as int, key.model()));
                    return (at, true);
                },
                Rank::Above => {
                    proof {
                        assert forall|i: int| at <= i < self.entries@.len() implies K::below(
                            key.model(),
                            (#[trigger] self.entries@[i]).0.model(),
                        ) by {
                            if at < i {
                                K::below_chains(
                                    key.model(),
                                    self.entries@[at as int].0.model(),
                                    self.entries@[i].0.model(),
                                );
                            }
                        }
                        if has_key(self.entries@, key.model()) {
                            let i = choose|i: int| keyed(self.entries@, i, key.model());
                            K::below_is_strict(key.model());
                            assert(keyed(self.entries@, i, key.model()));
                            assert(K::below(key.model(), self.entries@[i].0.model()) || K::below(
                                self.entries@[i].0.model(),
                                key.model(),
                            ));
                        }
                    }
                    return (at, false);
                },
            }
        }
        proof {
            if has_key(self.entries@, key.model()) {
                let i = choose|i: int| keyed(self.entries@, i, key.model());
                K::below_is_strict(key.model());
                assert(keyed(self.entries@, i, key.model()));
                assert(K::below(self.entries@[i].0.model(), key.model()));
            }
        }
        (at, false)
    }

    /// The value of a key.
    pub fn get(&self, key: &K) -> (r: Option<&V>)
        requires
            self.wf(),
        ensures
            match r {
                Some(v) => self@.contains_key(key.model()) && *v == self@[key.model()],
                None => !self@.contains_key(key.model()),
            },
    {
        let (at, found) = self.seek(key);
        if found {
            proof {
                entry_value(self.entries@, at as int);
            }
            Some(&self.entries[at].1)
        } else {
            None
        }
    }

    /// Whether a key has a value.
    pub fn contains_key(&self, key: &K) -> (r: bool)
        requires
            self.wf(),
        ensures
            r == self@.contains_key(key.model()),
    {
        self.seek(key).1
    }

    /// Gives a key a value.
    pub fn insert(&mut self, key: K, value: V)
        requires
            old(self).wf(),
        ensures
            final(self).wf(),
            final(self)@ == old(self)@.insert(key.model(), value),
    {
        let ghost before = self.entries@;
        let (at, found) = self.seek(&key);
        if found {
            self.entries[at] = (key, value);
            let ghost after = self.entries@;
            proof {
                assert(after =~= before.update(at as int, (key, value)));
                assert(ascending(after)) by {
                    assert forall|i: int, j: int| 0 <= i < j < after.len() implies K::below(
                        (#[trigger] after[i]).0.model(),
                        (#[trigger] after[j]).0.model(),
                    ) by {
                        assert(K::below(before[i].0.model(), before[j].0.model()));
                    }
                }
                assert forall|k: K::Model| has_key(after, k) == has_key(before, k) by {
                    if has_key(after, k) {
                        let i = choose|i: int| keyed(after, i, k);
                        assert(keyed(before, i, k));
                    }
                    if has_key(before, k) {
                        let i = choose|i: int| keyed(before, i, k);
                        assert(keyed(after, i, k));
                    }
                }
                assert forall|k: K::Model| has_key(after, k) implies #[trigger] mapping_of(
                    after,
                )[k] == mapping_of(before).insert(key.model(), value)[k] by {
                    let i = choose|i: int| keyed(after, i, k);
                    assert(keyed(after, i, k));
                    entry_value(after, i);
                    entry_value(before, i);
                    if i != at {
                        K::below_is_strict(k);
                        if i < at {
                            assert(K::below(after[i].0.model(), after[at as int].0.model()));
                        } else {
                            assert(K::below(after[at as int].0.model(), after[i].0.model()));
                        }
                    }
                }
                assert(keyed(before, at as int, key.model()));
                assert(mapping_of(after) =~= mapping_of(before).insert(key.model(), value));
            }
        } else {
            self.entries.insert(at, (key, value));
            let ghost after = self.entries@;
            proof {
                assert(after == before.insert(at as int, (key, value)));
                assert(ascending(after)) by {
                    assert forall|i: int, j: int| 0 <= i < j < after.len() implies K::below(
                        (#[trigger] after[i]).0.model(),
                        (#[trigger] after[j]).0.model(),
                    ) by {
                        let a = if i < at {
                            i
                        } else {
                            i - 1
                        };
                        let b = if j < at {
                            j
                        } else {
                            j - 1
                        };
                        if i != at && j != at {
                            assert(K::below(before[a].0.model(), before[b].0.model()));
                        } else if i == at {
                            assert(after[j] == before[b]);
                        } else {
                            assert(after[i] == before[a]);
                        }
                    }
                }
                assert forall|k: K::Model|
                    has_key(after, k) == (has_key(before, k) || k == key.model()) by {
                    if has_key(after, k) {
                        let i = choose|i: int| keyed(after, i, k);
                        assert(keyed(after, i, k));
                        if i < at {
                            assert(keyed(before, i, k));
                        } else if i > at {
                            assert(keyed(before, i - 1, k));
                        }
                    }
                    if has_key(before, k) {
                        let i = choose|i: int| keyed(before, i, k);
                        assert(keyed(before, i, k));
                        if i < at {
                            assert(keyed(after, i, k));
                        } else {
                            assert(keyed(after, i + 1, k));
                        }
                    }
                    if k == key.model() {
                        assert(keyed(after, at as int, k));
                    }
                }
                assert forall|k: K::Model| has_key(after, k) implies #[trigger] mapping_of(
                    after,
                )[k] == mapping_of(before).insert(key.model(), value)[k] by {
                    let i = choose|i: int| keyed(after, i, k);
                    assert(keyed(after, i, k));
                    entry_value(after, i);
                    if i < at {
                        entry_value(before, i);
                        assert(K::below(after[i].0.model(), after[at as int].0.model()));
                        K::below_is_strict(k);
                    } else if i > at {
                        entry_value(before, i - 1);
                        assert(K::below(after[at as int].0.model(), after[i].0.model()));
                        K::below_is_strict(k);
                    }
                }
                assert(mapping_of(after) =~= mapping_of(before).insert(key.model(), value));
            }
        }
    }

    /// Takes a key's value away.
    pub fn remove(&mut self, key: &K)
        requires
            old(self).wf(),
        ensures
            final(self).wf(),
            final(self)@ == old(self)@.remove(key.model()),
    {
        let ghost before = self.entries@;
        let (at, found) = self.seek(key);
        if found {
            self.entries.remove(at);
            let ghost after = self.entries@;
            proof {
                assert(after == before.remove(at as int));
                assert(ascending(after)) by {
                    assert forall|i: int, j: int| 0 <= i < j < after.len() implies K::below(
                        (#[trigger] after[i]).0.model(),
                        (#[trigger] after[j]).0.model(),
                    ) by {
                        let a = if i < at {
                            i
                        } else {
                            i + 1
                        };
                        let b = if j < at {
                            j
                        } else {
                            j + 1
                        };
                        assert(K::below(before[a].0.model(), before[b].0.model()));
                    }
                }
                assert forall|k: K::Model|
                    has_key(after, k) == (has_key(before, k) && k != key.model()) by {
                    K::below_is_strict(k);
                    if has_key(after, k) {
                        let i = choose|i: int| keyed(after, i, k);
                        assert(keyed(after, i, k));
                        if i < at {
                            assert(keyed(before, i, k));
                            assert(K::below(before[i].0.model(), before[at as int].0.model()));
                        } else {
                            assert(keyed(before, i + 1, k));
                            assert(K::below(before[at as int].0.model(), before[i + 1].0.model()));
                        }
                    }
                    if has_key(before, k) && k != key.model() {
                        let i = choose|i: int| keyed(before, i, k);
                        assert(keyed(before, i, k));
                        if i < at {
                            assert(keyed(after, i, k));
                        } else {
                            assert(keyed(after, i - 1, k));
                        }
                    }
                }
                assert forall|k: K::Model| has_key(after, k) implies #[trigger] mapping_of(
                    after,
                )[k] == mapping_of(before)[k] by {
                    let i = choose|i: int| keyed(after, i, k);
                    assert(keyed(after, i, k));
                    entry_value(after, i);
                    if i < at {
                        entry_value(before, i);
                    } else {
                        entry_value(before, i + 1);
                    }
                }
                assert(mapping_of(after) =~= mapping_of(before).remove(key.model()));
            }
        } else {
            assert(self@ =~= old(self)@.remove(key.model()));
        }
    }
}

/// The mapping that a list of pairs gives when they are entered in their order.
pub open spec fn entered<K: OrderedKey, V>(pairs: Seq<(K, V)>) -> Map<K::Model, V>
    decreases pairs.len(),
{
    if pairs.len() == 0 {
        Map::empty()
    } else {
        entered(pairs.drop_last()).insert(pairs.last().0.model(), pairs.last().1)
    }
}

/// Enters a list of pairs in their order: of two with one key the later counts.
pub fn map_of_pairs<K: OrderedKey, V>(pairs: Vec<(K, V)>) -> (r: OrderedMap<K, V>)
    ensures
        r.wf(),
        r@ == entered(pairs@),
{
    let mut rest = pairs;
    let mut r: OrderedMap<K, V> = OrderedMap::new();
    let ghost mut n: int = 0;
    assert(pairs@.take(0) =~= Seq::<(K, V)>::empty());
    assert(pairs@.skip(0) =~= pairs@);
    while rest.len() > 0
        invariant
            0 <= n <= pairs@.len(),
            rest@ == pairs@.skip(n),
            r.wf(),
            r@ == entered(pairs@.take(n)),
        decreases rest.len(),
    {
        let (key, value) = rest.remove(0);
        r.insert(key, value);
        proof {
            assert(pairs@.take(n + 1).drop_last() =~= pairs@.take(n));
            assert(pairs@.take(n + 1).last() == pairs@[n]);
            assert(rest@ =~= pairs@.skip(n + 1));
            n = n + 1;
        }
    }
    assert(pairs@.take(n) =~= pairs@);
    r
}

/// Texts in strictly ascending order: none stands twice.
pub open spec fn texts_ascend(texts: Seq<Seq<char>>) -> bool {
    forall|i: int, j: int|
        0 <= i < j < texts.len() ==> #[trigger] text_below(texts[i], texts[j])
}

/// Puts a text into its place among ascending texts, unless it stands there
/// already.
pub fn insert_text(texts: &mut Vec<String>, s: &str)
    requires
        texts_ascend(views(old(texts)@)),
    ensures
        texts_ascend(views(final(texts)@)),
        forall|t: Seq<char>| #[trigger]
            views(final(texts)@).contains(t) <==> (views(old(texts)@).contains(t) || t == s@),
{
    let ghost before = views(texts@);
    let mut i: usize = 0;
    while i < texts.len()
        invariant
            i <= texts@.len(),
            texts@ == old(texts)@,
            before == views(texts@),
            texts_ascend(before),
            forall|k: int| 0 <= k < i ==> #[trigger] text_below(before[k], s@),
        decreases texts.len() - i,
    {
        assert(before[i as int] == texts@[i as int]@);
        match rank_texts(texts[i].as_str(), s) {
            Rank::Below => {
                i += 1;
            },
            Rank::Same => {
                assert(before.contains(s@));
                return ;
            },
            Rank::Above => {
                let ghost at = i as int;
                texts.insert(i, String::from_str(s));
                let ghost after = views(texts@);
                proof {
                    assert(after =~= before.insert(at, s@));
                    assert forall|a: int, b: int| 0 <= a < b < after.len() implies #[trigger] text_below(
                        after[a],
                        after[b],
                    ) by {
                        if b < at {
                        } else if b == at {
                            assert(text_below(before[a], s@));
                        } else if a < at {
                            assert(text_below(before[a], before[b - 1]));
                        } else if a == at {
                            if b - 1 > at {
                                assert(text_below(before[at], before[b - 1]));
                                text_below_chains(s@, before[at], before[b - 1]);
                            }
                        } else {
                            assert(text_below(before[a - 1], before[b - 1]));
                        }
                    }
                    inserted_among(before, at, s@);
                }
                return ;
            },
        }
    }
    texts.push(String::from_str(s));
    let ghost after = views(texts@);
    proof {
        assert(after =~= before.insert(before.len() as int, s@));
        inserted_among(before, before.len() as int, s@);
        assert forall|a: int, b: int| 0 <= a < b < after.len() implies #[trigger] text_below(
            after[a],
            after[b],
        ) by {
            if b == before.len() {
                assert(text_below(before[a], s@));
            } else {
                assert(text_below(before[a], before[b]));
            }
        }
    }
}

/// What stands in a sequence once something was inserted.
proof fn inserted_among(v: Seq<Seq<char>>, at: int, s: Seq<char>)
    requires
        0 <= at <= v.len(),
    ensures
        forall|t: Seq<char>| #[trigger] v.insert(at, s).contains(t) <==> (v.contains(t) || t == s),
{
    let w = v.insert(at, s);
    assert(w[at] == s);
    assert forall|t: Seq<char>| #[trigger] w.contains(t) <==> (v.contains(t) || t == s) by {
        if v.contains(t) {
            let k = choose|k: int| 0 <= k < v.len() && v[k] == t;
            if k < at {
                assert(w[k] == t);
            } else {
                assert(w[k + 1] == t);
            }
        }
        if w.contains(t) && t != s {
            let k = choose|k: int| 0 <= k < w.len() && w[k] == t;
            if k < at {
                assert(v[k] == t);
            } else {
                assert(v[k - 1] == t);
            }
        }
    }
}

} // verus!
