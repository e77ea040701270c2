//! The registry of icon constants: one entry per name, kept in the order of
//! the names.

use vstd::prelude::*;
use crate::naming::{
    compose_declaration, compose_markup, declaration_text, markup_text, IconWeight,
};
use crate::text::{
    compare_text, lemma_precedes_irreflexive, lemma_precedes_transitive, precedes, Rank,
};

verus! {

/// One constant of the registry: its name, and the weight and tag that its
/// markup is made of.
#[derive(Clone, Debug)]
pub struct IconConstant {
    pub key: String,
    pub weight: IconWeight,
    pub tag: String,
}

/// What an `IconConstant` holds, as mathematical values.
pub ghost struct ConstantModel {
    pub key: Seq<char>,
    pub weight: IconWeight,
    pub tag: Seq<char>,
}

impl View for IconConstant {
    type V = ConstantModel;

    open spec fn view(&self) -> ConstantModel {
        ConstantModel { key: self.key@, weight: self.weight, tag: self.tag@ }
    }
}

impl ConstantModel {
    /// The markup that the constant stands for.
    pub open spec fn markup(self) -> Seq<char> {
        markup_text(self.weight, self.tag)
    }

    /// The line that declares the constant.
    pub open spec fn declaration(self) -> Seq<char> {
        declaration_text(self.key, self.weight, self.tag)
    }
}

impl IconConstant {
    pub fn new(key: String, weight: IconWeight, tag: String) -> (c: IconConstant)
        ensures
            c@ == (ConstantModel { key: key@, weight, tag: tag@ }),
    {
        IconConstant { key, weight, tag }
    }

    /// The markup that the constant stands for.
    pub fn markup(&self) -> (r: String)
        ensures
            r@ == self@.markup(),
    {
        compose_markup(self.weight, self.tag.as_str())
    }

    /// The line that declares the constant.
    pub fn declaration(&self) -> (r: String)
        ensures
            r@ == self@.declaration(),
    {
        compose_declaration(self.key.as_str(), self.weight, self.tag.as_str())
    }
}

/// Whether the names in `s` strictly ascend, so that none occurs twice.
pub open spec fn ascending(s: Seq<ConstantModel>) -> bool {
    forall|i: int, j: int| 0 <= i < j < s.len() ==> precedes(#[trigger] s[i].key, #[trigger] s[j].key)
}

/// Whether `s` holds a constant named `key`.
pub open spec fn has_key(s: Seq<ConstantModel>, key: Seq<char>) -> bool {
    exists|i: int| 0 <= i < s.len() && (#[trigger] s[i]).key == key
}

/// An index at which `s` holds a constant named `key`.
pub open spec fn position_of(s: Seq<ConstantModel>, key: Seq<char>) -> int {
    choose|i: int| 0 <= i < s.len() && (#[trigger] s[i]).key == key
}

/// The constants of `s` by name.
pub open spec fn by_key(s: Seq<ConstantModel>) -> Map<Seq<char>, ConstantModel> {
    Map::new(|key: Seq<char>| has_key(s, key), |key: Seq<char>| s[position_of(s, key)])
}

/// In an ascending sequence a name stands at one index only.
pub proof fn lemma_ascending_distinct(s: Seq<ConstantModel>, i: int, j: int)
    requires
        ascending(s),
        0 <= i < s.len(),
        0 <= j < s.len(),
        s[i].key == s[j].key,
    ensures
        i == j,
{
    lemma_precedes_irreflexive(s[i].key);
}

/// In an ascending sequence every constant is found under its name.
pub proof fn lemma_by_key_at(s: Seq<ConstantModel>, i: int)
    requires
        ascending(s),
        0 <= i < s.len(),
    ensures
        by_key(s).dom().contains(s[i].key),
        by_key(s)[s[i].key] == s[i],
{
    assert(has_key(s, s[i].key));
    lemma_ascending_distinct(s, i, position_of(s, s[i].key));
}

/// Putting a constant into an ascending sequence at the place where its name
/// belongs keeps the sequence ascending and adds the constant under its name.
pub proof fn lemma_insert_at(s: Seq<ConstantModel>, i: int, c: ConstantModel)
    requires
        ascending(s),
        0 <= i <= s.len(),
        forall|j: int| 0 <= j < i ==> precedes((#[trigger] s[j]).key, c.key),
        forall|j: int| i <= j < s.len() ==> precedes(c.key, (#[trigger] s[j]).key),
    ensures
        ascending(s.insert(i, c)),
        by_key(s.insert(i, c)) == by_key(s).insert(c.key, c),
{
    let t = s.insert(i, c);
    assert(t.len() == s.len() + 1);
    assert(t[i] == c);
    assert forall|j: int| 0 <= j < i implies #[trigger] t[j] == s[j] by {}
    assert forall|j: int| i < j < t.len() implies #[trigger] t[j] == s[j - 1] by {}
    assert(ascending(t)) by {
        assert forall|a: int, b: int| 0 <= a < b < t.len() implies precedes(
            #[trigger] t[a].key,
            #[trigger] t[b].key,
        ) by {
            let sa = if a < i { a } else { a - 1 };
            let sb = if b < i { b } else { b - 1 };
            if a == i {
                assert(t[b] == s[sb]);
            } else if b == i {
                assert(t[a] == s[sa]);
            } else {
                assert(t[a] == s[sa]);
                assert(t[b] == s[sb]);
                assert(precedes(s[sa].key, s[sb].key));
            }
        }
    }
    let m = by_key(s).insert(c.key, c);
    assert forall|k: Seq<char>| by_key(t).dom().contains(k) <==> m.dom().contains(k) by {
        if has_key(t, k) {
            let p = position_of(t, k);
            if p < i {
                assert(s[p].key == k);
            } else if p > i {
                assert(s[p - 1].key == k);
            }
        }
        if has_key(s, k) {
            let q = position_of(s, k);
            if q < i {
                assert(t[q].key == k);
            } else {
                assert(t[q + 1].key == k);
            }
        }
        if k == c.key {
            assert(t[i].key == k);
        }
    }
    assert forall|k: Seq<char>| by_key(t).dom().contains(k) implies #[trigger] by_key(t)[k]
        == m[k] by {
        let p = position_of(t, k);
        if k == c.key {
            lemma_ascending_distinct(t, p, i);
        } else {
            let q = position_of(s, k);
            let tq = if q < i { q } else { q + 1 };
            assert(t[tq] == s[q]);
            lemma_ascending_distinct(t, p, tq);
        }
    }
    assert(by_key(t) =~= m);
}

/// Putting a constant in the place of the one that has its name keeps the
/// sequence ascending and leaves the new constant under that name.
pub proof fn lemma_replace_at(s: Seq<ConstantModel>, i: int, c: ConstantModel)
    requires
        ascending(s),
        0 <= i < s.len(),
        s[i].key == c.key,
    ensures
        ascending(s.update(i, c)),
        by_key(s.update(i, c)) == by_key(s).insert(c.key, c),
{
    let t = s.update(i, c);
    assert(ascending(t)) by {
        assert forall|a: int, b: int| 0 <= a < b < t.len() implies precedes(
            #[trigger] t[a].key,
            #[trigger] t[b].key,
        ) by {
            assert(t[a].key == s[a].key);
            assert(t[b].key == s[b].key);
        }
    }
    let m = by_key(s).insert(c.key, c);
    assert forall|k: Seq<char>| by_key(t).dom().contains(k) <==> m.dom().contains(k) by {
        if has_key(t, k) {
            let p = position_of(t, k);
            assert(s[p].key == k);
        }
        if has_key(s, k) {
            let q = position_of(s, k);
            assert(t[q].key == k);
        }
        if k == c.key {
            assert(t[i].key == k);
        }
    }
    assert forall|k: Seq<char>| by_key(t).dom().contains(k) implies #[trigger] by_key(t)[k]
        == m[k] by {
        let p = position_of(t, k);
        if k == c.key {
            lemma_ascending_distinct(t, p, i);
        } else {
            let q = position_of(s, k);
            assert(t[q] == s[q]);
            lemma_ascending_distinct(t, p, q);
        }
    }
    assert(by_key(t) =~= m);
}

/// Without its first constant an ascending sequence is ascending, and holds
/// every constant but that one.
pub proof fn lemma_drop_first(s: Seq<ConstantModel>)
    requires
        ascending(s),
        s.len() > 0,
    ensures
        ascending(s.drop_first()),
        by_key(s.drop_first()) == by_key(s).remove(s[0].key),
{
    let t = s.drop_first();
    assert forall|j: int| 0 <= j < t.len() implies #[trigger] t[j] == s[j + 1] by {}
    assert(ascending(t)) by {
        assert forall|a: int, b: int| 0 <= a < b < t.len() implies precedes(
            #[trigger] t[a].key,
            #[trigger] t[b].key,
        ) by {
            assert(t[a] == s[a + 1]);
            assert(t[b] == s[b + 1]);
        }
    }
    let m = by_key(s).remove(s[0].key);
    assert forall|k: Seq<char>| by_key(t).dom().contains(k) <==> m.dom().contains(k) by {
        if has_key(t, k) {
            let p = position_of(t, k);
            assert(s[p + 1].key == k);
            if k == s[0].key {
                lemma_ascending_distinct(s, 0, p + 1);
            }
        }
        if has_key(s, k) && k != s[0].key {
            let q = position_of(s, k);
            assert(t[q - 1].key == k);
        }
    }
    assert forall|k: Seq<char>| by_key(t).dom().contains(k) implies #[trigger] by_key(t)[k]
        == m[k] by {
        let p = position_of(t, k);
        assert(t[p] == s[p + 1]);
        assert(s[p + 1].key == k);
        let q = position_of(s, k);
        lemma_ascending_distinct(s, p + 1, q);
        if k == s[0].key {
            lemma_ascending_distinct(s, 0, p + 1);
        }
    }
    assert(by_key(t) =~= m);
}

/// An ascending sequence holds as many constants as it has names.
pub proof fn lemma_key_count(s: Seq<ConstantModel>)
    requires
        ascending(s),
    ensures
        by_key(s).dom().finite(),
        by_key(s).dom().len() == s.len(),
    decreases s.len(),
{
    if s.len() == 0 {
        assert(by_key(s).dom() =~= Set::<Seq<char>>::empty());
    } else {
        let t = s.drop_first();
        lemma_drop_first(s);
        lemma_key_count(t);
        lemma_by_key_at(s, 0);
        assert(by_key(s).dom() =~= by_key(t).dom().insert(s[0].key));
    }
}

/// The order of the names leaves one way to write down a registry: two
/// ascending sequences that hold the same constants under the same names are
/// the same sequence.
pub proof fn lemma_ascending_unique(a: Seq<ConstantModel>, b: Seq<ConstantModel>)
    requires
        ascending(a),
        ascending(b),
        by_key(a) == by_key(b),
    ensures
        a == b,
    decreases a.len(),
{
    if a.len() == 0 {
        if b.len() > 0 {
            lemma_by_key_at(b, 0);
            assert(has_key(a, b[0].key));
        }
        assert(a =~= b);
    } else {
        lemma_by_key_at(a, 0);
        assert(has_key(b, a[0].key));
        let j = position_of(b, a[0].key);
        lemma_by_key_at(b, 0);
        assert(has_key(a, b[0].key));
        let i = position_of(a, b[0].key);
        if j > 0 {
            assert(precedes(b[0].key, b[j].key));
            if i == 0 {
                lemma_precedes_irreflexive(a[0].key);
            } else {
                assert(precedes(a[0].key, a[i].key));
                lemma_precedes_transitive(a[0].key, b[0].key, a[0].key);
                lemma_precedes_irreflexive(a[0].key);
            }
        }
        assert(j == 0);
        assert(a[0] == b[0]);
        lemma_drop_first(a);
        lemma_drop_first(b);
        lemma_ascending_unique(a.drop_first(), b.drop_first());
        assert(a =~= seq![a[0]] + a.drop_first());
        assert(b =~= seq![b[0]] + b.drop_first());
    }
}

/// The constants of `registry` in the order of their names.
pub open spec fn in_order(registry: Map<Seq<char>, ConstantModel>) -> Seq<ConstantModel> {
    choose|s: Seq<ConstantModel>| ascending(s) && by_key(s) == registry
}

/// An ascending sequence is the one in the order of the names of what it
/// holds.
pub proof fn lemma_in_order(s: Seq<ConstantModel>)
    requires
        ascending(s),
    ensures
        in_order(by_key(s)) == s,
{
    let t = in_order(by_key(s));
    lemma_ascending_unique(t, s);
}

/// The constants of a registry, each under its name.
pub struct IconRegistry {
    constants: Vec<IconConstant>,
}

impl View for IconRegistry {
    type V = Map<Seq<char>, ConstantModel>;

    /// The constants by name.
    open spec fn view(&self) -> Map<Seq<char>, ConstantModel> {
        by_key(self.entries())
    }
}

impl IconRegistry {
    /// The constants in the order in which the registry holds and writes them.
    pub closed spec fn entries(&self) -> Seq<ConstantModel> {
        self.constants@.map_values(|c: IconConstant| c@)
    }

    /// The invariant of a registry: its constants stand in the order of their
    /// names, and no name occurs twice.
    pub open spec fn wf(&self) -> bool {
        ascending(self.entries())
    }

    /// A registry holds its constants in the order of their names.
    pub proof fn lemma_entries_in_order(&self)
        requires
            self.wf(),
        ensures
            self.entries() == in_order(self@),
    {
        lemma_in_order(self.entries());
    }

    /// A registry without constants.
    pub fn new() -> (r: IconRegistry)
        ensures
            r.wf(),
            r.entries() == Seq::<ConstantModel>::empty(),
            r@ == Map::<Seq<char>, ConstantModel>::empty(),
    {
        let r = IconRegistry { constants: Vec::new() };
        assert(r.entries() =~= Seq::<ConstantModel>::empty());
        assert(r@ =~= Map::<Seq<char>, ConstantModel>::empty());
        r
    }

    /// The number of constants, which is the number of names.
    pub fn len(&self) -> (n: usize)
        ensures
            n == self.entries().len(),
            self.wf() ==> self@.dom().finite() && n == self@.dom().len(),
    {
        proof {
            if self.wf() {
                lemma_key_count(self.entries());
            }
        }
        self.constants.len()
    }

    /// The constant at place `index` in the order of the names.
    pub fn get(&self, index: usize) -> (c: &IconConstant)
        requires
            index < self.entries().len(),
        ensures
            c@ == self.entries()[index as int],
    {
        &self.constants[index]
    }

    /// Where `key` stands or would stand among the names: `Ok` with the index
    /// of the constant of that name, or `Err` with the index at which a
    /// constant of that name would have to be put.
    fn locate(&self, key: &str) -> (r: Result<usize, usize>)
        requires
            self.wf(),
        ensures
            match r {
                Ok(i) => i < self.entries().len() && self.entries()[i as int].key == key@,
                Err(i) => {
                    &&& i <= self.entries().len()
                    &&& forall|j: int| 0 <= j < i ==> precedes(
                        (#[trigger] self.entries()[j]).key,
                        key@,
                    )
                    &&& forall|j: int|
                        i <= j < self.entries().len() ==> precedes(
                            key@,
                            (#[trigger] self.entries()[j]).key,
                        )
                },
            },
    {
        let mut low: usize = 0;
        let mut high: usize = self.constants.len();
        while low < high
            invariant
                self.wf(),
                low <= high <= self.entries().len(),
                self.entries().len() == self.constants.len(),
                forall|j: int| 0 <= j < low ==> precedes((#[trigger] self.entries()[j]).key, key@),
                forall|j: int|
                    high <= j < self.entries().len() ==> precedes(
                        key@,
                        (#[trigger] self.entries()[j]).key,
                    ),
            decreases high - low,
        {
            let middle: usize = low + (high - low) / 2;
            let ghost at = self.entries()[middle as int];
            assert(self.constants[middle as int]@ == at);
            match compare_text(self.constants[middle].key.as_str(), key) {
                Rank::Same => {
                    return Ok(middle);
                },
                Rank::Before => {
                    proof {
                        assert forall|j: int| 0 <= j < middle + 1 implies precedes(
                            (#[trigger] self.entries()[j]).key,
                            key@,
                        ) by {
                            if j < middle {
                                lemma_precedes_transitive(self.entries()[j].key, at.key, key@);
                            }
                        }
                    }
                    low = middle + 1;
                },
                Rank::After => {
                    proof {
                        assert forall|j: int| middle <= j < self.entries().len() implies precedes(
                            key@,
                            (#[trigger] self.entries()[j]).key,
                        ) by {
                            if j > middle {
                                lemma_precedes_transitive(key@, at.key, self.entries()[j].key);
                            }
                        }
                    }
                    high = middle;
                },
            }
        }
        Err(low)
    }

    /// Whether the registry holds a constant named `key`.
    pub fn contains(&self, key: &str) -> (r: bool)
        requires
            self.wf(),
        ensures
            r == self@.dom().contains(key@),
    {
        self.find(key).is_some()
    }

    /// The constant named `key`, if the registry holds one.
    pub fn find(&self, key: &str) -> (r: Option<&IconConstant>)
        requires
            self.wf(),
        ensures
            match r {
                Some(c) => self@.dom().contains(key@) && c@ == self@[key@],
                None => !self@.dom().contains(key@),
            },
    {
        match self.locate(key) {
            Ok(i) => {
                proof {
                    lemma_by_key_at(self.entries(), i as int);
                }
                Some(&self.constants[i])
            },
            Err(i) => {
                proof {
                    if has_key(self.entries(), key@) {
                        let p = position_of(self.entries(), key@);
                        lemma_precedes_irreflexive(key@);
                    }
                }
                None
            },
        }
    }

    /// Puts `constant` under its name. A constant that had the name before
    /// is replaced; all others stay.
    pub fn insert(&mut self, constant: IconConstant)
        requires
            old(self).wf(),
        ensures
            final(self).wf(),
            final(self)@ == old(self)@.insert(constant@.key, constant@),
    {
        let ghost before = self.entries();
        let ghost model = constant@;
        match self.locate(constant.key.as_str()) {
            Ok(i) => {
                self.constants[i] = constant;
                proof {
                    assert(self.entries() =~= before.update(i as int, model));
                    lemma_replace_at(before, i as int, model);
                }
            },
            Err(i) => {
                self.constants.insert(i, constant);
                proof {
                    assert(self.entries() =~= before.insert(i as int, model));
                    lemma_insert_at(before, i as int, model);
                }
            },
        }
    }
}

} // verus!
