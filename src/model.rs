use vstd::prelude::*;
use vstd::string::*;

use crate::text::{same_text, views};

verus! {

/// The pairs of a file map, as text.
pub open spec fn pair_views(v: Seq<(String, String)>) -> Seq<(Seq<char>, Seq<char>)> {
    v.map_values(|p: (String, String)| (p.0@, p.1@))
}

/// The map that a list of pairs stands for: a later pair wins over an
/// earlier one with the same key.
pub open spec fn map_of(s: Seq<(Seq<char>, Seq<char>)>) -> Map<Seq<char>, Seq<char>>
    decreases s.len(),
{
    if s.len() == 0 {
        Map::empty()
    } else {
        map_of(s.drop_last()).insert(s.last().0, s.last().1)
    }
}

/// No key occurs twice.
pub open spec fn keys_unique(s: Seq<(Seq<char>, Seq<char>)>) -> bool {
    forall|i: int, j: int| 0 <= i < j < s.len() ==> s[i].0 != s[j].0
}

proof fn lemma_map_of_update(s: Seq<(Seq<char>, Seq<char>)>, i: int, v: Seq<char>)
    requires
        keys_unique(s),
        0 <= i < s.len(),
    ensures
        map_of(s.update(i, (s[i].0, v))) == map_of(s).insert(s[i].0, v),
    decreases s.len(),
{
    let t = s.update(i, (s[i].0, v));
    if i == s.len() - 1 {
        assert(t.drop_last() =~= s.drop_last());
        assert(map_of(t) =~= map_of(s).insert(s[i].0, v));
    } else {
        assert(t.drop_last() =~= s.drop_last().update(i, (s[i].0, v)));
        lemma_map_of_update(s.drop_last(), i, v);
        assert(s.last().0 != s[i].0);
        assert(map_of(t) =~= map_of(s).insert(s[i].0, v));
    }
}

/// Output files, each path with the identifier of the template that fills it.
/// A path occurs at most once.
pub struct FileMap {
    pub entries: Vec<(String, String)>,
}

impl View for FileMap {
    type V = Map<Seq<char>, Seq<char>>;

    open spec fn view(&self) -> Map<Seq<char>, Seq<char>> {
        map_of(pair_views(self.entries@))
    }
}

impl FileMap {
    /// Each path occurs once.
    pub open spec fn wf(&self) -> bool {
        keys_unique(pair_views(self.entries@))
    }

    /// An empty map.
    pub fn new() -> (r: FileMap)
        ensures
            r.wf(),
            r@ == Map::<Seq<char>, Seq<char>>::empty(),
            r.entries@.len() == 0,
    {
        let r = FileMap { entries: Vec::new() };
        proof {
            assert(pair_views(r.entries@) =~= seq![]);
        }
        r
    }

    /// Maps `path` to `template`, in place of what it was mapped to before.
    pub fn insert(&mut self, path: String, template: String)
        requires
            old(self).wf(),
        ensures
            final(self).wf(),
            final(self)@ == old(self)@.insert(path@, template@),
    {
        let ghost before = pair_views(self.entries@);
        let ghost key: Seq<char> = path.view();
        let ghost val: Seq<char> = template.view();
        assert(old(self)@ == map_of(before));
        let mut i: usize = 0;
        while i < self.entries.len()
            invariant
                i <= self.entries.len(),
                pair_views(self.entries@) == before,
                keys_unique(before),
                key == path@,
                val == template@,
                old(self)@ == map_of(before),
                forall|j: int| 0 <= j < i ==> before[j].0 != key,
            decreases self.entries.len() - i,
        {
            if same_text(self.entries[i].0.as_str(), path.as_str()) {
                let k = self.entries[i].0.clone();
                self.entries.set(i, (k, template));
                proof {
                    assert(pair_views(self.entries@) =~= before.update(
                        i as int,
                        (before[i as int].0, template@),
                    ));
                    lemma_map_of_update(before, i as int, template@);
                    assert(keys_unique(pair_views(self.entries@)));
                    assert(self@ == map_of(before).insert(key, val));
                }
                return;
            }
            i = i + 1;
        }
        self.entries.push((path, template));
        proof {
            let after = pair_views(self.entries@);
            assert(after.drop_last() =~= before);
            assert(after.last() == (key, val));
            assert forall|a: int, b: int| 0 <= a < b < after.len() implies after[a].0
                != after[b].0 by {
                if b == after.len() - 1 {
                    assert(after[a] == before[a]);
                    assert(before[a].0 != key);
                } else {
                    assert(after[a] == before[a]);
                    assert(after[b] == before[b]);
                }
            }
        }
    }
}

/// A value that a template reads: a text, a list of texts, or nothing.
pub enum Scalar {
    Text(String),
    Lines(Vec<String>),
    Nothing,
}

/// A value of the render context: a scalar, or a record of named scalars.
pub enum CtxValue {
    Plain(Scalar),
    Record(Vec<(String, Scalar)>),
}

/// What a `Scalar` holds.
pub enum ScalarModel {
    Text(Seq<char>),
    Lines(Seq<Seq<char>>),
    Nothing,
}

/// What a `CtxValue` holds.
pub enum ValueModel {
    Plain(ScalarModel),
    Record(Seq<(Seq<char>, ScalarModel)>),
}

impl View for Scalar {
    type V = ScalarModel;

    open spec fn view(&self) -> ScalarModel {
        match self {
            Scalar::Text(s) => ScalarModel::Text(s@),
            Scalar::Lines(v) => ScalarModel::Lines(views(v@)),
            Scalar::Nothing => ScalarModel::Nothing,
        }
    }
}

/// The fields of a record, as models.
pub open spec fn field_views(v: Seq<(String, Scalar)>) -> Seq<(Seq<char>, ScalarModel)> {
    v.map_values(|p: (String, Scalar)| (p.0@, p.1@))
}

impl View for CtxValue {
    type V = ValueModel;

    open spec fn view(&self) -> ValueModel {
        match self {
            CtxValue::Plain(s) => ValueModel::Plain(s@),
            CtxValue::Record(fields) => ValueModel::Record(field_views(fields@)),
        }
    }
}

/// The model of a text entry of the context.
pub open spec fn text_entry(key: Seq<char>, value: Seq<char>) -> (Seq<char>, ValueModel) {
    (key, ValueModel::Plain(ScalarModel::Text(value)))
}

/// The entries of a context, as models.
pub open spec fn entry_views(v: Seq<(String, CtxValue)>) -> Seq<(Seq<char>, ValueModel)> {
    v.map_values(|p: (String, CtxValue)| (p.0@, p.1@))
}

/// The values that every template of one project is rendered against, in
/// the order in which they were added.
pub struct Context {
    pub entries: Vec<(String, CtxValue)>,
}

impl View for Context {
    type V = Seq<(Seq<char>, ValueModel)>;

    open spec fn view(&self) -> Seq<(Seq<char>, ValueModel)> {
        entry_views(self.entries@)
    }
}

impl Context {
    /// An empty context.
    pub fn new() -> (r: Context)
        ensures
            r@ == Seq::<(Seq<char>, ValueModel)>::empty(),
    {
        let r = Context { entries: Vec::new() };
        proof {
            assert(r@ =~= seq![]);
        }
        r
    }

    /// Adds `value` under `key`.
    pub fn push(&mut self, key: &str, value: CtxValue)
        ensures
            final(self)@ == old(self)@.push((key@, value@)),
    {
        self.entries.push((String::from_str(key), value));
        proof {
            assert(final(self)@ =~= old(self)@.push((key@, value@)));
        }
    }

    /// Adds the text `value` under `key`.
    pub fn push_text(&mut self, key: &str, value: &str)
        ensures
            final(self)@ == old(self)@.push(text_entry(key@, value@)),
    {
        self.push(key, CtxValue::Plain(Scalar::Text(String::from_str(value))));
    }

    /// The text stored under `key`, or nothing where the first entry of that
    /// key holds no text, or no entry has it.
    pub fn text_of(&self, key: &str) -> (r: Scalar)
        ensures
            r@ == text_in(self@, key@),
    {
        let mut i: usize = 0;
        while i < self.entries.len()
            invariant
                i <= self.entries.len(),
                forall|j: int| 0 <= j < i ==> self@[j].0 != key@,
            decreases self.entries.len() - i,
        {
            if same_text(self.entries[i].0.as_str(), key) {
                proof {
                    assert(first_key_index(self@, key@) == i as int) by {
                        lemma_first_key_index(self@, key@, i as int);
                    }
                }
                match &self.entries[i].1 {
                    CtxValue::Plain(Scalar::Text(s)) => {
                        return Scalar::Text(s.clone());
                    },
                    _ => {
                        return Scalar::Nothing;
                    },
                }
            }
            i = i + 1;
        }
        proof {
            lemma_first_key_index_none(self@, key@);
        }
        Scalar::Nothing
    }
}

/// The index of the first entry under `key`, or the length where there is none.
pub open spec fn first_key_index(s: Seq<(Seq<char>, ValueModel)>, key: Seq<char>) -> int
    decreases s.len(),
{
    if s.len() == 0 {
        0
    } else if s[0].0 == key {
        0
    } else {
        1 + first_key_index(s.drop_first(), key)
    }
}

/// What a template finds under `key`: the text of the first entry of that
/// key, or nothing.
pub open spec fn text_in(s: Seq<(Seq<char>, ValueModel)>, key: Seq<char>) -> ScalarModel {
    let i = first_key_index(s, key);
    if i < s.len() {
        match s[i].1 {
            ValueModel::Plain(ScalarModel::Text(t)) => ScalarModel::Text(t),
            _ => ScalarModel::Nothing,
        }
    } else {
        ScalarModel::Nothing
    }
}

proof fn lemma_first_key_index(s: Seq<(Seq<char>, ValueModel)>, key: Seq<char>, i: int)
    requires
        0 <= i < s.len(),
        s[i].0 == key,
        forall|j: int| 0 <= j < i ==> s[j].0 != key,
    ensures
        first_key_index(s, key) == i,
    decreases i,
{
    if i > 0 {
        lemma_first_key_index(s.drop_first(), key, i - 1);
    }
}

proof fn lemma_first_key_index_none(s: Seq<(Seq<char>, ValueModel)>, key: Seq<char>)
    requires
        forall|j: int| 0 <= j < s.len() ==> s[j].0 != key,
    ensures
        first_key_index(s, key) == s.len(),
    decreases s.len(),
{
    if s.len() > 0 {
        lemma_first_key_index_none(s.drop_first(), key);
    }
}

} // verus!

verus! {

/// A key is in the map of a list of pairs exactly where some pair has it.
pub proof fn lemma_map_of_dom(s: Seq<(Seq<char>, Seq<char>)>, k: Seq<char>)
    ensures
        map_of(s).dom().contains(k) <==> exists|i: int| 0 <= i < s.len() && #[trigger] s[i].0 == k,
    decreases s.len(),
{
    if s.len() > 0 {
        lemma_map_of_dom(s.drop_last(), k);
        if map_of(s).dom().contains(k) && s.last().0 != k {
            let i = choose|i: int| 0 <= i < s.drop_last().len() && #[trigger] s.drop_last()[i].0 == k;
            assert(s[i].0 == k);
        }
        if exists|i: int| 0 <= i < s.len() && #[trigger] s[i].0 == k {
            let i = choose|i: int| 0 <= i < s.len() && #[trigger] s[i].0 == k;
            if i < s.len() - 1 {
                assert(s.drop_last()[i].0 == k);
            }
        }
    }
}

} // verus!

verus! {

/// Where no key repeats, each pair's key maps to that pair's value.
pub proof fn lemma_map_of_index(s: Seq<(Seq<char>, Seq<char>)>, i: int)
    requires
        keys_unique(s),
        0 <= i < s.len(),
    ensures
        map_of(s).dom().contains(s[i].0),
        map_of(s)[s[i].0] == s[i].1,
    decreases s.len(),
{
    if i < s.len() - 1 {
        let t = s.drop_last();
        assert(t[i] == s[i]);
        assert(keys_unique(t)) by {
            assert forall|a: int, b: int| 0 <= a < b < t.len() implies t[a].0 != t[b].0 by {
                assert(t[a] == s[a] && t[b] == s[b]);
            }
        }
        lemma_map_of_index(t, i);
        assert(s.last().0 != s[i].0);
    }
}

} // verus!
