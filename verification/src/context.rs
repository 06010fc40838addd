//! The rendering context: a flat map from string keys to dynamically typed
//! values, built by merging the parameter layers of a generation run in
//! order, later layers overwriting earlier keys.

use vstd::prelude::*;

use crate::text::str_eq;

verus! {

/// A value a template placeholder can resolve to.
#[derive(Debug)]
pub enum CtxValue {
    /// A plain string.
    Str(String),
    /// A boolean feature toggle.
    Bool(bool),
    /// A nonnegative integer, such as a port.
    Int(u64),
    /// A list of strings, such as build tags.
    StrList(Vec<String>),
}

/// The mathematical shape of a `CtxValue`.
pub enum CtxValueV {
    Str(Seq<char>),
    Bool(bool),
    Int(u64),
    StrList(Seq<Seq<char>>),
}

impl View for CtxValue {
    type V = CtxValueV;

    open spec fn view(&self) -> CtxValueV {
        match self {
            CtxValue::Str(s) => CtxValueV::Str(s@),
            CtxValue::Bool(b) => CtxValueV::Bool(*b),
            CtxValue::Int(n) => CtxValueV::Int(*n),
            CtxValue::StrList(l) => CtxValueV::StrList(l.deep_view()),
        }
    }
}

/// Copies a context value.
pub fn clone_value(v: &CtxValue) -> (r: CtxValue)
    ensures
        r@ == v@,
{
    match v {
        CtxValue::Str(s) => CtxValue::Str(s.clone()),
        CtxValue::Bool(b) => CtxValue::Bool(*b),
        CtxValue::Int(n) => CtxValue::Int(*n),
        CtxValue::StrList(l) => {
            let l2 = l.clone();
            proof {
                assert(l2@ =~= l@);
                assert(l2.deep_view() =~= l.deep_view());
            }
            CtxValue::StrList(l2)
        },
    }
}

/// The map described by an association list, later entries overwriting
/// earlier ones.
spec fn entries_map(s: Seq<(String, CtxValue)>) -> Map<Seq<char>, CtxValueV>
    decreases s.len(),
{
    if s.len() == 0 {
        Map::empty()
    } else {
        entries_map(s.drop_last()).insert(s.last().0@, s.last().1@)
    }
}

/// No two entries share a key.
spec fn unique_keys(s: Seq<(String, CtxValue)>) -> bool {
    forall|i: int, j: int| 0 <= i < j < s.len() ==> (#[trigger] s[i]).0@ != (#[trigger] s[j]).0@
}

proof fn lemma_entries_map_domain(s: Seq<(String, CtxValue)>, k: Seq<char>)
    ensures
        entries_map(s).contains_key(k) <==> exists|i: int|
            0 <= i < s.len() && (#[trigger] s[i]).0@ == k,
    decreases s.len(),
{
    if s.len() > 0 {
        lemma_entries_map_domain(s.drop_last(), k);
        if s.last().0@ == k {
            assert(s[s.len() - 1].0@ == k);
        } else if entries_map(s).contains_key(k) {
            let i = choose|i: int| 0 <= i < s.drop_last().len() && (#[trigger] s.drop_last()[i]).0@
                == k;
            assert(s[i].0@ == k);
        } else {
            assert(forall|i: int| 0 <= i < s.len() - 1 ==> (#[trigger] s[i]).0@
                == s.drop_last()[i].0@);
        }
    }
}

proof fn lemma_entries_map_get(s: Seq<(String, CtxValue)>, i: int)
    requires
        unique_keys(s),
        0 <= i < s.len(),
    ensures
        entries_map(s).contains_key(s[i].0@),
        entries_map(s)[s[i].0@] == s[i].1@,
    decreases s.len(),
{
    if i == s.len() - 1 {
        assert(s[i] == s.last());
    } else {
        assert(forall|a: int, b: int| 0 <= a < b < s.drop_last().len() ==> (
        #[trigger] s.drop_last()[a]).0@ != (#[trigger] s.drop_last()[b]).0@);
        lemma_entries_map_get(s.drop_last(), i);
        assert(s.drop_last()[i] == s[i]);
        assert(s[i].0@ != s.last().0@);
    }
}

proof fn lemma_entries_map_update(s: Seq<(String, CtxValue)>, i: int, p: (String, CtxValue))
    requires
        unique_keys(s),
        0 <= i < s.len(),
        p.0@ == s[i].0@,
    ensures
        entries_map(s.update(i, p)) =~= entries_map(s).insert(p.0@, p.1@),
    decreases s.len(),
{
    if i == s.len() - 1 {
        assert(s.update(i, p).drop_last() =~= s.drop_last());
        assert(s.update(i, p).last() == p);
    } else {
        assert(forall|a: int, b: int| 0 <= a < b < s.drop_last().len() ==> (
        #[trigger] s.drop_last()[a]).0@ != (#[trigger] s.drop_last()[b]).0@);
        assert(s.drop_last()[i] == s[i]);
        lemma_entries_map_update(s.drop_last(), i, p);
        assert(s.update(i, p).drop_last() =~= s.drop_last().update(i, p));
        assert(s.update(i, p).last() == s.last());
        assert(s[i].0@ != s.last().0@);
    }
}

/// The flat key-value context a template is rendered against.
#[derive(Debug)]
pub struct RenderContext {
    entries: Vec<(String, CtxValue)>,
}

impl View for RenderContext {
    type V = Map<Seq<char>, CtxValueV>;

    closed spec fn view(&self) -> Map<Seq<char>, CtxValueV> {
        entries_map(self.entries@)
    }
}

impl RenderContext {
    /// No two stored entries share a key.
    pub closed spec fn wf(&self) -> bool {
        unique_keys(self.entries@)
    }

    /// An empty context.
    pub fn new() -> (r: RenderContext)
        ensures
            r.wf(),
            r@ == Map::<Seq<char>, CtxValueV>::empty(),
    {
        RenderContext { entries: Vec::new() }
    }

    fn find_index(&self, key: &str) -> (r: Option<usize>)
        ensures
            match r {
                Some(i) => i < self.entries@.len() && self.entries@[i as int].0@ == key@,
                None => forall|i: int|
                    0 <= i < self.entries@.len() ==> (#[trigger] self.entries@[i]).0@ != key@,
            },
    {
        let n = self.entries.len();
        let mut i: usize = 0;
        while i < n
            invariant
                0 <= i <= n,
                n == self.entries@.len(),
                forall|j: int| 0 <= j < i ==> (#[trigger] self.entries@[j]).0@ != key@,
            decreases n - i,
        {
            if str_eq(self.entries[i].0.as_str(), key) {
                return Some(i);
            }
            i = i + 1;
        }
        None
    }

    /// Sets `key` to `value`, overwriting an existing binding.
    pub fn insert(&mut self, key: &str, value: CtxValue)
        requires
            old(self).wf(),
        ensures
            final(self).wf(),
            final(self)@ == old(self)@.insert(key@, value@),
    {
        let k = key.to_owned();
        match self.find_index(key) {
            Some(i) => {
                proof {
                    lemma_entries_map_update(self.entries@, i as int, (k, value));
                }
                self.entries.set(i, (k, value));
                proof {
                    assert(forall|a: int, b: int|
                        0 <= a < b < self.entries@.len() ==> (#[trigger] self.entries@[a]).0@ != (
                        #[trigger] self.entries@[b]).0@);
                }
            },
            None => {
                let ghost prev = self.entries@;
                self.entries.push((k, value));
                proof {
                    assert(self.entries@.drop_last() =~= prev);
                    assert(self.entries@.last() == (k, value));
                    assert(forall|a: int, b: int|
                        0 <= a < b < self.entries@.len() - 1 ==> (#[trigger] self.entries@[a]).0@
                            != (#[trigger] self.entries@[b]).0@);
                }
            },
        }
    }

    /// Looks a key up.
    pub fn get(&self, key: &str) -> (r: Option<&CtxValue>)
        requires
            self.wf(),
        ensures
            match r {
                Some(v) => self@.contains_key(key@) && v@ == self@[key@],
                None => !self@.contains_key(key@),
            },
    {
        match self.find_index(key) {
            Some(i) => {
                proof {
                    lemma_entries_map_get(self.entries@, i as int);
                }
                Some(&self.entries[i].1)
            },
            None => {
                proof {
                    lemma_entries_map_domain(self.entries@, key@);
                }
                None
            },
        }
    }

    /// Looks a key up and returns its boolean value, if it has one.
    pub fn get_bool(&self, key: &str) -> (r: Option<bool>)
        requires
            self.wf(),
        ensures
            match r {
                Some(b) => self@.contains_key(key@) && self@[key@] == CtxValueV::Bool(b),
                None => !self@.contains_key(key@) || !(self@[key@] is Bool),
            },
    {
        match self.get(key) {
            Some(CtxValue::Bool(b)) => Some(*b),
            _ => None,
        }
    }

    /// Copies every binding of `other` into `self`; on a shared key the
    /// value of `other` wins.
    pub fn merge(&mut self, other: &RenderContext)
        requires
            old(self).wf(),
        ensures
            final(self).wf(),
            final(self)@ == old(self)@.union_prefer_right(other@),
    {
        let n = other.entries.len();
        let mut i: usize = 0;
        proof {
            assert(self@ =~= old(self)@.union_prefer_right(entries_map(other.entries@.take(0))));
        }
        while i < n
            invariant
                0 <= i <= n,
                n == other.entries@.len(),
                self.wf(),
                self@ == old(self)@.union_prefer_right(entries_map(other.entries@.take(i as int))),
            decreases n - i,
        {
            let entry_key: String = other.entries[i].0.clone();
            let entry_val: CtxValue = clone_value(&other.entries[i].1);
            proof {
                assert(other.entries@.take(i + 1).drop_last() =~= other.entries@.take(i as int));
                assert(other.entries@.take(i + 1).last() == other.entries@[i as int]);
            }
            assert(entry_key@ == other.entries@[i as int].0@);
            assert(entry_val@ == other.entries@[i as int].1@);
            self.insert(entry_key.as_str(), entry_val);
            proof {
                assert(self@ =~= old(self)@.union_prefer_right(
                    entries_map(other.entries@.take(i + 1)),
                ));
            }
            i = i + 1;
        }
        proof {
            assert(other.entries@.take(n as int) =~= other.entries@);
        }
    }
}

/// The map obtained by merging the layers' maps in order, the later
/// overwriting the earlier on a shared key.
pub open spec fn spec_merge_layers(layers: Seq<Map<Seq<char>, CtxValueV>>) -> Map<
    Seq<char>,
    CtxValueV,
>
    decreases layers.len(),
{
    if layers.len() == 0 {
        Map::empty()
    } else {
        spec_merge_layers(layers.drop_last()).union_prefer_right(layers.last())
    }
}

/// Merges an ordered list of layer contexts into one flat context; the
/// last write per key wins, and the merge is total.
pub fn merge_layers(layers: &Vec<RenderContext>) -> (r: RenderContext)
    requires
        forall|i: int| 0 <= i < layers@.len() ==> (#[trigger] layers@[i]).wf(),
    ensures
        r.wf(),
        r@ == spec_merge_layers(layers@.map_values(|c: RenderContext| c@)),
{
    let n = layers.len();
    let mut acc = RenderContext::new();
    let mut i: usize = 0;
    proof {
        assert(layers@.take(0).map_values(|c: RenderContext| c@)
            =~= Seq::<Map<Seq<char>, CtxValueV>>::empty());
    }
    while i < n
        invariant
            0 <= i <= n,
            n == layers@.len(),
            forall|k: int| 0 <= k < n ==> (#[trigger] layers@[k]).wf(),
            acc.wf(),
            acc@ == spec_merge_layers(layers@.take(i as int).map_values(|c: RenderContext| c@)),
        decreases n - i,
    {
        proof {
            let f = |c: RenderContext| c@;
            assert(layers@.take(i + 1).map_values(f).drop_last() =~= layers@.take(
                i as int,
            ).map_values(f));
            assert(layers@.take(i + 1).map_values(f).last() == layers@[i as int]@);
        }
        acc.merge(&layers[i]);
        i = i + 1;
    }
    proof {
        assert(layers@.take(n as int) =~= layers@);
    }
    acc
}

} // verus!
