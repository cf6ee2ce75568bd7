//! Blackboards: the key/value stores that behaviors share, one level per tree,
//! each level with the remappings of its subtree's ports to its parent's keys.

use vstd::prelude::*;

verus! {

/// The texts of a list of pairs of strings.
pub open spec fn pairs_view(v: Seq<(String, String)>) -> Seq<(Seq<char>, Seq<char>)> {
    v.map_values(|p: (String, String)| (p.0@, p.1@))
}

/// A copy of a list of pairs of strings.
pub fn copy_pairs(v: &Vec<(String, String)>) -> (r: Vec<(String, String)>)
    ensures
        r@ == v@,
{
    let mut r: Vec<(String, String)> = Vec::new();
    let mut i: usize = 0;
    while i < v.len()
        invariant
            i <= v@.len(),
            r@ == v@.subrange(0, i as int),
        decreases v@.len() - i,
    {
        let p = (v[i].0.clone(), v[i].1.clone());
        r.push(p);
        i = i + 1;
        assert(r@ =~= v@.subrange(0, i as int));
    }
    assert(r@ =~= v@);
    r
}

/// One level of a blackboard.
#[derive(Debug)]
pub struct BlackboardLayer {
    /// whether keys unknown here are looked up in the parent under the same name
    pub auto_remapping: bool,
    /// keys of this level with the parent keys they stand for
    pub remappings: Vec<(String, String)>,
    /// keys of this level with their values
    pub values: Vec<(String, String)>,
}

/// The value of a [`BlackboardLayer`].
pub struct LayerView {
    pub auto_remapping: bool,
    pub remappings: Seq<(Seq<char>, Seq<char>)>,
    pub values: Seq<(Seq<char>, Seq<char>)>,
}

impl View for BlackboardLayer {
    type V = LayerView;

    open spec fn view(&self) -> LayerView {
        LayerView {
            auto_remapping: self.auto_remapping,
            remappings: pairs_view(self.remappings@),
            values: pairs_view(self.values@),
        }
    }
}

/// A level with no entries and no automatic remapping.
pub open spec fn empty_layer() -> LayerView {
    LayerView { auto_remapping: false, remappings: Seq::empty(), values: Seq::empty() }
}

/// The position of the first entry of `key` in `values` from `i` on, if any.
pub open spec fn key_index(values: Seq<(Seq<char>, Seq<char>)>, key: Seq<char>, i: int) -> Option<int>
    decreases values.len() - i,
{
    if i < 0 || i >= values.len() {
        None
    } else if values[i].0 == key {
        Some(i)
    } else {
        key_index(values, key, i + 1)
    }
}

/// `values` with `key` set to `value`: the first entry of that key replaced, or
/// a new entry at the end.
pub open spec fn set_entry(values: Seq<(Seq<char>, Seq<char>)>, key: Seq<char>, value: Seq<char>) -> Seq<
    (Seq<char>, Seq<char>),
> {
    match key_index(values, key, 0) {
        Some(i) => values.update(i, (key, value)),
        None => values.push((key, value)),
    }
}

proof fn lemma_key_index(values: Seq<(Seq<char>, Seq<char>)>, key: Seq<char>, i: int)
    requires
        0 <= i,
    ensures
        match key_index(values, key, i) {
            Some(k) => i <= k < values.len() && values[k].0 == key && forall|j: int| i <= j < k ==> values[j].0 != key,
            None => forall|j: int| i <= j < values.len() ==> values[j].0 != key,
        },
    decreases values.len() - i,
{
    if i < values.len() && values[i].0 != key {
        lemma_key_index(values, key, i + 1);
    }
}

proof fn lemma_key_index_first(values: Seq<(Seq<char>, Seq<char>)>, key: Seq<char>, i: int, k: int)
    requires
        0 <= i <= k < values.len(),
        values[k].0 == key,
        forall|j: int| i <= j < k ==> values[j].0 != key,
    ensures
        key_index(values, key, i) == Some(k),
    decreases k - i,
{
    if i < k {
        lemma_key_index_first(values, key, i + 1, k);
    }
}

/// A key set on a level is read back with the value it was set to.
pub proof fn law_set_then_read(values: Seq<(Seq<char>, Seq<char>)>, key: Seq<char>, value: Seq<char>)
    ensures
        key_index(set_entry(values, key, value), key, 0) matches Some(i) && set_entry(values, key, value)[i].1
            == value,
{
    lemma_key_index(values, key, 0);
    let new = set_entry(values, key, value);
    match key_index(values, key, 0) {
        Some(k) => {
            lemma_key_index_first(new, key, 0, k);
        },
        None => {
            lemma_key_index_first(new, key, 0, values.len() as int);
        },
    }
}

impl BlackboardLayer {
    /// A level with no entries.
    pub fn empty() -> (r: Self)
        ensures
            r@ == empty_layer(),
    {
        let r = BlackboardLayer { auto_remapping: false, remappings: Vec::new(), values: Vec::new() };
        assert(r@.remappings =~= Seq::<(Seq<char>, Seq<char>)>::empty());
        assert(r@.values =~= Seq::<(Seq<char>, Seq<char>)>::empty());
        r
    }

    /// A copy of this level.
    pub fn copy(&self) -> (r: Self)
        ensures
            r@ == self@,
    {
        BlackboardLayer {
            auto_remapping: self.auto_remapping,
            remappings: copy_pairs(&self.remappings),
            values: copy_pairs(&self.values),
        }
    }
}

/// A blackboard: the levels of the enclosing trees, outermost first, and the
/// level of its own tree.
#[derive(Debug)]
pub struct Blackboard {
    /// the levels of the enclosing trees
    pub parents: Vec<BlackboardLayer>,
    /// the level of this tree
    pub own: BlackboardLayer,
}

/// The value of a [`Blackboard`].
pub struct BlackboardView {
    pub parents: Seq<LayerView>,
    pub own: LayerView,
}

impl View for Blackboard {
    type V = BlackboardView;

    open spec fn view(&self) -> BlackboardView {
        BlackboardView { parents: self.parents@.map_values(|l: BlackboardLayer| l@), own: self.own@ }
    }
}

/// A blackboard of its own, without a parent.
pub open spec fn root_blackboard() -> BlackboardView {
    BlackboardView { parents: Seq::empty(), own: empty_layer() }
}

/// A fresh blackboard for a subtree of a tree with blackboard `parent`.
pub open spec fn child_blackboard(parent: BlackboardView) -> BlackboardView {
    BlackboardView { parents: parent.parents.push(parent.own), own: empty_layer() }
}

impl Default for Blackboard {
    fn default() -> (r: Self)
        ensures
            r@ == root_blackboard(),
    {
        let r = Blackboard { parents: Vec::new(), own: BlackboardLayer::empty() };
        assert(r@.parents =~= Seq::<LayerView>::empty());
        r
    }
}

impl Blackboard {
    /// A copy of this blackboard.
    pub fn copy(&self) -> (r: Self)
        ensures
            r@ == self@,
    {
        let mut parents: Vec<BlackboardLayer> = Vec::new();
        let mut i: usize = 0;
        while i < self.parents.len()
            invariant
                i <= self.parents@.len(),
                parents@.len() == i,
                forall|k: int| 0 <= k < i ==> #[trigger] parents@[k]@ == self.parents@[k]@,
            decreases self.parents@.len() - i,
        {
            let l = self.parents[i].copy();
            parents.push(l);
            i = i + 1;
        }
        let r = Blackboard { parents, own: self.own.copy() };
        assert(r@.parents =~= self@.parents);
        r
    }

    /// A blackboard for a subtree, whose parent is `parent`.
    pub fn new(parent: &Blackboard) -> (r: Self)
        ensures
            r@ == child_blackboard(parent@),
    {
        let p = parent.copy();
        let mut parents = p.parents;
        let ghost before = parents@;
        parents.push(p.own);
        assert(parents@.map_values(|l: BlackboardLayer| l@) =~= before.map_values(|l: BlackboardLayer| l@).push(
            parent@.own,
        ));
        Blackboard { parents, own: BlackboardLayer::empty() }
    }

    /// Switch automatic remapping of this blackboard's own keys on or off.
    pub fn enable_auto_remapping(&mut self, value: bool)
        ensures
            final(self)@ == (BlackboardView {
                own: LayerView { auto_remapping: value, ..old(self)@.own },
                ..old(self)@
            }),
    {
        self.own.auto_remapping = value;
    }

    /// Let the key `internal` of this blackboard stand for the key `external` of
    /// its parent.
    pub fn add_subtree_remapping(&mut self, internal: String, external: String)
        ensures
            final(self)@ == (BlackboardView {
                own: LayerView { remappings: old(self)@.own.remappings.push((internal@, external@)), ..old(self)@.own },
                ..old(self)@
            }),
    {
        let ghost before = self.own.remappings@;
        self.own.remappings.push((internal, external));
        assert(pairs_view(self.own.remappings@) =~= pairs_view(before).push((internal@, external@)));
    }

    /// Set the key `key` of this blackboard to `value`.
    pub fn set(&mut self, key: String, value: String)
        ensures
            final(self)@ == (BlackboardView {
                own: LayerView { values: set_entry(old(self)@.own.values, key@, value@), ..old(self)@.own },
                ..old(self)@
            }),
    {
        let ghost before = pairs_view(self.own.values@);
        let mut i: usize = 0;
        while i < self.own.values.len()
            invariant
                i <= self.own.values@.len(),
                before == pairs_view(self.own.values@),
                self@.parents == old(self)@.parents,
                self@.own.auto_remapping == old(self)@.own.auto_remapping,
                self@.own.remappings == old(self)@.own.remappings,
                before == old(self)@.own.values,
                key_index(before, key@, 0) == key_index(before, key@, i as int),
            decreases self.own.values@.len() - i,
        {
            if self.own.values[i].0 == key {
                assert(before[i as int].0 == key@);
                self.own.values.set(i, (key, value));
                proof {
                    assert(pairs_view(self.own.values@) =~= before.update(i as int, (key@, value@)));
                }
                return;
            }
            assert(before[i as int].0 != key@);
            i = i + 1;
        }
        assert(key_index(before, key@, i as int) is None);
        self.own.values.push((key, value));
        assert(pairs_view(self.own.values@) =~= before.push((key@, value@)));
    }
}

} // verus!
