use std::collections::HashMap;
use vstd::prelude::*;

use crate::engines::ViewId;
use vstd::std_specs::hash::spec_hash_map_iter;
use vstd::std_specs::iter::IteratorSpec;

verus! {

broadcast use vstd::std_specs::hash::group_hash_axioms;

/// Holds the views of an engine, each under its own identifier.
pub struct ViewManager<V> {
    views: HashMap<ViewId, V>,
}

impl<V> View for ViewManager<V> {
    type V = Map<ViewId, V>;

    closed spec fn view(&self) -> Map<ViewId, V> {
        self.views@
    }
}

/// A listing of the identifiers of `m`: each one exactly once, in some order.
pub open spec fn lists_each_key_once<V>(ids: Seq<ViewId>, m: Map<ViewId, V>) -> bool {
    &&& ids.no_duplicates()
    &&& ids.len() == m.len()
    &&& forall|i: int| 0 <= i < ids.len() ==> m.contains_key(#[trigger] ids[i])
    &&& forall|k: ViewId| m.contains_key(k) ==> #[trigger] ids.contains(k)
}

/// A walk over the entries of `m` that meets each entry once lists each identifier once.
proof fn lemma_walk_lists_keys<V>(m: Map<ViewId, V>, walk: Seq<(&ViewId, &V)>, ids: Seq<ViewId>)
    requires
        m.dom().finite(),
        walk.no_duplicates(),
        walk.len() == m.dom().len(),
        forall|i: int|
            0 <= i < walk.len() ==> m.contains_key(*(#[trigger] walk[i]).0) && m[*walk[i].0]
                == *walk[i].1,
        forall|k: ViewId| m.contains_key(k) ==> walk.contains((&k, &m[k])),
        ids.len() == walk.len(),
        forall|i: int| 0 <= i < ids.len() ==> ids[i] == *walk[i].0,
    ensures
        lists_each_key_once(ids, m),
{
    assert forall|i: int, j: int| 0 <= i < ids.len() && 0 <= j < ids.len() && i != j implies ids[i]
        != ids[j] by {
        if ids[i] == ids[j] {
            assert(walk[i] == walk[j]);
        }
    }
    assert forall|i: int| 0 <= i < ids.len() implies m.contains_key(#[trigger] ids[i]) by {
        assert(m.contains_key(*walk[i].0));
    }
    assert forall|k: ViewId| m.contains_key(k) implies #[trigger] ids.contains(k) by {
        assert(walk.contains((&k, &m[k])));
        let j = choose|j: int| 0 <= j < walk.len() && walk[j] == (&k, &m[k]);
        assert(ids[j] == k);
    }
}

/// Picks a fresh random identifier for a view.
///
/// Calls `rand::random::<usize>()`; nothing is promised of the value, which comes from the
/// thread-local generator.
#[verifier::external_body]
fn random_view_id() -> (id: ViewId) {
    rand::random::<usize>()
}

/// Calls `HashMap::get_mut`: the entry of `id` is handed out for writing, if there is one;
/// whatever is written through it is the entry's new value, and nothing else changes.
#[verifier::external_body]
fn map_get_mut<V>(map: &mut HashMap<ViewId, V>, id: ViewId) -> (found: Option<&mut V>)
    ensures
        match found {
            Some(v) => {
                &&& old(map)@.contains_key(id)
                &&& *v == old(map)@[id]
                &&& final(map)@ == old(map)@.insert(id, *final(v))
            },
            None => {
                &&& !old(map)@.contains_key(id)
                &&& final(map)@ == old(map)@
            },
        },
{
    map.get_mut(&id)
}

/// Calls `HashMap::iter_mut` and collects the pairs: every entry once, each value handed out
/// for writing; the map keeps its keys, and each value becomes what was written through its
/// reference.
#[verifier::external_body]
fn map_iter_mut<V>(map: &mut HashMap<ViewId, V>) -> (items: Vec<(ViewId, &mut V)>)
    ensures
        lists_each_key_once(items@.map_values(|p: (ViewId, &mut V)| p.0), old(map)@),
        forall|i: int|
            0 <= i < items.len() ==> *items[i].1 == old(map)@[#[trigger] items[i].0],
        final(map)@.dom() == old(map)@.dom(),
        forall|i: int|
            0 <= i < items.len() ==> final(map)@[#[trigger] items[i].0] == *final(items[i].1),
{
    map.iter_mut().map(|(id, v)| (*id, v)).collect()
}

/// Law: a view stored by `insert` is what `get` then finds under the identifier it returned,
/// and every other identifier keeps its view.
pub proof fn law_get_after_insert<V>(before: Map<ViewId, V>, after: Map<ViewId, V>, id: ViewId, view: V, other: ViewId)
    requires
        after == before.insert(id, view),
    ensures
        after.contains_key(id),
        after[id] == view,
        other != id ==> (after.contains_key(other) == before.contains_key(other)),
        other != id && before.contains_key(other) ==> after[other] == before[other],
{
}

/// Law: after `remove`, the identifier is no longer held, and every other identifier keeps
/// its view.
pub proof fn law_remove_forgets<V>(before: Map<ViewId, V>, after: Map<ViewId, V>, id: ViewId, other: ViewId)
    requires
        after == before.remove(id),
    ensures
        !after.contains_key(id),
        other != id ==> (after.contains_key(other) == before.contains_key(other)),
        other != id && before.contains_key(other) ==> after[other] == before[other],
{
}

/// Law: removing a view that `insert` just stored under an identifier that was free gives back
/// the views held before, and the removal returns that view.
pub proof fn law_insert_then_remove<V>(before: Map<ViewId, V>, id: ViewId, view: V)
    requires
        !before.contains_key(id),
    ensures
        before.insert(id, view).remove(id) == before,
        before.insert(id, view).contains_key(id) && before.insert(id, view)[id] == view,
{
    assert(before.insert(id, view).remove(id) =~= before);
}

/// Law: `len` counts the views, and `insert` under a free identifier adds exactly one.
pub proof fn law_len_after_insert<V>(before: Map<ViewId, V>, id: ViewId, view: V)
    requires
        before.dom().finite(),
        !before.contains_key(id),
    ensures
        before.insert(id, view).len() == before.len() + 1,
{
}

impl<V> Default for ViewManager<V> {
    fn default() -> (manager: Self)
        ensures
            manager@ == Map::<ViewId, V>::empty(),
    {
        ViewManager { views: HashMap::new() }
    }
}

impl<V> ViewManager<V> {
    /// The views are finitely many.
    pub proof fn lemma_finite(&self)
        ensures
            self@.dom().finite(),
    {
    }

    /// The view stored under `id`, if any.
    pub fn get(&self, id: ViewId) -> (found: Option<&V>)
        ensures
            found == (if self@.contains_key(id) {
                Some(&self@[id])
            } else {
                None
            }),
    {
        self.views.get(&id)
    }

    /// The view stored under `id`, for writing, if any.
    pub fn get_mut(&mut self, id: ViewId) -> (found: Option<&mut V>)
        ensures
            match found {
                Some(v) => {
                    &&& old(self)@.contains_key(id)
                    &&& *v == old(self)@[id]
                    &&& final(self)@ == old(self)@.insert(id, *final(v))
                },
                None => {
                    &&& !old(self)@.contains_key(id)
                    &&& final(self)@ == old(self)@
                },
            },
    {
        map_get_mut(&mut self.views, id)
    }

    /// Stores `view` under a fresh random identifier and returns it.
    ///
    /// Should the random identifier already be in use, its view is replaced.
    pub fn insert(&mut self, view: V) -> (id: ViewId)
        ensures
            final(self)@ == old(self)@.insert(id, view),
    {
        let id = random_view_id();
        self.views.insert(id, view);
        id
    }

    /// Takes out the view stored under `id`, if any.
    pub fn remove(&mut self, id: ViewId) -> (removed: Option<V>)
        ensures
            final(self)@ == old(self)@.remove(id),
            removed == (if old(self)@.contains_key(id) {
                Some(old(self)@[id])
            } else {
                None
            }),
    {
        self.views.remove(&id)
    }

    /// Whether a view is stored under `id`.
    pub fn contains(&self, id: ViewId) -> (present: bool)
        ensures
            present == self@.contains_key(id),
    {
        self.views.contains_key(&id)
    }

    /// The identifiers of all views, each once.
    pub fn keys(&self) -> (ids: Vec<ViewId>)
        ensures
            lists_each_key_once(ids@, self@),
    {
        let pairs = self.iter();
        let mut ids: Vec<ViewId> = Vec::new();
        let mut i: usize = 0;
        while i < pairs.len()
            invariant
                i <= pairs.len(),
                ids.len() == i,
                forall|j: int| 0 <= j < i ==> ids[j] == pairs[j].0,
            decreases pairs.len() - i,
        {
            ids.push(pairs[i].0);
            i = i + 1;
        }
        assert(ids@ =~= pairs@.map_values(|p: (ViewId, &V)| p.0));
        ids
    }

    /// All views, each once, in the order of an identifier listing.
    pub fn values(&self) -> (views: Vec<&V>)
        ensures
            exists|ids: Seq<ViewId>|
                {
                    &&& lists_each_key_once(ids, self@)
                    &&& views.len() == ids.len()
                    &&& forall|i: int| 0 <= i < ids.len() ==> *views[i] == self@[#[trigger] ids[i]]
                },
    {
        let pairs = self.iter();
        let mut views: Vec<&V> = Vec::new();
        let mut i: usize = 0;
        while i < pairs.len()
            invariant
                i <= pairs.len(),
                views.len() == i,
                forall|j: int| 0 <= j < i ==> views[j] == pairs[j].1,
            decreases pairs.len() - i,
        {
            views.push(pairs[i].1);
            i = i + 1;
        }
        let ghost ids = pairs@.map_values(|p: (ViewId, &V)| p.0);
        assert(forall|j: int| 0 <= j < ids.len() ==> *views[j] == self@[#[trigger] ids[j]]);
        views
    }

    /// All views for writing, each once; what is written through each becomes the view's new
    /// value, and the identifiers stay as they were.
    pub fn values_mut(&mut self) -> (views: Vec<&mut V>)
        ensures
            final(self)@.dom() == old(self)@.dom(),
            exists|ids: Seq<ViewId>|
                {
                    &&& lists_each_key_once(ids, old(self)@)
                    &&& views.len() == ids.len()
                    &&& forall|i: int|
                        0 <= i < ids.len() ==> *views[i] == old(self)@[#[trigger] ids[i]]
                            && final(self)@[ids[i]] == *final(views[i])
                },
    {
        let items = self.iter_mut();
        let ghost ids = items@.map_values(|p: (ViewId, &mut V)| p.0);
        let ghost walk = items@;
        let mut views: Vec<&mut V> = Vec::new();
        for pair in it: items.into_iter()
            invariant
                it.seq() == walk,
                views.len() == it.index(),
                forall|j: int|
                    0 <= j < it.index() ==> *views[j] == *walk[j].1 && *final(views[j])
                        == *final(walk[j].1),
        {
            let (_, v) = pair;
            views.push(v);
        }
        views
    }

    /// Every identifier with its view, each once.
    pub fn iter(&self) -> (pairs: Vec<(ViewId, &V)>)
        ensures
            lists_each_key_once(pairs@.map_values(|p: (ViewId, &V)| p.0), self@),
            forall|i: int| 0 <= i < pairs.len() ==> *pairs[i].1 == self@[#[trigger] pairs[i].0],
    {
        let mut pairs: Vec<(ViewId, &V)> = Vec::new();
        let ghost s = spec_hash_map_iter(&self.views).remaining();
        for entry in it: self.views.iter()
            invariant
                it.seq() == s,
                pairs.len() == it.index(),
                forall|j: int| 0 <= j < it.index() ==> pairs[j] == (*s[j].0, s[j].1),
        {
            let (id, view) = entry;
            pairs.push((*id, view));
        }
        proof {
            lemma_walk_lists_keys(self@, s, pairs@.map_values(|p: (ViewId, &V)| p.0));
        }
        pairs
    }

    /// Every identifier with its view for writing, each once; what is written through each
    /// reference becomes that view's new value, and the identifiers stay as they were.
    pub fn iter_mut(&mut self) -> (pairs: Vec<(ViewId, &mut V)>)
        ensures
            final(self)@.dom() == old(self)@.dom(),
            lists_each_key_once(pairs@.map_values(|p: (ViewId, &mut V)| p.0), old(self)@),
            forall|i: int|
                0 <= i < pairs.len() ==> *pairs[i].1 == old(self)@[#[trigger] pairs[i].0]
                    && final(self)@[pairs[i].0] == *final(pairs[i].1),
    {
        map_iter_mut(&mut self.views)
    }

    /// The number of views.
    pub fn len(&self) -> (n: usize)
        ensures
            n == self@.len(),
            self@.dom().finite(),
    {
        self.views.len()
    }
}

} // verus!
