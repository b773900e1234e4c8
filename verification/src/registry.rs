//! The host-owned registries mapping identifiers to lazily initialized
//! values.
//!
//! A [`Registry`] backs one scope: the host keeps one registry per thread
//! for thread-local values and a single shared registry for statics.  Entries
//! are inserted at most once per identifier and never removed except by an
//! explicit reset, so the slot handed out for an entry stays valid — and the
//! entry behind it stays unchanged — for the life of the registry.

use vstd::prelude::*;
use crate::identifier::Identifier;

verus! {

/// One lazy access at the map level: if `k` is already stored the map is
/// left alone, otherwise the initializer's value `v` is bound to `k`.
pub open spec fn get_or_init_map<V>(m: Map<Seq<char>, V>, k: Seq<char>, v: V) -> Map<
    Seq<char>,
    V,
> {
    if m.contains_key(k) {
        m
    } else {
        m.insert(k, v)
    }
}

/// Whether some entry of `s` carries the key `k`.
pub open spec fn seq_has_key<V>(s: Seq<(Seq<char>, V)>, k: Seq<char>) -> bool {
    exists|i: int| 0 <= i < s.len() && (#[trigger] s[i]).0 == k
}

/// Each key occurs in at most one entry.
pub open spec fn unique_keys<V>(s: Seq<(Seq<char>, V)>) -> bool {
    forall|i: int, j: int|
        0 <= i < j < s.len() ==> (#[trigger] s[i]).0 != (#[trigger] s[j]).0
}

/// One lazy access at the entry level: entries are only ever appended, never
/// replaced or moved, so every slot handed out earlier keeps its entry.
pub open spec fn get_or_init_seq<V>(s: Seq<(Seq<char>, V)>, k: Seq<char>, v: V) -> Seq<
    (Seq<char>, V),
> {
    if seq_has_key(s, k) {
        s
    } else {
        s.push((k, v))
    }
}

/// The map stored by a sequence of entries, later entries taking precedence
/// (with unique keys the order cannot matter).
pub open spec fn seq_to_map<V>(s: Seq<(Seq<char>, V)>) -> Map<Seq<char>, V>
    decreases s.len(),
{
    if s.len() == 0 {
        Map::empty()
    } else {
        seq_to_map(s.drop_last()).insert(s.last().0, s.last().1)
    }
}

proof fn lemma_seq_to_map_push<V>(s: Seq<(Seq<char>, V)>, p: (Seq<char>, V))
    ensures
        seq_to_map(s.push(p)) == seq_to_map(s).insert(p.0, p.1),
{
    assert(s.push(p).drop_last() =~= s);
    assert(s.push(p).last() == p);
}

proof fn lemma_seq_to_map_contains<V>(s: Seq<(Seq<char>, V)>, k: Seq<char>)
    ensures
        seq_to_map(s).contains_key(k) <==> seq_has_key(s, k),
    decreases s.len(),
{
    if s.len() > 0 {
        lemma_seq_to_map_contains(s.drop_last(), k);
        if s.last().0 == k {
            assert((s[s.len() - 1]).0 == k);
        } else {
            if seq_has_key(s, k) {
                let i = choose|i: int| 0 <= i < s.len() && (#[trigger] s[i]).0 == k;
                assert((s.drop_last()[i]).0 == k);
            }
            if seq_has_key(s.drop_last(), k) {
                let i = choose|i: int|
                    0 <= i < s.drop_last().len() && (#[trigger] s.drop_last()[i]).0 == k;
                assert((s[i]).0 == k);
            }
        }
    }
}

proof fn lemma_seq_to_map_index<V>(s: Seq<(Seq<char>, V)>, k: Seq<char>, i: int)
    requires
        unique_keys(s),
        0 <= i < s.len(),
        s[i].0 == k,
    ensures
        seq_to_map(s).contains_key(k),
        seq_to_map(s)[k] == s[i].1,
    decreases s.len(),
{
    if i < s.len() - 1 {
        assert(s.last().0 != k);
        assert(unique_keys(s.drop_last())) by {
            assert(forall|a: int, b: int|
                0 <= a < b < s.drop_last().len() ==> (#[trigger] s.drop_last()[a]).0 != (
                #[trigger] s.drop_last()[b]).0) by {
                assert(forall|a: int|
                    0 <= a < s.drop_last().len() ==> #[trigger] s.drop_last()[a] == s[a]);
            }
        }
        assert(s.drop_last()[i] == s[i]);
        lemma_seq_to_map_index(s.drop_last(), k, i);
    }
}

/// A registry for one scope: a map from identifier to stored value, filled
/// lazily, first access per identifier winning.
///
/// Entries live in insertion order and are only ever appended; the `usize`
/// slot returned by [`Registry::get_or_init`] plays the role of the stable
/// address the host hands back across the boundary.
pub struct Registry<V> {
    entries: Vec<(Identifier, V)>,
}

impl<V> View for Registry<V> {
    type V = Map<Seq<char>, V>;

    closed spec fn view(&self) -> Map<Seq<char>, V> {
        seq_to_map(self.entry_seq())
    }
}

impl<V> Registry<V> {
    /// The stored entries in insertion order, each key as its string.
    pub closed spec fn entry_seq(self) -> Seq<(Seq<char>, V)> {
        self.entries@.map_values(|e: (Identifier, V)| (e.0@, e.1))
    }

    /// Well-formed: no identifier is stored twice.
    pub open spec fn wf(self) -> bool {
        unique_keys(self.entry_seq())
    }

    /// An empty registry.
    pub fn new() -> (r: Self)
        ensures
            r.wf(),
            r.entry_seq() == Seq::<(Seq<char>, V)>::empty(),
            r@ == Map::<Seq<char>, V>::empty(),
    {
        let r = Registry { entries: Vec::new() };
        proof {
            assert(r.entry_seq() =~= Seq::<(Seq<char>, V)>::empty());
        }
        r
    }

    /// Finds the slot already holding `id`, if any.
    fn find(&self, id: &Identifier) -> (r: Option<usize>)
        ensures
            match r {
                Some(i) => i < self.entry_seq().len() && self.entry_seq()[i as int].0 == id@,
                None => !seq_has_key(self.entry_seq(), id@),
            },
    {
        let mut i: usize = 0;
        while i < self.entries.len()
            invariant
                i <= self.entries.len(),
                self.entries.len() == self.entry_seq().len(),
                forall|j: int| 0 <= j < i ==> (#[trigger] self.entry_seq()[j]).0 != id@,
            decreases self.entries.len() - i,
        {
            if self.entries[i].0 == *id {
                return Some(i);
            }
            i += 1;
        }
        None
    }

    /// How many values the registry currently stores.
    pub fn entry_count(&self) -> (n: usize)
        ensures
            n == self.entry_seq().len(),
    {
        self.entries.len()
    }

    /// Whether `id` has been initialized in this registry.
    pub fn contains(&self, id: &Identifier) -> (r: bool)
        ensures
            r == self@.contains_key(id@),
    {
        proof {
            lemma_seq_to_map_contains(self.entry_seq(), id@);
        }
        match self.find(id) {
            Some(_) => true,
            None => false,
        }
    }

    /// Looks up `id`, running `init` and storing its value only when `id` is
    /// absent, and returns the slot of the entry.
    ///
    /// This is the heart of the storage contract.  The slot is stable: a
    /// later access of the same identifier returns the same slot, and no
    /// later access of any identifier moves or replaces the entry behind it.
    /// A caller that keeps the slot keeps the value, for the life of the
    /// registry.
    pub fn get_or_init<F: FnOnce() -> V>(&mut self, id: &Identifier, init: F) -> (slot: usize)
        requires
            old(self).wf(),
            !old(self)@.contains_key(id@) ==> call_requires(init, ()),
        ensures
            final(self).wf(),
            slot < final(self).entry_seq().len(),
            final(self).entry_seq()[slot as int].0 == id@,
            final(self).entry_seq() == get_or_init_seq(
                old(self).entry_seq(),
                id@,
                final(self).entry_seq()[slot as int].1,
            ),
            final(self)@ == get_or_init_map(
                old(self)@,
                id@,
                final(self).entry_seq()[slot as int].1,
            ),
            final(self)@.contains_key(id@),
            final(self)@[id@] == final(self).entry_seq()[slot as int].1,
            old(self)@.contains_key(id@) ==> *final(self) == *old(self),
            !old(self)@.contains_key(id@) ==> slot == old(self).entry_seq().len()
                && call_ensures(init, (), final(self).entry_seq()[slot as int].1),
    {
        proof {
            lemma_seq_to_map_contains(old(self).entry_seq(), id@);
        }
        match self.find(id) {
            Some(i) => {
                proof {
                    lemma_seq_to_map_index(self.entry_seq(), id@, i as int);
                }
                i
            },
            None => {
                let v = init();
                let key = id.clone();
                self.entries.push((key, v));
                let slot = self.entries.len() - 1;
                proof {
                    let s_old = old(self).entry_seq();
                    let s_new = self.entry_seq();
                    assert(s_new =~= s_old.push((id@, s_new[slot as int].1)));
                    lemma_seq_to_map_push(s_old, (id@, s_new[slot as int].1));
                    assert(unique_keys(s_new));
                    lemma_seq_to_map_index(s_new, id@, slot as int);
                }
                slot
            },
        }
    }

    /// Reads the value stored in `slot`.
    pub fn read(&self, slot: usize) -> (v: &V)
        requires
            slot < self.entry_seq().len(),
        ensures
            *v == self.entry_seq()[slot as int].1,
    {
        &self.entries[slot].1
    }

    /// Removes every entry, returning the registry to its initial state.
    ///
    /// Slots handed out earlier are not valid afterwards; the next access of
    /// any identifier runs its initializer again.
    pub fn clear(&mut self)
        ensures
            final(self).wf(),
            final(self).entry_seq() == Seq::<(Seq<char>, V)>::empty(),
            final(self)@ == Map::<Seq<char>, V>::empty(),
    {
        self.entries.clear();
        proof {
            assert(self.entry_seq() =~= Seq::<(Seq<char>, V)>::empty());
        }
    }
}

/// Clears the calling thread's thread-local registry and the process-wide
/// static registry entirely, as if no value had yet been accessed.
pub fn reset<V>(tls: &mut Registry<V>, statics: &mut Registry<V>)
    ensures
        final(tls).wf(),
        final(tls).entry_seq() == Seq::<(Seq<char>, V)>::empty(),
        final(tls)@ == Map::<Seq<char>, V>::empty(),
        final(statics).wf(),
        final(statics).entry_seq() == Seq::<(Seq<char>, V)>::empty(),
        final(statics)@ == Map::<Seq<char>, V>::empty(),
{
    tls.clear();
    statics.clear();
}

/// Law: values stored under distinct identifiers are independent.  An access
/// of `k2` neither changes whether `k1` is stored nor which value it holds.
pub proof fn lemma_distinct_keys_independent<V>(
    m: Map<Seq<char>, V>,
    k1: Seq<char>,
    k2: Seq<char>,
    v: V,
)
    requires
        k1 != k2,
    ensures
        get_or_init_map(m, k2, v).contains_key(k1) == m.contains_key(k1),
        m.contains_key(k1) ==> get_or_init_map(m, k2, v)[k1] == m[k1],
{
}

/// Law: accesses after the first are idempotent.  Once `k` is stored, a
/// repeated access leaves the registry untouched and observes the value the
/// first access stored, whatever value a later initializer would produce.
pub proof fn lemma_repeated_access_idempotent<V>(m: Map<Seq<char>, V>, k: Seq<char>, v1: V, v2: V)
    ensures
        get_or_init_map(get_or_init_map(m, k, v1), k, v2) == get_or_init_map(m, k, v1),
        get_or_init_map(m, k, v1).contains_key(k),
        get_or_init_map(m, k, v1)[k] == if m.contains_key(k) {
            m[k]
        } else {
            v1
        },
{
}

/// Law: an access of an identifier the registry does not yet hold runs the
/// initializer and stores exactly its value.  This is what a fresh thread's
/// registry does for a thread-local value another thread already holds, and
/// what any registry does again after a reset.
pub proof fn lemma_fresh_access_runs_initializer<V>(m: Map<Seq<char>, V>, k: Seq<char>, v: V)
    requires
        !m.contains_key(k),
    ensures
        get_or_init_map(m, k, v) == m.insert(k, v),
        get_or_init_map(m, k, v)[k] == v,
{
}

/// Law: slots are stable.  An access of any identifier leaves every entry
/// already stored in place, so a slot handed out earlier still names the
/// same key and value afterwards.
pub proof fn lemma_slot_stable<V>(s: Seq<(Seq<char>, V)>, k: Seq<char>, v: V, i: int)
    requires
        0 <= i < s.len(),
    ensures
        i < get_or_init_seq(s, k, v).len(),
        get_or_init_seq(s, k, v)[i] == s[i],
{
}

/// The map after a run of lazy accesses of `k`, one stored value candidate
/// per access, in the order the accesses acquired the registry's lock.
pub open spec fn run_accesses<V>(m: Map<Seq<char>, V>, k: Seq<char>, vs: Seq<V>) -> Map<
    Seq<char>,
    V,
>
    decreases vs.len(),
{
    if vs.len() == 0 {
        m
    } else {
        get_or_init_map(run_accesses(m, k, vs.drop_last()), k, vs.last())
    }
}

/// Law: under a concurrent first access, one initializer wins.  However many
/// accesses of a fresh identifier are serialized by the registry's lock, the
/// value stored is the one produced under the first acquisition, every later
/// candidate is discarded, and every access observes that same value.
pub proof fn lemma_first_init_wins<V>(m: Map<Seq<char>, V>, k: Seq<char>, vs: Seq<V>)
    requires
        !m.contains_key(k),
        vs.len() > 0,
    ensures
        run_accesses(m, k, vs) == m.insert(k, vs[0]),
        run_accesses(m, k, vs)[k] == vs[0],
    decreases vs.len(),
{
    if vs.len() == 1 {
        assert(vs.drop_last().len() == 0);
        assert(run_accesses(m, k, vs.drop_last()) == m);
        assert(vs.last() == vs[0]);
        assert(run_accesses(m, k, vs) == get_or_init_map(m, k, vs[0]));
    } else {
        lemma_first_init_wins(m, k, vs.drop_last());
        assert(vs.drop_last()[0] == vs[0]);
        assert(run_accesses(m, k, vs) == get_or_init_map(
            run_accesses(m, k, vs.drop_last()),
            k,
            vs.last(),
        ));
        assert(m.insert(k, vs[0]).contains_key(k));
    }
}

} // verus!
