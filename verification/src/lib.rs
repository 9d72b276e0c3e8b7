//! A helper for defining mutually recursive proptest strategies: a
//! type-keyed, memoizing, structurally shared registry of strategies, and a
//! bounded-recursion combinator that unrolls a recursion step into a finite
//! chain of depth-calibrated weighted choices.

pub mod recursive;
pub mod strategy;

use vstd::prelude::*;

use crate::recursive::Shape;
use crate::recursive::branch_weights;
use crate::recursive::layered;
use crate::recursive::lemma_weight_seq_clamped;
use crate::recursive::weight_seq;
use crate::strategy::RawEntry;
use crate::strategy::Strat;
use crate::strategy::raw_dup;

verus! {

#[verifier::external_type_specification]
#[verifier::external_body]
#[verifier::reject_recursive_types(K)]
#[verifier::reject_recursive_types(V)]
#[verifier::reject_recursive_types(S)]
pub struct ExImHashMap<K, V, S>(im::HashMap<K, V, S>);

/// The persistent index map: type key to slot number.
type KeyIndex = im::HashMap<u64, u64>;

/// What the persistent index map holds: its entries, as a map from type key
/// to slot number.
pub uninterp spec fn im_map_entries(m: KeyIndex) -> Map<u64, u64>;

/// The contents of a registry with nothing stored.
pub open spec fn empty_key_index() -> Map<u64, u64> {
    Map::empty()
}

/// Relies on `im::HashMap::new`: an empty persistent map.
#[verifier::external_body]
fn im_new() -> (r: KeyIndex)
    ensures
        im_map_entries(r) == empty_key_index(),
{
    im::HashMap::new()
}

/// Relies on `im::HashMap::clone`: a structurally shared copy holding the
/// same entries, which later changes to either value leave untouched.
#[verifier::external_body]
fn im_clone(m: &KeyIndex) -> (r: KeyIndex)
    ensures
        r == *m,
{
    m.clone()
}

/// Relies on `im::HashMap::get`: the value stored under the key, if any.
#[verifier::external_body]
fn im_get(m: &KeyIndex, key: u64) -> (r: Option<u64>)
    ensures
        r == (if im_map_entries(*m).contains_key(key) {
            Some(im_map_entries(*m)[key])
        } else {
            None::<u64>
        }),
{
    m.get(&key).copied()
}

/// Relies on `im::HashMap::insert`: replaces what the key maps to and leaves
/// every other key as it was.
#[verifier::external_body]
fn im_insert(m: &mut KeyIndex, key: u64, value: u64)
    ensures
        im_map_entries(*final(m)) == im_map_entries(*old(m)).insert(key, value),
{
    m.insert(key, value);
}

/// Relies on `std::any::TypeId` and std's `DefaultHasher`, whose `new`
/// instances hash identically within one build of one process: a fixed `u64`
/// token per type within a process. Distinct types may in principle share a
/// token; every caller treats an entry under a shared token as one that may
/// belong to another type.
#[verifier::external_body]
fn type_key<T: 'static>() -> u64 {
    let mut hasher = std::collections::hash_map::DefaultHasher::new();
    std::hash::Hash::hash(&std::any::TypeId::of::<T>(), &mut hasher);
    std::hash::Hasher::finish(&hasher)
}

/// One registry slot: an erased strategy and the ghost shape it was stored
/// with.
struct Entry {
    raw: RawEntry,
    form: Ghost<Shape>,
}

/// A collection of strategies that depend on each other. Cloning shares the
/// persistent index structurally and the stored strategies by reference
/// count, and the copy and the original change independently afterwards.
pub struct StrategySet {
    index: KeyIndex,
    entries: Vec<Entry>,
}

impl StrategySet {
    /// The map from type key to the slot of the strategy stored for it.
    pub closed spec fn key_index(self) -> Map<u64, u64> {
        im_map_entries(self.index)
    }

    /// The ghost shapes of the stored strategies, in insertion order.
    pub closed spec fn shapes(self) -> Seq<Shape> {
        self.entries@.map_values(|e: Entry| e.form@)
    }

    /// The erased strategy handles, in insertion order.
    pub closed spec fn raw_entries(self) -> Seq<RawEntry> {
        self.entries@.map_values(|e: Entry| e.raw)
    }

    /// How many strategies are stored.
    pub open spec fn entry_count(self) -> nat {
        self.shapes().len()
    }

    /// Whether a strategy is stored for the key.
    pub open spec fn has_key(self, key: u64) -> bool {
        self.key_index().contains_key(key)
    }

    /// The shape stored for the key.
    pub open spec fn shape_for(self, key: u64) -> Shape
        recommends
            self.has_key(key),
            self.wf(),
    {
        self.shapes()[self.key_index()[key] as int]
    }

    /// Well-formed: every slot the index points to lies inside the store.
    pub open spec fn wf(self) -> bool {
        forall|k: u64| self.has_key(k) ==> (#[trigger] self.key_index()[k]) < self.entry_count()
    }

    /// Both registries show the same entries.
    pub open spec fn same_entries(self, other: StrategySet) -> bool {
        &&& self.key_index() == other.key_index()
        &&& self.shapes() == other.shapes()
        &&& self.raw_entries() == other.raw_entries()
    }

    /// This registry keeps every entry of `pre`: every stored strategy stays
    /// in its slot, and every key keeps pointing where it pointed.
    pub open spec fn grown_from(self, pre: StrategySet) -> bool {
        &&& pre.shapes().is_prefix_of(self.shapes())
        &&& pre.raw_entries().is_prefix_of(self.raw_entries())
        &&& forall|k: u64| pre.has_key(k) ==> self.has_key(k)
            && (#[trigger] self.key_index()[k]) == pre.key_index()[k]
    }

    /// An empty registry.
    pub fn new() -> (r: StrategySet)
        ensures
            r.wf(),
            r.key_index() == empty_key_index(),
            r.entry_count() == 0,
    {
        StrategySet { index: im_new(), entries: Vec::new() }
    }

    /// An independent copy showing the same entries: the persistent index is
    /// shared structurally, the stored strategies by reference count.
    pub fn snapshot(&self) -> (r: StrategySet)
        ensures
            r.same_entries(*self),
            self.wf() ==> r.wf(),
    {
        let mut copied: Vec<Entry> = Vec::new();
        let mut i: usize = 0;
        while i < self.entries.len()
            invariant
                i <= self.entries.len(),
                copied@.len() == i as nat,
                forall|j: int| 0 <= j < i as int ==> copied@[j] == self.entries@[j],
            decreases self.entries.len() - i,
        {
            let e = &self.entries[i];
            copied.push(Entry { raw: raw_dup(&e.raw), form: e.form });
            i = i + 1;
        }
        proof {
            assert(copied@ =~= self.entries@);
        }
        StrategySet { index: im_clone(&self.index), entries: copied }
    }

    /// Stores `strat` for `key` in a fresh slot, replacing what the key
    /// pointed to; every other key and every stored strategy stays.
    pub fn insert_for_key<T: 'static>(&mut self, key: u64, strat: &Strat<T>)
        requires
            old(self).wf(),
        ensures
            final(self).wf(),
            old(self).shapes().is_prefix_of(final(self).shapes()),
            old(self).raw_entries().is_prefix_of(final(self).raw_entries()),
            final(self).key_index() == old(self).key_index().insert(
                key,
                old(self).entry_count() as u64,
            ),
            final(self).shapes() == old(self).shapes().push(strat@),
            final(self).shape_for(key) == strat@,
    {
        let ghost pre = *self;
        let idx: u64 = self.entries.len() as u64;
        self.entries.push(Entry { raw: strat.to_raw(), form: Ghost(strat@) });
        im_insert(&mut self.index, key, idx);
        proof {
            assert(self.shapes() =~= pre.shapes().push(strat@));
            assert(self.raw_entries() =~= pre.raw_entries().push(
                self.entries@[pre.entries@.len() as int].raw,
            ));
            assert(pre.shapes() =~= self.shapes().subrange(0, pre.shapes().len() as int));
            assert(pre.raw_entries() =~= self.raw_entries().subrange(
                0,
                pre.raw_entries().len() as int,
            ));
            assert(self.key_index() == pre.key_index().insert(key, pre.entry_count() as u64));
            assert forall|k: u64| self.has_key(k) implies (#[trigger] self.key_index()[k])
                < self.entry_count() by {
                if k != key {
                    assert(pre.has_key(k));
                }
            }
        }
    }

    /// Returns a strategy for the key. A stored entry is handed back without
    /// running `f`. Otherwise `f` runs on a snapshot — which does not show
    /// the entry being built — and its result is stored under the key and
    /// returned. An entry of some other value type under the same key, which
    /// only two types sharing a token can produce, is left as it is, and
    /// `f`'s result is returned without being stored.
    pub fn get_by_key<T: 'static, F: FnOnce(StrategySet) -> Strat<T>>(
        &mut self,
        key: u64,
        f: F,
    ) -> (r: Strat<T>)
        requires
            old(self).wf(),
            forall|s: StrategySet| s.wf() ==> #[trigger] call_requires(f, (s,)),
        ensures
            keyed_get_post(*old(self), *final(self), key, f, r),
    {
        let found = im_get(&self.index, key);
        match found {
            Some(idx) => {
                let n = self.entries.len();
                proof {
                    assert(self.has_key(key));
                    assert(self.key_index()[key] == idx);
                    assert((idx as nat) < self.entries@.len());
                    assert(self.entries@.len() == n as nat);
                }
                let e = &self.entries[idx as usize];
                match Strat::<T>::from_raw(&e.raw, e.form) {
                    Some(s) => {
                        proof {
                            assert(*e == self.entries@[idx as int]);
                            assert(self.shapes()[idx as int] == self.entries@[idx as int].form@);
                            assert(s@ == old(self).shape_for(key));
                        }
                        s
                    },
                    None => {
                        let snap = self.snapshot();
                        let built = f(snap);
                        proof {
                            assert(snap.wf() && snap.same_entries(*old(self))
                                && call_ensures(f, (snap,), built));
                        }
                        built
                    },
                }
            },
            None => {
                let snap = self.snapshot();
                let built = f(snap);
                proof {
                    assert(snap.wf() && snap.same_entries(*old(self))
                        && call_ensures(f, (snap,), built));
                }
                self.insert_for_key(key, &built);
                proof {
                    assert forall|k: u64| old(self).has_key(k) implies self.has_key(k)
                        && (#[trigger] self.key_index()[k]) == old(self).key_index()[k] by {
                        assert(k != key);
                    }
                }
                built
            },
        }
    }

    /// Returns a strategy for `T`. If none is stored yet, one is built and
    /// stored using `f`. The key is a fixed per-process token for `T`, so on
    /// one registry value the builder for a type runs at most once.
    pub fn get<T: 'static, F: FnOnce(StrategySet) -> Strat<T>>(&mut self, f: F) -> (r: Strat<T>)
        requires
            old(self).wf(),
            forall|s: StrategySet| s.wf() ==> #[trigger] call_requires(f, (s,)),
        ensures
            final(self).wf(),
            final(self).grown_from(*old(self)),
            exists|key: u64| keyed_get_post(*old(self), *final(self), key, f, r),
    {
        let key = type_key::<T>();
        self.get_by_key(key, f)
    }
}

/// The strategy came from the builder, run on a registry showing the same
/// entries as `pre`.
pub open spec fn built_by<T, F: FnOnce(StrategySet) -> Strat<T>>(
    f: F,
    pre: StrategySet,
    r: Strat<T>,
) -> bool {
    exists|s: StrategySet| s.wf() && s.same_entries(pre) && #[trigger] call_ensures(f, (s,), r)
}

/// What a keyed lookup guarantees: memoization on a hit, build-and-store on a
/// miss, and in every case a registry that only grows.
pub open spec fn keyed_get_post<T, F: FnOnce(StrategySet) -> Strat<T>>(
    pre: StrategySet,
    post: StrategySet,
    key: u64,
    f: F,
    r: Strat<T>,
) -> bool {
    &&& post.wf()
    &&& post.grown_from(pre)
    &&& (pre.has_key(key) ==> post.same_entries(pre)
        && (r@ == pre.shape_for(key) || built_by(f, pre, r)))
    &&& (!pre.has_key(key) ==> built_by(f, pre, r)
        && post.key_index() == pre.key_index().insert(key, pre.entry_count() as u64)
        && post.shapes() == pre.shapes().push(r@)
        && post.shape_for(key) == r@)
}

impl Clone for StrategySet {
    /// An independent copy showing the same entries.
    fn clone(&self) -> (r: Self)
        ensures
            r.same_entries(*self),
            self.wf() ==> r.wf(),
    {
        self.snapshot()
    }
}

impl Default for StrategySet {
    /// An empty registry.
    fn default() -> (r: Self)
        ensures
            r.wf(),
            r.key_index() == empty_key_index(),
            r.entry_count() == 0,
    {
        StrategySet::new()
    }
}

/// Extension methods for strategies.
pub trait StrategyExt: View<V = Shape> + Sized {
    /// A variant of proptest's recursion combinator for mutually recursive
    /// strategies: instead of one fixed inner strategy, the recursion step
    /// receives a registry in which the strategy being built appears as its
    /// current, strictly shallower approximation, so a nested request for
    /// the same type resolves at once instead of recursing without bound.
    /// `depth`, `desired_size` and `expected_branch_size` apply only to
    /// values from this strategy.
    fn prop_mutually_recursive<F: Fn(StrategySet) -> Self>(
        self,
        depth: u32,
        desired_size: u32,
        expected_branch_size: u32,
        set: &StrategySet,
        recurse: F,
    ) -> (r: Self)
        requires
            set.wf(),
            forall|s: StrategySet| s.wf() ==> #[trigger] call_requires(recurse, (s,)),
        ensures
            r@ == layered(self@, weight_seq(depth as nat, desired_size, expected_branch_size)),
    ;
}

impl<T: core::fmt::Debug + 'static> StrategyExt for Strat<T> {
    fn prop_mutually_recursive<F: Fn(StrategySet) -> Self>(
        self,
        depth: u32,
        desired_size: u32,
        expected_branch_size: u32,
        set: &StrategySet,
        recurse: F,
    ) -> (r: Self) {
        let ws = branch_weights(depth, desired_size, expected_branch_size);
        let key = type_key::<T>();
        let ghost base = self@;
        let mut cur = self;
        let mut j: usize = ws.len();
        proof {
            assert(ws@.subrange(j as int, ws@.len() as int) =~= Seq::<(u32, u32)>::empty());
        }
        while j > 0
            invariant
                j <= ws@.len(),
                ws@ == weight_seq(depth as nat, desired_size, expected_branch_size),
                cur@ == layered(base, ws@.subrange(j as int, ws@.len() as int)),
                set.wf(),
                forall|s: StrategySet| s.wf() ==> #[trigger] call_requires(recurse, (s,)),
            decreases j,
        {
            j = j - 1;
            let bw = ws[j].0;
            let lw = ws[j].1;
            let ghost tail = ws@.subrange(j as int + 1, ws@.len() as int);
            proof {
                assert(ws@.subrange(j as int, ws@.len() as int).drop_first() =~= tail);
                lemma_weight_seq_clamped(depth as nat, desired_size, expected_branch_size);
                assert(ws@[j as int] == weight_seq(depth as nat, desired_size, expected_branch_size)[j as int]);
            }
            if bw > 0 {
                let mut snap = set.snapshot();
                snap.insert_for_key(key, &cur);
                let stepped = recurse(snap);
                let stepped = stepped.reshaped(Ghost(Shape::Step(Box::new(cur@))));
                cur = Strat::combine_weighted(&cur, &stepped, lw, bw);
            }
        }
        proof {
            assert(ws@.subrange(0, ws@.len() as int) =~= ws@);
        }
        cur
    }
}

} // verus!
