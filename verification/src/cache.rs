//! Lazy memoizing caches: a single-value cache and a keyed cache.

use vstd::prelude::*;
use vstd::std_specs::cmp::PartialEqSpec;

verus! {

/// Caches the result of a (presumably) expensive operation
/// such that accessing the result multiple times doesn't result in
/// running the expensive operation multiple times.
///
/// Exactly one of {computation pending, value present} holds after
/// construction: the cache starts with the computation pending, and the
/// first call to [`Cache::value_mut`] consumes the computation and stores
/// its result for every later access.
#[verifier::reject_recursive_types(V)]
pub struct Cache<F, V> where F: FnOnce() -> V {
    calculation_fn: Option<F>,
    value: Option<V>,
}

impl<F, V> Cache<F, V> where F: FnOnce() -> V {
    /// The stored result, or `None` while the computation has not run yet.
    pub closed spec fn cached(&self) -> Option<V> {
        self.value
    }

    /// The pending computation, or `None` once it has been consumed.
    pub closed spec fn pending(&self) -> Option<F> {
        self.calculation_fn
    }

    /// Exactly one of {computation pending, value present} holds.
    pub open spec fn wf(&self) -> bool {
        self.cached() is Some <==> self.pending() is None
    }

    /// Creates a new `Cache<F, V>` initialized with the given `calculation_fn`
    /// function. The function will not be called until the result of the
    /// calculation is needed.
    pub fn new(calculation_fn: F) -> (cache: Self)
        ensures
            cache.wf(),
            cache.cached() is None,
            cache.pending() == Some(calculation_fn),
    {
        Self { calculation_fn: Some(calculation_fn), value: None }
    }

    /// Gets a mutable reference to the contained calculated value.
    /// Runs the calculation function if this method call is the first time
    /// the value is accessed; afterwards the computation is gone and every
    /// later call returns the stored value unchanged.
    pub fn value_mut(&mut self) -> (r: &mut V)
        requires
            old(self).wf(),
            old(self).cached() is None ==> call_requires(old(self).pending()->Some_0, ()),
        ensures
            final(self).wf(),
            final(self).pending() is None,
            final(self).cached() == Some(*final(r)),
            old(self).cached() matches Some(v) ==> *r == v,
            old(self).cached() is None ==> call_ensures(old(self).pending()->Some_0, (), *r),
    {
        if self.value.is_none() {
            let f = self.calculation_fn.take().unwrap();
            let v = f();
            self.value = Some(v);
        }
        match &mut self.value {
            Some(v) => v,
            None => vstd::pervasive::unreached(),
        }
    }

    /// Gets a shared reference to the contained calculated value if it has
    /// already been calculated. Never triggers the computation.
    pub fn value(&self) -> (r: Option<&V>)
        ensures
            r is Some <==> self.cached() is Some,
            r matches Some(v) ==> self.cached() == Some(*v),
    {
        self.value.as_ref()
    }
}

/// The position of the first key of `keys` whose `==` (as described by
/// [`eq_spec`](vstd::std_specs::cmp::PartialEqSpec::eq_spec)) accepts `k`,
/// or `-1` when no key does.
pub open spec fn spec_key_index<K: PartialEq>(keys: Seq<K>, k: K) -> int
    decreases keys.len(),
{
    if keys.len() == 0 {
        -1
    } else if keys[0].eq_spec(&k) {
        0
    } else {
        let rest = spec_key_index(keys.drop_first(), k);
        if rest < 0 {
            -1
        } else {
            1 + rest
        }
    }
}

/// `spec_key_index` names a position inside `keys` whose key matches `k`,
/// before which no key matches, or `-1` when no key matches at all.
pub proof fn lemma_key_index_characterization<K: PartialEq>(keys: Seq<K>, k: K)
    ensures
        -1 <= spec_key_index(keys, k) < keys.len(),
        spec_key_index(keys, k) >= 0 ==> keys[spec_key_index(keys, k)].eq_spec(&k),
        forall|j: int| 0 <= j < spec_key_index(keys, k) ==> !(#[trigger] keys[j].eq_spec(&k)),
        spec_key_index(keys, k) == -1 ==> forall|j: int|
            0 <= j < keys.len() ==> !(#[trigger] keys[j].eq_spec(&k)),
    decreases keys.len(),
{
    if keys.len() > 0 && !keys[0].eq_spec(&k) {
        lemma_key_index_characterization(keys.drop_first(), k);
        assert forall|j: int| 0 <= j < spec_key_index(keys, k) implies !(#[trigger] keys[j].eq_spec(
            &k,
        )) by {
            if j > 0 {
                assert(keys.drop_first()[j - 1] == keys[j]);
            }
        }
        if spec_key_index(keys, k) == -1 {
            assert forall|j: int| 0 <= j < keys.len() implies !(#[trigger] keys[j].eq_spec(&k)) by {
                if j > 0 {
                    assert(keys.drop_first()[j - 1] == keys[j]);
                }
            }
        }
    }
}

/// The converse: a match at `i` behind a match-free prefix pins
/// `spec_key_index` down to `i`, and a match-free sequence pins it to `-1`.
pub proof fn lemma_key_index_of_search<K: PartialEq>(keys: Seq<K>, k: K, i: int)
    requires
        0 <= i <= keys.len(),
        i < keys.len() ==> keys[i].eq_spec(&k),
        forall|j: int| 0 <= j < i ==> !(#[trigger] keys[j].eq_spec(&k)),
    ensures
        i < keys.len() ==> spec_key_index(keys, k) == i,
        i == keys.len() ==> spec_key_index(keys, k) == -1,
    decreases keys.len(),
{
    if keys.len() > 0 && i > 0 {
        assert forall|j: int| 0 <= j < i - 1 implies !(#[trigger] keys.drop_first()[j].eq_spec(
            &k,
        )) by {
            assert(keys.drop_first()[j] == keys[j + 1]);
        }
        if i < keys.len() {
            assert(keys.drop_first()[i - 1] == keys[i]);
        }
        lemma_key_index_of_search(keys.drop_first(), k, i - 1);
    }
}

/// Appending a key disturbs no lookup: a key found among `keys` is found at
/// the same position afterwards, and a key not found among `keys` is found
/// at the new position exactly when it equals the appended key. In cache
/// terms: computing a fresh key's value never touches another key's entry,
/// and the fresh key is present afterwards.
pub proof fn lemma_key_index_push<K: PartialEq>(keys: Seq<K>, k: K, k2: K)
    ensures
        spec_key_index(keys.push(k), k2) == if spec_key_index(keys, k2) >= 0 {
            spec_key_index(keys, k2)
        } else if k.eq_spec(&k2) {
            keys.len() as int
        } else {
            -1
        },
    decreases keys.len(),
{
    reveal_with_fuel(spec_key_index, 3);
    lemma_key_index_characterization(keys, k2);
    if keys.len() == 0 {
        assert(keys.push(k)[0] == k);
        assert(keys.push(k).drop_first() =~= Seq::<K>::empty());
    } else {
        assert(keys.push(k)[0] == keys[0]);
        assert(keys.push(k).drop_first() =~= keys.drop_first().push(k));
        lemma_key_index_push(keys.drop_first(), k, k2);
        lemma_key_index_characterization(keys.drop_first(), k2);
    }
}

/// Caches the result of a (presumably) expensive per-key operation
/// such that accessing the result for one key multiple times doesn't result
/// in running the expensive operation for that key multiple times.
///
/// The cache owns a single computation function shared across all keys and
/// a mapping from each key seen so far to its computed value. The mapping
/// only grows, and the keys stored in it stay pairwise distinct.
#[verifier::reject_recursive_types(K)]
#[verifier::reject_recursive_types(V)]
pub struct KeyedCache<F, K, V> where F: Fn(&K) -> V, K: Eq {
    calculation_fn: F,
    keys: Vec<K>,
    values: Vec<V>,
}

impl<F, K, V> KeyedCache<F, K, V> where F: Fn(&K) -> V, K: Eq {
    /// The keys whose values have been computed, in insertion order.
    pub closed spec fn spec_keys(&self) -> Seq<K> {
        self.keys@
    }

    /// The computed values, positionally matching `spec_keys`.
    pub closed spec fn spec_values(&self) -> Seq<V> {
        self.values@
    }

    /// The computation function shared across all keys.
    pub closed spec fn computation(&self) -> F {
        self.calculation_fn
    }

    /// Whether some stored key matches `k`.
    pub open spec fn spec_contains(&self, k: K) -> bool {
        spec_key_index(self.spec_keys(), k) >= 0
    }

    /// Every key has exactly one value, and (as far as `==` on `K` is
    /// described at all) the stored keys are pairwise distinct.
    pub open spec fn wf(&self) -> bool {
        &&& self.spec_keys().len() == self.spec_values().len()
        &&& K::obeys_eq_spec() ==> forall|i: int, j: int|
            0 <= i < j < self.spec_keys().len() ==> !(#[trigger] self.spec_keys()[i].eq_spec(
                &self.spec_keys()[j],
            ))
    }

    /// Creates a new `KeyedCache<F, K, V>` initialized with the given
    /// `calculation_fn` function. The function will not be called until the
    /// result of a calculation is needed.
    pub fn new(calculation_fn: F) -> (cache: Self)
        ensures
            cache.wf(),
            cache.spec_keys() == Seq::<K>::empty(),
            cache.spec_values() == Seq::<V>::empty(),
            cache.computation() == calculation_fn,
    {
        Self { calculation_fn, keys: Vec::new(), values: Vec::new() }
    }

    /// Scans for the first stored key equal to `key`.
    fn lookup_index(&self, key: &K) -> (r: Option<usize>)
        requires
            self.spec_keys().len() == self.spec_values().len(),
        ensures
            r matches Some(i) ==> i < self.spec_values().len() && i < self.spec_keys().len(),
            self.spec_keys().len() == 0 ==> r is None,
            K::obeys_eq_spec() ==> match r {
                Some(i) => spec_key_index(self.spec_keys(), *key) == i,
                None => spec_key_index(self.spec_keys(), *key) == -1,
            },
    {
        let n = self.keys.len();
        let mut j: usize = 0;
        while j < n
            invariant
                j <= n,
                n == self.spec_keys().len(),
                self.spec_keys().len() == self.spec_values().len(),
                K::obeys_eq_spec() ==> forall|t: int|
                    0 <= t < j ==> !(#[trigger] self.spec_keys()[t].eq_spec(key)),
            decreases n - j,
        {
            if self.keys[j] == *key {
                proof {
                    if K::obeys_eq_spec() {
                        lemma_key_index_of_search(self.spec_keys(), *key, j as int);
                    }
                }
                return Some(j);
            }
            j += 1;
        }
        proof {
            if K::obeys_eq_spec() {
                lemma_key_index_of_search(self.spec_keys(), *key, n as int);
            }
        }
        None
    }

    /// Gets a mutable reference to a contained calculated value based on the
    /// `key`. Runs the calculation function if this method call is the first
    /// time the value with the given `key` is accessed; an already-present
    /// key gets its stored value back, untouched, without the computation
    /// running again.
    ///
    /// Whatever the key type, the call either hands out one already-stored
    /// value or appends the computation's result for `key`; when `==` on
    /// `K` is described by its `eq_spec`, the second clause pins down which
    /// of the two happens and at which position.
    pub fn value_mut(&mut self, key: K) -> (r: &mut V)
        requires
            old(self).wf(),
            !(K::obeys_eq_spec() && old(self).spec_contains(key)) ==> call_requires(
                old(self).computation(),
                (&key,),
            ),
        ensures
            final(self).wf(),
            final(self).computation() == old(self).computation(),
            (exists|i: int|
                {
                    &&& 0 <= i < old(self).spec_values().len()
                    &&& final(self).spec_keys() == old(self).spec_keys()
                    &&& *r == old(self).spec_values()[i]
                    &&& final(self).spec_values() == old(self).spec_values().update(
                        i,
                        *final(r),
                    )
                }) || ({
                &&& call_ensures(old(self).computation(), (&key,), *r)
                &&& final(self).spec_keys() == old(self).spec_keys().push(key)
                &&& final(self).spec_values() == old(self).spec_values().push(*final(r))
            }),
            K::obeys_eq_spec() ==> ({
                let idx = spec_key_index(old(self).spec_keys(), key);
                if idx >= 0 {
                    &&& *r == old(self).spec_values()[idx]
                    &&& final(self).spec_keys() == old(self).spec_keys()
                    &&& final(self).spec_values() == old(self).spec_values().update(
                        idx,
                        *final(r),
                    )
                } else {
                    &&& call_ensures(old(self).computation(), (&key,), *r)
                    &&& final(self).spec_keys() == old(self).spec_keys().push(key)
                    &&& final(self).spec_values() == old(self).spec_values().push(*final(r))
                }
            }),
    {
        proof {
            lemma_key_index_characterization(self.spec_keys(), key);
        }
        match self.lookup_index(&key) {
            Some(i) => &mut self.values[i],
            None => {
                let v = (self.calculation_fn)(&key);
                self.keys.push(key);
                self.values.push(v);
                let last = self.values.len() - 1;
                &mut self.values[last]
            },
        }
    }

    /// Gets a shared reference to the contained calculated value based on the
    /// `key` if it has already been calculated. Never computes: whatever the
    /// key type, an answer can only be one of the stored values, and a cache
    /// that stores nothing answers `None`.
    pub fn value(&self, key: &K) -> (r: Option<&V>)
        requires
            self.wf(),
        ensures
            r matches Some(v) ==> exists|i: int|
                0 <= i < self.spec_values().len() && *v == self.spec_values()[i],
            self.spec_keys().len() == 0 ==> r is None,
            K::obeys_eq_spec() ==> ({
                let idx = spec_key_index(self.spec_keys(), *key);
                match r {
                    Some(v) => idx >= 0 && *v == self.spec_values()[idx],
                    None => idx == -1,
                }
            }),
    {
        match self.lookup_index(key) {
            Some(i) => Some(&self.values[i]),
            None => None,
        }
    }
}

} // verus!
