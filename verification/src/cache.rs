//! A cache of shared resources that are expensive to build.
//!
//! Each resource is stored under a text key. A resource is built at most once
//! for a key, on the first request for it, and is never replaced or removed
//! afterwards. A request does not hand the resource out: it lends it to a
//! callback for the time of the call. A slot is the same for a single
//! resource without a key.

use vstd::prelude::*;

verus! {

/// A mapping from keys to resources that grows and never shrinks.
pub struct KeyedResourceCache<V> {
    keys: Vec<String>,
    values: Vec<V>,
}

/// What a cache holds after a request for `key` on contents `before`, where
/// `built` is what the factory returned, if it was called.
pub open spec fn after_request<V, E>(
    before: Map<Seq<char>, V>,
    key: Seq<char>,
    built: Result<V, E>,
) -> Map<Seq<char>, V> {
    if before.contains_key(key) {
        before
    } else {
        match built {
            Ok(resource) => before.insert(key, resource),
            Err(_) => before,
        }
    }
}

/// Whether a request for `key` on contents `before` can leave the contents
/// `after` and return `res`, where `builds` holds of what the factory can
/// return and `lends(resource, r)` says that the callback can return `r` when
/// it is lent `resource`.
///
/// With a resource under the key, the contents stay and the callback sees that
/// resource. Without one, the factory decides: what it builds is stored and
/// shown to the callback, and its failure is the result.
pub open spec fn served<V, E, R>(
    before: Map<Seq<char>, V>,
    key: Seq<char>,
    builds: spec_fn(Result<V, E>) -> bool,
    lends: spec_fn(V, Result<R, E>) -> bool,
    after: Map<Seq<char>, V>,
    res: Result<R, E>,
) -> bool {
    if before.contains_key(key) {
        &&& after == before
        &&& lends(before[key], res)
    } else {
        exists|built: Result<V, E>|
            {
                &&& #[trigger] builds(built)
                &&& after == after_request(before, key, built)
                &&& match built {
                    Ok(resource) => lends(resource, res),
                    Err(e) => res == Err::<R, E>(e),
                }
            }
    }
}

/// What a slot for one lazily built resource holds after a request on
/// `before`, where `built` is what the factory returned, if it was called.
pub open spec fn slot_after_request<T, E>(before: Option<T>, built: Result<T, E>) -> Option<T> {
    match before {
        Some(_) => before,
        None => match built {
            Ok(resource) => Some(resource),
            Err(_) => None,
        },
    }
}

/// Whether a request on a slot holding `before` can leave it holding `after`
/// and return `res`: a stored resource is lent as it is; an empty slot is
/// filled with what the factory builds, which is then lent, and stays empty
/// where the factory fails, with the failure as the result.
pub open spec fn slot_served<T, E, R>(
    before: Option<T>,
    builds: spec_fn(Result<T, E>) -> bool,
    lends: spec_fn(T, Result<R, E>) -> bool,
    after: Option<T>,
    res: Result<R, E>,
) -> bool {
    match before {
        Some(resource) => after == before && lends(resource, res),
        None => exists|built: Result<T, E>|
            {
                &&& #[trigger] builds(built)
                &&& after == slot_after_request(before, built)
                &&& match built {
                    Ok(resource) => lends(resource, res),
                    Err(e) => res == Err::<R, E>(e),
                }
            },
    }
}

/// Whether `resource` can be the one that a request on a slot holding
/// `before` works with: the stored one, or one that the factory can build.
pub open spec fn resource_at_hand<T, E>(
    before: Option<T>,
    builds: spec_fn(Result<T, E>) -> bool,
    resource: T,
) -> bool {
    match before {
        Some(stored) => resource == stored,
        None => builds(Ok(resource)),
    }
}

/// What a factory can return, as a predicate.
pub open spec fn outcomes<V, E, F>(factory: F) -> spec_fn(Result<V, E>) -> bool where
    F: FnOnce() -> Result<V, E>,
 {
    |built: Result<V, E>| call_ensures(factory, (), built)
}

/// What a callback can return for each resource lent to it, as a predicate.
pub open spec fn lendings<V, E, R, C>(callback: C) -> spec_fn(V, Result<R, E>) -> bool where
    C: FnOnce(&V) -> Result<R, E>,
 {
    |resource: V, r: Result<R, E>| call_ensures(callback, (&resource,), r)
}

impl<V> KeyedResourceCache<V> {
    /// No key is stored twice, and each key has its resource.
    pub closed spec fn wf(self) -> bool {
        &&& self.keys.len() == self.values.len()
        &&& forall|i: int, j: int|
            0 <= i < j < self.keys.len() ==> self.keys[i]@ != self.keys[j]@
    }

    /// The place of `key` among the stored keys, where it is stored.
    closed spec fn position(self, key: Seq<char>) -> int {
        choose|i: int| 0 <= i < self.keys.len() && self.keys[i]@ == key
    }

    /// The stored resources, each under its key.
    pub closed spec fn view(self) -> Map<Seq<char>, V> {
        Map::new(
            |key: Seq<char>| exists|i: int| 0 <= i < self.keys.len() && self.keys[i]@ == key,
            |key: Seq<char>| self.values[self.position(key)],
        )
    }

    /// An empty cache.
    pub fn new() -> (cache: Self)
        ensures
            cache.wf(),
            cache@ == Map::<Seq<char>, V>::empty(),
    {
        let cache = KeyedResourceCache { keys: Vec::new(), values: Vec::new() };
        assert(cache@ =~= Map::<Seq<char>, V>::empty());
        cache
    }

    /// The number of resources in the cache.
    pub fn len(&self) -> (n: usize)
        requires
            self.wf(),
        ensures
            n == self@.len(),
            self@.dom().finite(),
    {
        proof {
            self.lemma_len();
        }
        self.keys.len()
    }

    proof fn lemma_len(self)
        requires
            self.wf(),
        ensures
            self@.dom().finite(),
            self@.len() == self.keys.len(),
    {
        let keys = self.keys@.map_values(|k: String| k@);
        assert(keys.no_duplicates());
        keys.unique_seq_to_set();
        assert(keys.to_set() =~= self@.dom()) by {
            assert forall|key: Seq<char>| self@.dom().contains(key) implies keys.to_set().contains(
                key,
            ) by {
                let i = choose|i: int| 0 <= i < self.keys.len() && self.keys[i]@ == key;
                assert(keys[i] == key);
            }
        }
    }

    /// Where `key` is stored, if anywhere.
    fn find(&self, key: &String) -> (found: Option<usize>)
        requires
            self.wf(),
        ensures
            match found {
                Some(i) => i < self.keys.len() && self.keys[i as int]@ == key@ && self@.contains_key(
                    key@,
                ) && self@[key@] == self.values[i as int] && i < self.values.len(),
                None => !self@.contains_key(key@),
            },
    {
        let mut i: usize = 0;
        while i < self.keys.len()
            invariant
                i <= self.keys.len(),
                self.wf(),
                forall|j: int| 0 <= j < i ==> self.keys[j]@ != key@,
            decreases self.keys.len() - i,
        {
            if self.keys[i] == *key {
                assert(self.position(key@) == i);
                return Some(i);
            }
            i += 1;
        }
        None
    }

    /// Whether a resource is stored under `key`.
    pub fn contains_key(&self, key: &str) -> (present: bool)
        requires
            self.wf(),
        ensures
            present == self@.contains_key(key@),
    {
        let owned = key.to_owned();
        self.find(&owned).is_some()
    }

    /// The resource stored under `key`, if there is one.
    pub fn get(&self, key: &str) -> (found: Option<&V>)
        requires
            self.wf(),
        ensures
            match found {
                Some(resource) => self@.contains_key(key@) && *resource == self@[key@],
                None => !self@.contains_key(key@),
            },
    {
        let owned = key.to_owned();
        match self.find(&owned) {
            Some(i) => Some(&self.values[i]),
            None => None,
        }
    }

    /// Each stored key is in the view, with the resource that stands at its place.
    proof fn lemma_entry(self, i: int)
        requires
            self.wf(),
            0 <= i < self.keys.len(),
        ensures
            self@.contains_key(self.keys[i]@),
            self@[self.keys[i]@] == self.values[i],
            self.position(self.keys[i]@) == i,
    {
        let j = self.position(self.keys[i]@);
        assert(0 <= j < self.keys.len() && self.keys[j]@ == self.keys[i]@);
        if i < j {
            assert(self.keys[i]@ != self.keys[j]@);
        } else if j < i {
            assert(self.keys[j]@ != self.keys[i]@);
        }
    }

    /// Stores `resource` under `key`, which is not yet stored, and returns its place.
    fn append(&mut self, key: &str, resource: V) -> (place: usize)
        requires
            old(self).wf(),
            !old(self)@.contains_key(key@),
        ensures
            final(self).wf(),
            final(self)@ == old(self)@.insert(key@, resource),
            place < final(self).values.len(),
            final(self).values[place as int] == resource,
    {
        let ghost before = *self;
        let place = self.values.len();
        self.keys.push(key.to_owned());
        self.values.push(resource);
        proof {
            let after = *self;
            let n = before.keys.len() as int;
            assert forall|i: int, j: int| 0 <= i < j < after.keys.len() implies after.keys[i]@
                != after.keys[j]@ by {
                if j == n {
                    before.lemma_entry(i);
                }
            }
            assert forall|k: Seq<char>| #[trigger]
                after@.contains_key(k) == before@.insert(key@, resource).contains_key(k) by {
                if after@.contains_key(k) {
                    let i = after.position(k);
                    if i < n {
                        before.lemma_entry(i);
                    }
                }
                if before@.contains_key(k) {
                    let i = before.position(k);
                    after.lemma_entry(i);
                }
                if k == key@ {
                    after.lemma_entry(n);
                }
            }
            assert forall|k: Seq<char>| #[trigger]
                after@.contains_key(k) implies after@[k] == before@.insert(key@, resource)[k] by {
                let i = after.position(k);
                after.lemma_entry(i);
                if i < n {
                    before.lemma_entry(i);
                }
            }
            assert(after@ =~= before@.insert(key@, resource));
        }
        place
    }

    /// Takes in what a factory returned for `key`: a resource is stored under
    /// the key, a failure is handed on and leaves the cache as it was. Where a
    /// resource is stored under the key already, it stays and the new one is
    /// dropped.
    pub fn store<E>(&mut self, key: &str, built: Result<V, E>) -> (res: Result<(), E>)
        requires
            old(self).wf(),
        ensures
            final(self).wf(),
            final(self)@ == after_request(old(self)@, key@, built),
            match built {
                Ok(_) => res is Ok,
                Err(e) => res == Err::<(), E>(e),
            },
    {
        match built {
            Ok(resource) => {
                if !self.contains_key(key) {
                    let _ = self.append(key, resource);
                }
                Ok(())
            },
            Err(e) => Err(e),
        }
    }

    /// Lends the resource stored under `key` to `callback` and returns what the
    /// callback returns. Where no resource is stored under the key yet,
    /// `factory` is called first: the resource that it builds is stored and
    /// lent; its failure is returned, with the cache as it was and the
    /// callback not called. Where a resource is stored, the factory is not
    /// called and the cache stays as it was.
    pub fn get_or_create<E, R, F, C>(&mut self, key: &str, factory: F, callback: C) -> (res: Result<
        R,
        E,
    >) where F: FnOnce() -> Result<V, E>, C: FnOnce(&V) -> Result<R, E>
        requires
            old(self).wf(),
            !old(self)@.contains_key(key@) ==> call_requires(factory, ()),
            old(self)@.contains_key(key@) ==> call_requires(callback, (&old(self)@[key@],)),
            forall|resource: V|
                call_ensures(factory, (), Ok::<V, E>(resource)) ==> call_requires(
                    callback,
                    (&resource,),
                ),
        ensures
            final(self).wf(),
            served(
                old(self)@,
                key@,
                outcomes(factory),
                lendings(callback),
                final(self)@,
                res,
            ),
    {
        let owned = key.to_owned();
        match self.find(&owned) {
            Some(place) => callback(&self.values[place]),
            None => {
                let built = factory();
                assert(outcomes(factory)(built));
                match built {
                    Ok(resource) => {
                        let place = self.append(key, resource);
                        callback(&self.values[place])
                    },
                    Err(e) => Err(e),
                }
            },
        }
    }
}

/// A request never removes or replaces a resource: what was stored before
/// it is stored after it, unchanged, and at most the requested key is new.
pub proof fn lemma_request_keeps_entries<V, E, R>(
    before: Map<Seq<char>, V>,
    key: Seq<char>,
    builds: spec_fn(Result<V, E>) -> bool,
    lends: spec_fn(V, Result<R, E>) -> bool,
    after: Map<Seq<char>, V>,
    res: Result<R, E>,
    other: Seq<char>,
)
    requires
        served(before, key, builds, lends, after, res),
        before.contains_key(other),
    ensures
        after.contains_key(other),
        after[other] == before[other],
        after.dom() =~= before.dom() || after.dom() =~= before.dom().insert(key),
{
}

/// Two requests in a row for one key, the first with a factory that cannot
/// fail, build at most once: after the first request a resource is stored
/// under the key, the second request leaves the cache as the first left it,
/// and both callbacks are lent that same resource. The second factory has no
/// part in it.
pub proof fn lemma_second_request_reuses<V, E, R>(
    before: Map<Seq<char>, V>,
    key: Seq<char>,
    first_builds: spec_fn(Result<V, E>) -> bool,
    first_lends: spec_fn(V, Result<R, E>) -> bool,
    between: Map<Seq<char>, V>,
    first_res: Result<R, E>,
    second_builds: spec_fn(Result<V, E>) -> bool,
    second_lends: spec_fn(V, Result<R, E>) -> bool,
    after: Map<Seq<char>, V>,
    second_res: Result<R, E>,
)
    requires
        forall|built: Result<V, E>| #[trigger] first_builds(built) ==> built is Ok,
        served(before, key, first_builds, first_lends, between, first_res),
        served(between, key, second_builds, second_lends, after, second_res),
    ensures
        between.contains_key(key),
        after == between,
        first_lends(between[key], first_res),
        second_lends(between[key], second_res),
        before.contains_key(key) ==> between[key] == before[key],
        !before.contains_key(key) ==> first_builds(Ok(between[key])),
{
}

} // verus!
