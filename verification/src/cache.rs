//! Deduplication of shared resources: one resource per key, built on first
//! use and handed out by handle afterwards.

use vstd::prelude::*;

verus! {

/// The identity of a resource's origin: for a font, the identity of the
/// buffer that holds the font program, and the index of the face in it.
#[derive(Clone, Copy, Debug, PartialEq, Eq, Structural, Hash)]
pub struct ResourceKey {
    pub data_id: u64,
    pub index: u32,
}

/// A table of resources in the order in which they were built. A resource's
/// handle is its position in the table.
pub struct ResourceCache<T> {
    keys: Vec<ResourceKey>,
    values: Vec<T>,
}

impl<T> ResourceCache<T> {
    /// The keys, in the order in which their resources were built.
    pub closed spec fn keys(&self) -> Seq<ResourceKey> {
        self.keys@
    }

    /// The resources; the one at a position belongs to the key there.
    pub closed spec fn resources(&self) -> Seq<T> {
        self.values@
    }

    /// Each key has one resource, and no key stands twice.
    pub open spec fn wf(&self) -> bool {
        self.keys().len() == self.resources().len() && self.keys().no_duplicates()
    }

    /// The handle of the resource built for `key`, if there is one.
    pub open spec fn handle_of(&self, key: ResourceKey) -> Option<usize> {
        if self.keys().contains(key) {
            Some(self.keys().index_of(key) as usize)
        } else {
            None
        }
    }

    /// Whether a request for `key` with `constructor` may answer `r` and
    /// leave `after`. Where the cache holds the key, the answer is its handle
    /// and the cache stays as it is, whatever the constructor would build.
    /// Otherwise the constructor decides: what it builds is stored under
    /// `key` at the end of the table, and its error leaves the cache as it is.
    pub open spec fn request_gives<E, F: FnOnce() -> Result<T, E>>(
        self,
        key: ResourceKey,
        constructor: F,
        r: Result<usize, E>,
        after: Self,
    ) -> bool {
        &&& after.wf()
        &&& self.handle_of(key) matches Some(h) ==> {
            &&& r matches Ok(got)
            &&& got == h
            &&& after.keys() == self.keys()
            &&& after.resources() == self.resources()
        }
        &&& self.handle_of(key) is None ==> match r {
            Ok(h) => {
                &&& h == self.keys().len()
                &&& after.keys() == self.keys().push(key)
                &&& after.resources().len() == h + 1
                &&& after.resources() == self.resources().push(after.resources()[h as int])
                &&& call_ensures(constructor, (), Ok::<T, E>(after.resources()[h as int]))
            },
            Err(e) => {
                &&& call_ensures(constructor, (), Err::<T, E>(e))
                &&& after.keys() == self.keys()
                &&& after.resources() == self.resources()
            },
        }
        &&& r matches Ok(h) ==> after.handle_of(key) == Some(h)
    }

    /// A cache that holds nothing.
    pub fn new() -> (cache: Self)
        ensures
            cache.wf(),
            cache.keys() == Seq::<ResourceKey>::empty(),
            cache.resources() == Seq::<T>::empty(),
    {
        ResourceCache { keys: Vec::new(), values: Vec::new() }
    }

    /// The number of resources built so far.
    pub fn len(&self) -> (n: usize)
        ensures
            n == self.keys().len(),
    {
        self.keys.len()
    }

    /// The handle of the resource built for `key`, if there is one.
    pub fn find(&self, key: ResourceKey) -> (r: Option<usize>)
        requires
            self.wf(),
        ensures
            r == self.handle_of(key),
            r matches Some(h) ==> h < self.keys().len() && self.keys()[h as int] == key,
    {
        let mut i: usize = 0;
        while i < self.keys.len()
            invariant
                self.wf(),
                i <= self.keys@.len(),
                forall|j: int| 0 <= j < i ==> self.keys@[j] != key,
            decreases self.keys.len() - i,
        {
            let k = self.keys[i];
            if k.data_id == key.data_id && k.index == key.index {
                assert(self.keys@[i as int] == key);
                assert(self.keys@.contains(key));
                assert(self.keys@.index_of(key) == i);
                return Some(i);
            }
            i += 1;
        }
        assert(!self.keys@.contains(key));
        None
    }

    /// The resource with the given handle.
    pub fn get(&self, handle: usize) -> (r: &T)
        requires
            self.wf(),
            handle < self.keys().len(),
        ensures
            *r == self.resources()[handle as int],
    {
        &self.values[handle]
    }

    /// The resources in the order of their handles.
    pub fn into_resources(self) -> (resources: Vec<T>)
        ensures
            resources@ == self.resources(),
    {
        self.values
    }

    /// The handle of the resource for `key`. Where the cache holds one, that
    /// handle is returned, the cache stays as it is, and `constructor` is not
    /// run. Otherwise `constructor` is run once: what it builds is stored
    /// under `key` at the end of the table, and where it fails its error is
    /// returned and the cache stays as it is.
    pub fn get_or_create<E, F: FnOnce() -> Result<T, E>>(
        &mut self,
        key: ResourceKey,
        constructor: F,
    ) -> (r: Result<usize, E>)
        requires
            old(self).wf(),
            old(self).handle_of(key) is None ==> call_requires(constructor, ()),
        ensures
            old(self).request_gives(key, constructor, r, *final(self)),
    {
        match self.find(key) {
            Some(h) => Ok(h),
            None => {
                match constructor() {
                    Ok(resource) => {
                        let h = self.keys.len();
                        self.keys.push(key);
                        self.values.push(resource);
                        proof {
                            assert(self.keys@[h as int] == key);
                            assert(self.keys@.contains(key));
                            assert(self.keys@.no_duplicates());
                            assert(self.keys@.index_of(key) == h);
                        }
                        Ok(h)
                    },
                    Err(e) => Err(e),
                }
            },
        }
    }
}

/// Asking again for a key that the cache holds changes nothing: every later
/// request for it finds the handle that the first one gave.
pub proof fn lemma_handle_is_stable<T>(cache: ResourceCache<T>, key: ResourceKey, h: usize)
    requires
        cache.wf(),
        h < cache.keys().len(),
        cache.keys()[h as int] == key,
    ensures
        cache.handle_of(key) == Some(h),
{
    assert(cache.keys().contains(key));
    assert(cache.keys().index_of(key) == h);
}

/// Building a resource for a new key moves no handle that was given before.
pub proof fn lemma_handles_survive_growth<T>(
    before: ResourceCache<T>,
    after: ResourceCache<T>,
    added: ResourceKey,
    key: ResourceKey,
)
    requires
        before.wf(),
        after.wf(),
        after.keys() == before.keys().push(added),
        before.handle_of(key) is Some,
    ensures
        after.handle_of(key) == before.handle_of(key),
{
    let h = before.keys().index_of(key);
    assert(before.keys().contains(key));
    assert(after.keys()[h] == key);
    assert(after.keys().contains(key));
    assert(after.keys().index_of(key) == h);
}

} // verus!
