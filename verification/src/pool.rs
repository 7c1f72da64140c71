//! Descriptor-keyed resource cache.
//!
//! A pool maps a value descriptor to a resource that is built once, on the
//! first request, and hands out a stable key for it. Nothing is ever removed,
//! so a key stays valid for as long as its pool lives.

use crate::slots::SlotKey;
use crate::slots::SlotTable;
use crate::slots::SLOT_LIMIT;
use vstd::prelude::*;

verus! {

/// A value that fully determines the resource built from it.
///
/// Two descriptors name the same resource exactly when their views are equal.
pub trait Descriptor: View + Sized {
    /// Whether `other` describes the same resource.
    fn same(&self, other: &Self) -> (r: bool)
        ensures
            r == (self@ == other@),
    ;

    /// A copy that describes the same resource.
    fn duplicate(&self) -> (r: Self)
        ensures
            r@ == self@,
    ;
}

/// Why a key could not be resolved.
#[derive(Clone, Copy, Debug, PartialEq, Eq, Structural)]
pub enum PoolError {
    /// The pool is held for writing elsewhere.
    ResourceNotAvailable,
    /// The key is the null key.
    NullHandle,
    /// The key was not handed out by this pool.
    UnknownHandle,
}

/// The error for a key that a pool does not hold.
pub open spec fn unresolved(key: SlotKey) -> PoolError {
    if key.null() {
        PoolError::NullHandle
    } else {
        PoolError::UnknownHandle
    }
}

/// What a pool holds: the key of every known descriptor, and the resource
/// behind every key.
#[verifier::reject_recursive_types(K)]
pub struct PoolView<K, R> {
    pub handles: Map<K, SlotKey>,
    pub resources: Map<SlotKey, R>,
}

impl<K, R> PoolView<K, R> {
    /// The pool without entries.
    pub open spec fn empty() -> Self {
        PoolView { handles: Map::empty(), resources: Map::empty() }
    }

    /// Every descriptor has a key of its own, every key has a resource and a
    /// descriptor, and the null key is not among them.
    pub open spec fn wf(self) -> bool {
        &&& self.handles.dom().finite()
        &&& self.resources.dom().finite()
        &&& self.handles.dom().len() == self.resources.dom().len()
        &&& forall|d: K| #[trigger]
            self.handles.contains_key(d) ==> self.resources.contains_key(self.handles[d])
        &&& forall|h: SlotKey| #[trigger]
            self.resources.contains_key(h) ==> exists|d: K| #[trigger]
                self.handles.contains_key(d) && self.handles[d] == h
        &&& forall|d1: K, d2: K|
            #![trigger self.handles[d1], self.handles[d2]]
            self.handles.contains_key(d1) && self.handles.contains_key(d2) && self.handles[d1]
                == self.handles[d2] ==> d1 == d2
        &&& forall|h: SlotKey| #[trigger] self.resources.contains_key(h) ==> !h.null()
    }

    /// What resolving `key` gives: the resource behind a key of the pool, and
    /// for any other key the error that says whether it is the null key.
    pub open spec fn resolve(&self, key: SlotKey) -> Result<&R, PoolError> {
        if self.resources.contains_key(key) {
            Ok(&self.resources[key])
        } else {
            Err(unresolved(key))
        }
    }

    /// The pool with `resource` stored for `descriptor` under the key `fresh`.
    pub open spec fn with(self, descriptor: K, fresh: SlotKey, resource: R) -> Self {
        PoolView {
            handles: self.handles.insert(descriptor, fresh),
            resources: self.resources.insert(fresh, resource),
        }
    }

    /// What a request for `descriptor` leaves behind and answers: a known
    /// descriptor keeps its key and nothing changes; an unknown one gets the
    /// key `fresh` with the resource `built`.
    pub open spec fn get_or_create(self, descriptor: K, fresh: SlotKey, built: R) -> (Self, SlotKey) {
        if self.handles.contains_key(descriptor) {
            (self, self.handles[descriptor])
        } else {
            (self.with(descriptor, fresh, built), fresh)
        }
    }

    /// Storing a resource for a new descriptor under a new key keeps the
    /// pool well formed.
    pub proof fn with_wf(self, descriptor: K, fresh: SlotKey, resource: R)
        requires
            self.wf(),
            !self.handles.contains_key(descriptor),
            !self.resources.contains_key(fresh),
            !fresh.null(),
        ensures
            self.with(descriptor, fresh, resource).wf(),
    {
        let next = self.with(descriptor, fresh, resource);
        assert forall|h: SlotKey| #[trigger] next.resources.contains_key(h) implies exists|d: K| #[trigger]
            next.handles.contains_key(d) && next.handles[d] == h by {
            if h == fresh {
                assert(next.handles.contains_key(descriptor) && next.handles[descriptor] == h);
            } else {
                let d = choose|d: K| #[trigger]
                    self.handles.contains_key(d) && self.handles[d] == h;
                assert(next.handles.contains_key(d) && next.handles[d] == h);
            }
        }
        assert forall|d1: K, d2: K|
            #![trigger next.handles[d1], next.handles[d2]]
            next.handles.contains_key(d1) && next.handles.contains_key(d2) && next.handles[d1]
                == next.handles[d2] implies d1 == d2 by {
            if d1 != descriptor {
                assert(self.handles.contains_key(d1));
            }
            if d2 != descriptor {
                assert(self.handles.contains_key(d2));
            }
        }
    }
}

/// A handle of the pools of one kind of resource: a slot key under a type of
/// its own, so that a handle of one kind cannot be taken for one of another.
pub trait Handle: Copy {
    /// The slot key behind the handle.
    spec fn key(self) -> SlotKey;

    /// The handle of a slot key.
    spec fn of(key: SlotKey) -> Self;

    /// The handle of a key has that key behind it.
    proof fn of_key(key: SlotKey)
        ensures
            Self::of(key).key() == key,
    ;

    /// A handle is the handle of the key behind it.
    proof fn key_of(handle: Self)
        ensures
            Self::of(handle.key()) == handle,
    ;

    /// The handle of `key`.
    fn from_key(key: SlotKey) -> (handle: Self)
        ensures
            handle == Self::of(key),
    ;

    /// The slot key behind the handle.
    fn to_key(&self) -> (key: SlotKey)
        ensures
            key == self.key(),
    ;
}

/// Cache from descriptor to resource, with a stable handle for each entry.
pub struct StaticResourcePool<H: Handle, D: Descriptor, R> {
    slots: SlotTable,
    lookup: Vec<(D, H)>,
    resources: Vec<R>,
    model: Ghost<PoolView<D::V, R>>,
}

impl<H: Handle, D: Descriptor, R> View for StaticResourcePool<H, D, R> {
    type V = PoolView<D::V, R>;

    closed spec fn view(&self) -> PoolView<D::V, R> {
        self.model@
    }
}

impl<H: Handle, D: Descriptor, R> StaticResourcePool<H, D, R> {
    /// The tables agree with each other and with the view.
    pub closed spec fn wf(&self) -> bool {
        &&& self@.wf()
        &&& self.slots.wf()
        &&& self.slots.count() == self.lookup.len()
        &&& self.resources.len() == self.lookup.len()
        &&& self@.resources.dom() =~= self.slots@.dom()
        &&& forall|i: int|
            0 <= i < self.lookup.len() ==> {
                &&& self.slots@.contains_key((#[trigger] self.lookup[i]).1.key())
                &&& self.slots@[self.lookup[i].1.key()] == i
                &&& self@.handles.contains_key(self.lookup[i].0@)
                &&& self@.handles[self.lookup[i].0@] == self.lookup[i].1.key()
                &&& self@.resources[self.lookup[i].1.key()] == self.resources[i]
            }
        &&& forall|k: SlotKey| #[trigger]
            self.slots@.contains_key(k) ==> 0 <= self.slots@[k] < self.lookup.len()
                && self.lookup[self.slots@[k] as int].1.key() == k
        &&& forall|d: D::V| #[trigger]
            self@.handles.contains_key(d) ==> exists|i: int|
                0 <= i < self.lookup.len() && (#[trigger] self.lookup[i]).0@ == d
    }

    /// A well-formed pool has a well-formed view, with one resource per key.
    pub proof fn view_wf(&self)
        requires
            self.wf(),
        ensures
            self@.wf(),
            self@.resources.dom().len() == self.spec_len(),
    {
    }

    /// The number of resources in the pool.
    pub closed spec fn spec_len(&self) -> nat {
        self.lookup.len() as nat
    }

    /// A pool without resources.
    pub fn new() -> (pool: Self)
        ensures
            pool.wf(),
            pool@ == PoolView::<D::V, R>::empty(),
            pool.spec_len() == 0,
    {
        StaticResourcePool {
            slots: SlotTable::new(),
            lookup: Vec::new(),
            resources: Vec::new(),
            model: Ghost(PoolView::empty()),
        }
    }

    /// The number of resources in the pool.
    pub fn len(&self) -> (n: usize)
        requires
            self.wf(),
        ensures
            n == self.spec_len(),
            n == self@.resources.dom().len(),
            n == self@.handles.dom().len(),
    {
        self.lookup.len()
    }

    /// The handle under which `desc` is known, if it is.
    pub fn find(&self, desc: &D) -> (r: Option<H>)
        requires
            self.wf(),
        ensures
            r == (if self@.handles.contains_key(desc@) {
                Some(H::of(self@.handles[desc@]))
            } else {
                None
            }),
    {
        let mut i: usize = 0;
        while i < self.lookup.len()
            invariant
                self.wf(),
                0 <= i <= self.lookup.len(),
                forall|j: int| 0 <= j < i ==> (#[trigger] self.lookup[j]).0@ != desc@,
            decreases self.lookup.len() - i,
        {
            if self.lookup[i].0.same(desc) {
                proof {
                    H::key_of(self.lookup[i as int].1);
                }
                return Some(self.lookup[i].1);
            }
            i += 1;
        }
        None
    }

    /// Stores `resource` for a descriptor that is not known yet, under a key
    /// that was not in use.
    pub fn insert(&mut self, desc: &D, resource: R) -> (handle: H)
        requires
            old(self).wf(),
            old(self).spec_len() < SLOT_LIMIT,
            !old(self)@.handles.contains_key(desc@),
        ensures
            final(self).wf(),
            final(self).spec_len() == old(self).spec_len() + 1,
            !old(self)@.resources.contains_key(handle.key()),
            !handle.key().null(),
            handle == H::of(handle.key()),
            final(self)@ == old(self)@.with(desc@, handle.key(), resource),
    {
        let index = self.lookup.len();
        let key = self.slots.insert(index);
        let handle = H::from_key(key);
        let ghost next = old(self)@.with(desc@, key, resource);
        proof {
            H::of_key(key);
            old(self)@.with_wf(desc@, key, resource);
        }
        self.lookup.push((desc.duplicate(), handle));
        self.resources.push(resource);
        self.model = Ghost(next);
        proof {
            assert(self@.resources.dom() =~= self.slots@.dom());
            assert forall|i: int| 0 <= i < self.lookup.len() implies {
                &&& self.slots@.contains_key((#[trigger] self.lookup[i]).1.key())
                &&& self.slots@[self.lookup[i].1.key()] == i
                &&& self@.handles.contains_key(self.lookup[i].0@)
                &&& self@.handles[self.lookup[i].0@] == self.lookup[i].1.key()
                &&& self@.resources[self.lookup[i].1.key()] == self.resources[i]
            } by {
                if i < index {
                    assert(self.lookup[i] == old(self).lookup[i]);
                    assert(old(self).slots@.contains_key(old(self).lookup[i].1.key()));
                }
            }
            assert forall|k: SlotKey| #[trigger] self.slots@.contains_key(k) implies 0
                <= self.slots@[k] < self.lookup.len() && self.lookup[self.slots@[k] as int].1.key()
                == k by {
                if k != key {
                    assert(old(self).slots@.contains_key(k));
                    assert(self.lookup[old(self).slots@[k] as int] == old(self).lookup[old(
                        self,
                    ).slots@[k] as int]);
                }
            }
            assert forall|d: D::V| #[trigger] self@.handles.contains_key(d) implies exists|i: int|
                0 <= i < self.lookup.len() && (#[trigger] self.lookup[i]).0@ == d by {
                if d == desc@ {
                    assert(self.lookup[index as int].0@ == d);
                } else {
                    assert(old(self)@.handles.contains_key(d));
                    let i = choose|i: int|
                        0 <= i < old(self).lookup.len() && (#[trigger] old(self).lookup[i]).0@
                            == d;
                    assert(self.lookup[i] == old(self).lookup[i]);
                }
            }
        }
        handle
    }

    /// The handle of `desc`. A descriptor that is known keeps its handle, and
    /// `constructor` is not called; for one that is not, `constructor` builds
    /// the resource, which is stored under a new key.
    pub fn get_or_create<F: FnOnce(&D) -> R>(&mut self, desc: &D, constructor: F) -> (handle: H)
        requires
            old(self).wf(),
            old(self).spec_len() < SLOT_LIMIT,
            constructor.requires((desc,)),
        ensures
            final(self).wf(),
            handle == H::of(handle.key()),
            old(self)@.handles.contains_key(desc@) ==> *final(self) == *old(self) && handle.key()
                == old(self)@.handles[desc@],
            !old(self)@.handles.contains_key(desc@) ==> !old(self)@.resources.contains_key(
                handle.key(),
            ) && !handle.key().null() && constructor.ensures(
                (desc,),
                final(self)@.resources[handle.key()],
            ),
            (final(self)@, handle.key()) == old(self)@.get_or_create(
                desc@,
                handle.key(),
                final(self)@.resources[handle.key()],
            ),
            final(self)@.handles.contains_key(desc@),
            final(self)@.handles[desc@] == handle.key(),
            final(self)@.resources.contains_key(handle.key()),
            final(self).spec_len() == old(self).spec_len() + (if old(self)@.handles.contains_key(
                desc@,
            ) {
                0nat
            } else {
                1nat
            }),
    {
        match self.find(desc) {
            Some(handle) => {
                proof {
                    self.view_wf();
                    H::of_key(self@.handles[desc@]);
                    assert(self@.resources.contains_key(self@.handles[desc@]));
                }
                handle
            },
            None => {
                let resource = constructor(desc);
                self.insert(desc, resource)
            },
        }
    }

    /// Whether `handle` was handed out by this pool.
    pub fn contains(&self, handle: H) -> (r: bool)
        requires
            self.wf(),
        ensures
            r == self@.resources.contains_key(handle.key()),
    {
        self.slots.get(handle.to_key()).is_some()
    }

    /// The resource behind `handle`. A handle of this pool always resolves;
    /// the null key and a key of another pool do not.
    pub fn get(&self, handle: H) -> (r: Result<&R, PoolError>)
        requires
            self.wf(),
        ensures
            r == self@.resolve(handle.key()),
    {
        let key = handle.to_key();
        match self.slots.get(key) {
            Some(index) => Ok(&self.resources[index]),
            None => {
                if key.is_null() {
                    Err(PoolError::NullHandle)
                } else {
                    Err(PoolError::UnknownHandle)
                }
            },
        }
    }

    /// Holds the pool for resolving handles. While it is held, nothing can
    /// be added to the pool.
    pub fn resources(&self) -> (accessor: StaticResourcePoolReadLockAccessor<'_, H, D, R>)
        ensures
            accessor.pool() == *self,
    {
        StaticResourcePoolReadLockAccessor { pool: self }
    }
}

/// Shared access to the resources of a pool. While it is held the pool cannot
/// change, so whatever it resolves stays valid until it is released.
pub struct StaticResourcePoolReadLockAccessor<'a, H: Handle, D: Descriptor, R> {
    pool: &'a StaticResourcePool<H, D, R>,
}

impl<'a, H: Handle, D: Descriptor, R> StaticResourcePoolReadLockAccessor<'a, H, D, R> {
    /// The pool that is held.
    pub closed spec fn pool(&self) -> StaticResourcePool<H, D, R> {
        *self.pool
    }

    /// The resource behind `handle`.
    pub fn get(&self, handle: H) -> (r: Result<&R, PoolError>)
        requires
            self.pool().wf(),
        ensures
            r == self.pool()@.resolve(handle.key()),
    {
        self.pool.get(handle)
    }
}

/// Two requests for one descriptor are answered with one key, and the second
/// neither builds a resource nor changes the pool, whatever key and resource
/// stood ready for it.
pub proof fn get_or_create_idempotent<K, R>(
    pool: PoolView<K, R>,
    d1: K,
    d2: K,
    fresh1: SlotKey,
    built1: R,
    fresh2: SlotKey,
    built2: R,
)
    requires
        d1 == d2,
    ensures
        ({
            let (first, h1) = pool.get_or_create(d1, fresh1, built1);
            let (second, h2) = first.get_or_create(d2, fresh2, built2);
            h1 == h2 && second == first
        }),
{
}

/// Requests for two different descriptors are answered with two different
/// keys, as long as each new key is one that the pool does not hold yet.
pub proof fn get_or_create_distinct<K, R>(
    pool: PoolView<K, R>,
    d1: K,
    d2: K,
    fresh1: SlotKey,
    built1: R,
    fresh2: SlotKey,
    built2: R,
)
    requires
        pool.wf(),
        d1 != d2,
        !pool.resources.contains_key(fresh1),
        !pool.get_or_create(d1, fresh1, built1).0.resources.contains_key(fresh2),
    ensures
        ({
            let (first, h1) = pool.get_or_create(d1, fresh1, built1);
            let (second, h2) = first.get_or_create(d2, fresh2, built2);
            h1 != h2 && second.handles[d1] == h1 && second.handles[d2] == h2
        }),
{
    let (first, h1) = pool.get_or_create(d1, fresh1, built1);
    assert(first.resources.contains_key(h1));
    if first.handles.contains_key(d2) {
        assert(pool.handles.contains_key(d2));
    }
}

/// In a well-formed pool two different descriptors never share a key.
pub proof fn handles_distinct<K, R>(pool: PoolView<K, R>, d1: K, d2: K)
    requires
        pool.wf(),
        pool.handles.contains_key(d1),
        pool.handles.contains_key(d2),
        d1 != d2,
    ensures
        pool.handles[d1] != pool.handles[d2],
{
}

/// A request keeps the pool well formed when the key that stands ready is
/// neither null nor in the pool.
pub proof fn get_or_create_wf<K, R>(pool: PoolView<K, R>, d: K, fresh: SlotKey, built: R)
    requires
        pool.wf(),
        !pool.resources.contains_key(fresh),
        !fresh.null(),
    ensures
        pool.get_or_create(d, fresh, built).0.wf(),
{
    if !pool.handles.contains_key(d) {
        pool.with_wf(d, fresh, built);
    }
}

} // verus!
