//! A cache of shared sampler handles, keyed by the samplers' parameters.

use std::ops::{Deref, DerefMut};
use std::sync::Arc;
use vstd::prelude::*;
use gfx_hal::device::AllocationError;
use crate::sampler::SamplerDescriptor;

verus! {

/// `gfx_hal::device::AllocationError`, the reason why the device could not
/// create an object. The cache hands such an error through and never looks
/// inside.
#[verifier::external_type_specification]
#[verifier::external_body]
pub struct ExAllocationError(gfx_hal::device::AllocationError);

/// Another handle to the same resource: `Arc::clone`, which, as its
/// documentation says, returns a pointer to the same allocation, so that what
/// the new handle holds is what the given one holds.
#[verifier::external_body]
fn share<S>(handle: &Arc<S>) -> (shared: Arc<S>)
    ensures
        shared == *handle,
{
    handle.clone()
}

/// What a cache holds after a request for `info` that missed, given what
/// creating the sampler came to: a created sampler is kept under `info`, a
/// failure leaves the cache as it was.
pub open spec fn after_creation<S>(
    held: Map<SamplerDescriptor, Arc<S>>,
    info: SamplerDescriptor,
    created: Result<Arc<S>, AllocationError>,
) -> Map<SamplerDescriptor, Arc<S>> {
    match created {
        Ok(sampler) => held.insert(info, sampler),
        Err(_) => held,
    }
}

/// What a request for `info` does to a cache that holds `held`, and what it
/// returns, where `created` is what creating the sampler would come to. A hit
/// answers from the cache and does not depend on `created`.
pub open spec fn get_outcome<S>(
    held: Map<SamplerDescriptor, Arc<S>>,
    info: SamplerDescriptor,
    created: Result<Arc<S>, AllocationError>,
) -> (Map<SamplerDescriptor, Arc<S>>, Result<Arc<S>, AllocationError>) {
    if held.contains_key(info) {
        (held, Ok(held[info]))
    } else {
        (after_creation(held, info, created), created)
    }
}

/// After a request that returned a sampler, a second request with an equal
/// descriptor returns the same sampler whatever creating one anew would come
/// to, and leaves the cache as the first request left it.
pub proof fn lemma_second_get_hits<S>(
    held: Map<SamplerDescriptor, Arc<S>>,
    info: SamplerDescriptor,
    first_created: Result<Arc<S>, AllocationError>,
    second_created: Result<Arc<S>, AllocationError>,
)
    requires
        get_outcome(held, info, first_created).1 is Ok,
    ensures
        get_outcome(get_outcome(held, info, first_created).0, info, second_created) == (
            get_outcome(held, info, first_created).0,
            get_outcome(held, info, first_created).1,
        ),
{
}

/// A request that misses and whose creation fails returns that failure, and
/// the cache holds afterwards what it held before: nothing for the descriptor.
pub proof fn lemma_failed_creation_keeps_cache<S>(
    held: Map<SamplerDescriptor, Arc<S>>,
    info: SamplerDescriptor,
    error: AllocationError,
)
    requires
        !held.contains_key(info),
    ensures
        get_outcome(held, info, Err(error)) == (held, Err::<Arc<S>, AllocationError>(error)),
        !get_outcome(held, info, Err::<Arc<S>, AllocationError>(error)).0.contains_key(info),
{
}

/// What a request for `info` under an upgradable lock returns, and what the
/// cache holds once it is done, where the request saw `seen` under the lock
/// for reading and `target` is what the cache held when the lock for writing
/// was taken. A hit and a failed creation write nothing.
pub open spec fn locked_outcome<S>(
    seen: Map<SamplerDescriptor, Arc<S>>,
    target: Map<SamplerDescriptor, Arc<S>>,
    info: SamplerDescriptor,
    created: Result<Arc<S>, AllocationError>,
) -> (Map<SamplerDescriptor, Arc<S>>, Result<Arc<S>, AllocationError>) {
    if seen.contains_key(info) {
        (target, Ok(seen[info]))
    } else {
        (after_creation(target, info, created), created)
    }
}

/// Whether a request for `info` that saw `seen` trades its lock for one for
/// writing: only on a miss, and only once the sampler has been created.
pub open spec fn takes_write_lock<S>(
    seen: Map<SamplerDescriptor, Arc<S>>,
    info: SamplerDescriptor,
    created: Result<Arc<S>, AllocationError>,
) -> bool {
    !seen.contains_key(info) && created is Ok
}

/// Where nothing else touches the cache between the two locks, a request
/// under an upgradable lock comes to what a plain request comes to; and a
/// request that does not take the lock for writing leaves the cache as it was.
pub proof fn lemma_lone_locked_request_is_get<S>(
    held: Map<SamplerDescriptor, Arc<S>>,
    info: SamplerDescriptor,
    created: Result<Arc<S>, AllocationError>,
)
    ensures
        locked_outcome(held, held, info, created) == get_outcome(held, info, created),
        !takes_write_lock(held, info, created) ==> locked_outcome(held, held, info, created).0
            == held,
{
}

/// Of two insertions under one descriptor the later one wins: the cache
/// holds one sampler for the descriptor, the second, and everything else as
/// if the first insertion had not happened.
pub proof fn lemma_last_insert_wins<S>(
    held: Map<SamplerDescriptor, Arc<S>>,
    info: SamplerDescriptor,
    first: Arc<S>,
    second: Arc<S>,
)
    requires
        held.dom().finite(),
    ensures
        held.insert(info, first).insert(info, second) == held.insert(info, second),
        held.insert(info, first).insert(info, second)[info] == second,
        held.insert(info, first).insert(info, second).len() == held.insert(info, first).len(),
{
    assert(held.insert(info, first).insert(info, second) =~= held.insert(info, second));
    assert(held.insert(info, first).dom().insert(info) =~= held.insert(info, first).dom());
}

/// One cached sampler with the parameters it was created from.
#[derive(Debug)]
struct Entry<S> {
    info: SamplerDescriptor,
    sampler: Arc<S>,
}

/// Sampler cache: holds a handle to each sampler created through it, at most
/// one per descriptor, and never lets go of one.
#[derive(Debug)]
pub struct SamplerCache<S> {
    entries: Vec<Entry<S>>,
}

/// Whether one of `entries` is for `info`.
spec fn has_entry<S>(entries: Seq<Entry<S>>, info: SamplerDescriptor) -> bool {
    exists|i: int| 0 <= i < entries.len() && (#[trigger] entries[i]).info == info
}

/// The position of an entry for `info`.
spec fn entry_of<S>(entries: Seq<Entry<S>>, info: SamplerDescriptor) -> int {
    choose|i: int| 0 <= i < entries.len() && (#[trigger] entries[i]).info == info
}

/// No two of `entries` are for the same descriptor.
spec fn distinct<S>(entries: Seq<Entry<S>>) -> bool {
    forall|i: int, j: int|
        0 <= i < j < entries.len() ==> (#[trigger] entries[i]).info != (#[trigger] entries[j]).info
}

/// The samplers of `entries`, by descriptor.
spec fn held_by<S>(entries: Seq<Entry<S>>) -> Map<SamplerDescriptor, Arc<S>> {
    Map::new(
        |info: SamplerDescriptor| has_entry(entries, info),
        |info: SamplerDescriptor| entries[entry_of(entries, info)].sampler,
    )
}

/// With no descriptor twice, each entry's sampler is the one held for its
/// descriptor.
proof fn lemma_entry_is_held<S>(entries: Seq<Entry<S>>, i: int)
    requires
        distinct(entries),
        0 <= i < entries.len(),
    ensures
        held_by(entries).contains_key(entries[i].info),
        held_by(entries)[entries[i].info] == entries[i].sampler,
{
    let j = entry_of(entries, entries[i].info);
    if j < i {
        assert(entries[j].info != entries[i].info);
    } else if i < j {
        assert(entries[i].info != entries[j].info);
    }
}

/// With no descriptor twice, as many samplers are held as there are entries.
proof fn lemma_one_sampler_per_entry<S>(entries: Seq<Entry<S>>)
    requires
        distinct(entries),
    ensures
        held_by(entries).dom().finite(),
        held_by(entries).len() == entries.len(),
    decreases entries.len(),
{
    if entries.len() == 0 {
        assert(held_by(entries).dom() =~= Set::<SamplerDescriptor>::empty());
    } else {
        let front = entries.drop_last();
        let last = entries.last();
        assert forall|i: int, j: int| 0 <= i < j < front.len() implies (#[trigger] front[i]).info
            != (#[trigger] front[j]).info by {
            assert(entries[i].info != entries[j].info);
        }
        lemma_one_sampler_per_entry(front);
        if has_entry(front, last.info) {
            let i = entry_of(front, last.info);
            assert(entries[i].info != entries[entries.len() - 1].info);
        }
        assert forall|info: SamplerDescriptor|
            held_by(entries).dom().contains(info) <==> held_by(front).dom().insert(
                last.info,
            ).contains(info) by {
            if has_entry(front, info) {
                let i = entry_of(front, info);
                assert(entries[i].info == info);
            }
            if info == last.info {
                assert(entries[entries.len() - 1].info == info);
            }
            if has_entry(entries, info) && info != last.info {
                let i = entry_of(entries, info);
                assert(front[i].info == info);
            }
        }
        assert(held_by(entries).dom() =~= held_by(front).dom().insert(last.info));
    }
}

/// Putting an entry in place of the one for the same descriptor, or behind
/// the others where there is none, keeps descriptors apart and changes what
/// is held for that descriptor alone.
proof fn lemma_put<S>(before: Seq<Entry<S>>, after: Seq<Entry<S>>, found: Option<int>, entry: Entry<S>)
    requires
        distinct(before),
        match found {
            Some(i) => 0 <= i < before.len() && before[i].info == entry.info && after
                == before.update(i, entry),
            None => !has_entry(before, entry.info) && after == before.push(entry),
        },
    ensures
        distinct(after),
        held_by(after) == held_by(before).insert(entry.info, entry.sampler),
{
    let at = match found {
        Some(i) => i,
        None => before.len() as int,
    };
    assert(after[at] == entry);
    assert forall|i: int, j: int| 0 <= i < j < after.len() implies (#[trigger] after[i]).info != (
    #[trigger] after[j]).info by {
        if j < before.len() {
            assert(before[i].info != before[j].info);
        } else {
            assert(before[i].info != entry.info);
        }
    }
    assert forall|info: SamplerDescriptor|
        held_by(after).contains_key(info) <==> held_by(before).insert(
            entry.info,
            entry.sampler,
        ).contains_key(info) by {
        if has_entry(after, info) && info != entry.info {
            let i = entry_of(after, info);
            assert(before[i].info == info);
        }
        if has_entry(before, info) {
            let i = entry_of(before, info);
            assert(after[i].info == info);
        }
    }
    assert forall|info: SamplerDescriptor| held_by(after).contains_key(info) implies held_by(
        after,
    )[info] == held_by(before).insert(entry.info, entry.sampler)[info] by {
        let i = entry_of(after, info);
        lemma_entry_is_held(after, i);
        if info != entry.info {
            assert(before[i].info == info);
            lemma_entry_is_held(before, i);
        } else {
            lemma_entry_is_held(after, at);
        }
    }
    assert(held_by(after) =~= held_by(before).insert(entry.info, entry.sampler));
}

impl<S> View for SamplerCache<S> {
    type V = Map<SamplerDescriptor, Arc<S>>;

    closed spec fn view(&self) -> Map<SamplerDescriptor, Arc<S>> {
        held_by(self.entries@)
    }
}

impl<S> Default for SamplerCache<S> {
    /// A cache that holds nothing.
    fn default() -> (cache: Self)
        ensures
            cache@ == Map::<SamplerDescriptor, Arc<S>>::empty(),
    {
        SamplerCache::new()
    }
}

impl<S> SamplerCache<S> {
    #[verifier::type_invariant]
    spec fn wf(self) -> bool {
        distinct(self.entries@)
    }

    /// A cache that holds nothing.
    pub fn new() -> (cache: Self)
        ensures
            cache@ == Map::<SamplerDescriptor, Arc<S>>::empty(),
    {
        let cache = SamplerCache { entries: Vec::new() };
        proof {
            assert(cache@ =~= Map::<SamplerDescriptor, Arc<S>>::empty());
        }
        cache
    }

    /// The number of samplers held, which is finite.
    pub fn len(&self) -> (count: usize)
        ensures
            self@.dom().finite(),
            count == self@.len(),
    {
        proof {
            use_type_invariant(self);
            lemma_one_sampler_per_entry(self.entries@);
        }
        self.entries.len()
    }

    fn position(&self, info: &SamplerDescriptor) -> (found: Option<usize>)
        ensures
            match found {
                Some(i) => i < self.entries@.len() && self.entries@[i as int].info == *info,
                None => !self@.contains_key(*info),
            },
    {
        proof {
            use_type_invariant(self);
        }
        let mut i: usize = 0;
        while i < self.entries.len()
            invariant
                i <= self.entries.len(),
                forall|k: int| 0 <= k < i ==> (#[trigger] self.entries@[k]).info != *info,
            decreases self.entries.len() - i,
        {
            if self.entries[i].info == *info {
                return Some(i);
            }
            i += 1;
        }
        None
    }

    /// The sampler held for `info`, if there is one; the cache keeps its own
    /// handle to it.
    pub fn lookup(&self, info: &SamplerDescriptor) -> (found: Option<Arc<S>>)
        ensures
            found == (if self@.contains_key(*info) {
                Some(self@[*info])
            } else {
                None
            }),
    {
        proof {
            use_type_invariant(self);
        }
        match self.position(info) {
            Some(i) => {
                proof {
                    lemma_entry_is_held(self.entries@, i as int);
                }
                Some(share(&self.entries[i].sampler))
            },
            None => None,
        }
    }

    /// Puts `sampler` under `info`, in place of what was held for `info`
    /// before, if anything was.
    pub fn insert(&mut self, info: SamplerDescriptor, sampler: Arc<S>)
        ensures
            final(self)@ == old(self)@.insert(info, sampler),
    {
        proof {
            use_type_invariant(&*self);
        }
        let found = self.position(&info);
        let mut taken = SamplerCache::new();
        std::mem::swap(self, &mut taken);
        let SamplerCache { mut entries } = taken;
        let ghost before = entries@;
        let ghost entry = Entry { info, sampler };
        match found {
            Some(i) => {
                entries[i] = Entry { info, sampler };
                proof {
                    lemma_put(before, entries@, Some(i as int), entry);
                }
            },
            None => {
                entries.push(Entry { info, sampler });
                proof {
                    lemma_put(before, entries@, None, entry);
                }
            },
        }
        *self = SamplerCache { entries };
    }

    /// Ends a request for `info` that missed, given what creating the sampler
    /// came to: keeps a created sampler under `info` and returns a handle to
    /// it, or returns the failure and keeps the cache as it was.
    pub fn settle(
        &mut self,
        info: SamplerDescriptor,
        created: Result<Arc<S>, AllocationError>,
    ) -> (result: Result<Arc<S>, AllocationError>)
        ensures
            final(self)@ == after_creation(old(self)@, info, created),
            result == created,
    {
        match created {
            Ok(sampler) => {
                let shared = share(&sampler);
                self.insert(info, sampler);
                Ok(shared)
            },
            Err(error) => Err(error),
        }
    }

    /// The sampler with the parameters `info`: the one held for `info` where
    /// there is one, else the one that `create` makes, which the cache then
    /// keeps. Where `create` fails, its error is returned and the cache
    /// stays as it was. `create` is called only on a miss.
    pub fn get<F>(&mut self, info: SamplerDescriptor, create: F) -> (result: Result<
        Arc<S>,
        AllocationError,
    >) where F: FnOnce() -> Result<Arc<S>, AllocationError>
        requires
            !old(self)@.contains_key(info) ==> create.requires(()),
        ensures
            old(self)@.contains_key(info) ==> result == Ok::<Arc<S>, AllocationError>(
                old(self)@[info],
            ) && final(self)@ == old(self)@,
            !old(self)@.contains_key(info) ==> create.ensures((), result),
            (final(self)@, result) == get_outcome(old(self)@, info, result),
    {
        match self.lookup(&info) {
            Some(sampler) => Ok(sampler),
            None => {
                let created = create();
                self.settle(info, created)
            },
        }
    }

    /// As [`SamplerCache::get`], for a cache behind a lock that the caller
    /// holds for reading as `read`. A hit is answered under that lock. On a
    /// miss `create` makes the sampler, still under that lock; only then
    /// `upgrade` trades the lock for one for writing, under which the sampler
    /// is put into the cache in place of whatever is held for `info` by then.
    /// Where `create` fails, its error is returned and `upgrade` is not called.
    ///
    /// `create` need only be callable on a miss, and `upgrade` only once
    /// `create` has returned a sampler.
    pub fn get_with_upgradable_lock<R, W, U, F>(
        read: R,
        upgrade: U,
        info: SamplerDescriptor,
        create: F,
    ) -> (result: Result<Arc<S>, AllocationError>) where
        R: Deref<Target = Self>,
        W: DerefMut<Target = Self>,
        U: FnOnce(R) -> W,
        F: FnOnce() -> Result<Arc<S>, AllocationError>,

        requires
            (exists|seen: &Self| #[trigger]
                call_ensures(R::deref, (&read,), seen) && !seen@.contains_key(info))
                ==> create.requires(()),
            forall|seen: &Self, sampler: Arc<S>|
                #![trigger call_ensures(R::deref, (&read,), seen), create.ensures((), Ok::<Arc<S>, AllocationError>(sampler))]
                call_ensures(R::deref, (&read,), seen) && !seen@.contains_key(info)
                    && create.ensures((), Ok::<Arc<S>, AllocationError>(sampler))
                    ==> upgrade.requires((read,)),
        ensures
            exists|seen: &Self| #[trigger]
                call_ensures(R::deref, (&read,), seen) && (!seen@.contains_key(info)
                    ==> create.ensures((), result)) && result == locked_outcome(
                    seen@,
                    seen@,
                    info,
                    result,
                ).1 && (
                takes_write_lock(seen@, info, result) ==> exists|guard: &mut W, target: &mut Self|
                    upgrade.ensures((read,), *guard) && #[trigger] call_ensures(
                        W::deref_mut,
                        (guard,),
                        target,
                    ) && final(target)@ == locked_outcome(seen@, (*target)@, info, result).0),
    {
        let seen = read.deref();
        let found = seen.lookup(&info);
        match found {
            Some(sampler) => Ok(sampler),
            None => {
                match create() {
                    Ok(sampler) => {
                        let mut write = upgrade(read);
                        let target = write.deref_mut();
                        let ghost held = target;
                        target.insert(info, share(&sampler));
                        proof {
                            assert(exists|guard: &mut W|
                                upgrade.ensures((read,), *guard) && #[trigger] call_ensures(
                                    W::deref_mut,
                                    (guard,),
                                    held,
                                ));
                        }
                        Ok(sampler)
                    },
                    Err(error) => Err(error),
                }
            },
        }
    }
}

} // verus!
