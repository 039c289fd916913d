use gfx_hal::device::{AllocationError, OutOfMemory};
use render_core::cache::SamplerCache;
use render_core::sampler::{Anisotropic, Compare, Comparison, Filter, SamplerDescriptor, WrapMode};
use std::cell::Cell;
use std::sync::Arc;

fn descriptor(filter: Filter, wrap: WrapMode) -> SamplerDescriptor {
    SamplerDescriptor {
        min_filter: filter,
        mag_filter: filter,
        mip_filter: filter,
        wrap_u: wrap,
        wrap_v: wrap,
        wrap_w: wrap,
        lod_bias: 0,
        lod_min: 0xff7f_ffff,
        lod_max: 0x7f7f_ffff,
        comparison: Compare::Off,
        border: 0,
        normalized: true,
        anisotropic: Anisotropic::Off,
    }
}

#[test]
fn default_cache_is_empty() {
    let cache: SamplerCache<u32> = SamplerCache::default();
    assert_eq!(cache.len(), 0);
}

#[test]
fn new_cache_is_empty() {
    let cache: SamplerCache<String> = SamplerCache::new();
    assert_eq!(cache.len(), 0);
    assert!(cache.lookup(&descriptor(Filter::Linear, WrapMode::Tile)).is_none());
}

#[test]
fn second_get_reuses_the_first_sampler() {
    let mut cache: SamplerCache<String> = SamplerCache::new();
    let created = Cell::new(0);
    let first = cache
        .get(descriptor(Filter::Linear, WrapMode::Clamp), || {
            created.set(created.get() + 1);
            Ok(Arc::new(String::from("first")))
        })
        .unwrap();
    let second = cache
        .get(descriptor(Filter::Linear, WrapMode::Clamp), || {
            created.set(created.get() + 1);
            Ok(Arc::new(String::from("second")))
        })
        .unwrap();
    assert_eq!(created.get(), 1);
    assert!(Arc::ptr_eq(&first, &second));
    assert_eq!(*second, "first");
    assert_eq!(cache.len(), 1);
}

#[test]
fn different_descriptors_get_different_samplers() {
    let mut cache: SamplerCache<u32> = SamplerCache::new();
    let a = cache.get(descriptor(Filter::Linear, WrapMode::Clamp), || Ok(Arc::new(1))).unwrap();
    let b = cache.get(descriptor(Filter::Nearest, WrapMode::Clamp), || Ok(Arc::new(2))).unwrap();
    let mut compared = descriptor(Filter::Linear, WrapMode::Clamp);
    compared.comparison = Compare::On(Comparison::LessEqual);
    let c = cache.get(compared, || Ok(Arc::new(3))).unwrap();
    let mut filtered = descriptor(Filter::Linear, WrapMode::Clamp);
    filtered.anisotropic = Anisotropic::On(16);
    let d = cache.get(filtered, || Ok(Arc::new(4))).unwrap();
    assert_eq!((*a, *b, *c, *d), (1, 2, 3, 4));
    assert_eq!(cache.len(), 4);
    assert_eq!(*cache.lookup(&descriptor(Filter::Nearest, WrapMode::Clamp)).unwrap(), 2);
}

#[test]
fn failed_creation_leaves_no_entry() {
    let mut cache: SamplerCache<u32> = SamplerCache::new();
    let info = descriptor(Filter::Nearest, WrapMode::Border);
    let result = cache.get(info, || Err(AllocationError::TooManyObjects));
    assert_eq!(result.unwrap_err(), AllocationError::TooManyObjects);
    assert_eq!(cache.len(), 0);
    assert!(cache.lookup(&info).is_none());
    let result = cache.get(info, || Err(AllocationError::OutOfMemory(OutOfMemory::Device)));
    assert_eq!(result.unwrap_err(), AllocationError::OutOfMemory(OutOfMemory::Device));
    let created = cache.get(info, || Ok(Arc::new(7))).unwrap();
    assert_eq!(*created, 7);
    assert_eq!(cache.len(), 1);
}

#[test]
fn hit_does_not_consult_a_failing_creation() {
    let mut cache: SamplerCache<u32> = SamplerCache::new();
    let info = descriptor(Filter::Linear, WrapMode::Mirror);
    let first = cache.get(info, || Ok(Arc::new(11))).unwrap();
    let second = cache.get(info, || Err(AllocationError::TooManyObjects)).unwrap();
    assert!(Arc::ptr_eq(&first, &second));
}

#[test]
fn handles_share_one_resource() {
    let mut cache: SamplerCache<u32> = SamplerCache::new();
    let info = descriptor(Filter::Linear, WrapMode::Tile);
    let made = Arc::new(5);
    let kept = Arc::clone(&made);
    let got = cache.get(info, move || Ok(made)).unwrap();
    assert!(Arc::ptr_eq(&got, &kept));
    assert_eq!(Arc::strong_count(&kept), 3);
    let again = cache.lookup(&info).unwrap();
    assert!(Arc::ptr_eq(&again, &kept));
    assert_eq!(Arc::strong_count(&kept), 4);
    drop(cache);
    assert_eq!(Arc::strong_count(&kept), 3);
    assert_eq!(*again, 5);
}

#[test]
fn later_insert_wins() {
    let mut cache: SamplerCache<u32> = SamplerCache::new();
    let info = descriptor(Filter::Linear, WrapMode::Tile);
    let other = descriptor(Filter::Nearest, WrapMode::Tile);
    let first = Arc::new(1);
    let second = Arc::new(2);
    cache.insert(other, Arc::new(9));
    cache.insert(info, Arc::clone(&first));
    cache.insert(info, Arc::clone(&second));
    assert_eq!(cache.len(), 2);
    assert!(Arc::ptr_eq(&cache.lookup(&info).unwrap(), &second));
    assert_eq!(*cache.lookup(&other).unwrap(), 9);
    assert_eq!(*first, 1);
    assert_eq!(Arc::strong_count(&first), 1);
}

#[test]
fn settle_keeps_what_was_created() {
    let mut cache: SamplerCache<u32> = SamplerCache::new();
    let info = descriptor(Filter::Linear, WrapMode::Tile);
    let failed = cache.settle(info, Err(AllocationError::OutOfMemory(OutOfMemory::Host)));
    assert_eq!(failed.unwrap_err(), AllocationError::OutOfMemory(OutOfMemory::Host));
    assert_eq!(cache.len(), 0);
    let made = Arc::new(3);
    let settled = cache.settle(info, Ok(Arc::clone(&made))).unwrap();
    assert!(Arc::ptr_eq(&settled, &made));
    assert!(Arc::ptr_eq(&cache.lookup(&info).unwrap(), &made));
    assert_eq!(cache.len(), 1);
}

#[test]
fn locked_hit_does_not_upgrade() {
    let info = descriptor(Filter::Linear, WrapMode::Tile);
    let mut cache: SamplerCache<u32> = SamplerCache::new();
    let held = cache.get(info, || Ok(Arc::new(21))).unwrap();
    let lock = std::sync::RwLock::new(cache);
    let upgraded = Cell::new(0);
    let created = Cell::new(0);
    let got = SamplerCache::get_with_upgradable_lock(
        lock.read().unwrap(),
        |read| {
            upgraded.set(upgraded.get() + 1);
            drop(read);
            lock.write().unwrap()
        },
        info,
        || {
            created.set(created.get() + 1);
            Ok(Arc::new(22))
        },
    )
    .unwrap();
    assert!(Arc::ptr_eq(&got, &held));
    assert_eq!(upgraded.get(), 0);
    assert_eq!(created.get(), 0);
    assert_eq!(lock.read().unwrap().len(), 1);
}

#[test]
fn locked_miss_creates_then_upgrades_once() {
    let info = descriptor(Filter::Nearest, WrapMode::Clamp);
    let lock = std::sync::RwLock::new(SamplerCache::<u32>::new());
    let order = std::cell::RefCell::new(Vec::new());
    let got = SamplerCache::get_with_upgradable_lock(
        lock.read().unwrap(),
        |read| {
            order.borrow_mut().push("upgrade");
            drop(read);
            lock.write().unwrap()
        },
        info,
        || {
            order.borrow_mut().push("create");
            Ok(Arc::new(31))
        },
    )
    .unwrap();
    assert_eq!(*order.borrow(), vec!["create", "upgrade"]);
    assert_eq!(*got, 31);
    let cache = lock.read().unwrap();
    assert_eq!(cache.len(), 1);
    assert!(Arc::ptr_eq(&cache.lookup(&info).unwrap(), &got));
}

#[test]
fn locked_miss_with_failed_creation_does_not_upgrade() {
    let info = descriptor(Filter::Nearest, WrapMode::Clamp);
    let lock = std::sync::RwLock::new(SamplerCache::<u32>::new());
    let upgraded = Cell::new(0);
    let result = SamplerCache::get_with_upgradable_lock(
        lock.read().unwrap(),
        |read| {
            upgraded.set(upgraded.get() + 1);
            drop(read);
            lock.write().unwrap()
        },
        info,
        || Err(AllocationError::TooManyObjects),
    );
    assert_eq!(result.unwrap_err(), AllocationError::TooManyObjects);
    assert_eq!(upgraded.get(), 0);
    assert_eq!(lock.read().unwrap().len(), 0);
}

#[test]
fn racing_requests_leave_one_entry_and_two_valid_handles() {
    let info = descriptor(Filter::Linear, WrapMode::Border);
    let lock = std::sync::RwLock::new(SamplerCache::<u32>::new());
    // Both requests miss under the read lock before either of them writes.
    let first_missed = lock.read().unwrap().lookup(&info).is_none();
    let second_missed = lock.read().unwrap().lookup(&info).is_none();
    assert!(first_missed && second_missed);
    let first = Arc::new(1);
    let second = Arc::new(2);
    lock.write().unwrap().insert(info, Arc::clone(&first));
    lock.write().unwrap().insert(info, Arc::clone(&second));
    let cache = lock.read().unwrap();
    assert_eq!(cache.len(), 1);
    assert!(Arc::ptr_eq(&cache.lookup(&info).unwrap(), &second));
    assert_eq!(*first, 1);
    assert_eq!(*second, 2);
}

#[test]
fn hit_runs_no_creation() {
    let mut cache: SamplerCache<u32> = SamplerCache::new();
    let info = descriptor(Filter::Linear, WrapMode::Clamp);
    let first = cache.get(info, || Ok(Arc::new(1))).unwrap();
    let second = cache
        .get(info, || -> Result<Arc<u32>, AllocationError> { panic!("must not create") })
        .unwrap();
    assert!(Arc::ptr_eq(&first, &second));
    assert_eq!(cache.len(), 1);
}

#[test]
fn locked_hit_runs_neither_closure() {
    let info = descriptor(Filter::Linear, WrapMode::Clamp);
    let mut cache: SamplerCache<u32> = SamplerCache::default();
    let held = cache.get(info, || Ok(Arc::new(1))).unwrap();
    let lock = std::sync::RwLock::new(cache);
    let got = SamplerCache::get_with_upgradable_lock(
        lock.read().unwrap(),
        |_read| -> std::sync::RwLockWriteGuard<SamplerCache<u32>> { panic!("must not upgrade") },
        info,
        || -> Result<Arc<u32>, AllocationError> { panic!("must not create") },
    )
    .unwrap();
    assert!(Arc::ptr_eq(&got, &held));
    assert_eq!(lock.read().unwrap().len(), 1);
}

#[test]
fn locked_request_alone_does_what_get_does() {
    let info = descriptor(Filter::Nearest, WrapMode::Mirror);
    let mut plain: SamplerCache<u32> = SamplerCache::new();
    let lock = std::sync::RwLock::new(SamplerCache::<u32>::new());
    let made = Arc::new(4);
    let from_get = plain.get(info, || Ok(Arc::clone(&made))).unwrap();
    let from_lock = SamplerCache::get_with_upgradable_lock(
        lock.read().unwrap(),
        |read| {
            drop(read);
            lock.write().unwrap()
        },
        info,
        || Ok(Arc::clone(&made)),
    )
    .unwrap();
    assert!(Arc::ptr_eq(&from_get, &from_lock));
    let locked = lock.read().unwrap();
    assert_eq!(locked.len(), plain.len());
    assert!(Arc::ptr_eq(&locked.lookup(&info).unwrap(), &plain.lookup(&info).unwrap()));
}
