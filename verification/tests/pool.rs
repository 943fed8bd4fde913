use screen_13::driver::descriptor_set::{DescriptorPoolInfo, DescriptorPoolSize};
use screen_13::error::DriverError;
use screen_13::pool::{Description, HashPool, Lease};

fn info(max_sets: u32) -> DescriptorPoolInfo {
    DescriptorPoolInfo {
        max_sets,
        pool_sizes: vec![DescriptorPoolSize {
            ty: 1,
            descriptor_count: 4,
        }],
    }
}

#[test]
fn lease_round_trip_reuses_the_same_object() {
    let mut pool: HashPool<DescriptorPoolInfo> = HashPool::new(7);
    assert_eq!(pool.id(), 7);
    assert!(pool.lease(&info(2)).is_none());
    let lease = pool.lease_created(info(2), Ok(41)).unwrap();
    assert_eq!(lease.object, 41);
    assert_eq!(lease.pool, 7);
    assert_eq!(lease.info, info(2));
    assert!(pool.is_leased(41));
    assert!(pool.contains(41));
    assert_eq!(pool.available_count(&info(2)), 0);
    assert_eq!(pool.release(lease), None);
    assert!(!pool.is_leased(41));
    assert!(pool.contains(41));
    assert_eq!(pool.available_count(&info(2)), 1);
    let again = pool.lease(&info(2)).unwrap();
    assert_eq!(again.object, 41);
    assert!(pool.is_leased(41));
}

#[test]
fn the_object_which_came_back_last_is_lent_out_first() {
    let mut pool: HashPool<DescriptorPoolInfo> = HashPool::new(1);
    let a = pool.lease_created(info(2), Ok(1)).unwrap();
    let b = pool.lease_created(info(2), Ok(2)).unwrap();
    let c = pool.lease_created(info(2), Ok(3)).unwrap();
    pool.release(b);
    pool.release(c);
    pool.release(a);
    assert_eq!(pool.available_count(&info(2)), 3);
    assert_eq!(pool.lease(&info(2)).unwrap().object, 1);
    assert_eq!(pool.lease(&info(2)).unwrap().object, 3);
    assert_eq!(pool.lease(&info(2)).unwrap().object, 2);
    assert!(pool.lease(&info(2)).is_none());
}

#[test]
fn objects_are_kept_by_their_description() {
    let mut pool: HashPool<DescriptorPoolInfo> = HashPool::new(1);
    let small = pool.lease_created(info(2), Ok(1)).unwrap();
    let large = pool.lease_created(info(3), Ok(2)).unwrap();
    pool.release(small);
    pool.release(large);
    assert!(pool.lease(&info(4)).is_none());
    let mut other = info(2);
    other.pool_sizes[0].descriptor_count = 5;
    assert!(pool.lease(&other).is_none());
    assert_eq!(pool.lease(&info(3)).unwrap().object, 2);
    assert_eq!(pool.lease(&info(2)).unwrap().object, 1);
}

#[test]
fn what_is_on_lease_is_not_lent_out_again() {
    let mut pool: HashPool<DescriptorPoolInfo> = HashPool::new(1);
    let lease = pool.lease_created(info(2), Ok(1)).unwrap();
    assert!(pool.lease(&info(2)).is_none());
    // Giving the same object back twice does not put it into the pool twice.
    let forged = Lease {
        object: lease.object,
        info: info(2),
        pool: lease.pool,
    };
    assert_eq!(pool.release(lease), None);
    assert_eq!(pool.release(forged), Some(1));
    assert_eq!(pool.available_count(&info(2)), 1);
}

#[test]
fn the_error_of_the_device_is_passed_on() {
    let mut pool: HashPool<DescriptorPoolInfo> = HashPool::new(1);
    for err in [
        DriverError::InvalidData,
        DriverError::OutOfMemory,
        DriverError::Unsupported,
    ] {
        assert_eq!(pool.lease_created(info(2), Err(err)).err(), Some(err));
    }
    assert!(!pool.contains(0));
}

#[test]
fn an_object_which_the_pool_holds_is_not_taken_a_second_time() {
    let mut pool: HashPool<DescriptorPoolInfo> = HashPool::new(1);
    let lease = pool.lease_created(info(2), Ok(9)).unwrap();
    assert_eq!(
        pool.lease_created(info(3), Ok(9)).err(),
        Some(DriverError::InvalidData)
    );
    pool.release(lease);
    assert_eq!(
        pool.lease_created(info(3), Ok(9)).err(),
        Some(DriverError::InvalidData)
    );
    assert_eq!(pool.available_count(&info(3)), 0);
}

#[test]
fn a_lease_of_another_pool_is_handed_back() {
    let mut one: HashPool<DescriptorPoolInfo> = HashPool::new(1);
    let mut two: HashPool<DescriptorPoolInfo> = HashPool::new(2);
    let lease = one.lease_created(info(2), Ok(5)).unwrap();
    two.lease_created(info(2), Ok(5)).unwrap();
    assert_eq!(two.release(lease), Some(5));
    assert!(two.is_leased(5));
    assert_eq!(two.available_count(&info(2)), 0);
}

#[test]
fn a_cleared_pool_destroys_what_comes_back() {
    let mut pool: HashPool<DescriptorPoolInfo> = HashPool::new(1);
    let a = pool.lease_created(info(2), Ok(1)).unwrap();
    let b = pool.lease_created(info(2), Ok(2)).unwrap();
    let c = pool.lease_created(info(3), Ok(3)).unwrap();
    pool.release(a);
    pool.release(c);
    let mut destroyed = pool.clear();
    destroyed.sort();
    assert_eq!(destroyed, vec![1, 3]);
    assert_eq!(pool.available_count(&info(2)), 0);
    assert!(!pool.is_leased(2));
    assert_eq!(pool.release(b), Some(2));
    assert!(pool.lease(&info(2)).is_none());
    assert!(pool.clear().is_empty());
}

#[test]
fn descriptions_match_by_what_they_say() {
    assert!(info(2).matches(&info(2)));
    assert!(!info(2).matches(&info(3)));
    let mut longer = info(2);
    longer.pool_sizes.push(DescriptorPoolSize {
        ty: 2,
        descriptor_count: 1,
    });
    assert!(!info(2).matches(&longer));
    assert_eq!(longer.duplicate(), longer);
}
