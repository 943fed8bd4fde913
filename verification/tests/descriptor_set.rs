use ash::vk;
use screen_13::driver::descriptor_set::{
    allocation_error, DescriptorPoolInfo, DescriptorPoolInfoBuilder, DescriptorPoolSize,
    DescriptorPoolSizeBuilder,
};
use screen_13::error::DriverError;

#[test]
fn allocation_errors_are_sorted_by_their_result_code() {
    assert_eq!(
        allocation_error(vk::Result::ERROR_FRAGMENTED_POOL.as_raw()),
        DriverError::InvalidData
    );
    assert_eq!(
        allocation_error(vk::Result::ERROR_OUT_OF_DEVICE_MEMORY.as_raw()),
        DriverError::OutOfMemory
    );
    assert_eq!(
        allocation_error(vk::Result::ERROR_OUT_OF_HOST_MEMORY.as_raw()),
        DriverError::OutOfMemory
    );
    assert_eq!(
        allocation_error(vk::Result::ERROR_OUT_OF_POOL_MEMORY.as_raw()),
        DriverError::OutOfMemory
    );
    assert_eq!(
        allocation_error(vk::Result::ERROR_DEVICE_LOST.as_raw()),
        DriverError::Unsupported
    );
    assert_eq!(allocation_error(0), DriverError::Unsupported);
    assert_eq!(allocation_error(i32::MIN), DriverError::Unsupported);
}

#[test]
fn a_pool_description_is_built_from_its_sizes() {
    let sizes = vec![
        DescriptorPoolSize {
            ty: 1,
            descriptor_count: 4,
        },
        DescriptorPoolSizeBuilder::new()
            .descriptor_count(2)
            .ty(6)
            .build()
            .unwrap(),
    ];
    let builder = DescriptorPoolInfo::new(8).pool_sizes(sizes.clone());
    let info = DescriptorPoolInfo::from_builder(builder);
    assert_eq!(
        info,
        DescriptorPoolInfo {
            max_sets: 8,
            pool_sizes: sizes
        }
    );
    assert_eq!(info.pool_sizes[1].ty, 6);
}

#[test]
fn a_pool_description_needs_both_fields() {
    assert_eq!(
        DescriptorPoolInfoBuilder::new().build().unwrap_err().name,
        "max_sets"
    );
    assert_eq!(
        DescriptorPoolInfo::new(1).build().unwrap_err().name,
        "pool_sizes"
    );
    assert_eq!(
        DescriptorPoolSizeBuilder::new().build().unwrap_err().name,
        "ty"
    );
    assert_eq!(
        DescriptorPoolSizeBuilder::new()
            .ty(1)
            .build()
            .unwrap_err()
            .name,
        "descriptor_count"
    );
}
