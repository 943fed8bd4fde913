//! Descriptor pools and what they are described by.

use crate::error::DriverError;
use crate::pool::Description;
use vstd::prelude::*;

verus! {

/// The result code with which the device reports that a pool is too fragmented to allocate
/// from.
pub const ERROR_FRAGMENTED_POOL: i32 = -12;

/// The result code with which the device reports that it is out of memory.
pub const ERROR_OUT_OF_DEVICE_MEMORY: i32 = -2;

/// The result code with which the device reports that the host is out of memory.
pub const ERROR_OUT_OF_HOST_MEMORY: i32 = -1;

/// The result code with which the device reports that a pool is out of memory.
pub const ERROR_OUT_OF_POOL_MEMORY: i32 = -1_000_069_000;

/// The error which a failed allocation of descriptor sets stands for, given the result code
/// of the device.
pub open spec fn allocation_error_spec(code: i32) -> DriverError {
    if code == ERROR_FRAGMENTED_POOL {
        DriverError::InvalidData
    } else if code == ERROR_OUT_OF_DEVICE_MEMORY || code == ERROR_OUT_OF_HOST_MEMORY || code
        == ERROR_OUT_OF_POOL_MEMORY {
        DriverError::OutOfMemory
    } else {
        DriverError::Unsupported
    }
}

/// Maps the result code of a failed allocation of descriptor sets to an error: a fragmented
/// pool is invalid data; a device, a host or a pool without memory is out of memory; anything
/// else is unsupported.
pub fn allocation_error(code: i32) -> (err: DriverError)
    ensures
        err == allocation_error_spec(code),
{
    if code == ERROR_FRAGMENTED_POOL {
        DriverError::InvalidData
    } else if code == ERROR_OUT_OF_DEVICE_MEMORY || code == ERROR_OUT_OF_HOST_MEMORY || code
        == ERROR_OUT_OF_POOL_MEMORY {
        DriverError::OutOfMemory
    } else {
        DriverError::Unsupported
    }
}

/// A field which a builder was not given before it was asked to build.
#[derive(Clone, Copy, Debug)]
pub struct UninitializedField {
    pub name: &'static str,
}

/// How many descriptors of one type a pool holds.
#[derive(Clone, Copy, Debug, Eq, Hash, PartialEq, Structural)]
pub struct DescriptorPoolSize {
    /// The raw code of the descriptor type.
    pub ty: i32,
    pub descriptor_count: u32,
}

/// Builds a [`DescriptorPoolSize`] field by field.
#[derive(Clone, Copy, Debug)]
pub struct DescriptorPoolSizeBuilder {
    pub ty: Option<i32>,
    pub descriptor_count: Option<u32>,
}

impl DescriptorPoolSizeBuilder {
    /// A builder without any field.
    pub fn new() -> (builder: Self)
        ensures
            builder.ty is None,
            builder.descriptor_count is None,
    {
        DescriptorPoolSizeBuilder { ty: None, descriptor_count: None }
    }

    /// Sets the descriptor type.
    pub fn ty(self, value: i32) -> (builder: Self)
        ensures
            builder.ty == Some(value),
            builder.descriptor_count == self.descriptor_count,
    {
        DescriptorPoolSizeBuilder { ty: Some(value), descriptor_count: self.descriptor_count }
    }

    /// Sets the number of descriptors.
    pub fn descriptor_count(self, value: u32) -> (builder: Self)
        ensures
            builder.ty == self.ty,
            builder.descriptor_count == Some(value),
    {
        DescriptorPoolSizeBuilder { ty: self.ty, descriptor_count: Some(value) }
    }

    /// Builds the size, or names the first field which was not set.
    pub fn build(self) -> (size: Result<DescriptorPoolSize, UninitializedField>)
        ensures
            match size {
                Ok(size) => self.ty == Some(size.ty) && self.descriptor_count == Some(
                    size.descriptor_count,
                ),
                Err(field) => (self.ty is None && field.name@ == "ty"@) || (self.ty is Some
                    && self.descriptor_count is None && field.name@ == "descriptor_count"@),
            },
    {
        let ty = match self.ty {
            Some(ty) => ty,
            None => {
                return Err(UninitializedField { name: "ty" });
            },
        };
        let descriptor_count = match self.descriptor_count {
            Some(descriptor_count) => descriptor_count,
            None => {
                return Err(UninitializedField { name: "descriptor_count" });
            },
        };
        Ok(DescriptorPoolSize { ty, descriptor_count })
    }
}

/// What a descriptor pool is created with, and what pools are keyed by when they are kept for
/// reuse.
#[derive(Clone, Debug, Eq, Hash, PartialEq)]
pub struct DescriptorPoolInfo {
    pub max_sets: u32,
    pub pool_sizes: Vec<DescriptorPoolSize>,
}

/// What a [`DescriptorPoolInfo`] says.
pub struct DescriptorPoolInfoView {
    pub max_sets: u32,
    pub pool_sizes: Seq<DescriptorPoolSize>,
}

impl View for DescriptorPoolInfo {
    type V = DescriptorPoolInfoView;

    open spec fn view(&self) -> DescriptorPoolInfoView {
        DescriptorPoolInfoView { max_sets: self.max_sets, pool_sizes: self.pool_sizes@ }
    }
}

impl DescriptorPoolInfo {
    /// Starts to build the description of a pool for up to `max_sets` descriptor sets.
    pub fn new(max_sets: u32) -> (builder: DescriptorPoolInfoBuilder)
        ensures
            builder.max_sets == Some(max_sets),
            builder.pool_sizes is None,
    {
        DescriptorPoolInfoBuilder::new().max_sets(max_sets)
    }

    /// Builds the description; see [`DescriptorPoolInfoBuilder::build`].
    pub fn from_builder(info: DescriptorPoolInfoBuilder) -> (built: DescriptorPoolInfo)
        requires
            info.max_sets is Some,
            info.pool_sizes is Some,
        ensures
            Some(built.max_sets) == info.max_sets,
            Some(built.pool_sizes) == info.pool_sizes,
    {
        match info.build() {
            Ok(built) => built,
            Err(_) => {
                proof {
                    assert(false);
                }
                DescriptorPoolInfo { max_sets: 0, pool_sizes: Vec::new() }
            },
        }
    }
}

impl Description for DescriptorPoolInfo {
    fn matches(&self, other: &Self) -> (same: bool) {
        if self.max_sets != other.max_sets || self.pool_sizes.len() != other.pool_sizes.len() {
            return false;
        }
        let mut i: usize = 0;
        while i < self.pool_sizes.len()
            invariant
                i <= self.pool_sizes@.len(),
                self.pool_sizes@.len() == other.pool_sizes@.len(),
                forall|j: int| 0 <= j < i ==> self.pool_sizes@[j] == other.pool_sizes@[j],
            decreases self.pool_sizes@.len() - i,
        {
            if self.pool_sizes[i] != other.pool_sizes[i] {
                return false;
            }
            i += 1;
        }
        assert(self.pool_sizes@ =~= other.pool_sizes@);
        true
    }

    fn duplicate(&self) -> (copy: Self) {
        let mut pool_sizes: Vec<DescriptorPoolSize> = Vec::new();
        let mut i: usize = 0;
        while i < self.pool_sizes.len()
            invariant
                i <= self.pool_sizes@.len(),
                pool_sizes@ == self.pool_sizes@.take(i as int),
            decreases self.pool_sizes@.len() - i,
        {
            pool_sizes.push(self.pool_sizes[i]);
            assert(self.pool_sizes@.take(i + 1) =~= self.pool_sizes@.take(i as int).push(
                self.pool_sizes@[i as int],
            ));
            i += 1;
        }
        assert(self.pool_sizes@.take(i as int) =~= self.pool_sizes@);
        DescriptorPoolInfo { max_sets: self.max_sets, pool_sizes }
    }
}

/// Builds a [`DescriptorPoolInfo`] field by field.
#[derive(Clone, Debug)]
pub struct DescriptorPoolInfoBuilder {
    pub max_sets: Option<u32>,
    pub pool_sizes: Option<Vec<DescriptorPoolSize>>,
}

impl DescriptorPoolInfoBuilder {
    /// A builder without any field.
    pub fn new() -> (builder: Self)
        ensures
            builder.max_sets is None,
            builder.pool_sizes is None,
    {
        DescriptorPoolInfoBuilder { max_sets: None, pool_sizes: None }
    }

    /// Sets the number of descriptor sets which the pool can hold.
    pub fn max_sets(self, value: u32) -> (builder: Self)
        ensures
            builder.max_sets == Some(value),
            builder.pool_sizes == self.pool_sizes,
    {
        DescriptorPoolInfoBuilder { max_sets: Some(value), pool_sizes: self.pool_sizes }
    }

    /// Sets the numbers of descriptors which the pool can hold, by type.
    pub fn pool_sizes(self, value: Vec<DescriptorPoolSize>) -> (builder: Self)
        ensures
            builder.max_sets == self.max_sets,
            builder.pool_sizes == Some(value),
    {
        DescriptorPoolInfoBuilder { max_sets: self.max_sets, pool_sizes: Some(value) }
    }

    /// Builds the description, or names the first field which was not set.
    pub fn build(self) -> (info: Result<DescriptorPoolInfo, UninitializedField>)
        ensures
            match info {
                Ok(info) => self.max_sets == Some(info.max_sets) && self.pool_sizes == Some(
                    info.pool_sizes,
                ),
                Err(field) => (self.max_sets is None && field.name@ == "max_sets"@) || (
                self.max_sets is Some && self.pool_sizes is None && field.name@ == "pool_sizes"@),
            },
    {
        let max_sets = match self.max_sets {
            Some(max_sets) => max_sets,
            None => {
                return Err(UninitializedField { name: "max_sets" });
            },
        };
        let pool_sizes = match self.pool_sizes {
            Some(pool_sizes) => pool_sizes,
            None => {
                return Err(UninitializedField { name: "pool_sizes" });
            },
        };
        Ok(DescriptorPoolInfo { max_sets, pool_sizes })
    }
}

} // verus!
