//! Resources, the bindings which own them, and the nodes which name them in a graph.

use super::edge::{Object, Owner, ResourceKind};
use crate::access::Access;
use vstd::prelude::*;

verus! {

/// An image of the swapchain as the presentation engine hands it out.
#[derive(Clone, Copy, Debug, PartialEq, Eq, Hash, Structural)]
pub struct SwapchainImage {
    /// The index of the image within the swapchain.
    pub idx: u32,
    /// The handle of the image.
    pub image: u64,
    /// The semaphore which is signalled when the image has been acquired.
    pub acquired: u64,
    /// The semaphore which is signalled when the image has been rendered.
    pub rendered: u64,
}

/// A device resource, named by its handle.
#[derive(Clone, Copy, Debug, PartialEq, Eq, Hash, Structural)]
pub enum Resource {
    AccelerationStructure(u64),
    Buffer(u64),
    Image(u64),
    SwapchainImage(SwapchainImage),
}

impl Resource {
    /// The kind of this resource.
    pub open spec fn kind(self) -> ResourceKind {
        match self {
            Resource::AccelerationStructure(_) => ResourceKind::AccelerationStructure,
            Resource::Buffer(_) => ResourceKind::Buffer,
            Resource::Image(_) => ResourceKind::Image,
            Resource::SwapchainImage(_) => ResourceKind::SwapchainImage,
        }
    }

    /// The handle of this resource.
    pub open spec fn handle(self) -> u64 {
        match self {
            Resource::AccelerationStructure(handle) => handle,
            Resource::Buffer(handle) => handle,
            Resource::Image(handle) => handle,
            Resource::SwapchainImage(image) => image.image,
        }
    }

    /// Whether `self` and `other` are the same device object: of one kind, with one handle.
    pub open spec fn same_object(self, other: Resource) -> bool {
        self.kind() == other.kind() && self.handle() == other.handle()
    }

    /// The kind of this resource.
    pub fn get_kind(&self) -> (kind: ResourceKind)
        ensures
            kind == self.kind(),
    {
        match self {
            Resource::AccelerationStructure(_) => ResourceKind::AccelerationStructure,
            Resource::Buffer(_) => ResourceKind::Buffer,
            Resource::Image(_) => ResourceKind::Image,
            Resource::SwapchainImage(_) => ResourceKind::SwapchainImage,
        }
    }

    /// The handle of this resource.
    pub fn get_handle(&self) -> (handle: u64)
        ensures
            handle == self.handle(),
    {
        match self {
            Resource::AccelerationStructure(handle) => *handle,
            Resource::Buffer(handle) => *handle,
            Resource::Image(handle) => *handle,
            Resource::SwapchainImage(image) => image.image,
        }
    }

    /// Whether `self` and `other` are the same device object.
    pub fn is_same_object(&self, other: &Resource) -> (same: bool)
        ensures
            same == self.same_object(*other),
    {
        self.get_kind() == other.get_kind() && self.get_handle() == other.get_handle()
    }
}

/// A resource which is not attached to a graph, with the state in which it is held and the
/// access which was made of it last. It is the sole owner of the resource.
#[derive(Debug, PartialEq, Eq)]
pub struct Binding {
    /// The state in which the resource is held.
    pub object: Object,
    pub resource: Resource,
    /// The last access of the resource.
    pub access: Access,
}

impl Binding {
    /// Whether the state is one of an unattached resource of the kind of this resource.
    pub open spec fn wf(&self) -> bool {
        self.object.is_unattached() && self.object.resource_kind() == Some(self.resource.kind())
    }

    /// A resource which has never been bound, and which nothing has touched yet.
    pub fn from_resource(resource: Resource) -> (binding: Binding)
        ensures
            binding.wf(),
            binding.object == Object::Resource(resource.kind()),
            binding.resource == resource,
            binding.access == Access::nothing_spec(),
    {
        Binding { object: Object::Resource(resource.get_kind()), resource,
            access: Access::nothing() }
    }

    /// An owned resource with its last access.
    pub fn new(resource: Resource, access: Access) -> (binding: Binding)
        ensures
            binding.wf(),
            binding.object == Object::Binding(resource.kind()),
            binding.resource == resource,
            binding.access == access,
    {
        Binding { object: Object::Binding(resource.get_kind()), resource, access }
    }

    /// A resource which belongs to a pool, with its last access.
    pub fn leased(resource: Resource, access: Access) -> (binding: Binding)
        ensures
            binding.wf(),
            binding.object == Object::LeaseBinding(resource.kind()),
            binding.resource == resource,
            binding.access == access,
    {
        Binding { object: Object::LeaseBinding(resource.get_kind()), resource, access }
    }

    /// A resource as a pool hands it out, which nothing has touched yet.
    pub fn leased_resource(resource: Resource) -> (binding: Binding)
        ensures
            binding.wf(),
            binding.object == Object::LeasedResource(resource.kind()),
            binding.resource == resource,
            binding.access == Access::nothing_spec(),
    {
        Binding {
            object: Object::LeasedResource(resource.get_kind()),
            resource,
            access: Access::nothing(),
        }
    }

    /// A binding as a pool hands it out, with its last access.
    pub fn leased_binding(resource: Resource, access: Access) -> (binding: Binding)
        ensures
            binding.wf(),
            binding.object == Object::LeasedBinding(resource.kind()),
            binding.resource == resource,
            binding.access == access,
    {
        Binding { object: Object::LeasedBinding(resource.get_kind()), resource, access }
    }

    /// Whether the state is one of an unattached resource of the kind of this resource.
    pub fn is_wf(&self) -> (wf: bool)
        ensures
            wf == self.wf(),
    {
        let kind = self.resource.get_kind();
        match self.object {
            Object::Resource(k) => k == kind,
            Object::Binding(k) => k == kind,
            Object::LeaseBinding(k) => k == kind,
            Object::LeasedResource(k) => k == kind,
            Object::LeasedBinding(k) => k == kind,
            _ => false,
        }
    }
}

/// The name of a resource within the graph it is attached to.
#[derive(Clone, Copy, Debug, PartialEq, Eq, Hash, Structural)]
pub struct Node {
    /// The state in which the graph holds the resource.
    pub object: Object,
    /// The tag of the graph which made this node.
    pub graph: u64,
    /// The index of the resource within that graph.
    pub idx: usize,
}

/// A transition which is not part of the relation.
#[derive(Clone, Copy, Debug, PartialEq, Eq, Hash, Structural)]
pub struct EdgeError {
    /// What the transition was tried on.
    pub owner: Owner,
    /// The state of the object which was handed over.
    pub source: Object,
}

} // verus!
