//! The transitions which graph objects can make.
//!
//! A resource is either unattached (a plain resource, a binding, or one of these on lease
//! from a pool) or attached to a graph as a node. The transitions between these states form
//! a small closed relation: what is not listed in [`edge`] cannot be done.

use vstd::prelude::*;

verus! {

/// The kinds of resources which a graph can hold.
#[derive(Clone, Copy, Debug, PartialEq, Eq, Hash, Structural)]
pub enum ResourceKind {
    AccelerationStructure,
    Buffer,
    Image,
    SwapchainImage,
}

/// The kinds of pipelines which can be bound to a pass.
#[derive(Clone, Copy, Debug, PartialEq, Eq, Hash, Structural)]
pub enum PipelineKind {
    Compute,
    Graphic,
    RayTrace,
}

/// The state of an object which takes part in a transition.
#[derive(Clone, Copy, Debug, PartialEq, Eq, Hash, Structural)]
pub enum Object {
    /// A device resource which has never been bound.
    Resource(ResourceKind),
    /// An owned resource together with its last access, not attached to a graph.
    Binding(ResourceKind),
    /// A binding which belongs to a pool, not attached to a graph.
    LeaseBinding(ResourceKind),
    /// An owned resource attached to a graph.
    Node(ResourceKind),
    /// A leased resource attached to a graph.
    LeaseNode(ResourceKind),
    /// A resource as handed out by a pool.
    LeasedResource(ResourceKind),
    /// A binding as handed out by a pool.
    LeasedBinding(ResourceKind),
    /// A pipeline, shared with the pass it is bound to.
    Pipeline(PipelineKind),
    /// A pass to which a pipeline has been bound.
    PipelinePass(PipelineKind),
}

/// What a transition is made on.
#[derive(Clone, Copy, Debug, PartialEq, Eq, Hash, Structural)]
pub enum Owner {
    /// A graph under construction: resources are bound to it and unbound from it.
    RenderGraph,
    /// A pass under construction: a pipeline is bound to it.
    PassRef,
    /// A resolved graph: the swapchain image is taken out of it.
    Resolver,
}


impl Object {
    /// Whether this is a state of a resource which is not attached to a graph.
    pub open spec fn is_unattached(self) -> bool {
        self is Resource || self is Binding || self is LeaseBinding || self is LeasedResource
            || self is LeasedBinding
    }

    /// Whether this is a state of a resource which is attached to a graph.
    pub open spec fn is_attached(self) -> bool {
        self is Node || self is LeaseNode
    }

    /// The kind of resource of a resource state.
    pub open spec fn resource_kind(self) -> Option<ResourceKind> {
        match self {
            Object::Resource(kind) => Some(kind),
            Object::Binding(kind) => Some(kind),
            Object::LeaseBinding(kind) => Some(kind),
            Object::Node(kind) => Some(kind),
            Object::LeaseNode(kind) => Some(kind),
            Object::LeasedResource(kind) => Some(kind),
            Object::LeasedBinding(kind) => Some(kind),
            Object::Pipeline(_) => None,
            Object::PipelinePass(_) => None,
        }
    }
}

/// The transition relation: the state which `source` takes when it is handed to `owner`, or
/// `None` where there is no such transition.
///
/// Binding to a graph: any resource and any binding becomes a node; a lease binding of an
/// acceleration structure, a buffer or an image becomes a lease node; so does a buffer
/// binding or an image binding handed out by a pool, while an acceleration structure handed
/// out by a pool becomes a plain node. Unbinding from a graph: any node becomes a binding,
/// and a lease node of a buffer or of an image becomes a lease binding. Binding to a pass:
/// any pipeline makes it a pipeline pass. Unbinding from a resolved graph: the node of the
/// swapchain image becomes the swapchain image itself.
pub open spec fn edge(owner: Owner, source: Object) -> Option<Object> {
    match (owner, source) {
        (Owner::RenderGraph, Object::Resource(kind)) => Some(Object::Node(kind)),
        (Owner::RenderGraph, Object::Binding(kind)) => Some(Object::Node(kind)),
        (Owner::RenderGraph, Object::LeaseBinding(kind)) => if kind
            != ResourceKind::SwapchainImage {
            Some(Object::LeaseNode(kind))
        } else {
            None
        },
        (Owner::RenderGraph, Object::Node(kind)) => Some(Object::Binding(kind)),
        (Owner::RenderGraph, Object::LeaseNode(kind)) => if kind == ResourceKind::Buffer || kind
            == ResourceKind::Image {
            Some(Object::LeaseBinding(kind))
        } else {
            None
        },
        (Owner::RenderGraph, Object::LeasedResource(kind)) => if kind
            == ResourceKind::AccelerationStructure {
            Some(Object::Node(kind))
        } else {
            None
        },
        (Owner::RenderGraph, Object::LeasedBinding(kind)) => if kind == ResourceKind::Buffer
            || kind == ResourceKind::Image {
            Some(Object::LeaseNode(kind))
        } else {
            None
        },
        (Owner::PassRef, Object::Pipeline(kind)) => Some(Object::PipelinePass(kind)),
        (Owner::Resolver, Object::Node(kind)) => if kind == ResourceKind::SwapchainImage {
            Some(Object::Resource(kind))
        } else {
            None
        },
        _ => None,
    }
}

/// What transitions are made on: a graph, a pass or a resolved graph.
pub trait Owning {
    /// Which of the three this type is.
    spec fn owner() -> Owner;
}

/// A type which stands for one state of the relation.
pub trait Typed {
    /// The state which the type stands for.
    spec fn state() -> Object;
}

/// A marker which says that some graph object can transition into a different graph object
/// when handed to `Graph`; it is a one-way transition unless the other direction has been
/// implemented too.
///
/// An implementation shows that the relation has this transition, from the state of the
/// implementing type to the state of the result: a transition which is not part of [`edge`]
/// cannot be declared.
pub trait Edge<Graph: Owning>: Typed {
    type Result: Typed;

    /// The relation has this transition.
    proof fn declared()
        ensures
            edge(Graph::owner(), Self::state()) == Some(<Self::Result as Typed>::state()),
    ;
}

/// Whether handing `source` to a graph attaches it.
pub open spec fn binds(source: Object) -> bool {
    source.is_unattached() && edge(Owner::RenderGraph, source) is Some
}

/// Whether handing `source` to a graph detaches it.
pub open spec fn unbinds(source: Object) -> bool {
    source.is_attached() && edge(Owner::RenderGraph, source) is Some
}

/// Looks up the transition of `source` on `owner`.
pub fn edge_result(owner: Owner, source: Object) -> (target: Option<Object>)
    ensures
        target == edge(owner, source),
{
    match owner {
        Owner::RenderGraph => match source {
            Object::Resource(kind) => Some(Object::Node(kind)),
            Object::Binding(kind) => Some(Object::Node(kind)),
            Object::LeaseBinding(kind) => match kind {
                ResourceKind::SwapchainImage => None,
                _ => Some(Object::LeaseNode(kind)),
            },
            Object::Node(kind) => Some(Object::Binding(kind)),
            Object::LeaseNode(kind) => match kind {
                ResourceKind::Buffer => Some(Object::LeaseBinding(kind)),
                ResourceKind::Image => Some(Object::LeaseBinding(kind)),
                _ => None,
            },
            Object::LeasedResource(kind) => match kind {
                ResourceKind::AccelerationStructure => Some(Object::Node(kind)),
                _ => None,
            },
            Object::LeasedBinding(kind) => match kind {
                ResourceKind::Buffer => Some(Object::LeaseNode(kind)),
                ResourceKind::Image => Some(Object::LeaseNode(kind)),
                _ => None,
            },
            _ => None,
        },
        Owner::PassRef => match source {
            Object::Pipeline(kind) => Some(Object::PipelinePass(kind)),
            _ => None,
        },
        Owner::Resolver => match source {
            Object::Node(ResourceKind::SwapchainImage) => Some(
                Object::Resource(ResourceKind::SwapchainImage),
            ),
            _ => None,
        },
    }
}

/// Every transition on a graph either attaches an unattached resource or detaches an attached
/// one, and keeps the kind of the resource; on a pass it keeps the kind of the pipeline; on
/// a resolved graph it is made on the swapchain image alone.
pub proof fn lemma_edge_shape(owner: Owner, source: Object)
    requires
        edge(owner, source) is Some,
    ensures
        owner == Owner::RenderGraph ==> source.resource_kind() is Some && edge(
            owner,
            source,
        )->0.resource_kind() == source.resource_kind() && (source.is_unattached() <==> edge(
            owner,
            source,
        )->0.is_attached()) && (source.is_attached() <==> edge(owner, source)->0.is_unattached()),
        owner == Owner::PassRef ==> exists|kind: PipelineKind|
            source == Object::Pipeline(kind) && edge(owner, source) == Some(
                Object::PipelinePass(kind),
            ),
        owner == Owner::Resolver ==> source == Object::Node(ResourceKind::SwapchainImage) && edge(
            owner,
            source,
        ) == Some(Object::Resource(ResourceKind::SwapchainImage)),
{
    if owner == Owner::PassRef {
        let kind = source->Pipeline_0;
        assert(source == Object::Pipeline(kind));
    }
}

/// No transition can be undone on a graph other than the one between a node and a binding,
/// and that between a lease node and a lease binding of a buffer or of an image.
pub proof fn lemma_edge_round_trip(source: Object)
    requires
        edge(Owner::RenderGraph, source) is Some,
    ensures
        edge(Owner::RenderGraph, edge(Owner::RenderGraph, source)->0) == Some(source) <==> (
        source is Binding || source is Node || ((source is LeaseBinding || source is LeaseNode)
            && (source.resource_kind() == Some(ResourceKind::Buffer) || source.resource_kind()
            == Some(ResourceKind::Image)))),
{
}

} // verus!
