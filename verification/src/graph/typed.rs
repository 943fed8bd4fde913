//! The states of the relation as types.
//!
//! Each type holds a value of the state it is named after. To declare a transition between
//! two of them is to implement [`Edge`], which has to show that the relation has it. A graph
//! binds and unbinds typed values along the declared transitions alone: see [`bind`] and
//! [`unbind`].

use super::binding::{Binding, Node, Resource, SwapchainImage};
use super::edge::{edge, Edge, Object, Owner, Owning, PipelineKind, ResourceKind, Typed};
use crate::access::Access;
use super::pass::Pipeline;
use super::render_graph::{PassRef, PipelinePassRef, RenderGraph, Slot};
use super::resolver::Resolver;
use crate::driver::image::Image;
use crate::pool::Lease;
use vstd::prelude::*;

verus! {

impl Owning for RenderGraph {
    open spec fn owner() -> Owner {
        Owner::RenderGraph
    }
}

impl Owning for PassRef {
    open spec fn owner() -> Owner {
        Owner::PassRef
    }
}

impl Owning for Resolver {
    open spec fn owner() -> Owner {
        Owner::Resolver
    }
}

/// A type which holds a resource that is not attached to a graph.
pub trait Unattached: Typed + Sized {
    /// The binding which the value holds.
    spec fn binding(&self) -> Binding;

    /// The state which the type stands for.
    fn state_of() -> (state: Object)
        ensures
            state == Self::state(),
    ;

    /// The binding which the value holds.
    fn into_binding(self) -> (binding: Binding)
        ensures
            binding == self.binding(),
    ;
}

/// A type which can hold any binding: what comes out of a graph.
pub trait Detached: Unattached {
    /// The value which holds `binding`.
    fn from_binding(binding: Binding) -> (value: Self)
        ensures
            value.binding() == binding,
    ;
}

/// A type which holds a node of a graph.
pub trait Attached: Typed + Sized {
    /// The node which the value holds.
    spec fn node(&self) -> Node;

    /// The state which the type stands for.
    fn state_of() -> (state: Object)
        ensures
            state == Self::state(),
    ;

    /// The node which the value holds.
    fn into_node(self) -> (node: Node)
        ensures
            node == self.node(),
    ;

    /// The value which holds `node`.
    fn from_node(node: Node) -> (value: Self)
        ensures
            value.node() == node,
    ;
}

/// An acceleration structure of the device.
pub struct AccelerationStructure(pub u64);

/// A buffer of the device.
pub struct Buffer(pub u64);

impl Typed for AccelerationStructure {
    open spec fn state() -> Object {
        Object::Resource(ResourceKind::AccelerationStructure)
    }
}

impl Typed for Buffer {
    open spec fn state() -> Object {
        Object::Resource(ResourceKind::Buffer)
    }
}

impl Typed for Image {
    open spec fn state() -> Object {
        Object::Resource(ResourceKind::Image)
    }
}

impl Typed for SwapchainImage {
    open spec fn state() -> Object {
        Object::Resource(ResourceKind::SwapchainImage)
    }
}

impl Unattached for AccelerationStructure {
    open spec fn binding(&self) -> Binding {
        Binding {
            object: Object::Resource(ResourceKind::AccelerationStructure),
            resource: Resource::AccelerationStructure(self.0),
            access: Access::nothing_spec(),
        }
    }

    fn state_of() -> (state: Object) {
        Object::Resource(ResourceKind::AccelerationStructure)
    }

    fn into_binding(self) -> (binding: Binding) {
        Binding::from_resource(Resource::AccelerationStructure(self.0))
    }
}

impl Unattached for Buffer {
    open spec fn binding(&self) -> Binding {
        Binding {
            object: Object::Resource(ResourceKind::Buffer),
            resource: Resource::Buffer(self.0),
            access: Access::nothing_spec(),
        }
    }

    fn state_of() -> (state: Object) {
        Object::Resource(ResourceKind::Buffer)
    }

    fn into_binding(self) -> (binding: Binding) {
        Binding::from_resource(Resource::Buffer(self.0))
    }
}

impl Unattached for SwapchainImage {
    open spec fn binding(&self) -> Binding {
        Binding {
            object: Object::Resource(ResourceKind::SwapchainImage),
            resource: Resource::SwapchainImage(*self),
            access: Access::nothing_spec(),
        }
    }

    fn state_of() -> (state: Object) {
        Object::Resource(ResourceKind::SwapchainImage)
    }

    fn into_binding(self) -> (binding: Binding) {
        Binding::from_resource(Resource::SwapchainImage(self))
    }
}

/// The binding of an acceleration structure.
pub struct AccelerationStructureBinding(pub Binding);

impl Typed for AccelerationStructureBinding {
    open spec fn state() -> Object {
        Object::Binding(ResourceKind::AccelerationStructure)
    }
}

impl Unattached for AccelerationStructureBinding {
    open spec fn binding(&self) -> Binding {
        self.0
    }

    fn state_of() -> (state: Object) {
        Object::Binding(ResourceKind::AccelerationStructure)
    }

    fn into_binding(self) -> (binding: Binding) {
        self.0
    }
}

impl Detached for AccelerationStructureBinding {
    fn from_binding(binding: Binding) -> (value: Self) {
        AccelerationStructureBinding(binding)
    }
}

/// The node of an acceleration structure.
pub struct AccelerationStructureNode(pub Node);

impl Typed for AccelerationStructureNode {
    open spec fn state() -> Object {
        Object::Node(ResourceKind::AccelerationStructure)
    }
}

impl Attached for AccelerationStructureNode {
    open spec fn node(&self) -> Node {
        self.0
    }

    fn state_of() -> (state: Object) {
        Object::Node(ResourceKind::AccelerationStructure)
    }

    fn into_node(self) -> (node: Node) {
        self.0
    }

    fn from_node(node: Node) -> (value: Self) {
        AccelerationStructureNode(node)
    }
}

/// The binding of an acceleration structure which belongs to a pool.
pub struct AccelerationStructureLeaseBinding(pub Binding);

impl Typed for AccelerationStructureLeaseBinding {
    open spec fn state() -> Object {
        Object::LeaseBinding(ResourceKind::AccelerationStructure)
    }
}

impl Unattached for AccelerationStructureLeaseBinding {
    open spec fn binding(&self) -> Binding {
        self.0
    }

    fn state_of() -> (state: Object) {
        Object::LeaseBinding(ResourceKind::AccelerationStructure)
    }

    fn into_binding(self) -> (binding: Binding) {
        self.0
    }
}

impl Detached for AccelerationStructureLeaseBinding {
    fn from_binding(binding: Binding) -> (value: Self) {
        AccelerationStructureLeaseBinding(binding)
    }
}

/// The node of an acceleration structure which belongs to a pool.
pub struct AccelerationStructureLeaseNode(pub Node);

impl Typed for AccelerationStructureLeaseNode {
    open spec fn state() -> Object {
        Object::LeaseNode(ResourceKind::AccelerationStructure)
    }
}

impl Attached for AccelerationStructureLeaseNode {
    open spec fn node(&self) -> Node {
        self.0
    }

    fn state_of() -> (state: Object) {
        Object::LeaseNode(ResourceKind::AccelerationStructure)
    }

    fn into_node(self) -> (node: Node) {
        self.0
    }

    fn from_node(node: Node) -> (value: Self) {
        AccelerationStructureLeaseNode(node)
    }
}

/// The binding of a buffer.
pub struct BufferBinding(pub Binding);

impl Typed for BufferBinding {
    open spec fn state() -> Object {
        Object::Binding(ResourceKind::Buffer)
    }
}

impl Unattached for BufferBinding {
    open spec fn binding(&self) -> Binding {
        self.0
    }

    fn state_of() -> (state: Object) {
        Object::Binding(ResourceKind::Buffer)
    }

    fn into_binding(self) -> (binding: Binding) {
        self.0
    }
}

impl Detached for BufferBinding {
    fn from_binding(binding: Binding) -> (value: Self) {
        BufferBinding(binding)
    }
}

/// The node of a buffer.
pub struct BufferNode(pub Node);

impl Typed for BufferNode {
    open spec fn state() -> Object {
        Object::Node(ResourceKind::Buffer)
    }
}

impl Attached for BufferNode {
    open spec fn node(&self) -> Node {
        self.0
    }

    fn state_of() -> (state: Object) {
        Object::Node(ResourceKind::Buffer)
    }

    fn into_node(self) -> (node: Node) {
        self.0
    }

    fn from_node(node: Node) -> (value: Self) {
        BufferNode(node)
    }
}

/// The binding of a buffer which belongs to a pool.
pub struct BufferLeaseBinding(pub Binding);

impl Typed for BufferLeaseBinding {
    open spec fn state() -> Object {
        Object::LeaseBinding(ResourceKind::Buffer)
    }
}

impl Unattached for BufferLeaseBinding {
    open spec fn binding(&self) -> Binding {
        self.0
    }

    fn state_of() -> (state: Object) {
        Object::LeaseBinding(ResourceKind::Buffer)
    }

    fn into_binding(self) -> (binding: Binding) {
        self.0
    }
}

impl Detached for BufferLeaseBinding {
    fn from_binding(binding: Binding) -> (value: Self) {
        BufferLeaseBinding(binding)
    }
}

/// The node of a buffer which belongs to a pool.
pub struct BufferLeaseNode(pub Node);

impl Typed for BufferLeaseNode {
    open spec fn state() -> Object {
        Object::LeaseNode(ResourceKind::Buffer)
    }
}

impl Attached for BufferLeaseNode {
    open spec fn node(&self) -> Node {
        self.0
    }

    fn state_of() -> (state: Object) {
        Object::LeaseNode(ResourceKind::Buffer)
    }

    fn into_node(self) -> (node: Node) {
        self.0
    }

    fn from_node(node: Node) -> (value: Self) {
        BufferLeaseNode(node)
    }
}

/// The binding of an image.
pub struct ImageBinding(pub Binding);

impl Typed for ImageBinding {
    open spec fn state() -> Object {
        Object::Binding(ResourceKind::Image)
    }
}

impl Unattached for ImageBinding {
    open spec fn binding(&self) -> Binding {
        self.0
    }

    fn state_of() -> (state: Object) {
        Object::Binding(ResourceKind::Image)
    }

    fn into_binding(self) -> (binding: Binding) {
        self.0
    }
}

impl Detached for ImageBinding {
    fn from_binding(binding: Binding) -> (value: Self) {
        ImageBinding(binding)
    }
}

/// The node of an image.
pub struct ImageNode(pub Node);

impl Typed for ImageNode {
    open spec fn state() -> Object {
        Object::Node(ResourceKind::Image)
    }
}

impl Attached for ImageNode {
    open spec fn node(&self) -> Node {
        self.0
    }

    fn state_of() -> (state: Object) {
        Object::Node(ResourceKind::Image)
    }

    fn into_node(self) -> (node: Node) {
        self.0
    }

    fn from_node(node: Node) -> (value: Self) {
        ImageNode(node)
    }
}

/// The binding of an image which belongs to a pool.
pub struct ImageLeaseBinding(pub Binding);

impl Typed for ImageLeaseBinding {
    open spec fn state() -> Object {
        Object::LeaseBinding(ResourceKind::Image)
    }
}

impl Unattached for ImageLeaseBinding {
    open spec fn binding(&self) -> Binding {
        self.0
    }

    fn state_of() -> (state: Object) {
        Object::LeaseBinding(ResourceKind::Image)
    }

    fn into_binding(self) -> (binding: Binding) {
        self.0
    }
}

impl Detached for ImageLeaseBinding {
    fn from_binding(binding: Binding) -> (value: Self) {
        ImageLeaseBinding(binding)
    }
}

/// The node of an image which belongs to a pool.
pub struct ImageLeaseNode(pub Node);

impl Typed for ImageLeaseNode {
    open spec fn state() -> Object {
        Object::LeaseNode(ResourceKind::Image)
    }
}

impl Attached for ImageLeaseNode {
    open spec fn node(&self) -> Node {
        self.0
    }

    fn state_of() -> (state: Object) {
        Object::LeaseNode(ResourceKind::Image)
    }

    fn into_node(self) -> (node: Node) {
        self.0
    }

    fn from_node(node: Node) -> (value: Self) {
        ImageLeaseNode(node)
    }
}

/// The binding of an image of the swapchain.
pub struct SwapchainImageBinding(pub Binding);

impl Typed for SwapchainImageBinding {
    open spec fn state() -> Object {
        Object::Binding(ResourceKind::SwapchainImage)
    }
}

impl Unattached for SwapchainImageBinding {
    open spec fn binding(&self) -> Binding {
        self.0
    }

    fn state_of() -> (state: Object) {
        Object::Binding(ResourceKind::SwapchainImage)
    }

    fn into_binding(self) -> (binding: Binding) {
        self.0
    }
}

impl Detached for SwapchainImageBinding {
    fn from_binding(binding: Binding) -> (value: Self) {
        SwapchainImageBinding(binding)
    }
}

/// The node of an image of the swapchain.
pub struct SwapchainImageNode(pub Node);

impl Typed for SwapchainImageNode {
    open spec fn state() -> Object {
        Object::Node(ResourceKind::SwapchainImage)
    }
}

impl Attached for SwapchainImageNode {
    open spec fn node(&self) -> Node {
        self.0
    }

    fn state_of() -> (state: Object) {
        Object::Node(ResourceKind::SwapchainImage)
    }

    fn into_node(self) -> (node: Node) {
        self.0
    }

    fn from_node(node: Node) -> (value: Self) {
        SwapchainImageNode(node)
    }
}

/// A pipeline of the kind `Compute`.
pub struct ComputePipeline(pub Pipeline);

impl Typed for ComputePipeline {
    open spec fn state() -> Object {
        Object::Pipeline(PipelineKind::Compute)
    }
}

/// A pass which a pipeline of the kind `Compute` is bound to.
pub struct ComputePassRef(pub PipelinePassRef);

impl Typed for ComputePassRef {
    open spec fn state() -> Object {
        Object::PipelinePass(PipelineKind::Compute)
    }
}

/// A pipeline of the kind `Graphic`.
pub struct GraphicPipeline(pub Pipeline);

impl Typed for GraphicPipeline {
    open spec fn state() -> Object {
        Object::Pipeline(PipelineKind::Graphic)
    }
}

/// A pass which a pipeline of the kind `Graphic` is bound to.
pub struct GraphicPassRef(pub PipelinePassRef);

impl Typed for GraphicPassRef {
    open spec fn state() -> Object {
        Object::PipelinePass(PipelineKind::Graphic)
    }
}

/// A pipeline of the kind `RayTrace`.
pub struct RayTracePipeline(pub Pipeline);

impl Typed for RayTracePipeline {
    open spec fn state() -> Object {
        Object::Pipeline(PipelineKind::RayTrace)
    }
}

/// A pass which a pipeline of the kind `RayTrace` is bound to.
pub struct RayTracePassRef(pub PipelinePassRef);

impl Typed for RayTracePassRef {
    open spec fn state() -> Object {
        Object::PipelinePass(PipelineKind::RayTrace)
    }
}

impl Typed for Lease<AccelerationStructure> {
    open spec fn state() -> Object {
        Object::LeasedResource(ResourceKind::AccelerationStructure)
    }
}

impl Typed for Lease<BufferBinding> {
    open spec fn state() -> Object {
        Object::LeasedBinding(ResourceKind::Buffer)
    }
}

impl Typed for Lease<ImageBinding> {
    open spec fn state() -> Object {
        Object::LeasedBinding(ResourceKind::Image)
    }
}

// What can be bound to a graph.
impl Edge<RenderGraph> for AccelerationStructure {
    type Result = AccelerationStructureNode;

    proof fn declared() {
    }
}

impl Edge<RenderGraph> for AccelerationStructureBinding {
    type Result = AccelerationStructureNode;

    proof fn declared() {
    }
}

impl Edge<RenderGraph> for AccelerationStructureLeaseBinding {
    type Result = AccelerationStructureLeaseNode;

    proof fn declared() {
    }
}

impl Edge<RenderGraph> for Buffer {
    type Result = BufferNode;

    proof fn declared() {
    }
}

impl Edge<RenderGraph> for BufferBinding {
    type Result = BufferNode;

    proof fn declared() {
    }
}

impl Edge<RenderGraph> for BufferLeaseBinding {
    type Result = BufferLeaseNode;

    proof fn declared() {
    }
}

impl Edge<RenderGraph> for Image {
    type Result = ImageNode;

    proof fn declared() {
    }
}

impl Edge<RenderGraph> for ImageBinding {
    type Result = ImageNode;

    proof fn declared() {
    }
}

impl Edge<RenderGraph> for ImageLeaseBinding {
    type Result = ImageLeaseNode;

    proof fn declared() {
    }
}

impl Edge<RenderGraph> for SwapchainImage {
    type Result = SwapchainImageNode;

    proof fn declared() {
    }
}

impl Edge<RenderGraph> for SwapchainImageBinding {
    type Result = SwapchainImageNode;

    proof fn declared() {
    }
}

// What can be unbound from a graph.
impl Edge<RenderGraph> for AccelerationStructureNode {
    type Result = AccelerationStructureBinding;

    proof fn declared() {
    }
}

impl Edge<RenderGraph> for BufferNode {
    type Result = BufferBinding;

    proof fn declared() {
    }
}

impl Edge<RenderGraph> for ImageNode {
    type Result = ImageBinding;

    proof fn declared() {
    }
}

impl Edge<RenderGraph> for SwapchainImageNode {
    type Result = SwapchainImageBinding;

    proof fn declared() {
    }
}

impl Edge<RenderGraph> for BufferLeaseNode {
    type Result = BufferLeaseBinding;

    proof fn declared() {
    }
}

impl Edge<RenderGraph> for ImageLeaseNode {
    type Result = ImageLeaseBinding;

    proof fn declared() {
    }
}

// What a pool hands out and a graph takes.
impl Edge<RenderGraph> for Lease<AccelerationStructure> {
    type Result = AccelerationStructureNode;

    proof fn declared() {
    }
}

impl Edge<RenderGraph> for Lease<BufferBinding> {
    type Result = BufferLeaseNode;

    proof fn declared() {
    }
}

impl Edge<RenderGraph> for Lease<ImageBinding> {
    type Result = ImageLeaseNode;

    proof fn declared() {
    }
}

// The pipelines which can be bound to a pass.
impl Edge<PassRef> for ComputePipeline {
    type Result = ComputePassRef;

    proof fn declared() {
    }
}

impl Edge<PassRef> for GraphicPipeline {
    type Result = GraphicPassRef;

    proof fn declared() {
    }
}

impl Edge<PassRef> for RayTracePipeline {
    type Result = RayTracePassRef;

    proof fn declared() {
    }
}

// What can be unbound from a resolved graph.
impl Edge<Resolver> for SwapchainImageNode {
    type Result = SwapchainImage;

    proof fn declared() {
    }
}

/// A declared transition is one of the relation: for every implementation of [`Edge`], the
/// relation leads from the state of the source on its owner to the state of its result.
pub proof fn lemma_declared<Graph: Owning, Source: Edge<Graph>>()
    ensures
        edge(Graph::owner(), Source::state()) == Some(<Source::Result as Typed>::state()),
{
    Source::declared();
}

/// Binds a typed binding to a graph; see [`RenderGraph::bind_node`]. The type of the result
/// is the one which the transition of the source declares.
///
/// There is no result, and the graph stays as it is, where the value does not hold a
/// binding of the state and kind of its type, or where the graph holds the resource bound
/// already in another state than that of the result.
pub fn bind<S>(graph: &mut RenderGraph, source: S) -> (node: Option<S::Result>) where
    S: Edge<RenderGraph> + Unattached,
    S::Result: Attached,

    requires
        old(graph).wf(),
    ensures
        final(graph).wf(),
        final(graph)@.tag == old(graph)@.tag,
        final(graph)@.passes == old(graph)@.passes,
        node is Some <==> source.binding().wf() && source.binding().object == S::state() && (old(
            graph,
        )@.is_bound(source.binding().resource) ==> old(graph)@.slots[old(graph)@.bound_at(
            source.binding().resource,
        )].node == <S::Result as Typed>::state()),
        node is None ==> final(graph)@ == old(graph)@,
        node is Some ==> final(graph)@.owns(node->0.node()) && node->0.node().object
            == <S::Result as Typed>::state(),
        node is Some && old(graph)@.is_bound(source.binding().resource) ==> node->0.node().idx
            == old(graph)@.bound_at(source.binding().resource) && final(graph)@ == old(graph)@,
        node is Some && !old(graph)@.is_bound(source.binding().resource) ==> node->0.node().idx
            == old(graph)@.slots.len() && final(graph)@.slots == old(graph)@.slots.push(
            Slot {
                resource: source.binding().resource,
                access: source.binding().access,
                node: <S::Result as Typed>::state(),
                bound: true,
            },
        ),
{
    proof {
        S::declared();
    }
    let binding = source.into_binding();
    if !binding.is_wf() {
        return None;
    }
    if binding.object != S::state_of() {
        return None;
    }
    let target = <S::Result as Attached>::state_of();
    match graph.find_node(&binding.resource) {
        Some(node) => {
            if node.object == target {
                Some(<S::Result as Attached>::from_node(node))
            } else {
                None
            }
        },
        None => {
            match graph.bind_node(binding) {
                Ok(node) => Some(<S::Result as Attached>::from_node(node)),
                Err(_) => None,
            }
        },
    }
}

/// Unbinds a typed node from a graph; see [`RenderGraph::unbind_node`]. The type of the
/// result is the one which the transition of the node declares.
///
/// There is no result, and the graph stays as it is, where the value does not hold a node
/// of this graph which is bound in the state of its type.
pub fn unbind<N>(graph: &mut RenderGraph, node: N) -> (binding: Option<N::Result>) where
    N: Edge<RenderGraph> + Attached,
    N::Result: Detached,

    requires
        old(graph).wf(),
    ensures
        final(graph).wf(),
        final(graph)@.tag == old(graph)@.tag,
        final(graph)@.passes == old(graph)@.passes,
        binding is Some <==> old(graph)@.owns(node.node()) && node.node().object == N::state(),
        binding is None ==> final(graph)@ == old(graph)@,
        binding is Some ==> binding->0.binding().wf() && binding->0.binding().object
            == <N::Result as Typed>::state() && binding->0.binding().resource == old(
            graph,
        )@.slots[node.node().idx as int].resource && binding->0.binding().access == old(
            graph,
        )@.access_before(node.node().idx as int, old(graph)@.passes.len() as int)
            && final(graph)@.slots == old(graph)@.slots.update(
            node.node().idx as int,
            Slot { bound: false, ..old(graph)@.slots[node.node().idx as int] },
        ),
{
    proof {
        N::declared();
    }
    let node = node.into_node();
    if !graph.contains_node(node) {
        return None;
    }
    if node.object != N::state_of() {
        return None;
    }
    proof {
        assert(graph@.slots[node.idx as int].node.is_attached());
    }
    match graph.unbind_node(node) {
        Ok(binding) => Some(<N::Result as Detached>::from_binding(binding)),
        Err(_) => None,
    }
}

} // verus!
