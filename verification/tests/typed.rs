use screen_13::access::{Access, AccessType, PipelineStageFlags};
use screen_13::graph::binding::{Binding, Node, Resource, SwapchainImage};
use screen_13::graph::edge::{Object, ResourceKind};
use screen_13::graph::render_graph::RenderGraph;
use screen_13::graph::typed::{
    bind, unbind, AccelerationStructure, AccelerationStructureNode, Buffer, BufferLeaseBinding,
    BufferLeaseNode, BufferNode, ImageBinding, ImageLeaseBinding, ImageNode,
    SwapchainImageBinding, SwapchainImageNode,
};

fn write() -> Access {
    Access::new(AccessType::TransferWrite, PipelineStageFlags::from_raw(0x1000))
}

#[test]
fn a_binding_becomes_the_node_of_its_type_and_back() {
    let mut graph = RenderGraph::new(1);
    let node: ImageNode = bind(&mut graph, ImageBinding(Binding::new(Resource::Image(1), write())))
        .unwrap();
    assert_eq!(
        node.0,
        Node {
            object: Object::Node(ResourceKind::Image),
            graph: 1,
            idx: 0
        }
    );
    assert!(graph.contains_node(node.0));
    let binding: ImageBinding = unbind(&mut graph, node).unwrap();
    assert_eq!(binding.0, Binding::new(Resource::Image(1), write()));
    assert!(!graph.contains_node(Node {
        object: Object::Node(ResourceKind::Image),
        graph: 1,
        idx: 0
    }));
}

#[test]
fn a_lease_binding_becomes_a_lease_node_and_back() {
    let mut graph = RenderGraph::new(1);
    let node: BufferLeaseNode = bind(
        &mut graph,
        BufferLeaseBinding(Binding::leased(Resource::Buffer(2), write())),
    )
    .unwrap();
    assert_eq!(node.0.object, Object::LeaseNode(ResourceKind::Buffer));
    let binding: BufferLeaseBinding = unbind(&mut graph, node).unwrap();
    assert_eq!(binding.0.object, Object::LeaseBinding(ResourceKind::Buffer));
    assert_eq!(binding.0.access, write());
}

#[test]
fn a_resource_becomes_a_node_which_nothing_has_touched() {
    let mut graph = RenderGraph::new(1);
    let buffer: BufferNode = bind(&mut graph, Buffer(7)).unwrap();
    let structure: AccelerationStructureNode = bind(&mut graph, AccelerationStructure(7)).unwrap();
    let image = SwapchainImage {
        idx: 0,
        image: 7,
        acquired: 8,
        rendered: 9,
    };
    let swapchain: SwapchainImageNode = bind(&mut graph, image).unwrap();
    assert_eq!(buffer.0.idx, 0);
    assert_eq!(structure.0.idx, 1);
    assert_eq!(swapchain.0.idx, 2);
    assert_eq!(graph.slot(0).access, Access::nothing());
    assert_eq!(graph.slot(2).resource, Resource::SwapchainImage(image));
    let binding: SwapchainImageBinding = unbind(&mut graph, swapchain).unwrap();
    assert_eq!(
        binding.0.object,
        Object::Binding(ResourceKind::SwapchainImage)
    );
}

#[test]
fn a_value_which_does_not_hold_what_its_type_says_is_refused() {
    let mut graph = RenderGraph::new(1);
    assert!(bind(&mut graph, ImageBinding(Binding::new(Resource::Buffer(1), write()))).is_none());
    assert!(bind(
        &mut graph,
        ImageBinding(Binding::leased(Resource::Image(1), write()))
    )
    .is_none());
    assert_eq!(graph.node_count(), 0);
    let node: ImageNode = bind(&mut graph, ImageBinding(Binding::new(Resource::Image(1), write())))
        .unwrap();
    // A node of another state, of another graph, or which is not bound any more.
    assert!(unbind(&mut graph, BufferNode(node.0)).is_none());
    assert!(unbind(
        &mut graph,
        ImageNode(Node {
            graph: 2,
            ..node.0
        })
    )
    .is_none());
    assert!(unbind(&mut graph, ImageNode(node.0)).is_some());
    assert!(unbind(&mut graph, ImageNode(node.0)).is_none());
}

#[test]
fn a_resource_which_is_bound_is_named_by_its_node_again() {
    let mut graph = RenderGraph::new(1);
    let first: ImageNode = bind(&mut graph, ImageBinding(Binding::new(Resource::Image(1), write())))
        .unwrap();
    let second: ImageNode = bind(
        &mut graph,
        ImageBinding(Binding::new(Resource::Image(1), Access::nothing())),
    )
    .unwrap();
    assert_eq!(first.0, second.0);
    // It cannot be named by a node of another state.
    assert!(bind(
        &mut graph,
        ImageLeaseBinding(Binding::leased(Resource::Image(1), write()))
    )
    .is_none());
    assert_eq!(graph.node_count(), 1);
    assert_eq!(graph.find_node(&Resource::Image(1)), Some(first.0));
    assert_eq!(graph.find_node(&Resource::Image(2)), None);
}
