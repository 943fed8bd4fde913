use screen_13::access::{Access, AccessType, PipelineStageFlags};
use screen_13::graph::binding::{Binding, EdgeError, Node, Resource, SwapchainImage};
use screen_13::graph::edge::{Object, Owner, PipelineKind, ResourceKind};
use screen_13::graph::pass::Pipeline;
use screen_13::graph::render_graph::RenderGraph;
use screen_13::driver::descriptor_set::{DescriptorPoolInfo, DescriptorPoolSize};

fn access(ty: AccessType, stage: u32) -> Access {
    Access::new(ty, PipelineStageFlags::from_raw(stage))
}

#[test]
fn bind_node_names_resources_by_consecutive_indices() {
    let mut graph = RenderGraph::new(3);
    let image = graph
        .bind_node(Binding::from_resource(Resource::Image(10)))
        .unwrap();
    let buffer = graph
        .bind_node(Binding::new(
            Resource::Buffer(10),
            access(AccessType::TransferWrite, 0x1000),
        ))
        .unwrap();
    assert_eq!(
        image,
        Node {
            object: Object::Node(ResourceKind::Image),
            graph: 3,
            idx: 0
        }
    );
    assert_eq!(
        buffer,
        Node {
            object: Object::Node(ResourceKind::Buffer),
            graph: 3,
            idx: 1
        }
    );
    assert_eq!(graph.node_count(), 2);
    assert!(graph.contains_node(image));
    assert!(graph.contains_node(buffer));
    assert_eq!(graph.slot(1).access, access(AccessType::TransferWrite, 0x1000));
    assert_eq!(graph.slot(0).access, Access::nothing());
}

#[test]
fn binding_the_same_resource_twice_returns_the_same_node() {
    let mut graph = RenderGraph::new(1);
    let first = graph
        .bind_node(Binding::from_resource(Resource::Image(7)))
        .unwrap();
    let other = graph
        .bind_node(Binding::from_resource(Resource::Image(8)))
        .unwrap();
    let second = graph
        .bind_node(Binding::new(
            Resource::Image(7),
            access(AccessType::General, 1),
        ))
        .unwrap();
    assert_eq!(first, second);
    assert_ne!(first, other);
    assert_eq!(graph.node_count(), 2);
    // The entry keeps the access it was bound with first.
    assert_eq!(graph.slot(0).access, Access::nothing());
}

#[test]
fn a_resource_which_was_unbound_is_bound_anew() {
    let mut graph = RenderGraph::new(1);
    let first = graph
        .bind_node(Binding::from_resource(Resource::Buffer(7)))
        .unwrap();
    let binding = graph.unbind_node(first).unwrap();
    assert_eq!(binding.object, Object::Binding(ResourceKind::Buffer));
    assert_eq!(binding.resource, Resource::Buffer(7));
    assert!(!graph.contains_node(first));
    assert!(graph.knows_node(first));
    let second = graph.bind_node(binding).unwrap();
    assert_eq!(second.idx, 1);
    assert!(graph.contains_node(second));
    assert!(!graph.contains_node(first));
}

#[test]
fn a_buffer_and_an_image_with_one_handle_are_two_nodes() {
    let mut graph = RenderGraph::new(1);
    let image = graph
        .bind_node(Binding::from_resource(Resource::Image(7)))
        .unwrap();
    let buffer = graph
        .bind_node(Binding::from_resource(Resource::Buffer(7)))
        .unwrap();
    assert_ne!(image.idx, buffer.idx);
}

#[test]
fn a_binding_which_is_no_source_of_an_edge_is_refused() {
    let mut graph = RenderGraph::new(1);
    let image = SwapchainImage {
        idx: 0,
        image: 1,
        acquired: 2,
        rendered: 3,
    };
    let leased = Binding::leased(Resource::SwapchainImage(image), Access::nothing());
    assert_eq!(
        graph.bind_node(leased),
        Err(EdgeError {
            owner: Owner::RenderGraph,
            source: Object::LeaseBinding(ResourceKind::SwapchainImage)
        })
    );
    let attached = Binding {
        object: Object::Node(ResourceKind::Image),
        resource: Resource::Image(1),
        access: Access::nothing(),
    };
    assert!(graph.bind_node(attached).is_err());
    let mismatched = Binding {
        object: Object::Binding(ResourceKind::Buffer),
        resource: Resource::Image(1),
        access: Access::nothing(),
    };
    assert!(graph.bind_node(mismatched).is_err());
    assert_eq!(graph.node_count(), 0);
}

#[test]
fn a_lease_node_of_an_acceleration_structure_cannot_be_unbound() {
    let mut graph = RenderGraph::new(1);
    let node = graph
        .bind_node(Binding::leased(
            Resource::AccelerationStructure(4),
            Access::nothing(),
        ))
        .unwrap();
    assert_eq!(
        node.object,
        Object::LeaseNode(ResourceKind::AccelerationStructure)
    );
    assert_eq!(
        graph.unbind_node(node),
        Err(EdgeError {
            owner: Owner::RenderGraph,
            source: Object::LeaseNode(ResourceKind::AccelerationStructure)
        })
    );
    assert!(graph.contains_node(node));
}

#[test]
fn a_leased_image_comes_back_as_a_lease_binding() {
    let mut graph = RenderGraph::new(1);
    let node = graph
        .bind_node(Binding::leased(Resource::Image(4), Access::nothing()))
        .unwrap();
    assert_eq!(node.object, Object::LeaseNode(ResourceKind::Image));
    let binding = graph.unbind_node(node).unwrap();
    assert_eq!(binding.object, Object::LeaseBinding(ResourceKind::Image));
}

#[test]
fn what_a_pool_hands_out_is_bound_as_the_relation_says() {
    let mut graph = RenderGraph::new(1);
    let structure = graph
        .bind_node(Binding::leased_resource(Resource::AccelerationStructure(1)))
        .unwrap();
    assert_eq!(
        structure.object,
        Object::Node(ResourceKind::AccelerationStructure)
    );
    let buffer = graph
        .bind_node(Binding::leased_binding(
            Resource::Buffer(2),
            access(AccessType::HostWrite, 0x4000),
        ))
        .unwrap();
    assert_eq!(buffer.object, Object::LeaseNode(ResourceKind::Buffer));
    assert_eq!(
        graph.unbind_node(buffer).unwrap().object,
        Object::LeaseBinding(ResourceKind::Buffer)
    );
    assert_eq!(
        graph.bind_node(Binding::leased_resource(Resource::Image(3))),
        Err(EdgeError {
            owner: Owner::RenderGraph,
            source: Object::LeasedResource(ResourceKind::Image)
        })
    );
    assert_eq!(
        graph.bind_node(Binding::leased_binding(
            Resource::AccelerationStructure(4),
            Access::nothing()
        )),
        Err(EdgeError {
            owner: Owner::RenderGraph,
            source: Object::LeasedBinding(ResourceKind::AccelerationStructure)
        })
    );
    assert_eq!(graph.node_count(), 2);
}

#[test]
fn a_node_of_another_graph_is_not_known() {
    let mut one = RenderGraph::new(1);
    let mut two = RenderGraph::new(2);
    let node = one
        .bind_node(Binding::from_resource(Resource::Image(7)))
        .unwrap();
    two.bind_node(Binding::from_resource(Resource::Image(7)))
        .unwrap();
    assert!(one.contains_node(node));
    assert!(!two.contains_node(node));
    assert!(!two.knows_node(node));
}

#[test]
fn last_access_is_that_of_the_last_pass_which_accesses_the_node() {
    let mut graph = RenderGraph::new(1);
    let a = graph
        .bind_node(Binding::from_resource(Resource::Image(1)))
        .unwrap();
    let b = graph
        .bind_node(Binding::from_resource(Resource::Buffer(2)))
        .unwrap();
    assert_eq!(graph.last_access(a), None);
    let first = graph.add_pass("first".to_string());
    first.access_node(&mut graph, a, access(AccessType::TransferWrite, 0x1000));
    let second = graph.add_pass("second".to_string());
    second.access_node(&mut graph, b, access(AccessType::IndexBuffer, 0x4));
    let third = graph.add_pass("third".to_string());
    third.access_node(&mut graph, a, access(AccessType::TransferRead, 0x1000));
    third.access_node(&mut graph, a, access(AccessType::General, 0x10000));
    assert_eq!(
        graph.last_access(a),
        Some(access(AccessType::General, 0x10000))
    );
    assert_eq!(
        graph.last_access(b),
        Some(access(AccessType::IndexBuffer, 0x4))
    );
    assert_eq!(graph.pass_count(), 3);
    assert_eq!(graph.pass(2).access_count(), 1);
    assert_eq!(graph.pass(0).name(), "first");
}

#[test]
fn unbinding_hands_back_the_last_access() {
    let mut graph = RenderGraph::new(1);
    let a = graph
        .bind_node(Binding::new(
            Resource::Image(1),
            access(AccessType::HostWrite, 0x4000),
        ))
        .unwrap();
    let b = graph
        .bind_node(Binding::new(
            Resource::Image(2),
            access(AccessType::HostWrite, 0x4000),
        ))
        .unwrap();
    let pass = graph.add_pass("pass".to_string());
    pass.access_node(&mut graph, a, access(AccessType::TransferRead, 0x1000));
    assert_eq!(
        graph.unbind_node(a).unwrap().access,
        access(AccessType::TransferRead, 0x1000)
    );
    assert_eq!(
        graph.unbind_node(b).unwrap().access,
        access(AccessType::HostWrite, 0x4000)
    );
}

#[test]
fn a_pipeline_makes_a_pass_a_pipeline_pass() {
    let mut graph = RenderGraph::new(1);
    let image = graph
        .bind_node(Binding::from_resource(Resource::Image(1)))
        .unwrap();
    let pass = graph.add_pass("draw".to_string());
    assert!(graph.contains_pass(pass));
    let pipeline = Pipeline {
        kind: PipelineKind::Graphic,
        id: 77,
        descriptors: DescriptorPoolInfo {
            max_sets: 1,
            pool_sizes: vec![DescriptorPoolSize {
                ty: 1,
                descriptor_count: 2,
            }],
        },
    };
    let pass = pass.bind_pipeline(&mut graph, pipeline);
    assert_eq!(pass.kind, PipelineKind::Graphic);
    pass.access_node(
        &mut graph,
        image,
        access(AccessType::ColorAttachmentWrite, 0x400),
    );
    pass.push_constants(&mut graph, 16, vec![1, 2, 3, 4]);
    pass.bind_descriptor(&mut graph, 0, 1, image);
    let stored = graph.pass(0);
    assert_eq!(stored.pipeline().as_ref().unwrap().id, 77);
    assert_eq!(stored.pool_info().unwrap().max_sets, 1);
    assert_eq!(stored.access_count(), 1);
    assert_eq!(stored.find_access(0), Some(0));
    assert_eq!(stored.find_access(1), None);
}
