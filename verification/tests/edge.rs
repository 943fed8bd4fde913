use screen_13::graph::edge::ResourceKind::{AccelerationStructure, Buffer, Image, SwapchainImage};
use screen_13::graph::edge::{edge_result, Object, Owner, PipelineKind, ResourceKind};

const KINDS: [ResourceKind; 4] = [
    ResourceKind::AccelerationStructure,
    ResourceKind::Buffer,
    ResourceKind::Image,
    ResourceKind::SwapchainImage,
];

const PIPELINES: [PipelineKind; 3] = [
    PipelineKind::Compute,
    PipelineKind::Graphic,
    PipelineKind::RayTrace,
];

fn objects() -> Vec<Object> {
    let mut all = Vec::new();
    for kind in KINDS {
        all.push(Object::Resource(kind));
        all.push(Object::Binding(kind));
        all.push(Object::LeaseBinding(kind));
        all.push(Object::Node(kind));
        all.push(Object::LeaseNode(kind));
        all.push(Object::LeasedResource(kind));
        all.push(Object::LeasedBinding(kind));
    }
    for kind in PIPELINES {
        all.push(Object::Pipeline(kind));
        all.push(Object::PipelinePass(kind));
    }
    all
}

#[test]
fn every_resource_and_binding_becomes_a_node() {
    for kind in KINDS {
        assert_eq!(
            edge_result(Owner::RenderGraph, Object::Resource(kind)),
            Some(Object::Node(kind))
        );
        assert_eq!(
            edge_result(Owner::RenderGraph, Object::Binding(kind)),
            Some(Object::Node(kind))
        );
        assert_eq!(
            edge_result(Owner::RenderGraph, Object::Node(kind)),
            Some(Object::Binding(kind))
        );
    }
}

#[test]
fn lease_edges_are_those_of_the_relation() {
    let graph = Owner::RenderGraph;
    assert_eq!(
        edge_result(graph, Object::LeaseBinding(AccelerationStructure)),
        Some(Object::LeaseNode(AccelerationStructure))
    );
    assert_eq!(
        edge_result(graph, Object::LeaseBinding(Buffer)),
        Some(Object::LeaseNode(Buffer))
    );
    assert_eq!(
        edge_result(graph, Object::LeaseBinding(Image)),
        Some(Object::LeaseNode(Image))
    );
    assert_eq!(edge_result(graph, Object::LeaseBinding(SwapchainImage)), None);
    assert_eq!(
        edge_result(graph, Object::LeaseNode(Buffer)),
        Some(Object::LeaseBinding(Buffer))
    );
    assert_eq!(
        edge_result(graph, Object::LeaseNode(Image)),
        Some(Object::LeaseBinding(Image))
    );
    assert_eq!(edge_result(graph, Object::LeaseNode(AccelerationStructure)), None);
    assert_eq!(edge_result(graph, Object::LeaseNode(SwapchainImage)), None);
    assert_eq!(
        edge_result(graph, Object::LeasedResource(AccelerationStructure)),
        Some(Object::Node(AccelerationStructure))
    );
    assert_eq!(edge_result(graph, Object::LeasedResource(Buffer)), None);
    assert_eq!(edge_result(graph, Object::LeasedResource(Image)), None);
    assert_eq!(
        edge_result(graph, Object::LeasedBinding(Buffer)),
        Some(Object::LeaseNode(Buffer))
    );
    assert_eq!(
        edge_result(graph, Object::LeasedBinding(Image)),
        Some(Object::LeaseNode(Image))
    );
    assert_eq!(edge_result(graph, Object::LeasedBinding(AccelerationStructure)), None);
}

#[test]
fn pipelines_are_bound_to_passes_alone() {
    for kind in PIPELINES {
        assert_eq!(
            edge_result(Owner::PassRef, Object::Pipeline(kind)),
            Some(Object::PipelinePass(kind))
        );
        assert_eq!(edge_result(Owner::RenderGraph, Object::Pipeline(kind)), None);
        assert_eq!(edge_result(Owner::Resolver, Object::Pipeline(kind)), None);
        assert_eq!(edge_result(Owner::PassRef, Object::PipelinePass(kind)), None);
    }
}

#[test]
fn a_resolved_graph_gives_up_the_swapchain_image_alone() {
    assert_eq!(
        edge_result(Owner::Resolver, Object::Node(ResourceKind::SwapchainImage)),
        Some(Object::Resource(ResourceKind::SwapchainImage))
    );
    for object in objects() {
        if object != Object::Node(ResourceKind::SwapchainImage) {
            assert_eq!(edge_result(Owner::Resolver, object), None);
        }
    }
}

#[test]
fn the_relation_has_exactly_the_declared_edges() {
    let mut count = 0;
    for owner in [Owner::RenderGraph, Owner::PassRef, Owner::Resolver] {
        for object in objects() {
            if edge_result(owner, object).is_some() {
                count += 1;
            }
        }
    }
    // 4 resources, 4 bindings, 3 lease bindings, 4 nodes, 2 lease nodes, 1 leased resource,
    // 2 leased bindings, 3 pipelines and the swapchain image of a resolved graph.
    assert_eq!(count, 24);
}
