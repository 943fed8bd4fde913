use screen_13::access::{Access, AccessType, PipelineStageFlags};
use screen_13::driver::descriptor_set::{DescriptorPoolInfo, DescriptorPoolSize};
use screen_13::graph::binding::{Binding, EdgeError, Node, Resource, SwapchainImage};
use screen_13::graph::edge::{Object, Owner, PipelineKind, ResourceKind};
use screen_13::graph::pass::Pipeline;
use screen_13::graph::render_graph::RenderGraph;
use screen_13::graph::resolver::{Barrier, Command, CommandBuffer, Recorded};
use screen_13::pool::HashPool;

const COLOR_OUTPUT: u32 = 0x400;
const FRAGMENT: u32 = 0x80;
const TRANSFER: u32 = 0x1000;

fn access(ty: AccessType, stage: u32) -> Access {
    Access::new(ty, PipelineStageFlags::from_raw(stage))
}

fn pool_info(max_sets: u32) -> DescriptorPoolInfo {
    DescriptorPoolInfo {
        max_sets,
        pool_sizes: vec![DescriptorPoolSize {
            ty: 1,
            descriptor_count: 8,
        }],
    }
}

fn pipeline(max_sets: u32) -> Pipeline {
    Pipeline {
        kind: PipelineKind::Graphic,
        id: 1,
        descriptors: pool_info(max_sets),
    }
}

fn swapchain_image() -> SwapchainImage {
    SwapchainImage {
        idx: 1,
        image: 100,
        acquired: 101,
        rendered: 102,
    }
}

/// Three passes, of which only the third touches the swapchain image.
fn three_passes() -> (RenderGraph, Node, Node) {
    let mut graph = RenderGraph::new(9);
    let swapchain = graph
        .bind_node(Binding::from_resource(Resource::SwapchainImage(
            swapchain_image(),
        )))
        .unwrap();
    let image = graph
        .bind_node(Binding::from_resource(Resource::Image(5)))
        .unwrap();
    let one = graph.add_pass("one".to_string());
    one.access_node(&mut graph, image, access(AccessType::TransferWrite, TRANSFER));
    let two = graph.add_pass("two".to_string());
    two.access_node(
        &mut graph,
        image,
        access(AccessType::ColorAttachmentWrite, COLOR_OUTPUT),
    );
    let three = graph.add_pass("three".to_string());
    three.access_node(
        &mut graph,
        image,
        access(
            AccessType::FragmentShaderReadSampledImageOrUniformTexelBuffer,
            FRAGMENT,
        ),
    );
    three.access_node(
        &mut graph,
        swapchain,
        access(AccessType::ColorAttachmentWrite, COLOR_OUTPUT),
    );
    (graph, swapchain, image)
}

#[test]
fn one_barrier_leads_from_the_write_to_the_read() {
    let mut graph = RenderGraph::new(1);
    let node = graph
        .bind_node(Binding::from_resource(Resource::Image(5)))
        .unwrap();
    let write = access(AccessType::ColorAttachmentWrite, COLOR_OUTPUT);
    let read = access(
        AccessType::FragmentShaderReadSampledImageOrUniformTexelBuffer,
        FRAGMENT,
    );
    let first = graph.add_pass("color".to_string());
    first.access_node(&mut graph, node, write);
    let second = graph.add_pass("texture".to_string());
    second.access_node(&mut graph, node, read);
    let resolver = graph.resolve();
    assert_eq!(
        resolver.barriers(1),
        &vec![Barrier {
            node: 0,
            resource: Resource::Image(5),
            prev: write,
            next: read
        }]
    );
    assert_eq!(
        resolver.barriers(0),
        &vec![Barrier {
            node: 0,
            resource: Resource::Image(5),
            prev: Access::nothing(),
            next: write
        }]
    );
    assert_eq!(resolver.last_access(node), read);
    assert_eq!(resolver.pass_count(), 2);
    assert_eq!(resolver.recorded(), 0);
}

#[test]
fn two_reads_of_one_kind_need_no_barrier_between_them() {
    let mut graph = RenderGraph::new(1);
    let node = graph
        .bind_node(Binding::new(
            Resource::Buffer(5),
            access(AccessType::TransferWrite, TRANSFER),
        ))
        .unwrap();
    let other = graph
        .bind_node(Binding::from_resource(Resource::Buffer(6)))
        .unwrap();
    let read = access(AccessType::VertexBuffer, 0x4);
    let first = graph.add_pass("first".to_string());
    first.access_node(&mut graph, node, read);
    let between = graph.add_pass("between".to_string());
    between.access_node(&mut graph, other, access(AccessType::IndexBuffer, 0x4));
    let second = graph.add_pass("second".to_string());
    second.access_node(&mut graph, node, read);
    let third = graph.add_pass("third".to_string());
    third.access_node(&mut graph, node, access(AccessType::IndexBuffer, 0x4));
    let resolver = graph.resolve();
    assert_eq!(resolver.barriers(0).len(), 1);
    assert_eq!(resolver.barriers(0)[0].prev.ty, AccessType::TransferWrite);
    assert_eq!(resolver.barriers(1).len(), 1);
    assert_eq!(resolver.barriers(1)[0].node, other.idx);
    assert!(resolver.barriers(2).is_empty());
    assert_eq!(
        resolver.barriers(3),
        &vec![Barrier {
            node: node.idx,
            resource: Resource::Buffer(5),
            prev: read,
            next: access(AccessType::IndexBuffer, 0x4)
        }]
    );
}

#[test]
fn a_change_of_stage_alone_needs_no_barrier() {
    let mut graph = RenderGraph::new(1);
    let node = graph
        .bind_node(Binding::from_resource(Resource::Buffer(5)))
        .unwrap();
    let first = graph.add_pass("first".to_string());
    first.access_node(&mut graph, node, access(AccessType::AnyShaderReadOther, 0x8));
    let second = graph.add_pass("second".to_string());
    second.access_node(&mut graph, node, access(AccessType::AnyShaderReadOther, 0x80));
    let resolver = graph.resolve();
    assert!(resolver.barriers(1).is_empty());
    assert!(access(AccessType::Nothing, 0).requires_barrier(access(AccessType::General, 0)));
    assert!(!access(AccessType::General, 1).requires_barrier(access(AccessType::General, 2)));
}

#[test]
fn node_stage_mask_is_that_of_the_first_access() {
    let (graph, swapchain, image) = three_passes();
    let resolver = graph.resolve();
    assert_eq!(
        resolver.node_stage_mask(swapchain),
        PipelineStageFlags::from_raw(COLOR_OUTPUT)
    );
    assert_eq!(
        resolver.node_stage_mask(image),
        PipelineStageFlags::from_raw(TRANSFER)
    );
}

#[test]
fn node_stage_mask_is_empty_for_a_node_which_no_pass_accesses() {
    let mut graph = RenderGraph::new(1);
    let node = graph
        .bind_node(Binding::new(
            Resource::Buffer(5),
            access(AccessType::HostWrite, 0x4000),
        ))
        .unwrap();
    graph.add_pass("empty".to_string());
    let resolver = graph.resolve();
    assert!(resolver.node_stage_mask(node).is_empty());
    assert_eq!(
        resolver.last_access(node),
        access(AccessType::HostWrite, 0x4000)
    );
}

#[test]
fn recording_in_two_steps_equals_recording_in_one() {
    let (graph, swapchain, _) = three_passes();
    let mut resolver = graph.resolve();
    let mut cache = HashPool::new(1);
    let mut main = CommandBuffer::new(10);
    let mut presentation = CommandBuffer::new(11);
    assert!(matches!(
        resolver.record_node_dependencies(&mut cache, &mut main, swapchain),
        Recorded::Done
    ));
    assert_eq!(resolver.recorded(), 2);
    let executed: Vec<usize> = main
        .commands
        .iter()
        .filter_map(|command| match command {
            Command::Execute(pass) => Some(*pass),
            Command::Barrier(_) => None,
        })
        .collect();
    assert_eq!(executed, vec![0, 1]);
    assert!(matches!(
        resolver.record_node(&mut cache, &mut presentation, swapchain),
        Recorded::Done
    ));
    assert_eq!(resolver.recorded(), 3);
    let executed: Vec<usize> = presentation
        .commands
        .iter()
        .filter_map(|command| match command {
            Command::Execute(pass) => Some(*pass),
            Command::Barrier(_) => None,
        })
        .collect();
    assert_eq!(executed, vec![2]);

    let (graph, swapchain, _) = three_passes();
    let mut whole = graph.resolve();
    let mut all = CommandBuffer::new(12);
    assert!(matches!(
        whole.record_node(&mut cache, &mut all, swapchain),
        Recorded::Done
    ));
    let mut joined = main.commands.clone();
    joined.extend(presentation.commands.iter().copied());
    assert_eq!(joined, all.commands);
    assert_eq!(all.commands.len(), 3 + 4);
    assert_eq!(all.handle, 12);
    // Nothing is left to record.
    let before = all.commands.len();
    assert!(matches!(
        whole.record_node(&mut cache, &mut all, swapchain),
        Recorded::Done
    ));
    assert_eq!(all.commands.len(), before);
}

#[test]
fn the_commands_of_a_pass_are_its_barriers_and_then_the_pass() {
    let (graph, swapchain, image) = three_passes();
    let mut resolver = graph.resolve();
    let mut cache = HashPool::new(1);
    let mut all = CommandBuffer::new(1);
    resolver.record_node(&mut cache, &mut all, swapchain);
    let read = access(
        AccessType::FragmentShaderReadSampledImageOrUniformTexelBuffer,
        FRAGMENT,
    );
    let color = access(AccessType::ColorAttachmentWrite, COLOR_OUTPUT);
    let transfer = access(AccessType::TransferWrite, TRANSFER);
    assert_eq!(
        all.commands,
        vec![
            Command::Barrier(Barrier {
                node: image.idx,
                resource: Resource::Image(5),
                prev: Access::nothing(),
                next: transfer
            }),
            Command::Execute(0),
            Command::Barrier(Barrier {
                node: image.idx,
                resource: Resource::Image(5),
                prev: transfer,
                next: color
            }),
            Command::Execute(1),
            Command::Barrier(Barrier {
                node: image.idx,
                resource: Resource::Image(5),
                prev: color,
                next: read
            }),
            Command::Barrier(Barrier {
                node: swapchain.idx,
                resource: Resource::SwapchainImage(swapchain_image()),
                prev: Access::nothing(),
                next: color
            }),
            Command::Execute(2),
        ]
    );
}

#[test]
fn dependencies_of_a_node_which_no_pass_accesses_are_all_passes() {
    let mut graph = RenderGraph::new(1);
    let unused = graph
        .bind_node(Binding::from_resource(Resource::Buffer(1)))
        .unwrap();
    graph.add_pass("one".to_string());
    graph.add_pass("two".to_string());
    let mut resolver = graph.resolve();
    let mut cache = HashPool::new(1);
    let mut cmd_buf = CommandBuffer::new(1);
    assert!(matches!(
        resolver.record_node_dependencies(&mut cache, &mut cmd_buf, unused),
        Recorded::Done
    ));
    assert_eq!(
        cmd_buf.commands,
        vec![Command::Execute(0), Command::Execute(1)]
    );
}

#[test]
fn recording_stops_in_front_of_a_pass_which_lacks_a_descriptor_pool() {
    let mut graph = RenderGraph::new(1);
    let image = graph
        .bind_node(Binding::from_resource(Resource::Image(5)))
        .unwrap();
    graph.add_pass("plain".to_string());
    let drawn = graph.add_pass("drawn".to_string());
    let drawn = drawn.bind_pipeline(&mut graph, pipeline(2));
    drawn.access_node(
        &mut graph,
        image,
        access(AccessType::ColorAttachmentWrite, COLOR_OUTPUT),
    );
    let bare = graph.add_pass("bare".to_string());
    bare.bind_pipeline(&mut graph, pipeline(0));
    let mut resolver = graph.resolve();
    let mut cache = HashPool::new(4);
    let mut cmd_buf = CommandBuffer::new(1);
    match resolver.record_node(&mut cache, &mut cmd_buf, image) {
        Recorded::NeedsDescriptorPool(info) => assert_eq!(info, pool_info(2)),
        Recorded::Done => panic!("the pool has no descriptor pool to lend"),
    }
    assert_eq!(resolver.recorded(), 1);
    assert_eq!(cmd_buf.commands, vec![Command::Execute(0)]);
    assert_eq!(resolver.pass_pool(1), None);

    // The device creates the pool, the cache takes it, and recording goes on.
    let lease = cache.lease_created(pool_info(2), Ok(500)).unwrap();
    assert_eq!(cache.release(lease), None);
    assert!(matches!(
        resolver.record_node(&mut cache, &mut cmd_buf, image),
        Recorded::Done
    ));
    assert_eq!(resolver.recorded(), 3);
    assert_eq!(resolver.pass_pool(0), None);
    assert_eq!(resolver.pass_pool(1), Some(500));
    assert_eq!(resolver.pass_pool(2), None);
    assert!(cache.is_leased(500));
    assert_eq!(cache.available_count(&pool_info(2)), 0);

    // Releasing the resolved graph hands the descriptor pool back.
    let released = resolver.release(&mut cache);
    assert!(!cache.is_leased(500));
    assert_eq!(cache.available_count(&pool_info(2)), 1);
    assert!(released.destroyed_pools.is_empty());
    assert_eq!(released.destroyed, vec![Resource::Image(5)]);
    assert!(released.returned.is_empty());
}

#[test]
fn release_sorts_what_is_still_bound() {
    let mut graph = RenderGraph::new(1);
    graph
        .bind_node(Binding::from_resource(Resource::Image(1)))
        .unwrap();
    graph
        .bind_node(Binding::leased(Resource::Buffer(2), Access::nothing()))
        .unwrap();
    graph
        .bind_node(Binding::from_resource(Resource::SwapchainImage(
            swapchain_image(),
        )))
        .unwrap();
    let gone = graph
        .bind_node(Binding::from_resource(Resource::Buffer(3)))
        .unwrap();
    graph.unbind_node(gone).unwrap();
    let resolver = graph.resolve();
    let mut cache: HashPool<DescriptorPoolInfo> = HashPool::new(1);
    let released = resolver.release(&mut cache);
    assert_eq!(released.destroyed, vec![Resource::Image(1)]);
    assert_eq!(released.returned, vec![Resource::Buffer(2)]);
}

#[test]
fn a_resolved_graph_gives_up_the_swapchain_image_only() {
    let (graph, swapchain, image) = three_passes();
    let mut resolver = graph.resolve();
    assert_eq!(
        resolver.unbind_node(image),
        Err(EdgeError {
            owner: Owner::Resolver,
            source: Object::Node(ResourceKind::Image)
        })
    );
    let binding = resolver.unbind_node(swapchain).unwrap();
    assert_eq!(
        binding.object,
        Object::Resource(ResourceKind::SwapchainImage)
    );
    assert_eq!(binding.resource, Resource::SwapchainImage(swapchain_image()));
    assert_eq!(
        binding.access,
        access(AccessType::ColorAttachmentWrite, COLOR_OUTPUT)
    );
    assert!(!resolver.render_graph().contains_node(swapchain));
    // The barriers stay as they were.
    assert_eq!(resolver.barriers(2).len(), 2);
}
