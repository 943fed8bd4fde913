use screen_13::access::{Access, AccessType, PipelineStageFlags};
use screen_13::display::{Action, Display, Event, Op, Phase, Which};
use screen_13::driver::descriptor_set::{DescriptorPoolInfo, DescriptorPoolSize};
use screen_13::error::{DisplayError, DriverError, SwapchainImageError};
use screen_13::graph::binding::{Binding, Node, Resource, SwapchainImage};
use screen_13::graph::edge::{Object, PipelineKind, ResourceKind};
use screen_13::graph::pass::Pipeline;
use screen_13::graph::render_graph::RenderGraph;
use screen_13::graph::resolver::{Barrier, Command};

const COLOR_OUTPUT: u32 = 0x400;
const TRANSFER: u32 = 0x1000;

fn access(ty: AccessType, stage: u32) -> Access {
    Access::new(ty, PipelineStageFlags::from_raw(stage))
}

fn image(idx: u32) -> SwapchainImage {
    SwapchainImage {
        idx,
        image: 1000 + idx as u64,
        acquired: 2000 + idx as u64,
        rendered: 3000 + idx as u64,
    }
}

fn pool_info() -> DescriptorPoolInfo {
    DescriptorPoolInfo {
        max_sets: 3,
        pool_sizes: vec![DescriptorPoolSize {
            ty: 6,
            descriptor_count: 3,
        }],
    }
}

/// A frame of two passes: one which fills an image, one which draws it onto the swapchain
/// image. The second one draws descriptor sets where `descriptors` says so.
fn frame(display: &mut Display, idx: u32, descriptors: bool) -> (RenderGraph, Node) {
    let (swapchain, mut graph) = display.acquire_next_image(Ok(image(idx))).unwrap();
    let texture = graph
        .bind_node(Binding::from_resource(Resource::Image(5)))
        .unwrap();
    let fill = graph.add_pass("fill".to_string());
    fill.access_node(&mut graph, texture, access(AccessType::TransferWrite, TRANSFER));
    let draw = graph.add_pass("draw".to_string());
    draw.access_node(
        &mut graph,
        texture,
        access(AccessType::FragmentShaderReadOther, 0x80),
    );
    draw.access_node(
        &mut graph,
        swapchain,
        access(AccessType::ColorAttachmentWrite, COLOR_OUTPUT),
    );
    if descriptors {
        draw.bind_pipeline(
            &mut graph,
            Pipeline {
                kind: PipelineKind::Graphic,
                id: 1,
                descriptors: pool_info(),
            },
        );
    }
    (graph, swapchain)
}

/// Answers every call with success and notes the calls.
fn run(display: &mut Display, first: Action, log: &mut Vec<Action>) -> Result<(), DisplayError> {
    let mut action = first;
    let mut handle = 10 * (display.frame_count() as u64 + 1);
    let mut pool = 700 + 10 * log.len() as u64;
    loop {
        log.push(action);
        let event = match action {
            Action::Finished(result) => return result,
            Action::CreateCommandBuffer => {
                handle += 1;
                Event::CommandBufferCreated(Ok(handle))
            }
            Action::CreateDescriptorPool { .. } => {
                assert_eq!(display.pool_request(), Some(pool_info()));
                pool += 1;
                Event::DescriptorPoolCreated(Ok(pool))
            }
            _ => Event::Done,
        };
        action = display.resume(event).action;
    }
}

#[test]
fn acquire_binds_the_image_into_a_fresh_graph() {
    let mut display = Display::new(1);
    let (node, graph) = display.acquire_next_image(Ok(image(2))).unwrap();
    assert_eq!(
        node,
        Node {
            object: Object::Node(ResourceKind::SwapchainImage),
            graph: 0,
            idx: 0
        }
    );
    assert_eq!(graph.tag(), 0);
    assert_eq!(graph.node_count(), 1);
    assert_eq!(graph.pass_count(), 0);
    assert!(graph.contains_node(node));
    assert_eq!(graph.slot(0).resource, Resource::SwapchainImage(image(2)));
    let (_, second) = display.acquire_next_image(Ok(image(0))).unwrap();
    assert_eq!(second.tag(), 1);
    assert!(!display.is_presenting());
}

#[test]
fn every_failure_to_acquire_is_a_lost_device() {
    let mut display = Display::new(1);
    assert_eq!(
        display
            .acquire_next_image(Err(SwapchainImageError::NeedsRebuild))
            .err(),
        Some(DisplayError::DeviceLost)
    );
    assert_eq!(
        display
            .acquire_next_image(Err(SwapchainImageError::DeviceLost))
            .err(),
        Some(DisplayError::DeviceLost)
    );
    // No tag was used up.
    let (_, graph) = display.acquire_next_image(Ok(image(0))).unwrap();
    assert_eq!(graph.tag(), 0);
}

#[test]
fn presenting_walks_through_both_command_buffers() {
    let mut display = Display::new(1);
    let (graph, swapchain) = frame(&mut display, 1, false);
    let first = display.present_image(graph, swapchain);
    assert!(display.is_presenting());
    let mut log = Vec::new();
    assert_eq!(run(&mut display, first, &mut log), Ok(()));
    assert!(!display.is_presenting());
    assert_eq!(display.phase(), Phase::Idle);
    // The image has the index 1, so two frames of two command buffers each are made.
    assert_eq!(display.frame_count(), 2);
    let (main, _) = display.command_buffer(1, Which::Main);
    let (presentation, _) = display.command_buffer(1, Which::Presentation);
    assert_eq!(
        log,
        vec![
            Action::CreateCommandBuffer,
            Action::CreateCommandBuffer,
            Action::CreateCommandBuffer,
            Action::CreateCommandBuffer,
            Action::WaitForFence { cmd_buf: main },
            Action::ResetCommandPool { cmd_buf: main },
            Action::BeginCommandBuffer { cmd_buf: main },
            Action::Record { cmd_buf: main },
            Action::EndCommandBuffer { cmd_buf: main },
            Action::ResetFence { cmd_buf: main },
            Action::QueueSubmit {
                cmd_buf: main,
                wait: None,
                signal: None
            },
            Action::WaitForFence {
                cmd_buf: presentation
            },
            Action::ResetCommandPool {
                cmd_buf: presentation
            },
            Action::BeginCommandBuffer {
                cmd_buf: presentation
            },
            Action::Record {
                cmd_buf: presentation
            },
            Action::EndCommandBuffer {
                cmd_buf: presentation
            },
            Action::ResetFence {
                cmd_buf: presentation
            },
            Action::QueueSubmit {
                cmd_buf: presentation,
                wait: Some((2001, PipelineStageFlags::from_raw(COLOR_OUTPUT))),
                signal: Some(3001)
            },
            Action::PresentImage(image(1)),
            Action::Finished(Ok(())),
        ]
    );
    assert_ne!(main, presentation);
    assert_eq!(display.command_buffer(1, Which::Main), (main, true));
    assert_eq!(
        display.command_buffer(1, Which::Presentation),
        (presentation, true)
    );
    assert!(!display.command_buffer(0, Which::Main).1);
}

#[test]
fn frames_are_made_as_images_turn_up() {
    let mut display = Display::new(1);
    let mut log = Vec::new();
    for (idx, frames, created) in [(2, 3, 6), (0, 3, 6), (4, 5, 10), (3, 5, 10)] {
        let (graph, swapchain) = frame(&mut display, idx, false);
        let first = display.present_image(graph, swapchain);
        assert_eq!(display.resolver().unwrap().pass_count(), 2);
        assert_eq!(run(&mut display, first, &mut log), Ok(()));
        assert!(display.resolver().is_none());
        assert_eq!(display.frame_count(), frames);
        let count = log
            .iter()
            .filter(|action| matches!(action, Action::CreateCommandBuffer))
            .count();
        assert_eq!(count, created);
        assert!(display.command_buffer(idx as usize, Which::Main).1);
        assert!(display.command_buffer(idx as usize, Which::Presentation).1);
    }
    // A frame whose image never turned up has submitted nothing.
    assert_eq!(display.command_buffer(1, Which::Main).1, false);
    assert_eq!(display.cache().id(), 1);
}

#[test]
fn the_two_command_buffers_split_the_passes_at_the_swapchain_image() {
    let mut display = Display::new(1);
    let (graph, swapchain) = frame(&mut display, 0, false);
    let mut action = display.present_image(graph, swapchain);
    let mut recorded = Vec::new();
    loop {
        let event = match action {
            Action::Finished(result) => {
                assert_eq!(result, Ok(()));
                break;
            }
            Action::CreateCommandBuffer => {
                Event::CommandBufferCreated(Ok(40 + display.frame_count() as u64))
            }
            Action::Record { .. } => {
                recorded.push(display.commands());
                Event::Done
            }
            _ => Event::Done,
        };
        action = display.resume(event).action;
    }
    let texture = Resource::Image(5);
    let fill = access(AccessType::TransferWrite, TRANSFER);
    let color = access(AccessType::ColorAttachmentWrite, COLOR_OUTPUT);
    assert_eq!(
        recorded,
        vec![
            vec![
                Command::Barrier(Barrier {
                    node: 1,
                    resource: texture,
                    prev: Access::nothing(),
                    next: fill
                }),
                Command::Execute(0),
            ],
            vec![
                Command::Barrier(Barrier {
                    node: 1,
                    resource: texture,
                    prev: fill,
                    next: access(AccessType::FragmentShaderReadOther, 0x80)
                }),
                Command::Barrier(Barrier {
                    node: 0,
                    resource: Resource::SwapchainImage(image(0)),
                    prev: Access::nothing(),
                    next: color
                }),
                Command::Execute(1),
                Command::Barrier(Barrier {
                    node: 0,
                    resource: Resource::SwapchainImage(image(0)),
                    prev: color,
                    next: access(AccessType::Present, 0)
                }),
            ],
        ]
    );
    assert!(display.commands().is_empty());
}

#[test]
fn no_command_pool_is_reset_before_its_fence_has_been_waited_for() {
    let mut display = Display::new(1);
    for round in 0..3 {
        let (graph, swapchain) = frame(&mut display, 0, false);
        let mut action = display.present_image(graph, swapchain);
        let mut waited: Vec<u64> = Vec::new();
        loop {
            let before = display.phase();
            let event = match action {
                Action::Finished(result) => {
                    assert_eq!(result, Ok(()));
                    break;
                }
                Action::CreateCommandBuffer => {
                    Event::CommandBufferCreated(Ok(60 + display.frame_count() as u64))
                }
                Action::WaitForFence { cmd_buf } => {
                    let which = match before {
                        Phase::Buffer(which, Op::WaitForFence) => which,
                        other => panic!("waiting in phase {other:?}"),
                    };
                    // From the second round on the work of the round before may still
                    // be running.
                    assert_eq!(display.command_buffer(0, which), (cmd_buf, round > 0));
                    waited.push(cmd_buf);
                    Event::Done
                }
                Action::ResetCommandPool { cmd_buf } => {
                    assert_eq!(waited.last(), Some(&cmd_buf));
                    let which = match before {
                        Phase::Buffer(which, Op::ResetCommandPool) => which,
                        other => panic!("resetting in phase {other:?}"),
                    };
                    assert_eq!(display.command_buffer(0, which), (cmd_buf, false));
                    Event::Done
                }
                _ => Event::Done,
            };
            action = display.resume(event).action;
        }
        assert_eq!(waited.len(), 2);
    }
}

#[test]
fn a_fence_which_fails_resets_nothing() {
    let mut display = Display::new(1);
    let (graph, swapchain) = frame(&mut display, 0, false);
    let first = display.present_image(graph, swapchain);
    let mut log = Vec::new();
    assert_eq!(run(&mut display, first, &mut log), Ok(()));

    let (graph, swapchain) = frame(&mut display, 0, false);
    let action = display.present_image(graph, swapchain);
    let (main, _) = display.command_buffer(0, Which::Main);
    assert_eq!(action, Action::WaitForFence { cmd_buf: main });
    let step = display.resume(Event::Failed);
    assert_eq!(step.action, Action::Finished(Err(DisplayError::DeviceLost)));
    assert_eq!(step.abandoned, None);
    // The graph which could not be presented is given up; the swapchain image is not the
    // display's to destroy.
    let released = step.released.unwrap();
    assert_eq!(released.destroyed, vec![Resource::Image(5)]);
    assert!(!display.is_presenting());
    assert_eq!(display.command_buffer(0, Which::Main), (main, true));
}

#[test]
fn a_command_buffer_which_cannot_be_created_is_a_driver_error() {
    let mut display = Display::new(1);
    let (graph, swapchain) = frame(&mut display, 0, false);
    assert_eq!(
        display.present_image(graph, swapchain),
        Action::CreateCommandBuffer
    );
    assert_eq!(display.phase(), Phase::CreateCommandBuffer(Which::Main));
    assert_eq!(
        display.resume(Event::CommandBufferCreated(Ok(4))).action,
        Action::CreateCommandBuffer
    );
    assert_eq!(
        display.phase(),
        Phase::CreateCommandBuffer(Which::Presentation)
    );
    let step = display.resume(Event::CommandBufferCreated(Err(DriverError::OutOfMemory)));
    assert_eq!(
        step.action,
        Action::Finished(Err(DisplayError::Driver(DriverError::OutOfMemory)))
    );
    assert_eq!(display.frame_count(), 0);
    assert!(step.released.is_some());
    // The main command buffer of the frame which was not made is handed back.
    assert_eq!(step.abandoned, Some(4));
}

#[test]
fn passes_which_cannot_be_recorded_are_a_driver_error() {
    let mut display = Display::new(1);
    let (graph, swapchain) = frame(&mut display, 0, false);
    let mut action = display.present_image(graph, swapchain);
    loop {
        let event = match action {
            Action::CreateCommandBuffer => {
                Event::CommandBufferCreated(Ok(display.frame_count() as u64))
            }
            Action::Record { .. } => break,
            Action::Finished(_) => panic!("nothing was recorded"),
            _ => Event::Done,
        };
        action = display.resume(event).action;
    }
    let step = display.resume(Event::RecordFailed(DriverError::OutOfMemory));
    assert_eq!(
        step.action,
        Action::Finished(Err(DisplayError::Driver(DriverError::OutOfMemory)))
    );

    // Anywhere else the event answers nothing, and the device counts as lost.
    let (graph, swapchain) = frame(&mut display, 0, false);
    display.present_image(graph, swapchain);
    let step = display.resume(Event::RecordFailed(DriverError::OutOfMemory));
    assert_eq!(step.action, Action::Finished(Err(DisplayError::DeviceLost)));
}

#[test]
fn an_event_which_does_not_answer_the_call_is_a_lost_device() {
    let mut display = Display::new(1);
    let (graph, swapchain) = frame(&mut display, 0, false);
    display.present_image(graph, swapchain);
    let step = display.resume(Event::Done);
    assert_eq!(step.action, Action::Finished(Err(DisplayError::DeviceLost)));
}

#[test]
fn a_descriptor_pool_is_created_once_and_then_reused() {
    let mut display = Display::new(1);
    let mut log = Vec::new();
    for round in 0..4 {
        let (graph, swapchain) = frame(&mut display, 0, true);
        let first = display.present_image(graph, swapchain);
        assert_eq!(run(&mut display, first, &mut log), Ok(()));
        let created = log
            .iter()
            .filter(|action| matches!(action, Action::CreateDescriptorPool { pass: 1 }))
            .count();
        // The graph of the round before holds its pool until this round has been
        // presented, so a second pool is made in the second round, and none after that.
        assert_eq!(created, if round == 0 { 1 } else { 2 });
    }
    assert_eq!(display.cache().available_count(&pool_info()), 1);
}

#[test]
fn a_descriptor_pool_which_the_device_hands_out_twice_is_invalid_data() {
    let mut display = Display::new(1);
    let mut pools = 0;
    for round in 0..2 {
        let (graph, swapchain) = frame(&mut display, 0, true);
        let mut action = display.present_image(graph, swapchain);
        loop {
            let event = match action {
                Action::Finished(result) => {
                    let expected = if round == 0 {
                        Ok(())
                    } else {
                        Err(DisplayError::Driver(DriverError::InvalidData))
                    };
                    assert_eq!(result, expected);
                    break;
                }
                Action::CreateCommandBuffer => {
                    Event::CommandBufferCreated(Ok(display.frame_count() as u64))
                }
                Action::CreateDescriptorPool { .. } => {
                    pools += 1;
                    Event::DescriptorPoolCreated(Ok(900))
                }
                _ => Event::Done,
            };
            action = display.resume(event).action;
        }
    }
    assert_eq!(pools, 2);
}

#[test]
fn a_descriptor_pool_which_cannot_be_created_is_a_driver_error() {
    let mut display = Display::new(1);
    let (graph, swapchain) = frame(&mut display, 0, true);
    let mut action = display.present_image(graph, swapchain);
    loop {
        let event = match action {
            Action::CreateCommandBuffer => {
                Event::CommandBufferCreated(Ok(display.frame_count() as u64))
            }
            Action::CreateDescriptorPool { pass } => {
                assert_eq!(pass, 1);
                assert_eq!(
                    display.phase(),
                    Phase::Buffer(Which::Presentation, Op::CreateDescriptorPool)
                );
                break;
            }
            Action::Finished(_) => panic!("no descriptor pool was asked for"),
            _ => Event::Done,
        };
        action = display.resume(event).action;
    }
    let step = display.resume(Event::DescriptorPoolCreated(Err(DriverError::Unsupported)));
    assert_eq!(
        step.action,
        Action::Finished(Err(DisplayError::Driver(DriverError::Unsupported)))
    );
    assert_eq!(display.pool_request(), None);
}

#[test]
fn the_graph_of_a_frame_is_given_up_when_the_next_has_been_presented() {
    let mut display = Display::new(1);
    for round in 0..2 {
        let (graph, swapchain) = frame(&mut display, 0, false);
        let mut action = display.present_image(graph, swapchain);
        loop {
            let event = match action {
                Action::Finished(_) => break,
                Action::CreateCommandBuffer => {
                    Event::CommandBufferCreated(Ok(display.frame_count() as u64))
                }
                _ => Event::Done,
            };
            let step = display.resume(event);
            action = step.action;
            match (round, action) {
                (1, Action::Finished(_)) => {
                    let released = step.released.unwrap();
                    assert_eq!(released.destroyed, vec![Resource::Image(5)]);
                    assert!(released.returned.is_empty());
                }
                _ => assert!(step.released.is_none()),
            }
        }
    }
}

#[test]
fn errors_read_as_their_names() {
    assert_eq!(DisplayError::DeviceLost.to_string(), "DeviceLost");
    assert_eq!(
        DisplayError::Driver(DriverError::InvalidData).to_string(),
        "Driver(InvalidData)"
    );
    assert_eq!(
        DisplayError::Driver(DriverError::OutOfMemory).to_string(),
        "Driver(OutOfMemory)"
    );
    assert_eq!(
        DisplayError::Driver(DriverError::Unsupported).to_string(),
        "Driver(Unsupported)"
    );
    assert_eq!(DisplayError::from(()), DisplayError::DeviceLost);
    assert_eq!(
        DisplayError::from(DriverError::OutOfMemory),
        DisplayError::Driver(DriverError::OutOfMemory)
    );
    assert_eq!(
        DisplayError::from(SwapchainImageError::NeedsRebuild),
        DisplayError::DeviceLost
    );
}
