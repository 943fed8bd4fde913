//! The frame scheduler: one resolved graph per image of the swapchain.
//!
//! Presenting an image takes many calls of the device: command buffers are created, waited
//! for, reset, recorded and submitted. The display makes none of them. It says which call is
//! due ([`Action`]), the caller makes it and reports what came of it ([`Event`]), and the
//! display says what is due next. [`DisplayView::step`] is the whole rule.
//!
//! Each image of the swapchain has a frame with two command buffers: one for what can run
//! before the image is needed, one for what needs it. The command pool of a command buffer is
//! reset only after the fence of that command buffer has been waited for. The resolved graph
//! of a frame is kept until the next graph has been presented on the same image.

use crate::access::{Access, AccessType, PipelineStageFlags};
use crate::driver::descriptor_set::{DescriptorPoolInfo, DescriptorPoolInfoView};
use crate::error::{DisplayError, DriverError, SwapchainImageError};
use crate::graph::binding::{Binding, Node, Resource, SwapchainImage};
use crate::graph::edge::{Object, ResourceKind};
use crate::graph::pass::PassView;
use crate::graph::render_graph::{GraphView, RenderGraph, Slot};
use crate::graph::resolver::{
    lemma_first_pass, Barrier, Command, CommandBuffer, Recorded, Released, Resolver,
};
use crate::pool::HashPool;
use vstd::prelude::*;

verus! {

/// The two command buffers of a frame.
#[derive(Clone, Copy, Debug, PartialEq, Eq, Hash, Structural)]
pub enum Which {
    /// For the passes which do not need the image of the swapchain.
    Main,
    /// For the passes which need the image of the swapchain.
    Presentation,
}

/// The calls which are made on a command buffer, in the order in which they are made.
#[derive(Clone, Copy, Debug, PartialEq, Eq, Hash, Structural)]
pub enum Op {
    WaitForFence,
    ResetCommandPool,
    BeginCommandBuffer,
    CreateDescriptorPool,
    Record,
    EndCommandBuffer,
    ResetFence,
    QueueSubmit,
}

/// What the display is waiting for.
#[derive(Clone, Copy, Debug, PartialEq, Eq, Hash, Structural)]
pub enum Phase {
    /// Nothing: no image is being presented.
    Idle,
    /// The creation of a command buffer of a new frame.
    CreateCommandBuffer(Which),
    /// A call on a command buffer of the frame.
    Buffer(Which, Op),
    /// The presentation of the image.
    PresentImage,
}

/// What the caller reports back.
#[derive(Clone, Copy, Debug)]
pub enum Event {
    /// The call succeeded.
    Done,
    /// The call failed.
    Failed,
    /// The device was asked for a command buffer.
    CommandBufferCreated(Result<u64, DriverError>),
    /// The device was asked for a descriptor pool.
    DescriptorPoolCreated(Result<u64, DriverError>),
    /// The commands could not be put into the command buffer.
    RecordFailed(DriverError),
}

/// What the caller is asked to do next.
#[derive(Clone, Copy, Debug, PartialEq, Eq)]
pub enum Action {
    /// Create a command buffer with its command pool and its fence, and report its handle.
    CreateCommandBuffer,
    /// Wait for the fence of the command buffer.
    WaitForFence { cmd_buf: u64 },
    /// Reset the command pool of the command buffer.
    ResetCommandPool { cmd_buf: u64 },
    /// Begin the command buffer.
    BeginCommandBuffer { cmd_buf: u64 },
    /// Create the descriptor pool which the pass needs, and report its handle.
    CreateDescriptorPool { pass: usize },
    /// Put the commands which have been recorded into the command buffer.
    Record { cmd_buf: u64 },
    /// End the command buffer.
    EndCommandBuffer { cmd_buf: u64 },
    /// Reset the fence of the command buffer.
    ResetFence { cmd_buf: u64 },
    /// Submit the command buffer to the queue, with its fence. Where `wait` holds a
    /// semaphore and stages, those stages wait for that semaphore; where `signal` holds a
    /// semaphore, it is signalled when the commands have run.
    QueueSubmit { cmd_buf: u64, wait: Option<(u64, PipelineStageFlags)>, signal: Option<u64> },
    /// Present the image.
    PresentImage(SwapchainImage),
    /// Nothing more: the image has been presented, or presenting it has failed.
    Finished(Result<(), DisplayError>),
}

/// What a call of the display hands to the caller.
pub struct Step {
    /// The call which is due.
    pub action: Action,
    /// What is left of the resolved graph which the display gave up in this step, if it gave
    /// one up.
    pub released: Option<Released>,
    /// The command buffer which the display gave up in this step, for the caller to destroy:
    /// the main command buffer of a frame which was not made after all.
    pub abandoned: Option<u64>,
}

struct Frame {
    main_cmd_buf: u64,
    presentation_cmd_buf: u64,
    main_pending: bool,
    presentation_pending: bool,
    resolved_render_graph: Option<Resolver>,
}

struct Presenting {
    resolver: Resolver,
    node: Node,
    image: SwapchainImage,
    last_access: Access,
    wait_stage: PipelineStageFlags,
    new_main: Option<u64>,
    cmd_buf: CommandBuffer,
}

/// The frame scheduler.
pub struct Display {
    cache: HashPool<DescriptorPoolInfo>,
    frames: Vec<Frame>,
    phase: Phase,
    presenting: Option<Presenting>,
    next_graph: u64,
}

/// What a frame says.
pub struct FrameView {
    /// The handle of the main command buffer.
    pub main: u64,
    /// The handle of the presentation command buffer.
    pub presentation: u64,
    /// Whether the main command buffer has been submitted and its fence not waited for
    /// since.
    pub main_pending: bool,
    /// Whether the presentation command buffer has been submitted and its fence not waited
    /// for since.
    pub presentation_pending: bool,
    /// The graph which was presented last on the image of this frame.
    pub retained: Option<GraphView>,
}

impl FrameView {
    /// The handle of the command buffer `which`.
    pub open spec fn buffer(self, which: Which) -> u64 {
        match which {
            Which::Main => self.main,
            Which::Presentation => self.presentation,
        }
    }

    /// Whether the command buffer `which` may still be running on the device.
    pub open spec fn pending(self, which: Which) -> bool {
        match which {
            Which::Main => self.main_pending,
            Which::Presentation => self.presentation_pending,
        }
    }

    /// This frame with the mark of the command buffer `which` set to `pending`.
    pub open spec fn with_pending(self, which: Which, pending: bool) -> FrameView {
        match which {
            Which::Main => FrameView { main_pending: pending, ..self },
            Which::Presentation => FrameView { presentation_pending: pending, ..self },
        }
    }
}

/// What the display holds of the image which it is presenting.
pub struct PresentingView {
    /// The resolved graph.
    pub graph: GraphView,
    /// The number of passes which have been recorded.
    pub cursor: int,
    /// The node of the image.
    pub node: Node,
    pub image: SwapchainImage,
    /// The last access which the passes make of the image.
    pub last_access: Access,
    /// The stages at which the image is accessed first.
    pub wait_stage: PipelineStageFlags,
    /// The main command buffer of the frame which is being created.
    pub new_main: Option<u64>,
    /// The handle of the command buffer which is being recorded.
    pub cmd_buf: u64,
    /// The commands which have been recorded for it.
    pub commands: Seq<Command>,
}

impl PresentingView {
    /// The barrier which leads the image from its last access to its presentation.
    pub open spec fn present_barrier(self) -> Command {
        Command::Barrier(
            Barrier {
                node: self.node.idx,
                resource: Resource::SwapchainImage(self.image),
                prev: self.last_access,
                next: Access { ty: AccessType::Present, stage: PipelineStageFlags { bits: 0 } },
            },
        )
    }

    /// Whether every pass has been recorded which the command buffer `which` takes: for the
    /// main one, those before the first pass which accesses the image; for the presentation
    /// one, all.
    pub open spec fn reached(self, which: Which) -> bool {
        match which {
            Which::Main => self.cursor >= self.graph.first_pass(self.node.idx as int),
            Which::Presentation => self.cursor >= self.graph.passes.len(),
        }
    }
}

/// What a [`Display`] says.
pub struct DisplayView {
    pub phase: Phase,
    /// The frames, by the index of their image within the swapchain.
    pub frames: Seq<FrameView>,
    pub presenting: Option<PresentingView>,
    /// The tag of the next graph which the display makes.
    pub next_graph: u64,
    /// The pool of descriptor pools.
    pub cache: HashPool<DescriptorPoolInfo>,
}

/// The call which follows `op` on a command buffer, apart from recording.
pub open spec fn next_op(op: Op) -> Op {
    match op {
        Op::WaitForFence => Op::ResetCommandPool,
        Op::ResetCommandPool => Op::BeginCommandBuffer,
        Op::BeginCommandBuffer => Op::Record,
        Op::CreateDescriptorPool => Op::Record,
        Op::Record => Op::EndCommandBuffer,
        Op::EndCommandBuffer => Op::ResetFence,
        Op::ResetFence => Op::QueueSubmit,
        Op::QueueSubmit => Op::WaitForFence,
    }
}

impl DisplayView {
    /// The index of the frame of the image which is being presented.
    pub open spec fn idx(self) -> int {
        self.presenting->0.image.idx as int
    }

    /// The invariant of the display.
    pub open spec fn wf(self) -> bool {
        &&& self.cache.wf()
        &&& self.phase is Idle <==> self.presenting is None
        &&& forall|i: int|
            0 <= i < self.frames.len() && (#[trigger] self.frames[i]).retained is Some
                ==> self.frames[i].retained->0.wf()
        &&& self.presenting is Some ==> {
            let p = self.presenting->0;
            &&& p.graph.wf()
            &&& p.graph.knows(p.node)
            &&& 0 <= p.cursor <= p.graph.passes.len()
            &&& match self.phase {
                Phase::Idle => true,
                Phase::CreateCommandBuffer(which) => self.frames.len() <= p.image.idx && (which
                    == Which::Presentation <==> p.new_main is Some),
                Phase::Buffer(which, op) => p.image.idx < self.frames.len() && p.new_main is None
                    && p.cmd_buf
                    == self.frames[p.image.idx as int].buffer(which) && (op
                    == Op::CreateDescriptorPool ==> p.cursor < p.graph.passes.len()
                    && p.graph.passes[p.cursor].needs_pool() && !p.reached(which)),
                Phase::PresentImage => p.image.idx < self.frames.len(),
            }
        }
    }

    /// The call which the display is waiting for.
    pub open spec fn action(self) -> Action {
        let p = self.presenting->0;
        match self.phase {
            Phase::Idle => Action::Finished(Ok(())),
            Phase::CreateCommandBuffer(_) => Action::CreateCommandBuffer,
            Phase::Buffer(which, op) => match op {
                Op::WaitForFence => Action::WaitForFence { cmd_buf: p.cmd_buf },
                Op::ResetCommandPool => Action::ResetCommandPool { cmd_buf: p.cmd_buf },
                Op::BeginCommandBuffer => Action::BeginCommandBuffer { cmd_buf: p.cmd_buf },
                Op::CreateDescriptorPool => Action::CreateDescriptorPool { pass: p.cursor as usize },
                Op::Record => Action::Record { cmd_buf: p.cmd_buf },
                Op::EndCommandBuffer => Action::EndCommandBuffer { cmd_buf: p.cmd_buf },
                Op::ResetFence => Action::ResetFence { cmd_buf: p.cmd_buf },
                Op::QueueSubmit => match which {
                    Which::Main => Action::QueueSubmit {
                        cmd_buf: p.cmd_buf,
                        wait: None,
                        signal: None,
                    },
                    Which::Presentation => Action::QueueSubmit {
                        cmd_buf: p.cmd_buf,
                        wait: Some((p.image.acquired, p.wait_stage)),
                        signal: Some(p.image.rendered),
                    },
                },
            },
            Phase::PresentImage => Action::PresentImage(p.image),
        }
    }

    /// Whether the event `event` ends the presentation with an error: a call failed, the
    /// device could not create what it was asked for or handed out a descriptor pool a
    /// second time, or the event is none which answers the call that was due.
    pub open spec fn fails(self, event: Event) -> bool {
        match self.phase {
            Phase::Idle => true,
            Phase::CreateCommandBuffer(_) => !(event matches Event::CommandBufferCreated(Ok(_))),
            Phase::Buffer(_,
                Op::CreateDescriptorPool) => !(event matches Event::DescriptorPoolCreated(
                Ok(pool),
            ) && !self.cache.knows(pool)),
            Phase::Buffer(_, _) => !(event is Done),
            Phase::PresentImage => !(event is Done),
        }
    }

    /// The error with which an event that fails ends the presentation: the error of the
    /// driver where the device could not create what it was asked for, or where the commands
    /// could not be put into the command buffer; invalid data where the device handed out a
    /// descriptor pool a second time; a lost device otherwise.
    pub open spec fn error(self, event: Event) -> DisplayError {
        match (self.phase, event) {
            (Phase::CreateCommandBuffer(_),
                Event::CommandBufferCreated(Err(err))) => DisplayError::Driver(
                err,
            ),
            (Phase::Buffer(_, Op::CreateDescriptorPool),
                Event::DescriptorPoolCreated(Err(err))) => DisplayError::Driver(
                err,
            ),
            (Phase::Buffer(_, Op::CreateDescriptorPool),
                Event::DescriptorPoolCreated(Ok(_))) => DisplayError::Driver(
                DriverError::InvalidData,
            ),
            (Phase::Buffer(_, Op::Record), Event::RecordFailed(err)) => DisplayError::Driver(err),
            _ => DisplayError::DeviceLost,
        }
    }

    /// The command buffer which the display gives up when it takes the event `event`: where the
    /// event fails while a frame is being made, the main command buffer which had been created
    /// for it.
    pub open spec fn abandons(self, event: Event) -> Option<u64> {
        if self.fails(event) {
            self.presenting->0.new_main
        } else {
            None
        }
    }

    /// The display starts on the command buffer `which` of the frame: it changes from `self`
    /// to `post` in nothing but this, that it waits for the fence of that command buffer and
    /// has recorded nothing for it.
    pub open spec fn starts(self, post: DisplayView, which: Which) -> bool {
        &&& post.phase == Phase::Buffer(which, Op::WaitForFence)
        &&& post.presenting == Some(
            PresentingView {
                new_main: None,
                cmd_buf: post.frames[self.idx()].buffer(which),
                commands: Seq::empty(),
                ..self.presenting->0
            },
        )
    }

    /// Recording for the command buffer `which` goes on from `self` to `post`: the commands
    /// of the passes between the two are added in order. Where every pass has been recorded
    /// which this command buffer takes, the commands are ready to be put into it; the
    /// presentation command buffer gets the barrier which leads the image to its presentation
    /// last. Otherwise recording has stopped in front of a pass which needs a descriptor
    /// pool.
    pub open spec fn records(self, post: DisplayView, which: Which) -> bool {
        let p = self.presenting->0;
        let q = post.presenting->0;
        &&& post.frames == self.frames
        &&& post.presenting is Some
        &&& q == PresentingView { cursor: q.cursor, commands: q.commands, ..p }
        &&& p.cursor <= q.cursor <= p.graph.passes.len()
        &&& if q.reached(which) {
            &&& post.phase == Phase::Buffer(which, Op::Record)
            &&& q.commands == p.commands + p.graph.commands(p.cursor, q.cursor) + if which
                == Which::Presentation {
                seq![p.present_barrier()]
            } else {
                Seq::empty()
            }
        } else {
            &&& post.phase == Phase::Buffer(which, Op::CreateDescriptorPool)
            &&& q.commands == p.commands + p.graph.commands(p.cursor, q.cursor)
            &&& p.graph.passes[q.cursor].needs_pool()
        }
    }

    /// The rule of the display: from the state `self`, which waits for a call, the event
    /// `event` leads to the state `post` and to the call `action`, and `retired` is the
    /// resolved graph which the display gives up.
    ///
    /// An event which fails ends the presentation with its error, and the graph which was
    /// being presented is given up; the frames stay as they are. Otherwise:
    /// - a new main command buffer is kept until the presentation command buffer has been
    ///   created too; the two make a new frame; frames are made until there is one for the
    ///   image, and then the display starts on the main command buffer;
    /// - on a command buffer, the fence is waited for, then the command pool is reset,
    ///   then the command buffer is begun, recorded, ended, its fence is reset, and it is
    ///   submitted; waiting for its fence marks it as not pending, submitting it as pending;
    /// - when a descriptor pool has been created, recording goes on, and at least the pass
    ///   which asked for the pool is recorded;
    /// - when the main command buffer has been submitted, the display starts on the
    ///   presentation command buffer; when that has been submitted, the image is presented;
    /// - when the image has been presented, the frame keeps the graph, and the graph which
    ///   it kept before is given up.
    pub open spec fn step(
        self,
        event: Event,
        post: DisplayView,
        action: Action,
        retired: Option<GraphView>,
    ) -> bool {
        let p = self.presenting->0;
        let idx = self.idx();
        &&& post.next_graph == self.next_graph
        &&& post.cache.tag() == self.cache.tag()
        &&& if self.fails(event) {
            &&& post.phase is Idle
            &&& post.presenting is None
            &&& post.frames == self.frames
            &&& action == Action::Finished(Err(self.error(event)))
            &&& retired == Some(p.graph)
        } else {
            match self.phase {
                Phase::Idle => false,
                Phase::CreateCommandBuffer(Which::Main) => {
                    &&& post.phase == Phase::CreateCommandBuffer(Which::Presentation)
                    &&& post.frames == self.frames
                    &&& post.presenting == Some(
                        PresentingView { new_main: Some(event->CommandBufferCreated_0->Ok_0), ..p },
                    )
                    &&& action == post.action()
                    &&& retired is None
                },
                Phase::CreateCommandBuffer(Which::Presentation) => {
                    &&& post.frames == self.frames.push(
                        FrameView {
                            main: p.new_main->0,
                            presentation: event->CommandBufferCreated_0->Ok_0,
                            main_pending: false,
                            presentation_pending: false,
                            retained: None,
                        },
                    )
                    &&& if post.frames.len() <= idx {
                        post.phase == Phase::CreateCommandBuffer(Which::Main) && post.presenting
                            == Some(PresentingView { new_main: None, ..p })
                    } else {
                        self.starts(post, Which::Main)
                    }
                    &&& action == post.action()
                    &&& retired is None
                },
                Phase::Buffer(which, Op::BeginCommandBuffer) => {
                    &&& self.records(post, which)
                    &&& action == post.action()
                    &&& retired is None
                },
                Phase::Buffer(which, Op::CreateDescriptorPool) => {
                    &&& self.records(post, which)
                    &&& post.presenting->0.cursor > p.cursor
                    &&& action == post.action()
                    &&& retired is None
                },
                Phase::Buffer(which, Op::QueueSubmit) => {
                    &&& post.frames == self.frames.update(
                        idx,
                        self.frames[idx].with_pending(which, true),
                    )
                    &&& match which {
                        Which::Main => self.starts(post, Which::Presentation),
                        Which::Presentation => post.phase == Phase::PresentImage && post.presenting
                            == self.presenting,
                    }
                    &&& action == post.action()
                    &&& retired is None
                },
                Phase::Buffer(which, op) => {
                    &&& post.phase == Phase::Buffer(which, next_op(op))
                    &&& post.presenting == self.presenting
                    &&& post.frames == if op == Op::WaitForFence {
                        self.frames.update(idx, self.frames[idx].with_pending(which, false))
                    } else {
                        self.frames
                    }
                    &&& action == post.action()
                    &&& retired is None
                },
                Phase::PresentImage => {
                    &&& post.phase is Idle
                    &&& post.presenting is None
                    &&& post.frames == self.frames.update(
                        idx,
                        FrameView { retained: Some(p.graph), ..self.frames[idx] },
                    )
                    &&& action == Action::Finished(Ok(()))
                    &&& retired == self.frames[idx].retained
                },
            }
        }
    }
}

/// What is left of a resolved graph which the display gave up: the leased resources which
/// were still bound go back to their pools, the owned ones are destroyed.
pub open spec fn releases(released: Option<Released>, retired: Option<GraphView>) -> bool {
    &&& released is Some <==> retired is Some
    &&& released is Some ==> released->0.returned@ == retired->0.leased_resources(
        retired->0.slots.len() as int,
    ) && released->0.destroyed@ == retired->0.owned_resources(retired->0.slots.len() as int)
}

/// The command pool of a command buffer is reset only after its fence has been waited for:
/// whenever the display asks for the reset, it was waiting for that fence, the wait has
/// succeeded, and the command buffer is not pending any more. The reset belongs to the frame
/// of the image which is being presented, and to no other.
pub proof fn lemma_fence_gated_reset(
    pre: DisplayView,
    event: Event,
    post: DisplayView,
    action: Action,
    retired: Option<GraphView>,
)
    requires
        pre.wf(),
        !(pre.phase is Idle),
        pre.step(event, post, action, retired),
        action is ResetCommandPool,
    ensures
        event is Done,
        exists|which: Which|
            pre.phase == Phase::Buffer(which, Op::WaitForFence) && action->ResetCommandPool_cmd_buf
                == pre.frames[pre.idx()].buffer(which) && !post.frames[pre.idx()].pending(which),
{
    match pre.phase {
        Phase::Buffer(which, Op::WaitForFence) => {
            assert(pre.phase == Phase::Buffer(which, Op::WaitForFence)
                && action->ResetCommandPool_cmd_buf == pre.frames[pre.idx()].buffer(which)
                && !post.frames[pre.idx()].pending(which));
        },
        _ => {},
    }
}

/// A command buffer which is pending stays pending until its fence has been waited for: no
/// other step of the display clears the mark, and no step touches the marks of another frame.
pub proof fn lemma_pending_until_waited(
    pre: DisplayView,
    event: Event,
    post: DisplayView,
    action: Action,
    retired: Option<GraphView>,
    i: int,
    which: Which,
)
    requires
        pre.wf(),
        !(pre.phase is Idle),
        pre.step(event, post, action, retired),
        0 <= i < pre.frames.len(),
        pre.frames[i].pending(which),
        !(pre.phase == Phase::Buffer(which, Op::WaitForFence) && i == pre.idx() && event is Done),
    ensures
        i < post.frames.len(),
        post.frames[i].pending(which),
        post.frames[i].buffer(which) == pre.frames[i].buffer(which),
{
}

/// The graph which a frame keeps is the one which was presented last on its image: a frame
/// changes the graph it keeps only when an image has been presented on it, and then it keeps
/// the graph of that presentation.
pub proof fn lemma_retained_is_latest(
    pre: DisplayView,
    event: Event,
    post: DisplayView,
    action: Action,
    retired: Option<GraphView>,
    i: int,
)
    requires
        pre.wf(),
        !(pre.phase is Idle),
        pre.step(event, post, action, retired),
        0 <= i < pre.frames.len(),
    ensures
        i < post.frames.len(),
        post.frames[i].retained != pre.frames[i].retained ==> pre.phase is PresentImage
            && event is Done
            && i == pre.idx() && post.frames[i].retained == Some(pre.presenting->0.graph)
            && action == Action::Finished(Ok(())),
{
}

impl Display {
    spec fn frame_view(frame: Frame) -> FrameView {
        FrameView {
            main: frame.main_cmd_buf,
            presentation: frame.presentation_cmd_buf,
            main_pending: frame.main_pending,
            presentation_pending: frame.presentation_pending,
            retained: match frame.resolved_render_graph {
                Some(resolver) => Some(resolver.graph()),
                None => None,
            },
        }
    }

    spec fn presenting_view(presenting: Presenting) -> PresentingView {
        PresentingView {
            graph: presenting.resolver.graph(),
            cursor: presenting.resolver.cursor(),
            node: presenting.node,
            image: presenting.image,
            last_access: presenting.last_access,
            wait_stage: presenting.wait_stage,
            new_main: presenting.new_main,
            cmd_buf: presenting.cmd_buf.handle,
            commands: presenting.cmd_buf.commands@,
        }
    }

    spec fn frames_view(frames: Seq<Frame>) -> Seq<FrameView> {
        Seq::new(frames.len(), |i: int| Self::frame_view(frames[i]))
    }

    spec fn frames_wf(frames: Seq<Frame>) -> bool {
        forall|i: int|
            0 <= i < frames.len() && (#[trigger] frames[i]).resolved_render_graph is Some
                ==> frames[i].resolved_render_graph->0.wf()
    }

    spec fn state(
        phase: Phase,
        frames: Seq<Frame>,
        presenting: Option<Presenting>,
        next_graph: u64,
        cache: HashPool<DescriptorPoolInfo>,
    ) -> DisplayView {
        DisplayView {
            phase,
            frames: Self::frames_view(frames),
            presenting: match presenting {
                Some(presenting) => Some(Self::presenting_view(presenting)),
                None => None,
            },
            next_graph,
            cache,
        }
    }

    /// The invariant of the display: what [`DisplayView::wf`] says, and that every
    /// resolved graph which the display holds is well formed.
    pub closed spec fn wf(&self) -> bool {
        &&& self@.wf()
        &&& Self::frames_wf(self.frames@)
        &&& self.presenting is Some ==> self.presenting->0.resolver.wf()
    }

    /// What the invariant of the display says of its view.
    pub proof fn lemma_wf(&self)
        requires
            self.wf(),
        ensures
            self@.wf(),
    {
    }

    proof fn lemma_frames_view_wf(frames: Seq<Frame>)
        requires
            Self::frames_wf(frames),
        ensures
            forall|i: int|
                0 <= i < Self::frames_view(frames).len() && (#[trigger] Self::frames_view(
                    frames,
                )[i]).retained is Some ==> Self::frames_view(frames)[i].retained->0.wf(),
    {
        assert forall|i: int|
            0 <= i < Self::frames_view(frames).len() && (#[trigger] Self::frames_view(
                frames,
            )[i]).retained is Some implies Self::frames_view(frames)[i].retained->0.wf() by {
            assert(frames[i].resolved_render_graph is Some);
            frames[i].resolved_render_graph->0.lemma_wf();
        }
    }

    /// A display without frames, which presents nothing. Its pool of descriptor pools
    /// has the tag `tag`.
    pub fn new(tag: u64) -> (display: Display)
        ensures
            display.wf(),
            display@.phase is Idle,
            display@.frames == Seq::<FrameView>::empty(),
            display@.presenting is None,
            display@.next_graph == 0,
            display@.cache.tag() == tag,
    {
        let display = Display {
            cache: HashPool::new(tag),
            frames: Vec::new(),
            phase: Phase::Idle,
            presenting: None,
            next_graph: 0,
        };
        assert(display@.frames =~= Seq::<FrameView>::empty());
        display
    }

    /// Whether an image is being presented.
    pub fn is_presenting(&self) -> (presenting: bool)
        requires
            self.wf(),
        ensures
            presenting == !(self@.phase is Idle),
    {
        self.presenting.is_some()
    }

    /// What the display is waiting for.
    pub fn phase(&self) -> (phase: Phase)
        ensures
            phase == self@.phase,
    {
        self.phase
    }

    /// The number of frames.
    pub fn frame_count(&self) -> (count: usize)
        ensures
            count == self@.frames.len(),
    {
        self.frames.len()
    }

    /// The handle of the command buffer `which` of the frame `idx`, and whether it may still
    /// be running on the device.
    pub fn command_buffer(&self, idx: usize, which: Which) -> (buffer: (u64, bool))
        requires
            idx < self@.frames.len(),
        ensures
            buffer.0 == self@.frames[idx as int].buffer(which),
            buffer.1 == self@.frames[idx as int].pending(which),
    {
        match which {
            Which::Main => (self.frames[idx].main_cmd_buf, self.frames[idx].main_pending),
            Which::Presentation => (
                self.frames[idx].presentation_cmd_buf,
                self.frames[idx].presentation_pending,
            ),
        }
    }

    /// The pool of descriptor pools.
    pub fn cache(&self) -> (cache: &HashPool<DescriptorPoolInfo>)
        ensures
            *cache == self@.cache,
    {
        &self.cache
    }

    /// The commands which have been recorded for the command buffer which is being recorded;
    /// none where no image is being presented.
    pub fn commands(&self) -> (commands: Vec<Command>)
        ensures
            match self@.presenting {
                Some(presenting) => commands@ == presenting.commands,
                None => commands@ == Seq::<Command>::empty(),
            },
    {
        let mut commands: Vec<Command> = Vec::new();
        match &self.presenting {
            Some(presenting) => {
                commands.extend_from_slice(presenting.cmd_buf.commands.as_slice());
                assert(commands@ =~= presenting.cmd_buf.commands@);
            },
            None => {},
        }
        commands
    }

    /// The resolved graph which is being presented.
    pub fn resolver(&self) -> (resolver: Option<&Resolver>)
        requires
            self.wf(),
        ensures
            resolver is Some <==> self@.presenting is Some,
            resolver is Some ==> resolver->0.wf()
                && resolver->0.graph() == self@.presenting->0.graph
                && resolver->0.cursor() == self@.presenting->0.cursor,
    {
        match &self.presenting {
            Some(presenting) => Some(&presenting.resolver),
            None => None,
        }
    }

    /// The description of the descriptor pool which the display asks for, where that is
    /// what it is waiting for.
    pub fn pool_request(&self) -> (info: Option<DescriptorPoolInfo>)
        requires
            self.wf(),
        ensures
            info is Some <==> self@.phase is Buffer && self@.phase->Buffer_1
                == Op::CreateDescriptorPool,
            info is Some
                ==> info->0@
                    == self@.presenting->0.graph.passes[self@.presenting->0.cursor].pipeline->0.descriptors,
    {
        match self.phase {
            Phase::Buffer(_, Op::CreateDescriptorPool) => {
                match &self.presenting {
                    Some(presenting) => {
                        let cursor = presenting.resolver.recorded();
                        presenting.resolver.render_graph().pass(cursor).pool_info()
                    },
                    None => None,
                }
            },
            _ => None,
        }
    }

    /// Takes what came of acquiring the next image of the swapchain. For an image, a fresh
    /// graph is made and the image is bound to it as its first node, untouched; the caller
    /// builds the passes of the frame on the two. Every failure to acquire an image counts
    /// as a lost device, also where building the swapchain again would have been enough.
    pub fn acquire_next_image(
        &mut self,
        acquired: Result<SwapchainImage, SwapchainImageError>,
    ) -> (frame: Result<(Node, RenderGraph), DisplayError>)
        requires
            old(self).wf(),
        ensures
            final(self).wf(),
            match acquired {
                Err(_) => frame is Err && frame->Err_0 == DisplayError::DeviceLost && final(self)@
                    == old(self)@,
                Ok(image) => frame is Ok && final(self)@ == (DisplayView {
                    next_graph: if old(self)@.next_graph == u64::MAX {
                        0
                    } else {
                        (old(self)@.next_graph + 1) as u64
                    },
                    ..old(self)@
                }) && frame->Ok_0.1.wf() && frame->Ok_0.1@.tag == old(self)@.next_graph
                    && frame->Ok_0.1@.passes == Seq::<PassView>::empty()
                    && frame->Ok_0.1@.slots == seq![
                    Slot {
                        resource: Resource::SwapchainImage(image),
                        access: Access::nothing_spec(),
                        node: Object::Node(ResourceKind::SwapchainImage),
                        bound: true,
                    },
                ] && frame->Ok_0.0 == (Node {
                    object: Object::Node(ResourceKind::SwapchainImage),
                    graph: old(self)@.next_graph,
                    idx: 0,
                }) && frame->Ok_0.1@.owns(frame->Ok_0.0),
            },
    {
        let image = match acquired {
            Ok(image) => image,
            Err(err) => {
                return Err(DisplayError::from(err));
            },
        };
        let tag = self.next_graph;
        let mut render_graph = RenderGraph::new(tag);
        let ghost empty = render_graph@;
        let binding = Binding::from_resource(Resource::SwapchainImage(image));
        let bound = render_graph.bind_node(binding);
        proof {
            assert(!empty.is_bound(Resource::SwapchainImage(image)));
            assert(render_graph@.slots =~= seq![
                Slot {
                    resource: Resource::SwapchainImage(image),
                    access: Access::nothing_spec(),
                    node: Object::Node(ResourceKind::SwapchainImage),
                    bound: true,
                },
            ]);
        }
        let node = match bound {
            Ok(node) => node,
            Err(_) => {
                proof {
                    assert(false);
                }
                return Err(DisplayError::DeviceLost);
            },
        };
        let ghost before = self@;
        self.next_graph = if tag == u64::MAX {
            0
        } else {
            tag + 1
        };
        proof {
            assert(self@.frames == before.frames);
        }
        Ok((node, render_graph))
    }

    fn pending_action(phase: Phase, presenting: &Presenting) -> (action: Action)
        requires
            !(phase is Idle),
            presenting.resolver.cursor() >= 0,
        ensures
            forall|frames: Seq<Frame>, next_graph: u64, cache: HashPool<DescriptorPoolInfo>|
                action == (#[trigger] Self::state(
                    phase,
                    frames,
                    Some(*presenting),
                    next_graph,
                    cache,
                )).action(),
    {
        let cmd_buf = presenting.cmd_buf.handle;
        match phase {
            Phase::Idle => Action::Finished(Ok(())),
            Phase::CreateCommandBuffer(_) => Action::CreateCommandBuffer,
            Phase::Buffer(which, op) => match op {
                Op::WaitForFence => Action::WaitForFence { cmd_buf },
                Op::ResetCommandPool => Action::ResetCommandPool { cmd_buf },
                Op::BeginCommandBuffer => Action::BeginCommandBuffer { cmd_buf },
                Op::CreateDescriptorPool => Action::CreateDescriptorPool {
                    pass: presenting.resolver.recorded(),
                },
                Op::Record => Action::Record { cmd_buf },
                Op::EndCommandBuffer => Action::EndCommandBuffer { cmd_buf },
                Op::ResetFence => Action::ResetFence { cmd_buf },
                Op::QueueSubmit => match which {
                    Which::Main => Action::QueueSubmit { cmd_buf, wait: None, signal: None },
                    Which::Presentation => Action::QueueSubmit {
                        cmd_buf,
                        wait: Some((presenting.image.acquired, presenting.wait_stage)),
                        signal: Some(presenting.image.rendered),
                    },
                },
            },
            Phase::PresentImage => Action::PresentImage(presenting.image),
        }
    }

    /// Starts to present the image of the swapchain which `swapchain_image` names in
    /// `render_graph`. The graph is resolved and the image is taken out of it; the display
    /// then asks for the first call: the creation of a command buffer where the image has no
    /// frame yet, the wait for the fence of the main command buffer of its frame otherwise.
    /// What the device makes of each call is handed to [`Display::resume`].
    ///
    /// Some pass of the graph has to access the image, and no image may be on its way.
    pub fn present_image(&mut self, render_graph: RenderGraph, swapchain_image: Node) -> (action:
        Action)
        requires
            old(self).wf(),
            old(self)@.phase is Idle,
            render_graph.wf(),
            render_graph@.owns(swapchain_image),
            swapchain_image.object == Object::Node(ResourceKind::SwapchainImage),
            render_graph@.last_access(swapchain_image.idx as int) is Some,
        ensures
            final(self).wf(),
            final(self)@.frames == old(self)@.frames,
            final(self)@.next_graph == old(self)@.next_graph,
            final(self)@.cache == old(self)@.cache,
            final(self)@.presenting is Some,
            render_graph@.slots[swapchain_image.idx as int].resource == Resource::SwapchainImage(
                final(self)@.presenting->0.image,
            ),
            final(self)@.presenting->0 == (PresentingView {
                graph: GraphView {
                    slots: render_graph@.slots.update(
                        swapchain_image.idx as int,
                        Slot { bound: false, ..render_graph@.slots[swapchain_image.idx as int] },
                    ),
                    ..render_graph@
                },
                cursor: 0,
                node: swapchain_image,
                image: final(self)@.presenting->0.image,
                last_access: render_graph@.last_access(swapchain_image.idx as int)->0,
                wait_stage: render_graph@.stage_mask(swapchain_image.idx as int),
                new_main: None,
                cmd_buf: if final(self)@.presenting->0.image.idx < old(self)@.frames.len() {
                    old(self)@.frames[final(self)@.presenting->0.image.idx as int].main
                } else {
                    0
                },
                commands: Seq::empty(),
            }),
            final(self)@.phase
                == if final(self)@.presenting->0.image.idx < old(self)@.frames.len() {
                Phase::Buffer(Which::Main, Op::WaitForFence)
            } else {
                Phase::CreateCommandBuffer(Which::Main)
            },
            action == final(self)@.action(),
    {
        let ghost before = self@;
        let ghost graph = render_graph@;
        let last_access = match render_graph.last_access(swapchain_image) {
            Some(access) => access,
            None => Access::nothing(),
        };
        assert(graph.slots[swapchain_image.idx as int].node.is_attached());
        let mut resolver = render_graph.resolve();
        let wait_stage = resolver.node_stage_mask(swapchain_image);
        let image = match resolver.unbind_node(swapchain_image) {
            Ok(binding) => match binding.resource {
                Resource::SwapchainImage(image) => image,
                _ => {
                    proof {
                        assert(false);
                    }
                    SwapchainImage { idx: 0, image: 0, acquired: 0, rendered: 0 }
                },
            },
            Err(_) => {
                proof {
                    assert(false);
                }
                SwapchainImage { idx: 0, image: 0, acquired: 0, rendered: 0 }
            },
        };
        proof {
            resolver.lemma_wf();
        }
        let idx = image.idx as usize;
        let (phase, handle) = if idx < self.frames.len() {
            (Phase::Buffer(Which::Main, Op::WaitForFence), self.frames[idx].main_cmd_buf)
        } else {
            (Phase::CreateCommandBuffer(Which::Main), 0)
        };
        let presenting = Presenting {
            resolver,
            node: swapchain_image,
            image,
            last_access,
            wait_stage,
            new_main: None,
            cmd_buf: CommandBuffer::new(handle),
        };
        let action = Self::pending_action(phase, &presenting);
        self.phase = phase;
        self.presenting = Some(presenting);
        proof {
            assert(self@.frames == before.frames);
            assert(self@ == Self::state(
                phase,
                self.frames@,
                self.presenting,
                self.next_graph,
                self.cache,
            ));
            assert(self@.presenting->0.graph =~= (GraphView {
                slots: graph.slots.update(
                    swapchain_image.idx as int,
                    Slot { bound: false, ..graph.slots[swapchain_image.idx as int] },
                ),
                ..graph
            }));
            if idx < self.frames.len() {
                assert(self@.frames[idx as int].main == self.frames@[idx as int].main_cmd_buf);
            }
        }
        action
    }

    fn fail(&mut self, presenting: Presenting, error: DisplayError) -> (step: Step)
        requires
            old(self).cache.wf(),
            Self::frames_wf(old(self).frames@),
            presenting.resolver.wf(),
        ensures
            final(self).wf(),
            final(self)@.phase is Idle,
            final(self)@.presenting is None,
            final(self)@.frames == Self::frames_view(old(self).frames@),
            final(self)@.next_graph == old(self).next_graph,
            final(self)@.cache.tag() == old(self).cache.tag(),
            step.action == Action::Finished(Err(error)),
            step.abandoned == presenting.new_main,
            releases(step.released, Some(presenting.resolver.graph())),
    {
        let abandoned = presenting.new_main;
        let released = presenting.resolver.release(&mut self.cache);
        self.phase = Phase::Idle;
        self.presenting = None;
        proof {
            Self::lemma_frames_view_wf(self.frames@);
        }
        Step { action: Action::Finished(Err(error)), released: Some(released), abandoned }
    }

    fn enter(&mut self, presenting: Presenting, phase: Phase) -> (step: Step)
        requires
            old(self).cache.wf(),
            Self::frames_wf(old(self).frames@),
            presenting.resolver.wf(),
            !(phase is Idle),
            Self::state(
                phase,
                old(self).frames@,
                Some(presenting),
                old(self).next_graph,
                old(self).cache,
            ).wf(),
        ensures
            final(self).wf(),
            final(self)@ == Self::state(
                phase,
                old(self).frames@,
                Some(presenting),
                old(self).next_graph,
                old(self).cache,
            ),
            step.action == final(self)@.action(),
            step.released is None,
            step.abandoned is None,
    {
        proof {
            presenting.resolver.lemma_wf();
        }
        let action = Self::pending_action(phase, &presenting);
        self.phase = phase;
        self.presenting = Some(presenting);
        Step { action, released: None, abandoned: None }
    }

    fn record(&mut self, presenting: Presenting, which: Which) -> (step: Step)
        requires
            old(self).cache.wf(),
            Self::frames_wf(old(self).frames@),
            presenting.resolver.wf(),
            presenting.resolver.graph().knows(presenting.node),
            presenting.new_main is None,
            presenting.image.idx < old(self).frames@.len(),
            presenting.cmd_buf.handle == Self::frames_view(
                old(self).frames@,
            )[presenting.image.idx as int].buffer(which),
        ensures
            final(self).wf(),
            final(self)@.next_graph == old(self).next_graph,
            final(self)@.cache.tag() == old(self).cache.tag(),
            !final(self)@.presenting->0.reached(which) ==> final(self)@.cache.available(
                presenting.resolver.graph().passes[final(
                    self)@.presenting->0.cursor].pipeline->0.descriptors,
            ).len() == 0,
            Self::state(
                Phase::Buffer(which, Op::BeginCommandBuffer),
                old(self).frames@,
                Some(presenting),
                old(self).next_graph,
                old(self).cache,
            ).records(final(self)@, which),
            final(self)@.presenting->0.cursor == presenting.resolver.cursor() ==> forall|
                key: DescriptorPoolInfoView,
            | #[trigger] final(self)@.cache.available(key) == old(self).cache.available(key),
            step.action == final(self)@.action(),
            step.released is None,
            step.abandoned is None,
    {
        let ghost before = Self::presenting_view(presenting);
        let ghost cache0 = self.cache;
        let mut presenting = presenting;
        proof {
            presenting.resolver.lemma_wf();
        }
        let recorded = match which {
            Which::Main => presenting.resolver.record_node_dependencies(
                &mut self.cache,
                &mut presenting.cmd_buf,
                presenting.node,
            ),
            Which::Presentation => presenting.resolver.record_node(
                &mut self.cache,
                &mut presenting.cmd_buf,
                presenting.node,
            ),
        };
        proof {
            presenting.resolver.lemma_wf();
            Self::lemma_frames_view_wf(self.frames@);
            lemma_first_pass(before.graph, before.node.idx as int, 0);
        }
        match recorded {
            Recorded::Done => {
                match which {
                    Which::Main => {},
                    Which::Presentation => {
                        presenting.cmd_buf.commands.push(
                            Command::Barrier(
                                Barrier {
                                    node: presenting.node.idx,
                                    resource: Resource::SwapchainImage(presenting.image),
                                    prev: presenting.last_access,
                                    next: Access::new(
                                        AccessType::Present,
                                        PipelineStageFlags::empty(),
                                    ),
                                },
                            ),
                        );
                    },
                }
                proof {
                    let after = Self::presenting_view(presenting);
                    assert(after.reached(which));
                    if which == Which::Presentation {
                        assert(after.commands =~= before.commands + before.graph.commands(
                            before.cursor,
                            after.cursor,
                        ) + seq![before.present_barrier()]);
                    } else {
                        assert(after.commands =~= before.commands + before.graph.commands(
                            before.cursor,
                            after.cursor,
                        ) + Seq::<Command>::empty());
                    }
                }
                self.enter(presenting, Phase::Buffer(which, Op::Record))
            },
            Recorded::NeedsDescriptorPool(_) => {
                proof {
                    let after = Self::presenting_view(presenting);
                    assert(!after.reached(which));
                }
                self.enter(presenting, Phase::Buffer(which, Op::CreateDescriptorPool))
            },
        }
    }

    /// Takes what the device made of the call which was due, and says which call is due
    /// next; see [`DisplayView::step`] for the rule. With [`Action::Finished`] the
    /// presentation has ended, and the display presents nothing until
    /// [`Display::present_image`] is called again. What is left of a resolved graph which
    /// the display gave up is handed over with the step.
    pub fn resume(&mut self, event: Event) -> (step: Step)
        requires
            old(self).wf(),
            !(old(self)@.phase is Idle),
        ensures
            final(self).wf(),
            exists|retired: Option<GraphView>|
                #![trigger releases(step.released, retired)]
                old(self)@.step(event, final(self)@, step.action, retired) && releases(
                    step.released,
                    retired,
                ),
            step.abandoned == old(self)@.abandons(event),
    {
        let ghost pre = self@;
        let phase = self.phase;
        let presenting = match self.presenting.take() {
            Some(presenting) => presenting,
            None => {
                proof {
                    assert(false);
                }
                return Step {
                    action: Action::Finished(Err(DisplayError::DeviceLost)),
                    released: None,
                    abandoned: None,
                };
            },
        };
        let ghost p = Self::presenting_view(presenting);
        let ghost graph = presenting.resolver.graph();
        let idx = presenting.image.idx as usize;
        proof {
            assert(pre.presenting == Some(p));
            Self::lemma_frames_view_wf(self.frames@);
            presenting.resolver.lemma_wf();
        }
        match phase {
            Phase::Idle => {
                proof {
                    assert(false);
                }
                Step {
                    action: Action::Finished(Err(DisplayError::DeviceLost)),
                    released: None,
                    abandoned: None,
                }
            },
            Phase::CreateCommandBuffer(which) => {
                let handle = match event {
                    Event::CommandBufferCreated(Ok(handle)) => handle,
                    Event::CommandBufferCreated(Err(err)) => {
                        let step = self.fail(presenting, DisplayError::from(err));
                        assert(pre.step(event, self@, step.action, Some(graph)));
                        return step;
                    },
                    _ => {
                        let step = self.fail(presenting, DisplayError::DeviceLost);
                        assert(pre.step(event, self@, step.action, Some(graph)));
                        return step;
                    },
                };
                let mut presenting = presenting;
                match which {
                    Which::Main => {
                        presenting.new_main = Some(handle);
                        let step = self.enter(
                            presenting,
                            Phase::CreateCommandBuffer(Which::Presentation),
                        );
                        assert(pre.step(event, self@, step.action, None));
                        assert(releases(step.released, None));
                        step
                    },
                    Which::Presentation => {
                        let main = match presenting.new_main {
                            Some(main) => main,
                            None => 0,
                        };
                        presenting.new_main = None;
                        let ghost frames_before = self.frames@;
                        self.frames.push(
                            Frame {
                                main_cmd_buf: main,
                                presentation_cmd_buf: handle,
                                main_pending: false,
                                presentation_pending: false,
                                resolved_render_graph: None,
                            },
                        );
                        proof {
                            assert(Self::frames_view(self.frames@) =~= pre.frames.push(
                                FrameView {
                                    main,
                                    presentation: handle,
                                    main_pending: false,
                                    presentation_pending: false,
                                    retained: None,
                                },
                            ));
                            assert forall|i: int|
                                0 <= i < self.frames@.len() && (
                                #[trigger] self.frames@[i]).resolved_render_graph is Some
                                    implies self.frames@[i].resolved_render_graph->0.wf() by {
                                assert(frames_before[i].resolved_render_graph is Some);
                            }
                            Self::lemma_frames_view_wf(self.frames@);
                        }
                        let step = if self.frames.len() <= idx {
                            self.enter(presenting, Phase::CreateCommandBuffer(Which::Main))
                        } else {
                            presenting.cmd_buf = CommandBuffer::new(self.frames[idx].main_cmd_buf);
                            self.enter(presenting, Phase::Buffer(Which::Main, Op::WaitForFence))
                        };
                        assert(pre.step(event, self@, step.action, None));
                        assert(releases(step.released, None));
                        step
                    },
                }
            },
            Phase::Buffer(which, Op::CreateDescriptorPool) => {
                let created = match event {
                    Event::DescriptorPoolCreated(created) => created,
                    _ => {
                        let step = self.fail(presenting, DisplayError::DeviceLost);
                        assert(pre.step(event, self@, step.action, Some(graph)));
                        return step;
                    },
                };
                let cursor = presenting.resolver.recorded();
                let info = match presenting.resolver.render_graph().pass(cursor).pool_info() {
                    Some(info) => info,
                    None => {
                        proof {
                            assert(false);
                        }
                        let step = self.fail(presenting, DisplayError::DeviceLost);
                        return step;
                    },
                };
                let ghost key = info@;
                let ghost cache0 = self.cache;
                match self.cache.lease_created(info, created) {
                    Ok(lease) => {
                        let ghost object = lease.object;
                        let destroy = self.cache.release(lease);
                        let ghost cache1 = self.cache;
                        proof {
                            assert(destroy is None);
                            assert(cache1.available(key) == cache0.available(key).push(object));
                        }
                        let step = self.record(presenting, which);
                        proof {
                            let q = self@.presenting->0;
                            if q.cursor == p.cursor {
                                assert(!p.reached(which));
                                assert(!q.reached(which));
                                assert(self@.cache.available(key) == cache1.available(key));
                                assert(cache1.available(key).len() > 0);
                                assert(false);
                            }
                            assert(pre.step(event, self@, step.action, None));
                            assert(releases(step.released, None));
                        }
                        step
                    },
                    Err(err) => {
                        let step = self.fail(presenting, DisplayError::from(err));
                        assert(pre.step(event, self@, step.action, Some(graph)));
                        step
                    },
                }
            },
            Phase::Buffer(which, op) => {
                match event {
                    Event::Done => {},
                    Event::RecordFailed(err) => {
                        let error = match op {
                            Op::Record => DisplayError::from(err),
                            _ => DisplayError::DeviceLost,
                        };
                        let step = self.fail(presenting, error);
                        assert(pre.step(event, self@, step.action, Some(graph)));
                        return step;
                    },
                    _ => {
                        let step = self.fail(presenting, DisplayError::DeviceLost);
                        assert(pre.step(event, self@, step.action, Some(graph)));
                        return step;
                    },
                }
                match op {
                    Op::BeginCommandBuffer => {
                        let step = self.record(presenting, which);
                        assert(pre.step(event, self@, step.action, None));
                        assert(releases(step.released, None));
                        step
                    },
                    Op::QueueSubmit => {
                        let ghost frames_before = self.frames@;
                        match which {
                            Which::Main => {
                                self.frames[idx].main_pending = true;
                            },
                            Which::Presentation => {
                                self.frames[idx].presentation_pending = true;
                            },
                        }
                        proof {
                            assert(Self::frames_view(self.frames@) =~= pre.frames.update(
                                idx as int,
                                pre.frames[idx as int].with_pending(which, true),
                            ));
                            assert forall|i: int|
                                0 <= i < self.frames@.len() && (
                                #[trigger] self.frames@[i]).resolved_render_graph is Some
                                    implies self.frames@[i].resolved_render_graph->0.wf() by {
                                assert(frames_before[i].resolved_render_graph is Some);
                            }
                            Self::lemma_frames_view_wf(self.frames@);
                        }
                        let mut presenting = presenting;
                        let step = match which {
                            Which::Main => {
                                presenting.cmd_buf = CommandBuffer::new(
                                    self.frames[idx].presentation_cmd_buf,
                                );
                                self.enter(
                                    presenting,
                                    Phase::Buffer(Which::Presentation, Op::WaitForFence),
                                )
                            },
                            Which::Presentation => self.enter(presenting, Phase::PresentImage),
                        };
                        assert(pre.step(event, self@, step.action, None));
                        assert(releases(step.released, None));
                        step
                    },
                    _ => {
                        let ghost frames_before = self.frames@;
                        let next = match op {
                            Op::WaitForFence => {
                                match which {
                                    Which::Main => {
                                        self.frames[idx].main_pending = false;
                                    },
                                    Which::Presentation => {
                                        self.frames[idx].presentation_pending = false;
                                    },
                                }
                                Op::ResetCommandPool
                            },
                            Op::ResetCommandPool => Op::BeginCommandBuffer,
                            Op::Record => Op::EndCommandBuffer,
                            Op::EndCommandBuffer => Op::ResetFence,
                            _ => Op::QueueSubmit,
                        };
                        proof {
                            if op == Op::WaitForFence {
                                assert(Self::frames_view(self.frames@) =~= pre.frames.update(
                                    idx as int,
                                    pre.frames[idx as int].with_pending(which, false),
                                ));
                            } else {
                                assert(Self::frames_view(self.frames@) =~= pre.frames);
                            }
                            assert forall|i: int|
                                0 <= i < self.frames@.len() && (
                                #[trigger] self.frames@[i]).resolved_render_graph is Some
                                    implies self.frames@[i].resolved_render_graph->0.wf() by {
                                assert(frames_before[i].resolved_render_graph is Some);
                            }
                            Self::lemma_frames_view_wf(self.frames@);
                        }
                        let step = self.enter(presenting, Phase::Buffer(which, next));
                        assert(pre.step(event, self@, step.action, None));
                        assert(releases(step.released, None));
                        step
                    },
                }
            },
            Phase::PresentImage => {
                match event {
                    Event::Done => {},
                    _ => {
                        let step = self.fail(presenting, DisplayError::DeviceLost);
                        assert(pre.step(event, self@, step.action, Some(graph)));
                        return step;
                    },
                }
                let ghost frames_before = self.frames@;
                let mut slot: Option<Resolver> = Some(presenting.resolver);
                core::mem::swap(&mut self.frames[idx].resolved_render_graph, &mut slot);
                proof {
                    assert(Self::frames_view(self.frames@) =~= pre.frames.update(
                        idx as int,
                        FrameView { retained: Some(p.graph), ..pre.frames[idx as int] },
                    ));
                    assert forall|i: int|
                        0 <= i < self.frames@.len() && (
                        #[trigger] self.frames@[i]).resolved_render_graph is Some
                            implies self.frames@[i].resolved_render_graph->0.wf() by {
                        if i != idx as int {
                            assert(frames_before[i].resolved_render_graph is Some);
                        }
                    }
                    Self::lemma_frames_view_wf(self.frames@);
                    assert(slot == frames_before[idx as int].resolved_render_graph);
                }
                let released = match slot {
                    Some(previous) => {
                        assert(frames_before[idx as int].resolved_render_graph is Some);
                        Some(previous.release(&mut self.cache))
                    },
                    None => None,
                };
                self.phase = Phase::Idle;
                let step = Step { action: Action::Finished(Ok(())), released, abandoned: None };
                proof {
                    let retired = pre.frames[idx as int].retained;
                    assert(pre.step(event, self@, step.action, retired));
                    assert(releases(step.released, retired));
                }
                step
            },
        }
    }
}

impl View for Display {
    type V = DisplayView;

    closed spec fn view(&self) -> DisplayView {
        Display::state(self.phase, self.frames@, self.presenting, self.next_graph, self.cache)
    }
}

} // verus!
