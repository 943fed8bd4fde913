//! Resolving a graph: the order of its passes, the barriers between them, and their
//! recording into command buffers.
//!
//! Passes run in the order in which they were declared. Before a pass runs, each node which
//! it accesses otherwise than it was accessed last gets one barrier, from the last access to
//! the new one. Recording copies these commands, pass by pass, into a command buffer. A pass
//! which draws descriptor sets takes a descriptor pool on lease while it is recorded; where
//! the pool has none to lend, recording stops in front of that pass and says which pool it
//! needs, and goes on from there when it is called again.

use super::binding::{Binding, EdgeError, Node, Resource};
use super::edge::{Object, Owner, ResourceKind};
use super::pass::NodeAccess;
use super::render_graph::{lemma_last_pass_before, GraphView, RenderGraph, Slot};
use crate::access::{Access, PipelineStageFlags};
use crate::driver::descriptor_set::{DescriptorPoolInfo, DescriptorPoolInfoView};
use crate::pool::{HashPool, Lease};
use vstd::prelude::*;

verus! {

/// A barrier on one resource, between the access which was made of it last and the next one.
#[derive(Clone, Copy, Debug, PartialEq, Eq, Hash, Structural)]
pub struct Barrier {
    /// The index of the node within its graph.
    pub node: usize,
    pub resource: Resource,
    pub prev: Access,
    pub next: Access,
}

/// A command of a resolved graph.
#[derive(Clone, Copy, Debug, PartialEq, Eq, Hash, Structural)]
pub enum Command {
    /// Place a barrier.
    Barrier(Barrier),
    /// Run the pass with the given index.
    Execute(usize),
}

/// A command buffer of the device, and the commands which have been recorded for it.
#[derive(Debug, PartialEq, Eq)]
pub struct CommandBuffer {
    /// The handle of the command buffer.
    pub handle: u64,
    pub commands: Vec<Command>,
}

impl CommandBuffer {
    /// A command buffer without commands.
    pub fn new(handle: u64) -> (cmd_buf: CommandBuffer)
        ensures
            cmd_buf.handle == handle,
            cmd_buf.commands@ == Seq::<Command>::empty(),
    {
        CommandBuffer { handle, commands: Vec::new() }
    }
}

/// How a recording ended.
#[derive(Debug)]
pub enum Recorded {
    /// Every pass which was asked for has been recorded.
    Done,
    /// Recording stopped in front of a pass which needs a descriptor pool of this
    /// description, of which the pool has none to lend.
    NeedsDescriptorPool(DescriptorPoolInfo),
}

/// What is left of a resolved graph when it is released.
pub struct Released {
    /// The leased resources which were still bound: they go back to their pools.
    pub returned: Vec<Resource>,
    /// The owned resources which were still bound: they are destroyed.
    pub destroyed: Vec<Resource>,
    /// The descriptor pools which the pool did not take back: they are destroyed.
    pub destroyed_pools: Vec<u64>,
}

/// The barriers as commands.
pub open spec fn barrier_commands(barriers: Seq<Barrier>) -> Seq<Command> {
    Seq::new(barriers.len(), |i: int| Command::Barrier(barriers[i]))
}

/// The number of barriers on the node `node` among `barriers`.
pub open spec fn barrier_count(barriers: Seq<Barrier>, node: int) -> nat
    decreases barriers.len(),
{
    if barriers.len() == 0 {
        0
    } else {
        barrier_count(barriers.drop_last(), node) + if barriers.last().node == node {
            1nat
        } else {
            0nat
        }
    }
}

impl GraphView {
    /// The barrier which the `i`-th access of the pass `k` asks for, if it asks for one: it
    /// does where the node was last accessed otherwise.
    pub open spec fn barrier_at(self, k: int, i: int) -> Option<Barrier> {
        let access = self.passes[k].accesses[i];
        let prev = self.access_before(access.node as int, k);
        if prev.needs_barrier(access.access) {
            Some(
                Barrier {
                    node: access.node,
                    resource: self.slots[access.node as int].resource,
                    prev,
                    next: access.access,
                },
            )
        } else {
            None
        }
    }

    /// The barriers which the first `n` accesses of the pass `k` ask for, in the order of
    /// the accesses.
    pub open spec fn barriers_of(self, k: int, n: int) -> Seq<Barrier>
        decreases n,
    {
        if n <= 0 {
            Seq::empty()
        } else {
            match self.barrier_at(k, n - 1) {
                Some(barrier) => self.barriers_of(k, n - 1).push(barrier),
                None => self.barriers_of(k, n - 1),
            }
        }
    }

    /// The barriers which stand in front of the pass `k`.
    pub open spec fn pass_barriers(self, k: int) -> Seq<Barrier> {
        self.barriers_of(k, self.passes[k].accesses.len() as int)
    }

    /// The commands of the pass `k`: its barriers, then the pass itself.
    pub open spec fn pass_commands(self, k: int) -> Seq<Command> {
        barrier_commands(self.pass_barriers(k)).push(Command::Execute(k as usize))
    }

    /// The commands of the passes from `from` up to, but not including, `to`.
    pub open spec fn commands(self, from: int, to: int) -> Seq<Command>
        decreases to - from,
    {
        if to <= from {
            Seq::empty()
        } else {
            self.commands(from, to - 1) + self.pass_commands(to - 1)
        }
    }

    /// The stages at which the node `node` is accessed first: those of its access by the
    /// first pass which accesses it, and none where no pass does.
    pub open spec fn stage_mask(self, node: int) -> PipelineStageFlags {
        if self.first_pass(node) < self.passes.len() {
            self.passes[self.first_pass(node)].access_of(node)->0.stage
        } else {
            PipelineStageFlags { bits: 0 }
        }
    }

    /// Whether the entry `i` holds a leased resource which is still bound.
    pub open spec fn holds_leased(self, i: int) -> bool {
        self.slots[i].bound && self.slots[i].node is LeaseNode
    }

    /// Whether the entry `i` holds an owned resource which is still bound. The image of a
    /// swapchain is owned by the presentation engine, not by the graph.
    pub open spec fn holds_owned(self, i: int) -> bool {
        self.slots[i].bound && self.slots[i].node is Node && self.slots[i].resource.kind()
            != ResourceKind::SwapchainImage
    }

    /// The leased resources which are still bound among the first `n` entries.
    pub open spec fn leased_resources(self, n: int) -> Seq<Resource>
        decreases n,
    {
        if n <= 0 {
            Seq::empty()
        } else if self.holds_leased(n - 1) {
            self.leased_resources(n - 1).push(self.slots[n - 1].resource)
        } else {
            self.leased_resources(n - 1)
        }
    }

    /// The owned resources which are still bound among the first `n` entries.
    pub open spec fn owned_resources(self, n: int) -> Seq<Resource>
        decreases n,
    {
        if n <= 0 {
            Seq::empty()
        } else if self.holds_owned(n - 1) {
            self.owned_resources(n - 1).push(self.slots[n - 1].resource)
        } else {
            self.owned_resources(n - 1)
        }
    }
}

/// A resolved graph: the passes in the order in which they run, with the barriers in front of
/// each. It keeps every resource which the graph held, and every descriptor pool which it
/// took on lease, until it is released.
pub struct Resolver {
    graph: RenderGraph,
    barriers: Vec<Vec<Barrier>>,
    cursor: usize,
    pools: Vec<Option<Lease<DescriptorPoolInfo>>>,
}

impl Resolver {
    /// The graph which was resolved.
    pub closed spec fn graph(&self) -> GraphView {
        self.graph@
    }

    /// The number of passes which have been recorded.
    pub closed spec fn cursor(&self) -> int {
        self.cursor as int
    }

    /// The descriptor pool which is on lease for the pass `k`.
    pub closed spec fn pool_of(&self, k: int) -> Option<u64> {
        if 0 <= k < self.pools@.len() {
            match self.pools@[k] {
                Some(lease) => Some(lease.object),
                None => None,
            }
        } else {
            None
        }
    }

    /// The tag of the pool which the descriptor pool of the pass `k` was leased from.
    pub closed spec fn pool_tag_of(&self, k: int) -> u64 {
        self.pools@[k]->0.pool
    }

    /// The invariant of a resolved graph: the graph is well formed; the barriers are those
    /// which its passes ask for; the passes which have been recorded hold a descriptor pool
    /// of their description if they need one, and no other pass holds any.
    pub closed spec fn wf(&self) -> bool {
        &&& self.graph.wf()
        &&& self.barriers@.len() == self.graph@.passes.len()
        &&& forall|k: int|
            0 <= k < self.barriers@.len() ==> (#[trigger] self.barriers@[k])@
                == self.graph@.pass_barriers(k)
        &&& self.cursor <= self.graph@.passes.len()
        &&& self.pools@.len() == self.graph@.passes.len()
        &&& forall|k: int|
            0 <= k < self.cursor ==> ((#[trigger] self.pools@[k]) is Some
                <==> self.graph@.passes[k].needs_pool())
        &&& forall|k: int|
            0 <= k < self.cursor && (#[trigger] self.pools@[k]) is Some ==> self.pools@[k]->0.info@
                == self.graph@.passes[k].pipeline->0.descriptors
        &&& forall|k: int|
            self.cursor <= k < self.pools@.len() ==> (#[trigger] self.pools@[k]) is None
    }

    /// What the invariant says of the passes and their pools.
    pub proof fn lemma_wf(&self)
        requires
            self.wf(),
        ensures
            self.graph().wf(),
            0 <= self.cursor() <= self.graph().passes.len(),
            forall|k: int|
                0 <= k < self.cursor() ==> (#[trigger] self.pool_of(k) is Some
                    <==> self.graph().passes[k].needs_pool()),
            forall|k: int| self.cursor() <= k ==> #[trigger] self.pool_of(k) is None,
    {
        assert forall|k: int| 0 <= k < self.cursor() implies (#[trigger] self.pool_of(k) is Some
            <==> self.graph().passes[k].needs_pool()) by {
            assert(self.pools@[k] is Some <==> self.graph@.passes[k].needs_pool());
        }
        assert forall|k: int| self.cursor() <= k implies #[trigger] self.pool_of(k) is None by {
            if k < self.pools@.len() {
                assert(self.pools@[k] is None);
            }
        }
    }

    /// The number of passes.
    pub fn pass_count(&self) -> (count: usize)
        ensures
            count == self.graph().passes.len(),
    {
        self.graph.pass_count()
    }

    /// The number of passes which have been recorded.
    pub fn recorded(&self) -> (count: usize)
        ensures
            count == self.cursor(),
    {
        self.cursor
    }

    /// The graph which was resolved.
    pub fn render_graph(&self) -> (graph: &RenderGraph)
        ensures
            graph@ == self.graph(),
    {
        &self.graph
    }

    /// The barriers which stand in front of the pass `k`.
    pub fn barriers(&self, k: usize) -> (barriers: &Vec<Barrier>)
        requires
            self.wf(),
            k < self.graph().passes.len(),
        ensures
            barriers@ == self.graph().pass_barriers(k as int),
    {
        &self.barriers[k]
    }

    /// The descriptor pool which is on lease for the pass `k`.
    pub fn pass_pool(&self, k: usize) -> (pool: Option<u64>)
        ensures
            pool == self.pool_of(k as int),
    {
        if k < self.pools.len() {
            match &self.pools[k] {
                Some(lease) => Some(lease.object),
                None => None,
            }
        } else {
            None
        }
    }

    /// The last access of `node`: the one which the last pass which accesses it makes of
    /// it, or the one it was bound with where no pass accesses it. Whoever records after
    /// the passes of this graph places the barrier from this access to their own.
    pub fn last_access(&self, node: Node) -> (access: Access)
        requires
            self.wf(),
            self.graph().knows(node),
        ensures
            access == self.graph().access_before(
                node.idx as int,
                self.graph().passes.len() as int,
            ),
    {
        proof {
            lemma_last_pass_before(
                self.graph@,
                node.idx as int,
                self.graph@.passes.len() as int,
            );
        }
        match self.graph.last_access(node) {
            Some(access) => access,
            None => self.graph.slot(node.idx).access,
        }
    }

    fn first_pass(&self, idx: usize) -> (first: usize)
        requires
            self.wf(),
        ensures
            first == self.graph().first_pass(idx as int),
            first <= self.graph().passes.len(),
            first < self.graph().passes.len() ==> self.graph().passes[first as int].accesses_node(
                idx as int,
            ),
    {
        let mut k: usize = 0;
        while k < self.graph.pass_count()
            invariant
                self.wf(),
                k <= self.graph@.passes.len(),
                self.graph@.first_pass(idx as int) == self.graph@.first_pass_from(
                    idx as int,
                    k as int,
                ),
            decreases self.graph@.passes.len() - k,
        {
            assert(self.graph@.passes[k as int].wf());
            if self.graph.pass(k).find_access(idx).is_some() {
                return k;
            }
            k += 1;
        }
        k
    }

    /// The stages at which `node` is accessed first within this graph: those of its access
    /// by the first pass which accesses it, and none where no pass does. They are the stages
    /// which have to wait for the node where it comes from outside.
    pub fn node_stage_mask(&self, node: Node) -> (mask: PipelineStageFlags)
        requires
            self.wf(),
            self.graph().knows(node),
        ensures
            mask == self.graph().stage_mask(node.idx as int),
    {
        let first = self.first_pass(node.idx);
        if first < self.graph.pass_count() {
            assert(self.graph@.passes[first as int].wf());
            let pass = self.graph.pass(first);
            match pass.find_access(node.idx) {
                Some(i) => pass.access_at(i).access.stage,
                None => PipelineStageFlags::empty(),
            }
        } else {
            PipelineStageFlags::empty()
        }
    }

    /// Takes the resource of `node` out of the resolved graph, with the last access which
    /// the passes make of it. This can be done with the image of the swapchain alone; any
    /// other node is refused, and the resolved graph stays as it is. The passes and their
    /// barriers stay as they are in either case.
    pub fn unbind_node(&mut self, node: Node) -> (binding: Result<Binding, EdgeError>)
        requires
            old(self).wf(),
            old(self).graph().owns(node),
        ensures
            final(self).wf(),
            final(self).cursor() == old(self).cursor(),
            forall|k: int| #[trigger] final(self).pool_of(k) == old(self).pool_of(k),
            final(self).graph().tag == old(self).graph().tag,
            final(self).graph().passes == old(self).graph().passes,
            final(self).graph().knows(node),
            binding is Ok <==> node.object == Object::Node(ResourceKind::SwapchainImage),
            binding is Err ==> binding->Err_0 == (EdgeError {
                owner: Owner::Resolver,
                source: node.object,
            }) && final(self).graph() == old(self).graph(),
            binding is Ok ==> binding->Ok_0.object == Object::Resource(
                ResourceKind::SwapchainImage,
            ) && binding->Ok_0.resource == old(self).graph().slots[node.idx as int].resource
                && binding->Ok_0.access == old(self).graph().access_before(
                node.idx as int,
                old(self).graph().passes.len() as int,
            ) && final(self).graph().slots == old(self).graph().slots.update(
                node.idx as int,
                Slot {
                    bound: false,
                    ..old(self).graph().slots[node.idx as int]
                },
            ),
    {
        let ghost before = self.graph@;
        let binding = self.graph.take_node(node, Owner::Resolver);
        proof {
            let after = self.graph@;
            if binding is Ok {
                assert forall|k: int| 0 <= k < after.passes.len() implies after.pass_barriers(k)
                    == before.pass_barriers(k) by {
                    lemma_barriers_of_slots(before, after, k,
                        after.passes[k].accesses.len() as int);
                }
            }
            assert forall|k: int| 0 <= k < self.barriers@.len() implies (
            #[trigger] self.barriers@[k])@ == after.pass_barriers(k) by {
                assert(after.pass_barriers(k) == before.pass_barriers(k));
            }
        }
        binding
    }

    fn record_until(
        &mut self,
        cache: &mut HashPool<DescriptorPoolInfo>,
        cmd_buf: &mut CommandBuffer,
        end: usize,
    ) -> (recorded: Recorded)
        requires
            old(self).wf(),
            old(cache).wf(),
            end <= old(self).graph().passes.len(),
        ensures
            final(self).wf(),
            final(self).graph() == old(self).graph(),
            final(cache).wf(),
            final(cache).tag() == old(cache).tag(),
            final(cmd_buf).handle == old(cmd_buf).handle,
            old(self).cursor() <= final(self).cursor(),
            final(self).cursor() <= end || final(self).cursor() == old(self).cursor(),
            final(cmd_buf).commands@ == old(cmd_buf).commands@ + old(self).graph().commands(
                old(self).cursor(),
                final(self).cursor(),
            ),
            recorded is Done <==> final(self).cursor() >= end,
            recorded is NeedsDescriptorPool
                ==> old(self).graph().passes[final(self).cursor()].needs_pool()
                    && recorded->NeedsDescriptorPool_0@
                        == old(self).graph().passes[final(self).cursor(
                            )].pipeline->0.descriptors
                                && final(cache).available(recorded->NeedsDescriptorPool_0@).len(
                                    ) == 0,
            forall|k: int|
                0 <= k < old(self).cursor()
                    ==> #[trigger] final(self).pool_of(k) == old(self).pool_of(k),
            forall|k: int|
                old(self).cursor() <= k < final(self).cursor() && (#[trigger] final(self).pool_of(
                    k,
                )) is Some ==> final(cache).leased().contains(final(self).pool_of(k)->0)
                    && !old(cache).leased().contains(final(self).pool_of(k)->0)
                    && final(self).pool_tag_of(k) == old(cache).tag() && old(cache).available(
                    old(self).graph().passes[k].pipeline->0.descriptors,
                ).contains(final(self).pool_of(k)->0),
            forall|object: u64|
                old(cache).leased().contains(object) ==> final(cache).leased().contains(object),
            final(self).cursor() == old(self).cursor() ==> forall|
                key: DescriptorPoolInfoView,
            | #[trigger] final(cache).available(key) == old(cache).available(key),
            forall|key: DescriptorPoolInfoView|
                (#[trigger] final(cache).available(key)).len() <= old(cache).available(key).len()
                    && final(cache).available(key) == old(cache).available(key).take(
                    final(cache).available(key).len() as int,
                ),
    {
        let ghost graph = self.graph@;
        let ghost start = self.cursor as int;
        let ghost base = cmd_buf.commands@;
        let ghost cache0 = *cache;
        let ghost pools0 = self.pools@;
        assert(base + graph.commands(start, start) =~= base);
        assert forall|key: DescriptorPoolInfoView|
            (#[trigger] cache.available(key)) == cache0.available(key).take(
                cache.available(key).len() as int,
            ) by {
            assert(cache0.available(key).take(cache0.available(key).len() as int)
                =~= cache0.available(key));
        }
        while self.cursor < end
            invariant
                self.wf(),
                self.graph@ == graph,
                graph == old(self).graph(),
                start == old(self).cursor(),
                0 <= start,
                base == old(cmd_buf).commands@,
                cache0 == *old(cache),
                pools0 == old(self).pools@,
                cache.wf(),
                cache.tag() == cache0.tag(),
                end <= graph.passes.len(),
                start <= self.cursor,
                self.cursor <= end || self.cursor == start,
                cmd_buf.handle == old(cmd_buf).handle,
                cmd_buf.commands@ == base + graph.commands(start, self.cursor as int),
                self.pools@.len() == pools0.len(),
                forall|k: int| 0 <= k < start ==> #[trigger] self.pools@[k] == pools0[k],
                forall|k: int|
                    start <= k < self.cursor && (#[trigger] self.pools@[k]) is Some
                        ==> cache.leased().contains(self.pools@[k]->0.object)
                        && !cache0.leased().contains(self.pools@[k]->0.object)
                        && self.pools@[k]->0.pool == cache0.tag() && cache0.available(
                        self.pools@[k]->0.info@,
                    ).contains(self.pools@[k]->0.object),
                forall|object: u64|
                    cache0.leased().contains(object) ==> cache.leased().contains(object),
                self.cursor == start ==> forall|
                    key: DescriptorPoolInfoView,
                | #[trigger] cache.available(key) == cache0.available(key),
                forall|key: DescriptorPoolInfoView|
                    (#[trigger] cache.available(key)).len() <= cache0.available(key).len()
                        && cache.available(key) == cache0.available(key).take(
                        cache.available(key).len() as int,
                    ),
            decreases end - self.cursor,
        {
            let k = self.cursor;
            let ghost pools_before = self.pools@;
            let ghost cache_before = *cache;
            match self.graph.pass(k).pool_info() {
                Some(info) => {
                    match cache.lease(&info) {
                        Some(lease) => {
                            proof {
                                assert forall|
                                    key: DescriptorPoolInfoView,
                                |
                                    (#[trigger] cache.available(key)).len() <= cache0.available(
                                        key,
                                    ).len() && cache.available(key) == cache0.available(key).take(
                                        cache.available(key).len() as int,
                                    ) by {
                                    let was = cache_before.available(key);
                                    assert(was == cache0.available(key).take(was.len() as int));
                                    if key == info@ {
                                        assert(was.drop_last() =~= cache0.available(key).take(
                                            was.len() - 1,
                                        ));
                                    }
                                }
                            }
                            self.pools.set(k, Some(lease));
                        },
                        None => {
                            proof {
                                assert forall|i: int|
                                    start <= i < self.cursor
                                        && (#[trigger] self.pool_of(i)) is Some
                                            implies cache0.available(
                                    graph.passes[i].pipeline->0.descriptors,
                                ).contains(self.pool_of(i)->0) by {
                                    assert(self.pools@[i] is Some);
                                }
                            }
                            return Recorded::NeedsDescriptorPool(info);
                        },
                    }
                },
                None => {},
            }
            let ghost mid = cmd_buf.commands@;
            let mut j: usize = 0;
            while j < self.barriers[k].len()
                invariant
                    k < self.barriers@.len(),
                    j <= self.barriers@[k as int]@.len(),
                    cmd_buf.handle == old(cmd_buf).handle,
                    cmd_buf.commands@ == mid + barrier_commands(
                        self.barriers@[k as int]@.take(j as int),
                    ),
                decreases self.barriers@[k as int]@.len() - j,
            {
                let barrier = self.barriers[k][j];
                cmd_buf.commands.push(Command::Barrier(barrier));
                proof {
                    let all = self.barriers@[k as int]@;
                    assert(all.take(j + 1) =~= all.take(j as int).push(all[j as int]));
                    assert(barrier_commands(all.take(j + 1)) =~= barrier_commands(
                        all.take(j as int),
                    ).push(Command::Barrier(barrier)));
                }
                j += 1;
            }
            cmd_buf.commands.push(Command::Execute(k));
            self.cursor = k + 1;
            proof {
                let all = self.barriers@[k as int]@;
                assert(all.take(j as int) =~= all);
                assert(all == graph.pass_barriers(k as int));
                assert(cmd_buf.commands@ =~= base + graph.commands(start, k + 1));
                assert forall|i: int| 0 <= i < self.cursor
                    implies ((#[trigger] self.pools@[i]) is Some
                    <==> self.graph@.passes[i].needs_pool()) by {
                    if i < k {
                        assert(pools_before[i] is Some <==> graph.passes[i].needs_pool());
                    }
                }
                assert forall|i: int|
                    0 <= i < self.cursor && (#[trigger] self.pools@[i]) is Some
                        implies self.pools@[i]->0.info@
                    == self.graph@.passes[i].pipeline->0.descriptors by {
                    if i < k {
                        assert(pools_before[i] is Some);
                    }
                }
                assert forall|i: int| self.cursor <= i < self.pools@.len() implies (
                #[trigger] self.pools@[i]) is None by {
                    assert(pools_before[i] is None);
                }
                assert forall|i: int|
                    start <= i < self.cursor && (#[trigger] self.pools@[i]) is Some
                        implies cache.leased().contains(
                    self.pools@[i]->0.object,
                ) && !cache0.leased().contains(self.pools@[i]->0.object) && self.pools@[i]->0.pool
                    == cache0.tag() && cache0.available(self.pools@[i]->0.info@).contains(
                    self.pools@[i]->0.object,
                ) by {
                    if i < k {
                        assert(pools_before[i] is Some);
                        assert(cache_before.leased().contains(pools_before[i]->0.object));
                    } else {
                        assert(pools_before[k as int] is None);
                        let lease = self.pools@[k as int]->0;
                        let was = cache_before.available(lease.info@);
                        assert(was == cache0.available(lease.info@).take(was.len() as int));
                        assert(cache0.available(lease.info@)[was.len() - 1] == lease.object);
                    }
                }
            }
        }
        proof {
            assert forall|i: int|
                start <= i < self.cursor && (#[trigger] self.pool_of(i)) is Some
                    implies cache0.available(
                graph.passes[i].pipeline->0.descriptors,
            ).contains(self.pool_of(i)->0) by {
                assert(self.pools@[i] is Some);
            }
        }
        Recorded::Done
    }

    /// Records every pass which has not been recorded yet and which comes before the first
    /// pass which accesses `node`: what can run without the node. Where no pass accesses
    /// the node, these are all the passes.
    ///
    /// The commands are added to `cmd_buf` in the order of the passes. A pass which needs a
    /// descriptor pool takes the one which `cache` lends it. Where `cache` has none, recording
    /// stops in front of that pass and returns its description; once a pool of that
    /// description has been created and given to the cache, a second call goes on from there.
    pub fn record_node_dependencies(
        &mut self,
        cache: &mut HashPool<DescriptorPoolInfo>,
        cmd_buf: &mut CommandBuffer,
        node: Node,
    ) -> (recorded: Recorded)
        requires
            old(self).wf(),
            old(cache).wf(),
            old(self).graph().knows(node),
        ensures
            final(self).wf(),
            final(self).graph() == old(self).graph(),
            final(cache).wf(),
            final(cache).tag() == old(cache).tag(),
            final(cmd_buf).handle == old(cmd_buf).handle,
            old(self).cursor() <= final(self).cursor(),
            final(self).cursor() <= old(self).graph().first_pass(node.idx as int)
                || final(self).cursor() == old(self).cursor(),
            final(cmd_buf).commands@ == old(cmd_buf).commands@ + old(self).graph().commands(
                old(self).cursor(),
                final(self).cursor(),
            ),
            recorded is Done <==> final(self).cursor() >= old(self).graph().first_pass(
                node.idx as int,
            ),
            recorded is NeedsDescriptorPool
                ==> old(self).graph().passes[final(self).cursor()].needs_pool()
                    && recorded->NeedsDescriptorPool_0@
                        == old(self).graph().passes[final(self).cursor(
                            )].pipeline->0.descriptors
                                && final(cache).available(recorded->NeedsDescriptorPool_0@).len(
                                    ) == 0,
            forall|k: int|
                0 <= k < old(self).cursor()
                    ==> #[trigger] final(self).pool_of(k) == old(self).pool_of(k),
            forall|k: int|
                old(self).cursor() <= k < final(self).cursor() && (#[trigger] final(self).pool_of(
                    k,
                )) is Some ==> final(cache).leased().contains(final(self).pool_of(k)->0)
                    && !old(cache).leased().contains(final(self).pool_of(k)->0)
                    && final(self).pool_tag_of(k) == old(cache).tag() && old(cache).available(
                    old(self).graph().passes[k].pipeline->0.descriptors,
                ).contains(final(self).pool_of(k)->0),
            forall|object: u64|
                old(cache).leased().contains(object) ==> final(cache).leased().contains(object),
            final(self).cursor() == old(self).cursor() ==> forall|
                key: DescriptorPoolInfoView,
            | #[trigger] final(cache).available(key) == old(cache).available(key),
            forall|key: DescriptorPoolInfoView|
                (#[trigger] final(cache).available(key)).len() <= old(cache).available(key).len()
                    && final(cache).available(key) == old(cache).available(key).take(
                    final(cache).available(key).len() as int,
                ),
    {
        let end = self.first_pass(node.idx);
        self.record_until(cache, cmd_buf, end)
    }

    /// Records every pass which has not been recorded yet: the first pass which accesses
    /// `node` and all that follow it, and whatever comes before it and was not recorded by
    /// [`Resolver::record_node_dependencies`].
    ///
    /// The commands are added to `cmd_buf` in the order of the passes. A pass which needs a
    /// descriptor pool takes the one which `cache` lends it. Where `cache` has none, recording
    /// stops in front of that pass and returns its description; once a pool of that
    /// description has been created and given to the cache, a second call goes on from there.
    pub fn record_node(
        &mut self,
        cache: &mut HashPool<DescriptorPoolInfo>,
        cmd_buf: &mut CommandBuffer,
        node: Node,
    ) -> (recorded: Recorded)
        requires
            old(self).wf(),
            old(cache).wf(),
            old(self).graph().knows(node),
        ensures
            final(self).wf(),
            final(self).graph() == old(self).graph(),
            final(cache).wf(),
            final(cache).tag() == old(cache).tag(),
            final(cmd_buf).handle == old(cmd_buf).handle,
            old(self).cursor() <= final(self).cursor() <= old(self).graph().passes.len(),
            final(cmd_buf).commands@ == old(cmd_buf).commands@ + old(self).graph().commands(
                old(self).cursor(),
                final(self).cursor(),
            ),
            recorded is Done <==> final(self).cursor() == old(self).graph().passes.len(),
            recorded is NeedsDescriptorPool
                ==> old(self).graph().passes[final(self).cursor()].needs_pool()
                    && recorded->NeedsDescriptorPool_0@
                        == old(self).graph().passes[final(self).cursor(
                            )].pipeline->0.descriptors
                                && final(cache).available(recorded->NeedsDescriptorPool_0@).len(
                                    ) == 0,
            forall|k: int|
                0 <= k < old(self).cursor()
                    ==> #[trigger] final(self).pool_of(k) == old(self).pool_of(k),
            forall|k: int|
                old(self).cursor() <= k < final(self).cursor() && (#[trigger] final(self).pool_of(
                    k,
                )) is Some ==> final(cache).leased().contains(final(self).pool_of(k)->0)
                    && !old(cache).leased().contains(final(self).pool_of(k)->0)
                    && final(self).pool_tag_of(k) == old(cache).tag() && old(cache).available(
                    old(self).graph().passes[k].pipeline->0.descriptors,
                ).contains(final(self).pool_of(k)->0),
            forall|object: u64|
                old(cache).leased().contains(object) ==> final(cache).leased().contains(object),
            final(self).cursor() == old(self).cursor() ==> forall|
                key: DescriptorPoolInfoView,
            | #[trigger] final(cache).available(key) == old(cache).available(key),
            forall|key: DescriptorPoolInfoView|
                (#[trigger] final(cache).available(key)).len() <= old(cache).available(key).len()
                    && final(cache).available(key) == old(cache).available(key).take(
                    final(cache).available(key).len() as int,
                ),
    {
        let end = self.graph.pass_count();
        self.record_until(cache, cmd_buf, end)
    }

    /// Releases what the resolved graph holds, once the device has finished with it. Every
    /// descriptor pool which was on lease goes back to `cache`, where `cache` is the pool it
    /// was leased from and still has it on lease; any other is handed back to be destroyed.
    /// The resources which are still bound are handed back too: the leased ones to be
    /// returned to their pools, the owned ones to be destroyed.
    pub fn release(self, cache: &mut HashPool<DescriptorPoolInfo>) -> (released: Released)
        requires
            self.wf(),
            old(cache).wf(),
        ensures
            final(cache).wf(),
            final(cache).tag() == old(cache).tag(),
            released.returned@ == self.graph().leased_resources(self.graph().slots.len() as int),
            released.destroyed@ == self.graph().owned_resources(self.graph().slots.len() as int),
            forall|object: u64|
                final(cache).leased().contains(object) ==> old(cache).leased().contains(object),
            forall|k: int|
                0 <= k < self.cursor() && (#[trigger] self.pool_of(k)) is Some && self.pool_tag_of(
                    k,
                ) == old(cache).tag() ==> !final(cache).leased().contains(self.pool_of(k)->0),
            forall|object: u64| old(cache).knows(object) ==> final(cache).knows(object),
            forall|object: u64|
                released.destroyed_pools@.contains(object) ==> exists|k: int|
                    0 <= k < self.cursor() && #[trigger] self.pool_of(k) == Some(object),
            forall|k: int|
                0 <= k < self.cursor() && (#[trigger] self.pool_of(k)) is Some && self.pool_tag_of(
                    k,
                ) != old(cache).tag() ==> released.destroyed_pools@.contains(self.pool_of(k)->0),
    {
        let ghost graph = self.graph@;
        let ghost cache0 = *cache;
        let ghost pools0 = self.pools@;
        let ghost cursor = self.cursor as int;
        let Resolver { graph: render_graph, barriers: _, cursor: _, pools } = self;
        let mut pools = pools;
        let mut destroyed_pools: Vec<u64> = Vec::new();
        while pools.len() > 0
            invariant
                cache.wf(),
                cache.tag() == cache0.tag(),
                pools@ == pools0.take(pools@.len() as int),
                pools@.len() <= pools0.len(),
                forall|object: u64|
                    cache.leased().contains(object) ==> cache0.leased().contains(object),
                forall|k: int|
                    pools@.len() <= k < pools0.len() && (#[trigger] pools0[k]) is Some
                        && pools0[k]->0.pool == cache0.tag() ==> !cache.leased().contains(
                        pools0[k]->0.object,
                    ),
                forall|object: u64| cache0.knows(object) ==> cache.knows(object),
                forall|object: u64|
                    destroyed_pools@.contains(object) ==> exists|k: int|
                        pools@.len() <= k < pools0.len() && #[trigger] pools0[k] is Some
                            && pools0[k]->0.object == object,
                forall|k: int|
                    pools@.len() <= k < pools0.len() && (#[trigger] pools0[k]) is Some
                        && pools0[k]->0.pool != cache0.tag() ==> destroyed_pools@.contains(
                        pools0[k]->0.object,
                    ),
            decreases pools@.len(),
        {
            let ghost n = pools@.len() - 1;
            let ghost cache_before = *cache;
            let ghost destroyed_before = destroyed_pools@;
            let entry = pools.pop().unwrap();
            assert(entry == pools0[n]);
            assert(pools@ =~= pools0.take(n));
            match entry {
                Some(lease) => {
                    let ghost object = lease.object;
                    let ghost key = lease.info@;
                    match cache.release(lease) {
                        Some(destroy) => {
                            destroyed_pools.push(destroy);
                            proof {
                                assert forall|o: u64|
                                    destroyed_pools@.contains(o) implies exists|k: int|
                                    n <= k < pools0.len() && #[trigger] pools0[k] is Some
                                        && pools0[k]->0.object == o by {
                                    if destroyed_before.contains(o) {
                                        let k = choose|k: int|
                                            n + 1 <= k < pools0.len()
                                                && #[trigger] pools0[k] is Some
                                                && pools0[k]->0.object == o;
                                        assert(n <= k < pools0.len() && pools0[k] is Some);
                                    } else {
                                        let i = choose|i: int|
                                            0 <= i < destroyed_pools@.len() && destroyed_pools@[i]
                                                == o;
                                        if i < destroyed_before.len() {
                                            assert(destroyed_before[i] == o);
                                        }
                                        assert(o == object);
                                        assert(pools0[n] is Some);
                                    }
                                }
                            }
                        },
                        None => {
                            proof {
                                assert(cache.available(key) == cache_before.available(key).push(
                                    object,
                                ));
                                assert(cache.available(key)[cache_before.available(key).len(
                                    ) as int]
                                    == object);
                            }
                        },
                    }
                    proof {
                        assert forall|o: u64| cache_before.knows(o) implies cache.knows(o) by {
                            if cache_before.leased().contains(o) {
                                if !cache.leased().contains(o) {
                                    assert(o == object);
                                    assert(cache.available(key)[cache_before.available(key).len(
                                        ) as int]
                                        == object);
                                    assert(cache.available(key).contains(o));
                                }
                            } else {
                                let other = choose|other: DescriptorPoolInfoView|
                                    #[trigger] cache_before.available(other).contains(o);
                                if other == key && cache.available(key) != cache_before.available(
                                    key,
                                ) {
                                    let i = choose|i: int|
                                        0 <= i < cache_before.available(key).len()
                                            && cache_before.available(key)[i] == o;
                                    assert(cache.available(key)[i] == o);
                                }
                                assert(cache.available(other).contains(o));
                            }
                        }
                    }
                },
                None => {
                    proof {
                        assert forall|o: u64| destroyed_pools@.contains(o) implies exists|k: int|
                            n <= k < pools0.len() && #[trigger] pools0[k] is Some
                                && pools0[k]->0.object == o by {
                            let k = choose|k: int|
                                n + 1 <= k < pools0.len() && #[trigger] pools0[k] is Some
                                    && pools0[k]->0.object == o;
                            assert(n <= k < pools0.len() && pools0[k] is Some);
                        }
                    }
                },
            }
            proof {
                assert forall|k: int|
                    n <= k < pools0.len() && (#[trigger] pools0[k]) is Some && pools0[k]->0.pool
                        != cache0.tag() implies destroyed_pools@.contains(pools0[k]->0.object) by {
                    let o = pools0[k]->0.object;
                    if k > n {
                        assert(destroyed_before.contains(o));
                        let i = choose|i: int|
                            0 <= i < destroyed_before.len() && destroyed_before[i] == o;
                        assert(destroyed_pools@[i] == o);
                    } else {
                        assert(destroyed_pools@[destroyed_before.len() as int] == o);
                    }
                }
            }
        }
        let mut returned: Vec<Resource> = Vec::new();
        let mut destroyed: Vec<Resource> = Vec::new();
        let mut i: usize = 0;
        while i < render_graph.node_count()
            invariant
                render_graph@ == graph,
                i <= graph.slots.len(),
                returned@ == graph.leased_resources(i as int),
                destroyed@ == graph.owned_resources(i as int),
            decreases graph.slots.len() - i,
        {
            let slot = render_graph.slot(i);
            if slot.bound {
                match slot.node {
                    Object::LeaseNode(_) => {
                        returned.push(slot.resource);
                    },
                    Object::Node(_) => {
                        match slot.resource {
                            Resource::SwapchainImage(_) => {},
                            _ => {
                                destroyed.push(slot.resource);
                            },
                        }
                    },
                    _ => {},
                }
            }
            i += 1;
        }
        proof {
            assert forall|k: int|
                0 <= k < cursor && (#[trigger] self.pool_of(k)) is Some && self.pool_tag_of(k)
                    == cache0.tag() implies !cache.leased().contains(self.pool_of(k)->0) by {
                assert(pools0[k] is Some);
            }
            assert forall|k: int|
                0 <= k < cursor && (#[trigger] self.pool_of(k)) is Some && self.pool_tag_of(k)
                    != cache0.tag() implies destroyed_pools@.contains(self.pool_of(k)->0) by {
                assert(pools0[k] is Some);
            }
            assert forall|object: u64| destroyed_pools@.contains(object) implies exists|k: int|
                0 <= k < cursor && #[trigger] self.pool_of(k) == Some(object) by {
                let k = choose|k: int|
                    0 <= k < pools0.len() && #[trigger] pools0[k] is Some && pools0[k]->0.object
                        == object;
                assert(k < cursor) by {
                    if k >= cursor {
                        assert(pools0[k] is None);
                    }
                }
                assert(self.pool_of(k) == Some(object));
            }
        }
        Released { returned, destroyed, destroyed_pools }
    }
}

impl RenderGraph {
    /// Resolves the graph: the passes stay in the order in which they were declared, and
    /// each gets the barriers which its accesses ask for. Nothing has been recorded yet, and
    /// no descriptor pool is on lease. The graph itself is used up.
    pub fn resolve(self) -> (resolver: Resolver)
        requires
            self.wf(),
        ensures
            resolver.wf(),
            resolver.graph() == self@,
            resolver.cursor() == 0,
            forall|k: int| #[trigger] resolver.pool_of(k) is None,
    {
        let ghost graph = self@;
        let mut current: Vec<Access> = Vec::new();
        let mut n: usize = 0;
        while n < self.node_count()
            invariant
                self@ == graph,
                n <= graph.slots.len(),
                current@.len() == n,
                forall|i: int| 0 <= i < n ==> #[trigger] current@[i] == graph.access_before(i, 0),
            decreases graph.slots.len() - n,
        {
            current.push(self.slot(n).access);
            n += 1;
        }
        let mut barriers: Vec<Vec<Barrier>> = Vec::new();
        let mut pools: Vec<Option<Lease<DescriptorPoolInfo>>> = Vec::new();
        let mut k: usize = 0;
        while k < self.pass_count()
            invariant
                self@ == graph,
                graph.wf(),
                k <= graph.passes.len(),
                current@.len() == graph.slots.len(),
                forall|i: int|
                    0 <= i < current@.len() ==> #[trigger] current@[i] == graph.access_before(
                        i,
                        k as int,
                    ),
                barriers@.len() == k,
                forall|p: int| 0 <= p < k ==> (#[trigger] barriers@[p])@ == graph.pass_barriers(p),
                pools@.len() == k,
                forall|p: int| 0 <= p < k ==> (#[trigger] pools@[p]) is None,
            decreases graph.passes.len() - k,
        {
            let pass = self.pass(k);
            let ghost view = graph.passes[k as int];
            assert(view.wf() && view.within(graph.slots.len() as int));
            let mut list: Vec<Barrier> = Vec::new();
            let mut j: usize = 0;
            while j < pass.access_count()
                invariant
                    self@ == graph,
                    graph.wf(),
                    k < graph.passes.len(),
                    pass@ == view,
                    view == graph.passes[k as int],
                    view.wf(),
                    view.within(graph.slots.len() as int),
                    j <= view.accesses.len(),
                    current@.len() == graph.slots.len(),
                    list@ == graph.barriers_of(k as int, j as int),
                    forall|i: int|
                        0 <= i < current@.len() ==> #[trigger] current@[i] == if touched(
                            view.accesses,
                            j as int,
                            i,
                        ) {
                            view.access_of(i)->0
                        } else {
                            graph.access_before(i, k as int)
                        },
                decreases view.accesses.len() - j,
            {
                let access = pass.access_at(j);
                assert(view.accesses[j as int].node < graph.slots.len());
                let prev = current[access.node];
                proof {
                    if touched(view.accesses, j as int, access.node as int) {
                        let i = choose|i: int|
                            0 <= i < j && (#[trigger] view.accesses[i]).node == access.node as int;
                        assert(view.accesses[i].node != view.accesses[j as int].node);
                    }
                    assert(prev == graph.access_before(access.node as int, k as int));
                }
                if prev.requires_barrier(access.access) {
                    list.push(
                        Barrier {
                            node: access.node,
                            resource: self.slot(access.node).resource,
                            prev,
                            next: access.access,
                        },
                    );
                }
                let ghost table = current@;
                current.set(access.node, access.access);
                proof {
                    assert forall|i: int| 0 <= i < current@.len() implies #[trigger] current@[i]
                        == if touched(view.accesses, j + 1, i) {
                        view.access_of(i)->0
                    } else {
                        graph.access_before(i, k as int)
                    } by {
                        if i == access.node as int {
                            assert(view.accesses[j as int].node == i);
                            assert(touched(view.accesses, j + 1, i));
                            assert(view.accesses_node(i));
                            let at = view.position(i);
                            assert(view.accesses[at].node == i);
                            if at != j as int {
                                if at < j as int {
                                    assert(view.accesses[at].node != view.accesses[j as int].node);
                                } else {
                                    assert(view.accesses[j as int].node != view.accesses[at].node);
                                }
                            }
                        } else {
                            assert(current@[i] == table[i]);
                            if touched(view.accesses, j + 1, i) {
                                let w = choose|w: int|
                                    0 <= w < j + 1 && (#[trigger] view.accesses[w]).node == i;
                                assert(w < j);
                                assert(touched(view.accesses, j as int, i));
                            }
                            if touched(view.accesses, j as int, i) {
                                let w = choose|w: int|
                                    0 <= w < j && (#[trigger] view.accesses[w]).node == i;
                                assert(0 <= w < j + 1 && view.accesses[w].node == i);
                            }
                        }
                    }
                }
                j += 1;
            }
            proof {
                assert forall|i: int| 0 <= i < current@.len() implies #[trigger] current@[i]
                    == graph.access_before(i, k + 1) by {
                    if touched(view.accesses, j as int, i) {
                        let w = choose|w: int|
                            0 <= w < j && (#[trigger] view.accesses[w]).node == i;
                        assert(view.accesses_node(i));
                    }
                    if view.accesses_node(i) {
                        let w = view.position(i);
                        assert(0 <= w < j && view.accesses[w].node == i);
                        assert(touched(view.accesses, j as int, i));
                    }
                }
            }
            barriers.push(list);
            pools.push(None);
            k += 1;
        }
        let resolver = Resolver { graph: self, barriers, cursor: 0, pools };
        assert forall|p: int| #[trigger] resolver.pool_of(p) is None by {
            if 0 <= p < resolver.pools@.len() {
                assert(resolver.pools@[p] is None);
            }
        }
        resolver
    }
}

/// Whether one of the first `n` accesses is one of the node `node`.
pub open spec fn touched(accesses: Seq<NodeAccess>, n: int, node: int) -> bool {
    exists|i: int| 0 <= i < n && (#[trigger] accesses[i]).node == node
}

/// The barriers of a pass depend on the passes and on the resources and first accesses of
/// the nodes alone, not on which nodes are bound.
proof fn lemma_barriers_of_slots(before: GraphView, after: GraphView, k: int, n: int)
    requires
        before.passes == after.passes,
        before.slots.len() == after.slots.len(),
        forall|i: int|
            0 <= i < before.slots.len() ==> (#[trigger] before.slots[i]).resource
                == after.slots[i].resource && before.slots[i].access == after.slots[i].access,
        0 <= k < before.passes.len(),
        0 <= n <= before.passes[k].accesses.len(),
        before.passes[k].within(before.slots.len() as int),
    ensures
        after.barriers_of(k, n) == before.barriers_of(k, n),
    decreases n,
{
    if n > 0 {
        lemma_barriers_of_slots(before, after, k, n - 1);
        let access = before.passes[k].accesses[n - 1];
        assert(access.node < before.slots.len());
        lemma_access_before_slots(before, after, access.node as int, k);
        assert(before.slots[access.node as int].resource
            == after.slots[access.node as int].resource);
    }
}

proof fn lemma_access_before_slots(before: GraphView, after: GraphView, node: int, k: int)
    requires
        before.passes == after.passes,
        before.slots.len() == after.slots.len(),
        0 <= node < before.slots.len(),
        forall|i: int|
            0 <= i < before.slots.len() ==> (#[trigger] before.slots[i]).resource
                == after.slots[i].resource && before.slots[i].access == after.slots[i].access,
    ensures
        after.last_pass_before(node, k) == before.last_pass_before(node, k),
        after.access_before(node, k) == before.access_before(node, k),
    decreases k,
{
    if k > 0 {
        lemma_access_before_slots(before, after, node, k - 1);
    }
    assert(before.slots[node].access == after.slots[node].access);
}

/// Recording in two steps records what recording in one step does: the commands of the
/// passes from `from` to `mid`, followed by those from `mid` to `to`, are the commands of
/// the passes from `from` to `to`.
pub proof fn lemma_commands_split(graph: GraphView, from: int, mid: int, to: int)
    requires
        from <= mid <= to,
    ensures
        graph.commands(from, mid) + graph.commands(mid, to) == graph.commands(from, to),
    decreases to - mid,
{
    if to == mid {
        assert(graph.commands(from, mid) + graph.commands(mid, to) =~= graph.commands(from, to));
    } else {
        lemma_commands_split(graph, from, mid, to - 1);
        assert(graph.commands(from, mid) + graph.commands(mid, to) =~= graph.commands(from, to));
    }
}

/// The first pass which accesses a node, counted from `k` on, is no earlier than `k` and
/// no later than the number of passes; it accesses the node, and no pass between `k` and it
/// does.
pub proof fn lemma_first_pass(graph: GraphView, node: int, k: int)
    requires
        0 <= k <= graph.passes.len(),
    ensures
        k <= graph.first_pass_from(node, k) <= graph.passes.len(),
        graph.first_pass_from(node, k) < graph.passes.len() ==> graph.passes[graph.first_pass_from(
            node,
            k,
        )].accesses_node(node),
        forall|p: int|
            k <= p < graph.first_pass_from(node, k) ==> !(#[trigger] graph.passes[p]).accesses_node(
                node,
            ),
    decreases graph.passes.len() - k,
{
    if k < graph.passes.len() && !graph.passes[k].accesses_node(node) {
        lemma_first_pass(graph, node, k + 1);
    }
}

/// Barriers are placed where they are needed and nowhere else. In front of a pass, a node
/// gets one barrier if the pass accesses it otherwise than it was accessed last, and none if
/// the pass accesses it in the same way or not at all. Every barrier leads from the last
/// access of its node to the access which the pass makes of it.
pub proof fn lemma_barrier_minimal(graph: GraphView, k: int, node: int)
    requires
        graph.wf(),
        0 <= k < graph.passes.len(),
    ensures
        barrier_count(graph.pass_barriers(k), node) == if graph.passes[k].accesses_node(node)
            && graph.access_before(node, k).needs_barrier(graph.passes[k].access_of(node)->0) {
            1nat
        } else {
            0nat
        },
        forall|i: int|
            0 <= i < graph.pass_barriers(k).len() && (#[trigger] graph.pass_barriers(k)[i]).node
                == node ==> graph.passes[k].accesses_node(node) && graph.pass_barriers(k)[i].prev
                == graph.access_before(node, k) && graph.pass_barriers(k)[i].next
                == graph.passes[k].access_of(node)->0 && graph.pass_barriers(k)[i].resource
                == graph.slots[node].resource,
{
    let pass = graph.passes[k];
    assert(pass.wf());
    lemma_barriers_upto(graph, k, node, pass.accesses.len() as int);
    if touched(pass.accesses, pass.accesses.len() as int, node) {
        let w = choose|w: int|
            0 <= w < pass.accesses.len() && (#[trigger] pass.accesses[w]).node == node;
        assert(pass.accesses_node(node));
    }
    if pass.accesses_node(node) {
        let w = pass.position(node);
        assert(0 <= w < pass.accesses.len() && pass.accesses[w].node == node);
        assert(touched(pass.accesses, pass.accesses.len() as int, node));
    }
}

proof fn lemma_barriers_upto(graph: GraphView, k: int, node: int, n: int)
    requires
        graph.wf(),
        0 <= k < graph.passes.len(),
        0 <= n <= graph.passes[k].accesses.len(),
    ensures
        barrier_count(graph.barriers_of(k, n), node) == if touched(
            graph.passes[k].accesses,
            n,
            node,
        ) && graph.access_before(node, k).needs_barrier(graph.passes[k].access_of(node)->0) {
            1nat
        } else {
            0nat
        },
        forall|i: int|
            0 <= i < graph.barriers_of(k, n).len() && (#[trigger] graph.barriers_of(k, n)[i]).node
                == node ==> touched(graph.passes[k].accesses, n, node) && graph.barriers_of(
                k,
                n,
            )[i].prev == graph.access_before(node, k) && graph.barriers_of(k, n)[i].next
                == graph.passes[k].access_of(node)->0 && graph.barriers_of(k, n)[i].resource
                == graph.slots[node].resource,
    decreases n,
{
    let pass = graph.passes[k];
    assert(pass.wf());
    if n > 0 {
        lemma_barriers_upto(graph, k, node, n - 1);
        let access = pass.accesses[n - 1];
        let rest = graph.barriers_of(k, n - 1);
        let all = graph.barriers_of(k, n);
        if touched(pass.accesses, n - 1, node) {
            let w = choose|w: int| 0 <= w < n - 1 && (#[trigger] pass.accesses[w]).node == node;
            assert(0 <= w < n && pass.accesses[w].node == node);
            assert(pass.accesses[w].node != pass.accesses[n - 1].node);
        }
        if access.node as int == node {
            assert(touched(pass.accesses, n, node));
            assert(pass.accesses_node(node));
            let at = pass.position(node);
            assert(pass.accesses[at].node == node);
            if at != n - 1 {
                if at < n - 1 {
                    assert(pass.accesses[at].node != pass.accesses[n - 1].node);
                } else {
                    assert(pass.accesses[n - 1].node != pass.accesses[at].node);
                }
            }
        } else {
            if touched(pass.accesses, n, node) {
                let w = choose|w: int| 0 <= w < n && (#[trigger] pass.accesses[w]).node == node;
                assert(touched(pass.accesses, n - 1, node));
            }
        }
        match graph.barrier_at(k, n - 1) {
            Some(barrier) => {
                assert(all == rest.push(barrier));
                assert(all.drop_last() =~= rest);
                assert(all.last() == barrier);
            },
            None => {
                assert(all == rest);
            },
        }
    }
}

} // verus!
