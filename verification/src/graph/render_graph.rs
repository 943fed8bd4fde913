//! The logical render graph: resources bound as nodes, and the passes which access them.

use super::binding::{Binding, EdgeError, Node, Resource};
use super::edge::{binds, edge, edge_result, unbinds, Object, Owner, PipelineKind};
use super::pass::{DescriptorBinding, Pass, PassView, Pipeline};
use crate::access::Access;
use vstd::prelude::*;

verus! {

/// What a graph keeps of a resource which was bound to it. The entry of a resource stays
/// where it is for as long as the graph lives, so that the index of a node never changes.
#[derive(Clone, Copy, Debug, PartialEq, Eq, Hash, Structural)]
pub struct Slot {
    pub resource: Resource,
    /// The last access of the resource before it was bound.
    pub access: Access,
    /// The state of the node which names the resource.
    pub node: Object,
    /// Whether the resource is still bound.
    pub bound: bool,
}

/// A description of the passes of a frame and of the nodes they touch. It only grows: nodes
/// and passes are added, and neither is ever removed.
pub struct RenderGraph {
    tag: u64,
    slots: Vec<Slot>,
    passes: Vec<Pass>,
}

/// The name of a pass within the graph it belongs to.
#[derive(Clone, Copy, Debug, PartialEq, Eq, Hash, Structural)]
pub struct PassRef {
    /// The tag of the graph which made this pass.
    pub graph: u64,
    /// The index of the pass within that graph.
    pub idx: usize,
}

/// The name of a pass which a pipeline has been bound to.
#[derive(Clone, Copy, Debug, PartialEq, Eq, Hash, Structural)]
pub struct PipelinePassRef {
    pub pass: PassRef,
    /// The kind of the pipeline which was bound.
    pub kind: PipelineKind,
}

/// What a [`RenderGraph`] says.
pub struct GraphView {
    pub tag: u64,
    pub slots: Seq<Slot>,
    pub passes: Seq<PassView>,
}

impl GraphView {
    /// The invariant of a graph: every entry is held in the state of a node of its kind;
    /// no two bound entries are the same device object; and every pass keeps one access for
    /// each node and refers to entries of this graph alone.
    pub open spec fn wf(self) -> bool {
        &&& forall|i: int|
            0 <= i < self.slots.len() ==> (#[trigger] self.slots[i]).node.is_attached()
                && self.slots[i].node.resource_kind() == Some(self.slots[i].resource.kind())
        &&& forall|i: int, j: int|
            0 <= i < j < self.slots.len() && (#[trigger] self.slots[i]).bound && (
            #[trigger] self.slots[j]).bound ==> !self.slots[i].resource.same_object(
                self.slots[j].resource,
            )
        &&& forall|p: int|
            0 <= p < self.passes.len() ==> (#[trigger] self.passes[p]).wf()
                && self.passes[p].within(
                self.slots.len() as int,
            )
    }

    /// Whether `node` was made by this graph, bound or not.
    pub open spec fn knows(self, node: Node) -> bool {
        node.graph == self.tag && node.idx < self.slots.len() && self.slots[node.idx as int].node
            == node.object
    }

    /// Whether `node` was made by this graph and is still bound.
    pub open spec fn owns(self, node: Node) -> bool {
        self.knows(node) && self.slots[node.idx as int].bound
    }

    /// Whether `pass` names a pass of this graph.
    pub open spec fn has_pass(self, pass: PassRef) -> bool {
        pass.graph == self.tag && pass.idx < self.passes.len()
    }

    /// Whether `pass` names a pass of this graph which a pipeline of its kind is bound to.
    pub open spec fn has_pipeline_pass(self, pass: PipelinePassRef) -> bool {
        self.has_pass(pass.pass) && self.passes[pass.pass.idx as int].pipeline is Some
            && self.passes[pass.pass.idx as int].pipeline->0.kind == pass.kind
    }

    /// Whether the graph holds `resource` as a bound node.
    pub open spec fn is_bound(self, resource: Resource) -> bool {
        exists|i: int|
            0 <= i < self.slots.len() && (#[trigger] self.slots[i]).bound
                && self.slots[i].resource.same_object(resource)
    }

    /// The index of the bound node which holds `resource`.
    pub open spec fn bound_at(self, resource: Resource) -> int {
        choose|i: int|
            0 <= i < self.slots.len() && (#[trigger] self.slots[i]).bound
                && self.slots[i].resource.same_object(resource)
    }

    /// The last of the first `k` passes which accesses the node `node`, if there is one.
    pub open spec fn last_pass_before(self, node: int, k: int) -> Option<int>
        decreases k,
    {
        if k <= 0 {
            None
        } else if self.passes[k - 1].accesses_node(node) {
            Some(k - 1)
        } else {
            self.last_pass_before(node, k - 1)
        }
    }

    /// The access of the node `node` which is in force when the first `k` passes have run:
    /// that of the last of them which accesses it, or else the one it was bound with.
    pub open spec fn access_before(self, node: int, k: int) -> Access {
        match self.last_pass_before(node, k) {
            Some(p) => self.passes[p].access_of(node)->0,
            None => self.slots[node].access,
        }
    }

    /// The last access which any pass makes of the node `node`, if any pass accesses it.
    pub open spec fn last_access(self, node: int) -> Option<Access> {
        match self.last_pass_before(node, self.passes.len() as int) {
            Some(p) => self.passes[p].access_of(node),
            None => None,
        }
    }

    /// The first pass from `k` on which accesses the node `node`; the number of passes if
    /// there is none.
    pub open spec fn first_pass_from(self, node: int, k: int) -> int
        decreases self.passes.len() - k,
    {
        if k >= self.passes.len() {
            self.passes.len() as int
        } else if k >= 0 && self.passes[k].accesses_node(node) {
            k
        } else {
            self.first_pass_from(node, k + 1)
        }
    }

    /// The first pass which accesses the node `node`; the number of passes if none does.
    pub open spec fn first_pass(self, node: int) -> int {
        self.first_pass_from(node, 0)
    }
}

impl View for RenderGraph {
    type V = GraphView;

    closed spec fn view(&self) -> GraphView {
        GraphView {
            tag: self.tag,
            slots: self.slots@,
            passes: Seq::new(self.passes@.len(), |i: int| self.passes@[i]@),
        }
    }
}

impl RenderGraph {
    /// The invariant of the graph; see [`GraphView::wf`].
    pub open spec fn wf(&self) -> bool {
        self@.wf()
    }

    /// An empty graph. The tag tells its nodes and passes from those of other graphs.
    pub fn new(tag: u64) -> (graph: RenderGraph)
        ensures
            graph.wf(),
            graph@.tag == tag,
            graph@.slots == Seq::<Slot>::empty(),
            graph@.passes == Seq::<PassView>::empty(),
    {
        let graph = RenderGraph { tag, slots: Vec::new(), passes: Vec::new() };
        assert(graph@.passes =~= Seq::<PassView>::empty());
        graph
    }

    /// The tag of the graph.
    pub fn tag(&self) -> (tag: u64)
        ensures
            tag == self@.tag,
    {
        self.tag
    }

    /// The number of resources which were ever bound to the graph.
    pub fn node_count(&self) -> (count: usize)
        ensures
            count == self@.slots.len(),
    {
        self.slots.len()
    }

    /// What the graph keeps of the resource at `idx`.
    pub fn slot(&self, idx: usize) -> (slot: Slot)
        requires
            idx < self@.slots.len(),
        ensures
            slot == self@.slots[idx as int],
    {
        self.slots[idx]
    }

    /// The number of passes.
    pub fn pass_count(&self) -> (count: usize)
        ensures
            count == self@.passes.len(),
    {
        self.passes.len()
    }

    /// The pass at `idx`.
    pub fn pass(&self, idx: usize) -> (pass: &Pass)
        requires
            idx < self@.passes.len(),
        ensures
            pass@ == self@.passes[idx as int],
    {
        &self.passes[idx]
    }

    /// Whether `node` was made by this graph, bound or not.
    pub fn knows_node(&self, node: Node) -> (known: bool)
        ensures
            known == self@.knows(node),
    {
        node.graph == self.tag && node.idx < self.slots.len() && self.slots[node.idx].node
            == node.object
    }

    /// Whether `node` was made by this graph and is still bound.
    pub fn contains_node(&self, node: Node) -> (owned: bool)
        ensures
            owned == self@.owns(node),
    {
        self.knows_node(node) && self.slots[node.idx].bound
    }

    /// Whether `pass` names a pass of this graph.
    pub fn contains_pass(&self, pass: PassRef) -> (known: bool)
        ensures
            known == self@.has_pass(pass),
    {
        pass.graph == self.tag && pass.idx < self.passes.len()
    }

    fn find_bound(&self, resource: &Resource) -> (found: Option<usize>)
        requires
            self.wf(),
        ensures
            found is Some <==> self@.is_bound(*resource),
            found is Some ==> found->0 == self@.bound_at(*resource) && found->0
                < self@.slots.len(),
    {
        let mut i: usize = 0;
        while i < self.slots.len()
            invariant
                self.wf(),
                i <= self.slots@.len(),
                forall|j: int|
                    0 <= j < i ==> !((#[trigger] self.slots@[j]).bound
                        && self.slots@[j].resource.same_object(*resource)),
            decreases self.slots@.len() - i,
        {
            if self.slots[i].bound && self.slots[i].resource.is_same_object(resource) {
                proof {
                    assert(self@.slots[i as int].bound);
                    let at = self@.bound_at(*resource);
                    assert(self@.slots[at].bound && self@.slots[at].resource.same_object(
                        *resource,
                    ));
                    if at != i {
                        let a = self@.slots[at].resource;
                        let b = self@.slots[i as int].resource;
                        assert(a.same_object(b));
                        assert(b.same_object(a));
                    }
                }
                return Some(i);
            }
            i += 1;
        }
        None
    }

    /// The node which names `resource`, if the graph holds it bound.
    pub fn find_node(&self, resource: &Resource) -> (node: Option<Node>)
        requires
            self.wf(),
        ensures
            node is Some <==> self@.is_bound(*resource),
            node is Some ==> self@.owns(node->0) && node->0.idx == self@.bound_at(*resource),
    {
        match self.find_bound(resource) {
            Some(i) => Some(Node { object: self.slots[i].node, graph: self.tag, idx: i }),
            None => None,
        }
    }

    /// Binds a resource to the graph and names it by a node.
    ///
    /// The binding has to be in a state which the graph can attach; any other is refused,
    /// and the graph stays as it is. A resource which the graph holds bound already is not
    /// bound a second time: the node which names it is returned again, and the graph stays
    /// as it is. Any other resource is added last, with the access of the binding.
    pub fn bind_node(&mut self, binding: Binding) -> (node: Result<Node, EdgeError>)
        requires
            old(self).wf(),
        ensures
            final(self).wf(),
            final(self)@.tag == old(self)@.tag,
            final(self)@.passes == old(self)@.passes,
            node is Ok <==> binding.wf() && binds(binding.object),
            node is Err ==> node->Err_0 == (EdgeError {
                owner: Owner::RenderGraph,
                source: binding.object,
            }) && final(self)@ == old(self)@,
            node is Ok ==> final(self)@.owns(node->Ok_0)
                && final(self)@.slots[node->Ok_0.idx as int].resource.same_object(
                binding.resource,
            ),
            node is Ok && old(self)@.is_bound(binding.resource)
                ==> node->Ok_0.idx == old(self)@.bound_at(binding.resource)
                    && final(self)@ == old(self)@,
            node is Ok && !old(self)@.is_bound(binding.resource)
                ==> node->Ok_0.idx == old(self)@.slots.len()
                    && final(self)@.slots == old(self)@.slots.push(
                Slot {
                    resource: binding.resource,
                    access: binding.access,
                    node: edge(Owner::RenderGraph, binding.object)->0,
                    bound: true,
                },
            ),
    {
        let ghost before = self@;
        let target = match edge_result(Owner::RenderGraph, binding.object) {
            Some(target) => target,
            None => {
                return Err(EdgeError { owner: Owner::RenderGraph, source: binding.object });
            },
        };
        if !binding.is_wf() {
            return Err(EdgeError { owner: Owner::RenderGraph, source: binding.object });
        }
        match self.find_bound(&binding.resource) {
            Some(i) => Ok(Node { object: self.slots[i].node, graph: self.tag, idx: i }),
            None => {
                let idx = self.slots.len();
                let slot = Slot {
                    resource: binding.resource,
                    access: binding.access,
                    node: target,
                    bound: true,
                };
                self.slots.push(slot);
                proof {
                    let after = self@;
                    assert(after.passes =~= before.passes);
                    assert(after.slots == before.slots.push(slot));
                    assert forall|i: int, j: int|
                        0 <= i < j < after.slots.len() && (#[trigger] after.slots[i]).bound && (
                        #[trigger] after.slots[j]).bound
                            implies !after.slots[i].resource.same_object(
                        after.slots[j].resource,
                    ) by {
                        if j == idx {
                            assert(before.slots[i].bound);
                            if before.slots[i].resource.same_object(binding.resource) {
                                assert(before.is_bound(binding.resource));
                            }
                        } else {
                            assert(before.slots[i].bound && before.slots[j].bound);
                        }
                    }
                    assert forall|p: int| 0 <= p < after.passes.len() implies (
                    #[trigger] after.passes[p]).wf() && after.passes[p].within(
                        after.slots.len() as int,
                    ) by {
                        assert(before.passes[p].wf() && before.passes[p].within(
                            before.slots.len() as int,
                        ));
                    }
                    assert forall|i: int| 0 <= i < after.slots.len() implies (
                    #[trigger] after.slots[i]).node.is_attached()
                        && after.slots[i].node.resource_kind() == Some(
                        after.slots[i].resource.kind(),
                    ) by {
                        if i < idx {
                            assert(before.slots[i].node.is_attached());
                        }
                    }
                }
                Ok(Node { object: target, graph: self.tag, idx })
            },
        }
    }

    /// Takes the resource of `node` out of the graph, in the state which `owner` turns the
    /// node into. Where there is no such transition, the graph stays as it is.
    pub(crate) fn take_node(&mut self, node: Node, owner: Owner) -> (binding: Result<
        Binding,
        EdgeError,
    >)
        requires
            old(self).wf(),
            old(self)@.owns(node),
            owner == Owner::RenderGraph || owner == Owner::Resolver,
        ensures
            final(self).wf(),
            final(self)@.tag == old(self)@.tag,
            final(self)@.passes == old(self)@.passes,
            binding is Ok <==> edge(owner, node.object) is Some,
            binding is Err ==> binding->Err_0 == (EdgeError { owner, source: node.object })
                && final(self)@ == old(self)@,
            binding is Ok ==> binding->Ok_0.wf() && binding->Ok_0.object == edge(
                owner,
                node.object,
            )->0 && binding->Ok_0.resource == old(self)@.slots[node.idx as int].resource
                && binding->Ok_0.access == old(self)@.access_before(
                node.idx as int,
                old(self)@.passes.len() as int,
            ) && final(self)@.slots == old(self)@.slots.update(
                node.idx as int,
                Slot { bound: false, ..old(self)@.slots[node.idx as int] },
            ),
    {
        let ghost before = self@;
        let target = match edge_result(owner, node.object) {
            Some(target) => target,
            None => {
                return Err(EdgeError { owner, source: node.object });
            },
        };
        let slot = self.slots[node.idx];
        let access = match self.last_access_at(node.idx) {
            Some(access) => access,
            None => slot.access,
        };
        self.slots.set(node.idx, Slot { bound: false, ..slot });
        proof {
            let after = self@;
            assert(after.passes =~= before.passes);
            assert(before.slots[node.idx as int].node.is_attached());
            assert forall|i: int, j: int|
                0 <= i < j < after.slots.len() && (#[trigger] after.slots[i]).bound && (
                #[trigger] after.slots[j]).bound implies !after.slots[i].resource.same_object(
                after.slots[j].resource,
            ) by {
                assert(before.slots[i].bound && before.slots[j].bound);
            }
            assert forall|i: int| 0 <= i < after.slots.len() implies (
            #[trigger] after.slots[i]).node.is_attached() && after.slots[i].node.resource_kind()
                == Some(after.slots[i].resource.kind()) by {
                assert(before.slots[i].node.is_attached());
            }
            assert forall|p: int| 0 <= p < after.passes.len() implies (
            #[trigger] after.passes[p]).wf() && after.passes[p].within(
                after.slots.len() as int,
            ) by {
                assert(before.passes[p].wf() && before.passes[p].within(
                    before.slots.len() as int,
                ));
            }
        }
        Ok(Binding { object: target, resource: slot.resource, access })
    }

    /// Unbinds `node` from the graph and hands its resource back, with the last access which
    /// the passes of the graph make of it. The entry of the resource stays in the graph,
    /// unbound. A lease node of an acceleration structure cannot be unbound: it is
    /// refused, and the graph stays as it is.
    pub fn unbind_node(&mut self, node: Node) -> (binding: Result<Binding, EdgeError>)
        requires
            old(self).wf(),
            old(self)@.owns(node),
        ensures
            final(self).wf(),
            final(self)@.tag == old(self)@.tag,
            final(self)@.passes == old(self)@.passes,
            binding is Ok <==> unbinds(node.object),
            binding is Err ==> binding->Err_0 == (EdgeError {
                owner: Owner::RenderGraph,
                source: node.object,
            }) && final(self)@ == old(self)@,
            binding is Ok ==> binding->Ok_0.wf() && binding->Ok_0.object == edge(
                Owner::RenderGraph,
                node.object,
            )->0 && binding->Ok_0.resource == old(self)@.slots[node.idx as int].resource
                && binding->Ok_0.access == old(self)@.access_before(
                node.idx as int,
                old(self)@.passes.len() as int,
            ) && final(self)@.slots == old(self)@.slots.update(
                node.idx as int,
                Slot { bound: false, ..old(self)@.slots[node.idx as int] },
            ) && !final(self)@.owns(node),
    {
        assert(self@.slots[node.idx as int].node.is_attached());
        self.take_node(node, Owner::RenderGraph)
    }

    fn last_access_at(&self, idx: usize) -> (access: Option<Access>)
        requires
            self.wf(),
        ensures
            access == self@.last_access(idx as int),
            access is Some ==> access->0 == self@.access_before(
                idx as int,
                self@.passes.len() as int,
            ),
            access is None ==> self@.access_before(idx as int, self@.passes.len() as int)
                == self@.slots[idx as int].access,
    {
        let mut k: usize = self.passes.len();
        while k > 0
            invariant
                self.wf(),
                k <= self@.passes.len(),
                self@.last_pass_before(idx as int, self@.passes.len() as int)
                    == self@.last_pass_before(idx as int, k as int),
            decreases k,
        {
            k -= 1;
            assert(self@.passes[k as int].wf());
            match self.passes[k].find_access(idx) {
                Some(j) => {
                    return Some(self.passes[k].access_at(j).access);
                },
                None => {},
            }
        }
        None
    }

    /// The last access which the passes of the graph make of `node`; `None` where no pass
    /// accesses it.
    pub fn last_access(&self, node: Node) -> (access: Option<Access>)
        requires
            self.wf(),
            self@.knows(node),
        ensures
            access == self@.last_access(node.idx as int),
    {
        self.last_access_at(node.idx)
    }

    /// Adds a pass of the given name after the passes which the graph has; it accesses
    /// nothing yet.
    pub fn add_pass(&mut self, name: String) -> (pass: PassRef)
        requires
            old(self).wf(),
        ensures
            final(self).wf(),
            final(self)@.tag == old(self)@.tag,
            final(self)@.slots == old(self)@.slots,
            pass.graph == old(self)@.tag,
            pass.idx == old(self)@.passes.len(),
            final(self)@.has_pass(pass),
            final(self)@.passes == old(self)@.passes.push(
                PassView {
                    name: name@,
                    accesses: Seq::empty(),
                    pipeline: None,
                    push_constants: Seq::empty(),
                    bindings: Seq::empty(),
                },
            ),
    {
        let ghost before = self@;
        let idx = self.passes.len();
        let pass = Pass::new(name);
        let ghost view = pass@;
        self.passes.push(pass);
        proof {
            let after = self@;
            assert(after.passes =~= before.passes.push(view));
            assert forall|p: int| 0 <= p < after.passes.len() implies (
            #[trigger] after.passes[p]).wf() && after.passes[p].within(
                after.slots.len() as int,
            ) by {
                if p < idx {
                    assert(before.passes[p].wf() && before.passes[p].within(
                        before.slots.len() as int,
                    ));
                }
            }
            assert forall|i: int, j: int|
                0 <= i < j < after.slots.len() && (#[trigger] after.slots[i]).bound && (
                #[trigger] after.slots[j]).bound implies !after.slots[i].resource.same_object(
                after.slots[j].resource,
            ) by {
                assert(before.slots[i].bound && before.slots[j].bound);
            }
            assert forall|i: int| 0 <= i < after.slots.len() implies (
            #[trigger] after.slots[i]).node.is_attached() && after.slots[i].node.resource_kind()
                == Some(after.slots[i].resource.kind()) by {
                assert(before.slots[i].node.is_attached());
            }
        }
        PassRef { graph: self.tag, idx }
    }

    proof fn lemma_pass_replaced(before: GraphView, after: GraphView, idx: int)
        requires
            before.wf(),
            0 <= idx < before.passes.len(),
            after.tag == before.tag,
            after.slots == before.slots,
            after.passes == before.passes.update(idx, after.passes[idx]),
            after.passes[idx].wf(),
            after.passes[idx].within(before.slots.len() as int),
        ensures
            after.wf(),
    {
        assert forall|p: int| 0 <= p < after.passes.len() implies (#[trigger] after.passes[p]).wf()
            && after.passes[p].within(after.slots.len() as int) by {
            if p != idx {
                assert(before.passes[p].wf() && before.passes[p].within(
                    before.slots.len() as int,
                ));
            }
        }
        assert forall|i: int, j: int|
            0 <= i < j < after.slots.len() && (#[trigger] after.slots[i]).bound && (
            #[trigger] after.slots[j]).bound implies !after.slots[i].resource.same_object(
            after.slots[j].resource,
        ) by {
            assert(before.slots[i].bound && before.slots[j].bound);
        }
        assert forall|i: int| 0 <= i < after.slots.len() implies (
        #[trigger] after.slots[i]).node.is_attached() && after.slots[i].node.resource_kind()
            == Some(after.slots[i].resource.kind()) by {
            assert(before.slots[i].node.is_attached());
        }
    }
}

impl PassRef {
    /// Declares that the pass accesses `node` in the way `access` says. A pass makes one
    /// access of a node: a later declaration for the same node replaces the earlier one.
    pub fn access_node(self, graph: &mut RenderGraph, node: Node, access: Access)
        requires
            old(graph).wf(),
            old(graph)@.has_pass(self),
            old(graph)@.owns(node),
        ensures
            final(graph).wf(),
            final(graph)@.tag == old(graph)@.tag,
            final(graph)@.slots == old(graph)@.slots,
            final(graph)@.passes == old(graph)@.passes.update(
                self.idx as int,
                PassView {
                    accesses: old(graph)@.passes[self.idx as int].with_access(node.idx, access),
                    ..old(graph)@.passes[self.idx as int]
                },
            ),
            final(graph)@.passes[self.idx as int].access_of(node.idx as int) == Some(access),
    {
        let ghost before = graph@;
        assert(before.passes[self.idx as int].wf() && before.passes[self.idx as int].within(
            before.slots.len() as int,
        ));
        graph.passes[self.idx].set_access(node.idx, access);
        proof {
            let after = graph@;
            let view = after.passes[self.idx as int];
            assert(after.passes =~= before.passes.update(self.idx as int, view));
            assert forall|i: int| 0 <= i < view.accesses.len() implies (
            #[trigger] view.accesses[i]).node < before.slots.len() by {
                let old_view = before.passes[self.idx as int];
                if old_view.accesses_node(node.idx as int) {
                    let at = old_view.position(node.idx as int);
                    if i != at {
                        assert(view.accesses[i] == old_view.accesses[i]);
                    }
                } else {
                    if i < old_view.accesses.len() {
                        assert(view.accesses[i] == old_view.accesses[i]);
                    }
                }
            }
            assert forall|i: int| 0 <= i < view.bindings.len() implies (
            #[trigger] view.bindings[i]).node < before.slots.len() by {
                assert(before.passes[self.idx as int].bindings[i].node < before.slots.len());
            }
            RenderGraph::lemma_pass_replaced(before, after, self.idx as int);
        }
    }

    /// Binds a pipeline to the pass, which makes it a pass of the kind of that pipeline.
    pub fn bind_pipeline(self, graph: &mut RenderGraph, pipeline: Pipeline) -> (pass:
        PipelinePassRef)
        requires
            old(graph).wf(),
            old(graph)@.has_pass(self),
        ensures
            final(graph).wf(),
            final(graph)@.tag == old(graph)@.tag,
            final(graph)@.slots == old(graph)@.slots,
            final(graph)@.passes == old(graph)@.passes.update(
                self.idx as int,
                PassView { pipeline: Some(pipeline@), ..old(graph)@.passes[self.idx as int] },
            ),
            pass.pass == self,
            edge(Owner::PassRef, Object::Pipeline(pipeline.kind)) == Some(
                Object::PipelinePass(pass.kind),
            ),
            final(graph)@.has_pipeline_pass(pass),
    {
        let ghost before = graph@;
        assert(before.passes[self.idx as int].wf() && before.passes[self.idx as int].within(
            before.slots.len() as int,
        ));
        let kind = pipeline.kind;
        graph.passes[self.idx].set_pipeline(pipeline);
        proof {
            let after = graph@;
            assert(after.passes =~= before.passes.update(
                self.idx as int,
                after.passes[self.idx as int],
            ));
            RenderGraph::lemma_pass_replaced(before, after, self.idx as int);
        }
        PipelinePassRef { pass: self, kind }
    }
}

impl PipelinePassRef {
    /// Declares that the pass accesses `node` in the way `access` says; see
    /// [`PassRef::access_node`].
    pub fn access_node(self, graph: &mut RenderGraph, node: Node, access: Access)
        requires
            old(graph).wf(),
            old(graph)@.has_pipeline_pass(self),
            old(graph)@.owns(node),
        ensures
            final(graph).wf(),
            final(graph)@.tag == old(graph)@.tag,
            final(graph)@.slots == old(graph)@.slots,
            final(graph)@.passes == old(graph)@.passes.update(
                self.pass.idx as int,
                PassView {
                    accesses: old(graph)@.passes[self.pass.idx as int].with_access(
                        node.idx,
                        access,
                    ),
                    ..old(graph)@.passes[self.pass.idx as int]
                },
            ),
            final(graph)@.has_pipeline_pass(self),
    {
        self.pass.access_node(graph, node, access);
    }

    /// Hands the bytes `data` to the pipeline of the pass as push constants at `offset`.
    pub fn push_constants(self, graph: &mut RenderGraph, offset: u32, data: Vec<u8>)
        requires
            old(graph).wf(),
            old(graph)@.has_pipeline_pass(self),
        ensures
            final(graph).wf(),
            final(graph)@.tag == old(graph)@.tag,
            final(graph)@.slots == old(graph)@.slots,
            final(graph)@.passes == old(graph)@.passes.update(
                self.pass.idx as int,
                PassView {
                    push_constants: old(graph)@.passes[self.pass.idx as int].push_constants.push(
                        (offset, data@),
                    ),
                    ..old(graph)@.passes[self.pass.idx as int]
                },
            ),
    {
        let ghost before = graph@;
        let idx = self.pass.idx;
        assert(before.passes[idx as int].wf() && before.passes[idx as int].within(
            before.slots.len() as int,
        ));
        graph.passes[idx].add_push_constants(offset, data);
        proof {
            let after = graph@;
            assert(after.passes =~= before.passes.update(idx as int, after.passes[idx as int]));
            RenderGraph::lemma_pass_replaced(before, after, idx as int);
        }
    }

    /// Binds `node` to the descriptor `binding` of the descriptor set `set` of the pipeline.
    pub fn bind_descriptor(self, graph: &mut RenderGraph, set: u32, binding: u32, node: Node)
        requires
            old(graph).wf(),
            old(graph)@.has_pipeline_pass(self),
            old(graph)@.owns(node),
        ensures
            final(graph).wf(),
            final(graph)@.tag == old(graph)@.tag,
            final(graph)@.slots == old(graph)@.slots,
            final(graph)@.passes == old(graph)@.passes.update(
                self.pass.idx as int,
                PassView {
                    bindings: old(graph)@.passes[self.pass.idx as int].bindings.push(
                        DescriptorBinding { set, binding, node: node.idx },
                    ),
                    ..old(graph)@.passes[self.pass.idx as int]
                },
            ),
    {
        let ghost before = graph@;
        let idx = self.pass.idx;
        assert(before.passes[idx as int].wf() && before.passes[idx as int].within(
            before.slots.len() as int,
        ));
        graph.passes[idx].add_binding(DescriptorBinding { set, binding, node: node.idx });
        proof {
            let after = graph@;
            let view = after.passes[idx as int];
            assert(after.passes =~= before.passes.update(idx as int, view));
            assert forall|i: int| 0 <= i < view.bindings.len() implies (
            #[trigger] view.bindings[i]).node < before.slots.len() by {
                if i < before.passes[idx as int].bindings.len() {
                    assert(before.passes[idx as int].bindings[i].node < before.slots.len());
                }
            }
            assert forall|i: int| 0 <= i < view.accesses.len() implies (
            #[trigger] view.accesses[i]).node < before.slots.len() by {
                assert(before.passes[idx as int].accesses[i].node < before.slots.len());
            }
            RenderGraph::lemma_pass_replaced(before, after, idx as int);
        }
    }
}

/// The last pass before `k` which accesses a node is one of the first `k` passes and
/// accesses the node, and no pass between it and `k` does. Where there is none, none of the
/// first `k` passes accesses the node.
pub proof fn lemma_last_pass_before(graph: GraphView, node: int, k: int)
    requires
        0 <= k <= graph.passes.len(),
    ensures
        match graph.last_pass_before(node, k) {
            Some(p) => 0 <= p < k && graph.passes[p].accesses_node(node)
                && graph.passes[p].access_of(
                node,
            ) is Some && forall|q: int| p < q < k
                ==> !(#[trigger] graph.passes[q]).accesses_node(node),
            None => forall|q: int| 0 <= q < k ==> !(#[trigger] graph.passes[q]).accesses_node(node),
        },
    decreases k,
{
    if k > 0 && !graph.passes[k - 1].accesses_node(node) {
        lemma_last_pass_before(graph, node, k - 1);
    }
}

/// No two nodes of a graph name the same device object while both are bound: two bound
/// nodes of one graph which hold the same object are one node.
pub proof fn lemma_node_unique(graph: GraphView, a: Node, b: Node)
    requires
        graph.wf(),
        graph.owns(a),
        graph.owns(b),
        graph.slots[a.idx as int].resource.same_object(graph.slots[b.idx as int].resource),
    ensures
        a == b,
{
    if a.idx < b.idx {
        assert(graph.slots[a.idx as int].bound && graph.slots[b.idx as int].bound);
    } else if b.idx < a.idx {
        assert(graph.slots[b.idx as int].bound && graph.slots[a.idx as int].bound);
    }
}

} // verus!
