//! Passes: the units of work of a graph.

use super::edge::PipelineKind;
use crate::access::Access;
use crate::driver::descriptor_set::{DescriptorPoolInfo, DescriptorPoolInfoView};
use crate::pool::Description;
use vstd::prelude::*;

verus! {

/// The access which a pass makes of one node.
#[derive(Clone, Copy, Debug, PartialEq, Eq, Hash, Structural)]
pub struct NodeAccess {
    /// The index of the node within its graph.
    pub node: usize,
    pub access: Access,
}

/// A node bound to a descriptor of a pipeline.
#[derive(Clone, Copy, Debug, PartialEq, Eq, Hash, Structural)]
pub struct DescriptorBinding {
    pub set: u32,
    pub binding: u32,
    /// The index of the node within its graph.
    pub node: usize,
}

/// A pipeline as a pass refers to it.
#[derive(Clone, Debug, PartialEq, Eq)]
pub struct Pipeline {
    pub kind: PipelineKind,
    /// The handle of the pipeline.
    pub id: u64,
    /// The pool of descriptors which a pass with this pipeline draws its descriptor sets
    /// from. A pipeline without descriptor sets asks for none.
    pub descriptors: DescriptorPoolInfo,
}

/// What a [`Pipeline`] says.
pub struct PipelineView {
    pub kind: PipelineKind,
    pub id: u64,
    pub descriptors: DescriptorPoolInfoView,
}

impl View for Pipeline {
    type V = PipelineView;

    open spec fn view(&self) -> PipelineView {
        PipelineView { kind: self.kind, id: self.id, descriptors: self.descriptors@ }
    }
}

/// Bytes handed to the pipeline of a pass.
#[derive(Clone, Debug, PartialEq, Eq)]
pub struct PushConstants {
    pub offset: u32,
    pub data: Vec<u8>,
}

/// A named unit of work: the nodes it accesses, and the pipeline it runs with what is bound
/// to it.
pub struct Pass {
    name: String,
    accesses: Vec<NodeAccess>,
    pipeline: Option<Pipeline>,
    push_constants: Vec<PushConstants>,
    bindings: Vec<DescriptorBinding>,
}

/// What a [`Pass`] says.
pub struct PassView {
    pub name: Seq<char>,
    /// The accesses in the order in which they were declared, one for each node.
    pub accesses: Seq<NodeAccess>,
    pub pipeline: Option<PipelineView>,
    /// Offset and bytes of each block of push constants.
    pub push_constants: Seq<(u32, Seq<u8>)>,
    pub bindings: Seq<DescriptorBinding>,
}

impl PassView {
    /// Whether no node is accessed twice.
    pub open spec fn wf(self) -> bool {
        forall|i: int, j: int|
            0 <= i < j < self.accesses.len() ==> (#[trigger] self.accesses[i]).node != (
            #[trigger] self.accesses[j]).node
    }

    /// Whether the pass accesses the node.
    pub open spec fn accesses_node(self, node: int) -> bool {
        exists|i: int| 0 <= i < self.accesses.len() && (#[trigger] self.accesses[i]).node == node
    }

    /// Where among the accesses of the pass the node stands.
    pub open spec fn position(self, node: int) -> int {
        choose|i: int| 0 <= i < self.accesses.len() && (#[trigger] self.accesses[i]).node == node
    }

    /// The access which the pass makes of the node, where it makes one.
    pub open spec fn access_of(self, node: int) -> Option<Access> {
        if self.accesses_node(node) {
            Some(self.accesses[self.position(node)].access)
        } else {
            None
        }
    }

    /// The accesses after the pass has declared `access` of `node`: a node which the pass
    /// accessed before keeps its place and takes the new access; any other is added last.
    pub open spec fn with_access(self, node: usize, access: Access) -> Seq<NodeAccess> {
        if self.accesses_node(node as int) {
            self.accesses.update(self.position(node as int), NodeAccess { node, access })
        } else {
            self.accesses.push(NodeAccess { node, access })
        }
    }

    /// Whether the pass draws descriptor sets, and so needs a descriptor pool to run.
    pub open spec fn needs_pool(self) -> bool {
        self.pipeline is Some && self.pipeline->0.descriptors.max_sets > 0
    }

    /// Every index of a node which occurs in the pass is below `nodes`.
    pub open spec fn within(self, nodes: int) -> bool {
        &&& forall|i: int|
            0 <= i < self.accesses.len() ==> (#[trigger] self.accesses[i]).node < nodes
        &&& forall|i: int|
            0 <= i < self.bindings.len() ==> (#[trigger] self.bindings[i]).node < nodes
    }
}

/// The views of the blocks of push constants.
pub open spec fn push_constants_view(blocks: Seq<PushConstants>) -> Seq<(u32, Seq<u8>)> {
    Seq::new(blocks.len(), |i: int| (blocks[i].offset, blocks[i].data@))
}

impl View for Pass {
    type V = PassView;

    closed spec fn view(&self) -> PassView {
        PassView {
            name: self.name@,
            accesses: self.accesses@,
            pipeline: match self.pipeline {
                Some(pipeline) => Some(pipeline@),
                None => None,
            },
            push_constants: push_constants_view(self.push_constants@),
            bindings: self.bindings@,
        }
    }
}

impl Pass {
    /// A pass of the given name which accesses nothing and runs no pipeline.
    pub fn new(name: String) -> (pass: Pass)
        ensures
            pass@.name == name@,
            pass@.accesses == Seq::<NodeAccess>::empty(),
            pass@.pipeline is None,
            pass@.push_constants == Seq::<(u32, Seq<u8>)>::empty(),
            pass@.bindings == Seq::<DescriptorBinding>::empty(),
            pass@.wf(),
    {
        let pass = Pass {
            name,
            accesses: Vec::new(),
            pipeline: None,
            push_constants: Vec::new(),
            bindings: Vec::new(),
        };
        assert(pass@.push_constants =~= Seq::<(u32, Seq<u8>)>::empty());
        pass
    }

    /// The name of the pass.
    pub fn name(&self) -> (name: &String)
        ensures
            name@ == self@.name,
    {
        &self.name
    }

    /// The number of nodes which the pass accesses.
    pub fn access_count(&self) -> (count: usize)
        ensures
            count == self@.accesses.len(),
    {
        self.accesses.len()
    }

    /// The access which was declared as the `i`-th.
    pub fn access_at(&self, i: usize) -> (access: NodeAccess)
        requires
            i < self@.accesses.len(),
        ensures
            access == self@.accesses[i as int],
    {
        self.accesses[i]
    }

    /// Where among the accesses of the pass the node stands, if the pass accesses it.
    pub fn find_access(&self, node: usize) -> (found: Option<usize>)
        requires
            self@.wf(),
        ensures
            found is Some <==> self@.accesses_node(node as int),
            found is Some ==> found->0 == self@.position(node as int) && found->0
                < self@.accesses.len() && self@.accesses[found->0 as int].node == node,
            found is Some ==> self@.access_of(node as int) == Some(
                self@.accesses[found->0 as int].access,
            ),
            found is None ==> self@.access_of(node as int) is None,
    {
        let mut i: usize = 0;
        while i < self.accesses.len()
            invariant
                self@.wf(),
                i <= self.accesses@.len(),
                forall|j: int| 0 <= j < i ==> (#[trigger] self.accesses@[j]).node != node,
            decreases self.accesses@.len() - i,
        {
            if self.accesses[i].node == node {
                proof {
                    assert(self@.accesses[i as int].node == node);
                    let p = self@.position(node as int);
                    assert(self@.accesses[p].node == node);
                    assert(p == i);
                }
                return Some(i);
            }
            i += 1;
        }
        None
    }

    /// The pipeline which is bound to the pass.
    pub fn pipeline(&self) -> (pipeline: &Option<Pipeline>)
        ensures
            pipeline is Some <==> self@.pipeline is Some,
            pipeline is Some ==> pipeline->0@ == self@.pipeline->0,
    {
        &self.pipeline
    }

    /// The description of the descriptor pool which the pass needs, if it needs one.
    pub fn pool_info(&self) -> (info: Option<DescriptorPoolInfo>)
        ensures
            info is Some <==> self@.needs_pool(),
            info is Some ==> info->0@ == self@.pipeline->0.descriptors,
    {
        match &self.pipeline {
            Some(pipeline) => {
                if pipeline.descriptors.max_sets > 0 {
                    Some(pipeline.descriptors.duplicate())
                } else {
                    None
                }
            },
            None => None,
        }
    }

    /// Declares that the pass accesses `node` in the way `access` says. A pass makes one
    /// access of a node: a later declaration for the same node replaces the earlier one.
    pub fn set_access(&mut self, node: usize, access: Access)
        requires
            old(self)@.wf(),
        ensures
            final(self)@.wf(),
            final(self)@.accesses == old(self)@.with_access(node, access),
            final(self)@.access_of(node as int) == Some(access),
            forall|other: int|
                other != node ==> #[trigger] final(self)@.access_of(other) == old(self)@.access_of(
                    other,
                ),
            final(self)@.name == old(self)@.name,
            final(self)@.pipeline == old(self)@.pipeline,
            final(self)@.push_constants == old(self)@.push_constants,
            final(self)@.bindings == old(self)@.bindings,
    {
        let ghost before = self@;
        match self.find_access(node) {
            Some(i) => {
                self.accesses.set(i, NodeAccess { node, access });
            },
            None => {
                self.accesses.push(NodeAccess { node, access });
            },
        }
        proof {
            let after = self@;
            assert(after.accesses == before.with_access(node, access));
            let at = if before.accesses_node(node as int) {
                before.position(node as int)
            } else {
                before.accesses.len() as int
            };
            assert(after.accesses[at].node == node);
            assert forall|i: int| 0 <= i < after.accesses.len() && i != at implies (
            #[trigger] after.accesses[i]) == before.accesses[i] by {}
            assert forall|i: int, j: int| 0 <= i < j < after.accesses.len() implies (
            #[trigger] after.accesses[i]).node != (#[trigger] after.accesses[j]).node by {
                if i != at && j != at {
                    assert(before.accesses[i].node != before.accesses[j].node);
                } else if i == at {
                    if before.accesses_node(node as int) {
                        assert(before.accesses[at].node == node);
                        assert(before.accesses[j].node != before.accesses[at].node);
                    }
                } else {
                    if before.accesses_node(node as int) {
                        assert(before.accesses[at].node == node);
                        assert(before.accesses[i].node != before.accesses[at].node);
                    } else {
                        assert(before.accesses[i].node != node);
                    }
                }
            }
            assert(after.accesses_node(node as int));
            assert(after.position(node as int) == at) by {
                let p = after.position(node as int);
                assert(after.accesses[p].node == node);
                if p != at {
                    if p < at {
                        assert(after.accesses[p].node != after.accesses[at].node);
                    } else {
                        assert(after.accesses[at].node != after.accesses[p].node);
                    }
                }
            }
            assert forall|other: int| other != node implies #[trigger] after.access_of(other)
                == before.access_of(other) by {
                if before.accesses_node(other) {
                    let p = before.position(other);
                    assert(before.accesses[p].node == other);
                    assert(p != at);
                    assert(after.accesses[p].node == other);
                    let q = after.position(other);
                    assert(after.accesses[q].node == other);
                    if q != p {
                        if q < p {
                            assert(after.accesses[q].node != after.accesses[p].node);
                        } else {
                            assert(after.accesses[p].node != after.accesses[q].node);
                        }
                    }
                } else if after.accesses_node(other) {
                    let q = after.position(other);
                    assert(after.accesses[q].node == other);
                    assert(q != at);
                    assert(before.accesses[q].node == other);
                }
            }
        }
    }

    /// Binds a pipeline to the pass, in place of the one bound before.
    pub fn set_pipeline(&mut self, pipeline: Pipeline)
        ensures
            final(self)@.pipeline == Some(pipeline@),
            final(self)@.name == old(self)@.name,
            final(self)@.accesses == old(self)@.accesses,
            final(self)@.push_constants == old(self)@.push_constants,
            final(self)@.bindings == old(self)@.bindings,
    {
        self.pipeline = Some(pipeline);
    }

    /// Adds a block of push constants to the pass.
    pub fn add_push_constants(&mut self, offset: u32, data: Vec<u8>)
        ensures
            final(self)@.push_constants == old(self)@.push_constants.push((offset, data@)),
            final(self)@.name == old(self)@.name,
            final(self)@.accesses == old(self)@.accesses,
            final(self)@.pipeline == old(self)@.pipeline,
            final(self)@.bindings == old(self)@.bindings,
    {
        let ghost before = self@;
        self.push_constants.push(PushConstants { offset, data });
        assert(self@.push_constants =~= before.push_constants.push((offset, data@)));
    }

    /// Binds a node to a descriptor of the pipeline of the pass.
    pub fn add_binding(&mut self, binding: DescriptorBinding)
        ensures
            final(self)@.bindings == old(self)@.bindings.push(binding),
            final(self)@.name == old(self)@.name,
            final(self)@.accesses == old(self)@.accesses,
            final(self)@.pipeline == old(self)@.pipeline,
            final(self)@.push_constants == old(self)@.push_constants,
    {
        self.bindings.push(binding);
    }
}

} // verus!
